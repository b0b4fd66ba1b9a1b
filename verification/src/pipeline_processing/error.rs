//! What can go wrong in the pipeline, by kind.

use crate::nodes_io::reader_cinema_dng::Tag;
use crate::pipeline_processing::frame::LengthMismatch;
use crate::text::{decimal_digits, push_decimal};
use vstd::prelude::*;
use vstd::string::StringExecFns;

verus! {

/// The kinds of failure a pull can end in.
#[derive(Clone, Copy, Debug, PartialEq, Eq, Structural)]
pub enum ErrorKind {
    Config,
    Io,
    FormatParse,
    WrongPayloadType,
    FrameOutOfRange,
    GpuUnavailable,
    GpuFailure,
    Cancelled,
    Internal,
}

/// What is wrong with the value given for a parameter.
#[derive(Clone, Copy, Debug, PartialEq, Eq, Structural)]
pub enum ParameterFault {
    /// The parameter has to be given and was not.
    Missing,
    /// The value is of another kind than the parameter.
    WrongKind,
    /// The value is an integer outside the bounds of the parameter.
    OutOfRange { value: i64, low: i64, high: i64 },
}

/// A node was set up with something it cannot work with.
#[derive(Clone, Debug, PartialEq, Eq)]
pub enum ConfigFault {
    /// The file pattern is not a valid glob pattern.
    InvalidPattern { pattern: String },
    /// The file pattern matched no file.
    NoFilesMatched { pattern: String },
    /// The frames that reach a node have samples it cannot convert.
    UnsupportedSampleWidth { bits: u8 },
    /// The frames that reach a node have floating-point samples.
    FloatSamples,
    /// A parameter of a node has no value, or a value it cannot have.
    Parameter { name: String, fault: ParameterFault },
    /// One frame of the size asked for is more than the machine can address.
    FrameTooLarge { width: u64, height: u64 },
    /// A node names an input that is not among the nodes before it.
    UnknownInput { input: usize, nodes: usize },
}

/// A file does not hold what its format promises.
#[derive(Clone, Copy, Debug, PartialEq, Eq)]
pub enum FormatFault {
    /// A tag that every frame needs is not in the file.
    MissingTag(Tag),
    /// A tag is there, but its value has the wrong type.
    UnreadableTag(Tag),
    /// The colour filter pattern has fewer than three entries.
    ShortCfaPattern { len: usize },
    /// Floating-point samples of a width other than 16 or 32 bits.
    UnsupportedFloatWidth { bits_per_sample: u32 },
    /// Unsigned samples of no bits or of more than 32.
    UnsupportedIntegerWidth { bits_per_sample: u32 },
    /// A sample format other than unsigned integer and IEEE float.
    UnknownSampleFormat { sample_format: u32 },
    /// The image data is not as long as the tags say.
    ImageDataLength(LengthMismatch),
}

/// A failure of the pipeline.
#[derive(Clone, Debug, PartialEq, Eq)]
pub enum Error {
    Config(ConfigFault),
    Io { message: String },
    FormatParse(FormatFault),
    WrongPayloadType { expected: String, actual: String },
    FrameOutOfRange { requested: u64, available: u64 },
    GpuUnavailable,
    GpuFailure { message: String },
    Cancelled,
    Internal { message: String },
}

impl Tag {
    /// The name of the tag in the DNG specification.
    pub open spec fn spec_name(self) -> Seq<char> {
        match self {
            Tag::ImageWidth => "ImageWidth"@,
            Tag::ImageLength => "ImageLength"@,
            Tag::BitsPerSample => "BitsPerSample"@,
            Tag::SampleFormat => "SampleFormat"@,
            Tag::CfaPattern => "CFAPattern"@,
            Tag::FrameRate => "FrameRate"@,
        }
    }

    /// The name of the tag in the DNG specification.
    pub fn name(&self) -> (name: &'static str)
        ensures
            name@ == self.spec_name(),
    {
        match self {
            Tag::ImageWidth => "ImageWidth",
            Tag::ImageLength => "ImageLength",
            Tag::BitsPerSample => "BitsPerSample",
            Tag::SampleFormat => "SampleFormat",
            Tag::CfaPattern => "CFAPattern",
            Tag::FrameRate => "FrameRate",
        }
    }
}

impl ParameterFault {
    pub open spec fn spec_message(self) -> Seq<char> {
        match self {
            ParameterFault::Missing => " is missing"@,
            ParameterFault::WrongKind => " has a value of the wrong kind"@,
            ParameterFault::OutOfRange { .. } => " is out of range"@,
        }
    }

    /// What is wrong, to be put after the name of the parameter.
    pub fn message(&self) -> (text: &'static str)
        ensures
            text@ == self.spec_message(),
    {
        match self {
            ParameterFault::Missing => " is missing",
            ParameterFault::WrongKind => " has a value of the wrong kind",
            ParameterFault::OutOfRange { .. } => " is out of range",
        }
    }
}

impl ConfigFault {
    pub open spec fn spec_message(self) -> Seq<char> {
        match self {
            ConfigFault::InvalidPattern { pattern } => "invalid file pattern "@ + pattern@,
            ConfigFault::NoFilesMatched { pattern } => "no files matched the pattern "@
                + pattern@,
            ConfigFault::UnsupportedSampleWidth { bits } => "cannot convert samples of "@
                + decimal_digits(bits as nat) + " bits"@,
            ConfigFault::FloatSamples => "cannot convert floating-point samples"@,
            ConfigFault::Parameter { name, fault } => "parameter "@ + name@ + fault.spec_message(),
            ConfigFault::FrameTooLarge { width, height } => "frames of "@ + decimal_digits(
                width as nat,
            ) + " by "@ + decimal_digits(height as nat) + " samples are too large"@,
            ConfigFault::UnknownInput { input, nodes } => "input "@ + decimal_digits(
                input as nat,
            ) + " is none of the "@ + decimal_digits(nodes as nat) + " nodes before it"@,
        }
    }

    /// The fault in words.
    pub fn to_string(&self) -> (text: String)
        ensures
            text@ == self.spec_message(),
    {
        match self {
            ConfigFault::InvalidPattern { pattern } => {
                let mut text = String::from_str("invalid file pattern ");
                text.append(pattern.as_str());
                text
            },
            ConfigFault::NoFilesMatched { pattern } => {
                let mut text = String::from_str("no files matched the pattern ");
                text.append(pattern.as_str());
                text
            },
            ConfigFault::UnsupportedSampleWidth { bits } => {
                let mut text = String::from_str("cannot convert samples of ");
                push_decimal(&mut text, *bits as u64);
                text.append(" bits");
                text
            },
            ConfigFault::FloatSamples => String::from_str("cannot convert floating-point samples"),
            ConfigFault::Parameter { name, fault } => {
                let mut text = String::from_str("parameter ");
                text.append(name.as_str());
                text.append(fault.message());
                text
            },
            ConfigFault::FrameTooLarge { width, height } => {
                let mut text = String::from_str("frames of ");
                push_decimal(&mut text, *width);
                text.append(" by ");
                push_decimal(&mut text, *height);
                text.append(" samples are too large");
                text
            },
            ConfigFault::UnknownInput { input, nodes } => {
                let mut text = String::from_str("input ");
                push_decimal(&mut text, *input as u64);
                text.append(" is none of the ");
                push_decimal(&mut text, *nodes as u64);
                text.append(" nodes before it");
                text
            },
        }
    }
}

impl FormatFault {
    pub open spec fn spec_message(self) -> Seq<char> {
        match self {
            FormatFault::MissingTag(tag) => "couldnt read "@ + tag.spec_name(),
            FormatFault::UnreadableTag(tag) => "couldnt interpret "@ + tag.spec_name(),
            FormatFault::ShortCfaPattern { len } => "CFAPattern has only "@ + decimal_digits(
                len as nat,
            ) + " entries"@,
            FormatFault::UnsupportedFloatWidth {
                bits_per_sample,
            } => "DNG is IEEE float with bits_per_sample="@ + decimal_digits(
                bits_per_sample as nat,
            ) + ". This is unsupported"@,
            FormatFault::UnsupportedIntegerWidth {
                bits_per_sample,
            } => "DNG is unsigned integer with bits_per_sample="@ + decimal_digits(
                bits_per_sample as nat,
            ) + ". This is unsupported"@,
            FormatFault::UnknownSampleFormat { sample_format } => "Unknown SampleFormat "@
                + decimal_digits(sample_format as nat),
            FormatFault::ImageDataLength(lengths) => "image data of "@ + decimal_digits(
                lengths.actual as nat,
            ) + " bytes does not fit the image the tags describe"@,
        }
    }

    /// The fault in words.
    pub fn to_string(&self) -> (text: String)
        ensures
            text@ == self.spec_message(),
    {
        match self {
            FormatFault::MissingTag(tag) => {
                let mut text = String::from_str("couldnt read ");
                text.append(tag.name());
                text
            },
            FormatFault::UnreadableTag(tag) => {
                let mut text = String::from_str("couldnt interpret ");
                text.append(tag.name());
                text
            },
            FormatFault::ShortCfaPattern { len } => {
                let mut text = String::from_str("CFAPattern has only ");
                push_decimal(&mut text, *len as u64);
                text.append(" entries");
                text
            },
            FormatFault::UnsupportedFloatWidth { bits_per_sample } => {
                let mut text = String::from_str("DNG is IEEE float with bits_per_sample=");
                push_decimal(&mut text, *bits_per_sample as u64);
                text.append(". This is unsupported");
                text
            },
            FormatFault::UnsupportedIntegerWidth { bits_per_sample } => {
                let mut text = String::from_str("DNG is unsigned integer with bits_per_sample=");
                push_decimal(&mut text, *bits_per_sample as u64);
                text.append(". This is unsupported");
                text
            },
            FormatFault::UnknownSampleFormat { sample_format } => {
                let mut text = String::from_str("Unknown SampleFormat ");
                push_decimal(&mut text, *sample_format as u64);
                text
            },
            FormatFault::ImageDataLength(lengths) => {
                let mut text = String::from_str("image data of ");
                push_decimal(&mut text, lengths.actual as u64);
                text.append(" bytes does not fit the image the tags describe");
                text
            },
        }
    }
}

impl Error {
    pub open spec fn spec_kind(self) -> ErrorKind {
        match self {
            Error::Config(_) => ErrorKind::Config,
            Error::Io { .. } => ErrorKind::Io,
            Error::FormatParse(_) => ErrorKind::FormatParse,
            Error::WrongPayloadType { .. } => ErrorKind::WrongPayloadType,
            Error::FrameOutOfRange { .. } => ErrorKind::FrameOutOfRange,
            Error::GpuUnavailable => ErrorKind::GpuUnavailable,
            Error::GpuFailure { .. } => ErrorKind::GpuFailure,
            Error::Cancelled => ErrorKind::Cancelled,
            Error::Internal { .. } => ErrorKind::Internal,
        }
    }

    pub open spec fn spec_message(self) -> Seq<char> {
        match self {
            Error::Config(fault) => fault.spec_message(),
            Error::Io { message } => message@,
            Error::FormatParse(fault) => fault.spec_message(),
            Error::WrongPayloadType { expected, actual } => "wanted a frame with type "@
                + expected@ + ", but the payload was of type "@ + actual@,
            Error::FrameOutOfRange { requested, available } => "frame "@ + decimal_digits(
                requested as nat,
            ) + " was requested but this stream only has a length of "@ + decimal_digits(
                available as nat,
            ),
            Error::GpuUnavailable => "gpu required but not present"@,
            Error::GpuFailure { message } => message@,
            Error::Cancelled => "the pull was cancelled"@,
            Error::Internal { message } => message@,
        }
    }

    /// The kind of the failure.
    pub fn kind(&self) -> (kind: ErrorKind)
        ensures
            kind == self.spec_kind(),
    {
        match self {
            Error::Config(_) => ErrorKind::Config,
            Error::Io { .. } => ErrorKind::Io,
            Error::FormatParse(_) => ErrorKind::FormatParse,
            Error::WrongPayloadType { .. } => ErrorKind::WrongPayloadType,
            Error::FrameOutOfRange { .. } => ErrorKind::FrameOutOfRange,
            Error::GpuUnavailable => ErrorKind::GpuUnavailable,
            Error::GpuFailure { .. } => ErrorKind::GpuFailure,
            Error::Cancelled => ErrorKind::Cancelled,
            Error::Internal { .. } => ErrorKind::Internal,
        }
    }

    /// The failure in words.
    pub fn to_string(&self) -> (text: String)
        ensures
            text@ == self.spec_message(),
    {
        match self {
            Error::Config(fault) => fault.to_string(),
            Error::Io { message } => message.clone(),
            Error::FormatParse(fault) => fault.to_string(),
            Error::WrongPayloadType { expected, actual } => {
                let mut text = String::from_str("wanted a frame with type ");
                text.append(expected.as_str());
                text.append(", but the payload was of type ");
                text.append(actual.as_str());
                text
            },
            Error::FrameOutOfRange { requested, available } => {
                let mut text = String::from_str("frame ");
                push_decimal(&mut text, *requested);
                text.append(" was requested but this stream only has a length of ");
                push_decimal(&mut text, *available);
                text
            },
            Error::GpuUnavailable => String::from_str("gpu required but not present"),
            Error::GpuFailure { message } => message.clone(),
            Error::Cancelled => String::from_str("the pull was cancelled"),
            Error::Internal { message } => message.clone(),
        }
    }
}

} // verus!
