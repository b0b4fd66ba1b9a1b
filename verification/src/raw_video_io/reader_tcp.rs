//! A source that takes raw frames of a fixed size from a byte stream.
//!
//! The stream carries the frames back to back and nothing else, so the
//! only thing to know is how many bytes make a frame.

use crate::pipeline_processing::buffers::{backing_for, Buffer, CpuBuffer};
use crate::pipeline_processing::error::{ConfigFault, Error, FormatFault, ParameterFault};
use crate::pipeline_processing::parametrizable::{
    int_fault,
    is_parameter_error,
    text_fault,
    value_named,
    NamedValue,
    ParameterType,
    ParameterTypeDescriptor,
    ParameterValue,
    Parameters,
    ParametersDescriptor,
};
use crate::pipeline_processing::frame::{
    CfaDescriptor,
    ColorInterpretation,
    Compression,
    Frame,
    FrameInterpretation,
    SampleInterpretation,
};
use crate::pipeline_processing::node::Caps;
use crate::pipeline_processing::payload::Payload;
use crate::pipeline_processing::processing_context::ProcessingContext;
use vstd::prelude::*;

verus! {

/// The interpretation of the frames of a stream: Bayer frames with red in
/// the first row and column, of unsigned samples, uncompressed.
pub open spec fn stream_interpretation(width: u64, height: u64, bit_depth: u8) -> FrameInterpretation {
    FrameInterpretation {
        width,
        height,
        fps: None,
        color_interpretation: ColorInterpretation::Bayer(
            CfaDescriptor { red_in_first_col: true, red_in_first_row: true },
        ),
        sample_interpretation: SampleInterpretation::UInt(bit_depth),
        compression: Compression::Uncompressed,
    }
}

/// Why the value under `name` is no integer from `low` to `high`, if it
/// is none.
pub open spec fn range_fault(values: Seq<NamedValue>, name: Seq<char>, low: i64, high: i64) -> Option<
    ParameterFault,
> {
    match value_named(values, name) {
        Some(ParameterValue::IntRange(value)) => if low <= value <= high {
            None
        } else {
            Some(ParameterFault::OutOfRange { value, low, high })
        },
        _ => int_fault(values, name),
    }
}

/// The first parameter of a stream source that cannot be taken, and why:
/// the address, the width, the height and the sample width are looked at
/// in turn.
pub open spec fn stream_fault(values: Seq<NamedValue>) -> Option<(Seq<char>, ParameterFault)> {
    match text_fault(values, "address"@) {
        Some(fault) => Some(("address"@, fault)),
        None => match range_fault(values, "width"@, 0, i64::MAX) {
            Some(fault) => Some(("width"@, fault)),
            None => match range_fault(values, "height"@, 0, i64::MAX) {
                Some(fault) => Some(("height"@, fault)),
                None => match range_fault(values, "bit-depth"@, 8, 16) {
                    Some(fault) => Some(("bit-depth"@, fault)),
                    None => None,
                },
            },
        },
    }
}

/// The parameters of a stream source that could be taken: the address,
/// the width, the height and the sample width.
pub open spec fn stream_values(values: Seq<NamedValue>) -> Option<(String, u64, u64, u8)> {
    match (
        value_named(values, "address"@),
        value_named(values, "width"@),
        value_named(values, "height"@),
        value_named(values, "bit-depth"@),
    ) {
        (
            Some(ParameterValue::StringParameter(address)),
            Some(ParameterValue::IntRange(width)),
            Some(ParameterValue::IntRange(height)),
            Some(ParameterValue::IntRange(bits)),
        ) => if 0 <= width && 0 <= height && 8 <= bits <= 16 {
            Some((address, width as u64, height as u64, bits as u8))
        } else {
            None
        },
        _ => None,
    }
}

fn take_in_range(parameters: &mut Parameters, name: &str, low: i64, high: i64) -> (value: Result<
    i64,
    Error,
>)
    ensures
        match value {
            Ok(v) => {
                &&& value_named(old(parameters)@, name@) == Some(ParameterValue::IntRange(v))
                &&& low <= v <= high
                &&& range_fault(old(parameters)@, name@, low, high) is None
            },
            Err(e) => range_fault(old(parameters)@, name@, low, high) matches Some(fault)
                && is_parameter_error(e, name@, fault),
        },
        forall|other: Seq<char>|
            other != name@ ==> #[trigger] value_named(final(parameters)@, other) == value_named(
                old(parameters)@,
                other,
            ),
{
    let value = match parameters.take_int(name) {
        Ok(value) => value,
        Err(e) => {
            return Err(e);
        },
    };
    if value < low || value > high {
        return Err(
            Error::Config(
                ConfigFault::Parameter {
                    name: name.to_owned(),
                    fault: ParameterFault::OutOfRange { value, low, high },
                },
            ),
        );
    }
    Ok(value)
}

/// A stream of raw frames of one size.
#[derive(Clone, Copy, Debug)]
pub struct TcpReader {
    width: u64,
    height: u64,
    bit_depth: u8,
    frame_len: usize,
}

impl TcpReader {
    /// The interpretation of every frame of the stream.
    pub closed spec fn spec_interpretation(&self) -> FrameInterpretation {
        stream_interpretation(self.width, self.height, self.bit_depth)
    }

    /// Bytes of one frame.
    pub closed spec fn spec_frame_len(&self) -> usize {
        self.frame_len
    }

    /// A frame is as long as its interpretation requires.
    pub closed spec fn wf(&self) -> bool {
        self.frame_len == self.spec_interpretation().spec_required_bytes()
    }

    /// The source takes the address it connects to, and the width, the
    /// height and the sample width of the frames that come from there.
    pub fn describe_parameters() -> (declared: ParametersDescriptor)
        ensures
            declared@.len() == 4,
            declared@[0].name@ == "address"@,
            declared@[0].descriptor == ParameterTypeDescriptor::Mandatory(
                ParameterType::StringParameter,
            ),
            declared@[1].name@ == "width"@,
            declared@[1].descriptor == ParameterTypeDescriptor::Mandatory(
                ParameterType::IntRange(0, i64::MAX),
            ),
            declared@[2].name@ == "height"@,
            declared@[2].descriptor == ParameterTypeDescriptor::Mandatory(
                ParameterType::IntRange(0, i64::MAX),
            ),
            declared@[3].name@ == "bit-depth"@,
            declared@[3].descriptor == ParameterTypeDescriptor::Mandatory(
                ParameterType::IntRange(8, 16),
            ),
    {
        ParametersDescriptor::new().with(
            "address",
            ParameterTypeDescriptor::Mandatory(ParameterType::StringParameter),
        ).with(
            "width",
            ParameterTypeDescriptor::Mandatory(ParameterType::IntRange(0, i64::MAX)),
        ).with(
            "height",
            ParameterTypeDescriptor::Mandatory(ParameterType::IntRange(0, i64::MAX)),
        ).with("bit-depth", ParameterTypeDescriptor::Mandatory(ParameterType::IntRange(8, 16)))
    }

    /// A source of frames of `width` by `height` samples of `bit_depth`
    /// bits, or `None` when one frame is more than the machine can address.
    pub fn new(width: u64, height: u64, bit_depth: u8) -> (reader: Option<Self>)
        requires
            8 <= bit_depth <= 16,
        ensures
            match reader {
                Some(r) => {
                    &&& r.wf()
                    &&& r.spec_interpretation() == stream_interpretation(width, height, bit_depth)
                    &&& r.spec_frame_len() == width * height * bit_depth / 8
                },
                None => width * height * bit_depth / 8 > usize::MAX,
            },
    {
        let interpretation = FrameInterpretation {
            width,
            height,
            fps: None,
            color_interpretation: ColorInterpretation::Bayer(
                CfaDescriptor { red_in_first_col: true, red_in_first_row: true },
            ),
            sample_interpretation: SampleInterpretation::UInt(bit_depth),
            compression: Compression::Uncompressed,
        };
        assert(interpretation.spec_required_bytes() == width * height * bit_depth / 8) by {
            assert(width * height * 1 == width * height) by (nonlinear_arith);
        }
        match interpretation.required_bytes() {
            Some(frame_len) => Some(TcpReader { width, height, bit_depth, frame_len }),
            None => None,
        }
    }

    /// The source for the given parameters, and the address it is to be
    /// connected to.
    pub fn from_parameters(parameters: Parameters) -> (reader: Result<(Self, String), Error>)
        ensures
            match reader {
                Ok((r, address)) => {
                    &&& r.wf()
                    &&& stream_values(parameters@) matches Some((a, width, height, bits))
                    &&& address == a
                    &&& r.spec_interpretation() == stream_interpretation(width, height, bits)
                },
                Err(e) => match stream_fault(parameters@) {
                    Some((name, fault)) => is_parameter_error(e, name, fault),
                    None => {
                        &&& stream_values(parameters@) matches Some((_, width, height, bits))
                        &&& width * height * bits / 8 > usize::MAX
                        &&& e == Error::Config(ConfigFault::FrameTooLarge { width, height })
                    },
                },
            },
    {
        let mut parameters = parameters;
        proof {
            reveal_strlit("address");
            reveal_strlit("width");
            reveal_strlit("height");
            reveal_strlit("bit-depth");
            assert("address"@.len() == 7 && "width"@.len() == 5 && "height"@.len() == 6
                && "bit-depth"@.len() == 9);
        }
        let address = match parameters.take_string("address") {
            Ok(address) => address,
            Err(e) => {
                return Err(e);
            },
        };
        let width = match take_in_range(&mut parameters, "width", 0, i64::MAX) {
            Ok(width) => width as u64,
            Err(e) => {
                return Err(e);
            },
        };
        let height = match take_in_range(&mut parameters, "height", 0, i64::MAX) {
            Ok(height) => height as u64,
            Err(e) => {
                return Err(e);
            },
        };
        let bits = match take_in_range(&mut parameters, "bit-depth", 8, 16) {
            Ok(bits) => bits as u8,
            Err(e) => {
                return Err(e);
            },
        };
        match Self::new(width, height, bits) {
            Some(reader) => Ok((reader, address)),
            None => Err(Error::Config(ConfigFault::FrameTooLarge { width, height })),
        }
    }

    /// Number of bytes to take from the stream for the next frame.
    pub fn frame_len(&self) -> (len: usize)
        ensures
            len == self.spec_frame_len(),
    {
        self.frame_len
    }

    /// The payload for the bytes of one frame taken from the stream.
    pub fn process(&self, context: &ProcessingContext, bytes: Vec<u8>) -> (payload: Result<
        Payload,
        Error,
    >)
        requires
            self.wf(),
        ensures
            match payload {
                Ok(p) => {
                    &&& bytes@.len() == self.spec_frame_len()
                    &&& p matches Payload::CpuFrame(frame)
                    &&& frame.spec_interpretation() == self.spec_interpretation()
                    &&& frame.spec_storage()@ == bytes@
                    &&& frame.spec_storage().spec_backing() == backing_for(context.has_gpu())
                },
                Err(e) => {
                    &&& bytes@.len() != self.spec_frame_len()
                    &&& e matches Error::FormatParse(FormatFault::ImageDataLength(lengths))
                    &&& lengths.actual == bytes@.len()
                    &&& lengths.required == Some(self.spec_frame_len())
                },
            },
    {
        let interpretation = FrameInterpretation {
            width: self.width,
            height: self.height,
            fps: None,
            color_interpretation: ColorInterpretation::Bayer(
                CfaDescriptor { red_in_first_col: true, red_in_first_row: true },
            ),
            sample_interpretation: SampleInterpretation::UInt(self.bit_depth),
            compression: Compression::Uncompressed,
        };
        let backing = context.get_uninit_cpu_buffer(0).backing();
        match Frame::new(CpuBuffer::from_vec(bytes, backing), interpretation) {
            Ok(frame) => Ok(Payload::from(frame)),
            Err(lengths) => Err(Error::FormatParse(FormatFault::ImageDataLength(lengths))),
        }
    }

    /// What the source can deliver: frames without end, in the order in
    /// which they arrive.
    pub fn get_caps(&self) -> (caps: Caps)
        ensures
            caps == (Caps { frame_count: None, random_access: false }),
    {
        Caps { frame_count: None, random_access: false }
    }
}

} // verus!
