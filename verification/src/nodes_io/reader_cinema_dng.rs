//! A source that serves the files of a Cinema DNG sequence as frames.
//!
//! Opening and decoding a file is left to the caller. This module decides
//! which file a request means, whether the answer is already at hand, and
//! what frame the tags and the image data of a decoded file make.

use crate::pipeline_processing::buffers::{backing_for, Buffer, CpuBuffer};
use crate::pipeline_processing::error::{ConfigFault, Error, FormatFault};
use crate::pipeline_processing::parametrizable::{
    is_parameter_error,
    text_fault,
    value_named,
    ParameterType,
    ParameterTypeDescriptor,
    ParameterValue,
    Parameters,
    ParametersDescriptor,
};
use crate::pipeline_processing::frame::{
    CfaDescriptor,
    ColorInterpretation,
    Compression,
    Frame,
    FrameInterpretation,
    FrameRate,
    SampleInterpretation,
};
use crate::pipeline_processing::node::{Caps, Request};
use crate::pipeline_processing::payload::Payload;
use crate::pipeline_processing::processing_context::ProcessingContext;
use vstd::prelude::*;

verus! {

/// The tags of the main image directory that the source reads.
#[derive(Clone, Copy, Debug, PartialEq, Eq, Structural)]
pub enum Tag {
    ImageWidth,
    ImageLength,
    BitsPerSample,
    SampleFormat,
    CfaPattern,
    FrameRate,
}

/// What a file holds under a tag that should be an integer.
#[derive(Clone, Copy, Debug, PartialEq, Eq, Structural)]
pub enum IntegerField {
    /// The tag is not in the file.
    Missing,
    /// The tag is there with a value that is no integer.
    Unreadable,
    Value(u32),
}

/// What a file holds under the colour filter pattern tag.
#[derive(Clone, Debug, PartialEq, Eq)]
pub enum PatternField {
    Missing,
    /// The tag is there, and one of its entries is no integer.
    Unreadable,
    /// The colours of the filter cell, row by row: 0 red, 1 green, 2 blue.
    Entries(Vec<u32>),
}

/// What a file holds under the frame rate tag.
#[derive(Clone, Copy, Debug, PartialEq, Eq, Structural)]
pub enum RateField {
    Missing,
    /// The tag is there with a value that is no number.
    Unreadable,
    Rate(FrameRate),
}

/// The tags of one decoded file, as far as the source reads them.
#[derive(Clone, Debug, PartialEq, Eq)]
pub struct DngTags {
    pub image_width: IntegerField,
    pub image_length: IntegerField,
    pub bits_per_sample: IntegerField,
    pub sample_format: IntegerField,
    pub cfa_pattern: PatternField,
    pub frame_rate: RateField,
}

/// The value of an integer tag, or why there is none.
pub open spec fn integer_of(field: IntegerField, tag: Tag) -> Result<u32, FormatFault> {
    match field {
        IntegerField::Missing => Err(FormatFault::MissingTag(tag)),
        IntegerField::Unreadable => Err(FormatFault::UnreadableTag(tag)),
        IntegerField::Value(v) => Ok(v),
    }
}

/// Where red sits in a filter cell given row by row: in the first column
/// when the first entry of either row is red, in the first row when either
/// entry of the first row is red.
pub open spec fn cfa_of(entries: Seq<u32>) -> CfaDescriptor {
    CfaDescriptor {
        red_in_first_col: entries[0] == 0 || entries[2] == 0,
        red_in_first_row: entries[0] == 0 || entries[1] == 0,
    }
}

/// The colour filter of a file, or why there is none.
pub open spec fn pattern_of(field: PatternField) -> Result<CfaDescriptor, FormatFault> {
    match field {
        PatternField::Missing => Err(FormatFault::MissingTag(Tag::CfaPattern)),
        PatternField::Unreadable => Err(FormatFault::UnreadableTag(Tag::CfaPattern)),
        PatternField::Entries(entries) => if entries@.len() < 3 {
            Err(FormatFault::ShortCfaPattern { len: entries@.len() as usize })
        } else {
            Ok(cfa_of(entries@))
        },
    }
}

/// The frame rate of a file; a file need not have one.
pub open spec fn rate_of(field: RateField) -> Result<Option<FrameRate>, FormatFault> {
    match field {
        RateField::Missing => Ok(None),
        RateField::Unreadable => Err(FormatFault::UnreadableTag(Tag::FrameRate)),
        RateField::Rate(rate) => Ok(Some(rate)),
    }
}

/// The sample format that the two tags `SampleFormat` and `BitsPerSample`
/// name: format 1 is unsigned integer of 1 to 32 bits, format 3 is IEEE
/// float of 16 or 32 bits.
pub open spec fn sample_of(sample_format: u32, bits_per_sample: u32) -> Result<
    SampleInterpretation,
    FormatFault,
> {
    if sample_format == 1 {
        if 1 <= bits_per_sample <= 32 {
            Ok(SampleInterpretation::UInt(bits_per_sample as u8))
        } else {
            Err(FormatFault::UnsupportedIntegerWidth { bits_per_sample })
        }
    } else if sample_format == 3 {
        if bits_per_sample == 16 {
            Ok(SampleInterpretation::FP16)
        } else if bits_per_sample == 32 {
            Ok(SampleInterpretation::FP32)
        } else {
            Err(FormatFault::UnsupportedFloatWidth { bits_per_sample })
        }
    } else {
        Err(FormatFault::UnknownSampleFormat { sample_format })
    }
}

/// The interpretation that the tags of a file give its image data, or the
/// first thing found wrong, looking at the colour filter, the frame rate,
/// the sample width, the sample format, the width and the height in turn.
pub open spec fn interpretation_of(tags: DngTags) -> Result<FrameInterpretation, FormatFault> {
    match pattern_of(tags.cfa_pattern) {
        Err(fault) => Err(fault),
        Ok(cfa) => match rate_of(tags.frame_rate) {
            Err(fault) => Err(fault),
            Ok(fps) => match integer_of(tags.bits_per_sample, Tag::BitsPerSample) {
                Err(fault) => Err(fault),
                Ok(bits_per_sample) => match integer_of(tags.sample_format, Tag::SampleFormat) {
                    Err(fault) => Err(fault),
                    Ok(sample_format) => match sample_of(sample_format, bits_per_sample) {
                        Err(fault) => Err(fault),
                        Ok(sample_interpretation) => match integer_of(
                            tags.image_width,
                            Tag::ImageWidth,
                        ) {
                            Err(fault) => Err(fault),
                            Ok(width) => match integer_of(tags.image_length, Tag::ImageLength) {
                                Err(fault) => Err(fault),
                                Ok(height) => Ok(
                                    FrameInterpretation {
                                        width: width as u64,
                                        height: height as u64,
                                        fps,
                                        color_interpretation: ColorInterpretation::Bayer(cfa),
                                        sample_interpretation,
                                        compression: Compression::Uncompressed,
                                    },
                                ),
                            },
                        },
                    },
                },
            },
        },
    }
}

impl IntegerField {
    /// The value of the tag, or why there is none.
    pub fn value(&self, tag: Tag) -> (value: Result<u32, FormatFault>)
        ensures
            value == integer_of(*self, tag),
    {
        match self {
            IntegerField::Missing => Err(FormatFault::MissingTag(tag)),
            IntegerField::Unreadable => Err(FormatFault::UnreadableTag(tag)),
            IntegerField::Value(v) => Ok(*v),
        }
    }
}

impl PatternField {
    /// The colour filter, or why there is none.
    pub fn cfa(&self) -> (cfa: Result<CfaDescriptor, FormatFault>)
        ensures
            cfa == pattern_of(*self),
    {
        match self {
            PatternField::Missing => Err(FormatFault::MissingTag(Tag::CfaPattern)),
            PatternField::Unreadable => Err(FormatFault::UnreadableTag(Tag::CfaPattern)),
            PatternField::Entries(entries) => {
                if entries.len() < 3 {
                    Err(FormatFault::ShortCfaPattern { len: entries.len() })
                } else {
                    Ok(
                        CfaDescriptor {
                            red_in_first_col: entries[0] == 0 || entries[2] == 0,
                            red_in_first_row: entries[0] == 0 || entries[1] == 0,
                        },
                    )
                }
            },
        }
    }
}

impl RateField {
    /// The frame rate, if the file has one.
    pub fn rate(&self) -> (rate: Result<Option<FrameRate>, FormatFault>)
        ensures
            rate == rate_of(*self),
    {
        match self {
            RateField::Missing => Ok(None),
            RateField::Unreadable => Err(FormatFault::UnreadableTag(Tag::FrameRate)),
            RateField::Rate(rate) => Ok(Some(*rate)),
        }
    }
}

/// The sample format that the two tags name.
pub fn sample_interpretation(sample_format: u32, bits_per_sample: u32) -> (sample: Result<
    SampleInterpretation,
    FormatFault,
>)
    ensures
        sample == sample_of(sample_format, bits_per_sample),
{
    if sample_format == 1 {
        if 1 <= bits_per_sample && bits_per_sample <= 32 {
            Ok(SampleInterpretation::UInt(bits_per_sample as u8))
        } else {
            Err(FormatFault::UnsupportedIntegerWidth { bits_per_sample })
        }
    } else if sample_format == 3 {
        if bits_per_sample == 16 {
            Ok(SampleInterpretation::FP16)
        } else if bits_per_sample == 32 {
            Ok(SampleInterpretation::FP32)
        } else {
            Err(FormatFault::UnsupportedFloatWidth { bits_per_sample })
        }
    } else {
        Err(FormatFault::UnknownSampleFormat { sample_format })
    }
}

impl DngTags {
    /// The interpretation that the tags give the image data of their file.
    pub fn interpretation(&self) -> (interpretation: Result<FrameInterpretation, FormatFault>)
        ensures
            interpretation == interpretation_of(*self),
    {
        let cfa = match self.cfa_pattern.cfa() {
            Ok(cfa) => cfa,
            Err(fault) => {
                return Err(fault);
            },
        };
        let fps = match self.frame_rate.rate() {
            Ok(fps) => fps,
            Err(fault) => {
                return Err(fault);
            },
        };
        let bits_per_sample = match self.bits_per_sample.value(Tag::BitsPerSample) {
            Ok(v) => v,
            Err(fault) => {
                return Err(fault);
            },
        };
        let sample_format = match self.sample_format.value(Tag::SampleFormat) {
            Ok(v) => v,
            Err(fault) => {
                return Err(fault);
            },
        };
        let sample = match sample_interpretation(sample_format, bits_per_sample) {
            Ok(sample) => sample,
            Err(fault) => {
                return Err(fault);
            },
        };
        let width = match self.image_width.value(Tag::ImageWidth) {
            Ok(v) => v,
            Err(fault) => {
                return Err(fault);
            },
        };
        let height = match self.image_length.value(Tag::ImageLength) {
            Ok(v) => v,
            Err(fault) => {
                return Err(fault);
            },
        };
        Ok(
            FrameInterpretation {
                width: width as u64,
                height: height as u64,
                fps,
                color_interpretation: ColorInterpretation::Bayer(cfa),
                sample_interpretation: sample,
                compression: Compression::Uncompressed,
            },
        )
    }
}

/// What `glob::Pattern::new` answers to a pattern: `None` when the pattern
/// compiles, else the position at which it is wrong.
pub uninterp spec fn glob_pattern_fault(pattern: Seq<char>) -> Option<usize>;

/// `glob::Pattern::new`: compiles a Unix shell style pattern. The answer
/// depends on the characters of the pattern alone.
#[verifier::external_body]
fn check_pattern(pattern: &str) -> (fault: Option<usize>)
    ensures
        fault == glob_pattern_fault(pattern@),
{
    match glob::Pattern::new(pattern) {
        Ok(_) => None,
        Err(error) => Some(error.pos),
    }
}

/// What the source does about a request.
#[derive(Debug)]
pub enum PullStep {
    /// The frame was served before and kept: here it is.
    Cached(Payload),
    /// The file at this position of the sequence has to be decoded.
    Load { index: usize },
}

/// A sequence of Cinema DNG files served as a stream of frames.
#[derive(Debug)]
pub struct CinemaDngReader {
    files: Vec<String>,
    cache_frames: bool,
    internal_loop: bool,
    cache: Vec<Option<Payload>>,
    context: ProcessingContext,
}

impl CinemaDngReader {
    /// The source has at least one file, a slot for the frame of each
    /// file, and keeps nothing unless it was told to keep its frames.
    pub closed spec fn wf(&self) -> bool {
        &&& self.files@.len() > 0
        &&& self.files@.len() <= u64::MAX
        &&& self.cache@.len() == self.files@.len()
        &&& !self.cache_frames ==> forall|i: int|
            0 <= i < self.cache@.len() ==> (#[trigger] self.cache@[i]) is None
    }

    /// The paths of the files, in the order of the frames.
    pub closed spec fn spec_files(&self) -> Seq<String> {
        self.files@
    }

    /// The frames kept so far, by position; all `None` unless frames are kept.
    pub closed spec fn spec_cache(&self) -> Seq<Option<Payload>> {
        self.cache@
    }

    pub closed spec fn spec_cache_frames(&self) -> bool {
        self.cache_frames
    }

    pub closed spec fn spec_internal_loop(&self) -> bool {
        self.internal_loop
    }

    pub closed spec fn spec_context(&self) -> ProcessingContext {
        self.context
    }

    /// The position in the sequence that a frame number means: the frame
    /// number itself, or its remainder by the number of files when the
    /// sequence loops. `None` when the sequence has no such frame.
    pub open spec fn spec_index(&self, frame_number: u64) -> Option<int> {
        let count = self.spec_files().len() as int;
        if self.spec_internal_loop() {
            Some(frame_number as int % count)
        } else if frame_number < count {
            Some(frame_number as int)
        } else {
            None
        }
    }

    /// The source over the files that the pattern matched, given what the
    /// pattern compiler made of the pattern.
    ///
    /// A pattern that does not compile is refused, and so is one that
    /// matched no file; both errors carry the pattern.
    pub fn with_checked_pattern(
        file_pattern: &str,
        pattern_fault: Option<usize>,
        files: Vec<String>,
        cache_frames: bool,
        internal_loop: bool,
        context: &ProcessingContext,
    ) -> (reader: Result<Self, Error>)
        ensures
            match reader {
                Ok(r) => {
                    &&& r.wf()
                    &&& pattern_fault is None
                    &&& files@.len() > 0
                    &&& r.spec_files() == files@
                    &&& r.spec_cache_frames() == cache_frames
                    &&& r.spec_internal_loop() == internal_loop
                    &&& r.spec_cache().len() == files@.len()
                    &&& forall|i: int|
                        0 <= i < files@.len() ==> (#[trigger] r.spec_cache()[i]) is None
                    &&& r.spec_context().spec_queues() == context.spec_queues()
                },
                Err(e) => if pattern_fault is Some {
                    e matches Error::Config(ConfigFault::InvalidPattern { pattern })
                        && pattern@ == file_pattern@
                } else {
                    &&& files@.len() == 0
                    &&& e matches Error::Config(ConfigFault::NoFilesMatched { pattern })
                        && pattern@ == file_pattern@
                },
            },
    {
        if pattern_fault.is_some() {
            return Err(
                Error::Config(ConfigFault::InvalidPattern { pattern: file_pattern.to_owned() }),
            );
        }
        if files.len() == 0 {
            return Err(
                Error::Config(ConfigFault::NoFilesMatched { pattern: file_pattern.to_owned() }),
            );
        }
        let mut cache: Vec<Option<Payload>> = Vec::new();
        let mut i: usize = 0;
        while i < files.len()
            invariant
                i <= files.len(),
                cache.len() == i,
                forall|k: int| 0 <= k < i ==> (#[trigger] cache@[k]) is None,
            decreases files.len() - i,
        {
            cache.push(None);
            i = i + 1;
        }
        Ok(CinemaDngReader { files, cache_frames, internal_loop, cache, context: context.clone() })
    }

    /// The source over the files that `file_pattern` matched.
    pub fn new(
        file_pattern: &str,
        files: Vec<String>,
        cache_frames: bool,
        internal_loop: bool,
        context: &ProcessingContext,
    ) -> (reader: Result<Self, Error>)
        ensures
            match reader {
                Ok(r) => {
                    &&& r.wf()
                    &&& glob_pattern_fault(file_pattern@) is None
                    &&& files@.len() > 0
                    &&& r.spec_files() == files@
                    &&& r.spec_cache_frames() == cache_frames
                    &&& r.spec_internal_loop() == internal_loop
                },
                Err(e) => if glob_pattern_fault(file_pattern@) is Some {
                    e matches Error::Config(ConfigFault::InvalidPattern { pattern })
                        && pattern@ == file_pattern@
                } else {
                    &&& files@.len() == 0
                    &&& e matches Error::Config(ConfigFault::NoFilesMatched { pattern })
                        && pattern@ == file_pattern@
                },
            },
    {
        let fault = check_pattern(file_pattern);
        Self::with_checked_pattern(
            file_pattern,
            fault,
            files,
            cache_frames,
            internal_loop,
            context,
        )
    }

    /// The source takes the pattern of its files, and two flags: whether
    /// to keep the frames it has served, and whether to start over after
    /// the last file.
    pub fn describe_parameters() -> (declared: ParametersDescriptor)
        ensures
            declared@.len() == 3,
            declared@[0].name@ == "file-pattern"@,
            declared@[0].descriptor == ParameterTypeDescriptor::Mandatory(
                ParameterType::StringParameter,
            ),
            declared@[1].name@ == "cache-frames"@,
            declared@[1].descriptor == ParameterTypeDescriptor::Optional(
                ParameterType::BoolParameter,
            ),
            declared@[2].name@ == "internal-loop"@,
            declared@[2].descriptor == ParameterTypeDescriptor::Optional(
                ParameterType::BoolParameter,
            ),
    {
        ParametersDescriptor::new().with(
            "file-pattern",
            ParameterTypeDescriptor::Mandatory(ParameterType::StringParameter),
        ).with("cache-frames", ParameterTypeDescriptor::Optional(ParameterType::BoolParameter)).with(
            "internal-loop",
            ParameterTypeDescriptor::Optional(ParameterType::BoolParameter),
        )
    }

    /// The source for the given parameters over the files that its file
    /// pattern matched. A flag counts as set when it is there.
    pub fn from_parameters(parameters: Parameters, files: Vec<String>, context: &ProcessingContext) -> (reader:
        Result<Self, Error>)
        ensures
            match reader {
                Ok(r) => {
                    &&& r.wf()
                    &&& value_named(parameters@, "file-pattern"@) matches Some(
                        ParameterValue::StringParameter(pattern),
                    )
                    &&& glob_pattern_fault(pattern@) is None
                    &&& files@.len() > 0
                    &&& r.spec_files() == files@
                    &&& r.spec_cache_frames() == (value_named(parameters@, "cache-frames"@)
                        is Some)
                    &&& r.spec_internal_loop() == (value_named(parameters@, "internal-loop"@)
                        is Some)
                },
                Err(e) => match value_named(parameters@, "file-pattern"@) {
                    Some(ParameterValue::StringParameter(pattern)) => if glob_pattern_fault(
                        pattern@,
                    ) is Some {
                        e matches Error::Config(ConfigFault::InvalidPattern { pattern: p }) && p@
                            == pattern@
                    } else {
                        &&& files@.len() == 0
                        &&& e matches Error::Config(ConfigFault::NoFilesMatched { pattern: p })
                            && p@ == pattern@
                    },
                    _ => text_fault(parameters@, "file-pattern"@) matches Some(fault)
                        && is_parameter_error(e, "file-pattern"@, fault),
                },
            },
    {
        let mut parameters = parameters;
        proof {
            reveal_strlit("file-pattern");
            reveal_strlit("cache-frames");
            reveal_strlit("internal-loop");
            assert("file-pattern"@.len() == 12 && "internal-loop"@.len() == 13);
            assert("file-pattern"@[0] == 'f' && "cache-frames"@[0] == 'c');
        }
        let file_pattern = match parameters.take_string("file-pattern") {
            Ok(pattern) => pattern,
            Err(e) => {
                return Err(e);
            },
        };
        let cache_frames = parameters.has("cache-frames");
        let internal_loop = parameters.has("internal-loop");
        Self::new(file_pattern.as_str(), files, cache_frames, internal_loop, context)
    }

    /// Number of files in the sequence.
    pub fn file_count(&self) -> (count: usize)
        requires
            self.wf(),
        ensures
            count == self.spec_files().len(),
            count > 0,
    {
        self.files.len()
    }

    /// The path of the file at a position of the sequence.
    pub fn path(&self, index: usize) -> (path: &String)
        requires
            index < self.spec_files().len(),
        ensures
            *path == self.spec_files()[index as int],
    {
        &self.files[index]
    }

    /// The position in the sequence that a frame number means.
    ///
    /// A looping source wraps the frame number around the end of the
    /// sequence and serves every frame number. Another source refuses a
    /// frame number at or beyond the number of its files.
    pub fn resolve(&self, frame_number: u64) -> (index: Result<usize, Error>)
        requires
            self.wf(),
        ensures
            match index {
                Ok(i) => self.spec_index(frame_number) == Some(i as int) && i
                    < self.spec_files().len(),
                Err(e) => {
                    &&& self.spec_index(frame_number) is None
                    &&& e == Error::FrameOutOfRange {
                        requested: frame_number,
                        available: self.spec_files().len() as u64,
                    }
                },
            },
    {
        let count = self.files.len() as u64;
        let wrapped = if self.internal_loop {
            frame_number % count
        } else {
            frame_number
        };
        if wrapped >= count {
            return Err(Error::FrameOutOfRange { requested: wrapped, available: count });
        }
        Ok(wrapped as usize)
    }

    /// Says how a request is to be served: from the frames kept, or by
    /// decoding a file.
    pub fn begin_pull(&self, request: &Request) -> (step: Result<PullStep, Error>)
        requires
            self.wf(),
        ensures
            match step {
                Ok(PullStep::Cached(payload)) => {
                    &&& self.spec_index(request.spec_frame_number()) matches Some(i)
                    &&& self.spec_cache()[i] == Some(payload)
                },
                Ok(PullStep::Load { index }) => {
                    &&& self.spec_index(request.spec_frame_number()) == Some(index as int)
                    &&& index < self.spec_files().len()
                    &&& self.spec_cache()[index as int] is None
                },
                Err(e) => {
                    &&& self.spec_index(request.spec_frame_number()) is None
                    &&& e == Error::FrameOutOfRange {
                        requested: request.spec_frame_number(),
                        available: self.spec_files().len() as u64,
                    }
                },
            },
    {
        let index = match self.resolve(request.frame_number()) {
            Ok(index) => index,
            Err(e) => {
                return Err(e);
            },
        };
        match &self.cache[index] {
            Some(cached) => Ok(PullStep::Cached(cached.clone())),
            None => Ok(PullStep::Load { index }),
        }
    }

    /// Makes the frame of a decoded file and hands it out as a payload; a
    /// source that keeps its frames keeps this one under `index`.
    ///
    /// The file is refused when its tags do not describe an image, or when
    /// its image data is not as long as the image they describe.
    pub fn finish_pull(&mut self, index: usize, tags: &DngTags, data: Vec<u8>) -> (payload:
        Result<Payload, Error>)
        requires
            old(self).wf(),
            index < old(self).spec_files().len(),
        ensures
            final(self).wf(),
            final(self).spec_files() == old(self).spec_files(),
            final(self).spec_cache_frames() == old(self).spec_cache_frames(),
            final(self).spec_internal_loop() == old(self).spec_internal_loop(),
            final(self).spec_context() == old(self).spec_context(),
            match payload {
                Ok(p) => {
                    &&& interpretation_of(*tags) matches Ok(interpretation)
                    &&& data@.len() == interpretation.spec_required_bytes()
                    &&& p matches Payload::CpuFrame(frame)
                    &&& frame.spec_interpretation() == interpretation
                    &&& frame.spec_storage()@ == data@
                    &&& frame.spec_storage().spec_backing() == backing_for(
                        old(self).spec_context().has_gpu(),
                    )
                    &&& final(self).spec_cache() == if old(self).spec_cache_frames() {
                        old(self).spec_cache().update(index as int, Some(p))
                    } else {
                        old(self).spec_cache()
                    }
                },
                Err(e) => {
                    &&& final(self).spec_cache() == old(self).spec_cache()
                    &&& match interpretation_of(*tags) {
                        Err(fault) => e == Error::FormatParse(fault),
                        Ok(interpretation) => {
                            &&& data@.len() != interpretation.spec_required_bytes()
                            &&& e matches Error::FormatParse(FormatFault::ImageDataLength(lengths))
                            &&& lengths.actual == data@.len()
                        },
                    }
                },
            },
    {
        let interpretation = match tags.interpretation() {
            Ok(interpretation) => interpretation,
            Err(fault) => {
                return Err(Error::FormatParse(fault));
            },
        };
        let backing = self.context.get_uninit_cpu_buffer(0).backing();
        let frame = match Frame::new(CpuBuffer::from_vec(data, backing), interpretation) {
            Ok(frame) => frame,
            Err(lengths) => {
                return Err(Error::FormatParse(FormatFault::ImageDataLength(lengths)));
            },
        };
        let payload = Payload::from(frame);
        if self.cache_frames {
            self.cache.set(index, Some(payload.clone()));
        }
        Ok(payload)
    }

    /// What the source can deliver: any of its frames in any order, and
    /// without end when it loops.
    pub fn get_caps(&self) -> (caps: Caps)
        ensures
            caps.random_access,
            caps.frame_count == if self.spec_internal_loop() {
                None
            } else {
                Some(self.spec_files().len() as u64)
            },
    {
        Caps {
            frame_count: if self.internal_loop {
                None
            } else {
                Some(self.files.len() as u64)
            },
            random_access: true,
        }
    }
}

/// A source serves every frame that its capabilities promise: a frame
/// number below the frame count that it announces means a file.
pub proof fn lemma_announced_frames_resolve(reader: CinemaDngReader, caps: Caps, frame: u64)
    requires
        reader.wf(),
        caps.frame_count == if reader.spec_internal_loop() {
            None
        } else {
            Some(reader.spec_files().len() as u64)
        },
        caps.spec_holds(frame),
    ensures
        reader.spec_index(frame) matches Some(i) && 0 <= i < reader.spec_files().len(),
{
}

/// In a looping source, frame numbers that differ by a multiple of the
/// number of files mean the same file.
pub proof fn lemma_loop_repeats(reader: CinemaDngReader, frame: u64, rounds: u64)
    requires
        reader.wf(),
        reader.spec_internal_loop(),
        frame + rounds * reader.spec_files().len() <= u64::MAX,
    ensures
        reader.spec_index((frame + rounds * reader.spec_files().len()) as u64)
            == reader.spec_index(frame),
{
    let count = reader.spec_files().len() as int;
    vstd::arithmetic::div_mod::lemma_mod_multiples_vanish(rounds as int, frame as int, count);
    assert(rounds * reader.spec_files().len() == count * rounds) by (nonlinear_arith)
        requires
            count == reader.spec_files().len(),
    ;
}

} // verus!
