//! Frames: a buffer of bytes together with the interpretation that says
//! what image the bytes hold. The interpretation alone fixes how long the
//! buffer is.

use crate::pipeline_processing::buffers::Buffer;
use vstd::prelude::*;

verus! {

/// Where the red sample sits in the 2x2 cell of a Bayer sensor.
#[derive(Clone, Copy, Debug, PartialEq, Eq, Structural)]
pub struct CfaDescriptor {
    pub red_in_first_col: bool,
    pub red_in_first_row: bool,
}

/// How the samples of a pixel are to be read as colour.
#[derive(Clone, Copy, Debug, PartialEq, Eq, Structural)]
pub enum ColorInterpretation {
    /// One sample per pixel behind a colour filter array.
    Bayer(CfaDescriptor),
    /// Three samples per pixel: red, green, blue.
    Rgb,
    /// One sample per pixel.
    Mono,
    /// Three samples per pixel: luma and two chroma, not subsampled.
    YCbCr,
}

/// The format of one sample.
#[derive(Clone, Copy, Debug, PartialEq, Eq, Structural)]
pub enum SampleInterpretation {
    /// Unsigned integer of 1 to 32 bits.
    UInt(u8),
    /// IEEE 754 half precision.
    FP16,
    /// IEEE 754 single precision.
    FP32,
}

/// How the samples are stored.
#[derive(Clone, Copy, Debug, PartialEq, Eq, Structural)]
pub enum Compression {
    Uncompressed,
}

/// Frames per second, kept exactly as it was read: either a ratio of two
/// integers or the bit pattern of an IEEE 754 double.
#[derive(Clone, Copy, Debug, PartialEq, Eq, Structural)]
pub enum FrameRate {
    Ratio { numerator: i64, denominator: i64 },
    Double { bits: u64 },
}

/// Everything needed to read the bytes of a frame as an image.
#[derive(Clone, Copy, Debug, PartialEq, Eq)]
pub struct FrameInterpretation {
    pub width: u64,
    pub height: u64,
    pub fps: Option<FrameRate>,
    pub color_interpretation: ColorInterpretation,
    pub sample_interpretation: SampleInterpretation,
    pub compression: Compression,
}

impl ColorInterpretation {
    pub open spec fn spec_samples_per_pixel(self) -> int {
        match self {
            ColorInterpretation::Bayer(_) => 1,
            ColorInterpretation::Rgb => 3,
            ColorInterpretation::Mono => 1,
            ColorInterpretation::YCbCr => 3,
        }
    }

    /// Number of samples stored for each pixel.
    pub fn samples_per_pixel(&self) -> (n: u8)
        ensures
            n == self.spec_samples_per_pixel(),
    {
        match self {
            ColorInterpretation::Bayer(_) => 1,
            ColorInterpretation::Rgb => 3,
            ColorInterpretation::Mono => 1,
            ColorInterpretation::YCbCr => 3,
        }
    }
}

impl SampleInterpretation {
    pub open spec fn spec_bits_per_sample(self) -> int {
        match self {
            SampleInterpretation::UInt(bits) => bits as int,
            SampleInterpretation::FP16 => 16,
            SampleInterpretation::FP32 => 32,
        }
    }

    /// An unsigned sample has between 1 and 32 bits.
    pub open spec fn spec_is_valid(self) -> bool {
        self matches SampleInterpretation::UInt(bits) ==> 1 <= bits <= 32
    }

    /// Number of bits one sample occupies in the buffer.
    pub fn bits_per_sample(&self) -> (n: u8)
        ensures
            n == self.spec_bits_per_sample(),
    {
        match self {
            SampleInterpretation::UInt(bits) => *bits,
            SampleInterpretation::FP16 => 16,
            SampleInterpretation::FP32 => 32,
        }
    }

    /// Whether the sample format is one a frame may have.
    pub fn is_valid(&self) -> (ok: bool)
        ensures
            ok == self.spec_is_valid(),
    {
        match self {
            SampleInterpretation::UInt(bits) => 1 <= *bits && *bits <= 32,
            _ => true,
        }
    }
}

impl FrameInterpretation {
    /// Number of samples in a frame: one per pixel and colour component.
    pub open spec fn spec_sample_count(self) -> int {
        self.width * self.height * self.color_interpretation.spec_samples_per_pixel()
    }

    /// Number of bytes a frame of this interpretation occupies: all its
    /// samples packed without gaps, a trailing partial byte dropped.
    pub open spec fn spec_required_bytes(self) -> int {
        self.spec_sample_count() * self.sample_interpretation.spec_bits_per_sample() / 8
    }

    /// The buffer length that this interpretation calls for, or `None` when
    /// that length is more than the machine can address.
    pub fn required_bytes(&self) -> (len: Option<usize>)
        ensures
            match len {
                Some(n) => n == self.spec_required_bytes(),
                None => self.spec_required_bytes() > usize::MAX,
            },
    {
        let per_pixel: u128 = (self.color_interpretation.samples_per_pixel() as u128) * (
        self.sample_interpretation.bits_per_sample() as u128);
        let pixels: u128 = {
            assert(self.width * self.height <= u128::MAX) by (nonlinear_arith)
                requires
                    self.width <= u64::MAX,
                    self.height <= u64::MAX,
            ;
            (self.width as u128) * (self.height as u128)
        };
        let ghost spp = self.color_interpretation.spec_samples_per_pixel();
        let ghost bps = self.sample_interpretation.spec_bits_per_sample();
        proof {
            assert(self.width * self.height * spp * bps == pixels * per_pixel)
                by (nonlinear_arith)
                requires
                    pixels == self.width * self.height,
                    per_pixel == spp * bps,
            ;
        }
        if per_pixel == 0 {
            proof {
                assert(pixels * per_pixel == 0) by (nonlinear_arith)
                    requires
                        per_pixel == 0,
                ;
            }
            return Some(0);
        }
        let limit: u128 = (usize::MAX as u128) * 8 + 7;
        if pixels > limit {
            proof {
                assert(pixels * per_pixel > limit) by (nonlinear_arith)
                    requires
                        pixels > limit,
                        per_pixel >= 1,
                ;
            }
            return None;
        }
        proof {
            assert(pixels * per_pixel <= limit * 768) by (nonlinear_arith)
                requires
                    pixels <= limit,
                    per_pixel <= 768,
                    pixels >= 0,
                    per_pixel >= 0,
            ;
        }
        let bits: u128 = pixels * per_pixel;
        let bytes: u128 = bits / 8;
        if bytes > usize::MAX as u128 {
            None
        } else {
            Some(bytes as usize)
        }
    }
}

/// The two lengths that disagreed when a frame was put together.
#[derive(Clone, Copy, Debug, PartialEq, Eq, Structural)]
pub struct LengthMismatch {
    /// Bytes that the interpretation calls for; `None` when that is more
    /// than the machine can address.
    pub required: Option<usize>,
    /// Bytes that the buffer holds.
    pub actual: usize,
}

/// One image of a stream: a buffer and what its bytes mean.
///
/// A frame cannot exist unless its buffer is exactly as long as its
/// interpretation requires.
#[derive(Debug)]
pub struct Frame<S: Buffer> {
    storage: S,
    interpretation: FrameInterpretation,
}

impl<S: Buffer> Frame<S> {
    #[verifier::type_invariant]
    spec fn length_matches(self) -> bool {
        self.storage.spec_len() == self.interpretation.spec_required_bytes()
    }

    pub closed spec fn spec_storage(&self) -> S {
        self.storage
    }

    pub closed spec fn spec_interpretation(&self) -> FrameInterpretation {
        self.interpretation
    }

    /// Puts a buffer and an interpretation together, if the lengths agree.
    pub fn new(storage: S, interpretation: FrameInterpretation) -> (frame: Result<
        Self,
        LengthMismatch,
    >)
        ensures
            match frame {
                Ok(f) => {
                    &&& storage.spec_len() == interpretation.spec_required_bytes()
                    &&& f.spec_storage() == storage
                    &&& f.spec_interpretation() == interpretation
                },
                Err(e) => {
                    &&& storage.spec_len() != interpretation.spec_required_bytes()
                    &&& e.actual == storage.spec_len()
                    &&& match e.required {
                        Some(n) => n == interpretation.spec_required_bytes(),
                        None => interpretation.spec_required_bytes() > usize::MAX,
                    }
                },
            },
    {
        let required = interpretation.required_bytes();
        let actual = storage.len();
        match required {
            Some(n) if n == actual => Ok(Frame { storage, interpretation }),
            _ => Err(LengthMismatch { required, actual }),
        }
    }

    /// The buffer. Its length is what the interpretation requires.
    pub fn storage(&self) -> (storage: &S)
        ensures
            *storage == self.spec_storage(),
            storage.spec_len() == self.spec_interpretation().spec_required_bytes(),
    {
        proof {
            use_type_invariant(self);
        }
        &self.storage
    }

    /// What the bytes of the buffer mean.
    pub fn interpretation(&self) -> (interpretation: &FrameInterpretation)
        ensures
            *interpretation == self.spec_interpretation(),
            self.spec_storage().spec_len() == interpretation.spec_required_bytes(),
    {
        proof {
            use_type_invariant(self);
        }
        &self.interpretation
    }

    /// Takes the frame apart.
    pub fn into_parts(self) -> (parts: (S, FrameInterpretation))
        ensures
            parts.0 == self.spec_storage(),
            parts.1 == self.spec_interpretation(),
            parts.0.spec_len() == parts.1.spec_required_bytes(),
    {
        proof {
            use_type_invariant(&self);
        }
        (self.storage, self.interpretation)
    }
}

} // verus!
