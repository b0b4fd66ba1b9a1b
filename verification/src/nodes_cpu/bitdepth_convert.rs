//! Unpacking of samples stored at 8 to 16 bits each into one byte per sample.
//!
//! The input is one contiguous bit stream, most significant bit first: bit
//! `k` of the stream is bit `7 - k % 8` of byte `k / 8`, and sample `i` of a
//! stream of `b`-bit samples occupies the stream bits `i * b .. (i + 1) * b`.
//! A sample is reduced to a byte by keeping its eight most significant bits,
//! which are the eight stream bits that start at bit `i * b`. Wider samples
//! are truncated, not rescaled.

use crate::pipeline_processing::buffers::{backing_for, Buffer, CpuBuffer};
use crate::pipeline_processing::error::{ConfigFault, Error, ParameterFault};
use crate::pipeline_processing::frame::{Frame, FrameInterpretation, SampleInterpretation};
use crate::pipeline_processing::node::{Caps, NodeID};
use crate::pipeline_processing::parametrizable::{
    is_parameter_error,
    value_named,
    ParameterType,
    ParameterTypeDescriptor,
    ParameterValue,
    Parameters,
    ParametersDescriptor,
};
use crate::pipeline_processing::payload::Payload;
use crate::pipeline_processing::processing_context::ProcessingContext;
use vstd::arithmetic::div_mod::lemma_fundamental_div_mod_converse;
use vstd::pervasive::unreached;
use vstd::prelude::*;
use vstd::slice::slice_to_vec;

verus! {

/// The byte read from two neighbouring bytes of the stream, starting `shift`
/// bits into `first`, for `0 < shift < 8`.
pub open spec fn straddle(first: u8, second: u8, shift: u32) -> u8 {
    ((((first as u32) << shift) & 0xff) | ((second as u32) >> ((8 - shift) as u32))) as u8
}

/// The eight bits of the stream `s` that start at bit position `bit`.
pub open spec fn window8(s: Seq<u8>, bit: int) -> u8 {
    if bit % 8 == 0 {
        s[bit / 8]
    } else {
        straddle(s[bit / 8], s[bit / 8 + 1], (bit % 8) as u32)
    }
}

/// Bit `position` of the stream `s`, counted from the most significant
/// bit of the first byte.
pub open spec fn stream_bit(s: Seq<u8>, position: int) -> bool {
    (s[position / 8] >> ((7 - position % 8) as u8)) & 1 == 1
}

/// Bit `k` of a byte, counted from its most significant bit.
pub open spec fn byte_bit(byte: u8, k: int) -> bool {
    (byte >> ((7 - k) as u8)) & 1 == 1
}

/// The window of eight bits at `bit` holds the stream bits `bit` to
/// `bit + 7`, the first of them as its most significant bit.
pub proof fn lemma_window8_holds_the_stream_bits(s: Seq<u8>, bit: int, k: int)
    requires
        0 <= bit,
        0 <= k < 8,
    ensures
        byte_bit(window8(s, bit), k) == stream_bit(s, bit + k),
{
    let r = (bit % 8) as u8;
    let j = k as u8;
    let x = s[bit / 8];
    let y = s[bit / 8 + 1];
    if bit % 8 == 0 {
        assert((bit + k) / 8 == bit / 8 && (bit + k) % 8 == k);
    } else {
        let w = straddle(x, y, (bit % 8) as u32);
        let shift = (bit % 8) as u32;
        let back = (8 - shift) as u32;
        let wide = (((x as u32) << shift) & 0xff) | ((y as u32) >> back);
        assert(wide < 256) by (bit_vector)
            requires
                wide == (((x as u32) << shift) & 0xff) | ((y as u32) >> back),
                1 <= shift <= 7,
                back == 8 - shift,
        ;
        assert(w == wide as u8);
        let down = (7 - j) as u8;
        if r + j < 8 {
            assert((bit + k) / 8 == bit / 8 && (bit + k) % 8 == r + j);
            let xdown = (7 - (r + j)) as u8;
            assert(((wide as u8) >> down) & 1 == (x >> xdown) & 1) by (bit_vector)
                requires
                    wide == (((x as u32) << shift) & 0xff) | ((y as u32) >> back),
                    1 <= shift <= 7,
                    back == 8 - shift,
                    shift == r,
                    j < 8,
                    r + j < 8,
                    down == 7 - j,
                    xdown == 7 - (r + j),
            ;
        } else {
            assert((bit + k) / 8 == bit / 8 + 1 && (bit + k) % 8 == r + j - 8);
            let ydown = (15 - (r + j)) as u8;
            assert(((wide as u8) >> down) & 1 == (y >> ydown) & 1) by (bit_vector)
                requires
                    wide == (((x as u32) << shift) & 0xff) | ((y as u32) >> back),
                    1 <= shift <= 7,
                    back == 8 - shift,
                    shift == r,
                    j < 8,
                    r + j >= 8,
                    down == 7 - j,
                    ydown == 15 - (r + j),
            ;
        }
    }
}

/// Byte `i` of the unpacked stream holds the first eight bits of sample
/// `i`: the stream bits `i * bits` to `i * bits + 7`.
pub proof fn lemma_unpacked_holds_the_top_bits(s: Seq<u8>, bits: int, i: int, k: int)
    requires
        8 <= bits <= 16,
        0 <= i < sample_count(s.len(), bits),
        0 <= k < 8,
    ensures
        byte_bit(unpacked(s, bits)[i], k) == stream_bit(s, i * bits + k),
        i * bits + 8 <= 8 * s.len(),
{
    let len = s.len() as int;
    assert(0 <= i * bits && (i + 1) * bits <= 8 * len) by (nonlinear_arith)
        requires
            8 <= bits,
            0 <= i,
            i + 1 <= 8 * len / bits,
            len >= 0,
    ;
    assert((i + 1) * bits == i * bits + bits) by (nonlinear_arith);
    lemma_window8_holds_the_stream_bits(s, i * bits, k);
}

/// Number of whole `bits`-bit samples in a stream of `len` bytes.
pub open spec fn sample_count(len: nat, bits: int) -> nat {
    (8 * (len as int) / bits) as nat
}

/// The top eight bits of every whole `bits`-bit sample of the stream `s`.
pub open spec fn unpacked(s: Seq<u8>, bits: int) -> Seq<u8> {
    Seq::new(sample_count(s.len(), bits), |i: int| window8(s, i * bits))
}

/// The low `n` bits set, for `n < 32`.
pub open spec fn low_mask(n: u32) -> u32 {
    ((1u32 << n) - 1) as u32
}

/// The value of the last `rest_bits` bits of the first `consumed` bytes of
/// `s`, for `rest_bits < 16`: what the unpacking loop carries between bytes.
pub open spec fn carry(s: Seq<u8>, consumed: int, rest_bits: u32) -> u32 {
    if rest_bits == 0 {
        0
    } else if rest_bits <= 8 {
        (s[consumed - 1] as u32) & low_mask(rest_bits)
    } else {
        ((((s[consumed - 2] as u32) & low_mask((rest_bits - 8) as u32)) << 8) | (s[consumed
            - 1] as u32))
    }
}

/// A sample that starts in the previous byte `x` and ends in the current byte `y`.
proof fn lemma_emit_short(x: u8, y: u8, r: u32, b: u32)
    requires
        1 <= r <= 8,
        9 <= b <= 16,
        r + 8 >= b,
    ensures
        (((((x as u32) & low_mask(r)) << ((b - r) as u32)) | ((y as u32) >> ((r + 8 - b) as u32)))
            >> ((b - 8) as u32)) < 256,
        r == 8 ==> ((((((x as u32) & low_mask(r)) << ((b - r) as u32)) | ((y as u32) >> ((r + 8
            - b) as u32))) >> ((b - 8) as u32)) as u8) == x,
        r < 8 ==> ((((((x as u32) & low_mask(r)) << ((b - r) as u32)) | ((y as u32) >> ((r + 8
            - b) as u32))) >> ((b - 8) as u32)) as u8) == straddle(x, y, (8 - r) as u32),
{
    let xw = x as u32;
    let yw = y as u32;
    let up = (b - r) as u32;
    let down = (r + 8 - b) as u32;
    let cut = (b - 8) as u32;
    let left = (8 - r) as u32;
    let top = (((xw & (((1u32 << r) - 1) as u32)) << up) | (yw >> down)) >> cut;
    assert(top < 256 && (r == 8 ==> top == xw) && (r < 8 ==> top == ((xw << left) & 0xff) | (yw
        >> r))) by (bit_vector)
        requires
            xw < 256,
            yw < 256,
            1 <= r <= 8,
            9 <= b <= 16,
            r + 8 >= b,
            up == b - r,
            down == r + 8 - b,
            cut == b - 8,
            left == 8 - r,
            top == (((xw & (((1u32 << r) - 1) as u32)) << up) | (yw >> down)) >> cut,
    ;
    assert((8 - left) as u32 == r);
}

/// A sample that starts in the byte `z` before the previous byte `x` and
/// ends in the current byte `y`.
proof fn lemma_emit_long(z: u8, x: u8, y: u8, r: u32, b: u32)
    requires
        9 <= r <= 15,
        r < b <= 16,
    ensures
        (((((((z as u32) & low_mask((r - 8) as u32)) << 8) | (x as u32)) << ((b - r) as u32)) | ((
        y as u32) >> ((r + 8 - b) as u32))) >> ((b - 8) as u32)) < 256,
        ((((((((z as u32) & low_mask((r - 8) as u32)) << 8) | (x as u32)) << ((b - r) as u32)) | ((
        y as u32) >> ((r + 8 - b) as u32))) >> ((b - 8) as u32)) as u8) == straddle(
            z,
            x,
            (16 - r) as u32,
        ),
{
    let zw = z as u32;
    let xw = x as u32;
    let yw = y as u32;
    let keep = (r - 8) as u32;
    let up = (b - r) as u32;
    let down = (r + 8 - b) as u32;
    let cut = (b - 8) as u32;
    let left = (16 - r) as u32;
    let top = (((((zw & (((1u32 << keep) - 1) as u32)) << 8) | xw) << up) | (yw >> down)) >> cut;
    assert(top < 256 && top == ((zw << left) & 0xff) | (xw >> keep)) by (bit_vector)
        requires
            zw < 256,
            xw < 256,
            yw < 256,
            9 <= r <= 15,
            r < b <= 16,
            keep == r - 8,
            up == b - r,
            down == r + 8 - b,
            cut == b - 8,
            left == 16 - r,
            top == (((((zw & (((1u32 << keep) - 1) as u32)) << 8) | xw) << up) | (yw >> down))
                >> cut,
    ;
    assert((8 - left) as u32 == keep);
}

/// The bits of the current byte `y` that follow a finished sample, and a
/// whole byte taken into an empty carry.
proof fn lemma_carry_bounds(y: u8, r: u32)
    requires
        r < 16,
    ensures
        1 <= (1u32 << r),
        (y as u32) & low_mask(0) == 0,
        ((0u32 << 8) | (y as u32)) == (y as u32) & low_mask(8),
{
    let yw = y as u32;
    assert(1 <= (1u32 << r)) by (bit_vector)
        requires
            r < 16,
    ;
    assert(yw & (((1u32 << 0) - 1) as u32) == 0) by (bit_vector);
    assert(((0u32 << 8) | yw) == yw & (((1u32 << 8) - 1) as u32)) by (bit_vector)
        requires
            yw < 256,
    ;
}

/// Unpacks samples of 9 to 16 bits by carrying the bits of a sample that
/// precede the current byte: `rest_bits` of them, with value `rest_value`.
fn unpack_generic(input: &[u8], bits: u32) -> (out: Vec<u8>)
    requires
        9 <= bits <= 16,
    ensures
        out@ == unpacked(input@, bits as int),
{
    let mut out: Vec<u8> = Vec::new();
    let mut rest_value: u32 = 0;
    let mut rest_bits: u32 = 0;
    let mut consumed: usize = 0;
    assert(out.len() * bits == 0) by (nonlinear_arith)
        requires
            out.len() == 0,
    ;
    while consumed < input.len()
        invariant
            9 <= bits <= 16,
            consumed <= input.len(),
            rest_bits < bits,
            8 * consumed == out.len() * bits + rest_bits,
            forall|i: int| 0 <= i < out.len() ==> out[i] == window8(input@, i * bits),
            rest_value == carry(input@, consumed as int, rest_bits),
        decreases input.len() - consumed,
    {
        let value = input[consumed];
        let ghost emitted = out.len() as int;
        if rest_bits + 8 >= bits {
            let surplus = rest_bits + 8 - bits;
            proof {
                lemma_carry_bounds(value, surplus);
                assert(emitted * bits == 8 * consumed - rest_bits);
                assert((emitted + 1) * bits == emitted * bits + bits) by (nonlinear_arith);
                if rest_bits <= 8 {
                    lemma_emit_short(input@[consumed - 1], value, rest_bits, bits);
                    if rest_bits == 8 {
                        assert((8 * consumed - rest_bits) / 8 == consumed - 1);
                        assert((8 * consumed - rest_bits) % 8 == 0);
                    } else {
                        assert((8 * consumed - rest_bits) / 8 == consumed - 1);
                        assert((8 * consumed - rest_bits) % 8 == 8 - rest_bits);
                    }
                } else {
                    assert(emitted >= 1) by (nonlinear_arith)
                        requires
                            emitted * bits == 8 * consumed - rest_bits,
                            8 * consumed - rest_bits >= 0,
                            consumed >= 1,
                            9 <= rest_bits <= 15,
                            emitted >= 0,
                            bits > 0,
                    ;
                    lemma_emit_long(
                        input@[consumed - 2],
                        input@[consumed - 1],
                        value,
                        rest_bits,
                        bits,
                    );
                    assert((8 * consumed - rest_bits) / 8 == consumed - 2);
                    assert((8 * consumed - rest_bits) % 8 == 16 - rest_bits);
                }
            }
            let sample = (rest_value << (bits - rest_bits)) | ((value as u32) >> surplus);
            let top = (sample >> (bits - 8)) as u8;
            assert(top == window8(input@, emitted * bits));
            out.push(top);
            rest_bits = surplus;
            rest_value = (value as u32) & ((1u32 << surplus) - 1);
        } else {
            proof {
                lemma_carry_bounds(value, rest_bits);
            }
            rest_value = (rest_value << 8) | (value as u32);
            rest_bits = rest_bits + 8;
        }
        consumed = consumed + 1;
    }
    proof {
        lemma_fundamental_div_mod_converse(
            8 * input@.len() as int,
            bits as int,
            out@.len() as int,
            rest_bits as int,
        );
        assert(out@ =~= unpacked(input@, bits as int));
    }
    out
}

/// Unpacks 12-bit samples three bytes at a time: the first byte of a
/// triplet is the first sample, the two nibbles around the second byte
/// boundary are the second. A stream that ends two bytes into a triplet
/// still holds one whole sample.
fn unpack_12(input: &[u8]) -> (out: Vec<u8>)
    ensures
        out@ == unpacked(input@, 12),
{
    let triplets = input.len() / 3;
    let mut out: Vec<u8> = Vec::new();
    let mut k: usize = 0;
    while k < triplets
        invariant
            triplets == input.len() / 3,
            k <= triplets,
            out.len() == 2 * k,
            forall|i: int| 0 <= i < out.len() ==> out[i] == window8(input@, i * 12),
        decreases triplets - k,
    {
        let first = input[3 * k];
        let second = input[3 * k + 1];
        let third = input[3 * k + 2];
        proof {
            let b = second as u32;
            let c = third as u32;
            assert((((b << 4) & 0xff) | (c >> 4)) < 256) by (bit_vector)
                requires
                    c < 256,
            ;
            assert((2 * k) * 12 % 8 == 0 && (2 * k) * 12 / 8 == 3 * k);
            assert((2 * k + 1) * 12 % 8 == 4 && (2 * k + 1) * 12 / 8 == 3 * k + 1);
        }
        out.push(first);
        out.push(((((second as u32) << 4) & 0xff) | ((third as u32) >> 4)) as u8);
        k = k + 1;
    }
    if input.len() % 3 == 2 {
        proof {
            assert((2 * triplets) * 12 % 8 == 0 && (2 * triplets) * 12 / 8 == 3 * triplets);
        }
        out.push(input[3 * triplets]);
    }
    proof {
        assert(out@ =~= unpacked(input@, 12));
    }
    out
}

/// Reduces every whole sample of a packed stream to its eight most
/// significant bits.
///
/// Samples of 8 bits are copied, samples of 12 bits take the triplet path,
/// every other width from 9 to 16 the carrying path. The result holds one
/// byte for each whole sample of the input and nothing for a trailing
/// partial sample.
pub fn unpack_to_8bit(input: &[u8], bits: u8) -> (out: Vec<u8>)
    requires
        8 <= bits <= 16,
    ensures
        out@ == unpacked(input@, bits as int),
        out.len() == sample_count(input@.len(), bits as int),
        bits == 8 ==> out@ == input@,
{
    if bits == 8 {
        let out = slice_to_vec(input);
        proof {
            lemma_unpacked_8(input@);
        }
        out
    } else if bits == 12 {
        unpack_12(input)
    } else {
        unpack_generic(input, bits as u32)
    }
}

/// Widens bytes to 16-bit samples: each byte becomes the high byte of a
/// sample whose low byte is zero.
pub open spec fn widened_16(samples: Seq<u8>) -> Seq<u8> {
    Seq::new(2 * samples.len(), |k: int| if k % 2 == 0 { samples[k / 2] } else { 0u8 })
}

/// Packs 8-bit samples as 16-bit samples of the same top eight bits.
pub fn pack_to_16bit(samples: &[u8]) -> (out: Vec<u8>)
    requires
        2 * samples@.len() <= usize::MAX,
    ensures
        out@ == widened_16(samples@),
{
    let mut out: Vec<u8> = Vec::new();
    let mut i: usize = 0;
    while i < samples.len()
        invariant
            i <= samples.len(),
            out.len() == 2 * i,
            forall|k: int| 0 <= k < out.len() ==> out[k] == widened_16(samples@)[k],
        decreases samples.len() - i,
    {
        out.push(samples[i]);
        out.push(0);
        i = i + 1;
    }
    proof {
        assert(out@ =~= widened_16(samples@));
    }
    out
}

/// A stream of 8-bit samples is its own unpacking.
pub proof fn lemma_unpacked_8(s: Seq<u8>)
    ensures
        unpacked(s, 8) == s,
{
    assert(unpacked(s, 8) =~= s);
}

/// Unpacking never yields more bytes than it was given, and yields exactly
/// one byte per whole sample.
pub proof fn lemma_unpacked_len(s: Seq<u8>, bits: int)
    requires
        8 <= bits <= 16,
    ensures
        unpacked(s, bits).len() == 8 * (s.len() as int) / bits,
        unpacked(s, bits).len() <= s.len(),
{
    let len = s.len() as int;
    assert(8 * len / bits <= len) by (nonlinear_arith)
        requires
            8 <= bits,
            len >= 0,
    ;
}

/// Unpacking at 16 bits keeps the first byte of every pair.
pub proof fn lemma_unpacked_16(s: Seq<u8>, i: int)
    requires
        0 <= i < s.len() / 2,
    ensures
        unpacked(s, 16).len() == s.len() / 2,
        unpacked(s, 16)[i] == s[2 * i],
{
}

/// Widening to 16 bits and unpacking again gives back the bytes.
pub proof fn lemma_unpack_widened_16(samples: Seq<u8>)
    ensures
        unpacked(widened_16(samples), 16) == samples,
{
    assert(unpacked(widened_16(samples), 16) =~= samples);
}

/// Unpacking at 16 bits, widening the result back to 16 bits and
/// unpacking once more reproduces the top eight bits of every sample of the
/// stream it started from.
pub proof fn lemma_repack_16_keeps_top_bytes(s: Seq<u8>)
    ensures
        unpacked(widened_16(unpacked(s, 16)), 16) == unpacked(s, 16),
        forall|i: int|
            0 <= i < s.len() / 2 ==> #[trigger] widened_16(unpacked(s, 16))[2 * i] == s[2 * i],
{
    lemma_unpack_widened_16(unpacked(s, 16));
    assert forall|i: int| 0 <= i < s.len() / 2 implies #[trigger] widened_16(unpacked(s, 16))[2
        * i] == s[2 * i] by {
        lemma_unpacked_16(s, i);
    }
}

/// The interpretation of a frame after its samples were reduced to bytes.
pub open spec fn converted_interpretation(interpretation: FrameInterpretation) -> FrameInterpretation {
    FrameInterpretation {
        width: interpretation.width,
        height: interpretation.height,
        fps: interpretation.fps,
        color_interpretation: interpretation.color_interpretation,
        sample_interpretation: SampleInterpretation::UInt(8),
        compression: interpretation.compression,
    }
}

/// The bytes of a frame of `samples` samples after its `bits`-bit samples
/// were reduced to bytes: the top eight bits of every whole sample of the
/// input, and zero for a last sample of which the input holds only a part.
pub open spec fn converted_bytes(s: Seq<u8>, bits: int, samples: int) -> Seq<u8> {
    Seq::new(
        samples as nat,
        |i: int|
            if i < sample_count(s.len(), bits) {
                window8(s, i * bits)
            } else {
                0u8
            },
    )
}

/// What the converter makes of a host frame: the error it answers with,
/// or the frame it hands on.
pub open spec fn conversion_of(
    context: ProcessingContext,
    input: Payload,
    frame: Frame<CpuBuffer>,
    output: Result<Payload, Error>,
) -> bool {
    match frame.spec_interpretation().sample_interpretation {
        SampleInterpretation::UInt(bits) => if bits == 8 {
            output matches Ok(same) && same == input
        } else if 9 <= bits <= 16 {
            &&& output matches Ok(Payload::CpuFrame(converted))
            &&& converted.spec_interpretation() == converted_interpretation(
                frame.spec_interpretation(),
            )
            &&& converted.spec_storage()@ == converted_bytes(
                frame.spec_storage()@,
                bits as int,
                frame.spec_interpretation().spec_sample_count(),
            )
            &&& converted.spec_storage().spec_backing() == backing_for(context.has_gpu())
        } else {
            output matches Err(Error::Config(ConfigFault::UnsupportedSampleWidth { bits: b }))
                && b == bits
        },
        _ => output matches Err(Error::Config(ConfigFault::FloatSamples)),
    }
}

proof fn lemma_converted_lengths(samples: int, bits: int, len: int)
    requires
        0 <= samples,
        8 <= bits <= 16,
        len == samples * bits / 8,
    ensures
        samples * 8 / 8 == samples,
        samples <= len,
        8 * len / bits <= samples,
{
    assert(samples * bits >= samples * 8) by (nonlinear_arith)
        requires
            0 <= samples,
            8 <= bits,
    ;
    assert(8 * len <= samples * bits);
    assert(8 * len / bits <= samples) by (nonlinear_arith)
        requires
            8 * len <= samples * bits,
            bits > 0,
    ;
}

/// The node that reduces the samples of host frames to one byte each.
#[derive(Debug)]
pub struct BitDepthConverter {
    input: NodeID,
    context: ProcessingContext,
}

impl BitDepthConverter {
    pub closed spec fn spec_context(&self) -> ProcessingContext {
        self.context
    }

    /// The node whose frames are converted.
    pub closed spec fn spec_input(&self) -> NodeID {
        self.input
    }

    /// The converter takes one parameter: its input.
    pub fn describe_parameters() -> (declared: ParametersDescriptor)
        ensures
            declared@.len() == 1,
            declared@[0].name@ == "input"@,
            declared@[0].descriptor == ParameterTypeDescriptor::Mandatory(
                ParameterType::NodeInputParameter,
            ),
    {
        ParametersDescriptor::new().with(
            "input",
            ParameterTypeDescriptor::Mandatory(ParameterType::NodeInputParameter),
        )
    }

    /// A converter of the frames of its `input` that allocates its own
    /// frames through `context`.
    pub fn from_parameters(parameters: Parameters, context: &ProcessingContext) -> (node: Result<
        Self,
        Error,
    >)
        ensures
            match node {
                Ok(n) => {
                    &&& value_named(parameters@, "input"@) == Some(
                        ParameterValue::NodeInputParameter(n.spec_input()),
                    )
                    &&& n.spec_context().spec_queues() == context.spec_queues()
                    &&& n.spec_context().spec_num_threads() == context.spec_num_threads()
                },
                Err(e) => match value_named(parameters@, "input"@) {
                    None => is_parameter_error(e, "input"@, ParameterFault::Missing),
                    Some(v) => !(v is NodeInputParameter) && is_parameter_error(
                        e,
                        "input"@,
                        ParameterFault::WrongKind,
                    ),
                },
            },
    {
        let mut parameters = parameters;
        match parameters.take_node_input("input") {
            Ok(input) => Ok(BitDepthConverter { input, context: context.clone() }),
            Err(e) => Err(e),
        }
    }

    /// The node whose frames are converted.
    pub fn input(&self) -> (input: NodeID)
        ensures
            input == self.spec_input(),
    {
        self.input
    }

    /// Converts one pulled payload, given the host frame it was read as.
    ///
    /// A frame of 8-bit samples is handed on untouched: the payload that
    /// comes back is the payload that came in. A frame of 9- to 16-bit
    /// samples becomes a new frame of as many 8-bit samples. Other sample
    /// formats are refused.
    pub fn convert(&self, input: &Payload, frame: &Frame<CpuBuffer>) -> (output: Result<
        Payload,
        Error,
    >)
        ensures
            conversion_of(self.spec_context(), *input, *frame, output),
    {
        let interpretation = *frame.interpretation();
        let bits = match interpretation.sample_interpretation {
            SampleInterpretation::UInt(bits) => bits,
            _ => {
                return Err(Error::Config(ConfigFault::FloatSamples));
            },
        };
        if bits == 8 {
            return Ok(input.clone());
        }
        if bits < 8 || bits > 16 {
            return Err(Error::Config(ConfigFault::UnsupportedSampleWidth { bits }));
        }
        let new_interpretation = FrameInterpretation {
            width: interpretation.width,
            height: interpretation.height,
            fps: interpretation.fps,
            color_interpretation: interpretation.color_interpretation,
            sample_interpretation: SampleInterpretation::UInt(8),
            compression: interpretation.compression,
        };
        let storage = frame.storage();
        let len = storage.len();
        let ghost samples = interpretation.spec_sample_count();
        proof {
            assert(samples >= 0) by (nonlinear_arith)
                requires
                    samples == interpretation.width * interpretation.height
                        * interpretation.color_interpretation.spec_samples_per_pixel(),
                    interpretation.color_interpretation.spec_samples_per_pixel() >= 1,
            ;
            lemma_converted_lengths(samples, bits as int, len as int);
            assert(new_interpretation.spec_sample_count() == samples);
            assert(new_interpretation.spec_required_bytes() == samples);
        }
        let wanted = match new_interpretation.required_bytes() {
            Some(n) => n,
            None => unreached(),
        };
        let mut bytes = unpack_to_8bit(storage.as_slice(), bits);
        let ghost whole = bytes@;
        while bytes.len() < wanted
            invariant
                whole == unpacked(storage@, bits as int),
                wanted == samples,
                whole.len() <= bytes.len() <= wanted,
                forall|i: int| 0 <= i < whole.len() ==> bytes[i] == whole[i],
                forall|i: int| whole.len() <= i < bytes.len() ==> bytes[i] == 0,
            decreases wanted - bytes.len(),
        {
            bytes.push(0);
        }
        assert(bytes@.len() == samples);
        assert(whole.len() == sample_count(storage@.len(), bits as int));
        assert forall|i: int| 0 <= i < samples implies bytes@[i] == converted_bytes(
            storage@,
            bits as int,
            samples,
        )[i] by {
            if i < whole.len() {
                assert(bytes[i] == whole[i]);
            }
        }
        assert(bytes@ =~= converted_bytes(storage@, bits as int, samples));
        let buffer = self.context.get_uninit_cpu_buffer(0);
        let backing = buffer.backing();
        match Frame::new(CpuBuffer::from_vec(bytes, backing), new_interpretation) {
            Ok(converted) => Ok(Payload::from(converted)),
            Err(_) => unreached(),
        }
    }

    /// What the converter can deliver: what its input can.
    pub fn get_caps(&self, input: Caps) -> (caps: Caps)
        ensures
            caps == input,
    {
        input
    }
}

} // verus!
