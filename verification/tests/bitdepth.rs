use recorder::nodes_cpu::bitdepth_convert::{pack_to_16bit, unpack_to_8bit, BitDepthConverter};
use recorder::pipeline_processing::buffers::{Backing, CpuBuffer};
use recorder::pipeline_processing::error::{ConfigFault, Error, ErrorKind};
use recorder::pipeline_processing::frame::{
    CfaDescriptor, ColorInterpretation, Compression, Frame, FrameInterpretation,
    SampleInterpretation,
};
use recorder::pipeline_processing::node::Caps;
use recorder::pipeline_processing::parametrizable::{NamedValue, ParameterValue};
use recorder::pipeline_processing::payload::Payload;
use recorder::pipeline_processing::processing_context::ProcessingContext;
use std::sync::Arc;

fn bayer(width: u64, height: u64, sample: SampleInterpretation) -> FrameInterpretation {
    FrameInterpretation {
        width,
        height,
        fps: None,
        color_interpretation: ColorInterpretation::Bayer(CfaDescriptor {
            red_in_first_col: true,
            red_in_first_row: false,
        }),
        sample_interpretation: sample,
        compression: Compression::Uncompressed,
    }
}

fn converter(context: &ProcessingContext) -> BitDepthConverter {
    let given = vec![NamedValue {
        name: String::from("input"),
        value: ParameterValue::NodeInputParameter(3),
    }];
    let parameters = BitDepthConverter::describe_parameters().parse(&given).unwrap();
    BitDepthConverter::from_parameters(parameters, context).unwrap()
}

/// The top eight bits of sample `i`, read bit by bit from the stream.
fn top_bits(input: &[u8], bits: usize, i: usize) -> u8 {
    let mut value = 0u8;
    for k in 0..8 {
        let position = i * bits + k;
        let bit = (input[position / 8] >> (7 - position % 8)) & 1;
        value = (value << 1) | bit;
    }
    value
}

#[test]
fn ten_bit_all_ones() {
    let out = unpack_to_8bit(&[0xFF, 0xFF, 0xFF, 0xFF, 0xFF], 10);
    assert_eq!(out, vec![0xFF, 0xFF, 0xFF, 0xFF]);
}

#[test]
fn ten_bit_keeps_the_top_eight_bits_of_each_sample() {
    // samples 0x2A5, 0x13C, 0x3C3, 0x001
    let input = [0b1010_1001, 0b0101_0011, 0b1100_1111, 0b0000_1100, 0b0000_0001];
    let out = unpack_to_8bit(&input, 10);
    assert_eq!(out, vec![0xA9, 0x4F, 0xF0, 0x00]);
}

#[test]
fn eight_bit_is_the_identity() {
    let input = [1u8, 2, 3, 250, 0];
    assert_eq!(unpack_to_8bit(&input, 8), input.to_vec());
    assert_eq!(unpack_to_8bit(&[], 8), Vec::<u8>::new());
}

#[test]
fn twelve_bit_triplets_become_pairs() {
    let input = [0x12, 0x34, 0x56, 0xAB, 0xCD, 0xEF];
    assert_eq!(unpack_to_8bit(&input, 12), vec![0x12, 0x45, 0xAB, 0xDE]);
}

#[test]
fn twelve_bit_tail_of_two_bytes_holds_one_sample() {
    assert_eq!(unpack_to_8bit(&[0x12, 0x34, 0x56, 0x78, 0x9A], 12), vec![0x12, 0x45, 0x78]);
    assert_eq!(unpack_to_8bit(&[0x12, 0x34, 0x56, 0x78], 12), vec![0x12, 0x45]);
}

#[test]
fn sixteen_bit_keeps_the_high_bytes() {
    let input = [0x12, 0x34, 0x56, 0x78, 0x9A];
    assert_eq!(unpack_to_8bit(&input, 16), vec![0x12, 0x56]);
}

#[test]
fn every_width_agrees_with_the_bit_stream() {
    let input: Vec<u8> = (0..97u32).map(|i| (i * 37 + 11) as u8).collect();
    for bits in 8..=16usize {
        let out = unpack_to_8bit(&input, bits as u8);
        assert_eq!(out.len(), input.len() * 8 / bits);
        for (i, byte) in out.iter().enumerate() {
            assert_eq!(*byte, top_bits(&input, bits, i), "width {} sample {}", bits, i);
        }
    }
}

#[test]
fn output_has_one_byte_per_whole_sample() {
    assert_eq!(unpack_to_8bit(&[0xFF], 9).len(), 0);
    assert_eq!(unpack_to_8bit(&[0xFF, 0x80], 9), vec![0xFF]);
    assert_eq!(unpack_to_8bit(&[0; 9], 9).len(), 8);
    assert_eq!(unpack_to_8bit(&[], 13).len(), 0);
}

#[test]
fn widening_to_sixteen_bits_and_unpacking_gives_the_bytes_back() {
    let samples = [0u8, 1, 127, 128, 255];
    let packed = pack_to_16bit(&samples);
    assert_eq!(packed, vec![0, 0, 1, 0, 127, 0, 128, 0, 255, 0]);
    assert_eq!(unpack_to_8bit(&packed, 16), samples.to_vec());
}

#[test]
fn repacking_at_sixteen_bits_keeps_the_top_bytes() {
    let stream = [0x12, 0x34, 0xFE, 0xDC, 0x00, 0x01];
    let top = unpack_to_8bit(&stream, 16);
    let repacked = pack_to_16bit(&top);
    assert_eq!(unpack_to_8bit(&repacked, 16), top);
    for i in 0..3 {
        assert_eq!(repacked[2 * i], stream[2 * i]);
    }
}

#[test]
fn converter_hands_eight_bit_frames_on_untouched() {
    let context = ProcessingContext::with_threads(None, 1);
    let node = converter(&context);
    let frame = Frame::new(
        CpuBuffer::from_vec(vec![9, 8, 7, 6], Backing::Heap),
        bayer(2, 2, SampleInterpretation::UInt(8)),
    )
    .unwrap();
    let input = Payload::from(frame);
    let host = input.downcast_cpu_frame().unwrap();
    let output = node.convert(&input, &host).unwrap();
    match (&input, &output) {
        (Payload::CpuFrame(a), Payload::CpuFrame(b)) => assert!(Arc::ptr_eq(a, b)),
        _ => panic!("the payload changed its kind"),
    }
}

#[test]
fn converter_makes_eight_bit_frames_of_twelve_bit_frames() {
    let context = ProcessingContext::with_threads(None, 1);
    let node = converter(&context);
    let frame = Frame::new(
        CpuBuffer::from_vec(vec![0x12, 0x34, 0x56, 0xAB, 0xCD, 0xEF], Backing::Heap),
        bayer(2, 2, SampleInterpretation::UInt(12)),
    )
    .unwrap();
    let input = Payload::from(frame);
    let host = input.downcast_cpu_frame().unwrap();
    let output = node.convert(&input, &host).unwrap();
    let converted = output.downcast_cpu_frame().unwrap();
    assert_eq!(converted.storage().as_slice(), &[0x12, 0x45, 0xAB, 0xDE]);
    assert_eq!(*converted.interpretation(), bayer(2, 2, SampleInterpretation::UInt(8)));
    assert_eq!(converted.storage().backing(), Backing::Heap);
}

#[test]
fn converter_pads_a_sample_that_the_input_holds_in_part() {
    let context = ProcessingContext::with_threads(None, 1);
    let node = converter(&context);
    // 3 samples of 12 bits need 36 bits; the frame holds 4 whole bytes.
    let frame = Frame::new(
        CpuBuffer::from_vec(vec![0x12, 0x34, 0x56, 0x78], Backing::Heap),
        bayer(3, 1, SampleInterpretation::UInt(12)),
    )
    .unwrap();
    let input = Payload::from(frame);
    let host = input.downcast_cpu_frame().unwrap();
    let converted = node.convert(&input, &host).unwrap().downcast_cpu_frame().unwrap();
    assert_eq!(converted.storage().as_slice(), &[0x12, 0x45, 0x00]);
}

#[test]
fn converter_refuses_what_it_cannot_convert() {
    let context = ProcessingContext::with_threads(None, 1);
    let node = converter(&context);
    for (sample, len, fault) in [
        (SampleInterpretation::UInt(4), 2, ConfigFault::UnsupportedSampleWidth { bits: 4 }),
        (SampleInterpretation::UInt(24), 12, ConfigFault::UnsupportedSampleWidth { bits: 24 }),
        (SampleInterpretation::FP16, 8, ConfigFault::FloatSamples),
        (SampleInterpretation::FP32, 16, ConfigFault::FloatSamples),
    ] {
        let frame =
            Frame::new(CpuBuffer::from_vec(vec![0; len], Backing::Heap), bayer(2, 2, sample))
                .unwrap();
        let input = Payload::from(frame);
        let host = input.downcast_cpu_frame().unwrap();
        let error = node.convert(&input, &host).unwrap_err();
        assert_eq!(error.kind(), ErrorKind::Config);
        assert_eq!(error, Error::Config(fault));
    }
}

#[test]
fn twelve_bit_frames_of_a_sensor_become_one_byte_per_pixel() {
    let context = ProcessingContext::with_threads(None, 1);
    let node = converter(&context);
    let interpretation = bayer(4096, 3072, SampleInterpretation::UInt(12));
    let len = interpretation.required_bytes().unwrap();
    assert_eq!(len, 4096 * 3072 * 12 / 8);
    let frame = Frame::new(CpuBuffer::zeroed(len, Backing::Heap), interpretation).unwrap();
    let input = Payload::from(frame);
    let host = input.downcast_cpu_frame().unwrap();
    let converted = node.convert(&input, &host).unwrap().downcast_cpu_frame().unwrap();
    assert_eq!(
        converted.interpretation().sample_interpretation,
        SampleInterpretation::UInt(8)
    );
    assert_eq!(converted.storage().as_slice().len(), 4096 * 3072);
}

#[test]
fn converter_passes_capabilities_through() {
    let context = ProcessingContext::with_threads(None, 1);
    let node = converter(&context);
    let caps = Caps { frame_count: Some(10), random_access: true };
    assert_eq!(node.get_caps(caps), caps);
    assert_eq!(node.input(), 3);
}
