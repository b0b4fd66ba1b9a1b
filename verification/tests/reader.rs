use recorder::nodes_io::reader_cinema_dng::{
    sample_interpretation, CinemaDngReader, DngTags, IntegerField, PatternField, PullStep,
    RateField, Tag,
};
use recorder::pipeline_processing::buffers::Backing;
use recorder::pipeline_processing::error::{ConfigFault, Error, ErrorKind, FormatFault};
use recorder::pipeline_processing::frame::{
    CfaDescriptor, ColorInterpretation, Compression, FrameInterpretation, FrameRate,
    LengthMismatch, SampleInterpretation,
};
use recorder::pipeline_processing::node::{Caps, Request};
use recorder::pipeline_processing::payload::Payload;
use recorder::pipeline_processing::processing_context::{Priority, ProcessingContext};
use recorder::raw_video_io::reader_tcp::TcpReader;
use std::sync::Arc;

fn context() -> ProcessingContext {
    ProcessingContext::with_threads(None, 1)
}

fn files(count: usize) -> Vec<String> {
    (0..count).map(|i| format!("shot/frame_{:04}.dng", i)).collect()
}

fn tags(width: u32, height: u32, bits: u32) -> DngTags {
    DngTags {
        image_width: IntegerField::Value(width),
        image_length: IntegerField::Value(height),
        bits_per_sample: IntegerField::Value(bits),
        sample_format: IntegerField::Value(1),
        cfa_pattern: PatternField::Entries(vec![0, 1, 1, 2]),
        frame_rate: RateField::Missing,
    }
}

fn request(frame: u64) -> Request {
    Request::new(Priority::new(0, frame), frame)
}

fn reader(count: usize, cache_frames: bool, internal_loop: bool) -> CinemaDngReader {
    CinemaDngReader::new("shot/*.dng", files(count), cache_frames, internal_loop, &context())
        .unwrap()
}

#[test]
fn a_pattern_without_matches_is_a_config_error_that_names_the_pattern() {
    let error =
        CinemaDngReader::new("nowhere/*.dng", Vec::new(), false, false, &context()).unwrap_err();
    assert_eq!(error.kind(), ErrorKind::Config);
    assert_eq!(
        error,
        Error::Config(ConfigFault::NoFilesMatched { pattern: String::from("nowhere/*.dng") })
    );
    assert!(error.to_string().contains("nowhere/*.dng"));
    assert_eq!(error.to_string(), "no files matched the pattern nowhere/*.dng");
}

#[test]
fn a_pattern_that_does_not_compile_is_a_config_error() {
    for pattern in ["shot/***.dng", "shot/[a.dng", "a**b"] {
        let error =
            CinemaDngReader::new(pattern, files(3), false, false, &context()).unwrap_err();
        assert_eq!(
            error,
            Error::Config(ConfigFault::InvalidPattern { pattern: String::from(pattern) })
        );
        assert_eq!(error.to_string(), format!("invalid file pattern {}", pattern));
    }
    assert!(CinemaDngReader::new("shot/**/*.dng", files(3), false, false, &context()).is_ok());
    assert!(CinemaDngReader::new("shot/[a-z]?.dng", files(3), false, false, &context()).is_ok());
}

#[test]
fn the_checked_pattern_decides_before_the_files() {
    let error = CinemaDngReader::with_checked_pattern(
        "x",
        Some(0),
        Vec::new(),
        false,
        false,
        &context(),
    )
    .unwrap_err();
    assert_eq!(error, Error::Config(ConfigFault::InvalidPattern { pattern: String::from("x") }));
    let reader =
        CinemaDngReader::with_checked_pattern("x", None, files(2), true, false, &context())
            .unwrap();
    assert_eq!(reader.file_count(), 2);
    assert_eq!(reader.path(1), "shot/frame_0001.dng");
}

#[test]
fn frames_beyond_the_sequence_are_out_of_range() {
    let reader = reader(3, false, false);
    assert_eq!(reader.resolve(0).unwrap(), 0);
    assert_eq!(reader.resolve(2).unwrap(), 2);
    let error = reader.resolve(3).unwrap_err();
    assert_eq!(error, Error::FrameOutOfRange { requested: 3, available: 3 });
    assert_eq!(error.kind(), ErrorKind::FrameOutOfRange);
    assert_eq!(
        error.to_string(),
        "frame 3 was requested but this stream only has a length of 3"
    );
    assert_eq!(
        reader.begin_pull(&request(7)).unwrap_err(),
        Error::FrameOutOfRange { requested: 7, available: 3 }
    );
    assert_eq!(reader.get_caps(), Caps { frame_count: Some(3), random_access: true });
}

#[test]
fn a_looping_source_wraps_and_never_ends() {
    let mut reader = reader(3, true, true);
    assert_eq!(reader.get_caps(), Caps { frame_count: None, random_access: true });
    assert_eq!(reader.resolve(7).unwrap(), 1);
    assert_eq!(reader.resolve(u64::MAX).unwrap(), (u64::MAX % 3) as usize);
    let index = match reader.begin_pull(&request(1)).unwrap() {
        PullStep::Load { index } => index,
        PullStep::Cached(_) => panic!("nothing was served yet"),
    };
    assert_eq!(index, 1);
    let first = reader.finish_pull(index, &tags(2, 2, 8), vec![1, 2, 3, 4]).unwrap();
    let again = match reader.begin_pull(&request(7)).unwrap() {
        PullStep::Cached(payload) => payload,
        PullStep::Load { .. } => panic!("frame 7 is frame 1, which was kept"),
    };
    match (&first, &again) {
        (Payload::CpuFrame(a), Payload::CpuFrame(b)) => assert!(Arc::ptr_eq(a, b)),
        _ => panic!("the source serves host frames"),
    }
}

#[test]
fn a_kept_frame_is_served_without_decoding_again() {
    let mut reader = reader(2, true, false);
    let mut decoded = 0;
    let mut served = Vec::new();
    for _ in 0..2 {
        match reader.begin_pull(&request(0)).unwrap() {
            PullStep::Load { index } => {
                decoded += 1;
                served.push(reader.finish_pull(index, &tags(1, 2, 16), vec![0; 4]).unwrap());
            }
            PullStep::Cached(payload) => served.push(payload),
        }
    }
    assert_eq!(decoded, 1);
    let a = served[0].downcast_cpu_frame().unwrap();
    let b = served[1].downcast_cpu_frame().unwrap();
    assert!(Arc::ptr_eq(&a, &b));
    assert!(matches!(reader.begin_pull(&request(1)).unwrap(), PullStep::Load { index: 1 }));
}

#[test]
fn a_source_that_keeps_nothing_decodes_every_time() {
    let mut reader = reader(2, false, false);
    for _ in 0..2 {
        match reader.begin_pull(&request(0)).unwrap() {
            PullStep::Load { index } => {
                reader.finish_pull(index, &tags(1, 2, 16), vec![0; 4]).unwrap();
            }
            PullStep::Cached(_) => panic!("the source keeps no frames"),
        }
    }
}

#[test]
fn the_tags_make_the_interpretation() {
    let mut t = tags(4096, 3072, 12);
    t.frame_rate = RateField::Rate(FrameRate::Ratio { numerator: 25, denominator: 1 });
    assert_eq!(
        t.interpretation().unwrap(),
        FrameInterpretation {
            width: 4096,
            height: 3072,
            fps: Some(FrameRate::Ratio { numerator: 25, denominator: 1 }),
            color_interpretation: ColorInterpretation::Bayer(CfaDescriptor {
                red_in_first_col: true,
                red_in_first_row: true,
            }),
            sample_interpretation: SampleInterpretation::UInt(12),
            compression: Compression::Uncompressed,
        }
    );
}

#[test]
fn a_file_without_frame_rate_has_none() {
    let interpretation = tags(8, 8, 8).interpretation().unwrap();
    assert_eq!(interpretation.fps, None);
    assert_eq!(RateField::Missing.rate(), Ok(None));
    let double = RateField::Rate(FrameRate::Double { bits: 0x4038_0000_0000_0000 });
    assert_eq!(double.rate(), Ok(Some(FrameRate::Double { bits: 0x4038_0000_0000_0000 })));
}

#[test]
fn the_filter_pattern_says_where_red_is() {
    for (entries, col, row) in [
        (vec![0, 1, 1, 2], true, true),
        (vec![1, 0, 2, 1], false, true),
        (vec![1, 2, 0, 1], true, false),
        (vec![2, 1, 1, 0], false, false),
        (vec![1, 2, 0], true, false),
    ] {
        assert_eq!(
            PatternField::Entries(entries).cfa(),
            Ok(CfaDescriptor { red_in_first_col: col, red_in_first_row: row })
        );
    }
}

#[test]
fn float_samples_are_sixteen_or_thirty_two_bits_wide() {
    assert_eq!(sample_interpretation(3, 16), Ok(SampleInterpretation::FP16));
    assert_eq!(sample_interpretation(3, 32), Ok(SampleInterpretation::FP32));
    for bits in [0, 8, 12, 24, 64] {
        let fault = sample_interpretation(3, bits).unwrap_err();
        assert_eq!(fault, FormatFault::UnsupportedFloatWidth { bits_per_sample: bits });
        assert_eq!(Error::FormatParse(fault).kind(), ErrorKind::FormatParse);
    }
    let mut t = tags(2, 2, 24);
    t.sample_format = IntegerField::Value(3);
    assert_eq!(
        t.interpretation(),
        Err(FormatFault::UnsupportedFloatWidth { bits_per_sample: 24 })
    );
    assert_eq!(
        FormatFault::UnsupportedFloatWidth { bits_per_sample: 24 }.to_string(),
        "DNG is IEEE float with bits_per_sample=24. This is unsupported"
    );
}

#[test]
fn integer_samples_are_one_to_thirty_two_bits_wide() {
    assert_eq!(sample_interpretation(1, 1), Ok(SampleInterpretation::UInt(1)));
    assert_eq!(sample_interpretation(1, 32), Ok(SampleInterpretation::UInt(32)));
    assert_eq!(
        sample_interpretation(1, 0),
        Err(FormatFault::UnsupportedIntegerWidth { bits_per_sample: 0 })
    );
    assert_eq!(
        sample_interpretation(1, 268),
        Err(FormatFault::UnsupportedIntegerWidth { bits_per_sample: 268 })
    );
    assert_eq!(
        sample_interpretation(2, 8),
        Err(FormatFault::UnknownSampleFormat { sample_format: 2 })
    );
    assert_eq!(
        FormatFault::UnknownSampleFormat { sample_format: 2 }.to_string(),
        "Unknown SampleFormat 2"
    );
    assert_eq!(
        FormatFault::UnsupportedIntegerWidth { bits_per_sample: 0 }.to_string(),
        "DNG is unsigned integer with bits_per_sample=0. This is unsupported"
    );
}

#[test]
fn the_first_fault_of_the_tags_is_reported() {
    let mut t = tags(2, 2, 8);
    t.cfa_pattern = PatternField::Missing;
    t.frame_rate = RateField::Unreadable;
    t.image_width = IntegerField::Missing;
    assert_eq!(t.interpretation(), Err(FormatFault::MissingTag(Tag::CfaPattern)));
    t.cfa_pattern = PatternField::Unreadable;
    assert_eq!(t.interpretation(), Err(FormatFault::UnreadableTag(Tag::CfaPattern)));
    t.cfa_pattern = PatternField::Entries(vec![0, 1]);
    assert_eq!(t.interpretation(), Err(FormatFault::ShortCfaPattern { len: 2 }));
    t.cfa_pattern = PatternField::Entries(vec![0, 1, 1, 2]);
    assert_eq!(t.interpretation(), Err(FormatFault::UnreadableTag(Tag::FrameRate)));
    t.frame_rate = RateField::Missing;
    t.bits_per_sample = IntegerField::Unreadable;
    t.sample_format = IntegerField::Missing;
    assert_eq!(t.interpretation(), Err(FormatFault::UnreadableTag(Tag::BitsPerSample)));
    t.bits_per_sample = IntegerField::Value(8);
    assert_eq!(t.interpretation(), Err(FormatFault::MissingTag(Tag::SampleFormat)));
    t.sample_format = IntegerField::Value(7);
    assert_eq!(t.interpretation(), Err(FormatFault::UnknownSampleFormat { sample_format: 7 }));
    t.sample_format = IntegerField::Value(1);
    assert_eq!(t.interpretation(), Err(FormatFault::MissingTag(Tag::ImageWidth)));
    t.image_width = IntegerField::Value(2);
    t.image_length = IntegerField::Unreadable;
    assert_eq!(t.interpretation(), Err(FormatFault::UnreadableTag(Tag::ImageLength)));
    assert_eq!(IntegerField::Value(5).value(Tag::ImageWidth), Ok(5));
}

#[test]
fn faults_read_as_sentences() {
    assert_eq!(FormatFault::MissingTag(Tag::CfaPattern).to_string(), "couldnt read CFAPattern");
    assert_eq!(
        FormatFault::UnreadableTag(Tag::FrameRate).to_string(),
        "couldnt interpret FrameRate"
    );
    assert_eq!(
        FormatFault::ShortCfaPattern { len: 2 }.to_string(),
        "CFAPattern has only 2 entries"
    );
    assert_eq!(
        FormatFault::ImageDataLength(LengthMismatch { required: Some(4), actual: 3 }).to_string(),
        "image data of 3 bytes does not fit the image the tags describe"
    );
    assert_eq!(Tag::ImageLength.name(), "ImageLength");
    assert_eq!(Tag::BitsPerSample.name(), "BitsPerSample");
    assert_eq!(
        ConfigFault::UnsupportedSampleWidth { bits: 4 }.to_string(),
        "cannot convert samples of 4 bits"
    );
    assert_eq!(ConfigFault::FloatSamples.to_string(), "cannot convert floating-point samples");
    assert_eq!(Error::Cancelled.to_string(), "the pull was cancelled");
    assert_eq!(Error::Cancelled.kind(), ErrorKind::Cancelled);
    let io = Error::Io { message: String::from("couldn't open DNG file") };
    assert_eq!(io.to_string(), "couldn't open DNG file");
    assert_eq!(io.kind(), ErrorKind::Io);
    let gpu = Error::GpuFailure { message: String::from("device lost") };
    assert_eq!((gpu.kind(), gpu.to_string()), (ErrorKind::GpuFailure, String::from("device lost")));
    let internal = Error::Internal { message: String::from("broken") };
    assert_eq!(internal.kind(), ErrorKind::Internal);
}

#[test]
fn image_data_of_the_wrong_length_is_refused() {
    let mut reader = reader(1, true, false);
    let error = reader.finish_pull(0, &tags(2, 2, 8), vec![0; 5]).unwrap_err();
    assert_eq!(
        error,
        Error::FormatParse(FormatFault::ImageDataLength(LengthMismatch {
            required: Some(4),
            actual: 5
        }))
    );
    assert!(matches!(reader.begin_pull(&request(0)).unwrap(), PullStep::Load { index: 0 }));
    let mut broken = tags(2, 2, 8);
    broken.image_length = IntegerField::Missing;
    assert_eq!(
        reader.finish_pull(0, &broken, vec![0; 4]).unwrap_err(),
        Error::FormatParse(FormatFault::MissingTag(Tag::ImageLength))
    );
    let payload = reader.finish_pull(0, &tags(2, 2, 8), vec![4, 3, 2, 1]).unwrap();
    let frame = payload.downcast_cpu_frame().unwrap();
    assert_eq!(frame.storage().as_slice(), &[4, 3, 2, 1]);
    assert_eq!(frame.storage().backing(), Backing::Heap);
}

#[test]
fn ten_files_of_twelve_bit_frames() {
    let mut reader = reader(10, false, false);
    let t = tags(4096, 3072, 12);
    let len = 4096 * 3072 * 12 / 8;
    for frame in 0..10u64 {
        let index = match reader.begin_pull(&request(frame)).unwrap() {
            PullStep::Load { index } => index,
            PullStep::Cached(_) => panic!("the source keeps no frames"),
        };
        assert_eq!(index as u64, frame);
        let payload = reader.finish_pull(index, &t, vec![0; len]).unwrap();
        let host = payload.downcast_cpu_frame().unwrap();
        assert_eq!(host.storage().as_slice().len(), len);
        assert_eq!(
            host.interpretation().sample_interpretation,
            SampleInterpretation::UInt(12)
        );
    }
}

#[test]
fn a_stream_source_cuts_the_stream_into_frames() {
    let reader = TcpReader::new(4, 2, 12).unwrap();
    assert_eq!(reader.frame_len(), 12);
    assert_eq!(reader.get_caps(), Caps { frame_count: None, random_access: false });
    let payload = reader.process(&context(), (0..12).collect()).unwrap();
    let frame = payload.downcast_cpu_frame().unwrap();
    assert_eq!(frame.interpretation().width, 4);
    assert_eq!(frame.interpretation().height, 2);
    assert_eq!(frame.interpretation().sample_interpretation, SampleInterpretation::UInt(12));
    assert_eq!(frame.storage().as_slice()[11], 11);
    assert_eq!(
        reader.process(&context(), vec![0; 11]).unwrap_err(),
        Error::FormatParse(FormatFault::ImageDataLength(LengthMismatch {
            required: Some(12),
            actual: 11
        }))
    );
    assert!(TcpReader::new(u64::MAX, u64::MAX, 16).is_none());
    assert_eq!(TcpReader::new(3, 1, 10).unwrap().frame_len(), 3);
}
