use recorder::gpu::display::{Display, PresentMode};
use recorder::nodes_cpu::bitdepth_convert::BitDepthConverter;
use recorder::nodes_gpu::calibrate::Calibrate;
use recorder::nodes_gpu::histogram::Histogram;
use recorder::nodes_io::reader_cinema_dng::CinemaDngReader;
use recorder::pipeline_processing::error::{ConfigFault, Error, ErrorKind, ParameterFault};
use recorder::pipeline_processing::node::Caps;
use recorder::pipeline_processing::parametrizable::{
    find_named, NamedValue, ParameterType, ParameterTypeDescriptor, ParameterValue,
    ParametersDescriptor,
};
use recorder::pipeline_processing::processing_context::{
    device_extensions, next_candidate, presentation_queue, DeviceExtensions, PhysicalDeviceType,
    ProcessingContext, QueueFamily, VulkanContext,
};
use recorder::raw_video_io::reader_tcp::TcpReader;

fn named(name: &str, value: ParameterValue) -> NamedValue {
    NamedValue { name: String::from(name), value }
}

fn text(value: &str) -> ParameterValue {
    ParameterValue::StringParameter(String::from(value))
}

fn parameter_error(name: &str, fault: ParameterFault) -> Error {
    Error::Config(ConfigFault::Parameter { name: String::from(name), fault })
}

fn context() -> ProcessingContext {
    ProcessingContext::with_threads(None, 1)
}

fn gpu() -> ProcessingContext {
    ProcessingContext::with_threads(
        Some(VulkanContext {
            device_name: String::from("device"),
            queues: vec![QueueFamily {
                supports_graphics: true,
                supports_compute: true,
                explicitly_supports_transfers: true,
            }],
        }),
        1,
    )
}

#[test]
fn kinds_admit_their_values() {
    assert_eq!(ParameterType::StringParameter.check(&text("x")), None);
    assert_eq!(ParameterType::BoolParameter.check(&ParameterValue::BoolParameter(false)), None);
    assert_eq!(ParameterType::NodeInputParameter.check(&ParameterValue::NodeInputParameter(1)), None);
    assert_eq!(ParameterType::IntRange(8, 16).check(&ParameterValue::IntRange(8)), None);
    assert_eq!(ParameterType::IntRange(8, 16).check(&ParameterValue::IntRange(16)), None);
    assert_eq!(
        ParameterType::IntRange(8, 16).check(&ParameterValue::IntRange(17)),
        Some(ParameterFault::OutOfRange { value: 17, low: 8, high: 16 })
    );
    assert_eq!(
        ParameterType::IntRange(8, 16).check(&ParameterValue::IntRange(7)),
        Some(ParameterFault::OutOfRange { value: 7, low: 8, high: 16 })
    );
    assert_eq!(
        ParameterType::IntRange(8, 16).check(&text("12")),
        Some(ParameterFault::WrongKind)
    );
    assert_eq!(
        ParameterType::BoolParameter.check(&ParameterValue::IntRange(1)),
        Some(ParameterFault::WrongKind)
    );
}

#[test]
fn a_declared_parameter_resolves_to_what_was_given_or_to_its_default() {
    let mandatory = ParameterTypeDescriptor::Mandatory(ParameterType::BoolParameter);
    let optional = ParameterTypeDescriptor::Optional(ParameterType::BoolParameter);
    let defaulted = ParameterTypeDescriptor::WithDefault(
        ParameterType::BoolParameter,
        ParameterValue::BoolParameter(true),
    );
    let given = ParameterValue::BoolParameter(false);
    for descriptor in [&mandatory, &optional, &defaulted] {
        assert_eq!(descriptor.resolve(Some(&given)), Ok(Some(ParameterValue::BoolParameter(false))));
        assert_eq!(descriptor.resolve(Some(&text("no"))), Err(ParameterFault::WrongKind));
        assert_eq!(descriptor.kind(), ParameterType::BoolParameter);
    }
    assert_eq!(mandatory.resolve(None), Err(ParameterFault::Missing));
    assert_eq!(optional.resolve(None), Ok(None));
    assert_eq!(defaulted.resolve(None), Ok(Some(ParameterValue::BoolParameter(true))));
}

#[test]
fn the_first_value_under_a_name_counts() {
    let given = vec![
        named("a", ParameterValue::IntRange(1)),
        named("b", ParameterValue::IntRange(2)),
        named("a", ParameterValue::IntRange(3)),
    ];
    assert_eq!(find_named(&given, "a"), Some(0));
    assert_eq!(find_named(&given, "b"), Some(1));
    assert_eq!(find_named(&given, "c"), None);
    assert_eq!(find_named(&Vec::new(), "a"), None);
}

#[test]
fn values_are_held_against_the_declaration() {
    let declared = ParametersDescriptor::new()
        .with("name", ParameterTypeDescriptor::Mandatory(ParameterType::StringParameter))
        .with("count", ParameterTypeDescriptor::Mandatory(ParameterType::IntRange(0, 10)))
        .with("flag", ParameterTypeDescriptor::Optional(ParameterType::BoolParameter))
        .with(
            "mode",
            ParameterTypeDescriptor::WithDefault(ParameterType::IntRange(0, 3), ParameterValue::IntRange(2)),
        );
    assert_eq!(declared.len(), 4);
    assert_eq!(declared.name(1), "count");
    assert_eq!(
        *declared.descriptor(2),
        ParameterTypeDescriptor::Optional(ParameterType::BoolParameter)
    );
    let given = vec![
        named("count", ParameterValue::IntRange(4)),
        named("undeclared", ParameterValue::IntRange(9)),
        named("name", text("n")),
    ];
    let mut parameters = declared.parse(&given).unwrap();
    assert!(parameters.has("name"));
    assert!(parameters.has("mode"));
    assert!(!parameters.has("flag"));
    assert!(!parameters.has("undeclared"));
    assert_eq!(parameters.take_int("mode"), Ok(2));
    assert_eq!(parameters.take_int("count"), Ok(4));
    assert_eq!(parameters.take_string("name"), Ok(String::from("n")));
    assert_eq!(
        parameters.take_string("name"),
        Err(parameter_error("name", ParameterFault::Missing))
    );
    assert_eq!(
        declared.parse(&vec![named("name", text("n"))]).unwrap_err(),
        parameter_error("count", ParameterFault::Missing)
    );
    assert_eq!(
        declared
            .parse(&vec![named("count", ParameterValue::IntRange(11)), named("name", text("n"))])
            .unwrap_err(),
        parameter_error("count", ParameterFault::OutOfRange { value: 11, low: 0, high: 10 })
    );
    assert_eq!(
        declared
            .parse(&vec![named("count", ParameterValue::IntRange(11)), named("name", ParameterValue::IntRange(1))])
            .unwrap_err(),
        parameter_error("name", ParameterFault::WrongKind)
    );
}

#[test]
fn a_value_is_taken_as_what_it_is() {
    let declared = ParametersDescriptor::new()
        .with("flag", ParameterTypeDescriptor::Mandatory(ParameterType::BoolParameter))
        .with("input", ParameterTypeDescriptor::Mandatory(ParameterType::NodeInputParameter));
    let given = vec![
        named("flag", ParameterValue::BoolParameter(true)),
        named("input", ParameterValue::NodeInputParameter(7)),
    ];
    let mut parameters = declared.parse(&given).unwrap();
    assert_eq!(
        parameters.take_int("flag"),
        Err(parameter_error("flag", ParameterFault::WrongKind))
    );
    let mut parameters = declared.parse(&given).unwrap();
    assert_eq!(parameters.take_bool("flag"), Ok(true));
    assert_eq!(parameters.take_node_input("input"), Ok(7));
    assert!(!parameters.has("input"));
    let mut parameters = declared.parse(&given).unwrap();
    assert_eq!(parameters.take("input"), Ok(ParameterValue::NodeInputParameter(7)));
    assert_eq!(parameters.take_bool("flag"), Ok(true));
    let error = parameters.take("flag").unwrap_err();
    assert_eq!(error.kind(), ErrorKind::Config);
    assert_eq!(error.to_string(), "parameter flag is missing");
    assert_eq!(
        parameter_error("n", ParameterFault::WrongKind).to_string(),
        "parameter n has a value of the wrong kind"
    );
    assert_eq!(
        parameter_error("n", ParameterFault::OutOfRange { value: 1, low: 2, high: 3 }).to_string(),
        "parameter n is out of range"
    );
}

#[test]
fn the_converter_needs_its_input() {
    let declared = BitDepthConverter::describe_parameters();
    assert_eq!(declared.len(), 1);
    assert_eq!(declared.name(0), "input");
    assert_eq!(
        declared.parse(&Vec::new()).unwrap_err(),
        parameter_error("input", ParameterFault::Missing)
    );
    assert_eq!(
        declared.parse(&vec![named("input", text("source"))]).unwrap_err(),
        parameter_error("input", ParameterFault::WrongKind)
    );
    let empty = ParametersDescriptor::new().parse(&Vec::new()).unwrap();
    assert_eq!(
        BitDepthConverter::from_parameters(empty, &context()).unwrap_err(),
        parameter_error("input", ParameterFault::Missing)
    );
}

#[test]
fn gpu_nodes_look_for_the_gpu_before_their_parameters() {
    let empty = || ParametersDescriptor::new().parse(&Vec::new()).unwrap();
    assert_eq!(Histogram::from_parameters(empty(), &context()).unwrap_err(), Error::GpuUnavailable);
    assert_eq!(Calibrate::from_parameters(empty(), &context()).unwrap_err(), Error::GpuUnavailable);
    assert_eq!(
        Histogram::from_parameters(empty(), &gpu()).unwrap_err(),
        parameter_error("input", ParameterFault::Missing)
    );
    assert_eq!(
        Calibrate::from_parameters(empty(), &gpu()).unwrap_err(),
        parameter_error("darkframe", ParameterFault::Missing)
    );
    assert_eq!(Calibrate::describe_parameters().len(), 4);
    assert_eq!(Histogram::describe_parameters().len(), 1);
}

#[test]
fn calibration_takes_its_parameters_in_turn() {
    let loose = ParametersDescriptor::new()
        .with("darkframe", ParameterTypeDescriptor::Optional(ParameterType::StringParameter))
        .with("width", ParameterTypeDescriptor::Optional(ParameterType::IntRange(i64::MIN, i64::MAX)))
        .with("height", ParameterTypeDescriptor::Optional(ParameterType::IntRange(i64::MIN, i64::MAX)))
        .with("input", ParameterTypeDescriptor::Optional(ParameterType::NodeInputParameter));
    let mut given = vec![named("darkframe", text("d"))];
    let build = |given: &Vec<NamedValue>| {
        Calibrate::from_parameters(loose.parse(given).unwrap(), &gpu())
    };
    assert_eq!(build(&given).unwrap_err(), parameter_error("width", ParameterFault::Missing));
    given.push(named("width", ParameterValue::IntRange(-1)));
    assert_eq!(
        build(&given).unwrap_err(),
        parameter_error("width", ParameterFault::OutOfRange { value: -1, low: 0, high: i64::MAX })
    );
    given[1] = named("width", ParameterValue::IntRange((1 << 32) + 2));
    assert_eq!(build(&given).unwrap_err(), parameter_error("height", ParameterFault::Missing));
    given.push(named("height", ParameterValue::IntRange(-5)));
    assert_eq!(
        build(&given).unwrap_err(),
        parameter_error("height", ParameterFault::OutOfRange { value: -5, low: 0, high: i64::MAX })
    );
    given[2] = named("height", ParameterValue::IntRange(6));
    assert_eq!(build(&given).unwrap_err(), parameter_error("input", ParameterFault::Missing));
    given.push(named("input", ParameterValue::NodeInputParameter(1)));
    let node = build(&given).unwrap();
    assert_eq!(node.darkframe_dimensions(), (2, 6));
}

#[test]
fn the_dng_source_is_built_from_its_parameters() {
    let declared = CinemaDngReader::describe_parameters();
    assert_eq!(declared.len(), 3);
    let files = vec![String::from("a.dng"), String::from("b.dng")];
    let given = vec![
        named("internal-loop", ParameterValue::BoolParameter(true)),
        named("file-pattern", text("*.dng")),
    ];
    let reader =
        CinemaDngReader::from_parameters(declared.parse(&given).unwrap(), files.clone(), &context())
            .unwrap();
    assert_eq!(reader.get_caps(), Caps { frame_count: None, random_access: true });
    assert_eq!(reader.file_count(), 2);
    let given = vec![named("file-pattern", text("*.dng"))];
    let reader =
        CinemaDngReader::from_parameters(declared.parse(&given).unwrap(), files.clone(), &context())
            .unwrap();
    assert_eq!(reader.get_caps(), Caps { frame_count: Some(2), random_access: true });
    assert_eq!(
        CinemaDngReader::from_parameters(declared.parse(&given).unwrap(), Vec::new(), &context())
            .unwrap_err(),
        Error::Config(ConfigFault::NoFilesMatched { pattern: String::from("*.dng") })
    );
    let given = vec![named("file-pattern", text("a[.dng"))];
    assert_eq!(
        CinemaDngReader::from_parameters(declared.parse(&given).unwrap(), files.clone(), &context())
            .unwrap_err(),
        Error::Config(ConfigFault::InvalidPattern { pattern: String::from("a[.dng") })
    );
    assert_eq!(
        declared.parse(&Vec::new()).unwrap_err(),
        parameter_error("file-pattern", ParameterFault::Missing)
    );
    let empty = ParametersDescriptor::new().parse(&Vec::new()).unwrap();
    assert_eq!(
        CinemaDngReader::from_parameters(empty, files, &context()).unwrap_err(),
        parameter_error("file-pattern", ParameterFault::Missing)
    );
}

#[test]
fn the_stream_source_is_built_from_its_parameters() {
    let declared = TcpReader::describe_parameters();
    let given = |width: i64, height: i64, bits: i64| {
        vec![
            named("address", text("127.0.0.1:9000")),
            named("width", ParameterValue::IntRange(width)),
            named("height", ParameterValue::IntRange(height)),
            named("bit-depth", ParameterValue::IntRange(bits)),
        ]
    };
    let (reader, address) =
        TcpReader::from_parameters(declared.parse(&given(4096, 3072, 12)).unwrap()).unwrap();
    assert_eq!(address, "127.0.0.1:9000");
    assert_eq!(reader.frame_len(), 4096 * 3072 * 12 / 8);
    assert_eq!(
        declared.parse(&given(1, 1, 7)).unwrap_err(),
        parameter_error("bit-depth", ParameterFault::OutOfRange { value: 7, low: 8, high: 16 })
    );
    assert_eq!(
        declared.parse(&given(-1, 1, 8)).unwrap_err(),
        parameter_error("width", ParameterFault::OutOfRange { value: -1, low: 0, high: i64::MAX })
    );
    let error = TcpReader::from_parameters(declared.parse(&given(i64::MAX, i64::MAX, 16)).unwrap())
        .unwrap_err();
    assert_eq!(
        error,
        Error::Config(ConfigFault::FrameTooLarge { width: i64::MAX as u64, height: i64::MAX as u64 })
    );
    assert_eq!(
        error.to_string(),
        "frames of 9223372036854775807 by 9223372036854775807 samples are too large"
    );
    let loose = ParametersDescriptor::new()
        .with("address", ParameterTypeDescriptor::Mandatory(ParameterType::StringParameter))
        .with("width", ParameterTypeDescriptor::Mandatory(ParameterType::IntRange(0, 9)))
        .with("height", ParameterTypeDescriptor::Mandatory(ParameterType::IntRange(0, 9)))
        .with("bit-depth", ParameterTypeDescriptor::Mandatory(ParameterType::IntRange(0, 99)));
    assert_eq!(
        TcpReader::from_parameters(loose.parse(&given(1, 1, 17)).unwrap()).unwrap_err(),
        parameter_error("bit-depth", ParameterFault::OutOfRange { value: 17, low: 8, high: 16 })
    );
}

#[test]
fn the_display_blocks_and_presents_in_order_unless_told_otherwise() {
    let declared = Display::describe_parameters();
    let (sink, mode) = Display::from_parameters(declared.parse(&Vec::new()).unwrap()).unwrap();
    assert_eq!(mode, PresentMode::Fifo);
    let mut sink = sink;
    let frame = recorder::pipeline_processing::payload::Payload::empty();
    assert!(sink.process(&frame).is_err());
    let given = vec![
        named("mailbox", ParameterValue::BoolParameter(true)),
        named("blocking", ParameterValue::BoolParameter(false)),
    ];
    let (_, mode) = Display::from_parameters(declared.parse(&given).unwrap()).unwrap();
    assert_eq!(mode, PresentMode::Mailbox);
    let empty = ParametersDescriptor::new().parse(&Vec::new()).unwrap();
    assert_eq!(
        Display::from_parameters(empty).unwrap_err(),
        parameter_error("mailbox", ParameterFault::Missing)
    );
}

#[test]
fn the_first_device_that_is_no_cpu_is_tried_first() {
    let devices = vec![
        PhysicalDeviceType::Cpu,
        PhysicalDeviceType::IntegratedGpu,
        PhysicalDeviceType::Cpu,
        PhysicalDeviceType::DiscreteGpu,
    ];
    assert_eq!(next_candidate(&devices, 0), Some(1));
    assert_eq!(next_candidate(&devices, 1), Some(1));
    assert_eq!(next_candidate(&devices, 2), Some(3));
    assert_eq!(next_candidate(&devices, 4), None);
    assert_eq!(next_candidate(&devices, 9), None);
    assert_eq!(next_candidate(&vec![PhysicalDeviceType::Cpu], 0), None);
    assert_eq!(next_candidate(&vec![PhysicalDeviceType::Other], 0), Some(0));
    assert_eq!(
        device_extensions(false),
        DeviceExtensions {
            khr_swapchain: true,
            khr_storage_buffer_storage_class: true,
            khr_8bit_storage: true,
            khr_shader_non_semantic_info: false,
        }
    );
    assert!(device_extensions(true).khr_shader_non_semantic_info);
}

#[test]
fn a_window_is_drawn_with_a_queue_that_its_surface_supports() {
    let family = |graphics: bool| QueueFamily {
        supports_graphics: graphics,
        supports_compute: false,
        explicitly_supports_transfers: false,
    };
    let queues = vec![family(true), family(false), family(true)];
    assert_eq!(presentation_queue(&queues, &vec![false, true, true]), Some(2));
    assert_eq!(presentation_queue(&queues, &vec![true, true, true]), Some(0));
    assert_eq!(presentation_queue(&queues, &vec![false, true]), None);
    assert_eq!(presentation_queue(&queues, &Vec::new()), None);
    assert_eq!(presentation_queue(&Vec::new(), &vec![true]), None);
}
