use recorder::pipeline_processing::buffers::{Backing, Buffer, CpuBuffer, GpuBuffer};
use recorder::pipeline_processing::error::{ConfigFault, Error};
use recorder::pipeline_processing::frame::{
    ColorInterpretation, Compression, Frame, FrameInterpretation, SampleInterpretation,
};
use recorder::pipeline_processing::gpu_util::{
    ensure_gpu_buffer_frame, to_gpu_buffer_frame, DeviceCoercion,
};
use recorder::pipeline_processing::node::Caps;
use recorder::pipeline_processing::payload::Payload;
use recorder::pipeline_processing::processing_context::Priority;
use recorder::pipeline_processing::processing_graph::ProcessingGraph;
use recorder::pipeline_processing::puller::{Puller, EXIT_FAILED, EXIT_OK};
use std::sync::Arc;

fn mono(width: u64) -> FrameInterpretation {
    FrameInterpretation {
        width,
        height: 1,
        fps: None,
        color_interpretation: ColorInterpretation::Mono,
        sample_interpretation: SampleInterpretation::UInt(8),
        compression: Compression::Uncompressed,
    }
}

#[test]
fn a_device_frame_is_bound_as_it_is() {
    let payload = Payload::from(Frame::new(GpuBuffer::new(1, 4), mono(4)).unwrap());
    let first = match ensure_gpu_buffer_frame(&payload).unwrap() {
        DeviceCoercion::Resident(frame) => frame,
        _ => panic!("a device frame is on the device"),
    };
    let second = match ensure_gpu_buffer_frame(&Payload::GpuFrame(first.clone())).unwrap() {
        DeviceCoercion::Resident(frame) => frame,
        _ => panic!("a device frame is on the device"),
    };
    assert!(Arc::ptr_eq(&first, &second));
}

#[test]
fn a_host_frame_is_bound_or_copied_by_its_backing() {
    let mapped =
        Payload::from(Frame::new(CpuBuffer::zeroed(4, Backing::DeviceMapped), mono(4)).unwrap());
    assert!(matches!(ensure_gpu_buffer_frame(&mapped).unwrap(), DeviceCoercion::Bind(_)));
    let plain = Payload::from(
        Frame::new(CpuBuffer::from_vec(vec![1, 2, 3, 4], Backing::Heap), mono(4)).unwrap(),
    );
    let host = match ensure_gpu_buffer_frame(&plain).unwrap() {
        DeviceCoercion::Upload(frame) => frame,
        _ => panic!("plain memory has to be copied"),
    };
    let device = to_gpu_buffer_frame(&host, GpuBuffer::new(8, 4)).unwrap();
    assert_eq!(*device.interpretation(), mono(4));
    assert_eq!(device.storage().handle(), 8);
    assert_eq!(device.storage().len(), host.storage().len());
    assert!(to_gpu_buffer_frame(&host, GpuBuffer::new(8, 5)).is_none());
}

#[test]
fn what_is_no_frame_cannot_be_bound() {
    assert_eq!(
        ensure_gpu_buffer_frame(&Payload::empty()).unwrap_err(),
        Error::WrongPayloadType {
            expected: String::from("Frame<GpuBuffer>"),
            actual: String::from("()"),
        }
    );
}

#[test]
fn nodes_take_input_from_earlier_nodes_only() {
    let mut graph = ProcessingGraph::new();
    assert_eq!(graph.add(Vec::new()), Ok(0));
    assert_eq!(graph.add(vec![0]), Ok(1));
    assert_eq!(graph.add(vec![0, 1]), Ok(2));
    let error = graph.add(vec![2, 3, 7]).unwrap_err();
    assert_eq!(error, Error::Config(ConfigFault::UnknownInput { input: 3, nodes: 3 }));
    assert_eq!(error.to_string(), "input 3 is none of the 3 nodes before it");
    assert_eq!(graph.len(), 3);
    assert_eq!(graph.add(vec![2]), Ok(3));
    assert_eq!(graph.inputs_of(2), &vec![0, 1]);
    assert_eq!(
        ProcessingGraph::new().add(vec![0]).unwrap_err(),
        Error::Config(ConfigFault::UnknownInput { input: 0, nodes: 0 })
    );
}

#[test]
fn a_node_knows_its_consumers() {
    let mut graph = ProcessingGraph::new();
    graph.add(Vec::new()).unwrap();
    graph.add(vec![0]).unwrap();
    graph.add(vec![1]).unwrap();
    graph.add(vec![0, 0, 2]).unwrap();
    assert_eq!(graph.is_input_to(0), vec![1, 3]);
    assert_eq!(graph.is_input_to(1), vec![2]);
    assert_eq!(graph.is_input_to(2), vec![3]);
    assert_eq!(graph.is_input_to(3), Vec::<usize>::new());
    assert_eq!(graph.is_input_to(9), Vec::<usize>::new());
}

#[test]
fn a_puller_asks_for_frames_in_rising_order_within_its_window() {
    let caps = Caps { frame_count: Some(5), random_access: true };
    let mut puller = Puller::new(2, caps, 3);
    let mut asked = Vec::new();
    while let Some(request) = puller.next_request() {
        assert_eq!(request.priority(), Priority::new(2, request.frame_number()));
        asked.push(request.frame_number());
    }
    assert_eq!(asked, vec![0, 1, 2]);
    assert!(!puller.is_finished());
    assert!(puller.completed(true));
    assert_eq!(puller.next_request().unwrap().frame_number(), 3);
    assert!(puller.next_request().is_none());
    assert!(puller.completed(true));
    assert!(puller.completed(true));
    assert_eq!(puller.next_request().unwrap().frame_number(), 4);
    assert!(puller.next_request().is_none());
    assert!(puller.completed(true));
    assert!(!puller.is_finished());
    assert!(puller.completed(true));
    assert!(puller.is_finished());
    assert!(!puller.completed(true));
    assert_eq!(puller.exit_code(), EXIT_OK);
    assert_eq!(EXIT_OK, 0);
}

#[test]
fn a_failed_pull_ends_the_puller_with_a_failure() {
    let caps = Caps { frame_count: None, random_access: false };
    let mut puller = Puller::new(0, caps, 2);
    assert!(puller.next_request().is_some());
    assert!(puller.next_request().is_some());
    assert!(puller.completed(false));
    assert!(puller.next_request().is_none());
    assert!(!puller.is_finished());
    assert!(puller.completed(true));
    assert!(puller.is_finished());
    assert_eq!(puller.exit_code(), EXIT_FAILED);
    assert_ne!(EXIT_FAILED, 0);
}

#[test]
fn a_puller_without_window_asks_for_nothing() {
    let caps = Caps { frame_count: Some(1), random_access: true };
    let mut puller = Puller::new(0, caps, 0);
    assert!(puller.next_request().is_none());
    assert!(!puller.is_finished());
    let mut empty = Puller::new(0, Caps { frame_count: Some(0), random_access: true }, 4);
    assert!(empty.next_request().is_none());
    assert!(empty.is_finished());
}
