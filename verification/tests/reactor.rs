use recorder::pipeline_processing::error::Error;
use recorder::pipeline_processing::node::{Caps, Request};
use recorder::pipeline_processing::prioritized_executor::{PrioritizedReactor, TaskState};
use recorder::pipeline_processing::processing_context::Priority;

#[test]
fn the_more_urgent_task_runs_first() {
    let mut reactor = PrioritizedReactor::start(1);
    let a = reactor.spawn_with_priority(Priority::new(0, 100)).unwrap();
    let b = reactor.spawn_with_priority(Priority::new(0, 5)).unwrap();
    let first = reactor.next_task().unwrap();
    assert_eq!(first.id, b);
    assert_eq!(first.state, TaskState::Running);
    assert_eq!(first.priority, Priority::new(0, 5));
    assert!(reactor.remove(b).is_some());
    let second = reactor.next_task().unwrap();
    assert_eq!(second.id, a);
    assert!(reactor.remove(a).is_some());
    assert!(reactor.next_task().is_none());
    assert_eq!(reactor.len(), 0);
}

#[test]
fn the_lower_key_runs_first_in_every_order_of_spawning() {
    let keys = [
        Priority::new(1, 3),
        Priority::new(0, 900),
        Priority::new(0, 2),
        Priority::new(2, 0),
        Priority::new(0, 2),
        Priority::new(1, 0),
    ];
    let mut reactor = PrioritizedReactor::start(4);
    assert_eq!(reactor.num_threads(), 4);
    let ids: Vec<u64> = keys.iter().map(|k| reactor.spawn_with_priority(*k).unwrap()).collect();
    assert_eq!(ids, vec![0, 1, 2, 3, 4, 5]);
    let mut order = Vec::new();
    while let Some(task) = reactor.next_task() {
        order.push(task.id);
    }
    assert_eq!(order, vec![2, 4, 1, 5, 0, 3]);
    assert_eq!(reactor.len(), 6);
}

#[test]
fn equal_keys_run_in_the_order_of_spawning() {
    let mut reactor = PrioritizedReactor::start(2);
    let ids: Vec<u64> =
        (0..5).map(|_| reactor.spawn_with_priority(Priority::new(3, 3)).unwrap()).collect();
    for id in ids {
        assert_eq!(reactor.next_task().unwrap().id, id);
    }
}

#[test]
fn a_woken_task_comes_back_with_its_priority() {
    let mut reactor = PrioritizedReactor::start(1);
    let urgent = reactor.spawn_with_priority(Priority::new(0, 1)).unwrap();
    let patient = reactor.spawn_with_priority(Priority::new(0, 9)).unwrap();
    assert_eq!(reactor.next_task().unwrap().id, urgent);
    assert!(!reactor.wake(urgent));
    assert!(reactor.suspend(urgent));
    assert!(!reactor.suspend(urgent));
    assert!(!reactor.suspend(patient));
    assert!(reactor.wake(urgent));
    let next = reactor.next_task().unwrap();
    assert_eq!((next.id, next.priority), (urgent, Priority::new(0, 1)));
    assert_eq!(reactor.next_task().unwrap().id, patient);
    assert!(reactor.next_task().is_none());
}

#[test]
fn a_suspended_task_is_not_handed_out() {
    let mut reactor = PrioritizedReactor::start(1);
    let id = reactor.spawn_with_priority(Priority::new(0, 1)).unwrap();
    assert_eq!(reactor.next_task().unwrap().id, id);
    assert!(reactor.suspend(id));
    assert!(reactor.next_task().is_none());
}

#[test]
fn a_cancelled_task_never_runs() {
    let mut reactor = PrioritizedReactor::start(1);
    let a = reactor.spawn_with_priority(Priority::new(0, 1)).unwrap();
    let b = reactor.spawn_with_priority(Priority::new(0, 2)).unwrap();
    let removed = reactor.remove(a).unwrap();
    assert_eq!((removed.id, removed.state), (a, TaskState::Ready));
    assert!(reactor.remove(a).is_none());
    assert!(reactor.remove(77).is_none());
    assert_eq!(reactor.next_task().unwrap().id, b);
    assert_eq!(reactor.len(), 1);
}

#[test]
fn requests_follow_their_frame() {
    let request = Request::new(Priority::new(4, 10), 10);
    assert_eq!(request.frame_number(), 10);
    assert_eq!(request.priority(), Priority::new(4, 10));
    let next = request.with_frame_number(11);
    assert_eq!(next.frame_number(), 11);
    assert_eq!(next.priority(), Priority::new(4, 11));
}

#[test]
fn random_access_serves_every_frame_it_holds_in_any_order() {
    let caps = Caps { frame_count: Some(10), random_access: true };
    for (previous, frame) in [(None, 9u64), (Some(9), 0), (Some(3), 3), (Some(5), 2)] {
        assert_eq!(caps.check_request(previous, frame), Ok(()));
        assert!(caps.holds(frame));
    }
    assert_eq!(
        caps.check_request(None, 10),
        Err(Error::FrameOutOfRange { requested: 10, available: 10 })
    );
    assert!(!caps.holds(10));
    let endless = Caps { frame_count: None, random_access: true };
    assert_eq!(endless.check_request(Some(5), u64::MAX), Ok(()));
    assert!(endless.holds(u64::MAX));
}

#[test]
fn a_stream_serves_frames_in_rising_order() {
    let caps = Caps { frame_count: None, random_access: false };
    assert_eq!(caps.check_request(None, 0), Ok(()));
    assert_eq!(caps.check_request(Some(0), 1), Ok(()));
    assert_eq!(caps.check_request(Some(1), 100), Ok(()));
    for (previous, frame) in [(4u64, 4u64), (4, 3), (u64::MAX, 0)] {
        assert_eq!(
            caps.check_request(Some(previous), frame),
            Err(Error::Internal {
                message: String::from(
                    "frames of a stream without random access were asked for out of order"
                )
            })
        );
    }
    let short = Caps { frame_count: Some(2), random_access: false };
    assert_eq!(
        short.check_request(Some(1), 2),
        Err(Error::FrameOutOfRange { requested: 2, available: 2 })
    );
}
