use recorder::pipeline_processing::processing_context::Priority;

#[test]
fn new_packs_output_above_frame() {
    let p = Priority::new(3, 100);
    assert_eq!(p.get_frame(), 100);
    assert_eq!(p.to_string(), "Priority(output = 3, frame = 100)");
}

#[test]
fn for_frame_then_get_frame_returns_the_frame() {
    let p = Priority::new(7, 1);
    for n in [0u64, 1, 5, 4096, (1u64 << 56) - 1] {
        let q = p.for_frame(n);
        assert_eq!(q.get_frame(), n);
        assert_eq!(q.to_string(), format!("Priority(output = 7, frame = {})", n));
    }
}

#[test]
fn frame_number_wraps_inside_its_field() {
    let p = Priority::new(0xab, 0);
    let q = p.for_frame((1u64 << 56) + 5);
    assert_eq!(q.get_frame(), 5);
    assert_eq!(q.to_string(), "Priority(output = 171, frame = 5)");
    assert_eq!(q, Priority::new(0xab, 5));
    let widest = Priority::new(0xff, u64::MAX);
    assert_eq!(widest.get_frame(), (1u64 << 56) - 1);
    assert_eq!(widest.to_string(), "Priority(output = 255, frame = 72057594037927935)");
}

#[test]
fn bits_above_the_frame_field_do_not_reach_the_output_byte() {
    let p = Priority::new(0, 0x0f00_0000_0000_0000);
    assert_eq!(p.get_frame(), 0);
    assert_eq!(p, Priority::new(0, 0));
}

#[test]
fn keys_order_by_output_then_frame() {
    assert!(Priority::new(0, 5) < Priority::new(0, 100));
    assert!(Priority::new(0, 100) < Priority::new(1, 0));
    assert!(Priority::new(2, 7) == Priority::new(2, 7));
    assert!(Priority::new(2, 7) > Priority::new(1, u64::MAX));
    assert!(Priority::new(0, 5).max(Priority::new(0, 6)) == Priority::new(0, 6));
}
