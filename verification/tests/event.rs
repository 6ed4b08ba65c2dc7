use chimper::event::EventLoop;

#[test]
fn fresh_loop_owes_no_update() {
    let ev = EventLoop::new();
    assert!(!ev.ui_needs_update);
    assert_eq!(ev.last_update_ms, 0);
}

#[test]
fn throttle_fills_the_frame_interval() {
    let mut ev = EventLoop::new();
    ev.mark_tick(100);
    assert_eq!(ev.throttle(100), 16);
    assert_eq!(ev.throttle(110), 6);
    assert_eq!(ev.throttle(116), 0);
    assert_eq!(ev.throttle(500), 0);
}

#[test]
fn waits_only_when_idle() {
    let ev = EventLoop::new();
    assert!(ev.should_wait(0));
    assert!(!ev.should_wait(1));
    assert!(!ev.should_wait(12));
}

#[test]
fn tick_records_the_time() {
    let mut ev = EventLoop::new();
    ev.mark_tick(250);
    assert_eq!(ev.last_update_ms, 250);
    assert!(!ev.ui_needs_update);
}
