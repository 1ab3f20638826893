use pixel_pipeline::worker::ControlMessage;
use pixel_pipeline::worker::PollOutcome;
use pixel_pipeline::worker::WorkerAction;
use pixel_pipeline::worker::WorkerState;
use pixel_pipeline::worker::palette;

fn fresh_worker() -> WorkerState {
    WorkerState::new(10, 10, 0, (255, 0, 0))
}

#[test]
fn new_worker_starts_active() {
    let w = fresh_worker();
    assert!(w.active);
    assert_eq!(w.cur_x, 10);
    assert_eq!(w.cur_y, 10);
    assert_eq!(w.channel, 0);
    assert_eq!(w.counter, 0);
}

#[test]
fn empty_poll_lets_active_worker_produce() {
    let mut w = fresh_worker();
    assert_eq!(w.step(PollOutcome::Empty), WorkerAction::Produce);
    assert!(w.active);
}

#[test]
fn empty_poll_lets_paused_worker_sleep() {
    let mut w = fresh_worker();
    w.step(PollOutcome::Message(ControlMessage::Pause));
    assert_eq!(w.step(PollOutcome::Empty), WorkerAction::Sleep);
}

#[test]
fn new_resolution_pauses_and_redirects() {
    let mut w = fresh_worker();
    let a = w.step(PollOutcome::Message(ControlMessage::NewResolution {
        width: 64,
        height: 48,
        channel: 7,
    }));
    assert_eq!(a, WorkerAction::KeepPolling);
    assert!(!w.active);
    assert_eq!(w.cur_x, 64);
    assert_eq!(w.cur_y, 48);
    assert_eq!(w.channel, 7);
}

#[test]
fn resume_reactivates_and_produces() {
    let mut w = fresh_worker();
    w.step(PollOutcome::Message(ControlMessage::Pause));
    let a = w.step(PollOutcome::Message(ControlMessage::Resume));
    assert_eq!(a, WorkerAction::Produce);
    assert!(w.active);
}

#[test]
fn shutdown_and_disconnect_terminate() {
    let mut w = fresh_worker();
    assert_eq!(
        w.step(PollOutcome::Message(ControlMessage::Shutdown)),
        WorkerAction::Terminate
    );
    let mut v = fresh_worker();
    assert_eq!(v.step(PollOutcome::Disconnected), WorkerAction::Terminate);
}

#[test]
fn synthesize_is_deterministic_and_in_bounds() {
    let mut w = fresh_worker();
    // counter becomes 1; val = 5 ^ 1 = 4
    let req = w.synthesize(5);
    assert_eq!(w.counter, 1);
    assert_eq!(req.x, 4);
    assert_eq!(req.y, 4);
    assert_eq!(req.color.r, 4); // 4 % 255
    assert_eq!(req.color.g, 0); // zero base channel stays zero
    assert_eq!(req.color.b, 0);
    assert_eq!(req.color.a, 128);
}

#[test]
fn synthesize_folds_coordinates_into_resolution() {
    let mut w = WorkerState::new(3, 7, 0, (0, 255, 0));
    // counter becomes 1; val = 100 ^ 1 = 101
    let req = w.synthesize(100);
    assert_eq!(req.x, (101 % 3) as u32);
    assert_eq!(req.y, (101 % 7) as u32);
    assert_eq!(req.color.g, (101 % 255) as u8);
    assert!(req.x < 3 && req.y < 7);
}

#[test]
fn produce_request_stays_in_bounds() {
    let mut w = WorkerState::new(5, 9, 0, (255, 255, 0));
    for _ in 0..100 {
        let req = w.produce_request().expect("active worker must produce");
        assert!(req.x < 5);
        assert!(req.y < 9);
    }
    assert_eq!(w.counter, 100);
}

#[test]
fn produce_request_declines_zero_area() {
    let mut w = WorkerState::new(0, 9, 0, (255, 255, 0));
    assert!(w.produce_request().is_none());
    let mut v = WorkerState::new(9, 0, 0, (255, 255, 0));
    assert!(v.produce_request().is_none());
}

#[test]
fn palette_cycles_over_seven_bases() {
    assert_eq!(palette(0), (255, 0, 0));
    assert_eq!(palette(1), (0, 255, 0));
    assert_eq!(palette(3), (0, 0, 255));
    assert_eq!(palette(6), (255, 255, 255));
    assert_eq!(palette(7), (255, 0, 0));
    assert_eq!(palette(13), (255, 255, 255));
}
