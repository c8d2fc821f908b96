use pixel_loop::{dispatch_host_event, HostAction, HostEvent};

#[test]
fn frame_available_runs_one_tick() {
    assert_eq!(dispatch_host_event(&HostEvent::FrameAvailable), HostAction::RunTick);
}

#[test]
fn window_close_requests_exit() {
    assert_eq!(dispatch_host_event(&HostEvent::WindowClosed), HostAction::Exit);
}

#[test]
fn other_events_are_left_to_the_application_handler() {
    assert_eq!(dispatch_host_event(&HostEvent::Other), HostAction::Ignore);
}
