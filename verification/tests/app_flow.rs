use snapvault::app::{AppFlow, AppState, CapturePoll, FrameStep};
use snapvault::hotkeys::HotkeyEvent;
use snapvault::tray::TrayEvent;

#[test]
fn hotkey_capture_round_trip() {
    let mut f = AppFlow::new();
    assert_eq!(f.state(), AppState::Main);
    assert_eq!(f.next_step(), FrameStep::ShowMain);
    f.on_hotkey_event(HotkeyEvent::Capture);
    assert!(f.capture_requested());
    assert_eq!(f.next_step(), FrameStep::StartCapture);
    assert!(!f.capture_requested());
    f.on_capture_started(false);
    assert_eq!(f.state(), AppState::WaitingHide);
    assert_eq!(f.next_step(), FrameStep::SpawnCapture);
    f.on_capture_spawned();
    assert_eq!(f.next_step(), FrameStep::PollCapture);
    f.on_hotkey_event(HotkeyEvent::Capture);
    assert!(!f.capture_requested());
    assert!(!f.on_capture_polled(CapturePoll::Pending));
    assert_eq!(f.state(), AppState::Capturing);
    assert!(f.on_capture_polled(CapturePoll::Ready));
    assert_eq!(f.state(), AppState::Main);
}

#[test]
fn fast_path_returns_to_main() {
    let mut f = AppFlow::new();
    f.on_capture_button();
    assert_eq!(f.next_step(), FrameStep::StartCapture);
    f.on_capture_started(true);
    assert_eq!(f.state(), AppState::Main);
}

#[test]
fn failed_capture_returns_to_main() {
    let mut f = AppFlow::new();
    f.on_capture_started(false);
    f.on_capture_spawned();
    assert!(f.on_capture_polled(CapturePoll::Failed));
    assert_eq!(f.state(), AppState::Main);
    f.on_capture_spawned();
    assert!(f.on_capture_polled(CapturePoll::Lost));
    assert_eq!(f.state(), AppState::Main);
}

#[test]
fn tray_events() {
    let mut f = AppFlow::new();
    assert!(!f.on_tray_event(TrayEvent::Settings));
    assert!(!f.capture_requested());
    assert!(!f.on_tray_event(TrayEvent::NoEvent));
    assert!(f.on_tray_event(TrayEvent::Quit));
    assert!(!f.on_tray_event(TrayEvent::Capture));
    assert!(f.capture_requested());
    f.on_hotkey_event(HotkeyEvent::NoEvent);
    assert!(f.capture_requested());
}

#[test]
fn tray_capture_works_during_capture() {
    let mut f = AppFlow::new();
    f.on_capture_started(false);
    f.on_tray_event(TrayEvent::Capture);
    assert!(f.capture_requested());
    assert_eq!(f.next_step(), FrameStep::StartCapture);
}
