use snapvault::win_utils::{hide_for_capture, reveal_main, CloakRequest};

#[test]
fn cloak_requests() {
    assert_eq!(hide_for_capture(0), None);
    assert_eq!(reveal_main(0), None);
    assert_eq!(hide_for_capture(1234), Some(CloakRequest { hwnd: 1234, cloak: 1 }));
    assert_eq!(reveal_main(1234), Some(CloakRequest { hwnd: 1234, cloak: 0 }));
}
