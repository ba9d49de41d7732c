use snapvault::bench::{parse_auto_target, BenchFlow, Phase, TestTarget};

fn args(list: &[&str]) -> Vec<String> {
    list.iter().map(|s| s.to_string()).collect()
}

#[test]
fn auto_target_parsing() {
    assert_eq!(parse_auto_target(&args(&["bench", "--auto", "wss"])), Some(TestTarget::WinShiftS));
    assert_eq!(
        parse_auto_target(&args(&["bench", "--auto", "snapvault"])),
        Some(TestTarget::SnapVault)
    );
    assert_eq!(parse_auto_target(&args(&["--auto", "other", "--auto", "wss"])), None);
    assert_eq!(parse_auto_target(&args(&["x", "--auto"])), None);
    assert_eq!(parse_auto_target(&args(&[])), None);
    assert_eq!(parse_auto_target(&args(&["wss", "--auto", "snapvault", "--auto", "wss"])), Some(TestTarget::SnapVault));
}

#[test]
fn automatic_run() {
    let mut b = BenchFlow::new(Some(TestTarget::WinShiftS));
    assert_eq!(b.phase(), Phase::Warmup);
    assert!(!b.fire());
    assert_eq!(b.phase(), Phase::Warmup);
    assert_eq!(b.fire_auto(false), None);
    assert_eq!(b.phase(), Phase::Warmup);
    assert_eq!(b.fire_auto(true), Some(TestTarget::WinShiftS));
    assert_eq!(b.phase(), Phase::Running);
    assert_eq!(b.fire_auto(true), None);
    assert!(b.awaits_result());
    assert!(!b.should_close());
    b.on_result();
    assert_eq!(b.phase(), Phase::Done);
    assert!(b.should_close());
}

#[test]
fn manual_run() {
    let mut b = BenchFlow::new(None);
    assert_eq!(b.phase(), Phase::Ready);
    assert_eq!(b.fire_auto(true), None);
    assert_eq!(b.phase(), Phase::Ready);
    assert!(!b.awaits_result());
    b.fire();
    b.on_result();
    assert!(!b.should_close());
    b.back_to_ready();
    assert_eq!(b.phase(), Phase::Ready);
}

#[test]
fn transitions_outside_their_phase_change_nothing() {
    let mut b = BenchFlow::new(None);
    b.on_result();
    assert_eq!(b.phase(), Phase::Ready);
    b.back_to_ready();
    assert_eq!(b.phase(), Phase::Ready);
    assert!(b.fire());
    assert_eq!(b.phase(), Phase::Running);
    assert!(!b.fire());
    assert_eq!(b.phase(), Phase::Running);
    b.on_result();
    assert_eq!(b.phase(), Phase::Done);
    assert!(!b.fire());
    b.on_result();
    assert_eq!(b.phase(), Phase::Done);
    b.back_to_ready();
    assert_eq!(b.phase(), Phase::Ready);
}
