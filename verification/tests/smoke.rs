use mallctl::Ctl;

#[test]
fn smoke_smoke() {
    let mut a = Vec::new();
    a.push(3);
}

#[test]
fn smoke_ctl_state() {
    let ctl = Ctl::new();
    assert_eq!(ctl.epoch, 1);
    assert!(!ctl.background_thread);
    assert_eq!(ctl.max_background_threads, 4);
}
