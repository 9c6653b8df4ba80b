use rezprox::shovel::{IoEvent, Policy, Shovel, ShovelAction};

#[test]
fn forwards_bytes_verbatim_and_in_order() {
    let mut s = Shovel::new(Policy::Lenient, 1);
    // an empty read is end-of-stream, not data, so every chunk is nonempty
    let chunks: Vec<Vec<u8>> = vec![vec![1, 2, 3], vec![4], vec![5, 6, 7, 8, 9, 10]];
    let mut relayed: Vec<u8> = Vec::new();
    for c in &chunks {
        match s.process(IoEvent::Data(c.clone())) {
            ShovelAction::Forward { bytes, reset_idle } => {
                assert_eq!(&bytes, c);
                assert!(!reset_idle);
                relayed.extend_from_slice(&bytes);
            }
            other => panic!("expected Forward, got {:?}", other),
        }
    }
    assert_eq!(relayed, vec![1, 2, 3, 4, 5, 6, 7, 8, 9, 10]);
}

#[test]
fn strict_forward_resets_idle_watchdog() {
    let mut s = Shovel::new(Policy::Strict, 180);
    assert_eq!(s.idle_ticks, 180);
    match s.process(IoEvent::Data(vec![42])) {
        ShovelAction::Forward { bytes, reset_idle } => {
            assert_eq!(bytes, vec![42]);
            assert!(reset_idle);
        }
        other => panic!("expected Forward, got {:?}", other),
    }
}

#[test]
fn strict_close_exits_process_with_success() {
    let mut s = Shovel::new(Policy::Strict, 180);
    assert_eq!(s.process(IoEvent::Closed), ShovelAction::ExitProcess { success: true });
}

#[test]
fn strict_failure_exits_process_with_failure() {
    let mut s = Shovel::new(Policy::Strict, 180);
    assert_eq!(s.process(IoEvent::Failed), ShovelAction::ExitProcess { success: false });
}

#[test]
fn lenient_close_shuts_down_only_the_pair() {
    let mut s = Shovel::new(Policy::Lenient, 1);
    assert_eq!(s.process(IoEvent::Closed), ShovelAction::ShutdownPair);
}

#[test]
fn lenient_failure_shuts_down_only_the_pair() {
    let mut s = Shovel::new(Policy::Lenient, 1);
    assert_eq!(s.process(IoEvent::Failed), ShovelAction::ShutdownPair);
}

#[test]
fn independent_shovels_do_not_share_state() {
    let mut a = Shovel::new(Policy::Lenient, 1);
    let mut b = Shovel::new(Policy::Lenient, 1);
    let mut c = Shovel::new(Policy::Lenient, 1);
    assert_eq!(b.process(IoEvent::Failed), ShovelAction::ShutdownPair);
    match a.process(IoEvent::Data(vec![1])) {
        ShovelAction::Forward { bytes, .. } => assert_eq!(bytes, vec![1]),
        other => panic!("expected Forward, got {:?}", other),
    }
    match c.process(IoEvent::Data(vec![2])) {
        ShovelAction::Forward { bytes, .. } => assert_eq!(bytes, vec![2]),
        other => panic!("expected Forward, got {:?}", other),
    }
    assert!(!a.finished);
    assert!(b.finished);
    assert!(!c.finished);
}
