use rezprox::rendezvous::{ConnectionPair, PairSide, Rendezvous};

#[test]
fn pairs_in_arrival_order() {
    let mut r = Rendezvous::new(3600, 10);
    assert_eq!(r.accepted(11), None);
    assert_eq!(r.accepted(22), Some(ConnectionPair { caller: 11, callee: 22 }));
    assert_eq!(r.accepted(33), None);
    assert_eq!(r.accepted(44), Some(ConnectionPair { caller: 33, callee: 44 }));
}

#[test]
fn accepts_caller_side_first() {
    let mut r = Rendezvous::new(3600, 10);
    assert_eq!(r.next_side(), PairSide::Caller);
    r.accepted(1);
    assert_eq!(r.next_side(), PairSide::Callee);
    r.accepted(2);
    assert_eq!(r.next_side(), PairSide::Caller);
}

#[test]
fn first_leg_waits_generously_second_leg_briefly() {
    let mut r = Rendezvous::new(3600, 10);
    assert_eq!(r.next_wait_ticks(), 3600);
    r.accepted(1);
    assert_eq!(r.next_wait_ticks(), 10);
    r.accepted(2);
    assert_eq!(r.next_wait_ticks(), 3600);
}

#[test]
fn same_token_may_appear_on_both_sides() {
    let mut r = Rendezvous::new(1, 1);
    assert_eq!(r.accepted(7), None);
    assert_eq!(r.accepted(7), Some(ConnectionPair { caller: 7, callee: 7 }));
}
