//! The rendezvous: pairing connections from the two listeners.
//!
//! One listener belongs to the caller side, one to the callee side.  A pair
//! is made by accepting exactly one new connection from each, in a fixed
//! order — caller first, then callee — so that the i-th caller connection is
//! always paired with the i-th callee connection, with no buffering and no
//! matching state.
//!
//! While pairing media connections, a stall watchdog guards each accept: a
//! generous wait for the first leg (an idle gap between client
//! communications is legitimate) and a short wait for the second (once one
//! side has shown up its partner is expected imminently).
//!
//! Connections are named here by tokens the runner assigns; the runner keeps
//! the live sockets beside them.

use vstd::prelude::*;

verus! {

/// Which listener to accept from next.
#[derive(Clone, Copy, Debug, PartialEq, Eq, Structural)]
pub enum PairSide {
    /// The caller-side listener.
    Caller,
    /// The callee-side listener.
    Callee,
}

/// Two connected endpoints bridged into one tunnel, named by the runner's
/// tokens.
#[derive(Clone, Copy, Debug, PartialEq, Eq, Structural)]
pub struct ConnectionPair {
    /// The connection accepted on the caller-side listener.
    pub caller: u64,
    /// The connection accepted on the callee-side listener.
    pub callee: u64,
}

/// The pairing state across the lifetime of the two listeners.
pub struct Rendezvous {
    /// Stall-watchdog countdown before accepting a first leg.
    pub first_leg_ticks: i32,
    /// Stall-watchdog countdown before accepting a second leg.
    pub second_leg_ticks: i32,
    /// A caller connection waiting for its callee, if one leg is in.
    pub pending: Option<u64>,
    /// Every caller connection accepted so far, in order.
    pub caller_seen: Ghost<Seq<u64>>,
    /// Every callee connection accepted so far, in order.
    pub callee_seen: Ghost<Seq<u64>>,
    /// Every pair made so far, in order.
    pub paired: Ghost<Seq<ConnectionPair>>,
}

impl Rendezvous {
    /// Pairing discipline: every callee connection completed a pair, the
    /// i-th pair joins the i-th arrival on each side, and a pending caller
    /// is the latest caller arrival.
    pub open spec fn wf(self) -> bool {
        &&& self.first_leg_ticks > 0
        &&& self.second_leg_ticks > 0
        &&& self.callee_seen@.len() == self.paired@.len()
        &&& self.caller_seen@.len() == self.paired@.len() + (if self.pending is Some {
            1int
        } else {
            0int
        })
        &&& forall|i: int|
            0 <= i < self.paired@.len() ==> self.paired@[i].caller == self.caller_seen@[i]
                && self.paired@[i].callee == self.callee_seen@[i]
        &&& self.pending matches Some(c) ==> self.caller_seen@.last() == c
    }

    /// A fresh rendezvous with nothing accepted yet.
    pub fn new(first_leg_ticks: i32, second_leg_ticks: i32) -> (r: Rendezvous)
        requires
            first_leg_ticks > 0,
            second_leg_ticks > 0,
        ensures
            r.wf(),
            r.first_leg_ticks == first_leg_ticks,
            r.second_leg_ticks == second_leg_ticks,
            r.pending is None,
            r.caller_seen@ == Seq::<u64>::empty(),
            r.callee_seen@ == Seq::<u64>::empty(),
            r.paired@ == Seq::<ConnectionPair>::empty(),
    {
        Rendezvous {
            first_leg_ticks,
            second_leg_ticks,
            pending: None,
            caller_seen: Ghost(Seq::empty()),
            callee_seen: Ghost(Seq::empty()),
            paired: Ghost(Seq::empty()),
        }
    }

    /// The listener the next accept must use: caller first, then callee.
    pub fn next_side(&self) -> (s: PairSide)
        ensures
            s == (if self.pending is None {
                PairSide::Caller
            } else {
                PairSide::Callee
            }),
    {
        match self.pending {
            None => PairSide::Caller,
            Some(_) => PairSide::Callee,
        }
    }

    /// The stall-watchdog countdown to install before the next accept:
    /// generous before a first leg, short before a second.
    pub fn next_wait_ticks(&self) -> (t: i32)
        ensures
            t == (if self.pending is None {
                self.first_leg_ticks
            } else {
                self.second_leg_ticks
            }),
    {
        match self.pending {
            None => self.first_leg_ticks,
            Some(_) => self.second_leg_ticks,
        }
    }

    /// Record one accepted connection, from the side [`Self::next_side`]
    /// named.  A first leg is held pending and yields no pair; a second leg
    /// completes the pair with the pending caller, in arrival order.
    pub fn accepted(&mut self, conn: u64) -> (r: Option<ConnectionPair>)
        requires
            old(self).wf(),
        ensures
            final(self).wf(),
            final(self).first_leg_ticks == old(self).first_leg_ticks,
            final(self).second_leg_ticks == old(self).second_leg_ticks,
            old(self).pending is None ==> {
                &&& r is None
                &&& final(self).pending == Some(conn)
                &&& final(self).caller_seen@ == old(self).caller_seen@ + seq![conn]
                &&& final(self).callee_seen@ == old(self).callee_seen@
                &&& final(self).paired@ == old(self).paired@
            },
            old(self).pending matches Some(c) ==> {
                &&& r == Some(ConnectionPair { caller: c, callee: conn })
                &&& final(self).pending is None
                &&& final(self).caller_seen@ == old(self).caller_seen@
                &&& final(self).callee_seen@ == old(self).callee_seen@ + seq![conn]
                &&& final(self).paired@ == old(self).paired@ + seq![
                    (ConnectionPair { caller: c, callee: conn }),
                ]
            },
    {
        match self.pending {
            None => {
                self.pending = Some(conn);
                proof {
                    self.caller_seen@ = self.caller_seen@ + seq![conn];
                }
                None
            },
            Some(c) => {
                self.pending = None;
                proof {
                    self.callee_seen@ = self.callee_seen@ + seq![conn];
                    self.paired@ = self.paired@ + seq![(ConnectionPair { caller: c, callee: conn })];
                }
                Some(ConnectionPair { caller: c, callee: conn })
            },
        }
    }
}

/// Ordered pairing: in every well-formed rendezvous state, the i-th pair
/// made joins the i-th connection accepted on the caller side with the i-th
/// connection accepted on the callee side.
pub proof fn lemma_paired_in_arrival_order(r: Rendezvous)
    requires
        r.wf(),
    ensures
        forall|i: int|
            0 <= i < r.paired@.len() ==> r.paired@[i].caller == r.caller_seen@[i]
                && r.paired@[i].callee == r.callee_seen@[i],
{
}

} // verus!
