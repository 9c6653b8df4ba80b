//! The byte-shovel: one direction of a relayed pair.
//!
//! A shovel owns one copy obligation: read whatever bytes arrive on its
//! source connection and hand the very same bytes on to its destination,
//! until the source ends or fails.  Shovels come in mirrored pairs, one per
//! direction of a connection pair, and carry a policy:
//!
//! * **strict** (the control pair): end-of-stream ends the whole process
//!   with the success exit code, any I/O failure ends it with the failure
//!   code, and every successful read resets a dedicated idle watchdog,
//!   since the control protocol is expected to produce traffic at a bounded
//!   interval;
//! * **lenient** (media pairs): end-of-stream or failure shuts down both
//!   connections of the pair — which makes the mirrored shovel observe
//!   end-of-stream or an error promptly too — and ends only this pair.
//!
//! The runner that owns the sockets loops: it reads, turns the read into an
//! [`IoEvent`], applies [`Shovel::process`], and performs the returned
//! [`ShovelAction`].

use vstd::prelude::*;

verus! {

/// Failure-handling mode of one shovel.
#[derive(Clone, Copy, Debug, PartialEq, Eq, Structural)]
pub enum Policy {
    /// Control-pair mode: any end is fatal to the whole process.
    Strict,
    /// Media-pair mode: any end is local to the pair.
    Lenient,
}

/// What one read attempt on the source connection yielded.
#[derive(Debug, PartialEq, Eq)]
pub enum IoEvent {
    /// Some bytes arrived.
    Data(Vec<u8>),
    /// The source reached clean end-of-stream.
    Closed,
    /// Reading or writing failed with an I/O error.
    Failed,
}

/// What the shovel runner must do next.
#[derive(Debug, PartialEq, Eq)]
pub enum ShovelAction {
    /// Write exactly these bytes to the destination; if `reset_idle`, first
    /// reset the shovel's idle watchdog to [`Shovel::idle_ticks`].
    Forward { bytes: Vec<u8>, reset_idle: bool },
    /// Terminate the whole process: with the success exit code if `success`,
    /// with the failure code otherwise.
    ExitProcess { success: bool },
    /// Shut down both connections of this pair, in both directions, and end
    /// this shovel; the rest of the process is untouched.
    ShutdownPair,
}

/// The action a shovel with policy `p` takes when its stream ends:
/// `closed` tells a clean end-of-stream from an I/O failure.
pub open spec fn shovel_end_action(p: Policy, closed: bool) -> ShovelAction {
    if p is Strict {
        ShovelAction::ExitProcess { success: closed }
    } else {
        ShovelAction::ShutdownPair
    }
}

/// One direction of one connection pair.
pub struct Shovel {
    /// Failure-handling mode; fixed for the shovel's lifetime.
    pub policy: Policy,
    /// Countdown installed in the idle watchdog on every successful read
    /// (strict policy only).
    pub idle_ticks: i32,
    /// Whether the shovel has seen its stream end; no further events follow.
    pub finished: bool,
    /// Every byte forwarded so far, in order.
    pub carried: Ghost<Seq<u8>>,
}

impl Shovel {
    /// A fresh shovel that has forwarded nothing.
    pub fn new(policy: Policy, idle_ticks: i32) -> (s: Shovel)
        requires
            idle_ticks > 0,
        ensures
            s.policy == policy,
            s.idle_ticks == idle_ticks,
            !s.finished,
            s.carried@ == Seq::<u8>::empty(),
    {
        Shovel { policy, idle_ticks, finished: false, carried: Ghost(Seq::empty()) }
    }

    /// Decide what one read outcome demands.  Bytes that arrived are
    /// forwarded verbatim and appended to the transcript; end-of-stream and
    /// failure follow the policy: fatal to the process under strict, local
    /// to the pair under lenient.
    pub fn process(&mut self, event: IoEvent) -> (a: ShovelAction)
        requires
            !old(self).finished,
            event matches IoEvent::Data(c) ==> c@.len() > 0,
        ensures
            final(self).policy == old(self).policy,
            final(self).idle_ticks == old(self).idle_ticks,
            event matches IoEvent::Data(c) ==> {
                &&& a matches ShovelAction::Forward { bytes, reset_idle } && bytes@ == c@
                    && reset_idle == (old(self).policy is Strict)
                &&& final(self).carried@ == old(self).carried@ + c@
                &&& !final(self).finished
            },
            !(event matches IoEvent::Data(c)) ==> {
                &&& a == shovel_end_action(old(self).policy, event is Closed)
                &&& final(self).carried@ == old(self).carried@
                &&& final(self).finished
            },
    {
        match event {
            IoEvent::Data(c) => {
                let reset_idle = match self.policy {
                    Policy::Strict => true,
                    Policy::Lenient => false,
                };
                proof {
                    self.carried@ = self.carried@ + c@;
                }
                ShovelAction::Forward { bytes: c, reset_idle }
            },
            IoEvent::Closed => {
                self.finished = true;
                match self.policy {
                    Policy::Strict => ShovelAction::ExitProcess { success: true },
                    Policy::Lenient => ShovelAction::ShutdownPair,
                }
            },
            IoEvent::Failed => {
                self.finished = true;
                match self.policy {
                    Policy::Strict => ShovelAction::ExitProcess { success: false },
                    Policy::Lenient => ShovelAction::ShutdownPair,
                }
            },
        }
    }
}

/// The transcript after the chunks of `chunks` are forwarded in order,
/// starting from the transcript `carried`.
pub open spec fn shovel_run(carried: Seq<u8>, chunks: Seq<Seq<u8>>) -> Seq<u8>
    decreases chunks.len(),
{
    if chunks.len() == 0 {
        carried
    } else {
        shovel_run(carried + chunks[0], chunks.drop_first())
    }
}

/// Pure relay correctness: whatever chunks arrive on one side, the bytes
/// forwarded to the paired side are exactly their concatenation, in order —
/// nothing reordered, dropped, or invented.
pub proof fn lemma_relay_preserves_order(carried: Seq<u8>, chunks: Seq<Seq<u8>>)
    ensures
        shovel_run(carried, chunks) == carried + chunks.flatten(),
    decreases chunks.len(),
{
    if chunks.len() == 0 {
        assert(carried + chunks.flatten() =~= carried);
    } else {
        lemma_relay_preserves_order(carried + chunks[0], chunks.drop_first());
        assert(chunks.first() == chunks[0]);
        assert((carried + chunks[0]) + chunks.drop_first().flatten() =~= carried
            + chunks.flatten());
    }
}

/// A lenient shovel's end is local: end-of-stream or failure on a media
/// pair shuts down that pair's connections and never ends the process, so
/// no other pair is affected.
pub proof fn lemma_lenient_end_is_local(closed: bool)
    ensures
        shovel_end_action(Policy::Lenient, closed) == ShovelAction::ShutdownPair,
{
}

/// A strict shovel's end is fatal: clean end-of-stream on the control pair
/// ends the process with the success exit code, an I/O failure ends it with
/// the failure code.
pub proof fn lemma_strict_end_is_fatal()
    ensures
        shovel_end_action(Policy::Strict, true) == (ShovelAction::ExitProcess { success: true }),
        shovel_end_action(Policy::Strict, false) == (ShovelAction::ExitProcess { success: false }),
{
}

} // verus!
