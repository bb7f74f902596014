//! The shared pause intent.
//!
//! `PlaybackState` is the single piece of state that the foreground control
//! loop, the interrupt handler and the audio worker all act on.  Its value is
//! always one of exactly two intents, "playing" or "paused"; `toggle` flips
//! between them.  The host binary wraps a value of this protocol in an atomic
//! cell so that the flip is indivisible across threads; the laws below show
//! that the protocol itself is insensitive to how toggles from different
//! contexts interleave: only their number matters, and the last toggle to run
//! determines the final intent.

use vstd::prelude::*;

verus! {

/// The pause intent: `paused == false` means audio should play.
pub struct PlaybackState {
    paused: bool,
}

impl PlaybackState {
    /// Whether the current intent is "paused".
    pub closed spec fn spec_paused(&self) -> bool {
        self.paused
    }

    /// A fresh state: playback starts unpaused.
    pub fn new() -> (s: Self)
        ensures
            !s.spec_paused(),
    {
        PlaybackState { paused: false }
    }

    /// Flips paused <-> playing.
    pub fn toggle(&mut self)
        ensures
            final(self).spec_paused() == !old(self).spec_paused(),
    {
        self.paused = !self.paused;
    }

    /// Reads the current intent.
    pub fn is_paused(&self) -> (r: bool)
        ensures
            r == self.spec_paused(),
    {
        self.paused
    }
}

/// The pause intent after `n` toggles starting from `start`.
pub open spec fn toggled(start: bool, n: nat) -> bool
    decreases n,
{
    if n == 0 {
        start
    } else {
        !toggled(start, (n - 1) as nat)
    }
}

/// An even number of toggles returns the intent to its original value;
/// an odd number flips it.
pub proof fn lemma_toggle_parity(start: bool, n: nat)
    ensures
        toggled(start, n) == (if n % 2 == 0 {
            start
        } else {
            !start
        }),
    decreases n,
{
    if n > 0 {
        lemma_toggle_parity(start, (n - 1) as nat);
    }
}

/// The pause intent after the toggles in `schedule` run in order.  Each entry
/// records which of two contexts issued that toggle; the entry's value cannot
/// influence the result, since every toggle performs the same flip.
pub open spec fn after_schedule(start: bool, schedule: Seq<bool>) -> bool
    decreases schedule.len(),
{
    if schedule.len() == 0 {
        start
    } else {
        after_schedule(!start, schedule.drop_first())
    }
}

/// However toggles from two contexts interleave, the resulting intent is a
/// well-defined one of the two values and depends only on how many toggles
/// ran; and once at least one toggle ran, the final intent is exactly the
/// flip applied by the last toggle of the schedule.
pub proof fn lemma_schedule_count_determines(start: bool, schedule: Seq<bool>)
    ensures
        after_schedule(start, schedule) == toggled(start, schedule.len()),
        schedule.len() > 0 ==> after_schedule(start, schedule) == !after_schedule(
            start,
            schedule.drop_last(),
        ),
    decreases schedule.len(),
{
    if schedule.len() > 0 {
        lemma_schedule_count_determines(!start, schedule.drop_first());
        lemma_toggle_parity(!start, (schedule.len() - 1) as nat);
        lemma_toggle_parity(start, schedule.len());
        lemma_schedule_count_determines(start, schedule.drop_last());
        lemma_toggle_parity(start, (schedule.len() - 1) as nat);
    }
}

} // verus!
