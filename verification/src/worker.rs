//! The audio worker's per-tick decision.
//!
//! The stream worker owns the decoded source and the sink.  Once the source
//! is appended it loops on a fixed short interval; all it decides each tick
//! is computed here, from plain values the host reads: which command to apply
//! to the sink so that it matches the shared pause intent, which progress
//! snapshot to publish for the UI to render, and whether the stream is done.
//! The sleeping, the sink calls and the end-of-stream probe stay with the
//! host.

use crate::progress::ProgressSnapshot;
use crate::state::PlaybackState;
use vstd::prelude::*;

verus! {

/// What the worker applies to the sink on a tick.
#[derive(Clone, Copy, PartialEq, Eq, Structural, Debug)]
pub enum SinkCommand {
    PauseSink,
    ResumeSink,
}

/// The outcome of one worker tick.
pub struct WorkerTick {
    /// Reconciles the sink with the shared pause intent.
    pub command: SinkCommand,
    /// The authoritative progress snapshot for this tick; the UI renders
    /// this rather than deriving its own.
    pub snapshot: ProgressSnapshot,
    /// Whether the worker's loop should end after this tick.
    pub finished: bool,
}

/// One tick of the audio worker.  The sink is paused exactly when the shared
/// intent says so; the published snapshot carries this tick's elapsed and
/// total seconds unchanged; and the stream is finished exactly when the wall
/// clock has reached a known (non-zero) total duration or the decoded source
/// is exhausted.  Exhaustion is the only thing that ends a track whose
/// duration is unknown (zero), since elapsed-versus-total cannot be compared
/// meaningfully there, and it ends a known-length track early when decoding
/// runs ahead of the wall clock.
pub fn worker_tick(state: &PlaybackState, elapsed: u64, total: u64, source_exhausted: bool) -> (t:
    WorkerTick)
    ensures
        t.command is PauseSink <==> state.spec_paused(),
        t.snapshot == (ProgressSnapshot { elapsed, total }),
        t.finished <==> ((total > 0 && elapsed >= total) || source_exhausted),
{
    let command = if state.is_paused() {
        SinkCommand::PauseSink
    } else {
        SinkCommand::ResumeSink
    };
    WorkerTick {
        command,
        snapshot: ProgressSnapshot { elapsed, total },
        finished: (total > 0 && elapsed >= total) || source_exhausted,
    }
}

} // verus!
