//! The terminal session lifecycle.
//!
//! Interactive control needs the terminal in raw mode, on an alternate
//! screen, with the cursor hidden — and the user's shell is corrupted unless
//! every one of those changes is undone on every exit path.  `TerminalSession`
//! is the bookkeeping for that obligation: `begin` hands the host the exact
//! setup sequence to run, `close` hands it the exact teardown sequence, and
//! the contracts force teardown to be emitted exactly once per session,
//! whether the loop ended on the quit key or on an error.

use vstd::prelude::*;

verus! {

/// One primitive terminal operation the host performs on behalf of the
/// session.
#[derive(Clone, Copy, PartialEq, Eq, Structural, Debug)]
pub enum TermCommand {
    EnterAlternateScreen,
    EnableRawMode,
    HideCursor,
    DisableRawMode,
    LeaveAlternateScreen,
    ShowCursor,
}

/// How the control loop ended.  Both paths tear the session down the same
/// way.
#[derive(Clone, Copy, PartialEq, Eq, Structural, Debug)]
pub enum ExitPath {
    QuitKey,
    Failure,
}

/// The two phases of a session.
#[derive(Clone, Copy, PartialEq, Eq, Structural, Debug)]
pub enum SessionPhase {
    Active,
    Closed,
}

/// A terminal session: active between `begin` and `close`.
pub struct TerminalSession {
    phase: SessionPhase,
    teardowns: u64,
}

/// The operations that enter the session, in the order the host must run
/// them: alternate screen, raw mode, hidden cursor.
pub open spec fn setup_sequence() -> Seq<TermCommand> {
    seq![TermCommand::EnterAlternateScreen, TermCommand::EnableRawMode, TermCommand::HideCursor]
}

/// The operations that restore the terminal, in the order the host must run
/// them: leave raw mode, leave the alternate screen, show the cursor again.
pub open spec fn teardown_sequence() -> Seq<TermCommand> {
    seq![TermCommand::DisableRawMode, TermCommand::LeaveAlternateScreen, TermCommand::ShowCursor]
}

impl TerminalSession {
    /// Whether the session is still active (not yet torn down).
    pub closed spec fn is_active(&self) -> bool {
        self.phase is Active
    }

    /// How many times this session has emitted its teardown sequence.
    pub closed spec fn teardown_count(&self) -> int {
        self.teardowns as int
    }

    /// A session is well formed when it has emitted teardown exactly once if
    /// and only if it is closed.
    pub open spec fn wf(&self) -> bool {
        self.teardown_count() == if self.is_active() {
            0int
        } else {
            1int
        }
    }

    /// Opens a session.  The host must run the returned commands in order
    /// before polling for input.
    pub fn begin() -> (r: (TerminalSession, Vec<TermCommand>))
        ensures
            r.0.wf(),
            r.0.is_active(),
            r.0.teardown_count() == 0,
            r.1@ == setup_sequence(),
    {
        let mut cmds: Vec<TermCommand> = Vec::new();
        cmds.push(TermCommand::EnterAlternateScreen);
        cmds.push(TermCommand::EnableRawMode);
        cmds.push(TermCommand::HideCursor);
        proof {
            assert(cmds@ =~= setup_sequence());
        }
        (TerminalSession { phase: SessionPhase::Active, teardowns: 0 }, cmds)
    }

    /// Closes the session and returns the teardown sequence the host must
    /// run.  Only an active session can be closed, so teardown cannot run
    /// twice; and both exit paths — quit key or failure — perform the same
    /// restoration.
    pub fn close(&mut self, path: ExitPath) -> (cmds: Vec<TermCommand>)
        requires
            old(self).wf(),
            old(self).is_active(),
        ensures
            final (self).wf(),
            !final (self).is_active(),
            final (self).teardown_count() == 1,
            cmds@ == teardown_sequence(),
    {
        self.phase = SessionPhase::Closed;
        self.teardowns = 1;
        let mut cmds: Vec<TermCommand> = Vec::new();
        cmds.push(TermCommand::DisableRawMode);
        cmds.push(TermCommand::LeaveAlternateScreen);
        cmds.push(TermCommand::ShowCursor);
        proof {
            assert(cmds@ =~= teardown_sequence());
        }
        cmds
    }

    /// Whether the session is still active, as an executable test.
    pub fn active(&self) -> (r: bool)
        ensures
            r == self.is_active(),
    {
        match self.phase {
            SessionPhase::Active => true,
            SessionPhase::Closed => false,
        }
    }
}

/// Teardown runs exactly once per session: while the session is active no
/// teardown has been emitted, and once it is closed — by whichever exit path
/// — exactly one has.  A closed session admits no further `close`, since
/// `close` requires an active session.
pub proof fn lemma_teardown_exactly_once(s: TerminalSession)
    requires
        s.wf(),
    ensures
        s.is_active() ==> s.teardown_count() == 0,
        !s.is_active() ==> s.teardown_count() == 1,
{
}

} // verus!
