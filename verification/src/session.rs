//! The life of a terminal session as a state machine: which step follows
//! which, given whether the last one succeeded. Whatever fails, the terminal
//! is restored in full before the session finishes.

use vstd::prelude::*;

verus! {

/// The exit code of the process, with or without a failure.
pub const EXIT_CODE: i32 = 0;

/// One step of a session. Each but `Finish` is work for the caller, which
/// reports whether it succeeded.
#[derive(Clone, Copy, Debug, PartialEq, Eq)]
pub enum Step {
    /// Switch to the alternate screen.
    EnterAlternateScreen,
    /// Put the terminal's input into raw mode.
    EnableRawMode,
    /// Start capturing mouse events.
    EnableMouseCapture,
    /// Open the terminal for drawing.
    OpenTerminal,
    /// Run the display loop until it ends.
    RunLoop,
    /// Take the terminal's input out of raw mode.
    DisableRawMode,
    /// Switch back from the alternate screen.
    LeaveAlternateScreen,
    /// Stop capturing mouse events.
    DisableMouseCapture,
    /// Show the cursor.
    ShowCursor,
    /// Nothing is left to do: print the failure, if any, and exit.
    Finish,
}

/// Whether a step acquires the terminal.
pub open spec fn is_setup(step: Step) -> bool {
    step is EnterAlternateScreen || step is EnableRawMode || step is EnableMouseCapture
        || step is OpenTerminal
}

/// Whether a step gives the terminal back.
pub open spec fn is_restore(step: Step) -> bool {
    step is DisableRawMode || step is LeaveAlternateScreen || step is DisableMouseCapture
        || step is ShowCursor
}

/// The step after `step` when nothing fails.
pub open spec fn following(step: Step) -> Step {
    match step {
        Step::EnterAlternateScreen => Step::EnableRawMode,
        Step::EnableRawMode => Step::EnableMouseCapture,
        Step::EnableMouseCapture => Step::OpenTerminal,
        Step::OpenTerminal => Step::RunLoop,
        Step::RunLoop => Step::DisableRawMode,
        Step::DisableRawMode => Step::LeaveAlternateScreen,
        Step::LeaveAlternateScreen => Step::DisableMouseCapture,
        Step::DisableMouseCapture => Step::ShowCursor,
        Step::ShowCursor => Step::Finish,
        Step::Finish => Step::Finish,
    }
}

/// The step after `step`, given whether `step` succeeded. A failed setup
/// step skips the rest of the setup and the loop, and starts the
/// restoration. The loop and the restoration steps are followed by the next
/// step whether they succeeded or not.
pub open spec fn next_step(step: Step, succeeded: bool) -> Step {
    if is_setup(step) && !succeeded {
        Step::DisableRawMode
    } else {
        following(step)
    }
}

/// The state of a session.
pub struct SessionModel {
    /// The step that the caller is to perform now.
    pub pending: Step,
    /// The first step that failed, if any did.
    pub failure: Option<Step>,
}

impl SessionModel {
    /// A session before its first step.
    pub open spec fn start() -> SessionModel {
        SessionModel { pending: Step::EnterAlternateScreen, failure: None }
    }

    /// The state after the pending step was performed. Only the first
    /// failure is kept.
    pub open spec fn next(self, succeeded: bool) -> SessionModel {
        SessionModel {
            pending: next_step(self.pending, succeeded),
            failure: if self.failure is None && !succeeded && !(self.pending is Finish) {
                Some(self.pending)
            } else {
                self.failure
            },
        }
    }

    /// The state after one step for each of `outcomes`, in order, from the
    /// start.
    pub open spec fn after(outcomes: Seq<bool>) -> SessionModel
        decreases outcomes.len(),
    {
        if outcomes.len() == 0 {
            Self::start()
        } else {
            Self::after(outcomes.drop_last()).next(outcomes.last())
        }
    }
}

/// The step that a session with these outcomes performs as its `i`-th,
/// counted from zero: the one that is pending after `i` outcomes.
pub open spec fn performed(outcomes: Seq<bool>, i: int) -> Step {
    SessionModel::after(outcomes.take(i)).pending
}

/// Whether the first `k` steps of a session with these outcomes are all
/// setup steps or the loop.
pub open spec fn acquires_before(outcomes: Seq<bool>, k: int) -> bool {
    forall|j: int|
        0 <= j < k ==> is_setup(#[trigger] performed(outcomes, j)) || performed(outcomes, j)
            is RunLoop
}

/// Whether the steps of a session with these outcomes, from the `k`-th on,
/// are the four restoration steps in order and then the finish.
pub open spec fn restores_from(outcomes: Seq<bool>, k: int) -> bool {
    &&& performed(outcomes, k) == Step::DisableRawMode
    &&& performed(outcomes, k + 1) == Step::LeaveAlternateScreen
    &&& performed(outcomes, k + 2) == Step::DisableMouseCapture
    &&& performed(outcomes, k + 3) == Step::ShowCursor
    &&& performed(outcomes, k + 4) == Step::Finish
}

/// After a failed setup step, and after the loop however it ended, the four
/// restoration steps follow in order, each whether or not the one before it
/// succeeded, and only then the session finishes.
pub proof fn lemma_restoration_is_unconditional(
    step: Step,
    succeeded: bool,
    raw_mode: bool,
    screen: bool,
    mouse: bool,
    cursor: bool,
)
    requires
        is_setup(step) && !succeeded || step is RunLoop,
    ensures
        next_step(step, succeeded) == Step::DisableRawMode,
        next_step(Step::DisableRawMode, raw_mode) == Step::LeaveAlternateScreen,
        next_step(Step::LeaveAlternateScreen, screen) == Step::DisableMouseCapture,
        next_step(Step::DisableMouseCapture, mouse) == Step::ShowCursor,
        next_step(Step::ShowCursor, cursor) == Step::Finish,
{
}

/// No step is skipped on the way in or out: the loop runs only after the
/// last setup step succeeded, the restoration starts only after the loop or
/// a failed setup step, and the session finishes only after the last
/// restoration step.
pub proof fn lemma_no_step_is_skipped(step: Step, succeeded: bool)
    ensures
        next_step(step, succeeded) is RunLoop ==> step is OpenTerminal && succeeded,
        next_step(step, succeeded) is DisableRawMode ==> step is RunLoop || (is_setup(step)
            && !succeeded),
        next_step(step, succeeded) is Finish ==> step is ShowCursor || step is Finish,
        is_setup(step) && succeeded ==> next_step(step, succeeded) == following(step),
{
}

/// The failure that a session reports is the first one: once a step has
/// failed, no later outcome replaces it, and a session without a failure
/// records the pending step when it fails.
pub proof fn lemma_first_failure_is_kept(state: SessionModel, succeeded: bool)
    ensures
        state.failure is Some ==> state.next(succeeded).failure == state.failure,
        state.failure is None && !(state.pending is Finish) ==> state.next(succeeded).failure == (
        if succeeded {
            None
        } else {
            Some(state.pending)
        }),
{
}

/// One more outcome takes a session one step further.
proof fn lemma_after_one_more(outcomes: Seq<bool>, i: int)
    requires
        0 <= i < outcomes.len(),
    ensures
        performed(outcomes, i + 1) == next_step(performed(outcomes, i), outcomes[i]),
{
    assert(outcomes.take(i + 1).drop_last() =~= outcomes.take(i));
}

/// As long as nothing has failed, the setup steps and the loop follow each
/// other; the first of them to fail, and the loop in any case, is followed
/// by the first restoration step.
proof fn lemma_restoration_starts(outcomes: Seq<bool>) -> (k: int)
    requires
        outcomes.len() >= 5,
    ensures
        1 <= k <= 5,
        acquires_before(outcomes, k),
        performed(outcomes, k) == Step::DisableRawMode,
{
    lemma_after_one_more(outcomes, 0);
    lemma_after_one_more(outcomes, 1);
    lemma_after_one_more(outcomes, 2);
    lemma_after_one_more(outcomes, 3);
    lemma_after_one_more(outcomes, 4);
    if !outcomes[0] {
        1
    } else if !outcomes[1] {
        2
    } else if !outcomes[2] {
        3
    } else if !outcomes[3] {
        4
    } else {
        5
    }
}

/// Once the finish is pending it stays pending.
proof fn lemma_finish_is_kept(outcomes: Seq<bool>, i: int, j: int)
    requires
        0 <= i <= j <= outcomes.len(),
        performed(outcomes, i) is Finish,
    ensures
        performed(outcomes, j) is Finish,
    decreases j - i,
{
    if i < j {
        lemma_finish_is_kept(outcomes, i, j - 1);
        lemma_after_one_more(outcomes, j - 1);
    }
}

/// Whatever fails, a session that has finished has given the terminal back:
/// the four restoration steps were performed in order, after nothing but
/// setup steps and the loop, and right before the finish.
pub proof fn lemma_finished_session_has_restored(outcomes: Seq<bool>)
    requires
        SessionModel::after(outcomes).pending is Finish,
    ensures
        exists|k: int|
            {
                &&& 1 <= k <= 5
                &&& k + 4 <= outcomes.len()
                &&& acquires_before(outcomes, k)
                &&& #[trigger] restores_from(outcomes, k)
            },
{
    let n = outcomes.len() as int;
    assert(outcomes.take(n) =~= outcomes);
    if n < 5 {
        // too few steps to have reached the finish
        if 0 < n {
            lemma_after_one_more(outcomes, 0);
        }
        if 1 < n {
            lemma_after_one_more(outcomes, 1);
        }
        if 2 < n {
            lemma_after_one_more(outcomes, 2);
        }
        if 3 < n {
            lemma_after_one_more(outcomes, 3);
        }
    } else {
        let k = lemma_restoration_starts(outcomes);
        if k < n {
            lemma_after_one_more(outcomes, k);
        }
        if k + 1 < n {
            lemma_after_one_more(outcomes, k + 1);
        }
        if k + 2 < n {
            lemma_after_one_more(outcomes, k + 2);
        }
        if k + 3 < n {
            lemma_after_one_more(outcomes, k + 3);
        }
        assert(restores_from(outcomes, k));
    }
}

/// Every session finishes within nine steps, and stays finished.
pub proof fn lemma_session_finishes(outcomes: Seq<bool>)
    requires
        outcomes.len() >= 9,
    ensures
        SessionModel::after(outcomes).pending is Finish,
{
    let k = lemma_restoration_starts(outcomes);
    lemma_after_one_more(outcomes, k);
    lemma_after_one_more(outcomes, k + 1);
    lemma_after_one_more(outcomes, k + 2);
    lemma_after_one_more(outcomes, k + 3);
    lemma_finish_is_kept(outcomes, k + 4, outcomes.len() as int);
    assert(outcomes.take(outcomes.len() as int) =~= outcomes);
}

/// A terminal session in progress.
#[derive(Debug)]
pub struct Session {
    pending: Step,
    failure: Option<Step>,
}

impl View for Session {
    type V = SessionModel;

    closed spec fn view(&self) -> SessionModel {
        SessionModel { pending: self.pending, failure: self.failure }
    }
}

impl Session {
    /// A session before its first step.
    pub fn new() -> (session: Session)
        ensures
            session@ == SessionModel::start(),
    {
        Session { pending: Step::EnterAlternateScreen, failure: None }
    }

    /// The step to perform now.
    pub fn pending(&self) -> (step: Step)
        ensures
            step == self@.pending,
    {
        self.pending
    }

    /// The first step that failed, if any did: the one whose error is
    /// printed when the session has finished.
    pub fn failure(&self) -> (failure: Option<Step>)
        ensures
            failure == self@.failure,
    {
        self.failure
    }

    /// Takes in whether the pending step succeeded, and says which step
    /// comes next.
    pub fn report(&mut self, succeeded: bool) -> (step: Step)
        ensures
            final(self)@ == old(self)@.next(succeeded),
            step == final(self)@.pending,
    {
        let done = self.pending;
        let setup = match done {
            Step::EnterAlternateScreen
            | Step::EnableRawMode
            | Step::EnableMouseCapture
            | Step::OpenTerminal => true,
            _ => false,
        };
        let finished = match done {
            Step::Finish => true,
            _ => false,
        };
        if self.failure.is_none() && !succeeded && !finished {
            self.failure = Some(done);
        }
        self.pending = if setup && !succeeded {
            Step::DisableRawMode
        } else {
            match done {
                Step::EnterAlternateScreen => Step::EnableRawMode,
                Step::EnableRawMode => Step::EnableMouseCapture,
                Step::EnableMouseCapture => Step::OpenTerminal,
                Step::OpenTerminal => Step::RunLoop,
                Step::RunLoop => Step::DisableRawMode,
                Step::DisableRawMode => Step::LeaveAlternateScreen,
                Step::LeaveAlternateScreen => Step::DisableMouseCapture,
                Step::DisableMouseCapture => Step::ShowCursor,
                Step::ShowCursor => Step::Finish,
                Step::Finish => Step::Finish,
            }
        };
        self.pending
    }
}

} // verus!
