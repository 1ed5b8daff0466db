//! The states of a rebuild job, the commands that act on them, and the table
//! of transitions between them.
use vstd::prelude::*;

use crate::rebuild_error::RebuildError;

verus! {

/// The state of a rebuild job.
#[derive(Clone, Copy, Debug, PartialEq, Eq, Structural)]
pub enum RebuildState {
    /// Created, not yet started.
    Init,
    /// Copying segments.
    Running,
    /// Quiesced on request; may be resumed.
    Paused,
    /// Ended on request before the range was copied.
    Stopped,
    /// Ended by a fatal error.
    Failed,
    /// Every segment of the range was copied or found clean.
    Completed,
}

/// A command sent to a rebuild job.
#[derive(Clone, Copy, Debug, PartialEq, Eq, Structural)]
pub enum RebuildOperation {
    /// Begin copying.
    Start,
    /// Quiesce and hold.
    Pause,
    /// Continue after a pause.
    Resume,
    /// Quiesce and end.
    Stop,
    /// End as failed.
    Fail,
}

impl RebuildState {
    /// A terminal state is never left.
    pub open spec fn is_terminal(self) -> bool {
        self == RebuildState::Stopped || self == RebuildState::Failed || self
            == RebuildState::Completed
    }

    /// True when the job has reached a terminal state.
    pub fn done(&self) -> (r: bool)
        ensures
            r == self.is_terminal(),
    {
        match self {
            RebuildState::Stopped | RebuildState::Failed | RebuildState::Completed => true,
            _ => false,
        }
    }

    /// True when the job is running.
    pub fn running(&self) -> (r: bool)
        ensures
            r == (*self == RebuildState::Running),
    {
        match self {
            RebuildState::Running => true,
            _ => false,
        }
    }
}

/// The table of transitions: whether a job in state `from` may move to the
/// different state `to` in one step.
pub open spec fn legal_transition(from: RebuildState, to: RebuildState) -> bool {
    match from {
        RebuildState::Init => to == RebuildState::Running || to == RebuildState::Stopped,
        RebuildState::Running => to == RebuildState::Completed || to == RebuildState::Failed
            || to == RebuildState::Paused || to == RebuildState::Stopped,
        RebuildState::Paused => to == RebuildState::Running || to == RebuildState::Stopped,
        RebuildState::Stopped | RebuildState::Failed | RebuildState::Completed => false,
    }
}

/// One step of a job: the state stays, or moves along the table.
pub open spec fn legal_step(from: RebuildState, to: RebuildState) -> bool {
    from == to || legal_transition(from, to)
}

/// The current state of a job together with the state it has been asked to
/// reach once its in-flight copy tasks have finished.
#[derive(Clone, Copy, Debug)]
pub struct RebuildStates {
    /// Current state of the rebuild.
    pub current: RebuildState,
    /// Pending state for the rebuild: the target of a pause or stop that waits
    /// for the in-flight tasks.
    pub pending: Option<RebuildState>,
}

/// What a command does to a pair of current and pending state.
pub struct OpOutcome {
    /// Current state after the command.
    pub current: RebuildState,
    /// Pending state after the command.
    pub pending: Option<RebuildState>,
    /// Whether the command was accepted.
    pub accepted: bool,
}

/// A command that moves a running job to `target`: at once when no task is in
/// flight, after quiescence otherwise.
pub open spec fn quiescent_move(target: RebuildState, quiesced: bool) -> OpOutcome {
    if quiesced {
        OpOutcome { current: target, pending: None, accepted: true }
    } else {
        OpOutcome { current: RebuildState::Running, pending: Some(target), accepted: true }
    }
}

/// The state unchanged, with the command accepted or refused.
pub open spec fn unchanged(s: RebuildStates, accepted: bool) -> OpOutcome {
    OpOutcome { current: s.current, pending: s.pending, accepted }
}

/// The effect of command `op` on the states `s`, where `quiesced` says that no
/// copy task is in flight.
///
/// * `Start` is accepted in `Init` only.
/// * `Pause` moves `Running` to `Paused` after quiescence, is a no-op when
///   already paused or pausing, and is refused elsewhere (also once a stop is
///   pending).
/// * `Resume` moves `Paused` to `Running`, withdraws a pending pause, is a
///   no-op when running, and is refused elsewhere (also once a stop is pending).
/// * `Stop` moves every non-terminal state to `Stopped`, after quiescence when
///   running, and is a no-op in a terminal state.
/// * `Fail` moves `Running` to `Failed` at once and is refused elsewhere.
pub open spec fn op_outcome(s: RebuildStates, op: RebuildOperation, quiesced: bool) -> OpOutcome {
    match op {
        RebuildOperation::Start => match s.current {
            RebuildState::Init => OpOutcome {
                current: RebuildState::Running,
                pending: None,
                accepted: true,
            },
            _ => unchanged(s, false),
        },
        RebuildOperation::Pause => match s.current {
            RebuildState::Running => match s.pending {
                None => quiescent_move(RebuildState::Paused, quiesced),
                Some(RebuildState::Paused) => unchanged(s, true),
                Some(_) => unchanged(s, false),
            },
            RebuildState::Paused => unchanged(s, true),
            _ => unchanged(s, false),
        },
        RebuildOperation::Resume => match s.current {
            RebuildState::Running => match s.pending {
                None => unchanged(s, true),
                Some(RebuildState::Paused) => OpOutcome {
                    current: RebuildState::Running,
                    pending: None,
                    accepted: true,
                },
                Some(_) => unchanged(s, false),
            },
            RebuildState::Paused => OpOutcome {
                current: RebuildState::Running,
                pending: None,
                accepted: true,
            },
            _ => unchanged(s, false),
        },
        RebuildOperation::Stop => match s.current {
            RebuildState::Init | RebuildState::Paused => OpOutcome {
                current: RebuildState::Stopped,
                pending: None,
                accepted: true,
            },
            RebuildState::Running => quiescent_move(RebuildState::Stopped, quiesced),
            _ => unchanged(s, true),
        },
        RebuildOperation::Fail => match s.current {
            RebuildState::Running => OpOutcome {
                current: RebuildState::Failed,
                pending: None,
                accepted: true,
            },
            _ => unchanged(s, false),
        },
    }
}

/// The states once the in-flight tasks are accounted for: a pending state is
/// entered when no task is in flight; a running job with nothing pending,
/// nothing in flight and no segment left is completed.
pub open spec fn reconciled(s: RebuildStates, quiesced: bool, all_dispatched: bool)
    -> RebuildStates {
    if s.current == RebuildState::Running && quiesced {
        match s.pending {
            Some(p) => RebuildStates { current: p, pending: None },
            None => if all_dispatched {
                RebuildStates { current: RebuildState::Completed, pending: None }
            } else {
                s
            },
        }
    } else {
        s
    }
}

impl RebuildStates {
    /// A pending state exists only while running, and is `Paused` or `Stopped`.
    pub open spec fn wf(self) -> bool {
        self.pending.is_some() ==> {
            &&& self.current == RebuildState::Running
            &&& (self.pending == Some(RebuildState::Paused) || self.pending == Some(
                RebuildState::Stopped,
            ))
        }
    }

    /// The states of a new job.
    pub fn new() -> (r: Self)
        ensures
            r.wf(),
            r.current == RebuildState::Init,
            r.pending.is_none(),
    {
        RebuildStates { current: RebuildState::Init, pending: None }
    }

    /// Applies the command `op`. `quiesced` says that no copy task is in
    /// flight. Returns the current state after the command, or
    /// `InvalidStateTransition` with the state left as it was.
    pub fn exec_op(&mut self, op: RebuildOperation, quiesced: bool) -> (r: Result<
        RebuildState,
        RebuildError,
    >)
        requires
            old(self).wf(),
        ensures
            final(self).wf(),
            final(self).current == op_outcome(*old(self), op, quiesced).current,
            final(self).pending == op_outcome(*old(self), op, quiesced).pending,
            op_outcome(*old(self), op, quiesced).accepted ==> r == Ok::<
                RebuildState,
                RebuildError,
            >(final(self).current),
            !op_outcome(*old(self), op, quiesced).accepted ==> *final(self) == *old(self) && r
                == Err::<RebuildState, RebuildError>(
                RebuildError::InvalidStateTransition { operation: op, state: old(self).current },
            ),
            legal_step(old(self).current, final(self).current),
            old(self).current.is_terminal() ==> *final(self) == *old(self),
    {
        let refused = Err(
            RebuildError::InvalidStateTransition { operation: op, state: self.current },
        );
        match op {
            RebuildOperation::Start => match self.current {
                RebuildState::Init => {
                    self.current = RebuildState::Running;
                    Ok(self.current)
                },
                _ => refused,
            },
            RebuildOperation::Pause => match self.current {
                RebuildState::Running => match self.pending {
                    None => {
                        self.quiescent_move(RebuildState::Paused, quiesced);
                        Ok(self.current)
                    },
                    Some(RebuildState::Paused) => Ok(self.current),
                    Some(_) => refused,
                },
                RebuildState::Paused => Ok(self.current),
                _ => refused,
            },
            RebuildOperation::Resume => match self.current {
                RebuildState::Running => match self.pending {
                    None => Ok(self.current),
                    Some(RebuildState::Paused) => {
                        self.pending = None;
                        Ok(self.current)
                    },
                    Some(_) => refused,
                },
                RebuildState::Paused => {
                    self.current = RebuildState::Running;
                    Ok(self.current)
                },
                _ => refused,
            },
            RebuildOperation::Stop => match self.current {
                RebuildState::Init | RebuildState::Paused => {
                    self.current = RebuildState::Stopped;
                    Ok(self.current)
                },
                RebuildState::Running => {
                    self.quiescent_move(RebuildState::Stopped, quiesced);
                    Ok(self.current)
                },
                _ => Ok(self.current),
            },
            RebuildOperation::Fail => match self.current {
                RebuildState::Running => {
                    self.current = RebuildState::Failed;
                    self.pending = None;
                    Ok(self.current)
                },
                _ => refused,
            },
        }
    }

    /// Moves a running job to `target` now if nothing is in flight, and
    /// records the target as pending otherwise.
    fn quiescent_move(&mut self, target: RebuildState, quiesced: bool)
        requires
            old(self).current == RebuildState::Running,
        ensures
            final(self).current == self::quiescent_move(target, quiesced).current,
            final(self).pending == self::quiescent_move(target, quiesced).pending,
    {
        if quiesced {
            self.current = target;
            self.pending = None;
        } else {
            self.pending = Some(target);
        }
    }

    /// A fatal task error: a running job fails at once, whatever was pending.
    /// In every other state nothing changes.
    pub fn task_failed(&mut self)
        requires
            old(self).wf(),
        ensures
            final(self).wf(),
            old(self).current == RebuildState::Running ==> *final(self) == (RebuildStates {
                current: RebuildState::Failed,
                pending: None,
            }),
            old(self).current != RebuildState::Running ==> *final(self) == *old(self),
            legal_step(old(self).current, final(self).current),
    {
        if self.current.running() {
            self.current = RebuildState::Failed;
            self.pending = None;
        }
    }

    /// Enters the pending state, or `Completed`, as soon as the tasks allow.
    /// `quiesced` says that no copy task is in flight, `all_dispatched` that
    /// the cursor has reached the end of the range. Returns the current state.
    pub fn reconcile(&mut self, quiesced: bool, all_dispatched: bool) -> (r: RebuildState)
        requires
            old(self).wf(),
        ensures
            final(self).wf(),
            *final(self) == reconciled(*old(self), quiesced, all_dispatched),
            r == final(self).current,
            legal_step(old(self).current, final(self).current),
            old(self).current.is_terminal() ==> *final(self) == *old(self),
    {
        if self.current.running() && quiesced {
            match self.pending {
                Some(p) => {
                    self.current = p;
                    self.pending = None;
                },
                None => {
                    if all_dispatched {
                        self.current = RebuildState::Completed;
                    }
                },
            }
        }
        self.current
    }
}

/// Every command leaves the state where it was or moves it along the table,
/// and changes nothing in a terminal state.
pub proof fn lemma_commands_follow_table(s: RebuildStates, op: RebuildOperation, quiesced: bool)
    requires
        s.wf(),
    ensures
        legal_step(s.current, op_outcome(s, op, quiesced).current),
        s.current.is_terminal() ==> op_outcome(s, op, quiesced).current == s.current
            && op_outcome(s, op, quiesced).pending == s.pending,
        !op_outcome(s, op, quiesced).accepted ==> op_outcome(s, op, quiesced).current
            == s.current && op_outcome(s, op, quiesced).pending == s.pending,
{
}

/// Reconciling leaves the state where it was or moves it along the table, and
/// changes nothing in a terminal state.
pub proof fn lemma_reconcile_follows_table(s: RebuildStates, quiesced: bool, all_dispatched: bool)
    requires
        s.wf(),
    ensures
        legal_step(s.current, reconciled(s, quiesced, all_dispatched).current),
        s.current.is_terminal() ==> reconciled(s, quiesced, all_dispatched) == s,
        reconciled(s, quiesced, all_dispatched).wf(),
{
}

/// No transition of the table leaves a terminal state.
pub proof fn lemma_terminal_is_final(from: RebuildState, to: RebuildState)
    requires
        from.is_terminal(),
        legal_step(from, to),
    ensures
        to == from,
{
}

/// Stopping a terminal job is a no-op that is accepted and reports the
/// terminal state.
pub proof fn lemma_stop_on_terminal(s: RebuildStates, quiesced: bool)
    requires
        s.wf(),
        s.current.is_terminal(),
    ensures
        op_outcome(s, RebuildOperation::Stop, quiesced) == unchanged(s, true),
{
}

} // verus!
