//! Waiting for a long-running remote operation: each poll's answer is handed
//! to a `Poller`, which says whether to wait, poll again, finish or fail.

use vstd::prelude::*;
use crate::error::PipelineError;
use crate::text::same_text;

verus! {

/// Seconds to wait between two polls of an unfinished operation.
pub const POLL_INTERVAL_SECS: u64 = 5;

/// Unfinished answers allowed by default before an operation is given up
/// (an hour of polling).
pub const DEFAULT_MAX_POLLS: u64 = 720;

/// The statuses that the service reports for an operation or a task.
#[derive(Clone, Copy, PartialEq, Eq, Structural, Debug)]
pub enum OperationStatus {
    NotStarted,
    Running,
    Pending,
    Unassigned,
    Succeeded,
    Completed,
    Unrecognized,
}

pub open spec fn status_of(s: Seq<char>) -> OperationStatus {
    if s == "NotStarted"@ {
        OperationStatus::NotStarted
    } else if s == "Running"@ {
        OperationStatus::Running
    } else if s == "Pending"@ {
        OperationStatus::Pending
    } else if s == "Unassigned"@ {
        OperationStatus::Unassigned
    } else if s == "Succeeded"@ {
        OperationStatus::Succeeded
    } else if s == "Completed"@ {
        OperationStatus::Completed
    } else {
        OperationStatus::Unrecognized
    }
}

/// Reads a status as the service writes it.
pub fn parse_status(s: &str) -> (r: OperationStatus)
    ensures
        r == status_of(s@),
{
    if same_text(s, "NotStarted") {
        OperationStatus::NotStarted
    } else if same_text(s, "Running") {
        OperationStatus::Running
    } else if same_text(s, "Pending") {
        OperationStatus::Pending
    } else if same_text(s, "Unassigned") {
        OperationStatus::Unassigned
    } else if same_text(s, "Succeeded") {
        OperationStatus::Succeeded
    } else if same_text(s, "Completed") {
        OperationStatus::Completed
    } else {
        OperationStatus::Unrecognized
    }
}

/// What is being waited for: the submitted operation, or, after it has
/// succeeded, the human task that it opened.
#[derive(Clone, Copy, PartialEq, Eq, Structural, Debug)]
pub enum PollPhase {
    Operation,
    Action,
}

/// Whether the payload comes with the operation, or only once the task that
/// the operation opened is completed.
#[derive(Clone, Copy, PartialEq, Eq, Structural, Debug)]
pub enum PollMode {
    OperationOnly,
    OperationThenAction,
}

/// The status that ends a phase.
pub open spec fn finishes_phase(phase: PollPhase, st: OperationStatus) -> bool {
    match phase {
        PollPhase::Operation => st == OperationStatus::Succeeded,
        PollPhase::Action => st == OperationStatus::Completed,
    }
}

/// The phase whose end carries the payload.
pub open spec fn payload_phase(mode: PollMode) -> PollPhase {
    match mode {
        PollMode::OperationOnly => PollPhase::Operation,
        PollMode::OperationThenAction => PollPhase::Action,
    }
}

/// The state of one wait: its mode and phase, the unfinished answers seen so
/// far, and how many are allowed; the answer that reaches the allowance ends
/// the wait with a timeout.
#[derive(Clone, Copy, PartialEq, Eq, Structural, Debug)]
pub struct Poller {
    pub mode: PollMode,
    pub phase: PollPhase,
    pub polls: u64,
    pub max_polls: u64,
}

/// One poll's answer. `Status` holds the status read at the current phase's
/// place in the answer, and the payload if the answer has the payload's shape.
#[derive(Debug)]
pub enum PollObservation<T> {
    /// The request got no answer.
    Unreachable(String),
    /// The service answered with a status other than success.
    Refused { status: u16, body: String },
    /// The answer could not be read, or held no status.
    Unreadable(String),
    Status { status: String, payload: Option<T> },
}

/// What to do after a poll.
#[derive(Debug)]
pub enum PollAction<T> {
    /// Sleep, then poll again; `recognized` is false for a status that the
    /// poller does not know.
    Wait { seconds: u64, recognized: bool },
    /// Poll again at once: the operation succeeded and its task is next.
    PollAgain,
    /// The operation is done; here is its payload.
    Finish(T),
    Fail(PipelineError),
}

pub open spec fn start_poller(mode: PollMode, max_polls: u64) -> Poller {
    Poller { mode, phase: PollPhase::Operation, polls: 0, max_polls }
}

/// The count of unfinished answers once one more has come.
pub open spec fn one_more(polls: u64) -> u64 {
    if polls == u64::MAX {
        polls
    } else {
        (polls + 1) as u64
    }
}

/// An unfinished answer: wait for the next one, unless it is the last that
/// the allowance admits.
pub open spec fn wait_or_give_up<T>(p: Poller, recognized: bool) -> (Poller, PollAction<T>) {
    let n = one_more(p.polls);
    if n >= p.max_polls {
        (Poller { polls: n, ..p }, PollAction::Fail(PipelineError::PollTimeout { attempts: n }))
    } else {
        (Poller { polls: n, ..p }, PollAction::Wait { seconds: POLL_INTERVAL_SECS, recognized })
    }
}

/// One step of the poll protocol.
pub open spec fn next_poll<T>(p: Poller, obs: PollObservation<T>) -> (Poller, PollAction<T>) {
    match obs {
        PollObservation::Unreachable(m) => (p, PollAction::Fail(PipelineError::Transport(m))),
        PollObservation::Refused { status, body } => (
            p,
            PollAction::Fail(PipelineError::Remote { status, body }),
        ),
        PollObservation::Unreadable(m) => (p, PollAction::Fail(PipelineError::Schema(m))),
        PollObservation::Status { status, payload } => {
            let st = status_of(status@);
            if finishes_phase(p.phase, st) {
                if p.phase != payload_phase(p.mode) {
                    (Poller { phase: PollPhase::Action, ..p }, PollAction::PollAgain)
                } else {
                    match payload {
                        Some(v) => (p, PollAction::Finish(v)),
                        None => wait_or_give_up(p, true),
                    }
                }
            } else {
                wait_or_give_up(p, st != OperationStatus::Unrecognized)
            }
        },
    }
}

impl Poller {
    pub fn new(mode: PollMode, max_polls: u64) -> (r: Poller)
        ensures
            r == start_poller(mode, max_polls),
    {
        Poller { mode, phase: PollPhase::Operation, polls: 0, max_polls }
    }

    pub fn phase(&self) -> (r: PollPhase)
        ensures
            r == self.phase,
    {
        self.phase
    }

    fn wait_or_give_up<T>(&mut self, recognized: bool) -> (r: PollAction<T>)
        ensures
            (*final(self), r) == wait_or_give_up::<T>(*old(self), recognized),
    {
        let n = if self.polls == u64::MAX {
            self.polls
        } else {
            self.polls + 1
        };
        self.polls = n;
        if n >= self.max_polls {
            PollAction::Fail(PipelineError::PollTimeout { attempts: n })
        } else {
            PollAction::Wait { seconds: POLL_INTERVAL_SECS, recognized }
        }
    }

    /// Takes in one poll's answer. The payload is handed out only when the
    /// status that ends the payload's phase has been seen together with a
    /// payload of the right shape.
    pub fn observe<T>(&mut self, obs: PollObservation<T>) -> (r: PollAction<T>)
        ensures
            (*final(self), r) == next_poll(*old(self), obs),
            final(self).mode == old(self).mode,
            final(self).max_polls == old(self).max_polls,
            final(self).polls >= old(self).polls,
            old(self).phase == PollPhase::Action ==> final(self).phase == PollPhase::Action,
            r matches PollAction::Finish(v) ==> obs matches PollObservation::Status { status, payload }
                && old(self).phase == payload_phase(old(self).mode)
                && finishes_phase(old(self).phase, status_of(status@))
                && payload == Some(v),
    {
        match obs {
            PollObservation::Unreachable(m) => PollAction::Fail(PipelineError::Transport(m)),
            PollObservation::Refused { status, body } => PollAction::Fail(
                PipelineError::Remote { status, body },
            ),
            PollObservation::Unreadable(m) => PollAction::Fail(PipelineError::Schema(m)),
            PollObservation::Status { status, payload } => {
                let st = parse_status(status.as_str());
                let done = match self.phase {
                    PollPhase::Operation => st == OperationStatus::Succeeded,
                    PollPhase::Action => st == OperationStatus::Completed,
                };
                if done {
                    let last = match self.mode {
                        PollMode::OperationOnly => self.phase == PollPhase::Operation,
                        PollMode::OperationThenAction => self.phase == PollPhase::Action,
                    };
                    if !last {
                        self.phase = PollPhase::Action;
                        PollAction::PollAgain
                    } else {
                        match payload {
                            Some(v) => PollAction::Finish(v),
                            None => self.wait_or_give_up(true),
                        }
                    }
                } else {
                    self.wait_or_give_up(st != OperationStatus::Unrecognized)
                }
            },
        }
    }
}

/// The first decisive action of polling from `p` on the answers `obs`;
/// none if the answers run out while the poller still waits.
pub open spec fn poll_outcome<T>(p: Poller, obs: Seq<PollObservation<T>>) -> Option<PollAction<T>>
    decreases obs.len(),
{
    if obs.len() == 0 {
        None
    } else {
        let (p2, act) = next_poll(p, obs[0]);
        match act {
            PollAction::Wait { .. } => poll_outcome(p2, obs.drop_first()),
            PollAction::PollAgain => poll_outcome(p2, obs.drop_first()),
            _ => Some(act),
        }
    }
}

/// The answers that an operation gives once it is complete: the operation's
/// status is `done_op`, and, with a task, the task's status is `done_task`;
/// `v` is its payload.
pub open spec fn completed_answers<T>(
    mode: PollMode,
    done_op: String,
    done_task: String,
    v: T,
) -> Seq<PollObservation<T>> {
    match mode {
        PollMode::OperationOnly => seq![PollObservation::Status { status: done_op, payload: Some(v) }],
        PollMode::OperationThenAction => seq![
            PollObservation::Status { status: done_op, payload: None },
            PollObservation::Status { status: done_task, payload: Some(v) },
        ],
    }
}

/// Polling a completed operation from the start gives its payload, whatever
/// the poll budget; so two polls of it give the same payload.
pub proof fn lemma_completed_poll_repeats<T>(
    mode: PollMode,
    max1: u64,
    max2: u64,
    done_op: String,
    done_task: String,
    v: T,
)
    requires
        status_of(done_op@) == OperationStatus::Succeeded,
        status_of(done_task@) == OperationStatus::Completed,
    ensures
        poll_outcome(start_poller(mode, max1), completed_answers(mode, done_op, done_task, v))
            == Some(PollAction::Finish(v)),
        poll_outcome(start_poller(mode, max1), completed_answers(mode, done_op, done_task, v))
            == poll_outcome(start_poller(mode, max2), completed_answers(mode, done_op, done_task, v)),
{
    lemma_completed_poll_from(mode, max1, done_op, done_task, v);
    lemma_completed_poll_from(mode, max2, done_op, done_task, v);
}

proof fn lemma_completed_poll_from<T>(mode: PollMode, max: u64, done_op: String, done_task: String, v: T)
    requires
        status_of(done_op@) == OperationStatus::Succeeded,
        status_of(done_task@) == OperationStatus::Completed,
    ensures
        poll_outcome(start_poller(mode, max), completed_answers(mode, done_op, done_task, v))
            == Some(PollAction::Finish(v)),
{
    let p = start_poller(mode, max);
    let a = completed_answers(mode, done_op, done_task, v);
    match mode {
        PollMode::OperationOnly => {
            assert(a[0] == PollObservation::Status { status: done_op, payload: Some(v) });
            assert(next_poll(p, a[0]).1 == PollAction::Finish(v));
        },
        PollMode::OperationThenAction => {
            let p2 = Poller { phase: PollPhase::Action, ..p };
            assert(a[0] == PollObservation::<T>::Status { status: done_op, payload: None });
            assert(next_poll(p, a[0]) == (p2, PollAction::<T>::PollAgain));
            let rest = a.drop_first();
            assert(rest[0] == PollObservation::Status { status: done_task, payload: Some(v) });
            assert(next_poll(p2, rest[0]).1 == PollAction::Finish(v));
            assert(poll_outcome(p2, rest) == Some(PollAction::Finish(v)));
        },
    }
}

/// Polling finishes only on an answer that carries the payload and the
/// status that ends the payload's phase.
pub proof fn lemma_finish_needs_terminal_answer<T>(p: Poller, obs: Seq<PollObservation<T>>, v: T)
    requires
        poll_outcome(p, obs) == Some(PollAction::Finish(v)),
    ensures
        exists|i: int|
            0 <= i < obs.len() && (#[trigger] obs[i] matches PollObservation::Status { status, payload }
                && finishes_phase(payload_phase(p.mode), status_of(status@)) && payload == Some(v)),
    decreases obs.len(),
{
    let (p2, act) = next_poll(p, obs[0]);
    match act {
        PollAction::Wait { .. } => {
            lemma_finish_needs_terminal_answer(p2, obs.drop_first(), v);
            let i = choose|i: int|
                0 <= i < obs.drop_first().len() && (#[trigger] obs.drop_first()[i] matches PollObservation::Status {
                    status,
                    payload,
                } && finishes_phase(payload_phase(p2.mode), status_of(status@)) && payload == Some(v));
            assert(obs[i + 1] == obs.drop_first()[i]);
        },
        PollAction::PollAgain => {
            lemma_finish_needs_terminal_answer(p2, obs.drop_first(), v);
            let i = choose|i: int|
                0 <= i < obs.drop_first().len() && (#[trigger] obs.drop_first()[i] matches PollObservation::Status {
                    status,
                    payload,
                } && finishes_phase(payload_phase(p2.mode), status_of(status@)) && payload == Some(v));
            assert(obs[i + 1] == obs.drop_first()[i]);
        },
        _ => {
            assert(obs[0] matches PollObservation::Status { status, payload } && finishes_phase(
                payload_phase(p.mode),
                status_of(status@),
            ) && payload == Some(v));
        },
    }
}

/// An answer that leaves the phase unfinished.
pub open spec fn unfinished<T>(phase: PollPhase, o: PollObservation<T>) -> bool {
    o matches PollObservation::Status { status, .. } && !finishes_phase(phase, status_of(status@))
}

/// With an allowance of N unfinished answers, N answers that leave the
/// operation unfinished end the wait with a timeout that reports N attempts;
/// no answer past the N-th is read.
pub proof fn lemma_poll_bound<T>(p: Poller, obs: Seq<PollObservation<T>>)
    requires
        p.polls < p.max_polls,
        obs.len() >= p.max_polls - p.polls,
        forall|i: int| 0 <= i < obs.len() ==> unfinished(p.phase, #[trigger] obs[i]),
    ensures
        poll_outcome(p, obs) == Some(
            PollAction::<T>::Fail(PipelineError::PollTimeout { attempts: p.max_polls }),
        ),
    decreases obs.len(),
{
    assert(unfinished(p.phase, obs[0]));
    let (p2, act) = next_poll(p, obs[0]);
    if p.polls + 1 < p.max_polls {
        assert(act is Wait);
        assert(p2.polls == p.polls + 1 && p2.phase == p.phase && p2.max_polls == p.max_polls);
        let rest = obs.drop_first();
        assert forall|i: int| 0 <= i < rest.len() implies unfinished(p2.phase, #[trigger] rest[i]) by {
            assert(rest[i] == obs[i + 1]);
        }
        lemma_poll_bound(p2, rest);
    }
}

/// In a wait for a task, the payload is handed out only on a `Completed`
/// answer that comes after an answer reporting the operation `Succeeded`.
pub proof fn lemma_task_payload_follows_success<T>(p: Poller, obs: Seq<PollObservation<T>>, v: T)
    requires
        p.mode == PollMode::OperationThenAction,
        p.phase == PollPhase::Operation,
        poll_outcome(p, obs) == Some(PollAction::Finish(v)),
    ensures
        exists|i: int, j: int|
            0 <= i < j < obs.len() && (#[trigger] obs[i] matches PollObservation::Status { status, .. }
                && status_of(status@) == OperationStatus::Succeeded) && (#[trigger] obs[j] matches PollObservation::Status {
                status,
                payload,
            } && status_of(status@) == OperationStatus::Completed && payload == Some(v)),
    decreases obs.len(),
{
    let (p2, act) = next_poll(p, obs[0]);
    let rest = obs.drop_first();
    match act {
        PollAction::Wait { .. } => {
            lemma_task_payload_follows_success(p2, rest, v);
            let (i, j) = choose|i: int, j: int|
                0 <= i < j < rest.len() && (#[trigger] rest[i] matches PollObservation::Status { status, .. }
                    && status_of(status@) == OperationStatus::Succeeded) && (#[trigger] rest[j] matches PollObservation::Status {
                    status,
                    payload,
                } && status_of(status@) == OperationStatus::Completed && payload == Some(v));
            assert(obs[i + 1] == rest[i] && obs[j + 1] == rest[j]);
        },
        PollAction::PollAgain => {
            lemma_finish_needs_terminal_answer(p2, rest, v);
            let j = choose|j: int|
                0 <= j < rest.len() && (#[trigger] rest[j] matches PollObservation::Status { status, payload }
                    && finishes_phase(payload_phase(p2.mode), status_of(status@)) && payload == Some(v));
            assert(obs[j + 1] == rest[j]);
            assert(obs[0] matches PollObservation::Status { status, .. } && status_of(status@)
                == OperationStatus::Succeeded);
        },
        _ => {},
    }
}

} // verus!
