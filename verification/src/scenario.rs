//! The order of a scenario: one artifact after the other is uploaded, and none after one
//! that the sandbox refused; then one step after the other, each step on the
//! native backend first and on the bytecode backend second, until the last step is done
//! or something fatal happens. The driver performs what `advance` asks for and reports
//! back what happened; the decisions are all here.

use crate::codec::{Account, DecodeError};
use crate::equivalence::Mismatch;
use vstd::prelude::*;

verus! {

/// The metering limit of every deployment and call, in each of its two dimensions. A
/// step that needs more traps.
pub const GAS_LIMIT: u64 = 500_000_000_000;

/// The two execution backends that are compared.
#[derive(Clone, Copy, Debug, PartialEq, Eq)]
pub enum Backend {
    /// The native instruction set.
    Riscv,
    /// The portable bytecode.
    Wasm,
}

/// Why a contract was not deployed.
#[derive(Clone, Copy, Debug, PartialEq, Eq)]
pub enum DeployError {
    /// The execution trapped, or ran out of its metering limit.
    Trapped,
    /// The constructor reverted.
    Reverted,
}

/// Why a call gave no usable answer.
#[derive(Clone, Copy, Debug, PartialEq, Eq)]
pub enum CallError {
    /// The execution trapped, or ran out of its metering limit.
    Trapped,
    /// The message reverted, and the step did not expect it to.
    Reverted,
}

/// What the sandbox says of an instantiation.
#[derive(Clone, Copy, Debug, PartialEq, Eq)]
pub enum Deployment {
    Trapped,
    Finished { gas: u64, reverted: bool, account: Account },
}

/// What the sandbox says of a call.
#[derive(Clone, Debug, PartialEq, Eq)]
pub enum Invocation {
    Trapped,
    Finished { gas: u64, reverted: bool, data: Vec<u8> },
}

/// What a deployment amounts to: metering and address, unless it trapped or reverted.
pub open spec fn deploy_result(outcome: Deployment) -> Result<(u64, Account), DeployError> {
    match outcome {
        Deployment::Trapped => Err(DeployError::Trapped),
        Deployment::Finished { gas, reverted, account } => if reverted {
            Err(DeployError::Reverted)
        } else {
            Ok((gas, account))
        },
    }
}

/// What a call amounts to: metering and returned bytes, unless it trapped, or reverted
/// where the step did not expect a revert.
pub open spec fn call_result(outcome: Invocation, revert_expected: bool) -> Result<
    (u64, Vec<u8>),
    CallError,
> {
    match outcome {
        Invocation::Trapped => Err(CallError::Trapped),
        Invocation::Finished { gas, reverted, data } => if reverted && !revert_expected {
            Err(CallError::Reverted)
        } else {
            Ok((gas, data))
        },
    }
}

/// The metering and the address of a deployed contract, unless the deployment trapped
/// or reverted.
pub fn deploy_contract(outcome: Deployment) -> (r: Result<(u64, Account), DeployError>)
    ensures
        r == deploy_result(outcome),
{
    match outcome {
        Deployment::Trapped => Err(DeployError::Trapped),
        Deployment::Finished { gas, reverted, account } => {
            if reverted {
                Err(DeployError::Reverted)
            } else {
                Ok((gas, account))
            }
        },
    }
}

/// The metering and the returned bytes of a call, unless the call trapped, or reverted
/// where the step did not expect a revert.
pub fn call_contract(outcome: Invocation, revert_expected: bool) -> (r: Result<
    (u64, Vec<u8>),
    CallError,
>)
    ensures
        r == call_result(outcome, revert_expected),
{
    match outcome {
        Invocation::Trapped => Err(CallError::Trapped),
        Invocation::Finished { gas, reverted, data } => {
            if reverted && !revert_expected {
                Err(CallError::Reverted)
            } else {
                Ok((gas, data))
            }
        },
    }
}

/// What ends a scenario before its last step.
#[derive(Clone, Copy, Debug, PartialEq, Eq)]
pub enum Fatal {
    /// The sandbox refused an artifact.
    Upload,
    Deploy(Backend, DeployError),
    Call(Backend, CallError),
    Decode(Backend, DecodeError),
    /// Two answers that had to be the same were not.
    Mismatch(Mismatch),
    /// The driver reported something that the scenario was not waiting for.
    OutOfTurn,
}

/// Where a scenario stands.
#[derive(Clone, Copy, Debug, PartialEq, Eq)]
pub enum Phase {
    NotStarted,
    /// An artifact has been sent and the sandbox has not answered yet.
    Uploading,
    ArtifactsLoaded,
    /// The step at hand has been issued to the backend whose turn it is.
    Running,
    Completed,
    Aborted,
}

/// What the driver reports.
#[derive(Clone, Copy, Debug, PartialEq, Eq)]
pub enum Event {
    /// The driver is ready to upload.
    Begin,
    /// The sandbox accepted the artifact that was sent last.
    Uploaded,
    /// The sandbox refused the artifact that was sent last.
    UploadFailed,
    /// The driver is ready for the first step.
    Start,
    /// The step at hand succeeded on the backend whose turn it is.
    Done { gas: u64 },
    /// The step at hand failed on the backend whose turn it is.
    Failed(Fatal),
}

/// What the driver is to do next.
#[derive(Clone, Copy, Debug, PartialEq, Eq)]
pub enum Action {
    /// Nothing yet: wait for the next event.
    Wait,
    /// Send the artifact with this index in upload order.
    Upload { index: usize },
    /// Send the step with this index to this backend.
    Issue { step: usize, backend: Backend },
    /// Every step is done on both backends.
    Finish,
    /// Stop the scenario for this reason.
    Abort(Fatal),
    /// The scenario is over; the event changes nothing.
    Halt,
}

/// A scenario as the contracts see it.
pub struct State {
    /// How many artifacts are to be uploaded.
    pub uploads: nat,
    /// How many of them the sandbox has accepted.
    pub uploaded: nat,
    pub steps: nat,
    pub phase: Phase,
    pub step: nat,
    pub turn: Backend,
    pub pending: u64,
    pub measured: Seq<(u64, u64)>,
    pub failure: Option<Fatal>,
}

/// A scenario of a fixed number of steps.
pub struct Scenario {
    uploads: usize,
    uploaded: usize,
    steps: usize,
    phase: Phase,
    step: usize,
    turn: Backend,
    pending: u64,
    measured: Vec<(u64, u64)>,
    failure: Option<Fatal>,
}

impl State {
    /// No more event is taken.
    pub open spec fn terminal(self) -> bool {
        self.phase == Phase::Completed || self.phase == Phase::Aborted
    }

    /// One pair of meterings for each step that both backends have done, no pair for
    /// any other, no step before every artifact is accepted, and a failure exactly where
    /// the scenario was aborted.
    pub open spec fn wf(self) -> bool {
        &&& self.measured.len() == self.step
        &&& self.step <= self.steps <= usize::MAX
        &&& self.uploaded <= self.uploads <= usize::MAX
        &&& self.phase == Phase::NotStarted ==> self.uploaded == 0
        &&& self.phase == Phase::Uploading ==> self.uploaded < self.uploads
        &&& (self.phase == Phase::ArtifactsLoaded || self.phase == Phase::Running || self.phase
            == Phase::Completed) ==> self.uploaded == self.uploads
        &&& self.uploaded < self.uploads ==> self.step == 0
        &&& self.phase == Phase::Running ==> self.step < self.steps
        &&& self.phase == Phase::Completed ==> self.step == self.steps
        &&& (self.phase == Phase::NotStarted || self.phase == Phase::Uploading || self.phase
            == Phase::ArtifactsLoaded) ==> self.step == 0
        &&& self.failure is Some <==> self.phase == Phase::Aborted
    }

    pub open spec fn aborted(self, cause: Fatal) -> (State, Action) {
        (State { phase: Phase::Aborted, failure: Some(cause), ..self }, Action::Abort(cause))
    }

    /// The scenario after `event`, and what the driver is to do.
    pub open spec fn next(self, event: Event) -> (State, Action) {
        match self.phase {
            Phase::Completed | Phase::Aborted => (self, Action::Halt),
            Phase::NotStarted => match event {
                Event::Begin => if self.uploads == 0 {
                    (State { phase: Phase::ArtifactsLoaded, ..self }, Action::Wait)
                } else {
                    (State { phase: Phase::Uploading, ..self }, Action::Upload { index: 0 })
                },
                _ => self.aborted(Fatal::OutOfTurn),
            },
            Phase::Uploading => match event {
                Event::Uploaded => if self.uploaded + 1 < self.uploads {
                    (
                        State { uploaded: self.uploaded + 1, ..self },
                        Action::Upload { index: (self.uploaded + 1) as usize },
                    )
                } else {
                    (
                        State {
                            phase: Phase::ArtifactsLoaded,
                            uploaded: self.uploaded + 1,
                            ..self
                        },
                        Action::Wait,
                    )
                },
                Event::UploadFailed => self.aborted(Fatal::Upload),
                _ => self.aborted(Fatal::OutOfTurn),
            },
            Phase::ArtifactsLoaded => match event {
                Event::Start => if self.steps == 0 {
                    (State { phase: Phase::Completed, ..self }, Action::Finish)
                } else {
                    (
                        State { phase: Phase::Running, turn: Backend::Riscv, ..self },
                        Action::Issue { step: 0, backend: Backend::Riscv },
                    )
                },
                _ => self.aborted(Fatal::OutOfTurn),
            },
            Phase::Running => match event {
                Event::Done { gas } => match self.turn {
                    Backend::Riscv => (
                        State { turn: Backend::Wasm, pending: gas, ..self },
                        Action::Issue { step: self.step as usize, backend: Backend::Wasm },
                    ),
                    Backend::Wasm => {
                        let measured = self.measured.push((self.pending, gas));
                        let step = self.step + 1;
                        if step < self.steps {
                            (
                                State { turn: Backend::Riscv, step, measured, ..self },
                                Action::Issue { step: step as usize, backend: Backend::Riscv },
                            )
                        } else {
                            (
                                State { phase: Phase::Completed, step, measured, ..self },
                                Action::Finish,
                            )
                        }
                    },
                },
                Event::Failed(cause) => self.aborted(cause),
                _ => self.aborted(Fatal::OutOfTurn),
            },
        }
    }

    /// The actions that a run of events draws, one for each event.
    pub open spec fn actions(self, events: Seq<Event>) -> Seq<Action>
        decreases events.len(),
    {
        if events.len() == 0 {
            Seq::empty()
        } else {
            seq![self.next(events[0]).1] + self.next(events[0]).0.actions(events.skip(1))
        }
    }
}

impl Scenario {
    pub closed spec fn view(&self) -> State {
        State {
            uploads: self.uploads as nat,
            uploaded: self.uploaded as nat,
            steps: self.steps as nat,
            phase: self.phase,
            step: self.step as nat,
            turn: self.turn,
            pending: self.pending,
            measured: self.measured@,
            failure: self.failure,
        }
    }

    /// A scenario of `uploads` artifacts and `steps` steps, before anything was sent.
    pub fn new(steps: usize, uploads: usize) -> (s: Scenario)
        ensures
            s@.wf(),
            s@ == (State {
                uploads: uploads as nat,
                uploaded: 0,
                steps: steps as nat,
                phase: Phase::NotStarted,
                step: 0,
                turn: Backend::Riscv,
                pending: 0,
                measured: Seq::empty(),
                failure: None,
            }),
    {
        Scenario {
            uploads,
            uploaded: 0,
            steps,
            phase: Phase::NotStarted,
            step: 0,
            turn: Backend::Riscv,
            pending: 0,
            measured: Vec::new(),
            failure: None,
        }
    }

    fn abort(&mut self, cause: Fatal) -> (action: Action)
        requires
            old(self)@.wf(),
            !old(self)@.terminal(),
        ensures
            (final(self)@, action) == old(self)@.aborted(cause),
            final(self)@.wf(),
    {
        self.phase = Phase::Aborted;
        self.failure = Some(cause);
        Action::Abort(cause)
    }

    /// Takes what the driver reports and says what it is to do next.
    pub fn advance(&mut self, event: Event) -> (action: Action)
        requires
            old(self)@.wf(),
        ensures
            (final(self)@, action) == old(self)@.next(event),
            final(self)@.wf(),
    {
        match self.phase {
            Phase::Completed | Phase::Aborted => Action::Halt,
            Phase::NotStarted => match event {
                Event::Begin => {
                    if self.uploads == 0 {
                        self.phase = Phase::ArtifactsLoaded;
                        Action::Wait
                    } else {
                        self.phase = Phase::Uploading;
                        Action::Upload { index: 0 }
                    }
                },
                _ => self.abort(Fatal::OutOfTurn),
            },
            Phase::Uploading => match event {
                Event::Uploaded => {
                    self.uploaded = self.uploaded + 1;
                    if self.uploaded < self.uploads {
                        Action::Upload { index: self.uploaded }
                    } else {
                        self.phase = Phase::ArtifactsLoaded;
                        Action::Wait
                    }
                },
                Event::UploadFailed => self.abort(Fatal::Upload),
                _ => self.abort(Fatal::OutOfTurn),
            },
            Phase::ArtifactsLoaded => match event {
                Event::Start => {
                    if self.steps == 0 {
                        self.phase = Phase::Completed;
                        Action::Finish
                    } else {
                        self.phase = Phase::Running;
                        self.turn = Backend::Riscv;
                        Action::Issue { step: 0, backend: Backend::Riscv }
                    }
                },
                _ => self.abort(Fatal::OutOfTurn),
            },
            Phase::Running => match event {
                Event::Done { gas } => match self.turn {
                    Backend::Riscv => {
                        self.turn = Backend::Wasm;
                        self.pending = gas;
                        Action::Issue { step: self.step, backend: Backend::Wasm }
                    },
                    Backend::Wasm => {
                        self.measured.push((self.pending, gas));
                        self.step = self.step + 1;
                        if self.step < self.steps {
                            self.turn = Backend::Riscv;
                            Action::Issue { step: self.step, backend: Backend::Riscv }
                        } else {
                            self.phase = Phase::Completed;
                            Action::Finish
                        }
                    },
                },
                Event::Failed(cause) => self.abort(cause),
                _ => self.abort(Fatal::OutOfTurn),
            },
        }
    }

    pub fn phase(&self) -> (p: Phase)
        ensures
            p == self@.phase,
    {
        self.phase
    }

    /// Why the scenario was aborted, if it was.
    pub fn failure(&self) -> (f: Option<Fatal>)
        ensures
            f == self@.failure,
    {
        self.failure
    }

    /// The number of artifacts that the sandbox has accepted.
    pub fn uploaded(&self) -> (n: usize)
        ensures
            n == self@.uploaded,
    {
        self.uploaded
    }

    /// The number of steps that both backends have done.
    pub fn completed_steps(&self) -> (n: usize)
        ensures
            n == self@.step,
    {
        self.step
    }

    /// The meterings of a step that both backends have done: native first.
    pub fn measured(&self, step: usize) -> (pair: (u64, u64))
        requires
            self@.wf(),
            step < self@.step,
        ensures
            pair == self@.measured[step as int],
    {
        self.measured[step]
    }
}

/// A scenario that is over stays as it is and issues nothing, whatever is reported.
pub proof fn lemma_terminal_is_final(s: State, event: Event)
    requires
        s.terminal(),
    ensures
        s.next(event) == (s, Action::Halt),
{
}

/// A failure ends the scenario at once, wherever it stands: the answer is to abort, and
/// whatever is reported afterwards draws no step, only `Halt`. While steps are running
/// the scenario keeps the very cause that was reported.
pub proof fn lemma_nothing_issued_after_fatal(s: State, cause: Fatal, later: Seq<Event>)
    requires
        !s.terminal(),
    ensures
        s.next(Event::Failed(cause)).1 is Abort,
        s.next(Event::Failed(cause)).0.phase == Phase::Aborted,
        s.phase == Phase::Running ==> s.next(Event::Failed(cause)).1 == Action::Abort(cause)
            && s.next(Event::Failed(cause)).0.failure == Some(cause),
        s.next(Event::Failed(cause)).0.measured == s.measured,
        s.next(Event::Failed(cause)).0.actions(later).len() == later.len(),
        forall|i: int|
            0 <= i < later.len() ==> #[trigger] s.next(Event::Failed(cause)).0.actions(later)[i]
                == Action::Halt,
{
    lemma_halted_forever(s.next(Event::Failed(cause)).0, later);
}

/// From a scenario that is over, every event draws `Halt`.
pub proof fn lemma_halted_forever(s: State, events: Seq<Event>)
    requires
        s.terminal(),
    ensures
        s.actions(events).len() == events.len(),
        forall|i: int| 0 <= i < events.len() ==> #[trigger] s.actions(events)[i] == Action::Halt,
    decreases events.len(),
{
    if events.len() > 0 {
        lemma_halted_forever(s, events.skip(1));
        assert(s.next(events[0]) == (s, Action::Halt));
    }
}

/// Artifacts go out one at a time and in order: the first when the driver begins, each
/// further one only when the sandbox has accepted the one before it, and never more
/// than there are.
pub proof fn lemma_uploads_in_order(s: State, event: Event)
    requires
        s.wf(),
    ensures
        match s.next(event).1 {
            Action::Upload { index } => index < s.uploads && index == s.next(event).0.uploaded
                && ((index == 0 && s.phase == Phase::NotStarted && event == Event::Begin) || (index
                == s.uploaded + 1 && s.phase == Phase::Uploading && event == Event::Uploaded)),
            Action::Issue { step, backend } => s.uploaded == s.uploads,
            _ => true,
        },
{
}

/// A refused upload ends the scenario at once: the artifacts behind the refused one are
/// never sent, and no step is issued, whatever is reported afterwards.
pub proof fn lemma_nothing_sent_after_refused_upload(s: State, later: Seq<Event>)
    requires
        s.phase == Phase::Uploading,
    ensures
        s.next(Event::UploadFailed).1 == Action::Abort(Fatal::Upload),
        s.next(Event::UploadFailed).0.phase == Phase::Aborted,
        s.next(Event::UploadFailed).0.failure == Some(Fatal::Upload),
        s.next(Event::UploadFailed).0.uploaded == s.uploaded,
        s.next(Event::UploadFailed).0.actions(later).len() == later.len(),
        forall|i: int|
            0 <= i < later.len() ==> #[trigger] s.next(Event::UploadFailed).0.actions(later)[i]
                == Action::Halt,
{
    lemma_halted_forever(s.next(Event::UploadFailed).0, later);
}

/// Lock-step: a step goes to the bytecode backend only when the native backend has done
/// that very step, and the next step goes to the native backend only when the bytecode
/// backend has done the one before it.
pub proof fn lemma_lock_step(s: State, event: Event)
    requires
        s.wf(),
    ensures
        s.next(event).0.wf(),
        match s.next(event).1 {
            Action::Issue { step, backend: Backend::Wasm } => s.phase == Phase::Running && s.turn
                == Backend::Riscv && s.step == step && event is Done,
            Action::Issue { step, backend: Backend::Riscv } => (step == 0 && s.phase
                == Phase::ArtifactsLoaded && event == Event::Start) || (step > 0 && s.phase
                == Phase::Running && s.turn == Backend::Wasm && s.step + 1 == step
                && event is Done),
            _ => true,
        },
        s.next(event).0.measured.len() == s.next(event).0.step,
{
}

} // verus!
