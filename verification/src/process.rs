//! The managed-process engine: a single-writer state machine that owns the
//! lifecycle of one external subprocess.
//!
//! The engine decides; it performs no work itself. Every event yields the next
//! state and one action for the caller to carry out (spawn a child, cancel the
//! running child, answer a state query, record an anomaly).

use vstd::prelude::*;

verus! {

/// A launch configuration the engine can compare and copy.
pub trait ProcessConfig: View + Sized {
    /// Equality by value.
    fn same_config(&self, other: &Self) -> (r: bool)
        ensures
            r == (self@ == other@),
    ;

    /// A copy equal by value.
    fn duplicate(&self) -> (r: Self)
        ensures
            r@ == self@,
    ;
}

/// The authoritative state of the managed subprocess.
#[derive(Debug, Clone)]
pub enum ProcessState<C> {
    /// No subprocess is running or starting.
    Stopped,
    /// A termination is in flight for the first configuration; the second, if
    /// present, is started once the child has exited.
    Stopping(C, Option<C>),
    /// The subprocess has signalled readiness and serves the configuration.
    Running(C),
    /// A subprocess was spawned with the configuration and is not ready yet.
    Starting(C),
}

/// The messages that drive the engine.
#[derive(Debug, Clone)]
pub enum ProcessProtocol<C> {
    /// The child signalled readiness.
    ProcessStarted,
    /// The child exited; the exit code is present when it ended with an error.
    ProcessFinished(Option<i32>),
    /// Converge toward running the given configuration.
    StartProcess(C),
    /// Converge toward no process.
    StopProcess,
    /// Report the current state.
    ReadProcessState,
}

/// Something that should not have happened and is worth recording.
#[derive(Debug, Clone, Copy, PartialEq, Eq, Structural)]
pub enum Anomaly {
    /// The child exited although no termination was requested, or an exit
    /// was reported while no child was tracked.
    UnexpectedExit,
    /// Readiness was signalled while no child was tracked.
    StartedWithoutChild,
}

/// What the caller has to do after an event was handled.
#[derive(Debug, Clone)]
pub enum ProcessAction<C> {
    /// Nothing.
    Idle,
    /// Spawn a child with the configuration and arm a fresh cancel signal.
    Spawn(C),
    /// Deliver the armed cancel signal to the child.
    Cancel,
    /// Send the snapshot to whoever asked.
    Reply(ProcessState<C>),
    /// Record the anomaly.
    Report(Anomaly),
}

/// Mathematical model of [`ProcessState`].
pub ghost enum StateModel<V> {
    Stopped,
    Stopping(V, Option<V>),
    Running(V),
    Starting(V),
}

/// Mathematical model of [`ProcessProtocol`].
pub ghost enum EventModel<V> {
    ProcessStarted,
    ProcessFinished(Option<i32>),
    StartProcess(V),
    StopProcess,
    ReadProcessState,
}

/// Mathematical model of [`ProcessAction`].
pub ghost enum ActionModel<V> {
    Idle,
    Spawn(V),
    Cancel,
    Reply(StateModel<V>),
    Report(Anomaly),
}

/// View of an optional configuration.
pub open spec fn option_view<C: View>(o: Option<C>) -> Option<C::V> {
    match o {
        Some(c) => Some(c@),
        None => None,
    }
}

impl<C: View> View for ProcessState<C> {
    type V = StateModel<C::V>;

    open spec fn view(&self) -> StateModel<C::V> {
        match *self {
            ProcessState::Stopped => StateModel::Stopped,
            ProcessState::Stopping(c, p) => StateModel::Stopping(c@, option_view(p)),
            ProcessState::Running(c) => StateModel::Running(c@),
            ProcessState::Starting(c) => StateModel::Starting(c@),
        }
    }
}

impl<C: View> View for ProcessProtocol<C> {
    type V = EventModel<C::V>;

    open spec fn view(&self) -> EventModel<C::V> {
        match *self {
            ProcessProtocol::ProcessStarted => EventModel::ProcessStarted,
            ProcessProtocol::ProcessFinished(code) => EventModel::ProcessFinished(code),
            ProcessProtocol::StartProcess(c) => EventModel::StartProcess(c@),
            ProcessProtocol::StopProcess => EventModel::StopProcess,
            ProcessProtocol::ReadProcessState => EventModel::ReadProcessState,
        }
    }
}

impl<C: View> View for ProcessAction<C> {
    type V = ActionModel<C::V>;

    open spec fn view(&self) -> ActionModel<C::V> {
        match *self {
            ProcessAction::Idle => ActionModel::Idle,
            ProcessAction::Spawn(c) => ActionModel::Spawn(c@),
            ProcessAction::Cancel => ActionModel::Cancel,
            ProcessAction::Reply(s) => ActionModel::Reply(s@),
            ProcessAction::Report(a) => ActionModel::Report(a),
        }
    }
}

/// Next state and action when a start of `wanted` is requested.
pub open spec fn on_start<V>(s: StateModel<V>, wanted: V) -> (StateModel<V>, ActionModel<V>) {
    match s {
        StateModel::Stopped => (StateModel::Starting(wanted), ActionModel::Spawn(wanted)),
        StateModel::Starting(c) => if c == wanted {
            (s, ActionModel::Idle)
        } else {
            (StateModel::Stopping(c, Some(wanted)), ActionModel::Cancel)
        },
        StateModel::Running(c) => if c == wanted {
            (s, ActionModel::Idle)
        } else {
            (StateModel::Stopping(c, Some(wanted)), ActionModel::Cancel)
        },
        StateModel::Stopping(c, _) => (StateModel::Stopping(c, Some(wanted)), ActionModel::Idle),
    }
}

/// Next state and action when a stop is requested.
pub open spec fn on_stop<V>(s: StateModel<V>) -> (StateModel<V>, ActionModel<V>) {
    match s {
        StateModel::Stopped => (s, ActionModel::Idle),
        StateModel::Starting(c) => (StateModel::Stopping(c, None), ActionModel::Cancel),
        StateModel::Running(c) => (StateModel::Stopping(c, None), ActionModel::Cancel),
        StateModel::Stopping(c, _) => (StateModel::Stopping(c, None), ActionModel::Idle),
    }
}

/// Next state and action when the child signals readiness. A child may
/// signal readiness again while it runs, or while it is being terminated:
/// that changes nothing.
pub open spec fn on_started<V>(s: StateModel<V>) -> (StateModel<V>, ActionModel<V>) {
    match s {
        StateModel::Starting(c) => (StateModel::Running(c), ActionModel::Idle),
        StateModel::Stopped => (s, ActionModel::Report(Anomaly::StartedWithoutChild)),
        _ => (s, ActionModel::Idle),
    }
}

/// Next state and action when the child has exited.
pub open spec fn on_finished<V>(s: StateModel<V>) -> (StateModel<V>, ActionModel<V>) {
    match s {
        StateModel::Stopping(_, Some(next)) => (StateModel::Starting(next), ActionModel::Spawn(next)),
        StateModel::Stopping(_, None) => (StateModel::Stopped, ActionModel::Idle),
        _ => (StateModel::Stopped, ActionModel::Report(Anomaly::UnexpectedExit)),
    }
}

/// The transition function of the engine: current state and event determine
/// the next state and the action.
pub open spec fn step<V>(s: StateModel<V>, e: EventModel<V>) -> (StateModel<V>, ActionModel<V>) {
    match e {
        EventModel::StartProcess(wanted) => on_start(s, wanted),
        EventModel::StopProcess => on_stop(s),
        EventModel::ProcessStarted => on_started(s),
        EventModel::ProcessFinished(_) => on_finished(s),
        EventModel::ReadProcessState => (s, ActionModel::Reply(s)),
    }
}

/// Whether a cancel signal is outstanding in the given state: exactly while
/// a child is starting or running.
pub open spec fn cancel_outstanding<V>(s: StateModel<V>) -> bool {
    s is Starting || s is Running
}

/// Whether a child process exists in the given state.
pub open spec fn child_exists<V>(s: StateModel<V>) -> bool {
    !(s is Stopped)
}

impl<C: ProcessConfig> ProcessState<C> {
    /// A copy equal by value.
    pub fn duplicate(&self) -> (r: ProcessState<C>)
        ensures
            r@ == self@,
    {
        match self {
            ProcessState::Stopped => ProcessState::Stopped,
            ProcessState::Stopping(c, None) => ProcessState::Stopping(c.duplicate(), None),
            ProcessState::Stopping(c, Some(p)) => ProcessState::Stopping(
                c.duplicate(),
                Some(p.duplicate()),
            ),
            ProcessState::Running(c) => ProcessState::Running(c.duplicate()),
            ProcessState::Starting(c) => ProcessState::Starting(c.duplicate()),
        }
    }
}

/// Owner of the process state; the only writer.
pub struct ProcessStateManager<C: ProcessConfig> {
    state: ProcessState<C>,
    cancel_armed: bool,
}

impl<C: ProcessConfig> View for ProcessStateManager<C> {
    type V = StateModel<C::V>;

    closed spec fn view(&self) -> StateModel<C::V> {
        self.state@
    }
}

impl<C: ProcessConfig> ProcessStateManager<C> {
    /// Whether a cancel signal is held for the current child.
    pub closed spec fn spec_cancel_armed(&self) -> bool {
        self.cancel_armed
    }

    /// The manager holds a cancel signal exactly while a child is starting or
    /// running.
    pub open spec fn wf(&self) -> bool {
        self.spec_cancel_armed() == cancel_outstanding(self@)
    }

    /// A manager with no process.
    pub fn new() -> (m: Self)
        ensures
            m@ == StateModel::<C::V>::Stopped,
            m.wf(),
    {
        ProcessStateManager { state: ProcessState::Stopped, cancel_armed: false }
    }

    /// Whether a cancel signal is held for the current child.
    pub fn cancel_armed(&self) -> (r: bool)
        ensures
            r == self.spec_cancel_armed(),
    {
        self.cancel_armed
    }

    /// Handles the exit of the child: starts the pending configuration if a
    /// swap was in progress, else settles on stopped.
    pub fn on_process_finished(&mut self, exit_code: Option<i32>) -> (action: ProcessAction<C>)
        requires
            old(self).wf(),
        ensures
            final(self).wf(),
            (final(self)@, action@) == on_finished(old(self)@),
            (final(self)@, action@) == step(old(self)@, EventModel::ProcessFinished(exit_code)),
    {
        let mut state = ProcessState::Stopped;
        core::mem::swap(&mut self.state, &mut state);
        match state {
            ProcessState::Stopping(_, Some(next)) => {
                let spawn = next.duplicate();
                self.state = ProcessState::Starting(next);
                self.cancel_armed = true;
                ProcessAction::Spawn(spawn)
            },
            ProcessState::Stopping(_, None) => {
                self.cancel_armed = false;
                ProcessAction::Idle
            },
            _ => {
                self.cancel_armed = false;
                ProcessAction::Report(Anomaly::UnexpectedExit)
            },
        }
    }

    /// Handles the readiness signal of the child.
    pub fn on_process_started(&mut self) -> (action: ProcessAction<C>)
        requires
            old(self).wf(),
        ensures
            final(self).wf(),
            (final(self)@, action@) == on_started(old(self)@),
            (final(self)@, action@) == step(old(self)@, EventModel::ProcessStarted),
    {
        let mut state = ProcessState::Stopped;
        core::mem::swap(&mut self.state, &mut state);
        match state {
            ProcessState::Starting(c) => {
                self.state = ProcessState::Running(c);
                ProcessAction::Idle
            },
            ProcessState::Stopped => ProcessAction::Report(Anomaly::StartedWithoutChild),
            other => {
                self.state = other;
                ProcessAction::Idle
            },
        }
    }

    /// Handles a request to run `config`.
    pub fn on_start_process(&mut self, config: C) -> (action: ProcessAction<C>)
        requires
            old(self).wf(),
        ensures
            final(self).wf(),
            (final(self)@, action@) == on_start(old(self)@, config@),
            (final(self)@, action@) == step(old(self)@, EventModel::StartProcess(config@)),
    {
        let mut state = ProcessState::Stopped;
        core::mem::swap(&mut self.state, &mut state);
        match state {
            ProcessState::Running(current) => {
                if current.same_config(&config) {
                    self.state = ProcessState::Running(current);
                    ProcessAction::Idle
                } else {
                    self.state = ProcessState::Stopping(current, Some(config));
                    self.cancel_armed = false;
                    ProcessAction::Cancel
                }
            },
            ProcessState::Starting(current) => {
                if current.same_config(&config) {
                    self.state = ProcessState::Starting(current);
                    ProcessAction::Idle
                } else {
                    self.state = ProcessState::Stopping(current, Some(config));
                    self.cancel_armed = false;
                    ProcessAction::Cancel
                }
            },
            ProcessState::Stopping(current, _) => {
                self.state = ProcessState::Stopping(current, Some(config));
                ProcessAction::Idle
            },
            ProcessState::Stopped => {
                let spawn = config.duplicate();
                self.state = ProcessState::Starting(config);
                self.cancel_armed = true;
                ProcessAction::Spawn(spawn)
            },
        }
    }

    /// Handles a request to stop.
    pub fn on_stop_process(&mut self) -> (action: ProcessAction<C>)
        requires
            old(self).wf(),
        ensures
            final(self).wf(),
            (final(self)@, action@) == on_stop(old(self)@),
            (final(self)@, action@) == step(old(self)@, EventModel::StopProcess),
    {
        let mut state = ProcessState::Stopped;
        core::mem::swap(&mut self.state, &mut state);
        match state {
            ProcessState::Running(current) => {
                self.state = ProcessState::Stopping(current, None);
                self.cancel_armed = false;
                ProcessAction::Cancel
            },
            ProcessState::Starting(current) => {
                self.state = ProcessState::Stopping(current, None);
                self.cancel_armed = false;
                ProcessAction::Cancel
            },
            ProcessState::Stopping(current, _) => {
                self.state = ProcessState::Stopping(current, None);
                ProcessAction::Idle
            },
            ProcessState::Stopped => ProcessAction::Idle,
        }
    }

    /// A snapshot of the current state.
    pub fn on_read_config(&self) -> (snapshot: ProcessState<C>)
        ensures
            snapshot@ == self@,
    {
        self.state.duplicate()
    }

    /// Handles one message: the body of the engine's event loop.
    pub fn handle(&mut self, event: ProcessProtocol<C>) -> (action: ProcessAction<C>)
        requires
            old(self).wf(),
        ensures
            final(self).wf(),
            (final(self)@, action@) == step(old(self)@, event@),
    {
        match event {
            ProcessProtocol::ProcessFinished(code) => self.on_process_finished(code),
            ProcessProtocol::ProcessStarted => self.on_process_started(),
            ProcessProtocol::StartProcess(config) => self.on_start_process(config),
            ProcessProtocol::StopProcess => self.on_stop_process(),
            ProcessProtocol::ReadProcessState => ProcessAction::Reply(self.on_read_config()),
        }
    }
}

/// How the supervision of a child ended.
#[derive(Debug, Clone, Copy, PartialEq, Eq, Structural)]
pub enum ChildOutcome {
    /// The child exited by itself, with success or with the given code.
    Exited { success: bool, code: i32 },
    /// The cancel signal arrived and the child was killed.
    Cancelled,
}

/// The exit code the engine is told of: that of a child that exited with
/// an error, and none otherwise.
pub open spec fn reported_code(outcome: ChildOutcome) -> Option<i32> {
    match outcome {
        ChildOutcome::Exited { success, code } => if success {
            None
        } else {
            Some(code)
        },
        ChildOutcome::Cancelled => None,
    }
}

/// The message a supervisor sends the engine when its child is gone.
pub fn finished_event<C: View>(outcome: ChildOutcome) -> (event: ProcessProtocol<C>)
    ensures
        event@ == EventModel::<C::V>::ProcessFinished(reported_code(outcome)),
{
    match outcome {
        ChildOutcome::Exited { success, code } => {
            if success {
                ProcessProtocol::ProcessFinished(None)
            } else {
                ProcessProtocol::ProcessFinished(Some(code))
            }
        },
        ChildOutcome::Cancelled => ProcessProtocol::ProcessFinished(None),
    }
}

/// What one line of the child's error stream comes to, given whether
/// readiness was announced before and whether the line announces it:
/// whether readiness has been announced after the line, and whether it is to
/// be announced now. Readiness is announced at the first such line and never
/// again.
pub open spec fn spec_readiness(announced: bool, ready_line: bool) -> (bool, bool) {
    (announced || ready_line, !announced && ready_line)
}

/// What one line of the child's error stream comes to.
pub fn readiness_step(announced: bool, ready_line: bool) -> (r: (bool, bool))
    ensures
        r == spec_readiness(announced, ready_line),
{
    (announced || ready_line, !announced && ready_line)
}

/// Whether readiness has been announced once the lines were read, each line
/// given as whether it announces readiness.
pub open spec fn announced_after(lines: Seq<bool>) -> bool
    decreases lines.len(),
{
    if lines.len() == 0 {
        false
    } else {
        spec_readiness(announced_after(lines.drop_last()), lines.last()).0
    }
}

/// How often readiness was announced while the lines were read.
pub open spec fn announcements(lines: Seq<bool>) -> nat
    decreases lines.len(),
{
    if lines.len() == 0 {
        0
    } else {
        announcements(lines.drop_last()) + if spec_readiness(
            announced_after(lines.drop_last()),
            lines.last(),
        ).1 {
            1nat
        } else {
            0nat
        }
    }
}

/// Readiness is announced once if some line announces it, and never
/// otherwise.
pub proof fn lemma_announced_at_most_once(lines: Seq<bool>)
    ensures
        announced_after(lines) <==> exists|i: int| 0 <= i < lines.len() && lines[i],
        announcements(lines) == if announced_after(lines) {
            1nat
        } else {
            0nat
        },
    decreases lines.len(),
{
    if lines.len() > 0 {
        let shorter = lines.drop_last();
        lemma_announced_at_most_once(shorter);
        if exists|i: int| 0 <= i < shorter.len() && shorter[i] {
            let i = choose|i: int| 0 <= i < shorter.len() && shorter[i];
            assert(lines[i]);
        }
        if exists|i: int| 0 <= i < lines.len() && lines[i] {
            let i = choose|i: int| 0 <= i < lines.len() && lines[i];
            if i < shorter.len() {
                assert(shorter[i]);
            } else {
                assert(lines.last());
            }
        }
        if lines.last() {
            assert(lines[lines.len() - 1]);
        }
    }
}

} // verus!
