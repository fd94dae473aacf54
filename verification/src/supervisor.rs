//! The slot that owns the one worker process, and the course of a launch.
//!
//! The slot is changed through `&mut`, so whoever shares a [`Supervisor`]
//! between tasks has to give each change exclusive access. A process that
//! leaves the slot is always handed to the caller, who terminates it.

use crate::engine::{
    binary_not_found, build_args, launch_args, sidecar, sidecar_name, spawn_failed, EngineConfig,
    EngineError, EngineErrorView,
};
use vstd::prelude::*;

verus! {

/// The worker process that the supervisor owns, with how it was launched.
#[derive(Debug, PartialEq, Eq)]
pub struct ManagedProcess<H> {
    /// The handle by which the process is terminated.
    pub handle: H,
    /// The configuration it was launched with.
    pub config: EngineConfig,
    /// When it was launched, on the caller's clock.
    pub launched_at: u64,
}

/// A change of the slot.
pub enum SlotOp<P> {
    /// Empty the slot.
    Clear,
    /// Put a process into the slot.
    Install(P),
}

/// The slot after `op`, and what `op` released from it: either change
/// releases whatever the slot held.
pub open spec fn slot_apply<P>(slot: Option<P>, op: SlotOp<P>) -> (Option<P>, Option<P>) {
    match op {
        SlotOp::Clear => (None, slot),
        SlotOp::Install(p) => (Some(p), slot),
    }
}

/// Owner of at most one worker process.
pub struct Supervisor<H> {
    slot: Option<ManagedProcess<H>>,
}

impl<H> Supervisor<H> {
    /// The process in the slot, if any.
    pub closed spec fn occupant(&self) -> Option<ManagedProcess<H>> {
        self.slot
    }

    /// A supervisor that owns no process.
    pub fn new() -> (s: Self)
        ensures
            s.occupant() is None,
    {
        Supervisor { slot: None }
    }

    /// Whether the slot holds a process.
    pub fn is_occupied(&self) -> (b: bool)
        ensures
            b == self.occupant() is Some,
    {
        self.slot.is_some()
    }

    /// The process in the slot, if any.
    pub fn current(&self) -> (p: Option<&ManagedProcess<H>>)
        ensures
            match p {
                Some(process) => self.occupant() == Some(*process),
                None => self.occupant() is None,
            },
    {
        self.slot.as_ref()
    }

    /// Empties the slot and hands out the process it held, for the caller to
    /// terminate.
    pub fn stop(&mut self) -> (released: Option<ManagedProcess<H>>)
        ensures
            (final(self).occupant(), released) == slot_apply(old(self).occupant(), SlotOp::Clear),
    {
        self.slot.take()
    }

    /// Puts `process` into the slot and hands out the process it displaced,
    /// for the caller to terminate.
    pub fn install(&mut self, process: ManagedProcess<H>) -> (released: Option<ManagedProcess<H>>)
        ensures
            (final(self).occupant(), released) == slot_apply(
                old(self).occupant(),
                SlotOp::Install(process),
            ),
    {
        let released = self.slot.take();
        self.slot = Some(process);
        released
    }
}

/// How far a launch has come.
#[derive(Clone, Copy, Debug, PartialEq, Eq, Structural)]
pub enum StartPhase {
    /// The process that the slot held is being terminated.
    Terminating,
    /// The worker executable is being looked up.
    Resolving,
    /// The worker is being spawned.
    Spawning,
    /// A process that the new one displaced is being terminated.
    Replacing,
    /// The watcher of the new process is being launched.
    Launching,
    /// The launch has returned.
    Finished,
}

/// What the caller reports back after performing a [`StartAction`].
#[derive(Debug, PartialEq, Eq)]
pub enum StartEvent<H> {
    /// The termination was attempted; whether it took effect is not asked.
    Terminated,
    /// The worker executable was found.
    BinaryResolved,
    /// The worker executable was not found.
    BinaryMissing(String),
    /// The worker runs.
    Spawned { handle: H, launched_at: u64 },
    /// The operating system refused to create the process.
    SpawnFailed(String),
    /// The watcher runs.
    WatcherLaunched,
}

/// A [`StartEvent`] with its texts as sequences of characters.
pub enum StartEventView<H> {
    Terminated,
    BinaryResolved,
    BinaryMissing(Seq<char>),
    Spawned { handle: H, launched_at: u64 },
    SpawnFailed(Seq<char>),
    WatcherLaunched,
}

impl<H> View for StartEvent<H> {
    type V = StartEventView<H>;

    open spec fn view(&self) -> StartEventView<H> {
        match *self {
            StartEvent::Terminated => StartEventView::Terminated,
            StartEvent::BinaryResolved => StartEventView::BinaryResolved,
            StartEvent::BinaryMissing(detail) => StartEventView::BinaryMissing(detail@),
            StartEvent::Spawned { handle, launched_at } => StartEventView::Spawned {
                handle,
                launched_at,
            },
            StartEvent::SpawnFailed(detail) => StartEventView::SpawnFailed(detail@),
            StartEvent::WatcherLaunched => StartEventView::WatcherLaunched,
        }
    }
}

/// What the caller is asked to do next in a launch.
#[derive(Debug, PartialEq, Eq)]
pub enum StartAction<H> {
    /// Terminate this process, which has left the slot. Best effort: a
    /// failure is not reported back.
    Terminate(ManagedProcess<H>),
    /// Look up the worker executable of this name.
    ResolveBinary(&'static str),
    /// Spawn the worker with these arguments.
    Spawn(Vec<String>),
    /// Launch the watcher of the process just spawned.
    LaunchWatcher,
    /// Return this to whoever asked for the launch.
    Finish(Result<(), EngineError>),
}

/// A [`StartAction`] with its texts as sequences of characters.
pub enum StartActionView<H> {
    Terminate(ManagedProcess<H>),
    ResolveBinary(Seq<char>),
    Spawn(Seq<Seq<char>>),
    LaunchWatcher,
    Finish(Result<(), EngineErrorView>),
}

impl<H> View for StartAction<H> {
    type V = StartActionView<H>;

    open spec fn view(&self) -> StartActionView<H> {
        match *self {
            StartAction::Terminate(process) => StartActionView::Terminate(process),
            StartAction::ResolveBinary(name) => StartActionView::ResolveBinary(name@),
            StartAction::Spawn(args) => StartActionView::Spawn(args.deep_view()),
            StartAction::LaunchWatcher => StartActionView::LaunchWatcher,
            StartAction::Finish(Ok(())) => StartActionView::Finish(Ok(())),
            StartAction::Finish(Err(e)) => StartActionView::Finish(Err(e@)),
        }
    }
}

/// The state of a launch as the contracts see it.
pub struct StartModel {
    pub phase: StartPhase,
    pub config: EngineConfig,
}

/// What a step of a launch yields: the launch, the slot, and the action
/// that the caller is asked for.
pub struct StartStep<H> {
    pub launch: StartModel,
    pub slot: Option<ManagedProcess<H>>,
    pub action: StartActionView<H>,
}

/// The first step of a launch: the slot is emptied, and what it held is
/// terminated before anything else is done.
pub open spec fn start_begin<H>(config: EngineConfig, slot: Option<ManagedProcess<H>>) -> StartStep<
    H,
> {
    match slot {
        Some(previous) => StartStep {
            launch: StartModel { phase: StartPhase::Terminating, config },
            slot: None,
            action: StartActionView::Terminate(previous),
        },
        None => StartStep {
            launch: StartModel { phase: StartPhase::Resolving, config },
            slot: None,
            action: StartActionView::ResolveBinary(sidecar_name()),
        },
    }
}

/// The step that `event` causes, or `None` where `event` does not answer
/// the action that the launch is waiting for.
pub open spec fn start_step<H>(
    launch: StartModel,
    slot: Option<ManagedProcess<H>>,
    event: StartEventView<H>,
) -> Option<StartStep<H>> {
    let config = launch.config;
    match (launch.phase, event) {
        (StartPhase::Terminating, StartEventView::Terminated) => Some(
            StartStep {
                launch: StartModel { phase: StartPhase::Resolving, config },
                slot,
                action: StartActionView::ResolveBinary(sidecar_name()),
            },
        ),
        (StartPhase::Resolving, StartEventView::BinaryResolved) => Some(
            StartStep {
                launch: StartModel { phase: StartPhase::Spawning, config },
                slot,
                action: StartActionView::Spawn(launch_args(config)),
            },
        ),
        (StartPhase::Resolving, StartEventView::BinaryMissing(detail)) => Some(
            StartStep {
                launch: StartModel { phase: StartPhase::Finished, config },
                slot,
                action: StartActionView::Finish(Err(binary_not_found(detail))),
            },
        ),
        (StartPhase::Spawning, StartEventView::Spawned { handle, launched_at }) => {
            let process = ManagedProcess { handle, config, launched_at };
            match slot {
                Some(displaced) => Some(
                    StartStep {
                        launch: StartModel { phase: StartPhase::Replacing, config },
                        slot: Some(process),
                        action: StartActionView::Terminate(displaced),
                    },
                ),
                None => Some(
                    StartStep {
                        launch: StartModel { phase: StartPhase::Launching, config },
                        slot: Some(process),
                        action: StartActionView::LaunchWatcher,
                    },
                ),
            }
        },
        (StartPhase::Spawning, StartEventView::SpawnFailed(detail)) => Some(
            StartStep {
                launch: StartModel { phase: StartPhase::Finished, config },
                slot,
                action: StartActionView::Finish(Err(spawn_failed(detail))),
            },
        ),
        (StartPhase::Replacing, StartEventView::Terminated) => Some(
            StartStep {
                launch: StartModel { phase: StartPhase::Launching, config },
                slot,
                action: StartActionView::LaunchWatcher,
            },
        ),
        (StartPhase::Launching, StartEventView::WatcherLaunched) => Some(
            StartStep {
                launch: StartModel { phase: StartPhase::Finished, config },
                slot,
                action: StartActionView::Finish(Ok(())),
            },
        ),
        _ => None,
    }
}

/// One launch of the worker, from the request to its answer.
pub struct EngineStart {
    phase: StartPhase,
    config: EngineConfig,
}

impl View for EngineStart {
    type V = StartModel;

    closed spec fn view(&self) -> StartModel {
        StartModel { phase: self.phase, config: self.config }
    }
}

impl EngineStart {
    /// Begins a launch with `config`: empties `slot` and asks for the
    /// termination of what it held, or, if it held nothing, for the lookup
    /// of the worker executable.
    pub fn begin<H>(config: EngineConfig, slot: &mut Supervisor<H>) -> (r: (
        EngineStart,
        StartAction<H>,
    ))
        ensures
            r.0@ == start_begin(config, old(slot).occupant()).launch,
            final(slot).occupant() == start_begin(config, old(slot).occupant()).slot,
            r.1@ == start_begin(config, old(slot).occupant()).action,
    {
        match slot.stop() {
            Some(previous) => (
                EngineStart { phase: StartPhase::Terminating, config },
                StartAction::Terminate(previous),
            ),
            None => (
                EngineStart { phase: StartPhase::Resolving, config },
                StartAction::ResolveBinary(sidecar()),
            ),
        }
    }

    /// How far the launch has come.
    pub fn phase(&self) -> (phase: StartPhase)
        ensures
            phase == self@.phase,
    {
        self.phase
    }

    /// The configuration of the launch.
    pub fn config(&self) -> (config: &EngineConfig)
        ensures
            *config == self@.config,
    {
        &self.config
    }

    /// Takes the outcome of the action last asked for and answers with the
    /// next one. An event that does not answer that action is handed back
    /// and changes nothing.
    pub fn step<H>(&mut self, slot: &mut Supervisor<H>, event: StartEvent<H>) -> (r: Result<
        StartAction<H>,
        StartEvent<H>,
    >)
        ensures
            match start_step(old(self)@, old(slot).occupant(), event@) {
                Some(next) => {
                    &&& r matches Ok(action)
                    &&& action@ == next.action
                    &&& final(self)@ == next.launch
                    &&& final(slot).occupant() == next.slot
                },
                None => {
                    &&& r == Err::<StartAction<H>, StartEvent<H>>(event)
                    &&& final(self)@ == old(self)@
                    &&& final(slot).occupant() == old(slot).occupant()
                },
            },
    {
        match self.phase {
            StartPhase::Terminating => match event {
                StartEvent::Terminated => {
                    self.phase = StartPhase::Resolving;
                    Ok(StartAction::ResolveBinary(sidecar()))
                },
                other => Err(other),
            },
            StartPhase::Resolving => match event {
                StartEvent::BinaryResolved => {
                    self.phase = StartPhase::Spawning;
                    Ok(StartAction::Spawn(build_args(&self.config)))
                },
                StartEvent::BinaryMissing(detail) => {
                    self.phase = StartPhase::Finished;
                    Ok(StartAction::Finish(Err(EngineError::missing_binary(detail.as_str()))))
                },
                other => Err(other),
            },
            StartPhase::Spawning => match event {
                StartEvent::Spawned { handle, launched_at } => {
                    let process = ManagedProcess {
                        handle,
                        config: self.config.duplicate(),
                        launched_at,
                    };
                    match slot.install(process) {
                        Some(displaced) => {
                            self.phase = StartPhase::Replacing;
                            Ok(StartAction::Terminate(displaced))
                        },
                        None => {
                            self.phase = StartPhase::Launching;
                            Ok(StartAction::LaunchWatcher)
                        },
                    }
                },
                StartEvent::SpawnFailed(detail) => {
                    self.phase = StartPhase::Finished;
                    Ok(StartAction::Finish(Err(EngineError::refused_spawn(detail.as_str()))))
                },
                other => Err(other),
            },
            StartPhase::Replacing => match event {
                StartEvent::Terminated => {
                    self.phase = StartPhase::Launching;
                    Ok(StartAction::LaunchWatcher)
                },
                other => Err(other),
            },
            StartPhase::Launching => match event {
                StartEvent::WatcherLaunched => {
                    self.phase = StartPhase::Finished;
                    Ok(StartAction::Finish(Ok(())))
                },
                other => Err(other),
            },
            StartPhase::Finished => Err(event),
        }
    }
}

} // verus!
