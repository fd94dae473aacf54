use engine_supervisor::engine::{EngineConfig, EngineError};
use engine_supervisor::supervisor::{
    EngineStart, ManagedProcess, StartAction, StartEvent, StartPhase, Supervisor,
};

fn config(use_gpu: bool) -> EngineConfig {
    EngineConfig { model_path: "m.bin".to_string(), use_gpu, threads: 8, context_size: 4096 }
}

fn process(handle: u32, use_gpu: bool, launched_at: u64) -> ManagedProcess<u32> {
    ManagedProcess { handle, config: config(use_gpu), launched_at }
}

fn has_pair(args: &[String], flag: &str, value: &str) -> bool {
    args.windows(2).any(|w| w[0] == flag && w[1] == value)
}

/// Runs a launch in which every outside step succeeds, and returns the
/// actions it asked for, in order.
fn launch(
    slot: &mut Supervisor<u32>,
    use_gpu: bool,
    handle: u32,
    launched_at: u64,
) -> Vec<StartAction<u32>> {
    let (mut start, mut action) = EngineStart::begin(config(use_gpu), slot);
    let mut asked = Vec::new();
    loop {
        let event = match &action {
            StartAction::Terminate(_) => StartEvent::Terminated,
            StartAction::ResolveBinary(_) => StartEvent::BinaryResolved,
            StartAction::Spawn(_) => StartEvent::Spawned { handle, launched_at },
            StartAction::LaunchWatcher => StartEvent::WatcherLaunched,
            StartAction::Finish(_) => {
                asked.push(action);
                return asked;
            }
        };
        asked.push(action);
        action = start.step(slot, event).expect("the event answers the action");
    }
}

#[test]
fn new_supervisor_owns_nothing() {
    let mut slot: Supervisor<u32> = Supervisor::new();
    assert!(!slot.is_occupied());
    assert_eq!(slot.current(), None);
    assert_eq!(slot.stop(), None);
}

#[test]
fn install_then_stop_hands_the_process_out() {
    let mut slot: Supervisor<u32> = Supervisor::new();
    assert_eq!(slot.install(process(1, false, 10)), None);
    assert!(slot.is_occupied());
    assert_eq!(slot.current(), Some(&process(1, false, 10)));
    assert_eq!(slot.stop(), Some(process(1, false, 10)));
    assert!(!slot.is_occupied());
    assert_eq!(slot.stop(), None);
}

#[test]
fn install_hands_out_what_it_displaces() {
    let mut slot: Supervisor<u32> = Supervisor::new();
    slot.install(process(1, false, 10));
    assert_eq!(slot.install(process(2, true, 20)), Some(process(1, false, 10)));
    assert_eq!(slot.current(), Some(&process(2, true, 20)));
}

#[test]
fn launch_into_an_empty_slot() {
    let mut slot: Supervisor<u32> = Supervisor::new();
    let asked = launch(&mut slot, false, 1, 100);
    assert_eq!(asked.len(), 4);
    assert_eq!(asked[0], StartAction::ResolveBinary("binaries/llama-server"));
    match &asked[1] {
        StartAction::Spawn(args) => {
            assert!(has_pair(args, "--n-gpu-layers", "0"));
            assert!(has_pair(args, "--threads", "8"));
            assert!(has_pair(args, "--model", "m.bin"));
            assert!(has_pair(args, "-c", "4096"));
        }
        other => panic!("expected a spawn, got {:?}", other),
    }
    assert_eq!(asked[2], StartAction::LaunchWatcher);
    assert_eq!(asked[3], StartAction::Finish(Ok(())));
    assert_eq!(slot.current(), Some(&process(1, false, 100)));
}

#[test]
fn second_launch_terminates_the_first_process_before_returning() {
    let mut slot: Supervisor<u32> = Supervisor::new();
    launch(&mut slot, false, 1, 100);
    let asked = launch(&mut slot, true, 2, 200);
    assert_eq!(asked.len(), 5);
    assert_eq!(asked[0], StartAction::Terminate(process(1, false, 100)));
    assert_eq!(asked[1], StartAction::ResolveBinary("binaries/llama-server"));
    match &asked[2] {
        StartAction::Spawn(args) => {
            assert!(has_pair(args, "--n-gpu-layers", "99"));
            assert!(has_pair(args, "--threads", "8"));
        }
        other => panic!("expected a spawn, got {:?}", other),
    }
    assert_eq!(asked[3], StartAction::LaunchWatcher);
    assert_eq!(asked[4], StartAction::Finish(Ok(())));
    assert_eq!(slot.current(), Some(&process(2, true, 200)));
}

#[test]
fn begin_empties_the_slot_at_once() {
    let mut slot: Supervisor<u32> = Supervisor::new();
    slot.install(process(1, false, 100));
    let (start, action) = EngineStart::begin(config(true), &mut slot);
    assert_eq!(action, StartAction::Terminate(process(1, false, 100)));
    assert_eq!(start.phase(), StartPhase::Terminating);
    assert_eq!(start.config(), &config(true));
    assert!(!slot.is_occupied());
}

#[test]
fn failed_termination_does_not_stop_the_launch() {
    let mut slot: Supervisor<u32> = Supervisor::new();
    slot.install(process(1, false, 100));
    let (mut start, _) = EngineStart::begin(config(false), &mut slot);
    let action = start.step(&mut slot, StartEvent::Terminated);
    assert_eq!(action, Ok(StartAction::ResolveBinary("binaries/llama-server")));
    assert_eq!(start.phase(), StartPhase::Resolving);
}

#[test]
fn missing_binary_ends_the_launch() {
    let mut slot: Supervisor<u32> = Supervisor::new();
    let (mut start, _) = EngineStart::begin(config(false), &mut slot);
    let action = start.step(&mut slot, StartEvent::BinaryMissing("no sidecar".to_string()));
    assert_eq!(
        action,
        Ok(StartAction::Finish(Err(EngineError::BinaryNotFound(
            "Binary not found: no sidecar".to_string()
        ))))
    );
    assert_eq!(start.phase(), StartPhase::Finished);
    assert!(!slot.is_occupied());
}

#[test]
fn refused_spawn_ends_the_launch() {
    let mut slot: Supervisor<u32> = Supervisor::new();
    let (mut start, _) = EngineStart::begin(config(false), &mut slot);
    start.step(&mut slot, StartEvent::BinaryResolved).unwrap();
    assert_eq!(start.phase(), StartPhase::Spawning);
    let action = start.step(&mut slot, StartEvent::SpawnFailed("exec format error".to_string()));
    assert_eq!(
        action,
        Ok(StartAction::Finish(Err(EngineError::SpawnError(
            "Spawn failed: exec format error".to_string()
        ))))
    );
    assert_eq!(start.phase(), StartPhase::Finished);
    assert!(!slot.is_occupied());
}

#[test]
fn launch_after_a_failed_one_succeeds() {
    let mut slot: Supervisor<u32> = Supervisor::new();
    let (mut start, _) = EngineStart::begin(config(false), &mut slot);
    start.step(&mut slot, StartEvent::BinaryMissing("no sidecar".to_string())).unwrap();
    let asked = launch(&mut slot, false, 3, 300);
    assert_eq!(asked.last(), Some(&StartAction::Finish(Ok(()))));
    assert_eq!(slot.current(), Some(&process(3, false, 300)));
}

#[test]
fn launch_after_a_crash_succeeds() {
    // The crashed worker is still in the slot: the watcher never touches it.
    let mut slot: Supervisor<u32> = Supervisor::new();
    launch(&mut slot, false, 1, 100);
    let asked = launch(&mut slot, false, 2, 200);
    assert_eq!(asked[0], StartAction::Terminate(process(1, false, 100)));
    assert_eq!(asked.last(), Some(&StartAction::Finish(Ok(()))));
    assert_eq!(slot.current(), Some(&process(2, false, 200)));
}

#[test]
fn event_out_of_turn_is_handed_back() {
    let mut slot: Supervisor<u32> = Supervisor::new();
    let (mut start, _) = EngineStart::begin(config(false), &mut slot);
    let back = start.step(&mut slot, StartEvent::Spawned { handle: 9, launched_at: 1 });
    assert_eq!(back, Err(StartEvent::Spawned { handle: 9, launched_at: 1 }));
    assert_eq!(start.phase(), StartPhase::Resolving);
    assert!(!slot.is_occupied());
    assert_eq!(start.step(&mut slot, StartEvent::Terminated), Err(StartEvent::Terminated));
    assert_eq!(
        start.step(&mut slot, StartEvent::WatcherLaunched),
        Err(StartEvent::WatcherLaunched)
    );
}

#[test]
fn finished_launch_takes_no_event() {
    let mut slot: Supervisor<u32> = Supervisor::new();
    let (mut start, _) = EngineStart::begin(config(false), &mut slot);
    start.step(&mut slot, StartEvent::BinaryResolved).unwrap();
    start.step(&mut slot, StartEvent::Spawned { handle: 1, launched_at: 1 }).unwrap();
    start.step(&mut slot, StartEvent::WatcherLaunched).unwrap();
    assert_eq!(start.phase(), StartPhase::Finished);
    assert_eq!(start.step(&mut slot, StartEvent::BinaryResolved), Err(StartEvent::BinaryResolved));
    assert_eq!(slot.current(), Some(&process(1, false, 1)));
}

#[test]
fn two_racing_launches_leave_one_process() {
    // Both launches empty the slot before either has spawned its worker.
    let mut slot: Supervisor<u32> = Supervisor::new();
    slot.install(process(0, false, 1));
    let (mut a, first) = EngineStart::begin(config(false), &mut slot);
    let (mut b, second) = EngineStart::begin(config(true), &mut slot);
    assert_eq!(first, StartAction::Terminate(process(0, false, 1)));
    assert_eq!(second, StartAction::ResolveBinary("binaries/llama-server"));
    a.step(&mut slot, StartEvent::Terminated).unwrap();
    a.step(&mut slot, StartEvent::BinaryResolved).unwrap();
    b.step(&mut slot, StartEvent::BinaryResolved).unwrap();
    let after_a = a.step(&mut slot, StartEvent::Spawned { handle: 1, launched_at: 10 });
    assert_eq!(after_a, Ok(StartAction::LaunchWatcher));
    let after_b = b.step(&mut slot, StartEvent::Spawned { handle: 2, launched_at: 20 });
    assert_eq!(after_b, Ok(StartAction::Terminate(process(1, false, 10))));
    assert_eq!(b.phase(), StartPhase::Replacing);
    assert_eq!(b.step(&mut slot, StartEvent::Terminated), Ok(StartAction::LaunchWatcher));
    assert_eq!(b.step(&mut slot, StartEvent::WatcherLaunched), Ok(StartAction::Finish(Ok(()))));
    assert_eq!(a.step(&mut slot, StartEvent::WatcherLaunched), Ok(StartAction::Finish(Ok(()))));
    assert_eq!(slot.current(), Some(&process(2, true, 20)));
}

#[test]
fn stop_after_launch_empties_the_slot() {
    let mut slot: Supervisor<u32> = Supervisor::new();
    launch(&mut slot, false, 1, 100);
    assert_eq!(slot.stop(), Some(process(1, false, 100)));
    assert!(!slot.is_occupied());
}
