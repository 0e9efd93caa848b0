//! The lifecycle decisions: directory resolution, port bookkeeping, the
//! readiness gate, and teardown.

use bitcoind::gate::GateAction;
use bitcoind::gate::GateEvent;
use bitcoind::gate::GateState;
use bitcoind::gate::ReadinessGate;
use bitcoind::ports::PortAllocator;
use bitcoind::workdir::plan_workdir;
use bitcoind::workdir::teardown_plan;
use bitcoind::workdir::WorkDirPlan;
use bitcoind::DataDir;
use bitcoind::Error;
use bitcoind::ExitStatus;

#[test]
fn both_dirs_specified_is_a_configuration_error() {
    let r = plan_workdir(
        Some("/tmp/x".to_string()),
        Some("/tmp/y".to_string()),
        None,
    );
    assert_eq!(r.err().unwrap(), Error::BothDirsSpecified);
}

#[test]
fn env_tempdir_root_also_conflicts_with_staticdir() {
    let r = plan_workdir(None, Some("/tmp/y".to_string()), Some("/ram".to_string()));
    assert_eq!(r.err().unwrap(), Error::BothDirsSpecified);
}

#[test]
fn workdir_resolution_modes() {
    assert_eq!(
        plan_workdir(Some("/tmp/x".to_string()), None, None).unwrap(),
        WorkDirPlan::TemporaryIn("/tmp/x".to_string())
    );
    assert_eq!(
        plan_workdir(None, None, Some("/ram".to_string())).unwrap(),
        WorkDirPlan::TemporaryIn("/ram".to_string())
    );
    assert_eq!(
        plan_workdir(None, Some("/tmp/y".to_string()), None).unwrap(),
        WorkDirPlan::PersistentAt("/tmp/y".to_string())
    );
    assert_eq!(plan_workdir(None, None, None).unwrap(), WorkDirPlan::TemporaryDefault);
}

#[test]
fn teardown_of_persistent_stops_gracefully_and_keeps_directory() {
    let plan = teardown_plan(&DataDir::Persistent("/tmp/y".to_string()));
    assert!(plan.graceful_stop_first);
    assert!(!plan.remove_directory);
}

#[test]
fn teardown_of_temporary_removes_directory_without_graceful_stop() {
    let plan = teardown_plan(&DataDir::Temporary("/tmp/x".to_string()));
    assert!(!plan.graceful_stop_first);
    assert!(plan.remove_directory);
}

#[test]
fn datadir_path_of_each_mode() {
    assert_eq!(DataDir::Persistent("/tmp/y".to_string()).path(), "/tmp/y");
    assert_eq!(DataDir::Temporary("/tmp/x".to_string()).path(), "/tmp/x");
}

#[test]
fn allocator_accepts_fresh_ephemeral_ports_only() {
    let mut a = PortAllocator::new();
    assert!(a.claim(5000));
    assert!(!a.claim(5000), "a port is never handed out twice in one batch");
    assert!(!a.claim(80), "a well-known port is never an ephemeral assignment");
    assert!(a.claim(5001));
    assert_eq!(a.count(), 2);
    assert_eq!(a.ports(), vec![5000, 5001]);
}

#[test]
fn allocator_boundary_port() {
    let mut a = PortAllocator::new();
    assert!(!a.claim(1023));
    assert!(a.claim(1024));
    assert!(a.claim(65535));
}

#[test]
fn early_exit_with_two_attempts_spawns_three_times() {
    let status = ExitStatus { code: Some(1) };
    let mut gate = ReadinessGate::start(2);
    assert_eq!(gate.supervisor.spawns, 1);

    assert_eq!(gate.step(GateEvent::StatusExited(status)), GateAction::Restart);
    assert_eq!(gate.supervisor.spawns, 2);
    assert_eq!(gate.step(GateEvent::StatusExited(status)), GateAction::Restart);
    assert_eq!(gate.supervisor.spawns, 3);

    assert_eq!(
        gate.step(GateEvent::StatusExited(status)),
        GateAction::FailEarlyExit(status)
    );
    assert_eq!(gate.state, GateState::Failed);
    assert_eq!(gate.supervisor.spawns, 3, "two extra attempts, three spawns in all");
}

#[test]
fn no_attempts_fails_on_first_early_exit() {
    let status = ExitStatus { code: None };
    let mut gate = ReadinessGate::start(0);
    assert_eq!(
        gate.step(GateEvent::StatusExited(status)),
        GateAction::FailEarlyExit(status)
    );
    assert_eq!(gate.supervisor.spawns, 1);
}

#[test]
fn polling_loops_until_probe_succeeds() {
    let mut gate = ReadinessGate::start(3);
    assert_eq!(gate.step(GateEvent::StatusAlive), GateAction::Probe);
    assert_eq!(gate.step(GateEvent::ProbeFailed), GateAction::CheckStatus);
    assert_eq!(gate.step(GateEvent::StatusAlive), GateAction::Probe);
    assert_eq!(gate.step(GateEvent::ProbeSucceeded), GateAction::CreateWallet);
    assert_eq!(gate.step(GateEvent::CreateOk), GateAction::Finish);
    assert_eq!(gate.state, GateState::Ready);
}

#[test]
fn wallet_bootstrap_twice_succeeds_via_load_fallback() {
    // first run against a fresh persistent directory: the wallet is created
    let mut first = ReadinessGate::start(3);
    first.step(GateEvent::StatusAlive);
    first.step(GateEvent::ProbeSucceeded);
    assert_eq!(first.step(GateEvent::CreateOk), GateAction::Finish);
    assert_eq!(first.state, GateState::Ready);

    // second run against the same directory: the create call fails because
    // the wallet already exists, and the load fallback answers
    let mut second = ReadinessGate::start(3);
    second.step(GateEvent::StatusAlive);
    second.step(GateEvent::ProbeSucceeded);
    assert_eq!(second.step(GateEvent::CreateFailed), GateAction::LoadWallet);
    assert_eq!(second.step(GateEvent::LoadOk), GateAction::Finish);
    assert_eq!(second.state, GateState::Ready);
}

#[test]
fn wallet_neither_creatable_nor_loadable_is_fatal() {
    let mut gate = ReadinessGate::start(3);
    gate.step(GateEvent::StatusAlive);
    gate.step(GateEvent::ProbeSucceeded);
    assert_eq!(gate.step(GateEvent::CreateFailed), GateAction::LoadWallet);
    assert_eq!(gate.step(GateEvent::LoadFailed), GateAction::FailRpc);
    assert_eq!(gate.state, GateState::Failed);
}

#[test]
fn restart_answers_early_exit_then_polling_goes_on() {
    let status = ExitStatus { code: Some(1) };
    let mut gate = ReadinessGate::start(1);
    assert_eq!(gate.step(GateEvent::StatusExited(status)), GateAction::Restart);
    assert_eq!(gate.state, GateState::AwaitStatus);
    assert_eq!(gate.step(GateEvent::StatusAlive), GateAction::Probe);
    assert_eq!(gate.step(GateEvent::ProbeSucceeded), GateAction::CreateWallet);
    assert_eq!(gate.step(GateEvent::CreateOk), GateAction::Finish);
    assert_eq!(gate.state, GateState::Ready);
    assert_eq!(gate.supervisor.spawns, 2);
}
