use mineguard::channel::Received;
use mineguard::config::ServerConfig;
use mineguard::error::{HandleError, KillError, SpawnError, StopError};
use mineguard::status::InstanceStatus;
use mineguard::stream::StreamSource;
use mineguard::supervisor::{InstanceHandle, SpawnOutcome, StopNext};

const READY: SpawnOutcome = SpawnOutcome::Spawned { stdout: true, stderr: true };

fn live(s: InstanceStatus) -> bool {
    matches!(
        s,
        InstanceStatus::Starting
            | InstanceStatus::Running
            | InstanceStatus::Stopping
            | InstanceStatus::Killing
    )
}

fn running() -> InstanceHandle {
    let mut h = InstanceHandle::new();
    assert_eq!(h.start(READY), Ok(()));
    h
}

#[test]
fn new_handle_is_stopped_without_process() {
    let h = InstanceHandle::new();
    assert_eq!(h.get_status(), InstanceStatus::Stopped);
    assert!(!h.has_child());
    assert!(h.stopped_killed_or_crashed());
}

#[test]
fn with_cfg_keeps_the_config() {
    let mut cfg = ServerConfig::new();
    cfg.jar_path = String::from("server.jar");
    cfg.core_path = String::from("/srv/mc");
    let h = InstanceHandle::with_cfg(cfg).unwrap();
    assert_eq!(h.get_config().jar_path, "server.jar");
    assert_eq!(h.get_status(), InstanceStatus::Stopped);
}

#[test]
fn launch_command_runs_the_archive_in_the_root() {
    let mut cfg = ServerConfig::new();
    cfg.jar_path = String::from("server.jar");
    cfg.core_path = String::from("/srv/mc");
    let h = InstanceHandle::with_cfg(cfg).unwrap();
    let c = h.launch_command().unwrap();
    assert_eq!(c.program, "java");
    assert_eq!(c.args, vec!["-jar".to_string(), "server.jar".to_string(), "nogui".to_string()]);
    assert_eq!(c.working_dir, "/srv/mc");
}

#[test]
fn launch_command_refused_while_running() {
    let h = running();
    assert!(matches!(h.launch_command(), Err(HandleError::StartFailedNotStopped)));
}

#[test]
fn start_on_fresh_instance_runs() {
    let mut h = InstanceHandle::new();
    assert_eq!(h.start(READY), Ok(()));
    assert_eq!(h.get_status(), InstanceStatus::Running);
    assert!(h.has_child());
}

#[test]
fn start_twice_is_refused_and_keeps_status() {
    let mut h = running();
    assert_eq!(h.start(READY), Err(HandleError::StartFailedNotStopped));
    assert_eq!(h.get_status(), InstanceStatus::Running);
    assert!(h.has_child());
}

#[test]
fn start_while_stopping_is_refused() {
    let mut h = running();
    h.stop().unwrap();
    assert_eq!(h.start(READY), Err(HandleError::StartFailedNotStopped));
    assert_eq!(h.get_status(), InstanceStatus::Stopping);
}

#[test]
fn failed_spawn_ends_crashed() {
    let mut h = InstanceHandle::new();
    let r = h.start(SpawnOutcome::Failed(SpawnError::ExecutableNotFound));
    assert_eq!(r, Err(HandleError::SpawnFailed(SpawnError::ExecutableNotFound)));
    assert_eq!(h.get_status(), InstanceStatus::Crashed);
    assert!(!h.has_child());
}

#[test]
fn missing_stdout_ends_crashed() {
    let mut h = InstanceHandle::new();
    let r = h.start(SpawnOutcome::Spawned { stdout: false, stderr: true });
    assert_eq!(r, Err(HandleError::PumpsFailedNoStdout));
    assert_eq!(h.get_status(), InstanceStatus::Crashed);
}

#[test]
fn missing_stderr_ends_crashed() {
    let mut h = InstanceHandle::new();
    let r = h.start(SpawnOutcome::Spawned { stdout: true, stderr: false });
    assert_eq!(r, Err(HandleError::PumpsFailedNoStderr));
    assert_eq!(h.get_status(), InstanceStatus::Crashed);
}

#[test]
fn resting_states_can_start_again() {
    let mut h = InstanceHandle::new();
    h.start(SpawnOutcome::Failed(SpawnError::LaunchRefused)).unwrap_err();
    assert_eq!(h.start(READY), Ok(()));
    h.kill().unwrap();
    h.kill_finished(Ok(())).unwrap();
    assert_eq!(h.get_status(), InstanceStatus::Killed);
    assert_eq!(h.start(READY), Ok(()));
    assert_eq!(h.get_status(), InstanceStatus::Running);
}

#[test]
fn stop_when_not_running_is_refused() {
    let mut h = InstanceHandle::new();
    assert_eq!(h.stop(), Err(HandleError::StopFailedNotRunning));
    assert_eq!(h.get_status(), InstanceStatus::Stopped);
}

#[test]
fn stop_within_grace_period_ends_stopped() {
    let mut h = running();
    assert_eq!(h.stop(), Ok(()));
    assert_eq!(h.get_status(), InstanceStatus::Stopping);
    assert!(h.shutdown_signal().is_cancelled());
    assert_eq!(h.stop_finished(Ok(())), Ok(StopNext::Stopped));
    assert_eq!(h.get_status(), InstanceStatus::Stopped);
    assert!(!h.has_child());
}

#[test]
fn stop_timeout_escalates_to_kill() {
    let mut h = running();
    h.stop().unwrap();
    assert_eq!(h.stop_finished(Err(StopError::Timeout)), Ok(StopNext::Kill));
    assert_eq!(h.get_status(), InstanceStatus::Killing);
    assert_eq!(h.kill(), Ok(()));
    assert_eq!(h.kill_finished(Ok(())), Ok(()));
    assert_eq!(h.get_status(), InstanceStatus::Killed);
}

#[test]
fn stop_of_vanished_process_ends_stopped() {
    let mut h = running();
    h.stop().unwrap();
    assert_eq!(h.stop_finished(Err(StopError::NoSuchProcess)), Ok(StopNext::Stopped));
    assert_eq!(h.get_status(), InstanceStatus::Stopped);
}

#[test]
fn stop_finished_outside_stopping_is_internal_error() {
    let mut h = running();
    assert_eq!(h.stop_finished(Ok(())), Err(HandleError::InternalError));
    assert_eq!(h.get_status(), InstanceStatus::Running);
}

#[test]
fn stop_signal_is_fresh_for_each_run() {
    let mut h = running();
    h.stop().unwrap();
    h.stop_finished(Ok(())).unwrap();
    h.start(READY).unwrap();
    assert!(!h.shutdown_signal().is_cancelled());
}

#[test]
fn kill_without_process_is_refused() {
    let mut h = InstanceHandle::new();
    assert_eq!(h.kill(), Err(HandleError::KillFailedChildNotExists));
    assert_eq!(h.get_status(), InstanceStatus::Stopped);
}

#[test]
fn kill_of_already_exited_process_succeeds() {
    let mut h = running();
    h.kill().unwrap();
    assert_eq!(h.kill_finished(Err(KillError::AlreadyExited)), Ok(()));
    assert_eq!(h.get_status(), InstanceStatus::Killed);
    assert!(!h.has_child());
}

#[test]
fn kill_refused_by_os_ends_crashed() {
    let mut h = running();
    h.kill().unwrap();
    assert_eq!(h.kill_finished(Err(KillError::OsRefused)), Err(HandleError::KillFailledInternal));
    assert_eq!(h.get_status(), InstanceStatus::Crashed);
    assert!(!h.has_child());
}

#[test]
fn kill_finished_outside_killing_is_internal_error() {
    let mut h = InstanceHandle::new();
    assert_eq!(h.kill_finished(Ok(())), Err(HandleError::InternalError));
}

#[test]
fn process_exit_while_running_crashes_and_ends_streams() {
    let mut h = running();
    let mut out = h.subscribe(StreamSource::Stdout).unwrap();
    let mut err = h.subscribe(StreamSource::Stderr).unwrap();
    h.publish(StreamSource::Stdout, String::from("Done (3.2s)!"));
    h.stream_ended(StreamSource::Stdout);
    assert_eq!(h.get_status(), InstanceStatus::Crashed);
    h.stream_ended(StreamSource::Stderr);
    assert_eq!(h.get_status(), InstanceStatus::Crashed);
    match h.recv(StreamSource::Stdout, &mut out) {
        Received::Line(l) => assert_eq!(l.text(), "Done (3.2s)!"),
        other => panic!("unexpected {:?}", other),
    }
    assert!(matches!(h.recv(StreamSource::Stdout, &mut out), Received::Closed));
    assert!(matches!(h.recv(StreamSource::Stderr, &mut err), Received::Closed));
}

#[test]
fn stream_end_while_stopping_is_expected() {
    let mut h = running();
    h.stop().unwrap();
    h.stream_ended(StreamSource::Stdout);
    h.stream_ended(StreamSource::Stderr);
    assert_eq!(h.get_status(), InstanceStatus::Stopping);
    assert_eq!(h.stop_finished(Ok(())), Ok(StopNext::Stopped));
}

#[test]
fn process_handle_exists_iff_live_after_every_call() {
    let mut h = InstanceHandle::new();
    assert_eq!(h.has_child(), live(h.get_status()));
    let _ = h.kill();
    assert_eq!(h.has_child(), live(h.get_status()));
    let _ = h.start(READY);
    assert_eq!(h.has_child(), live(h.get_status()));
    let _ = h.start(READY);
    assert_eq!(h.has_child(), live(h.get_status()));
    let _ = h.stop();
    assert_eq!(h.has_child(), live(h.get_status()));
    let _ = h.stop_finished(Err(StopError::Timeout));
    assert_eq!(h.has_child(), live(h.get_status()));
    let _ = h.kill();
    assert_eq!(h.has_child(), live(h.get_status()));
    let _ = h.kill_finished(Ok(()));
    assert_eq!(h.has_child(), live(h.get_status()));
    let _ = h.stop();
    assert_eq!(h.has_child(), live(h.get_status()));
    let _ = h.start(SpawnOutcome::Failed(SpawnError::AlreadyRunning));
    assert_eq!(h.has_child(), live(h.get_status()));
    let _ = h.start(READY);
    h.stream_ended(StreamSource::Stderr);
    assert_eq!(h.has_child(), live(h.get_status()));
}

#[test]
fn subscribe_before_start_is_allowed() {
    let h = InstanceHandle::new();
    let mut c = h.subscribe(StreamSource::Stderr).unwrap();
    assert!(matches!(h.recv(StreamSource::Stderr, &mut c), Received::Empty));
}

#[test]
fn lines_are_tagged_with_their_stream() {
    let mut h = running();
    let mut c = h.subscribe(StreamSource::Stderr).unwrap();
    h.publish(StreamSource::Stderr, String::from("warn"));
    h.publish(StreamSource::Stdout, String::from("info"));
    let got = h.drain(StreamSource::Stderr, &mut c);
    assert_eq!(got.len(), 1);
    assert_eq!(got[0].text(), "warn");
    assert_eq!(got[0].source(), StreamSource::Stderr);
    assert_eq!(h.published_count(StreamSource::Stdout), 1);
}

#[test]
fn new_handle_has_blank_config_and_no_stop_request() {
    let h = InstanceHandle::new();
    assert!(!h.is_stop_requested());
    assert!(!h.shutdown_signal().is_cancelled());
    assert_eq!(h.get_config().mc_version, mineguard::version::MinecraftVersion::Unknown);
    assert_eq!(h.get_config().mc_type, mineguard::version::MinecraftType::Unknown);
}

#[test]
fn stop_raises_the_signal_and_refusal_leaves_it() {
    let mut h = InstanceHandle::new();
    assert_eq!(h.stop(), Err(HandleError::StopFailedNotRunning));
    assert!(!h.is_stop_requested());
    assert!(!h.shutdown_signal().is_cancelled());
    h.start(READY).unwrap();
    h.stop().unwrap();
    assert!(h.is_stop_requested());
    assert!(h.shutdown_signal().is_cancelled());
    assert_eq!(h.stop(), Err(HandleError::StopFailedNotRunning));
    assert!(h.is_stop_requested());
    h.stop_finished(Ok(())).unwrap();
    h.start(READY).unwrap();
    assert!(!h.is_stop_requested());
}
