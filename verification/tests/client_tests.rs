use launch_session::account::Account;
use launch_session::client::{
    admit_launch, client_exited, manifest_arrived, LaunchRequest, RunError,
};
use launch_session::launch::LaunchOptions;
use launch_session::session::SessionSupervisor;

fn request(build_id: i32) -> LaunchRequest {
    LaunchRequest {
        build_id,
        account: Account::OfflineAccount {
            display_name: "Guest".to_string(),
            subject_id: "id-o".to_string(),
        },
        options: LaunchOptions {
            memory_percentage: 50,
            custom_runtime_path: String::new(),
            keep_window_open: false,
        },
    }
}

#[test]
fn admitted_launch_carries_its_parameters() {
    let mut supervisor = SessionSupervisor::new();
    let launch = admit_launch(&mut supervisor, request(42), 16_000_000_000).unwrap();
    assert!(supervisor.is_running());
    assert_eq!(launch.build_id, 42);
    assert_eq!(launch.parameters.allocated_memory_mb, 8000);
    assert_eq!(launch.parameters.runtime_path, None);
    assert_eq!(launch.parameters.display_name, "Guest");
    assert_eq!(launch.parameters.subject_id, "id-o");
    assert_eq!(launch.parameters.access_token, "-");
    assert_eq!(launch.parameters.auxiliary_id, "x");
    assert_eq!(launch.parameters.account_kind, "legacy");
    assert!(!launch.parameters.keep_window_open);
}

#[test]
fn second_launch_is_turned_away() {
    let mut supervisor = SessionSupervisor::new();
    let mut first = admit_launch(&mut supervisor, request(1), 16_000_000_000).unwrap();
    let second = admit_launch(&mut supervisor, request(2), 16_000_000_000);
    assert_eq!(second.err(), Some(RunError::AlreadyRunning));
    assert!(supervisor.is_running());
    assert!(supervisor.request_cancellation().is_ok());
    assert_eq!(first.cancellation.try_recv(), Ok(()));
}

#[test]
fn manifest_at_hand_keeps_the_session() {
    let mut supervisor = SessionSupervisor::new();
    let _launch = admit_launch(&mut supervisor, request(1), 16_000_000_000).unwrap();
    assert_eq!(manifest_arrived(&mut supervisor, Ok(())), Ok(()));
    assert!(supervisor.is_running());
}

#[test]
fn manifest_failure_releases_the_session() {
    let mut supervisor = SessionSupervisor::new();
    let _launch = admit_launch(&mut supervisor, request(1), 16_000_000_000).unwrap();
    let report = manifest_arrived(&mut supervisor, Err("timed out".to_string()));
    assert_eq!(report, Err(RunError::ExternalManifest("timed out".to_string())));
    assert!(!supervisor.is_running());
    assert!(admit_launch(&mut supervisor, request(2), 16_000_000_000).is_ok());
}

#[test]
fn client_exit_releases_the_session() {
    let mut supervisor = SessionSupervisor::new();
    let _launch = admit_launch(&mut supervisor, request(1), 16_000_000_000).unwrap();
    assert_eq!(manifest_arrived(&mut supervisor, Ok(())), Ok(()));
    assert_eq!(client_exited(&mut supervisor, Ok(())), Ok(()));
    assert!(!supervisor.is_running());
}

#[test]
fn client_failure_releases_the_session() {
    let mut supervisor = SessionSupervisor::new();
    let _launch = admit_launch(&mut supervisor, request(1), 16_000_000_000).unwrap();
    assert_eq!(manifest_arrived(&mut supervisor, Ok(())), Ok(()));
    let report = client_exited(&mut supervisor, Err("exit code 1".to_string()));
    assert_eq!(report, Err(RunError::ExternalLaunch("exit code 1".to_string())));
    assert!(!supervisor.is_running());
    assert!(admit_launch(&mut supervisor, request(2), 16_000_000_000).is_ok());
}

#[test]
fn cancelled_launch_releases_the_session() {
    let mut supervisor = SessionSupervisor::new();
    let mut launch = admit_launch(&mut supervisor, request(1), 16_000_000_000).unwrap();
    assert_eq!(manifest_arrived(&mut supervisor, Ok(())), Ok(()));
    assert!(supervisor.request_cancellation().is_ok());
    assert_eq!(launch.cancellation.try_recv(), Ok(()));
    let report = client_exited(&mut supervisor, Err("cancelled".to_string()));
    assert_eq!(report, Err(RunError::ExternalLaunch("cancelled".to_string())));
    assert!(!supervisor.is_running());
}

#[test]
fn no_launch_is_admitted_while_a_cancelled_one_has_not_ended() {
    let mut supervisor = SessionSupervisor::new();
    let _first = admit_launch(&mut supervisor, request(1), 16_000_000_000).unwrap();
    assert_eq!(manifest_arrived(&mut supervisor, Ok(())), Ok(()));
    assert!(supervisor.request_cancellation().is_ok());
    let second = admit_launch(&mut supervisor, request(2), 16_000_000_000);
    assert_eq!(second.err(), Some(RunError::AlreadyRunning));
    assert!(supervisor.is_running());
    assert_eq!(client_exited(&mut supervisor, Ok(())), Ok(()));
    assert!(!supervisor.is_running());
    let mut third = admit_launch(&mut supervisor, request(3), 16_000_000_000).unwrap();
    assert!(supervisor.request_cancellation().is_ok());
    assert_eq!(third.cancellation.try_recv(), Ok(()));
}

#[test]
fn error_messages() {
    assert_eq!(RunError::AlreadyRunning.message(), "client is already running");
    assert_eq!(
        RunError::ExternalManifest("timed out".to_string()).message(),
        "unable to request launch manifest: timed out"
    );
    assert_eq!(
        RunError::ExternalLaunch("exit code 1".to_string()).message(),
        "failed to launch client: exit code 1"
    );
    assert_eq!(
        RunError::ExternalLaunch(String::new()).message(),
        "failed to launch client: "
    );
}
