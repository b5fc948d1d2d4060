use light_n2n::controller::Controller;
use light_n2n::errors::ProgramError;
use light_n2n::protocol::{Datagram, FieldValue, Pair};
use light_n2n::numfmt::u32_to_decimal;
use light_n2n::registry::{Registry, StartAction, WorkerEntry, WorkerRole};
use light_n2n::worker::{
    edge_args, miniserve_args, win_ip_broadcast_args, ExternalBinaryProgram, ExternalFilePosition,
    Poll,
};

fn plain_entry(name: &str, handle: Option<u64>) -> WorkerEntry {
    let mut program = ExternalBinaryProgram::new(
        name.to_string(),
        "client\\x64\\edge.exe".to_string(),
        vec![],
    );
    program.handle = handle;
    WorkerEntry { program, role: WorkerRole::Generic }
}

#[test]
fn stop_then_status_is_false_and_stop_is_idempotent() {
    let mut p = ExternalBinaryProgram::new("n2n_client".to_string(), "edge".to_string(), vec![]);
    assert!(p.start(Poll::Exited, 41).is_ok());
    assert!(p.status(Poll::Running));
    let released = p.stop();
    assert_eq!(released, Some(41));
    assert!(!p.status(Poll::Running));
    assert!(!p.status(Poll::Exited));
    assert!(!p.status(Poll::PollFailed));
    let again = p.stop();
    assert_eq!(again, None);
    assert!(!p.status(Poll::Running));
}

#[test]
fn duplicate_start_is_refused_at_the_handle() {
    let mut p = ExternalBinaryProgram::new("n2n_client".to_string(), "edge".to_string(), vec![]);
    assert!(p.start(Poll::Exited, 7).is_ok());
    match p.start(Poll::Running, 8) {
        Err(ProgramError::CreateTwice(n)) => assert_eq!(n, "n2n_client"),
        _ => panic!("expected the duplicate-start error"),
    }
    assert_eq!(p.handle, Some(7));
}

#[test]
fn start_on_a_running_worker_spawns_nothing_and_keeps_one_entry() {
    let mut r = Registry::new();
    r.register(plain_entry("n2n_client", Some(1))).unwrap();
    assert!(matches!(r.start_action("n2n_client", Poll::Running), StartAction::AlreadyRunning));
    // A repeated start request decides the same way and registers nothing.
    assert!(matches!(r.start_action("n2n_client", Poll::Running), StartAction::AlreadyRunning));
    assert_eq!(r.entries.len(), 1);
    // Even an explicit re-registration keeps a single entry for the name.
    r.register(plain_entry("n2n_client", Some(2))).unwrap();
    assert_eq!(r.entries.len(), 1);
}

#[test]
fn start_action_asks_for_a_spawn_when_absent_or_exited() {
    let mut r = Registry::new();
    assert!(matches!(r.start_action("miniserve", Poll::Running), StartAction::SpawnNeeded));
    r.register(plain_entry("miniserve", Some(3))).unwrap();
    assert!(matches!(r.start_action("miniserve", Poll::Exited), StartAction::SpawnNeeded));
}

#[test]
fn child_drop_is_idempotent_and_hands_the_entry_back() {
    let mut r = Registry::new();
    r.register(plain_entry("WinIPBroadcast", Some(9))).unwrap();
    assert!(r.child_status("WinIPBroadcast", Poll::Running));
    let (ok, removed) = r.child_drop("WinIPBroadcast").unwrap();
    assert!(ok);
    // The removed entry carries the worker so the caller can release it.
    assert_eq!(removed.map(|e| e.program.handle), Some(Some(9)));
    assert!(!r.child_status("WinIPBroadcast", Poll::Running));
    let (ok_again, removed_again) = r.child_drop("WinIPBroadcast").unwrap();
    assert!(ok_again);
    assert!(removed_again.is_none());
    let (ok_absent, removed_absent) = r.child_drop("never_registered").unwrap();
    assert!(ok_absent);
    assert!(removed_absent.is_none());
}

#[test]
fn child_status_is_false_for_absent_and_failed_polls() {
    let mut r = Registry::new();
    assert!(!r.child_status("n2n_client", Poll::Running));
    r.register(plain_entry("n2n_client", Some(5))).unwrap();
    assert!(!r.child_status("n2n_client", Poll::PollFailed));
    assert!(r.child_status("n2n_client", Poll::Running));
}

#[test]
fn control_request_distinguishes_absent_and_wrong_variant() {
    let mut r = Registry::new();
    match r.control_request("n2n_client", "r", "info") {
        Err(ProgramError::ChildProcessNotFound) => (),
        _ => panic!("expected the not-found error"),
    }
    r.register(plain_entry("miniserve", Some(1))).unwrap();
    match r.control_request("miniserve", "r", "info") {
        Err(ProgramError::DowncastError) => (),
        _ => panic!("expected the downcast error"),
    }
}

#[test]
fn control_request_builds_the_line_and_advances_the_tag() {
    let mut r = Registry::new();
    let mut program = ExternalBinaryProgram::new(
        "n2n_client".to_string(),
        "edge".to_string(),
        vec![],
    );
    program.handle = Some(1);
    let entry = WorkerEntry { program, role: WorkerRole::NetworkEdge(Controller::new(5644)) };
    r.register(entry).unwrap();
    let (tag, line) = r.control_request("n2n_client", "r", "info").unwrap();
    assert_eq!(tag, "0");
    assert_eq!(line, "r 0 info");
    let (tag2, line2) = r.control_request("n2n_client", "w", "stop").unwrap();
    assert_eq!(tag2, "1");
    assert_eq!(line2, "w 1 stop");
}

#[test]
fn self_ip_goes_through_lookup_downcast_and_query() {
    let mut r = Registry::new();
    match r.self_ip("n2n_client", Poll::Running, vec![]) {
        Err(ProgramError::ChildProcessNotFound) => (),
        _ => panic!("expected the not-found error"),
    }
    r.register(plain_entry("n2n_client", Some(1))).unwrap();
    match r.self_ip("n2n_client", Poll::Exited, vec![]) {
        Err(ProgramError::ChildProcessNotFound) => (),
        _ => panic!("a worker that exited is not running"),
    }
    match r.self_ip("n2n_client", Poll::Running, vec![]) {
        Err(ProgramError::DowncastError) => (),
        _ => panic!("a plain worker has no control plane"),
    }
    let mut program = ExternalBinaryProgram::new(
        "edge_worker".to_string(),
        "edge".to_string(),
        vec![],
    );
    program.handle = Some(2);
    let entry = WorkerEntry { program, role: WorkerRole::NetworkEdge(Controller::new(5644)) };
    r.register(entry).unwrap();
    let datagrams = vec![
        Datagram {
            tag: "0".to_string(),
            typ: "row".to_string(),
            payload: vec![Pair {
                key: "ip4addr".to_string(),
                value: FieldValue::Text("10.0.0.9".to_string()),
            }],
        },
        Datagram { tag: "0".to_string(), typ: "end".to_string(), payload: vec![] },
    ];
    let vip = r.self_ip("edge_worker", Poll::Running, datagrams).unwrap();
    assert_eq!(vip, "10.0.0.9");
    // The call consumed the worker's tag; the next request carries "1".
    let (tag, _) = r.control_request("edge_worker", "r", "help").unwrap();
    assert_eq!(tag, "1");
}

#[test]
fn drain_hands_every_entry_back_for_shutdown() {
    let mut r = Registry::new();
    r.register(plain_entry("n2n_client", Some(1))).unwrap();
    r.register(plain_entry("miniserve", None)).unwrap();
    let entries = r.drain();
    assert_eq!(entries.len(), 2);
    assert_eq!(r.entries.len(), 0);
    let names: Vec<String> = entries.iter().map(|e| e.program.name.clone()).collect();
    assert!(names.contains(&"n2n_client".to_string()));
    assert!(names.contains(&"miniserve".to_string()));
}

#[test]
fn edge_arguments_spell_the_launch_specification() {
    let args = edge_args("lers10", "example.net", 49898, "Alice");
    let expected = vec!["-c", "lers10", "-l", "example.net:49898", "-I", "Alice", "-E", "-p", "49898"];
    assert_eq!(args, expected);
}

#[test]
fn miniserve_arguments_spell_the_launch_specification() {
    let args = miniserve_args("D:\\share".to_string(), 8090);
    let expected = vec!["D:\\share", "-p", "8090", "-H", "-r", "-D", "-F"];
    assert_eq!(args, expected);
}

#[test]
fn broadcast_arguments_spell_the_launch_specification() {
    assert_eq!(win_ip_broadcast_args(), vec!["run"]);
}

#[test]
fn file_positions_address_the_shipped_files() {
    assert_eq!(ExternalFilePosition::N2NClient.path_string(), "client\\x64\\edge.exe");
    assert_eq!(
        ExternalFilePosition::WinIPBroadcast.path_string(),
        "client\\x64\\WinIPBroadcast.exe"
    );
    assert_eq!(ExternalFilePosition::Config.path_string(), "client\\config.json");
    assert_eq!(ExternalFilePosition::MiniServe.path_string(), "client\\x64\\miniserve.exe");
}

#[test]
fn error_messages_are_descriptive() {
    assert_eq!(
        ProgramError::ChildProcessError("lock poisoned".to_string()).message(),
        "child process error: lock poisoned"
    );
    assert_eq!(ProgramError::ChildProcessNotFound.message(), "child process not found");
    assert_eq!(ProgramError::CreateTwice("x".to_string()).message(), "process started twice: x");
    assert_eq!(ProgramError::DowncastError.message(), "downcast failed");
    assert_eq!(ProgramError::TransferError.message(), "conversion failed");
    assert_eq!(ProgramError::StdoutGetError.message(), "failed to capture standard output");
    assert_eq!(ProgramError::FireWallError.message(), "firewall error");
    assert_eq!(
        ProgramError::NetworkError("404".to_string()).message(),
        "network error: 404"
    );
}

#[test]
fn decimal_rendering_is_exact() {
    assert_eq!(u32_to_decimal(0), "0");
    assert_eq!(u32_to_decimal(7), "7");
    assert_eq!(u32_to_decimal(42), "42");
    assert_eq!(u32_to_decimal(999), "999");
    assert_eq!(u32_to_decimal(4294967295), "4294967295");
}
