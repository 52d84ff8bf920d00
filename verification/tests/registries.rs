use sftp_core::CancelRegistry;
use sftp_core::SessionRegistry;
use sftp_core::SftpConnectionInfo;
use sftp_core::SftpError;

fn info(id: &str, host: &str) -> SftpConnectionInfo {
    SftpConnectionInfo {
        id: id.to_string(),
        name: format!("{id} connection"),
        host: host.to_string(),
        port: 22,
        username: "user".to_string(),
        password: "pw".to_string(),
        connected: true,
    }
}

#[test]
fn unknown_session_is_not_found_before_any_work() {
    let reg = SessionRegistry::new();
    assert!(!reg.contains("nope"));
    let r = reg.require_session("nope");
    match r {
        Err(SftpError::NotFound(id)) => assert_eq!(id, "nope"),
        _ => panic!("expected a not-found failure"),
    }
}

#[test]
fn registered_session_passes_the_gate() {
    let mut reg = SessionRegistry::new();
    let sid = reg.register(info("s1", "alpha.example"));
    assert_eq!(sid, "s1");
    assert!(reg.contains("s1"));
    assert!(reg.require_session("s1").is_ok());
    assert!(reg.require_session("s2").is_err());
}

#[test]
fn register_same_id_replaces_old_entry() {
    let mut reg = SessionRegistry::new();
    reg.register(info("s1", "alpha.example"));
    reg.register(info("s1", "beta.example"));
    let got = reg.get("s1").expect("entry must exist");
    assert_eq!(got.host, "beta.example");
    assert!(reg.contains("s1"));
}

#[test]
fn disconnect_removes_and_is_idempotent() {
    let mut reg = SessionRegistry::new();
    reg.register(info("s1", "alpha.example"));
    reg.disconnect("s1");
    assert!(!reg.contains("s1"));
    // absence is not an error: a second disconnect and a disconnect of an
    // id never seen both come back normally
    reg.disconnect("s1");
    reg.disconnect("never-registered");
    assert!(!reg.contains("never-registered"));
}

#[test]
fn sessions_with_distinct_ids_coexist() {
    let mut reg = SessionRegistry::new();
    reg.register(info("s1", "alpha.example"));
    reg.register(info("s2", "beta.example"));
    assert_eq!(reg.get("s1").unwrap().host, "alpha.example");
    assert_eq!(reg.get("s2").unwrap().host, "beta.example");
    reg.disconnect("s1");
    assert!(!reg.contains("s1"));
    assert!(reg.contains("s2"));
}

#[test]
fn cancel_of_active_transfer_succeeds_and_retires_entry() {
    let mut cancels = CancelRegistry::new();
    cancels.register("t1");
    assert!(cancels.contains("t1"));
    assert!(cancels.request_cancel("t1").is_ok());
    assert!(!cancels.contains("t1"));
}

#[test]
fn cancel_of_unknown_transfer_is_not_found() {
    let mut cancels = CancelRegistry::new();
    match cancels.request_cancel("t9") {
        Err(SftpError::NotFound(id)) => assert_eq!(id, "t9"),
        _ => panic!("expected a not-found failure"),
    }
    cancels.register("t1");
    assert!(cancels.request_cancel("t1").is_ok());
    // the entry was retired with the first request: a second one fails
    match cancels.request_cancel("t1") {
        Err(SftpError::NotFound(id)) => assert_eq!(id, "t1"),
        _ => panic!("expected a not-found failure"),
    }
}

#[test]
fn reregistering_a_transfer_id_supersedes_stale_entry() {
    let mut cancels = CancelRegistry::new();
    cancels.register("t1");
    cancels.register("t1");
    assert!(cancels.request_cancel("t1").is_ok());
    assert!(!cancels.contains("t1"));
}

#[test]
fn unregister_is_idempotent() {
    let mut cancels = CancelRegistry::new();
    cancels.register("t1");
    cancels.unregister("t1");
    assert!(!cancels.contains("t1"));
    cancels.unregister("t1");
    assert!(!cancels.contains("t1"));
}

#[test]
fn error_messages_name_the_stage() {
    assert_eq!(
        SftpError::Transport("connection refused".to_string()).message(),
        "transport failure: connection refused"
    );
    assert_eq!(
        SftpError::Handshake("bad banner".to_string()).message(),
        "handshake failure: bad banner"
    );
    assert_eq!(
        SftpError::Authentication("credentials rejected".to_string()).message(),
        "authentication failure: credentials rejected"
    );
    assert_eq!(SftpError::NotFound("s1".to_string()).message(), "not found: s1");
    assert_eq!(
        SftpError::Filesystem("permission denied".to_string()).message(),
        "filesystem failure: permission denied"
    );
    assert_eq!(
        SftpError::RemoteOp("no such file".to_string()).message(),
        "remote operation failure: no such file"
    );
    assert_eq!(SftpError::Cancelled.message(), "transfer cancelled");
    assert_eq!(
        SftpError::TaskFailure("worker aborted".to_string()).message(),
        "task failure: worker aborted"
    );
}
