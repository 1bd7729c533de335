use cortex_core::state::{get_server_status, AppState, HandshakeStep, WorkerError, WorkerPhase};

fn ready_state(pid: u32, port: u16) -> AppState {
    let mut s = AppState::new("tok".to_string(), 4000);
    assert_eq!(s.begin_start(), None);
    assert_eq!(s.handshake_line(pid, &format!("HONO_PORT:{port}")), HandshakeStep::Ready(port));
    s
}

#[test]
fn new_session_has_no_worker() {
    let s = AppState::new("tok".to_string(), 4000);
    assert_eq!(s.bridge_token, "tok");
    assert_eq!(s.bridge_port, 4000);
    assert_eq!(s.phase, WorkerPhase::NotStarted);
    let st = get_server_status(&s);
    assert!(!st.running);
    assert_eq!(st.port, None);
}

#[test]
fn handshake_reaches_ready() {
    let mut s = AppState::new("tok".to_string(), 4000);
    assert_eq!(s.begin_start(), None);
    assert_eq!(s.phase, WorkerPhase::Starting);
    assert_eq!(s.handshake_line(77, "booting"), HandshakeStep::Continue);
    assert_eq!(s.hono_port, None);
    assert_eq!(s.handshake_line(77, "HONO_PORT:5123"), HandshakeStep::Ready(5123));
    assert_eq!(s.phase, WorkerPhase::Ready);
    assert_eq!(s.sidecar_pid, Some(77));
    let st = get_server_status(&s);
    assert!(st.running);
    assert_eq!(st.port, Some(5123));
}

#[test]
fn second_start_supersedes_first() {
    let mut s = ready_state(10, 5000);
    assert_eq!(s.begin_start(), Some(10));
    assert_eq!(s.sidecar_pid, None);
    assert_eq!(s.hono_port, None);
    assert_eq!(s.handshake_line(20, "HONO_PORT:6000"), HandshakeStep::Ready(6000));
    assert_eq!(s.sidecar_pid, Some(20));
    assert_eq!(s.hono_port, Some(6000));
}

#[test]
fn stop_without_worker_is_no_error() {
    let mut s = AppState::new("tok".to_string(), 4000);
    assert_eq!(s.stop(), None);
    assert_eq!(s.sidecar_pid, None);
    assert_eq!(s.hono_port, None);
    assert_eq!(s.phase, WorkerPhase::Stopped);
    assert_eq!(s.stop(), None);
}

#[test]
fn stop_clears_running_worker() {
    let mut s = ready_state(42, 7000);
    assert_eq!(s.stop(), Some(42));
    assert_eq!(s.sidecar_pid, None);
    assert_eq!(s.hono_port, None);
    assert!(!get_server_status(&s).running);
}

#[test]
fn silent_worker_fails_handshake() {
    let mut s = AppState::new("tok".to_string(), 4000);
    s.begin_start();
    assert_eq!(s.fail_start(WorkerError::HandshakeFailed), WorkerError::HandshakeFailed);
    assert_eq!(s.phase, WorkerPhase::Failed);
    assert_eq!(s.hono_port, None);
    assert_eq!(s.sidecar_pid, None);
}

#[test]
fn malformed_port_fails_handshake() {
    let mut s = AppState::new("tok".to_string(), 4000);
    s.begin_start();
    assert_eq!(
        s.handshake_line(5, "HONO_PORT:abc"),
        HandshakeStep::Failed(WorkerError::HandshakeFailed)
    );
    assert_eq!(s.phase, WorkerPhase::Failed);
    assert_eq!(s.hono_port, None);
    assert_eq!(s.sidecar_pid, None);
}

#[test]
fn spawn_failure_is_reported() {
    let mut s = AppState::new("tok".to_string(), 4000);
    s.begin_start();
    assert_eq!(s.fail_start(WorkerError::SpawnFailed), WorkerError::SpawnFailed);
    assert_eq!(s.phase, WorkerPhase::Failed);
}
