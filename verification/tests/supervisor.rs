use sidecar_supervisor::errors::RefusalKind;
use sidecar_supervisor::errors::ShutdownError;
use sidecar_supervisor::sink::StreamOrigin;
use sidecar_supervisor::supervisor::ChildState;
use sidecar_supervisor::supervisor::ShutdownAction;
use sidecar_supervisor::supervisor::SpawnOutcome;
use sidecar_supervisor::supervisor::Supervisor;

#[test]
fn launch_tracks_live_handle() {
    let mut sup = Supervisor::new(true);
    let r = sup.launch(
        "echo-service".to_string(),
        Vec::new(),
        SpawnOutcome::Spawned { pid: 41 },
    );
    assert_eq!(r.ok(), Some(41));
    assert_eq!(sup.state, ChildState::Running);
    let h = sup.child.as_ref().expect("supervised launch retains the handle");
    assert!(h.alive);
    assert_eq!(h.pid, 41);
    assert_eq!(h.path, "echo-service");
    assert!(h.args.is_empty());
    assert_eq!(sup.sink.len(), 0);
}

#[test]
fn fire_and_forget_discards_handle() {
    let mut sup = Supervisor::new(false);
    let r = sup.launch(
        "echo-service".to_string(),
        Vec::new(),
        SpawnOutcome::Spawned { pid: 5 },
    );
    assert_eq!(r.ok(), Some(5));
    assert_eq!(sup.state, ChildState::Running);
    assert!(sup.child.is_none());
}

#[test]
fn refused_launch_returns_error_and_no_handle() {
    let mut sup = Supervisor::new(true);
    let r = sup.launch(
        "missing".to_string(),
        Vec::new(),
        SpawnOutcome::Refused {
            kind: RefusalKind::Missing,
            message: "no such file".to_string(),
        },
    );
    let e = r.err().expect("a refused spawn must fail the launch");
    assert_eq!(e.kind, RefusalKind::Missing);
    assert_eq!(e.message, "no such file");
    assert_eq!(e.describe(), "Failed to start backend: no such file");
    assert_eq!(sup.state, ChildState::NotStarted);
    assert!(sup.child.is_none());
    assert_eq!(sup.sink.len(), 0);
}

#[test]
fn refusal_kinds_carry_through() {
    for kind in [
        RefusalKind::Missing,
        RefusalKind::NotExecutable,
        RefusalKind::Refused,
    ] {
        let mut sup = Supervisor::new(true);
        let r = sup.launch(
            "backend".to_string(),
            Vec::new(),
            SpawnOutcome::Refused { kind, message: "refused".to_string() },
        );
        assert_eq!(r.err().map(|e| e.kind), Some(kind));
    }
}

#[test]
fn shutdown_kills_live_child() {
    let mut sup = Supervisor::new(true);
    sup.launch(
        "echo-service".to_string(),
        Vec::new(),
        SpawnOutcome::Spawned { pid: 9 },
    )
    .expect("spawn succeeded");
    let a = sup.shutdown();
    assert_eq!(a, ShutdownAction::Kill { pid: 9 });
    assert_eq!(sup.state, ChildState::Killed);
    assert!(sup.child.is_none());
}

#[test]
fn shutdown_without_handle_is_noop() {
    let mut sup = Supervisor::new(true);
    assert_eq!(sup.shutdown(), ShutdownAction::NoOp);
    assert_eq!(sup.state, ChildState::NotStarted);

    let mut forget = Supervisor::new(false);
    forget
        .launch(
            "echo-service".to_string(),
            Vec::new(),
            SpawnOutcome::Spawned { pid: 5 },
        )
        .expect("spawn succeeded");
    assert_eq!(forget.shutdown(), ShutdownAction::NoOp);
    assert_eq!(forget.state, ChildState::Running);
}

#[test]
fn shutdown_after_exit_is_noop() {
    let mut sup = Supervisor::new(true);
    sup.launch(
        "echo-service".to_string(),
        Vec::new(),
        SpawnOutcome::Spawned { pid: 3 },
    )
    .expect("spawn succeeded");
    sup.on_child_exit();
    assert_eq!(sup.shutdown(), ShutdownAction::NoOp);
    assert_eq!(sup.state, ChildState::Exited);
}

#[test]
fn echo_service_scenario() {
    let mut sup = Supervisor::new(true);
    sup.launch(
        "echo-service".to_string(),
        Vec::new(),
        SpawnOutcome::Spawned { pid: 11 },
    )
    .expect("spawn succeeded");
    let d = sup.on_line(StreamOrigin::Stdout, b"ready".to_vec());
    assert!(d.is_none());
    sup.on_child_exit();
    assert_eq!(sup.state, ChildState::Exited);
    assert_eq!(sup.sink.len(), 1);
    let e = sup.sink.entry(0);
    assert_eq!(e.origin, StreamOrigin::Stdout);
    assert_eq!(e.line, b"ready".to_vec());
    assert!(e.text_ok);
}

#[test]
fn per_stream_order_is_kept() {
    let mut sup = Supervisor::new(true);
    sup.launch(
        "echo-service".to_string(),
        Vec::new(),
        SpawnOutcome::Spawned { pid: 12 },
    )
    .expect("spawn succeeded");
    sup.on_line(StreamOrigin::Stdout, b"out one".to_vec());
    sup.on_line(StreamOrigin::Stderr, b"err one".to_vec());
    sup.on_line(StreamOrigin::Stdout, b"out two".to_vec());
    sup.on_line(StreamOrigin::Stderr, b"err two".to_vec());
    sup.on_line(StreamOrigin::Stdout, b"out three".to_vec());
    sup.on_child_exit();

    let mut out_lines: Vec<Vec<u8>> = Vec::new();
    let mut err_lines: Vec<Vec<u8>> = Vec::new();
    for i in 0..sup.sink.len() {
        let e = sup.sink.entry(i);
        match e.origin {
            StreamOrigin::Stdout => out_lines.push(e.line.clone()),
            StreamOrigin::Stderr => err_lines.push(e.line.clone()),
        }
    }
    assert_eq!(
        out_lines,
        vec![b"out one".to_vec(), b"out two".to_vec(), b"out three".to_vec()]
    );
    assert_eq!(err_lines, vec![b"err one".to_vec(), b"err two".to_vec()]);
}

#[test]
fn malformed_line_is_flagged_and_kept() {
    let mut sup = Supervisor::new(true);
    sup.launch(
        "echo-service".to_string(),
        Vec::new(),
        SpawnOutcome::Spawned { pid: 13 },
    )
    .expect("spawn succeeded");
    let d = sup.on_line(StreamOrigin::Stderr, vec![0xffu8, 0xfeu8]);
    let e = d.expect("malformed bytes must be reported");
    assert_eq!(e.origin, StreamOrigin::Stderr);
    assert_eq!(
        e.describe(),
        "Backend wrote a line that is not valid text on stderr"
    );
    assert_eq!(sup.sink.len(), 1);
    let kept = sup.sink.entry(0);
    assert_eq!(kept.line, vec![0xffu8, 0xfeu8]);
    assert!(!kept.text_ok);
    assert_eq!(sup.state, ChildState::Running);
}

#[test]
fn shutdown_error_describes_itself() {
    let e = ShutdownError { pid: 7, message: "operation not permitted".to_string() };
    assert_eq!(e.describe(), "Failed to stop backend: operation not permitted");
}

#[test]
fn stream_tags() {
    assert_eq!(StreamOrigin::Stdout.tag(), "stdout");
    assert_eq!(StreamOrigin::Stderr.tag(), "stderr");
}
