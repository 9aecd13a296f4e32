use deskjarvis::event::ReadOutcome;
use deskjarvis::executor::{exec_step, ExecError, ExecStep};
use deskjarvis::fallback::{oneshot_args, FallbackError, OneshotRun};
use deskjarvis::launch::{ready_step, LaunchError, ReadyInput, ReadyStep, READY_TIMEOUT_SECS};
use deskjarvis::supervisor::{Liveness, RequestEnd, Supervisor};
use deskjarvis::wire::TaskResult;

fn line(s: &str) -> ReadOutcome {
    ReadOutcome::Line(s.to_string())
}

const RESULT_LINE: &str = "{\"type\":\"result\",\"data\":{\"success\":true,\"message\":\"done\",\"steps\":[],\"user_instruction\":\"x\"}}";

fn done() -> TaskResult {
    TaskResult { success: true, message: "done".to_string(), steps: vec![], user_instruction: "x".to_string() }
}

#[test]
fn progress_then_result_forwards_once() {
    let inputs = vec![line("{\"type\":\"progress\",\"pct\":10}"), line(RESULT_LINE)];
    let mut forwarded = Vec::new();
    let mut finished = None;
    for input in inputs {
        match exec_step(input) {
            ExecStep::Skip => {}
            ExecStep::Forward(l) => forwarded.push(l),
            ExecStep::Finish(t) => {
                finished = Some(t);
                break;
            }
            ExecStep::Fail(_) => panic!("unexpected failure"),
        }
    }
    assert_eq!(forwarded, vec!["{\"type\":\"progress\",\"pct\":10}".to_string()]);
    let t = finished.expect("a result");
    assert!(t.success);
    assert_eq!(t.message, "done");
    assert!(t.steps.is_empty());
    assert_eq!(t.user_instruction, "x");
}

#[test]
fn noise_and_control_lines_are_skipped() {
    for l in ["not json", "{\"pct\":3}", "{\"type\":\"ready\"}", "{\"type\":\"pong\"}", "{\"type\":\"shutdown_ack\"}", "   "] {
        assert!(matches!(exec_step(line(l)), ExecStep::Skip), "{}", l);
    }
}

#[test]
fn error_event_during_request_is_progress() {
    let l = "{\"type\":\"error\",\"message\":\"step failed\"}";
    match exec_step(line(l)) {
        ExecStep::Forward(f) => assert_eq!(f, l),
        _ => panic!("expected forward"),
    }
}

#[test]
fn closed_stream_is_a_crash() {
    assert!(matches!(exec_step(ReadOutcome::Closed), ExecStep::Fail(ExecError::Crashed)));
    assert!(ExecError::Crashed.is_crash());
    assert!(!ExecError::MissingData.is_crash());
}

#[test]
fn result_without_data_or_with_bad_data_fails() {
    assert!(matches!(exec_step(line("{\"type\":\"result\"}")), ExecStep::Fail(ExecError::MissingData)));
    match exec_step(line("{\"type\":\"result\",\"data\":{\"success\":1}}")) {
        ExecStep::Fail(ExecError::BadResult(d)) => assert_eq!(d, "{\"success\":1}"),
        _ => panic!("expected bad result"),
    }
    match exec_step(ReadOutcome::Failed("broken pipe".to_string())) {
        ExecStep::Fail(e) => assert_eq!(e.message(), "failed to read the response: broken pipe"),
        _ => panic!("expected failure"),
    }
}

#[test]
fn ready_event_completes_handshake() {
    assert!(matches!(ready_step(ReadyInput::Read(line("{\"type\":\"ready\"}"))), ReadyStep::Ready));
    assert!(matches!(ready_step(ReadyInput::Read(line("loading model..."))), ReadyStep::Waiting));
    assert!(matches!(ready_step(ReadyInput::Read(line("{\"type\":\"pong\"}"))), ReadyStep::Waiting));
}

#[test]
fn handshake_timeout_differs_from_error_event() {
    assert_eq!(READY_TIMEOUT_SECS, 30);
    let timed_out = ready_step(ReadyInput::DeadlinePassed);
    assert!(matches!(timed_out, ReadyStep::Failed(LaunchError::TimedOut)));
    match ready_step(ReadyInput::Read(line("{\"type\":\"error\",\"message\":\"bad config\"}"))) {
        ReadyStep::Failed(LaunchError::Worker(m)) => assert_eq!(m, "bad config"),
        _ => panic!("expected worker error"),
    }
    assert_eq!(LaunchError::TimedOut.message(), "worker did not become ready within the timeout (30s)");
}

#[test]
fn worker_exiting_before_ready_falls_back() {
    let step = ready_step(ReadyInput::Read(ReadOutcome::Closed));
    let err = match step {
        ReadyStep::Failed(e) => e,
        _ => panic!("expected failure"),
    };
    assert!(matches!(err, LaunchError::ExitedBeforeReady));
    assert_eq!(err.message(), "worker exited before ready");
    let mut sup: Supervisor<u32> = Supervisor::new();
    assert!(sup.needs_launch());
    assert!(!sup.install_launched(Err(err)));
    assert!(sup.begin_request().is_none());
    assert!(sup.needs_launch());
    let mut run = OneshotRun::new();
    run.on_line(RESULT_LINE["{\"type\":\"result\",\"data\":".len()..RESULT_LINE.len() - 1].to_string());
    let t = run.finish().ok().expect("fallback result");
    assert!(t.success);
}

#[test]
fn requests_are_serialized() {
    let mut sup: Supervisor<u32> = Supervisor::new();
    assert!(sup.install_launched(Ok(7)));
    let w = sup.begin_request().expect("worker");
    assert_eq!(w, 7);
    assert_eq!(ExecError::BadContext.message(), "the request context is not JSON");
    assert!(sup.is_busy());
    assert!(sup.begin_request().is_none());
    assert!(!sup.needs_launch());
    match sup.finish_request(w, Ok(done())) {
        RequestEnd::Done(t) => assert_eq!(t.message, "done"),
        _ => panic!("expected done"),
    }
    assert!(sup.has_worker());
    assert_eq!(sup.begin_request(), Some(7));
}

#[test]
fn crash_clears_slot_and_recovers() {
    let mut sup: Supervisor<u32> = Supervisor::new();
    sup.install_launched(Ok(1));
    let w = sup.begin_request().unwrap();
    let err = match exec_step(ReadOutcome::Closed) {
        ExecStep::Fail(e) => e,
        _ => panic!("expected crash"),
    };
    match sup.finish_request(w, Err(err)) {
        RequestEnd::Recover { crashed, error } => {
            assert!(crashed);
            assert_eq!(error.message(), "worker crashed during the request");
        }
        _ => panic!("expected recovery"),
    }
    assert!(!sup.has_worker());
    assert!(!sup.is_busy());
    assert!(sup.needs_launch());
}

#[test]
fn other_failures_also_discard_worker() {
    let mut sup: Supervisor<u32> = Supervisor::new();
    sup.install_launched(Ok(1));
    let w = sup.begin_request().unwrap();
    match sup.finish_request(w, Err(ExecError::WriteFailed("pipe".to_string()))) {
        RequestEnd::Recover { crashed, .. } => assert!(!crashed),
        _ => panic!("expected recovery"),
    }
    assert!(sup.needs_launch());
}

#[test]
fn probe_keeps_only_running_workers() {
    let mut sup: Supervisor<u32> = Supervisor::new();
    sup.install_launched(Ok(3));
    let w = sup.take_for_probe().unwrap();
    assert!(sup.after_probe(w, Liveness::Running));
    assert!(sup.has_worker());
    let w = sup.take_for_probe().unwrap();
    assert!(!sup.after_probe(w, Liveness::Exited));
    assert!(sup.needs_launch());
    assert!(sup.take_for_probe().is_none());
    sup.install_launched(Ok(4));
    let w = sup.take_for_probe().unwrap();
    assert!(!sup.after_probe(w, Liveness::ProbeFailed));
    assert!(!sup.has_worker());
}

#[test]
fn oneshot_arguments() {
    assert_eq!(oneshot_args("/a/main.py", "open notes", &None), vec!["/a/main.py", "--json", "open notes"]);
    assert_eq!(
        oneshot_args("/a/main.py", "go", &Some("{ \"k\" : 1 }".to_string())),
        vec!["/a/main.py", "--json", "go", "--context", "{\"k\":1}"]
    );
    assert_eq!(oneshot_args("/a/main.py", "go", &Some("nope".to_string())), vec!["/a/main.py", "--json", "go"]);
}

#[test]
fn oneshot_last_direct_result_wins() {
    let mut run = OneshotRun::new();
    assert_eq!(run.on_line("{\"type\":\"progress\",\"pct\":50}".to_string()), Some("{\"type\":\"progress\",\"pct\":50}".to_string()));
    assert_eq!(run.on_line("log line".to_string()), None);
    run.on_line("{\"success\":false,\"message\":\"first\",\"steps\":[],\"user_instruction\":\"i\"}".to_string());
    run.on_line("{\"success\":true,\"message\":\"second\",\"steps\":[],\"user_instruction\":\"i\"}".to_string());
    run.on_line("trailing noise".to_string());
    let t = run.finish().ok().expect("result");
    assert!(t.success);
    assert_eq!(t.message, "second");
}

#[test]
fn oneshot_extracts_span_across_lines() {
    let mut run = OneshotRun::new();
    for l in ["starting", "{\"success\": true,", "\"message\": \"ok\", \"steps\": [],", "\"user_instruction\": \"u\"}", "bye"] {
        run.on_line(l.to_string());
    }
    let t = run.finish().ok().expect("result");
    assert_eq!(t.message, "ok");
    assert_eq!(t.user_instruction, "u");
}

#[test]
fn oneshot_without_result_fails_with_output() {
    let mut run = OneshotRun::new();
    run.on_line("a".to_string());
    run.on_line("b".to_string());
    match run.finish() {
        Err(FallbackError::NoJson(o)) => assert_eq!(o, "a\nb"),
        _ => panic!("expected no json"),
    }
    let mut run = OneshotRun::new();
    run.on_line("x {\"a\":1} y".to_string());
    match run.finish() {
        Err(FallbackError::BadJson(o)) => assert_eq!(o, "x {\"a\":1} y"),
        _ => panic!("expected bad json"),
    }
}
