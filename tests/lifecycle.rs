use openscans_sidecar::http::{classify_detect_response, detect_body, detect_url, health_url, is_success_status, probe_verdict, Unhealthy};
use openscans_sidecar::readiness::{StartupWait, WaitStep, POLL_INTERVAL_MS, STARTUP_DEADLINE_MS};
use openscans_sidecar::status::{ServerError, ServerStatus, DEFAULT_PORT, SERVER_VERSION};
use openscans_sidecar::supervisor::{stop_result, AIServerState, StartStep, StatusStep};

fn status(running: bool, port: u16) -> ServerStatus {
    ServerStatus { running, port, version: "1.0.0".to_string() }
}

#[test]
fn new_state_is_empty_on_default_port() {
    let s: AIServerState<u32> = AIServerState::new();
    assert!(!s.has_process());
    assert_eq!(s.port(), 8000);
    assert_eq!(DEFAULT_PORT, 8000);
    assert_eq!(SERVER_VERSION, "1.0.0");
}

#[test]
fn second_start_does_not_spawn() {
    let mut s: AIServerState<u32> = AIServerState::new();
    assert_eq!(s.begin_start(), StartStep::Spawn);
    assert_eq!(s.record_spawn(Ok(41)), Ok(()));
    assert_eq!(s.begin_start(), StartStep::CheckExisting);
    assert_eq!(s.begin_start(), StartStep::CheckExisting);
    assert_eq!(s.status_after_probe(true), status(true, 8000));
    assert_eq!(s.take_for_stop(), Some(41));
}

#[test]
fn failed_spawn_leaves_slot_empty() {
    let mut s: AIServerState<u32> = AIServerState::new();
    let r = s.record_spawn(Err("no such file".to_string()));
    assert_eq!(r, Err(ServerError::Spawn("no such file".to_string())));
    assert!(!s.has_process());
    assert_eq!(s.begin_start(), StartStep::Spawn);
}

#[test]
fn stop_without_process_is_noop() {
    let mut s: AIServerState<u32> = AIServerState::with_port(9001);
    let taken = s.take_for_stop();
    assert_eq!(taken, None);
    assert_eq!(stop_result(None), Ok(()));
    assert!(!s.has_process());
    assert_eq!(s.port(), 9001);
}

#[test]
fn stop_reports_refused_kill() {
    let mut s: AIServerState<u32> = AIServerState::new();
    s.record_spawn(Ok(7)).unwrap();
    assert_eq!(s.take_for_stop(), Some(7));
    assert!(!s.has_process());
    assert_eq!(stop_result(Some(Ok(()))), Ok(()));
    assert_eq!(
        stop_result(Some(Err("permission denied".to_string()))),
        Err(ServerError::Terminate("permission denied".to_string()))
    );
}

#[test]
fn unresponsive_stored_process_reports_not_running() {
    let mut s: AIServerState<u32> = AIServerState::new();
    s.record_spawn(Ok(3)).unwrap();
    assert_eq!(s.status_step(), StatusStep::Probe);
    assert_eq!(s.status_after_probe(false), status(false, 8000));
    assert!(s.has_process());
    assert_eq!(s.status_after_probe(true), status(true, 8000));
}

#[test]
fn status_without_process_needs_no_probe() {
    let s: AIServerState<u32> = AIServerState::new();
    assert_eq!(s.status_step(), StatusStep::Report(status(false, 8000)));
}

#[test]
fn detect_without_process_is_not_running() {
    let s: AIServerState<u32> = AIServerState::new();
    assert_eq!(s.detect_target(), Err(ServerError::NotRunning));
}

#[test]
fn detect_with_process_targets_worker() {
    let mut s: AIServerState<u32> = AIServerState::new();
    s.record_spawn(Ok(5)).unwrap();
    assert_eq!(s.detect_target(), Ok("http://127.0.0.1:8000/api/detect-vertebrae".to_string()));
}

#[test]
fn serialized_starts_spawn_one_process() {
    let mut s: AIServerState<u32> = AIServerState::new();
    let mut spawned = Vec::new();
    let mut statuses = Vec::new();
    for caller in 0..5u32 {
        match s.begin_start() {
            StartStep::Spawn => {
                s.record_spawn(Ok(100 + caller)).unwrap();
                spawned.push(caller);
                let mut wait = StartupWait::with_defaults();
                assert_eq!(wait.step(true), WaitStep::Ready);
                statuses.push(s.startup_result(true).unwrap());
            }
            StartStep::CheckExisting => statuses.push(s.status_after_probe(true)),
        }
    }
    assert_eq!(spawned, vec![0]);
    assert_eq!(statuses.len(), 5);
    assert!(statuses.iter().all(|st| *st == status(true, 8000)));
    assert_eq!(s.take_for_stop(), Some(100));
}

#[test]
fn end_to_end_start_detect_stop() {
    let mut s: AIServerState<u32> = AIServerState::new();
    assert_eq!(s.begin_start(), StartStep::Spawn);
    s.record_spawn(Ok(9)).unwrap();
    // healthy after one second: two failed probes, two pauses of 500 ms
    let mut wait = StartupWait::with_defaults();
    assert_eq!(wait.step(false), WaitStep::Sleep(500));
    assert_eq!(wait.step(false), WaitStep::Sleep(500));
    assert_eq!(wait.step(true), WaitStep::Ready);
    assert_eq!(wait.elapsed_ms(), 1000);
    assert!(wait.elapsed_ms() < STARTUP_DEADLINE_MS);
    assert_eq!(s.startup_result(true), Ok(status(true, 8000)));

    let body = detect_body("/tmp/a.dcm", true);
    assert_eq!(body, "{\"file_path\":\"/tmp/a.dcm\",\"fast_mode\":true}");
    let answer = "{\"success\":true,\"vertebrae\":[{\"label\":\"L1\",\"center\":{\"x\":1,\"y\":2,\"z\":3},\"confidence\":0.9}],\"processing_time_ms\":42.0}".to_string();
    assert_eq!(classify_detect_response(200, answer.clone()), Ok(answer));

    let taken = s.take_for_stop();
    assert_eq!(taken, Some(9));
    assert_eq!(stop_result(Some(Ok(()))), Ok(()));
    assert_eq!(s.status_step(), StatusStep::Report(status(false, 8000)));
}

#[test]
fn startup_wait_times_out_and_keeps_process() {
    let mut s: AIServerState<u32> = AIServerState::new();
    s.record_spawn(Ok(1)).unwrap();
    let mut wait = StartupWait::new(1000, 500);
    assert_eq!(wait.step(false), WaitStep::Sleep(500));
    assert_eq!(wait.step(false), WaitStep::Sleep(500));
    assert_eq!(wait.step(false), WaitStep::TimedOut);
    assert_eq!(wait.elapsed_ms(), 1000);
    assert_eq!(s.startup_result(false), Err(ServerError::StartupTimeout));
    assert!(s.has_process());
    assert_eq!(s.begin_start(), StartStep::CheckExisting);
}

#[test]
fn startup_wait_interval_not_fitting_deadline() {
    let mut wait = StartupWait::new(700, 500);
    assert_eq!(wait.step(false), WaitStep::Sleep(500));
    assert_eq!(wait.step(false), WaitStep::TimedOut);
    assert_eq!(wait.elapsed_ms(), 500);
    let default_wait = StartupWait::with_defaults();
    assert_eq!(default_wait.elapsed_ms(), 0);
    assert_eq!(POLL_INTERVAL_MS, 500);
}

#[test]
fn worker_urls() {
    assert_eq!(health_url(8000), "http://127.0.0.1:8000/api/health");
    assert_eq!(health_url(0), "http://127.0.0.1:0/api/health");
    assert_eq!(health_url(65535), "http://127.0.0.1:65535/api/health");
    assert_eq!(detect_url(10), "http://127.0.0.1:10/api/detect-vertebrae");
}

#[test]
fn success_statuses() {
    assert!(!is_success_status(199));
    assert!(is_success_status(200));
    assert!(is_success_status(204));
    assert!(is_success_status(299));
    assert!(!is_success_status(300));
    assert!(!is_success_status(500));
}

#[test]
fn probe_verdicts() {
    assert_eq!(probe_verdict(Ok(200)), Ok(()));
    assert_eq!(probe_verdict(Ok(299)), Ok(()));
    assert_eq!(probe_verdict(Ok(503)), Err(Unhealthy::Status(503)));
    assert_eq!(probe_verdict(Ok(199)), Err(Unhealthy::Status(199)));
    assert_eq!(
        probe_verdict(Err("connection refused".to_string())),
        Err(Unhealthy::Transport("connection refused".to_string()))
    );
}

#[test]
fn worker_error_keeps_status_and_body() {
    assert_eq!(
        classify_detect_response(500, "boom".to_string()),
        Err(ServerError::Worker { status: 500, body: "boom".to_string() })
    );
    assert_eq!(
        classify_detect_response(404, String::new()),
        Err(ServerError::Worker { status: 404, body: String::new() })
    );
}

#[test]
fn detect_body_escapes_path() {
    assert_eq!(
        detect_body("a\"b\\c\nd\u{1}é", false),
        "{\"file_path\":\"a\\\"b\\\\c\\nd\\u0001é\",\"fast_mode\":false}"
    );
    assert_eq!(detect_body("", true), "{\"file_path\":\"\",\"fast_mode\":true}");
    assert_eq!(detect_body("\t\r\u{8}\u{c}\u{1f}", true), "{\"file_path\":\"\\t\\r\\b\\f\\u001f\",\"fast_mode\":true}");
}
