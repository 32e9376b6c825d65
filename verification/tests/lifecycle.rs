use undetected_chromedriver::CacheState;
use undetected_chromedriver::HostOs;
use undetected_chromedriver::PipelineStep;
use undetected_chromedriver::host::driver_file_name;
use undetected_chromedriver::host::os_from_name;
use undetected_chromedriver::host::patched_file_name;
use undetected_chromedriver::lifecycle::cache_state;
use undetected_chromedriver::lifecycle::run_acquire;
use undetected_chromedriver::lifecycle::run_handshake;
use undetected_chromedriver::spawn_chromedriver::invocation_path;
use undetected_chromedriver::spawn_chromedriver::pick_port;
use undetected_chromedriver::spawn_chromedriver::port_arg;

#[test]
fn handshake_succeeds_after_exactly_n_attempts() {
    // Fails the first two calls, succeeds on the third.
    let outcomes = vec![false, false, true, true, true];
    let run = run_handshake(&outcomes, 5);
    assert!(run.connected);
    assert_eq!(run.attempts, 3);
    assert_eq!(run.sleeps, 2);
    assert!(!run.process_killed);
}

#[test]
fn handshake_success_on_first_attempt_sleeps_never() {
    let outcomes = vec![true, true, true];
    let run = run_handshake(&outcomes, 3);
    assert!(run.connected);
    assert_eq!(run.attempts, 1);
    assert_eq!(run.sleeps, 0);
    assert!(!run.process_killed);
}

#[test]
fn exhausted_handshake_kills_the_process() {
    let outcomes = vec![false, false, false, false];
    let run = run_handshake(&outcomes, 4);
    assert!(!run.connected);
    assert_eq!(run.attempts, 4);
    assert_eq!(run.sleeps, 4);
    assert!(run.process_killed);
}

#[test]
fn acquisition_with_no_cached_files_runs_each_step_once() {
    // Nothing cached, no transient failures: fetch, patch, spawn,
    // handshake, in that order, exactly once each.
    let results = vec![true; 8];
    let trace = run_acquire(false, false, &results);
    assert!(trace.success);
    assert_eq!(
        trace.steps,
        vec![
            PipelineStep::Fetch,
            PipelineStep::Patch,
            PipelineStep::Spawn,
            PipelineStep::Handshake,
        ]
    );
}

#[test]
fn failed_first_attempt_deletes_the_cache_before_refetching() {
    // The first attempt starts from a patched cache and fails its
    // handshake; the cached executables are then deleted, and the second
    // attempt runs the full pipeline from a fresh fetch and succeeds.
    let results = vec![true, false, true, true, true, true, true, true];
    let trace = run_acquire(false, true, &results);
    assert!(trace.success);
    assert_eq!(
        trace.steps,
        vec![
            PipelineStep::Spawn,
            PipelineStep::Handshake,
            PipelineStep::DeleteCached,
            PipelineStep::Fetch,
            PipelineStep::Patch,
            PipelineStep::Spawn,
            PipelineStep::Handshake,
        ]
    );
}

#[test]
fn two_failed_attempts_surface_the_error_with_no_third_try() {
    let results = vec![false, false, false, false, false, false, false, false];
    let trace = run_acquire(false, false, &results);
    assert!(!trace.success);
    assert_eq!(
        trace.steps,
        vec![
            PipelineStep::Fetch,
            PipelineStep::DeleteCached,
            PipelineStep::Fetch,
        ]
    );
}

#[test]
fn cached_raw_executable_skips_the_fetch() {
    let results = vec![true; 8];
    let trace = run_acquire(true, false, &results);
    assert!(trace.success);
    assert_eq!(
        trace.steps,
        vec![
            PipelineStep::Patch,
            PipelineStep::Spawn,
            PipelineStep::Handshake,
        ]
    );
}

#[test]
fn cache_states_from_existence_checks() {
    assert_eq!(cache_state(false, false), CacheState::Missing);
    assert_eq!(cache_state(true, false), CacheState::Raw);
    assert_eq!(cache_state(true, true), CacheState::Patched);
    assert_eq!(cache_state(false, true), CacheState::Patched);
}

#[test]
fn host_os_names() {
    assert_eq!(os_from_name("linux"), Some(HostOs::Linux));
    assert_eq!(os_from_name("macos"), Some(HostOs::MacOs));
    assert_eq!(os_from_name("windows"), Some(HostOs::Windows));
    assert_eq!(os_from_name("freebsd"), None);
    assert_eq!(os_from_name(""), None);
}

#[test]
fn driver_file_names_per_os() {
    assert_eq!(driver_file_name(HostOs::Linux), "chromedriver");
    assert_eq!(driver_file_name(HostOs::MacOs), "chromedriver");
    assert_eq!(driver_file_name(HostOs::Windows), "chromedriver.exe");
    assert_eq!(patched_file_name(HostOs::Linux), "chromedriver_PATCHED");
    assert_eq!(patched_file_name(HostOs::MacOs), "chromedriver_PATCHED");
    assert_eq!(
        patched_file_name(HostOs::Windows),
        "chromedriver_PATCHED.exe"
    );
}

#[test]
fn spawn_plan_values() {
    assert_eq!(port_arg(3124), "--port=3124");
    assert_eq!(port_arg(2000), "--port=2000");
    assert_eq!(invocation_path("chromedriver_PATCHED"), "./chromedriver_PATCHED");
    for _ in 0..32 {
        let p = pick_port();
        assert!((2000..5000).contains(&p));
    }
}
