use stress_center::stress::config::StressConfig;
use stress_center::stress::group::{ProcessGroupTracker, SignalRequest, SIGKILL, SIGTERM};
use stress_center::stress::output::{
    cpu_methods_from_output, default_method_index, fallback_cpu_methods, is_verify_failure,
    log_line_text, log_tag, stderr_line_kind, LogKind,
};
use stress_center::stress::page::{
    selected_tests, status_text, ExitOutcome, RunStatus, StartDecision, StressPage,
};

fn config(cpu: bool, memory: bool, method: Option<&str>, verify: bool) -> StressConfig {
    StressConfig {
        test_cpu: cpu,
        test_memory: memory,
        workers: 8,
        duration_secs: 60,
        cpu_method: method.map(|m| m.to_string()),
        verify,
    }
}

#[test]
fn build_args_cpu_with_method_and_verify() {
    let c = config(true, false, Some("matrixprod"), true);
    assert_eq!(
        c.build_args(),
        vec!["--cpu", "8", "--cpu-method", "matrixprod", "--timeout", "60s", "--verify", "--metrics-brief"]
    );
}

#[test]
fn build_args_memory_only() {
    let c = config(false, true, Some("ignored"), false);
    assert_eq!(c.build_args(), vec!["--vm", "8", "--timeout", "60s", "--metrics-brief"]);
}

#[test]
fn build_args_cpu_and_memory() {
    let c = config(true, true, None, true);
    assert_eq!(
        c.build_args(),
        vec!["--cpu", "8", "--vm", "8", "--timeout", "60s", "--verify", "--metrics-brief"]
    );
}

#[test]
fn build_args_large_numbers() {
    let c = StressConfig {
        test_cpu: true,
        test_memory: false,
        workers: 4294967295,
        duration_secs: 0,
        cpu_method: None,
        verify: false,
    };
    assert_eq!(c.build_args(), vec!["--cpu", "4294967295", "--timeout", "0s", "--metrics-brief"]);
}

#[test]
fn command_line_preview_joins_with_spaces() {
    let c = config(true, false, Some("all"), true);
    assert_eq!(
        c.command_line_preview(),
        "--cpu 8 --cpu-method all --timeout 60s --verify --metrics-brief"
    );
}

#[test]
fn command_log_line_starts_the_log() {
    let c = config(false, true, None, false);
    assert_eq!(c.command_log_line(), "$ stress-ng --vm 8 --timeout 60s --metrics-brief\n");
}

#[test]
fn method_is_ignored_without_cpu_test() {
    let a = config(false, true, Some("fft"), true);
    let b = config(false, true, None, true);
    assert_eq!(a.command_line_preview(), b.command_line_preview());
}

#[test]
fn verify_failure_detection() {
    assert!(is_verify_failure("stress-ng: fail:  [1234] cpu: verification failed"));
    assert!(is_verify_failure("FAIL: something"));
    assert!(is_verify_failure("the run FAILED"));
    assert!(is_verify_failure("Failed to allocate"));
    assert!(!is_verify_failure("stress-ng: info:  [1234] passed: 8: cpu (8)"));
    assert!(!is_verify_failure("fail without colon"));
    assert!(!is_verify_failure(""));
}

#[test]
fn verify_failure_ignores_case() {
    for line in ["x FaIl: y", "x fail: y", "nothing here", "FaiLeD"] {
        assert_eq!(is_verify_failure(line), is_verify_failure(&line.to_ascii_lowercase()));
    }
}

#[test]
fn stderr_lines_are_classified() {
    assert_eq!(stderr_line_kind("stress-ng: fail: [1] cpu"), LogKind::Fail);
    assert_eq!(stderr_line_kind("stress-ng: info: [1] dispatching hogs"), LogKind::Stderr);
}

#[test]
fn log_tags_and_text() {
    assert_eq!(log_tag(LogKind::Stdout), None);
    assert_eq!(log_tag(LogKind::Info), Some("stress-log-info"));
    assert_eq!(log_tag(LogKind::Stderr), Some("stress-log-stderr"));
    assert_eq!(log_tag(LogKind::Fail), Some("stress-log-fail"));
    assert_eq!(log_line_text("hello"), "hello\n");
    assert_eq!(log_line_text(""), "\n");
}

#[test]
fn cpu_methods_parsed_from_choices_are() {
    let err = "option cpu-method choice 'which' not known, choices are: all ackermann apery bitops\n";
    let methods = cpu_methods_from_output("", err);
    assert_eq!(methods, vec!["all", "ackermann", "apery", "bitops"]);
}

#[test]
fn cpu_methods_parsed_from_must_be_one_of() {
    let out = "cpu-method must be one of: all, fft; 'matrixprod' (int8)\n";
    let methods = cpu_methods_from_output(out, "");
    assert_eq!(methods, vec!["all", "fft", "matrixprod", "int8"]);
}

#[test]
fn cpu_methods_delimiter_case_and_priority() {
    // "choices are:" wins even when "must be one of:" comes first.
    let out = "MUST BE ONE OF: a b\nChoices Are: c\td\u{a0}e";
    let methods = cpu_methods_from_output(out, "");
    assert_eq!(methods, vec!["c", "d", "e"]);
}

#[test]
fn cpu_methods_fall_back_to_all() {
    assert_eq!(cpu_methods_from_output("no list here", "sorry"), vec!["all"]);
    assert_eq!(cpu_methods_from_output("choices are:  ... ,, ", ""), vec!["all"]);
    assert_eq!(fallback_cpu_methods(), vec!["all"]);
}

#[test]
fn cpu_methods_keep_inner_punctuation() {
    let methods = cpu_methods_from_output("choices are: (int-8) x.y 'z'", "");
    assert_eq!(methods, vec!["int-8", "x.y", "z"]);
}

#[test]
fn default_method_prefers_all() {
    let ms: Vec<String> = vec!["fft".into(), "all".into(), "all".into()];
    assert_eq!(default_method_index(&ms), 1);
    let none: Vec<String> = vec!["fft".into(), "int8".into()];
    assert_eq!(default_method_index(&none), 0);
    assert_eq!(default_method_index(&Vec::new()), 0);
}

#[test]
fn tracker_stop_sends_term_to_group() {
    let mut t = ProcessGroupTracker::new();
    assert_eq!(t.stop_request(), None);
    t.on_spawned(4242);
    assert_eq!(t.active_group(), 4242);
    assert_eq!(t.stop_request(), Some(SignalRequest { target: -4242, signal: SIGTERM }));
    assert_eq!(t.grace_expired(4242, true), Some(SignalRequest { target: -4242, signal: SIGKILL }));
    assert_eq!(t.grace_expired(4242, false), None);
}

#[test]
fn tracker_stale_exit_keeps_new_group() {
    let mut t = ProcessGroupTracker::new();
    t.on_spawned(100);
    t.on_spawned(200);
    t.on_exited(100);
    assert_eq!(t.active_group(), 200);
    t.on_exited(200);
    assert_eq!(t.active_group(), 0);
    assert_eq!(t.stop_request(), None);
    assert_eq!(t.grace_expired(200, false), None);
}

#[test]
fn tracker_kills_workers_left_after_leader_exit() {
    let mut t = ProcessGroupTracker::new();
    t.on_spawned(300);
    assert_eq!(t.stop_request(), Some(SignalRequest { target: -300, signal: SIGTERM }));
    t.on_exited(300);
    assert_eq!(t.active_group(), 0);
    assert_eq!(t.grace_expired(300, true), Some(SignalRequest { target: -300, signal: SIGKILL }));
}

#[test]
fn tracker_kill_now() {
    let mut t = ProcessGroupTracker::new();
    assert!(t.kill_now().is_empty());
    t.on_spawned(31);
    assert_eq!(
        t.kill_now(),
        vec![
            SignalRequest { target: -31, signal: SIGTERM },
            SignalRequest { target: -31, signal: SIGKILL }
        ]
    );
    assert_eq!(t.active_group(), 0);
    assert_eq!(t.stop_request(), None);
}

#[test]
fn page_run_cycle() {
    let mut p = StressPage::new();
    let m = p.model();
    assert!(!m.is_running && m.controls_sensitive && m.button_sensitive && !m.button_shows_stop);
    assert_eq!(p.start_requested(true), StartDecision::Launch);
    p.launch_finished(true);
    let m = p.model();
    assert!(m.is_running && !m.controls_sensitive && m.button_shows_stop);
    assert_eq!(m.status, RunStatus::Running);
    assert_eq!(p.start_requested(true), StartDecision::AlreadyRunning);
    assert!(p.stop_requested());
    let m = p.model();
    assert_eq!(m.status, RunStatus::Stopping);
    assert!(!m.button_sensitive && m.is_running);
    assert_eq!(p.process_exited(ExitOutcome::Failure), RunStatus::FinishedWithErrors);
    let m = p.model();
    assert!(!m.is_running && m.controls_sensitive && m.button_sensitive && !m.button_shows_stop);
    assert!(!p.stop_requested());
}

#[test]
fn page_missing_binary() {
    let mut p = StressPage::new();
    assert_eq!(p.start_requested(false), StartDecision::BinaryMissing);
    assert!(p.model().banner_revealed);
    assert!(!p.model().is_running);
    p.availability_checked(false);
    assert!(!p.model().button_sensitive);
    assert_eq!(p.start_requested(true), StartDecision::Launch);
    assert!(!p.model().banner_revealed);
    p.launch_finished(false);
    assert!(!p.model().is_running);
    assert_eq!(p.model().status, RunStatus::Idle);
}

#[test]
fn page_exit_outcomes() {
    let mut p = StressPage::new();
    assert_eq!(p.process_exited(ExitOutcome::Success), RunStatus::Finished);
    assert_eq!(p.process_exited(ExitOutcome::WaitError), RunStatus::WaitFailed);
    assert_eq!(status_text(RunStatus::Finished), Some("Finished"));
    assert_eq!(status_text(RunStatus::WaitFailed), Some("Error waiting for stress-ng"));
    assert_eq!(status_text(RunStatus::Running), Some("Running…"));
    assert_eq!(status_text(RunStatus::Idle), None);
}

#[test]
fn page_static_information() {
    let mut p = StressPage::new();
    assert!(p.set_static_information(0, false, true));
    let m = p.model();
    assert_eq!(m.cpu_count, 1);
    assert!(!m.has_power && m.has_temperature);
    assert!(p.set_static_information(16, true, false));
    assert_eq!(p.model().cpu_count, 16);
}

#[test]
fn test_type_selection() {
    assert_eq!(selected_tests(0), (true, false));
    assert_eq!(selected_tests(1), (false, true));
    assert_eq!(selected_tests(2), (true, true));
    assert_eq!(selected_tests(3), (false, false));
}
