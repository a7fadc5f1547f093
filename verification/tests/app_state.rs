use corecycler_gui::app_state::{AppState, Command, Message};
use corecycler_gui::model::{
    CoreCyclerConfig, LinpackMode, LinpackVersion, StressTestProgram, YCruncherMode,
};
use corecycler_gui::monitor::CoreState;

fn fresh() -> AppState {
    AppState::new(CoreCyclerConfig::default(), 4, vec!["a.ini".to_string()])
}

#[test]
fn starts_ready_with_idle_cores() {
    let st = fresh();
    assert!(!st.is_running);
    assert_eq!(st.monitor.status_text, "Ready");
    assert_eq!(st.monitor.cores.len(), 4);
    assert_eq!(st.monitor.cores[3].id, 3);
    assert_eq!(st.monitor.cores[3].state, CoreState::Idle);
    assert_eq!(st.preset_configs, vec!["a.ini".to_string()]);
}

#[test]
fn run_prepares_old_ycruncher_and_asks_to_start() {
    let mut st = fresh();
    st.config.general.use_config_file = "configs\\x.ini".to_string();
    st.config.ycruncher.mode = YCruncherMode::ZN5;
    let cmd = st.update(Message::RunProgram("YCRUNCHER_OLD".to_string()));
    assert!(matches!(cmd, Command::StartRun(ref p) if p == "YCRUNCHER_OLD"));
    assert_eq!(st.config.general.stress_test_program, StressTestProgram::YCruncherOld);
    assert_eq!(st.config.general.use_config_file, "");
    assert_eq!(st.config.ycruncher.tests, "BKT, BBP");
    assert_eq!(st.config.ycruncher.mode, YCruncherMode::X86);
}

#[test]
fn run_of_new_ycruncher_falls_back_to_default_tests() {
    let mut st = fresh();
    st.config.ycruncher.tests = "C17, HNT".to_string();
    let _ = st.update(Message::RunProgram("YCRUNCHER".to_string()));
    assert_eq!(st.config.ycruncher.tests, "BKT, BBP, SFTv4, SNT, SVT, FFTv4, N63, VT3");
}

#[test]
fn a_whole_run() {
    let mut st = fresh();
    let _ = st.update(Message::RunProgram("PRIME95".to_string()));
    st.run_started("PRIME95");
    assert!(st.is_running);
    assert_eq!(st.log_lines, vec!["[GUI] Starting PRIME95".to_string()]);
    assert_eq!(st.monitor.status_text, "Starting PRIME95...");

    // A second RUN while running does nothing.
    let cmd = st.update(Message::RunProgram("LINPACK".to_string()));
    assert!(matches!(cmd, Command::Nothing));
    assert_eq!(st.config.general.stress_test_program, StressTestProgram::Prime95);

    assert!(matches!(st.update(Message::Tick), Command::PollRunner));
    let lines = vec![
        "12:00:00 - Iteration 1".to_string(),
        "12:00:01 - Set to Core 2 (CPU 4)".to_string(),
    ];
    assert!(st.counters_fit(lines.len()));
    st.receive_output(lines);
    assert_eq!(st.monitor.current_iteration, 1);
    assert_eq!(st.monitor.cores[2].state, CoreState::Testing);
    assert_eq!(st.log_lines.len(), 3);

    assert!(matches!(st.update(Message::StopTest), Command::StopRunner));
    assert_eq!(st.monitor.status_text, "Stopping...");

    st.process_exited(-1, "5s");
    assert!(!st.is_running);
    assert_eq!(st.monitor.status_text, "Finished PRIME95 after 5s (exit code: -1)");
    assert!(matches!(st.update(Message::Tick), Command::Nothing));
    assert!(matches!(st.update(Message::StopTest), Command::Nothing));

    match st.update(Message::CopyLog) {
        Command::CopyToClipboard(text) => assert_eq!(
            text,
            "[GUI] Starting PRIME95\n12:00:00 - Iteration 1\n12:00:01 - Set to Core 2 (CPU 4)"
        ),
        _ => panic!("expected a clipboard copy"),
    }
}

#[test]
fn restarting_resets_cores() {
    let mut st = fresh();
    st.run_started("PRIME95");
    st.receive_output(vec!["Set to Core 1 (CPU 2)".to_string(), "Core 1 has thrown an error".to_string()]);
    assert_eq!(st.monitor.cores[1].error_count, 1);
    st.process_exited(0, "1m 00s");
    st.run_started("AIDA64");
    assert_eq!(st.monitor.cores[1].error_count, 0);
    assert_eq!(st.monitor.cores[1].state, CoreState::Idle);
    assert_eq!(st.monitor.current_iteration, 0);
    assert_eq!(st.log_lines.len(), 1);
}

#[test]
fn log_keeps_newest_lines() {
    let mut st = fresh();
    st.run_started("PRIME95");
    let lines: Vec<String> = (0..5001).map(|i| format!("line {}", i)).collect();
    assert!(st.counters_fit(lines.len()));
    st.receive_output(lines);
    assert_eq!(st.log_lines.len(), 3000);
    assert_eq!(st.log_lines[2999], "line 5000");
    assert_eq!(st.log_lines[0], "line 2001");
}

#[test]
fn reports_of_outside_work() {
    let mut st = fresh();
    assert!(matches!(st.update(Message::SaveConfig), Command::SaveConfig));
    st.save_finished(Ok(()));
    assert_eq!(st.status_message, Some("Config saved to config.ini".to_string()));
    st.save_finished(Err("disk full".to_string()));
    assert_eq!(st.status_message, Some("Save failed: disk full".to_string()));
    assert!(matches!(st.update(Message::LoadConfig), Command::LoadConfig));
    st.load_finished("config.ini", Ok("[General]\nstressTestProgram = LINPACK\n".to_string()));
    assert_eq!(st.config.general.stress_test_program, StressTestProgram::Linpack);
    assert_eq!(st.status_message, Some("Loaded config.ini".to_string()));
    st.load_finished("config.ini", Err("missing".to_string()));
    assert_eq!(st.status_message, Some("Load failed: missing".to_string()));
    assert_eq!(st.config.general.stress_test_program, StressTestProgram::Linpack);
    st.run_save_failed("locked");
    assert_eq!(st.status_message, Some("Failed to save config: locked".to_string()));
    st.run_start_failed("no script");
    assert_eq!(st.status_message, Some("Failed to start: no script".to_string()));
    let _ = st.update(Message::ResetConfig);
    assert_eq!(st.config.general.stress_test_program, StressTestProgram::Prime95);
    assert_eq!(st.status_message, Some("Config reset to defaults".to_string()));
}

#[test]
fn editing_messages_change_settings() {
    let mut st = fresh();
    let _ = st.update(Message::ConfigSectionChanged(3));
    assert_eq!(st.config_section, 3);
    let _ = st.update(Message::LinpackModeChanged("SLOW".to_string()));
    assert_eq!(st.config.linpack.mode, LinpackMode::Slow);
    let _ = st.update(Message::LinpackVersion("2024".to_string()));
    assert_eq!(st.config.linpack.version, LinpackVersion::V2024);
    assert_eq!(st.config.linpack.mode, LinpackMode::Fastest);
    let _ = st.update(Message::ToggleCoreIgnore(3, true));
    let _ = st.update(Message::ToggleCoreIgnore(1, true));
    assert_eq!(st.config.general.cores_to_ignore, "1, 3");
    let _ = st.update(Message::ToggleCoreIgnore(3, false));
    assert_eq!(st.config.general.cores_to_ignore, "1");
    let _ = st.update(Message::YCruncherMode("19-ZN2 (Zen 2/3)".to_string()));
    assert_eq!(st.config.ycruncher.mode, YCruncherMode::ZN2);
    let _ = st.update(Message::YCruncherToggleTest("BKT".to_string(), false));
    assert_eq!(st.config.ycruncher.tests, "BBP, SFTv4, SNT, SVT, FFTv4, N63, VT3");
    let _ = st.update(Message::GeneralNumberOfThreads("2".to_string()));
    assert_eq!(st.config.general.number_of_threads, 2);
    let _ = st.update(Message::GeneralNumberOfThreads("x".to_string()));
    assert_eq!(st.config.general.number_of_threads, 1);
    let _ = st.update(Message::GeneralRuntimePerCore("10".to_string()));
    assert_eq!(st.config.general.runtime_per_core, "10m");
    let _ = st.update(Message::Aida64ToggleModeComponent("ram".to_string(), true));
    assert_eq!(st.config.aida64.mode, "CACHE,RAM");
    let _ = st.update(Message::LogLevel("4".to_string()));
    assert_eq!(st.config.logging.log_level, "4");
    let _ = st.update(Message::DebugShowWindow(true));
    assert!(st.config.debug.stress_test_program_window_to_foreground);
    assert!(!st.is_running);
}

#[test]
fn counters_fit_refuses_too_many_lines() {
    let st = fresh();
    assert!(st.counters_fit(0));
    assert!(st.counters_fit(1000));
    assert!(!st.counters_fit(usize::MAX));
}
