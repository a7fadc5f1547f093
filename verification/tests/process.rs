use corecycler_gui::log_watch::{
    log_file_line, normalize_mode_list, script_command, stderr_line, LogFile, LogMonitorHint,
};
use corecycler_gui::model::{
    CoreCyclerConfig, LinpackMode, LinpackVersion, Prime95Mode, StressTestProgram, YCruncherMode,
};

#[test]
fn extracts_matching_core_log_name_from_output_line() {
    let mut config = CoreCyclerConfig::default();
    config.logging.name = "StressTest".to_string();
    config.general.stress_test_program = StressTestProgram::Prime95;
    config.prime95.mode = Prime95Mode::AVX2;

    let hint = LogMonitorHint::from_config(&config);
    let logs_dir = std::path::Path::new(r"E:\logs");
    let line = " - CoreCycler: StressTest_2026-03-08_12-00-00_PRIME95_AVX2.log";

    assert_eq!(
        hint.extract_path_from_output_line(line).map(|f| logs_dir.join(f)),
        Some(logs_dir.join("StressTest_2026-03-08_12-00-00_PRIME95_AVX2.log"))
    );
}

#[test]
fn linpack_newer_versions_expect_fastest_in_core_log_name() {
    let mut config = CoreCyclerConfig::default();
    config.general.stress_test_program = StressTestProgram::Linpack;
    config.linpack.version = LinpackVersion::V2024;

    let hint = LogMonitorHint::from_config(&config);

    assert!(hint.matches_file_name(
        "CoreCycler_2026-03-08_12-00-00_LINPACK_2024_FASTEST.log"
    ));
    assert!(!hint.matches_file_name(
        "CoreCycler_2026-03-08_12-00-00_LINPACK_2024_MEDIUM.log"
    ));
}

#[test]
fn older_linpack_uses_configured_mode_in_log_name() {
    let mut config = CoreCyclerConfig::default();
    config.general.stress_test_program = StressTestProgram::Linpack;
    config.linpack.version = LinpackVersion::V2019;
    config.linpack.mode = LinpackMode::Slowest;
    let hint = LogMonitorHint::from_config(&config);
    assert!(hint.matches_file_name("CoreCycler_x_LINPACK_2019_SLOWEST.log"));
    assert!(!hint.matches_file_name("CoreCycler_x_LINPACK_2019_FASTEST.log"));
}

#[test]
fn ycruncher_and_aida_log_names() {
    let mut config = CoreCyclerConfig::default();
    config.general.stress_test_program = StressTestProgram::YCruncher;
    config.ycruncher.mode = YCruncherMode::ZN2;
    let hint = LogMonitorHint::from_config(&config);
    assert!(hint.matches_file_name("CoreCycler_d_YCRUNCHER_19-ZN2.log"));

    let mut config = CoreCyclerConfig::default();
    config.general.stress_test_program = StressTestProgram::Aida64;
    config.aida64.mode = "cpu, fpu".to_string();
    let hint = LogMonitorHint::from_config(&config);
    assert!(hint.matches_file_name("CoreCycler_d_AIDA64_CPU-FPU.log"));
    assert!(!hint.matches_file_name("CoreCycler_d_AIDA64_CACHE.log"));
}

#[test]
fn log_path_in_a_folder_gives_its_file_name() {
    let mut config = CoreCyclerConfig::default();
    config.logging.name = "StressTest".to_string();
    config.prime95.mode = Prime95Mode::AVX2;
    let hint = LogMonitorHint::from_config(&config);
    let line = "Writing to \"/var/cc/logs/StressTest_2026-03-08_12-00-00_PRIME95_AVX2.log\"";
    assert_eq!(
        hint.extract_path_from_output_line(line),
        Some("StressTest_2026-03-08_12-00-00_PRIME95_AVX2.log".to_string())
    );
    assert_eq!(hint.extract_path_from_output_line("no log named here"), None);
    assert_eq!(
        hint.extract_path_from_output_line("other_2026_PRIME95_SSE.log"),
        None
    );
}

#[test]
fn aida_mode_list_normalisation() {
    assert_eq!(normalize_mode_list("cpu, ,fpu"), "CPU-FPU");
    assert_eq!(normalize_mode_list("CACHE"), "CACHE");
    assert_eq!(normalize_mode_list(" , "), "CACHE");
    assert_eq!(normalize_mode_list(""), "CACHE");
}

fn log(name: &str, modified: u128) -> LogFile {
    LogFile { name: name.to_string(), modified }
}

#[test]
fn newest_log_of_the_run_is_chosen() {
    let mut config = CoreCyclerConfig::default();
    config.logging.name = "StressTest".to_string();
    config.prime95.mode = Prime95Mode::AVX2;
    let hint = LogMonitorHint::from_config(&config);
    let files = vec![
        log("StressTest_1_PRIME95_AVX2.log", 10),
        log("StressTest_2_PRIME95_AVX2.log", 30),
        log("StressTest_3_PRIME95_AVX2.log", 30),
        log("other_PRIME95_AVX2.log", 50),
        log("StressTest_4_PRIME95_AVX2.log", 5),
    ];
    assert_eq!(hint.newest_log(&files, 8), Some(1));
    assert_eq!(hint.newest_log(&files, 31), None);
    assert_eq!(hint.newest_log(&Vec::new(), 0), None);
}

#[test]
fn powershell_command_quotes_the_path() {
    assert_eq!(
        script_command("C:\\it's\\script-corecycler.ps1"),
        "& 'C:\\it''s\\script-corecycler.ps1' *>&1"
    );
    assert_eq!(script_command("x.ps1"), "& 'x.ps1' *>&1");
}

#[test]
fn log_and_stderr_lines_are_marked() {
    assert_eq!(log_file_line("abc  \r\n"), Some("[LOG] abc".to_string()));
    assert_eq!(log_file_line("  lead kept\n"), Some("[LOG]   lead kept".to_string()));
    assert_eq!(log_file_line("   \n"), None);
    assert_eq!(stderr_line("oops"), "[STDERR] oops");
}

#[test]
fn non_ascii_modes_are_upper_cased_not_dropped() {
    assert_eq!(normalize_mode_list("é"), "É");
    assert_eq!(normalize_mode_list("straße, cpu"), "STRASSE-CPU");
}
