use corecycler_gui::config_file::{
    get_bool, get_str, load_config, parse_flag, render_config, write_bool, write_str,
};
use corecycler_gui::ini::{parse_ini, strip_inline_comment};
use corecycler_gui::model::{
    CoreCyclerConfig, CoreTestOrder, FFTSize, LinpackMode, LinpackVersion, Prime95Mode,
    StressTestProgram, YCruncherMode,
};

#[test]
fn strips_inline_hash_comments_like_corecycler() {
    assert_eq!(strip_inline_comment("auto # comment"), "auto");
    assert_eq!(strip_inline_comment("auto#comment"), "auto");
    assert_eq!(strip_inline_comment("CurrentValues"), "CurrentValues");
    assert_eq!(strip_inline_comment(""), "");
}

#[test]
fn inline_comment_keeps_inner_spaces_and_trims() {
    assert_eq!(strip_inline_comment("  -15, -10  # per core"), "-15, -10");
    assert_eq!(strip_inline_comment("# only a comment"), "");
}

#[test]
fn ini_reads_sections_keys_and_last_assignment_wins() {
    let text = "# header\n[General]\nstressTestProgram = AIDA64 # note\n\nname=First\nname = Second\n; other comment\n[Logging]\nname=Test\n";
    let doc = parse_ini(text);
    assert_eq!(doc.get("General", "stressTestProgram"), Some("AIDA64".to_string()));
    assert_eq!(doc.get("General", "name"), Some("Second".to_string()));
    assert_eq!(doc.get("Logging", "name"), Some("Test".to_string()));
    assert_eq!(doc.get("Logging", "missing"), None);
    assert_eq!(doc.get("Nowhere", "name"), None);
}

#[test]
fn get_str_and_get_bool_fall_back_to_defaults() {
    let doc = parse_ini("[A]\nflag1 = 1\nflag2 = TRUE\nflag3 = yes\ntext = hello\n");
    assert_eq!(get_str(&doc, "A", "text", "d".to_string()), "hello");
    assert_eq!(get_str(&doc, "A", "none", "d".to_string()), "d");
    assert!(get_bool(&doc, "A", "flag1", false));
    assert!(get_bool(&doc, "A", "flag2", false));
    assert!(!get_bool(&doc, "A", "flag3", true));
    assert!(get_bool(&doc, "A", "absent", true));
    assert!(parse_flag("true"));
    assert!(parse_flag("1"));
    assert!(!parse_flag("0"));
    assert!(!parse_flag("on"));
}

#[test]
fn load_config_reads_known_settings() {
    let text = "[General]\nstressTestProgram = linpack\nnumberOfThreads = 2\ncoreTestOrder = 5,4,0\nruntimePerCore = 10m\n\
[Prime95]\nmode = avx2\nFFTSize = Small\n[yCruncher]\nmode = 19-ZN2 ~ Zen 2\n[Linpack]\nversion = 2024\nmode = FASTEST\n[Logging]\nname = Mine\n";
    let c = load_config(text);
    assert_eq!(c.general.stress_test_program, StressTestProgram::Linpack);
    assert_eq!(c.general.number_of_threads, 2);
    assert_eq!(c.general.core_test_order, CoreTestOrder::Custom("5,4,0".to_string()));
    assert_eq!(c.general.runtime_per_core, "10m");
    assert_eq!(c.prime95.mode, Prime95Mode::AVX2);
    assert_eq!(c.prime95.fft_size, FFTSize::Small);
    assert_eq!(c.ycruncher.mode, YCruncherMode::ZN2);
    assert_eq!(c.linpack.version, LinpackVersion::V2024);
    assert_eq!(c.linpack.mode, LinpackMode::Fastest);
    assert_eq!(c.logging.name, "Mine");
    // Settings that the file does not name keep their defaults.
    assert_eq!(c.general.max_iterations, "10000");
    assert_eq!(c.aida64.mode, "CACHE");
}

#[test]
fn load_config_of_empty_text_gives_defaults() {
    let c = load_config("");
    let d = CoreCyclerConfig::default();
    assert_eq!(render_config(&c), render_config(&d));
}

#[test]
fn saved_config_loads_back_unchanged() {
    let mut c = CoreCyclerConfig::default();
    c.general.stress_test_program = StressTestProgram::YCruncherOld;
    c.general.cores_to_ignore = "1, 3".to_string();
    c.general.number_of_threads = 2;
    c.prime95.mode = Prime95Mode::AVX512;
    c.ycruncher.mode = YCruncherMode::BD1;
    c.ycruncher.tests = "BKT, C17".to_string();
    c.linpack.version = LinpackVersion::V2019;
    c.linpack.mode = LinpackMode::Slowest;
    c.logging.log_level = "4".to_string();
    c.debug.stress_test_program_window_to_foreground = true;
    let text = render_config(&c);
    let back = load_config(&text);
    assert_eq!(render_config(&back), text);
    assert_eq!(back.general.stress_test_program, StressTestProgram::YCruncherOld);
    assert_eq!(back.general.cores_to_ignore, "1, 3");
    assert_eq!(back.ycruncher.mode, YCruncherMode::BD1);
    assert_eq!(back.linpack.mode, LinpackMode::Slowest);
}

#[test]
fn rendered_config_has_sections_and_lines() {
    let text = render_config(&CoreCyclerConfig::default());
    assert!(text.starts_with("# CoreCycler config"));
    assert!(text.contains("[General]\n"));
    assert!(text.contains("[Debug]\n"));
    // Only values that differ from the defaults are written.
    assert!(!text.contains(" = "));
}

#[test]
fn only_changed_settings_are_written() {
    let mut c = CoreCyclerConfig::default();
    c.general.stress_test_program = StressTestProgram::Aida64;
    c.general.beep_on_error = false;
    c.logging.name = "Mine".to_string();
    let text = render_config(&c);
    let lines: Vec<&str> = text.lines().filter(|l| l.contains(" = ")).collect();
    assert_eq!(lines, vec!["stressTestProgram = AIDA64", "beepOnError = 0", "name = Mine"]);
    let back = load_config(&text);
    assert_eq!(back.general.stress_test_program, StressTestProgram::Aida64);
    assert!(!back.general.beep_on_error);
    assert_eq!(back.logging.name, "Mine");
    assert_eq!(back.general.runtime_per_core, "6m");
}

#[test]
fn write_str_and_write_bool_append_lines() {
    let mut out = String::from("[Logging]\n");
    write_str(&mut out, "name", "CoreCycler");
    write_bool(&mut out, "useWindowsEventLog", true);
    write_bool(&mut out, "flushDiskWriteCache", false);
    assert_eq!(
        out,
        "[Logging]\nname = CoreCycler\nuseWindowsEventLog = 1\nflushDiskWriteCache = 0\n"
    );
}
