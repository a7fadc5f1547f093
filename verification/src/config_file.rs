//! Reading CoreCycler's configuration from the text of `config.ini`, and
//! writing it back compactly: every section header, and of the settings only
//! those whose value differs from the default one, booleans as `1`/`0`.
use vstd::prelude::*;

use crate::ini::{
    key_char, lemma_key_lookup_at, block_text, blocks_entries_from, blocks_lookup,
    blocks_text_from, clean_value, ini_lookup, ini_read, lacks, lemma_lookup_blocks,
    lemma_read_document, lemma_trim_ends, newline, no_newline, pairs_text, parse_ini, plain_key,
    well_formed_blocks, well_formed_pairs, Assignment, Block, IniDocument, Pairs, changed_blocks,
    changed_lookup, changed_pairs, distinct_keys, lemma_changed_blocks_lookup,
    lemma_changed_blocks_well_formed, lemma_changed_pairs_none, lemma_lookup_section_absent, same_keys, same_layout,
};
use crate::model::{
    Aida64Config, Aida64View, AutomaticTestModeConfig, AutomaticTestModeView, ConfigView, CoreCyclerConfig,
    CoreTestOrder, CoreTestOrderView, DebugConfig, DebugView, FFTSize, FFTSizeView, GeneralConfig, GeneralView,
    LinpackConfig, LinpackMode, LinpackVersion, LinpackView, LoggingConfig, LoggingView, Prime95Config,
    Prime95CustomConfig, Prime95CustomView, Prime95Mode, Prime95View, ProcessPriority, StressTestProgram,
    SuspensionMode, UpdateConfig, UpdateView, YCruncherConfig, YCruncherMode, YCruncherView, default_aida64,
    default_automatic_test_mode, default_debug, default_general, default_linpack, default_logging,
    default_prime95, default_prime95_custom, default_update, default_ycruncher, default_config,
    lemma_core_test_order_round_trip, lemma_fft_size_round_trip, lemma_linpack_mode_round_trip,
    lemma_linpack_version_round_trip, lemma_prime95_mode_round_trip, lemma_process_priority_round_trip,
    lemma_stress_test_program_round_trip, lemma_suspension_mode_round_trip,
    lemma_ycruncher_mode_round_trip,
};
use crate::text::{
    chars_of, decimal, eq_ignore_ascii_case, eq_ignore_case_lit, eq_lit, is_ws,
    lemma_decimal_parses, lemma_parse_decimal, lemma_plain_word, parse_u8, plain_word, push_all,
    push_decimal, push_lit, spec_parse_u8, string_of, chars_eq, copy_range, trim,
};

verus! {

// ---------------------------------------------------------------------------
// Reading
// ---------------------------------------------------------------------------

/// A boolean setting is on when its value is `1` or, in any ASCII case, `true`.
pub open spec fn flag_value(v: Seq<char>) -> bool {
    v == "1"@ || eq_ignore_ascii_case(v, "true"@)
}

/// The text of a setting, or `d` where the document does not set it.
pub open spec fn text_setting(es: Seq<Assignment>, sec: Seq<char>, key: Seq<char>, d: Seq<char>) -> Seq<char> {
    match ini_lookup(es, sec, key) {
        Some(v) => v,
        None => d,
    }
}

/// A boolean setting, or `d` where the document does not set it.
pub open spec fn flag_setting(es: Seq<Assignment>, sec: Seq<char>, key: Seq<char>, d: bool) -> bool {
    match ini_lookup(es, sec, key) {
        Some(v) => flag_value(v),
        None => d,
    }
}

/// Reads a boolean value.
pub fn parse_flag(v: &str) -> (r: bool)
    ensures
        r == flag_value(v@),
{
    let c = chars_of(v);
    eq_lit(&c, "1") || eq_ignore_case_lit(&c, "true")
}

/// The text of a setting, `d` where `doc` does not set it.
pub fn get_str(doc: &IniDocument, sec: &str, key: &str, d: String) -> (r: String)
    ensures
        r@ == text_setting(doc.assignments(), sec@, key@, d@),
{
    match doc.get(sec, key) {
        Some(v) => v,
        None => d,
    }
}

/// A boolean setting, `d` where `doc` does not set it.
pub fn get_bool(doc: &IniDocument, sec: &str, key: &str, d: bool) -> (r: bool)
    ensures
        r == flag_setting(doc.assignments(), sec@, key@, d),
{
    match doc.get(sec, key) {
        Some(v) => parse_flag(v.as_str()),
        None => d,
    }
}

/// The `[General]` section that the assignments `es` give, over the defaults.
pub open spec fn load_general(es: Seq<Assignment>) -> GeneralView {
    let d = default_general();
    GeneralView {
        use_config_file: text_setting(es, "General"@, "useConfigFile"@, d.use_config_file),
        stress_test_program: match ini_lookup(es, "General"@, "stressTestProgram"@) {
            Some(v) => StressTestProgram::parse(v),
            None => d.stress_test_program,
        },
        runtime_per_core: text_setting(es, "General"@, "runtimePerCore"@, d.runtime_per_core),
        suspend_periodically: flag_setting(es, "General"@, "suspendPeriodically"@, d.suspend_periodically),
        core_test_order: match ini_lookup(es, "General"@, "coreTestOrder"@) {
            Some(v) => CoreTestOrderView::parse(v),
            None => d.core_test_order,
        },
        skip_core_on_error: flag_setting(es, "General"@, "skipCoreOnError"@, d.skip_core_on_error),
        stop_on_error: flag_setting(es, "General"@, "stopOnError"@, d.stop_on_error),
        number_of_threads: match ini_lookup(es, "General"@, "numberOfThreads"@) {
            Some(v) => match spec_parse_u8(v) {
                Some(n) => n,
                None => 1u8,
            },
            None => d.number_of_threads,
        },
        assign_both_virtual_cores: flag_setting(es, "General"@, "assignBothVirtualCoresForSingleThread"@, d.assign_both_virtual_cores),
        max_iterations: text_setting(es, "General"@, "maxIterations"@, d.max_iterations),
        cores_to_ignore: text_setting(es, "General"@, "coresToIgnore"@, d.cores_to_ignore),
        restart_test_program_for_each_core: flag_setting(es, "General"@, "restartTestProgramForEachCore"@, d.restart_test_program_for_each_core),
        delay_between_cores: text_setting(es, "General"@, "delayBetweenCores"@, d.delay_between_cores),
        beep_on_error: flag_setting(es, "General"@, "beepOnError"@, d.beep_on_error),
        flash_on_error: flag_setting(es, "General"@, "flashOnError"@, d.flash_on_error),
        look_for_whea_errors: flag_setting(es, "General"@, "lookForWheaErrors"@, d.look_for_whea_errors),
        treat_whea_warning_as_error: flag_setting(es, "General"@, "treatWheaWarningAsError"@, d.treat_whea_warning_as_error),
    }
}

/// The `[Prime95]` section that the assignments `es` give, over the defaults.
pub open spec fn load_prime95(es: Seq<Assignment>) -> Prime95View {
    let d = default_prime95();
    Prime95View {
        mode: match ini_lookup(es, "Prime95"@, "mode"@) {
            Some(v) => Prime95Mode::parse(v),
            None => d.mode,
        },
        fft_size: match ini_lookup(es, "Prime95"@, "FFTSize"@) {
            Some(v) => FFTSizeView::parse(v),
            None => d.fft_size,
        },
    }
}

/// The `[yCruncher]` section that the assignments `es` give, over the defaults.
pub open spec fn load_ycruncher(es: Seq<Assignment>) -> YCruncherView {
    let d = default_ycruncher();
    YCruncherView {
        mode: match ini_lookup(es, "yCruncher"@, "mode"@) {
            Some(v) => YCruncherMode::parse(v),
            None => d.mode,
        },
        tests: text_setting(es, "yCruncher"@, "tests"@, d.tests),
        test_duration: text_setting(es, "yCruncher"@, "testDuration"@, d.test_duration),
        memory: text_setting(es, "yCruncher"@, "memory"@, d.memory),
        enable_logging_wrapper: flag_setting(es, "yCruncher"@, "enableYCruncherLoggingWrapper"@, d.enable_logging_wrapper),
    }
}

/// The `[Aida64]` section that the assignments `es` give, over the defaults.
pub open spec fn load_aida64(es: Seq<Assignment>) -> Aida64View {
    let d = default_aida64();
    Aida64View {
        mode: text_setting(es, "Aida64"@, "mode"@, d.mode),
        use_avx: flag_setting(es, "Aida64"@, "useAVX"@, d.use_avx),
        max_memory: text_setting(es, "Aida64"@, "maxMemory"@, d.max_memory),
    }
}

/// The `[Linpack]` section that the assignments `es` give, over the defaults.
pub open spec fn load_linpack(es: Seq<Assignment>) -> LinpackView {
    let d = default_linpack();
    LinpackView {
        version: match ini_lookup(es, "Linpack"@, "version"@) {
            Some(v) => LinpackVersion::parse(v),
            None => d.version,
        },
        mode: match ini_lookup(es, "Linpack"@, "mode"@) {
            Some(v) => LinpackMode::parse(v),
            None => d.mode,
        },
        memory: text_setting(es, "Linpack"@, "memory"@, d.memory),
    }
}

/// The `[AutomaticTestMode]` section that the assignments `es` give, over the defaults.
pub open spec fn load_automatic_test_mode(es: Seq<Assignment>) -> AutomaticTestModeView {
    let d = default_automatic_test_mode();
    AutomaticTestModeView {
        enable_automatic_adjustment: flag_setting(es, "AutomaticTestMode"@, "enableAutomaticAdjustment"@, d.enable_automatic_adjustment),
        start_values: text_setting(es, "AutomaticTestMode"@, "startValues"@, d.start_values),
        max_value: text_setting(es, "AutomaticTestMode"@, "maxValue"@, d.max_value),
        increment_by: text_setting(es, "AutomaticTestMode"@, "incrementBy"@, d.increment_by),
        set_voltage_only_for_tested_core: flag_setting(es, "AutomaticTestMode"@, "setVoltageOnlyForTestedCore"@, d.set_voltage_only_for_tested_core),
        repeat_core_on_error: flag_setting(es, "AutomaticTestMode"@, "repeatCoreOnError"@, d.repeat_core_on_error),
        enable_resume_after_unexpected_exit: flag_setting(es, "AutomaticTestMode"@, "enableResumeAfterUnexpectedExit"@, d.enable_resume_after_unexpected_exit),
        wait_before_automatic_resume: text_setting(es, "AutomaticTestMode"@, "waitBeforeAutomaticResume"@, d.wait_before_automatic_resume),
        create_system_restore_point: flag_setting(es, "AutomaticTestMode"@, "createSystemRestorePoint"@, d.create_system_restore_point),
        ask_for_system_restore_point_creation: flag_setting(es, "AutomaticTestMode"@, "askForSystemRestorePointCreation"@, d.ask_for_system_restore_point_creation),
    }
}

/// The `[Logging]` section that the assignments `es` give, over the defaults.
pub open spec fn load_logging(es: Seq<Assignment>) -> LoggingView {
    let d = default_logging();
    LoggingView {
        name: text_setting(es, "Logging"@, "name"@, d.name),
        log_level: text_setting(es, "Logging"@, "logLevel"@, d.log_level),
        use_windows_event_log: flag_setting(es, "Logging"@, "useWindowsEventLog"@, d.use_windows_event_log),
        flush_disk_write_cache: flag_setting(es, "Logging"@, "flushDiskWriteCache"@, d.flush_disk_write_cache),
    }
}

/// The `[Update]` section that the assignments `es` give, over the defaults.
pub open spec fn load_update(es: Seq<Assignment>) -> UpdateView {
    let d = default_update();
    UpdateView {
        enable_update_check: flag_setting(es, "Update"@, "enableUpdateCheck"@, d.enable_update_check),
        update_check_frequency: text_setting(es, "Update"@, "updateCheckFrequency"@, d.update_check_frequency),
    }
}

/// The `[Prime95Custom]` section that the assignments `es` give, over the defaults.
pub open spec fn load_prime95_custom(es: Seq<Assignment>) -> Prime95CustomView {
    let d = default_prime95_custom();
    Prime95CustomView {
        cpu_supports_avx: flag_setting(es, "Prime95Custom"@, "CpuSupportsAVX"@, d.cpu_supports_avx),
        cpu_supports_avx2: flag_setting(es, "Prime95Custom"@, "CpuSupportsAVX2"@, d.cpu_supports_avx2),
        cpu_supports_fma3: flag_setting(es, "Prime95Custom"@, "CpuSupportsFMA3"@, d.cpu_supports_fma3),
        cpu_supports_avx512: flag_setting(es, "Prime95Custom"@, "CpuSupportsAVX512"@, d.cpu_supports_avx512),
        min_torture_fft: text_setting(es, "Prime95Custom"@, "MinTortureFFT"@, d.min_torture_fft),
        max_torture_fft: text_setting(es, "Prime95Custom"@, "MaxTortureFFT"@, d.max_torture_fft),
        torture_mem: text_setting(es, "Prime95Custom"@, "TortureMem"@, d.torture_mem),
        torture_time: text_setting(es, "Prime95Custom"@, "TortureTime"@, d.torture_time),
    }
}

/// The `[Debug]` section that the assignments `es` give, over the defaults.
pub open spec fn load_debug(es: Seq<Assignment>) -> DebugView {
    let d = default_debug();
    DebugView {
        disable_cpu_utilization_check: flag_setting(es, "Debug"@, "disableCpuUtilizationCheck"@, d.disable_cpu_utilization_check),
        use_windows_perf_counters: flag_setting(es, "Debug"@, "useWindowsPerformanceCountersForCpuUtilization"@, d.use_windows_perf_counters),
        enable_cpu_frequency_check: flag_setting(es, "Debug"@, "enableCpuFrequencyCheck"@, d.enable_cpu_frequency_check),
        tick_interval: text_setting(es, "Debug"@, "tickInterval"@, d.tick_interval),
        delay_first_error_check: text_setting(es, "Debug"@, "delayFirstErrorCheck"@, d.delay_first_error_check),
        stress_test_program_priority: match ini_lookup(es, "Debug"@, "stressTestProgramPriority"@) {
            Some(v) => ProcessPriority::parse(v),
            None => d.stress_test_program_priority,
        },
        stress_test_program_window_to_foreground: flag_setting(es, "Debug"@, "stressTestProgramWindowToForeground"@, d.stress_test_program_window_to_foreground),
        suspension_time: text_setting(es, "Debug"@, "suspensionTime"@, d.suspension_time),
        mode_to_use_for_suspension: match ini_lookup(es, "Debug"@, "modeToUseForSuspension"@) {
            Some(v) => SuspensionMode::parse(v),
            None => d.mode_to_use_for_suspension,
        },
    }
}

/// The configuration that the assignments `es` give, over the defaults.
pub open spec fn load_view(es: Seq<Assignment>) -> ConfigView {
    ConfigView {
        general: load_general(es),
        prime95: load_prime95(es),
        ycruncher: load_ycruncher(es),
        aida64: load_aida64(es),
        linpack: load_linpack(es),
        automatic_test_mode: load_automatic_test_mode(es),
        logging: load_logging(es),
        update: load_update(es),
        prime95_custom: load_prime95_custom(es),
        debug: load_debug(es),
    }
}

fn read_general(doc: &IniDocument) -> (r: GeneralConfig)
    ensures
        r@ == load_general(doc.assignments()),
{
    let d = GeneralConfig::default();
    GeneralConfig {
        use_config_file: get_str(doc, "General", "useConfigFile", d.use_config_file),
        stress_test_program: match doc.get("General", "stressTestProgram") {
            Some(v) => StressTestProgram::from_str(v.as_str()),
            None => d.stress_test_program,
        },
        runtime_per_core: get_str(doc, "General", "runtimePerCore", d.runtime_per_core),
        suspend_periodically: get_bool(doc, "General", "suspendPeriodically", d.suspend_periodically),
        core_test_order: match doc.get("General", "coreTestOrder") {
            Some(v) => CoreTestOrder::from_str(v.as_str()),
            None => d.core_test_order,
        },
        skip_core_on_error: get_bool(doc, "General", "skipCoreOnError", d.skip_core_on_error),
        stop_on_error: get_bool(doc, "General", "stopOnError", d.stop_on_error),
        number_of_threads: match doc.get("General", "numberOfThreads") {
            Some(v) => {
                let c = chars_of(v.as_str());
                match parse_u8(&c) {
                    Some(n) => n,
                    None => 1,
                }
            },
            None => d.number_of_threads,
        },
        assign_both_virtual_cores: get_bool(doc, "General", "assignBothVirtualCoresForSingleThread", d.assign_both_virtual_cores),
        max_iterations: get_str(doc, "General", "maxIterations", d.max_iterations),
        cores_to_ignore: get_str(doc, "General", "coresToIgnore", d.cores_to_ignore),
        restart_test_program_for_each_core: get_bool(doc, "General", "restartTestProgramForEachCore", d.restart_test_program_for_each_core),
        delay_between_cores: get_str(doc, "General", "delayBetweenCores", d.delay_between_cores),
        beep_on_error: get_bool(doc, "General", "beepOnError", d.beep_on_error),
        flash_on_error: get_bool(doc, "General", "flashOnError", d.flash_on_error),
        look_for_whea_errors: get_bool(doc, "General", "lookForWheaErrors", d.look_for_whea_errors),
        treat_whea_warning_as_error: get_bool(doc, "General", "treatWheaWarningAsError", d.treat_whea_warning_as_error),
    }
}

fn read_prime95(doc: &IniDocument) -> (r: Prime95Config)
    ensures
        r@ == load_prime95(doc.assignments()),
{
    let d = Prime95Config::default();
    Prime95Config {
        mode: match doc.get("Prime95", "mode") {
            Some(v) => Prime95Mode::from_str(v.as_str()),
            None => d.mode,
        },
        fft_size: match doc.get("Prime95", "FFTSize") {
            Some(v) => FFTSize::from_str(v.as_str()),
            None => d.fft_size,
        },
    }
}

fn read_ycruncher(doc: &IniDocument) -> (r: YCruncherConfig)
    ensures
        r@ == load_ycruncher(doc.assignments()),
{
    let d = YCruncherConfig::default();
    YCruncherConfig {
        mode: match doc.get("yCruncher", "mode") {
            Some(v) => YCruncherMode::from_str(v.as_str()),
            None => d.mode,
        },
        tests: get_str(doc, "yCruncher", "tests", d.tests),
        test_duration: get_str(doc, "yCruncher", "testDuration", d.test_duration),
        memory: get_str(doc, "yCruncher", "memory", d.memory),
        enable_logging_wrapper: get_bool(doc, "yCruncher", "enableYCruncherLoggingWrapper", d.enable_logging_wrapper),
    }
}

fn read_aida64(doc: &IniDocument) -> (r: Aida64Config)
    ensures
        r@ == load_aida64(doc.assignments()),
{
    let d = Aida64Config::default();
    Aida64Config {
        mode: get_str(doc, "Aida64", "mode", d.mode),
        use_avx: get_bool(doc, "Aida64", "useAVX", d.use_avx),
        max_memory: get_str(doc, "Aida64", "maxMemory", d.max_memory),
    }
}

fn read_linpack(doc: &IniDocument) -> (r: LinpackConfig)
    ensures
        r@ == load_linpack(doc.assignments()),
{
    let d = LinpackConfig::default();
    LinpackConfig {
        version: match doc.get("Linpack", "version") {
            Some(v) => LinpackVersion::from_str(v.as_str()),
            None => d.version,
        },
        mode: match doc.get("Linpack", "mode") {
            Some(v) => LinpackMode::from_str(v.as_str()),
            None => d.mode,
        },
        memory: get_str(doc, "Linpack", "memory", d.memory),
    }
}

fn read_automatic_test_mode(doc: &IniDocument) -> (r: AutomaticTestModeConfig)
    ensures
        r@ == load_automatic_test_mode(doc.assignments()),
{
    let d = AutomaticTestModeConfig::default();
    AutomaticTestModeConfig {
        enable_automatic_adjustment: get_bool(doc, "AutomaticTestMode", "enableAutomaticAdjustment", d.enable_automatic_adjustment),
        start_values: get_str(doc, "AutomaticTestMode", "startValues", d.start_values),
        max_value: get_str(doc, "AutomaticTestMode", "maxValue", d.max_value),
        increment_by: get_str(doc, "AutomaticTestMode", "incrementBy", d.increment_by),
        set_voltage_only_for_tested_core: get_bool(doc, "AutomaticTestMode", "setVoltageOnlyForTestedCore", d.set_voltage_only_for_tested_core),
        repeat_core_on_error: get_bool(doc, "AutomaticTestMode", "repeatCoreOnError", d.repeat_core_on_error),
        enable_resume_after_unexpected_exit: get_bool(doc, "AutomaticTestMode", "enableResumeAfterUnexpectedExit", d.enable_resume_after_unexpected_exit),
        wait_before_automatic_resume: get_str(doc, "AutomaticTestMode", "waitBeforeAutomaticResume", d.wait_before_automatic_resume),
        create_system_restore_point: get_bool(doc, "AutomaticTestMode", "createSystemRestorePoint", d.create_system_restore_point),
        ask_for_system_restore_point_creation: get_bool(doc, "AutomaticTestMode", "askForSystemRestorePointCreation", d.ask_for_system_restore_point_creation),
    }
}

fn read_logging(doc: &IniDocument) -> (r: LoggingConfig)
    ensures
        r@ == load_logging(doc.assignments()),
{
    let d = LoggingConfig::default();
    LoggingConfig {
        name: get_str(doc, "Logging", "name", d.name),
        log_level: get_str(doc, "Logging", "logLevel", d.log_level),
        use_windows_event_log: get_bool(doc, "Logging", "useWindowsEventLog", d.use_windows_event_log),
        flush_disk_write_cache: get_bool(doc, "Logging", "flushDiskWriteCache", d.flush_disk_write_cache),
    }
}

fn read_update(doc: &IniDocument) -> (r: UpdateConfig)
    ensures
        r@ == load_update(doc.assignments()),
{
    let d = UpdateConfig::default();
    UpdateConfig {
        enable_update_check: get_bool(doc, "Update", "enableUpdateCheck", d.enable_update_check),
        update_check_frequency: get_str(doc, "Update", "updateCheckFrequency", d.update_check_frequency),
    }
}

fn read_prime95_custom(doc: &IniDocument) -> (r: Prime95CustomConfig)
    ensures
        r@ == load_prime95_custom(doc.assignments()),
{
    let d = Prime95CustomConfig::default();
    Prime95CustomConfig {
        cpu_supports_avx: get_bool(doc, "Prime95Custom", "CpuSupportsAVX", d.cpu_supports_avx),
        cpu_supports_avx2: get_bool(doc, "Prime95Custom", "CpuSupportsAVX2", d.cpu_supports_avx2),
        cpu_supports_fma3: get_bool(doc, "Prime95Custom", "CpuSupportsFMA3", d.cpu_supports_fma3),
        cpu_supports_avx512: get_bool(doc, "Prime95Custom", "CpuSupportsAVX512", d.cpu_supports_avx512),
        min_torture_fft: get_str(doc, "Prime95Custom", "MinTortureFFT", d.min_torture_fft),
        max_torture_fft: get_str(doc, "Prime95Custom", "MaxTortureFFT", d.max_torture_fft),
        torture_mem: get_str(doc, "Prime95Custom", "TortureMem", d.torture_mem),
        torture_time: get_str(doc, "Prime95Custom", "TortureTime", d.torture_time),
    }
}

fn read_debug(doc: &IniDocument) -> (r: DebugConfig)
    ensures
        r@ == load_debug(doc.assignments()),
{
    let d = DebugConfig::default();
    DebugConfig {
        disable_cpu_utilization_check: get_bool(doc, "Debug", "disableCpuUtilizationCheck", d.disable_cpu_utilization_check),
        use_windows_perf_counters: get_bool(doc, "Debug", "useWindowsPerformanceCountersForCpuUtilization", d.use_windows_perf_counters),
        enable_cpu_frequency_check: get_bool(doc, "Debug", "enableCpuFrequencyCheck", d.enable_cpu_frequency_check),
        tick_interval: get_str(doc, "Debug", "tickInterval", d.tick_interval),
        delay_first_error_check: get_str(doc, "Debug", "delayFirstErrorCheck", d.delay_first_error_check),
        stress_test_program_priority: match doc.get("Debug", "stressTestProgramPriority") {
            Some(v) => ProcessPriority::from_str(v.as_str()),
            None => d.stress_test_program_priority,
        },
        stress_test_program_window_to_foreground: get_bool(doc, "Debug", "stressTestProgramWindowToForeground", d.stress_test_program_window_to_foreground),
        suspension_time: get_str(doc, "Debug", "suspensionTime", d.suspension_time),
        mode_to_use_for_suspension: match doc.get("Debug", "modeToUseForSuspension") {
            Some(v) => SuspensionMode::from_str(v.as_str()),
            None => d.mode_to_use_for_suspension,
        },
    }
}

/// Reads the configuration from the text of `config.ini`; settings that the
/// text does not give keep their defaults.
pub fn load_config(content: &str) -> (r: CoreCyclerConfig)
    ensures
        r@ == load_view(ini_read(content@).entries),
{
    let doc = parse_ini(content);
    CoreCyclerConfig {
        general: read_general(&doc),
        prime95: read_prime95(&doc),
        ycruncher: read_ycruncher(&doc),
        aida64: read_aida64(&doc),
        linpack: read_linpack(&doc),
        automatic_test_mode: read_automatic_test_mode(&doc),
        logging: read_logging(&doc),
        update: read_update(&doc),
        prime95_custom: read_prime95_custom(&doc),
        debug: read_debug(&doc),
    }
}

// ---------------------------------------------------------------------------
// Writing
// ---------------------------------------------------------------------------

/// How a boolean setting is written.
pub open spec fn flag_text(b: bool) -> Seq<char> {
    if b {
        seq!['1']
    } else {
        seq!['0']
    }
}

/// The `key = value` pairs that the `[General]` section is written as.
pub open spec fn general_pairs(v: GeneralView) -> Pairs {
    seq![
        ("useConfigFile"@, v.use_config_file),
        ("stressTestProgram"@, v.stress_test_program.name()),
        ("runtimePerCore"@, v.runtime_per_core),
        ("suspendPeriodically"@, flag_text(v.suspend_periodically)),
        ("coreTestOrder"@, v.core_test_order.name()),
        ("skipCoreOnError"@, flag_text(v.skip_core_on_error)),
        ("stopOnError"@, flag_text(v.stop_on_error)),
        ("numberOfThreads"@, decimal(v.number_of_threads as nat)),
        ("assignBothVirtualCoresForSingleThread"@, flag_text(v.assign_both_virtual_cores)),
        ("maxIterations"@, v.max_iterations),
        ("coresToIgnore"@, v.cores_to_ignore),
        ("restartTestProgramForEachCore"@, flag_text(v.restart_test_program_for_each_core)),
        ("delayBetweenCores"@, v.delay_between_cores),
        ("beepOnError"@, flag_text(v.beep_on_error)),
        ("flashOnError"@, flag_text(v.flash_on_error)),
        ("lookForWheaErrors"@, flag_text(v.look_for_whea_errors)),
        ("treatWheaWarningAsError"@, flag_text(v.treat_whea_warning_as_error)),
    ]
}

/// The `key = value` pairs that the `[Prime95]` section is written as.
pub open spec fn prime95_pairs(v: Prime95View) -> Pairs {
    seq![
        ("mode"@, v.mode.name()),
        ("FFTSize"@, v.fft_size.name()),
    ]
}

/// The `key = value` pairs that the `[yCruncher]` section is written as.
pub open spec fn ycruncher_pairs(v: YCruncherView) -> Pairs {
    seq![
        ("mode"@, v.mode.name()),
        ("tests"@, v.tests),
        ("testDuration"@, v.test_duration),
        ("memory"@, v.memory),
        ("enableYCruncherLoggingWrapper"@, flag_text(v.enable_logging_wrapper)),
    ]
}

/// The `key = value` pairs that the `[Aida64]` section is written as.
pub open spec fn aida64_pairs(v: Aida64View) -> Pairs {
    seq![
        ("mode"@, v.mode),
        ("useAVX"@, flag_text(v.use_avx)),
        ("maxMemory"@, v.max_memory),
    ]
}

/// The `key = value` pairs that the `[Linpack]` section is written as.
pub open spec fn linpack_pairs(v: LinpackView) -> Pairs {
    seq![
        ("version"@, v.version.name()),
        ("mode"@, v.mode.name()),
        ("memory"@, v.memory),
    ]
}

/// The `key = value` pairs that the `[AutomaticTestMode]` section is written as.
pub open spec fn automatic_test_mode_pairs(v: AutomaticTestModeView) -> Pairs {
    seq![
        ("enableAutomaticAdjustment"@, flag_text(v.enable_automatic_adjustment)),
        ("startValues"@, v.start_values),
        ("maxValue"@, v.max_value),
        ("incrementBy"@, v.increment_by),
        ("setVoltageOnlyForTestedCore"@, flag_text(v.set_voltage_only_for_tested_core)),
        ("repeatCoreOnError"@, flag_text(v.repeat_core_on_error)),
        ("enableResumeAfterUnexpectedExit"@, flag_text(v.enable_resume_after_unexpected_exit)),
        ("waitBeforeAutomaticResume"@, v.wait_before_automatic_resume),
        ("createSystemRestorePoint"@, flag_text(v.create_system_restore_point)),
        ("askForSystemRestorePointCreation"@, flag_text(v.ask_for_system_restore_point_creation)),
    ]
}

/// The `key = value` pairs that the `[Logging]` section is written as.
pub open spec fn logging_pairs(v: LoggingView) -> Pairs {
    seq![
        ("name"@, v.name),
        ("logLevel"@, v.log_level),
        ("useWindowsEventLog"@, flag_text(v.use_windows_event_log)),
        ("flushDiskWriteCache"@, flag_text(v.flush_disk_write_cache)),
    ]
}

/// The `key = value` pairs that the `[Update]` section is written as.
pub open spec fn update_pairs(v: UpdateView) -> Pairs {
    seq![
        ("enableUpdateCheck"@, flag_text(v.enable_update_check)),
        ("updateCheckFrequency"@, v.update_check_frequency),
    ]
}

/// The `key = value` pairs that the `[Prime95Custom]` section is written as.
pub open spec fn prime95_custom_pairs(v: Prime95CustomView) -> Pairs {
    seq![
        ("CpuSupportsAVX"@, flag_text(v.cpu_supports_avx)),
        ("CpuSupportsAVX2"@, flag_text(v.cpu_supports_avx2)),
        ("CpuSupportsFMA3"@, flag_text(v.cpu_supports_fma3)),
        ("CpuSupportsAVX512"@, flag_text(v.cpu_supports_avx512)),
        ("MinTortureFFT"@, v.min_torture_fft),
        ("MaxTortureFFT"@, v.max_torture_fft),
        ("TortureMem"@, v.torture_mem),
        ("TortureTime"@, v.torture_time),
    ]
}

/// The `key = value` pairs that the `[Debug]` section is written as.
pub open spec fn debug_pairs(v: DebugView) -> Pairs {
    seq![
        ("disableCpuUtilizationCheck"@, flag_text(v.disable_cpu_utilization_check)),
        ("useWindowsPerformanceCountersForCpuUtilization"@, flag_text(v.use_windows_perf_counters)),
        ("enableCpuFrequencyCheck"@, flag_text(v.enable_cpu_frequency_check)),
        ("tickInterval"@, v.tick_interval),
        ("delayFirstErrorCheck"@, v.delay_first_error_check),
        ("stressTestProgramPriority"@, v.stress_test_program_priority.name()),
        ("stressTestProgramWindowToForeground"@, flag_text(v.stress_test_program_window_to_foreground)),
        ("suspensionTime"@, v.suspension_time),
        ("modeToUseForSuspension"@, v.mode_to_use_for_suspension.name()),
    ]
}

/// The sections of the written file, in order.
pub open spec fn config_blocks(c: ConfigView) -> Seq<Block> {
    seq![
        ("General"@, general_pairs(c.general)),
        ("Prime95"@, prime95_pairs(c.prime95)),
        ("yCruncher"@, ycruncher_pairs(c.ycruncher)),
        ("Aida64"@, aida64_pairs(c.aida64)),
        ("Linpack"@, linpack_pairs(c.linpack)),
        ("AutomaticTestMode"@, automatic_test_mode_pairs(c.automatic_test_mode)),
        ("Logging"@, logging_pairs(c.logging)),
        ("Update"@, update_pairs(c.update)),
        ("Prime95Custom"@, prime95_custom_pairs(c.prime95_custom)),
        ("Debug"@, debug_pairs(c.debug)),
    ]
}

/// The first line of the written file.
pub open spec fn header_line() -> Seq<char> {
    "# CoreCycler config - Generated by CoreCycler GUI"@
}

/// The sections as saved: each with only the settings whose value differs
/// from the default one.
pub open spec fn saved_blocks(c: ConfigView) -> Seq<Block> {
    changed_blocks(config_blocks(c), config_blocks(default_config()))
}

/// The written file: the comment line, an empty line, and every section
/// header with the settings that differ from the defaults, the sections
/// separated by empty lines.  A configuration equal to the defaults is
/// written without a single `key = value` line.
pub open spec fn render_text(c: ConfigView) -> Seq<char> {
    header_line() + newline() + newline() + blocks_text_from(saved_blocks(c), 0)
}

/// The views of exec pairs.
pub open spec fn pair_views(v: Seq<(Vec<char>, Vec<char>)>) -> Pairs {
    Seq::new(v.len(), |i: int| (v[i].0@, v[i].1@))
}

fn flag_chars(b: bool) -> (r: Vec<char>)
    ensures
        r@ == flag_text(b),
{
    let r = if b {
        vec!['1']
    } else {
        vec!['0']
    };
    assert(r@ =~= flag_text(b));
    r
}

fn decimal_chars(n: u8) -> (r: Vec<char>)
    ensures
        r@ == decimal(n as nat),
{
    let mut r: Vec<char> = Vec::new();
    push_decimal(&mut r, n as u64);
    assert(r@ =~= decimal(n as nat));
    r
}

fn general_pairs_exec(v: &GeneralConfig) -> (r: Vec<(Vec<char>, Vec<char>)>)
    ensures
        pair_views(r@) == general_pairs(v@),
{
    let mut r: Vec<(Vec<char>, Vec<char>)> = Vec::new();
    r.push((chars_of("useConfigFile"), chars_of(v.use_config_file.as_str())));
    r.push((chars_of("stressTestProgram"), chars_of(v.stress_test_program.as_str())));
    r.push((chars_of("runtimePerCore"), chars_of(v.runtime_per_core.as_str())));
    r.push((chars_of("suspendPeriodically"), flag_chars(v.suspend_periodically)));
    r.push((chars_of("coreTestOrder"), chars_of(v.core_test_order.as_str())));
    r.push((chars_of("skipCoreOnError"), flag_chars(v.skip_core_on_error)));
    r.push((chars_of("stopOnError"), flag_chars(v.stop_on_error)));
    r.push((chars_of("numberOfThreads"), decimal_chars(v.number_of_threads)));
    r.push((chars_of("assignBothVirtualCoresForSingleThread"), flag_chars(v.assign_both_virtual_cores)));
    r.push((chars_of("maxIterations"), chars_of(v.max_iterations.as_str())));
    r.push((chars_of("coresToIgnore"), chars_of(v.cores_to_ignore.as_str())));
    r.push((chars_of("restartTestProgramForEachCore"), flag_chars(v.restart_test_program_for_each_core)));
    r.push((chars_of("delayBetweenCores"), chars_of(v.delay_between_cores.as_str())));
    r.push((chars_of("beepOnError"), flag_chars(v.beep_on_error)));
    r.push((chars_of("flashOnError"), flag_chars(v.flash_on_error)));
    r.push((chars_of("lookForWheaErrors"), flag_chars(v.look_for_whea_errors)));
    r.push((chars_of("treatWheaWarningAsError"), flag_chars(v.treat_whea_warning_as_error)));
    assert(pair_views(r@) =~= general_pairs(v@));
    r
}

fn prime95_pairs_exec(v: &Prime95Config) -> (r: Vec<(Vec<char>, Vec<char>)>)
    ensures
        pair_views(r@) == prime95_pairs(v@),
{
    let mut r: Vec<(Vec<char>, Vec<char>)> = Vec::new();
    r.push((chars_of("mode"), chars_of(v.mode.as_str())));
    r.push((chars_of("FFTSize"), chars_of(v.fft_size.as_str())));
    assert(pair_views(r@) =~= prime95_pairs(v@));
    r
}

fn ycruncher_pairs_exec(v: &YCruncherConfig) -> (r: Vec<(Vec<char>, Vec<char>)>)
    ensures
        pair_views(r@) == ycruncher_pairs(v@),
{
    let mut r: Vec<(Vec<char>, Vec<char>)> = Vec::new();
    r.push((chars_of("mode"), chars_of(v.mode.as_str())));
    r.push((chars_of("tests"), chars_of(v.tests.as_str())));
    r.push((chars_of("testDuration"), chars_of(v.test_duration.as_str())));
    r.push((chars_of("memory"), chars_of(v.memory.as_str())));
    r.push((chars_of("enableYCruncherLoggingWrapper"), flag_chars(v.enable_logging_wrapper)));
    assert(pair_views(r@) =~= ycruncher_pairs(v@));
    r
}

fn aida64_pairs_exec(v: &Aida64Config) -> (r: Vec<(Vec<char>, Vec<char>)>)
    ensures
        pair_views(r@) == aida64_pairs(v@),
{
    let mut r: Vec<(Vec<char>, Vec<char>)> = Vec::new();
    r.push((chars_of("mode"), chars_of(v.mode.as_str())));
    r.push((chars_of("useAVX"), flag_chars(v.use_avx)));
    r.push((chars_of("maxMemory"), chars_of(v.max_memory.as_str())));
    assert(pair_views(r@) =~= aida64_pairs(v@));
    r
}

fn linpack_pairs_exec(v: &LinpackConfig) -> (r: Vec<(Vec<char>, Vec<char>)>)
    ensures
        pair_views(r@) == linpack_pairs(v@),
{
    let mut r: Vec<(Vec<char>, Vec<char>)> = Vec::new();
    r.push((chars_of("version"), chars_of(v.version.as_str())));
    r.push((chars_of("mode"), chars_of(v.mode.as_str())));
    r.push((chars_of("memory"), chars_of(v.memory.as_str())));
    assert(pair_views(r@) =~= linpack_pairs(v@));
    r
}

fn automatic_test_mode_pairs_exec(v: &AutomaticTestModeConfig) -> (r: Vec<(Vec<char>, Vec<char>)>)
    ensures
        pair_views(r@) == automatic_test_mode_pairs(v@),
{
    let mut r: Vec<(Vec<char>, Vec<char>)> = Vec::new();
    r.push((chars_of("enableAutomaticAdjustment"), flag_chars(v.enable_automatic_adjustment)));
    r.push((chars_of("startValues"), chars_of(v.start_values.as_str())));
    r.push((chars_of("maxValue"), chars_of(v.max_value.as_str())));
    r.push((chars_of("incrementBy"), chars_of(v.increment_by.as_str())));
    r.push((chars_of("setVoltageOnlyForTestedCore"), flag_chars(v.set_voltage_only_for_tested_core)));
    r.push((chars_of("repeatCoreOnError"), flag_chars(v.repeat_core_on_error)));
    r.push((chars_of("enableResumeAfterUnexpectedExit"), flag_chars(v.enable_resume_after_unexpected_exit)));
    r.push((chars_of("waitBeforeAutomaticResume"), chars_of(v.wait_before_automatic_resume.as_str())));
    r.push((chars_of("createSystemRestorePoint"), flag_chars(v.create_system_restore_point)));
    r.push((chars_of("askForSystemRestorePointCreation"), flag_chars(v.ask_for_system_restore_point_creation)));
    assert(pair_views(r@) =~= automatic_test_mode_pairs(v@));
    r
}

fn logging_pairs_exec(v: &LoggingConfig) -> (r: Vec<(Vec<char>, Vec<char>)>)
    ensures
        pair_views(r@) == logging_pairs(v@),
{
    let mut r: Vec<(Vec<char>, Vec<char>)> = Vec::new();
    r.push((chars_of("name"), chars_of(v.name.as_str())));
    r.push((chars_of("logLevel"), chars_of(v.log_level.as_str())));
    r.push((chars_of("useWindowsEventLog"), flag_chars(v.use_windows_event_log)));
    r.push((chars_of("flushDiskWriteCache"), flag_chars(v.flush_disk_write_cache)));
    assert(pair_views(r@) =~= logging_pairs(v@));
    r
}

fn update_pairs_exec(v: &UpdateConfig) -> (r: Vec<(Vec<char>, Vec<char>)>)
    ensures
        pair_views(r@) == update_pairs(v@),
{
    let mut r: Vec<(Vec<char>, Vec<char>)> = Vec::new();
    r.push((chars_of("enableUpdateCheck"), flag_chars(v.enable_update_check)));
    r.push((chars_of("updateCheckFrequency"), chars_of(v.update_check_frequency.as_str())));
    assert(pair_views(r@) =~= update_pairs(v@));
    r
}

fn prime95_custom_pairs_exec(v: &Prime95CustomConfig) -> (r: Vec<(Vec<char>, Vec<char>)>)
    ensures
        pair_views(r@) == prime95_custom_pairs(v@),
{
    let mut r: Vec<(Vec<char>, Vec<char>)> = Vec::new();
    r.push((chars_of("CpuSupportsAVX"), flag_chars(v.cpu_supports_avx)));
    r.push((chars_of("CpuSupportsAVX2"), flag_chars(v.cpu_supports_avx2)));
    r.push((chars_of("CpuSupportsFMA3"), flag_chars(v.cpu_supports_fma3)));
    r.push((chars_of("CpuSupportsAVX512"), flag_chars(v.cpu_supports_avx512)));
    r.push((chars_of("MinTortureFFT"), chars_of(v.min_torture_fft.as_str())));
    r.push((chars_of("MaxTortureFFT"), chars_of(v.max_torture_fft.as_str())));
    r.push((chars_of("TortureMem"), chars_of(v.torture_mem.as_str())));
    r.push((chars_of("TortureTime"), chars_of(v.torture_time.as_str())));
    assert(pair_views(r@) =~= prime95_custom_pairs(v@));
    r
}

fn debug_pairs_exec(v: &DebugConfig) -> (r: Vec<(Vec<char>, Vec<char>)>)
    ensures
        pair_views(r@) == debug_pairs(v@),
{
    let mut r: Vec<(Vec<char>, Vec<char>)> = Vec::new();
    r.push((chars_of("disableCpuUtilizationCheck"), flag_chars(v.disable_cpu_utilization_check)));
    r.push((chars_of("useWindowsPerformanceCountersForCpuUtilization"), flag_chars(v.use_windows_perf_counters)));
    r.push((chars_of("enableCpuFrequencyCheck"), flag_chars(v.enable_cpu_frequency_check)));
    r.push((chars_of("tickInterval"), chars_of(v.tick_interval.as_str())));
    r.push((chars_of("delayFirstErrorCheck"), chars_of(v.delay_first_error_check.as_str())));
    r.push((chars_of("stressTestProgramPriority"), chars_of(v.stress_test_program_priority.as_str())));
    r.push((chars_of("stressTestProgramWindowToForeground"), flag_chars(v.stress_test_program_window_to_foreground)));
    r.push((chars_of("suspensionTime"), chars_of(v.suspension_time.as_str())));
    r.push((chars_of("modeToUseForSuspension"), chars_of(v.mode_to_use_for_suspension.as_str())));
    assert(pair_views(r@) =~= debug_pairs(v@));
    r
}

/// The pairs of `ps` whose value differs from that of the pair at the same
/// place in `ds`.
fn changed_pairs_exec(ps: &Vec<(Vec<char>, Vec<char>)>, ds: &Vec<(Vec<char>, Vec<char>)>) -> (r: Vec<(Vec<char>, Vec<char>)>)
    requires
        pair_views(ps@).len() == pair_views(ds@).len(),
    ensures
        pair_views(r@) == changed_pairs(pair_views(ps@), pair_views(ds@)),
{
    let ghost pv = pair_views(ps@);
    let ghost dv = pair_views(ds@);
    let mut r: Vec<(Vec<char>, Vec<char>)> = Vec::new();
    let mut i: usize = 0;
    assert(changed_pairs(pv.take(0), dv.take(0)) =~= Seq::<(Seq<char>, Seq<char>)>::empty());
    while i < ps.len()
        invariant
            i <= ps@.len() == ds@.len(),
            pv == pair_views(ps@),
            dv == pair_views(ds@),
            pair_views(r@) == changed_pairs(pv.take(i as int), dv.take(i as int)),
        decreases ps.len() - i,
    {
        assert(pv.take(i + 1).drop_last() =~= pv.take(i as int));
        assert(dv.take(i + 1).drop_last() =~= dv.take(i as int));
        assert(pv.take(i + 1).last() == pv[i as int]);
        assert(dv.take(i + 1).last() == dv[i as int]);
        if !chars_eq(&ps[i].1, &ds[i].1) {
            let k = copy_range(&ps[i].0, 0, ps[i].0.len());
            let v = copy_range(&ps[i].1, 0, ps[i].1.len());
            assert(k@ =~= ps@[i as int].0@);
            assert(v@ =~= ps@[i as int].1@);
            let ghost before = r@;
            r.push((k, v));
            assert(pair_views(r@) =~= pair_views(before).push(pv[i as int]));
        }
        i = i + 1;
    }
    assert(pv.take(ps@.len() as int) =~= pv);
    assert(dv.take(ds@.len() as int) =~= dv);
    r
}

/// Appends the line `key = val`.
pub fn write_str(out: &mut String, key: &str, val: &str)
    ensures
        final(out)@ == old(out)@ + key@ + " = "@ + val@ + seq!['\n'],
{
    let mut v = chars_of(out.as_str());
    push_lit(&mut v, key);
    push_lit(&mut v, " = ");
    push_lit(&mut v, val);
    v.push('\n');
    *out = string_of(&v);
}

/// Appends the line `key = 1` or `key = 0`.
pub fn write_bool(out: &mut String, key: &str, val: bool)
    ensures
        final(out)@ == old(out)@ + key@ + " = "@ + flag_text(val) + seq!['\n'],
{
    proof {
        reveal_strlit("1");
        reveal_strlit("0");
    }
    write_str(out, key, if val { "1" } else { "0" });
}

/// Appends the text of a section.
fn write_block(out: &mut Vec<char>, name: &str, pairs: &Vec<(Vec<char>, Vec<char>)>)
    ensures
        final(out)@ == old(out)@ + block_text(name@, pair_views(pairs@)),
{
    let ghost start = out@;
    out.push('[');
    push_lit(out, name);
    out.push(']');
    out.push('\n');
    let ghost head = out@;
    assert(head =~= start + (seq!['['] + name@ + seq![']'] + newline()));
    let ghost pv = pair_views(pairs@);
    let mut i: usize = 0;
    assert(pv.take(0) =~= Seq::<(Seq<char>, Seq<char>)>::empty());
    while i < pairs.len()
        invariant
            i <= pairs@.len(),
            pv == pair_views(pairs@),
            out@ == head + pairs_text(pv.take(i as int)),
        decreases pairs.len() - i,
    {
        push_all(out, &pairs[i].0);
        push_lit(out, " = ");
        push_all(out, &pairs[i].1);
        out.push('\n');
        proof {
            reveal_strlit(" = ");
            assert(pv.take(i + 1).drop_last() =~= pv.take(i as int));
            assert(pv.take(i + 1).last() == pv[i as int]);
            assert(out@ =~= head + pairs_text(pv.take(i + 1)));
        }
        i = i + 1;
    }
    assert(pv.take(pairs@.len() as int) =~= pv);
    assert(out@ =~= start + block_text(name@, pv));
}

/// The text of `config.ini` for `cfg`: every section, in CoreCycler's order,
/// with the settings whose value differs from the default one.
#[verifier::spinoff_prover]
#[verifier::rlimit(50)]
pub fn render_config(cfg: &CoreCyclerConfig) -> (r: String)
    ensures
        r@ == render_text(cfg@),
{
    let d = CoreCyclerConfig::default();
    let ghost bs = saved_blocks(cfg@);
    let ghost full = config_blocks(cfg@);
    let ghost defaults = config_blocks(d@);
    let mut out: Vec<char> = Vec::new();
    push_lit(&mut out, "# CoreCycler config - Generated by CoreCycler GUI");
    out.push('\n');
    out.push('\n');
    let ghost head = out@;
    assert(head =~= header_line() + newline() + newline());
    let ghost before0 = out@;
    proof {
        lemma_general_keys(cfg@.general, d@.general);
    }
    let pairs0 = changed_pairs_exec(&general_pairs_exec(&cfg.general), &general_pairs_exec(&d.general));
    assert(bs[0] == (full[0].0, changed_pairs(full[0].1, defaults[0].1)));
    write_block(&mut out, "General", &pairs0);
    out.push('\n');
    assert(blocks_text_from(bs, 0) =~= block_text(bs[0].0, bs[0].1) + newline() + blocks_text_from(bs, 1));
    assert(before0 + blocks_text_from(bs, 0) =~= out@ + blocks_text_from(bs, 1));
    let ghost before1 = out@;
    proof {
        lemma_prime95_keys(cfg@.prime95, d@.prime95);
    }
    let pairs1 = changed_pairs_exec(&prime95_pairs_exec(&cfg.prime95), &prime95_pairs_exec(&d.prime95));
    assert(bs[1] == (full[1].0, changed_pairs(full[1].1, defaults[1].1)));
    write_block(&mut out, "Prime95", &pairs1);
    out.push('\n');
    assert(blocks_text_from(bs, 1) =~= block_text(bs[1].0, bs[1].1) + newline() + blocks_text_from(bs, 2));
    assert(before1 + blocks_text_from(bs, 1) =~= out@ + blocks_text_from(bs, 2));
    let ghost before2 = out@;
    proof {
        lemma_ycruncher_keys(cfg@.ycruncher, d@.ycruncher);
    }
    let pairs2 = changed_pairs_exec(&ycruncher_pairs_exec(&cfg.ycruncher), &ycruncher_pairs_exec(&d.ycruncher));
    assert(bs[2] == (full[2].0, changed_pairs(full[2].1, defaults[2].1)));
    write_block(&mut out, "yCruncher", &pairs2);
    out.push('\n');
    assert(blocks_text_from(bs, 2) =~= block_text(bs[2].0, bs[2].1) + newline() + blocks_text_from(bs, 3));
    assert(before2 + blocks_text_from(bs, 2) =~= out@ + blocks_text_from(bs, 3));
    let ghost before3 = out@;
    proof {
        lemma_aida64_keys(cfg@.aida64, d@.aida64);
    }
    let pairs3 = changed_pairs_exec(&aida64_pairs_exec(&cfg.aida64), &aida64_pairs_exec(&d.aida64));
    assert(bs[3] == (full[3].0, changed_pairs(full[3].1, defaults[3].1)));
    write_block(&mut out, "Aida64", &pairs3);
    out.push('\n');
    assert(blocks_text_from(bs, 3) =~= block_text(bs[3].0, bs[3].1) + newline() + blocks_text_from(bs, 4));
    assert(before3 + blocks_text_from(bs, 3) =~= out@ + blocks_text_from(bs, 4));
    let ghost before4 = out@;
    proof {
        lemma_linpack_keys(cfg@.linpack, d@.linpack);
    }
    let pairs4 = changed_pairs_exec(&linpack_pairs_exec(&cfg.linpack), &linpack_pairs_exec(&d.linpack));
    assert(bs[4] == (full[4].0, changed_pairs(full[4].1, defaults[4].1)));
    write_block(&mut out, "Linpack", &pairs4);
    out.push('\n');
    assert(blocks_text_from(bs, 4) =~= block_text(bs[4].0, bs[4].1) + newline() + blocks_text_from(bs, 5));
    assert(before4 + blocks_text_from(bs, 4) =~= out@ + blocks_text_from(bs, 5));
    let ghost before5 = out@;
    proof {
        lemma_automatic_test_mode_keys(cfg@.automatic_test_mode, d@.automatic_test_mode);
    }
    let pairs5 = changed_pairs_exec(&automatic_test_mode_pairs_exec(&cfg.automatic_test_mode), &automatic_test_mode_pairs_exec(&d.automatic_test_mode));
    assert(bs[5] == (full[5].0, changed_pairs(full[5].1, defaults[5].1)));
    write_block(&mut out, "AutomaticTestMode", &pairs5);
    out.push('\n');
    assert(blocks_text_from(bs, 5) =~= block_text(bs[5].0, bs[5].1) + newline() + blocks_text_from(bs, 6));
    assert(before5 + blocks_text_from(bs, 5) =~= out@ + blocks_text_from(bs, 6));
    let ghost before6 = out@;
    proof {
        lemma_logging_keys(cfg@.logging, d@.logging);
    }
    let pairs6 = changed_pairs_exec(&logging_pairs_exec(&cfg.logging), &logging_pairs_exec(&d.logging));
    assert(bs[6] == (full[6].0, changed_pairs(full[6].1, defaults[6].1)));
    write_block(&mut out, "Logging", &pairs6);
    out.push('\n');
    assert(blocks_text_from(bs, 6) =~= block_text(bs[6].0, bs[6].1) + newline() + blocks_text_from(bs, 7));
    assert(before6 + blocks_text_from(bs, 6) =~= out@ + blocks_text_from(bs, 7));
    let ghost before7 = out@;
    proof {
        lemma_update_keys(cfg@.update, d@.update);
    }
    let pairs7 = changed_pairs_exec(&update_pairs_exec(&cfg.update), &update_pairs_exec(&d.update));
    assert(bs[7] == (full[7].0, changed_pairs(full[7].1, defaults[7].1)));
    write_block(&mut out, "Update", &pairs7);
    out.push('\n');
    assert(blocks_text_from(bs, 7) =~= block_text(bs[7].0, bs[7].1) + newline() + blocks_text_from(bs, 8));
    assert(before7 + blocks_text_from(bs, 7) =~= out@ + blocks_text_from(bs, 8));
    let ghost before8 = out@;
    proof {
        lemma_prime95_custom_keys(cfg@.prime95_custom, d@.prime95_custom);
    }
    let pairs8 = changed_pairs_exec(&prime95_custom_pairs_exec(&cfg.prime95_custom), &prime95_custom_pairs_exec(&d.prime95_custom));
    assert(bs[8] == (full[8].0, changed_pairs(full[8].1, defaults[8].1)));
    write_block(&mut out, "Prime95Custom", &pairs8);
    out.push('\n');
    assert(blocks_text_from(bs, 8) =~= block_text(bs[8].0, bs[8].1) + newline() + blocks_text_from(bs, 9));
    assert(before8 + blocks_text_from(bs, 8) =~= out@ + blocks_text_from(bs, 9));
    let ghost before9 = out@;
    proof {
        lemma_debug_keys(cfg@.debug, d@.debug);
    }
    let pairs9 = changed_pairs_exec(&debug_pairs_exec(&cfg.debug), &debug_pairs_exec(&d.debug));
    assert(bs[9] == (full[9].0, changed_pairs(full[9].1, defaults[9].1)));
    write_block(&mut out, "Debug", &pairs9);
    assert(blocks_text_from(bs, 9) == block_text(bs[9].0, bs[9].1));
    assert(before9 + blocks_text_from(bs, 9) =~= out@);
    string_of(&out)
}

// ---------------------------------------------------------------------------
// Writing, then reading back
// ---------------------------------------------------------------------------

/// The `[General]` settings read back as themselves: texts are clean and
/// custom values canonical.
pub open spec fn savable_general(v: GeneralView) -> bool {
    &&& clean_value(v.use_config_file)
    &&& clean_value(v.runtime_per_core)
    &&& v.core_test_order.is_canonical()
    &&& clean_value(v.core_test_order.name())
    &&& clean_value(v.max_iterations)
    &&& clean_value(v.cores_to_ignore)
    &&& clean_value(v.delay_between_cores)
}

/// The `[Prime95]` settings read back as themselves: texts are clean and
/// custom values canonical.
pub open spec fn savable_prime95(v: Prime95View) -> bool {
    &&& v.fft_size.is_canonical()
    &&& clean_value(v.fft_size.name())
}

/// The `[yCruncher]` settings read back as themselves: texts are clean and
/// custom values canonical.
pub open spec fn savable_ycruncher(v: YCruncherView) -> bool {
    &&& clean_value(v.tests)
    &&& clean_value(v.test_duration)
    &&& clean_value(v.memory)
}

/// The `[Aida64]` settings read back as themselves: texts are clean and
/// custom values canonical.
pub open spec fn savable_aida64(v: Aida64View) -> bool {
    &&& clean_value(v.mode)
    &&& clean_value(v.max_memory)
}

/// The `[Linpack]` settings read back as themselves: texts are clean and
/// custom values canonical.
pub open spec fn savable_linpack(v: LinpackView) -> bool {
    &&& clean_value(v.memory)
}

/// The `[AutomaticTestMode]` settings read back as themselves: texts are clean and
/// custom values canonical.
pub open spec fn savable_automatic_test_mode(v: AutomaticTestModeView) -> bool {
    &&& clean_value(v.start_values)
    &&& clean_value(v.max_value)
    &&& clean_value(v.increment_by)
    &&& clean_value(v.wait_before_automatic_resume)
}

/// The `[Logging]` settings read back as themselves: texts are clean and
/// custom values canonical.
pub open spec fn savable_logging(v: LoggingView) -> bool {
    &&& clean_value(v.name)
    &&& clean_value(v.log_level)
}

/// The `[Update]` settings read back as themselves: texts are clean and
/// custom values canonical.
pub open spec fn savable_update(v: UpdateView) -> bool {
    &&& clean_value(v.update_check_frequency)
}

/// The `[Prime95Custom]` settings read back as themselves: texts are clean and
/// custom values canonical.
pub open spec fn savable_prime95_custom(v: Prime95CustomView) -> bool {
    &&& clean_value(v.min_torture_fft)
    &&& clean_value(v.max_torture_fft)
    &&& clean_value(v.torture_mem)
    &&& clean_value(v.torture_time)
}

/// The `[Debug]` settings read back as themselves: texts are clean and
/// custom values canonical.
pub open spec fn savable_debug(v: DebugView) -> bool {
    &&& clean_value(v.tick_interval)
    &&& clean_value(v.delay_first_error_check)
    &&& clean_value(v.suspension_time)
}

/// A configuration that `config.ini` holds as it is.
pub open spec fn savable(c: ConfigView) -> bool {
    &&& savable_general(c.general)
    &&& savable_prime95(c.prime95)
    &&& savable_ycruncher(c.ycruncher)
    &&& savable_aida64(c.aida64)
    &&& savable_linpack(c.linpack)
    &&& savable_automatic_test_mode(c.automatic_test_mode)
    &&& savable_logging(c.logging)
    &&& savable_update(c.update)
    &&& savable_prime95_custom(c.prime95_custom)
    &&& savable_debug(c.debug)
}

proof fn lemma_plain_clean(s: Seq<char>)
    requires
        plain_word(s, false),
    ensures
        clean_value(s),
{
    lemma_plain_word(s, false);
}

proof fn lemma_flag_clean(b: bool)
    ensures
        clean_value(flag_text(b)),
{
    lemma_trim_ends(flag_text(b));
}

proof fn lemma_decimal_clean(n: nat)
    ensures
        clean_value(decimal(n)),
{
    lemma_decimal_parses(n);
    let d = decimal(n);
    assert(forall|i: int| 0 <= i < d.len() ==> !is_ws(#[trigger] d[i]) && d[i] != '#' && d[i] != '\n');
    lemma_trim_ends(d);
}

proof fn lemma_flag_round_trip(b: bool)
    ensures
        flag_value(flag_text(b)) == b,
{
    reveal_strlit("1");
    reveal_strlit("true");
    if b {
        assert(flag_text(b) =~= "1"@);
    } else {
        assert(flag_text(b)[0] != "1"@[0]);
        assert(flag_text(b).len() != "true"@.len());
    }
}

proof fn lemma_general_pairs_well_formed(v: GeneralView)
    requires
        savable_general(v),
    ensures
        well_formed_pairs(general_pairs(v)),
{
    let ps = general_pairs(v);
    assert(plain_key("useConfigFile"@)) by {
        reveal_strlit("useConfigFile");
        assert forall|i: int| 0 <= i < "useConfigFile"@.len() implies key_char(#[trigger] "useConfigFile"@[i]) by {
            assert(i == 0 || i == 1 || i == 2 || i == 3 || i == 4 || i == 5 || i == 6 || i == 7 || i == 8 || i == 9 || i == 10 || i == 11 || i == 12);
        }
    }
    assert(plain_key(ps[0].0) && clean_value(ps[0].1));
    assert(plain_key("stressTestProgram"@)) by {
        reveal_strlit("stressTestProgram");
        assert forall|i: int| 0 <= i < "stressTestProgram"@.len() implies key_char(#[trigger] "stressTestProgram"@[i]) by {
            assert(i == 0 || i == 1 || i == 2 || i == 3 || i == 4 || i == 5 || i == 6 || i == 7 || i == 8 || i == 9 || i == 10 || i == 11 || i == 12 || i == 13 || i == 14 || i == 15 || i == 16);
        }
    }
    lemma_stress_test_program_round_trip(v.stress_test_program);
    lemma_plain_clean(v.stress_test_program.name());
    assert(plain_key(ps[1].0) && clean_value(ps[1].1));
    assert(plain_key("runtimePerCore"@)) by {
        reveal_strlit("runtimePerCore");
        assert forall|i: int| 0 <= i < "runtimePerCore"@.len() implies key_char(#[trigger] "runtimePerCore"@[i]) by {
            assert(i == 0 || i == 1 || i == 2 || i == 3 || i == 4 || i == 5 || i == 6 || i == 7 || i == 8 || i == 9 || i == 10 || i == 11 || i == 12 || i == 13);
        }
    }
    assert(plain_key(ps[2].0) && clean_value(ps[2].1));
    assert(plain_key("suspendPeriodically"@)) by {
        reveal_strlit("suspendPeriodically");
        assert forall|i: int| 0 <= i < "suspendPeriodically"@.len() implies key_char(#[trigger] "suspendPeriodically"@[i]) by {
            assert(i == 0 || i == 1 || i == 2 || i == 3 || i == 4 || i == 5 || i == 6 || i == 7 || i == 8 || i == 9 || i == 10 || i == 11 || i == 12 || i == 13 || i == 14 || i == 15 || i == 16 || i == 17 || i == 18);
        }
    }
    lemma_flag_clean(v.suspend_periodically);
    assert(plain_key(ps[3].0) && clean_value(ps[3].1));
    assert(plain_key("coreTestOrder"@)) by {
        reveal_strlit("coreTestOrder");
        assert forall|i: int| 0 <= i < "coreTestOrder"@.len() implies key_char(#[trigger] "coreTestOrder"@[i]) by {
            assert(i == 0 || i == 1 || i == 2 || i == 3 || i == 4 || i == 5 || i == 6 || i == 7 || i == 8 || i == 9 || i == 10 || i == 11 || i == 12);
        }
    }
    assert(plain_key(ps[4].0) && clean_value(ps[4].1));
    assert(plain_key("skipCoreOnError"@)) by {
        reveal_strlit("skipCoreOnError");
        assert forall|i: int| 0 <= i < "skipCoreOnError"@.len() implies key_char(#[trigger] "skipCoreOnError"@[i]) by {
            assert(i == 0 || i == 1 || i == 2 || i == 3 || i == 4 || i == 5 || i == 6 || i == 7 || i == 8 || i == 9 || i == 10 || i == 11 || i == 12 || i == 13 || i == 14);
        }
    }
    lemma_flag_clean(v.skip_core_on_error);
    assert(plain_key(ps[5].0) && clean_value(ps[5].1));
    assert(plain_key("stopOnError"@)) by {
        reveal_strlit("stopOnError");
        assert forall|i: int| 0 <= i < "stopOnError"@.len() implies key_char(#[trigger] "stopOnError"@[i]) by {
            assert(i == 0 || i == 1 || i == 2 || i == 3 || i == 4 || i == 5 || i == 6 || i == 7 || i == 8 || i == 9 || i == 10);
        }
    }
    lemma_flag_clean(v.stop_on_error);
    assert(plain_key(ps[6].0) && clean_value(ps[6].1));
    assert(plain_key("numberOfThreads"@)) by {
        reveal_strlit("numberOfThreads");
        assert forall|i: int| 0 <= i < "numberOfThreads"@.len() implies key_char(#[trigger] "numberOfThreads"@[i]) by {
            assert(i == 0 || i == 1 || i == 2 || i == 3 || i == 4 || i == 5 || i == 6 || i == 7 || i == 8 || i == 9 || i == 10 || i == 11 || i == 12 || i == 13 || i == 14);
        }
    }
    lemma_decimal_clean(v.number_of_threads as nat);
    assert(plain_key(ps[7].0) && clean_value(ps[7].1));
    assert(plain_key("assignBothVirtualCoresForSingleThread"@)) by {
        reveal_strlit("assignBothVirtualCoresForSingleThread");
        assert forall|i: int| 0 <= i < "assignBothVirtualCoresForSingleThread"@.len() implies key_char(#[trigger] "assignBothVirtualCoresForSingleThread"@[i]) by {
            assert(i == 0 || i == 1 || i == 2 || i == 3 || i == 4 || i == 5 || i == 6 || i == 7 || i == 8 || i == 9 || i == 10 || i == 11 || i == 12 || i == 13 || i == 14 || i == 15 || i == 16 || i == 17 || i == 18 || i == 19 || i == 20 || i == 21 || i == 22 || i == 23 || i == 24 || i == 25 || i == 26 || i == 27 || i == 28 || i == 29 || i == 30 || i == 31 || i == 32 || i == 33 || i == 34 || i == 35 || i == 36);
        }
    }
    lemma_flag_clean(v.assign_both_virtual_cores);
    assert(plain_key(ps[8].0) && clean_value(ps[8].1));
    assert(plain_key("maxIterations"@)) by {
        reveal_strlit("maxIterations");
        assert forall|i: int| 0 <= i < "maxIterations"@.len() implies key_char(#[trigger] "maxIterations"@[i]) by {
            assert(i == 0 || i == 1 || i == 2 || i == 3 || i == 4 || i == 5 || i == 6 || i == 7 || i == 8 || i == 9 || i == 10 || i == 11 || i == 12);
        }
    }
    assert(plain_key(ps[9].0) && clean_value(ps[9].1));
    assert(plain_key("coresToIgnore"@)) by {
        reveal_strlit("coresToIgnore");
        assert forall|i: int| 0 <= i < "coresToIgnore"@.len() implies key_char(#[trigger] "coresToIgnore"@[i]) by {
            assert(i == 0 || i == 1 || i == 2 || i == 3 || i == 4 || i == 5 || i == 6 || i == 7 || i == 8 || i == 9 || i == 10 || i == 11 || i == 12);
        }
    }
    assert(plain_key(ps[10].0) && clean_value(ps[10].1));
    assert(plain_key("restartTestProgramForEachCore"@)) by {
        reveal_strlit("restartTestProgramForEachCore");
        assert forall|i: int| 0 <= i < "restartTestProgramForEachCore"@.len() implies key_char(#[trigger] "restartTestProgramForEachCore"@[i]) by {
            assert(i == 0 || i == 1 || i == 2 || i == 3 || i == 4 || i == 5 || i == 6 || i == 7 || i == 8 || i == 9 || i == 10 || i == 11 || i == 12 || i == 13 || i == 14 || i == 15 || i == 16 || i == 17 || i == 18 || i == 19 || i == 20 || i == 21 || i == 22 || i == 23 || i == 24 || i == 25 || i == 26 || i == 27 || i == 28);
        }
    }
    lemma_flag_clean(v.restart_test_program_for_each_core);
    assert(plain_key(ps[11].0) && clean_value(ps[11].1));
    assert(plain_key("delayBetweenCores"@)) by {
        reveal_strlit("delayBetweenCores");
        assert forall|i: int| 0 <= i < "delayBetweenCores"@.len() implies key_char(#[trigger] "delayBetweenCores"@[i]) by {
            assert(i == 0 || i == 1 || i == 2 || i == 3 || i == 4 || i == 5 || i == 6 || i == 7 || i == 8 || i == 9 || i == 10 || i == 11 || i == 12 || i == 13 || i == 14 || i == 15 || i == 16);
        }
    }
    assert(plain_key(ps[12].0) && clean_value(ps[12].1));
    assert(plain_key("beepOnError"@)) by {
        reveal_strlit("beepOnError");
        assert forall|i: int| 0 <= i < "beepOnError"@.len() implies key_char(#[trigger] "beepOnError"@[i]) by {
            assert(i == 0 || i == 1 || i == 2 || i == 3 || i == 4 || i == 5 || i == 6 || i == 7 || i == 8 || i == 9 || i == 10);
        }
    }
    lemma_flag_clean(v.beep_on_error);
    assert(plain_key(ps[13].0) && clean_value(ps[13].1));
    assert(plain_key("flashOnError"@)) by {
        reveal_strlit("flashOnError");
        assert forall|i: int| 0 <= i < "flashOnError"@.len() implies key_char(#[trigger] "flashOnError"@[i]) by {
            assert(i == 0 || i == 1 || i == 2 || i == 3 || i == 4 || i == 5 || i == 6 || i == 7 || i == 8 || i == 9 || i == 10 || i == 11);
        }
    }
    lemma_flag_clean(v.flash_on_error);
    assert(plain_key(ps[14].0) && clean_value(ps[14].1));
    assert(plain_key("lookForWheaErrors"@)) by {
        reveal_strlit("lookForWheaErrors");
        assert forall|i: int| 0 <= i < "lookForWheaErrors"@.len() implies key_char(#[trigger] "lookForWheaErrors"@[i]) by {
            assert(i == 0 || i == 1 || i == 2 || i == 3 || i == 4 || i == 5 || i == 6 || i == 7 || i == 8 || i == 9 || i == 10 || i == 11 || i == 12 || i == 13 || i == 14 || i == 15 || i == 16);
        }
    }
    lemma_flag_clean(v.look_for_whea_errors);
    assert(plain_key(ps[15].0) && clean_value(ps[15].1));
    assert(plain_key("treatWheaWarningAsError"@)) by {
        reveal_strlit("treatWheaWarningAsError");
        assert forall|i: int| 0 <= i < "treatWheaWarningAsError"@.len() implies key_char(#[trigger] "treatWheaWarningAsError"@[i]) by {
            assert(i == 0 || i == 1 || i == 2 || i == 3 || i == 4 || i == 5 || i == 6 || i == 7 || i == 8 || i == 9 || i == 10 || i == 11 || i == 12 || i == 13 || i == 14 || i == 15 || i == 16 || i == 17 || i == 18 || i == 19 || i == 20 || i == 21 || i == 22);
        }
    }
    lemma_flag_clean(v.treat_whea_warning_as_error);
    assert(plain_key(ps[16].0) && clean_value(ps[16].1));
    assert forall|i: int| 0 <= i < ps.len() implies plain_key(#[trigger] ps[i].0) && clean_value(
        ps[i].1,
    ) by {
        assert(i == 0 || i == 1 || i == 2 || i == 3 || i == 4 || i == 5 || i == 6 || i == 7 || i == 8 || i == 9 || i == 10 || i == 11 || i == 12 || i == 13 || i == 14 || i == 15 || i == 16);
    }
}

proof fn lemma_prime95_pairs_well_formed(v: Prime95View)
    requires
        savable_prime95(v),
    ensures
        well_formed_pairs(prime95_pairs(v)),
{
    let ps = prime95_pairs(v);
    assert(plain_key("mode"@)) by {
        reveal_strlit("mode");
        assert forall|i: int| 0 <= i < "mode"@.len() implies key_char(#[trigger] "mode"@[i]) by {
            assert(i == 0 || i == 1 || i == 2 || i == 3);
        }
    }
    lemma_prime95_mode_round_trip(v.mode);
    lemma_plain_clean(v.mode.name());
    assert(plain_key(ps[0].0) && clean_value(ps[0].1));
    assert(plain_key("FFTSize"@)) by {
        reveal_strlit("FFTSize");
        assert forall|i: int| 0 <= i < "FFTSize"@.len() implies key_char(#[trigger] "FFTSize"@[i]) by {
            assert(i == 0 || i == 1 || i == 2 || i == 3 || i == 4 || i == 5 || i == 6);
        }
    }
    assert(plain_key(ps[1].0) && clean_value(ps[1].1));
    assert forall|i: int| 0 <= i < ps.len() implies plain_key(#[trigger] ps[i].0) && clean_value(
        ps[i].1,
    ) by {
        assert(i == 0 || i == 1);
    }
}

proof fn lemma_ycruncher_pairs_well_formed(v: YCruncherView)
    requires
        savable_ycruncher(v),
    ensures
        well_formed_pairs(ycruncher_pairs(v)),
{
    let ps = ycruncher_pairs(v);
    assert(plain_key("mode"@)) by {
        reveal_strlit("mode");
        assert forall|i: int| 0 <= i < "mode"@.len() implies key_char(#[trigger] "mode"@[i]) by {
            assert(i == 0 || i == 1 || i == 2 || i == 3);
        }
    }
    lemma_ycruncher_mode_round_trip(v.mode);
    lemma_plain_clean(v.mode.name());
    assert(plain_key(ps[0].0) && clean_value(ps[0].1));
    assert(plain_key("tests"@)) by {
        reveal_strlit("tests");
        assert forall|i: int| 0 <= i < "tests"@.len() implies key_char(#[trigger] "tests"@[i]) by {
            assert(i == 0 || i == 1 || i == 2 || i == 3 || i == 4);
        }
    }
    assert(plain_key(ps[1].0) && clean_value(ps[1].1));
    assert(plain_key("testDuration"@)) by {
        reveal_strlit("testDuration");
        assert forall|i: int| 0 <= i < "testDuration"@.len() implies key_char(#[trigger] "testDuration"@[i]) by {
            assert(i == 0 || i == 1 || i == 2 || i == 3 || i == 4 || i == 5 || i == 6 || i == 7 || i == 8 || i == 9 || i == 10 || i == 11);
        }
    }
    assert(plain_key(ps[2].0) && clean_value(ps[2].1));
    assert(plain_key("memory"@)) by {
        reveal_strlit("memory");
        assert forall|i: int| 0 <= i < "memory"@.len() implies key_char(#[trigger] "memory"@[i]) by {
            assert(i == 0 || i == 1 || i == 2 || i == 3 || i == 4 || i == 5);
        }
    }
    assert(plain_key(ps[3].0) && clean_value(ps[3].1));
    assert(plain_key("enableYCruncherLoggingWrapper"@)) by {
        reveal_strlit("enableYCruncherLoggingWrapper");
        assert forall|i: int| 0 <= i < "enableYCruncherLoggingWrapper"@.len() implies key_char(#[trigger] "enableYCruncherLoggingWrapper"@[i]) by {
            assert(i == 0 || i == 1 || i == 2 || i == 3 || i == 4 || i == 5 || i == 6 || i == 7 || i == 8 || i == 9 || i == 10 || i == 11 || i == 12 || i == 13 || i == 14 || i == 15 || i == 16 || i == 17 || i == 18 || i == 19 || i == 20 || i == 21 || i == 22 || i == 23 || i == 24 || i == 25 || i == 26 || i == 27 || i == 28);
        }
    }
    lemma_flag_clean(v.enable_logging_wrapper);
    assert(plain_key(ps[4].0) && clean_value(ps[4].1));
    assert forall|i: int| 0 <= i < ps.len() implies plain_key(#[trigger] ps[i].0) && clean_value(
        ps[i].1,
    ) by {
        assert(i == 0 || i == 1 || i == 2 || i == 3 || i == 4);
    }
}

proof fn lemma_aida64_pairs_well_formed(v: Aida64View)
    requires
        savable_aida64(v),
    ensures
        well_formed_pairs(aida64_pairs(v)),
{
    let ps = aida64_pairs(v);
    assert(plain_key("mode"@)) by {
        reveal_strlit("mode");
        assert forall|i: int| 0 <= i < "mode"@.len() implies key_char(#[trigger] "mode"@[i]) by {
            assert(i == 0 || i == 1 || i == 2 || i == 3);
        }
    }
    assert(plain_key(ps[0].0) && clean_value(ps[0].1));
    assert(plain_key("useAVX"@)) by {
        reveal_strlit("useAVX");
        assert forall|i: int| 0 <= i < "useAVX"@.len() implies key_char(#[trigger] "useAVX"@[i]) by {
            assert(i == 0 || i == 1 || i == 2 || i == 3 || i == 4 || i == 5);
        }
    }
    lemma_flag_clean(v.use_avx);
    assert(plain_key(ps[1].0) && clean_value(ps[1].1));
    assert(plain_key("maxMemory"@)) by {
        reveal_strlit("maxMemory");
        assert forall|i: int| 0 <= i < "maxMemory"@.len() implies key_char(#[trigger] "maxMemory"@[i]) by {
            assert(i == 0 || i == 1 || i == 2 || i == 3 || i == 4 || i == 5 || i == 6 || i == 7 || i == 8);
        }
    }
    assert(plain_key(ps[2].0) && clean_value(ps[2].1));
    assert forall|i: int| 0 <= i < ps.len() implies plain_key(#[trigger] ps[i].0) && clean_value(
        ps[i].1,
    ) by {
        assert(i == 0 || i == 1 || i == 2);
    }
}

proof fn lemma_linpack_pairs_well_formed(v: LinpackView)
    requires
        savable_linpack(v),
    ensures
        well_formed_pairs(linpack_pairs(v)),
{
    let ps = linpack_pairs(v);
    assert(plain_key("version"@)) by {
        reveal_strlit("version");
        assert forall|i: int| 0 <= i < "version"@.len() implies key_char(#[trigger] "version"@[i]) by {
            assert(i == 0 || i == 1 || i == 2 || i == 3 || i == 4 || i == 5 || i == 6);
        }
    }
    lemma_linpack_version_round_trip(v.version);
    lemma_plain_clean(v.version.name());
    assert(plain_key(ps[0].0) && clean_value(ps[0].1));
    assert(plain_key("mode"@)) by {
        reveal_strlit("mode");
        assert forall|i: int| 0 <= i < "mode"@.len() implies key_char(#[trigger] "mode"@[i]) by {
            assert(i == 0 || i == 1 || i == 2 || i == 3);
        }
    }
    lemma_linpack_mode_round_trip(v.mode);
    lemma_plain_clean(v.mode.name());
    assert(plain_key(ps[1].0) && clean_value(ps[1].1));
    assert(plain_key("memory"@)) by {
        reveal_strlit("memory");
        assert forall|i: int| 0 <= i < "memory"@.len() implies key_char(#[trigger] "memory"@[i]) by {
            assert(i == 0 || i == 1 || i == 2 || i == 3 || i == 4 || i == 5);
        }
    }
    assert(plain_key(ps[2].0) && clean_value(ps[2].1));
    assert forall|i: int| 0 <= i < ps.len() implies plain_key(#[trigger] ps[i].0) && clean_value(
        ps[i].1,
    ) by {
        assert(i == 0 || i == 1 || i == 2);
    }
}

proof fn lemma_automatic_test_mode_pairs_well_formed(v: AutomaticTestModeView)
    requires
        savable_automatic_test_mode(v),
    ensures
        well_formed_pairs(automatic_test_mode_pairs(v)),
{
    let ps = automatic_test_mode_pairs(v);
    assert(plain_key("enableAutomaticAdjustment"@)) by {
        reveal_strlit("enableAutomaticAdjustment");
        assert forall|i: int| 0 <= i < "enableAutomaticAdjustment"@.len() implies key_char(#[trigger] "enableAutomaticAdjustment"@[i]) by {
            assert(i == 0 || i == 1 || i == 2 || i == 3 || i == 4 || i == 5 || i == 6 || i == 7 || i == 8 || i == 9 || i == 10 || i == 11 || i == 12 || i == 13 || i == 14 || i == 15 || i == 16 || i == 17 || i == 18 || i == 19 || i == 20 || i == 21 || i == 22 || i == 23 || i == 24);
        }
    }
    lemma_flag_clean(v.enable_automatic_adjustment);
    assert(plain_key(ps[0].0) && clean_value(ps[0].1));
    assert(plain_key("startValues"@)) by {
        reveal_strlit("startValues");
        assert forall|i: int| 0 <= i < "startValues"@.len() implies key_char(#[trigger] "startValues"@[i]) by {
            assert(i == 0 || i == 1 || i == 2 || i == 3 || i == 4 || i == 5 || i == 6 || i == 7 || i == 8 || i == 9 || i == 10);
        }
    }
    assert(plain_key(ps[1].0) && clean_value(ps[1].1));
    assert(plain_key("maxValue"@)) by {
        reveal_strlit("maxValue");
        assert forall|i: int| 0 <= i < "maxValue"@.len() implies key_char(#[trigger] "maxValue"@[i]) by {
            assert(i == 0 || i == 1 || i == 2 || i == 3 || i == 4 || i == 5 || i == 6 || i == 7);
        }
    }
    assert(plain_key(ps[2].0) && clean_value(ps[2].1));
    assert(plain_key("incrementBy"@)) by {
        reveal_strlit("incrementBy");
        assert forall|i: int| 0 <= i < "incrementBy"@.len() implies key_char(#[trigger] "incrementBy"@[i]) by {
            assert(i == 0 || i == 1 || i == 2 || i == 3 || i == 4 || i == 5 || i == 6 || i == 7 || i == 8 || i == 9 || i == 10);
        }
    }
    assert(plain_key(ps[3].0) && clean_value(ps[3].1));
    assert(plain_key("setVoltageOnlyForTestedCore"@)) by {
        reveal_strlit("setVoltageOnlyForTestedCore");
        assert forall|i: int| 0 <= i < "setVoltageOnlyForTestedCore"@.len() implies key_char(#[trigger] "setVoltageOnlyForTestedCore"@[i]) by {
            assert(i == 0 || i == 1 || i == 2 || i == 3 || i == 4 || i == 5 || i == 6 || i == 7 || i == 8 || i == 9 || i == 10 || i == 11 || i == 12 || i == 13 || i == 14 || i == 15 || i == 16 || i == 17 || i == 18 || i == 19 || i == 20 || i == 21 || i == 22 || i == 23 || i == 24 || i == 25 || i == 26);
        }
    }
    lemma_flag_clean(v.set_voltage_only_for_tested_core);
    assert(plain_key(ps[4].0) && clean_value(ps[4].1));
    assert(plain_key("repeatCoreOnError"@)) by {
        reveal_strlit("repeatCoreOnError");
        assert forall|i: int| 0 <= i < "repeatCoreOnError"@.len() implies key_char(#[trigger] "repeatCoreOnError"@[i]) by {
            assert(i == 0 || i == 1 || i == 2 || i == 3 || i == 4 || i == 5 || i == 6 || i == 7 || i == 8 || i == 9 || i == 10 || i == 11 || i == 12 || i == 13 || i == 14 || i == 15 || i == 16);
        }
    }
    lemma_flag_clean(v.repeat_core_on_error);
    assert(plain_key(ps[5].0) && clean_value(ps[5].1));
    assert(plain_key("enableResumeAfterUnexpectedExit"@)) by {
        reveal_strlit("enableResumeAfterUnexpectedExit");
        assert forall|i: int| 0 <= i < "enableResumeAfterUnexpectedExit"@.len() implies key_char(#[trigger] "enableResumeAfterUnexpectedExit"@[i]) by {
            assert(i == 0 || i == 1 || i == 2 || i == 3 || i == 4 || i == 5 || i == 6 || i == 7 || i == 8 || i == 9 || i == 10 || i == 11 || i == 12 || i == 13 || i == 14 || i == 15 || i == 16 || i == 17 || i == 18 || i == 19 || i == 20 || i == 21 || i == 22 || i == 23 || i == 24 || i == 25 || i == 26 || i == 27 || i == 28 || i == 29 || i == 30);
        }
    }
    lemma_flag_clean(v.enable_resume_after_unexpected_exit);
    assert(plain_key(ps[6].0) && clean_value(ps[6].1));
    assert(plain_key("waitBeforeAutomaticResume"@)) by {
        reveal_strlit("waitBeforeAutomaticResume");
        assert forall|i: int| 0 <= i < "waitBeforeAutomaticResume"@.len() implies key_char(#[trigger] "waitBeforeAutomaticResume"@[i]) by {
            assert(i == 0 || i == 1 || i == 2 || i == 3 || i == 4 || i == 5 || i == 6 || i == 7 || i == 8 || i == 9 || i == 10 || i == 11 || i == 12 || i == 13 || i == 14 || i == 15 || i == 16 || i == 17 || i == 18 || i == 19 || i == 20 || i == 21 || i == 22 || i == 23 || i == 24);
        }
    }
    assert(plain_key(ps[7].0) && clean_value(ps[7].1));
    assert(plain_key("createSystemRestorePoint"@)) by {
        reveal_strlit("createSystemRestorePoint");
        assert forall|i: int| 0 <= i < "createSystemRestorePoint"@.len() implies key_char(#[trigger] "createSystemRestorePoint"@[i]) by {
            assert(i == 0 || i == 1 || i == 2 || i == 3 || i == 4 || i == 5 || i == 6 || i == 7 || i == 8 || i == 9 || i == 10 || i == 11 || i == 12 || i == 13 || i == 14 || i == 15 || i == 16 || i == 17 || i == 18 || i == 19 || i == 20 || i == 21 || i == 22 || i == 23);
        }
    }
    lemma_flag_clean(v.create_system_restore_point);
    assert(plain_key(ps[8].0) && clean_value(ps[8].1));
    assert(plain_key("askForSystemRestorePointCreation"@)) by {
        reveal_strlit("askForSystemRestorePointCreation");
        assert forall|i: int| 0 <= i < "askForSystemRestorePointCreation"@.len() implies key_char(#[trigger] "askForSystemRestorePointCreation"@[i]) by {
            assert(i == 0 || i == 1 || i == 2 || i == 3 || i == 4 || i == 5 || i == 6 || i == 7 || i == 8 || i == 9 || i == 10 || i == 11 || i == 12 || i == 13 || i == 14 || i == 15 || i == 16 || i == 17 || i == 18 || i == 19 || i == 20 || i == 21 || i == 22 || i == 23 || i == 24 || i == 25 || i == 26 || i == 27 || i == 28 || i == 29 || i == 30 || i == 31);
        }
    }
    lemma_flag_clean(v.ask_for_system_restore_point_creation);
    assert(plain_key(ps[9].0) && clean_value(ps[9].1));
    assert forall|i: int| 0 <= i < ps.len() implies plain_key(#[trigger] ps[i].0) && clean_value(
        ps[i].1,
    ) by {
        assert(i == 0 || i == 1 || i == 2 || i == 3 || i == 4 || i == 5 || i == 6 || i == 7 || i == 8 || i == 9);
    }
}

proof fn lemma_logging_pairs_well_formed(v: LoggingView)
    requires
        savable_logging(v),
    ensures
        well_formed_pairs(logging_pairs(v)),
{
    let ps = logging_pairs(v);
    assert(plain_key("name"@)) by {
        reveal_strlit("name");
        assert forall|i: int| 0 <= i < "name"@.len() implies key_char(#[trigger] "name"@[i]) by {
            assert(i == 0 || i == 1 || i == 2 || i == 3);
        }
    }
    assert(plain_key(ps[0].0) && clean_value(ps[0].1));
    assert(plain_key("logLevel"@)) by {
        reveal_strlit("logLevel");
        assert forall|i: int| 0 <= i < "logLevel"@.len() implies key_char(#[trigger] "logLevel"@[i]) by {
            assert(i == 0 || i == 1 || i == 2 || i == 3 || i == 4 || i == 5 || i == 6 || i == 7);
        }
    }
    assert(plain_key(ps[1].0) && clean_value(ps[1].1));
    assert(plain_key("useWindowsEventLog"@)) by {
        reveal_strlit("useWindowsEventLog");
        assert forall|i: int| 0 <= i < "useWindowsEventLog"@.len() implies key_char(#[trigger] "useWindowsEventLog"@[i]) by {
            assert(i == 0 || i == 1 || i == 2 || i == 3 || i == 4 || i == 5 || i == 6 || i == 7 || i == 8 || i == 9 || i == 10 || i == 11 || i == 12 || i == 13 || i == 14 || i == 15 || i == 16 || i == 17);
        }
    }
    lemma_flag_clean(v.use_windows_event_log);
    assert(plain_key(ps[2].0) && clean_value(ps[2].1));
    assert(plain_key("flushDiskWriteCache"@)) by {
        reveal_strlit("flushDiskWriteCache");
        assert forall|i: int| 0 <= i < "flushDiskWriteCache"@.len() implies key_char(#[trigger] "flushDiskWriteCache"@[i]) by {
            assert(i == 0 || i == 1 || i == 2 || i == 3 || i == 4 || i == 5 || i == 6 || i == 7 || i == 8 || i == 9 || i == 10 || i == 11 || i == 12 || i == 13 || i == 14 || i == 15 || i == 16 || i == 17 || i == 18);
        }
    }
    lemma_flag_clean(v.flush_disk_write_cache);
    assert(plain_key(ps[3].0) && clean_value(ps[3].1));
    assert forall|i: int| 0 <= i < ps.len() implies plain_key(#[trigger] ps[i].0) && clean_value(
        ps[i].1,
    ) by {
        assert(i == 0 || i == 1 || i == 2 || i == 3);
    }
}

proof fn lemma_update_pairs_well_formed(v: UpdateView)
    requires
        savable_update(v),
    ensures
        well_formed_pairs(update_pairs(v)),
{
    let ps = update_pairs(v);
    assert(plain_key("enableUpdateCheck"@)) by {
        reveal_strlit("enableUpdateCheck");
        assert forall|i: int| 0 <= i < "enableUpdateCheck"@.len() implies key_char(#[trigger] "enableUpdateCheck"@[i]) by {
            assert(i == 0 || i == 1 || i == 2 || i == 3 || i == 4 || i == 5 || i == 6 || i == 7 || i == 8 || i == 9 || i == 10 || i == 11 || i == 12 || i == 13 || i == 14 || i == 15 || i == 16);
        }
    }
    lemma_flag_clean(v.enable_update_check);
    assert(plain_key(ps[0].0) && clean_value(ps[0].1));
    assert(plain_key("updateCheckFrequency"@)) by {
        reveal_strlit("updateCheckFrequency");
        assert forall|i: int| 0 <= i < "updateCheckFrequency"@.len() implies key_char(#[trigger] "updateCheckFrequency"@[i]) by {
            assert(i == 0 || i == 1 || i == 2 || i == 3 || i == 4 || i == 5 || i == 6 || i == 7 || i == 8 || i == 9 || i == 10 || i == 11 || i == 12 || i == 13 || i == 14 || i == 15 || i == 16 || i == 17 || i == 18 || i == 19);
        }
    }
    assert(plain_key(ps[1].0) && clean_value(ps[1].1));
    assert forall|i: int| 0 <= i < ps.len() implies plain_key(#[trigger] ps[i].0) && clean_value(
        ps[i].1,
    ) by {
        assert(i == 0 || i == 1);
    }
}

proof fn lemma_prime95_custom_pairs_well_formed(v: Prime95CustomView)
    requires
        savable_prime95_custom(v),
    ensures
        well_formed_pairs(prime95_custom_pairs(v)),
{
    let ps = prime95_custom_pairs(v);
    assert(plain_key("CpuSupportsAVX"@)) by {
        reveal_strlit("CpuSupportsAVX");
        assert forall|i: int| 0 <= i < "CpuSupportsAVX"@.len() implies key_char(#[trigger] "CpuSupportsAVX"@[i]) by {
            assert(i == 0 || i == 1 || i == 2 || i == 3 || i == 4 || i == 5 || i == 6 || i == 7 || i == 8 || i == 9 || i == 10 || i == 11 || i == 12 || i == 13);
        }
    }
    lemma_flag_clean(v.cpu_supports_avx);
    assert(plain_key(ps[0].0) && clean_value(ps[0].1));
    assert(plain_key("CpuSupportsAVX2"@)) by {
        reveal_strlit("CpuSupportsAVX2");
        assert forall|i: int| 0 <= i < "CpuSupportsAVX2"@.len() implies key_char(#[trigger] "CpuSupportsAVX2"@[i]) by {
            assert(i == 0 || i == 1 || i == 2 || i == 3 || i == 4 || i == 5 || i == 6 || i == 7 || i == 8 || i == 9 || i == 10 || i == 11 || i == 12 || i == 13 || i == 14);
        }
    }
    lemma_flag_clean(v.cpu_supports_avx2);
    assert(plain_key(ps[1].0) && clean_value(ps[1].1));
    assert(plain_key("CpuSupportsFMA3"@)) by {
        reveal_strlit("CpuSupportsFMA3");
        assert forall|i: int| 0 <= i < "CpuSupportsFMA3"@.len() implies key_char(#[trigger] "CpuSupportsFMA3"@[i]) by {
            assert(i == 0 || i == 1 || i == 2 || i == 3 || i == 4 || i == 5 || i == 6 || i == 7 || i == 8 || i == 9 || i == 10 || i == 11 || i == 12 || i == 13 || i == 14);
        }
    }
    lemma_flag_clean(v.cpu_supports_fma3);
    assert(plain_key(ps[2].0) && clean_value(ps[2].1));
    assert(plain_key("CpuSupportsAVX512"@)) by {
        reveal_strlit("CpuSupportsAVX512");
        assert forall|i: int| 0 <= i < "CpuSupportsAVX512"@.len() implies key_char(#[trigger] "CpuSupportsAVX512"@[i]) by {
            assert(i == 0 || i == 1 || i == 2 || i == 3 || i == 4 || i == 5 || i == 6 || i == 7 || i == 8 || i == 9 || i == 10 || i == 11 || i == 12 || i == 13 || i == 14 || i == 15 || i == 16);
        }
    }
    lemma_flag_clean(v.cpu_supports_avx512);
    assert(plain_key(ps[3].0) && clean_value(ps[3].1));
    assert(plain_key("MinTortureFFT"@)) by {
        reveal_strlit("MinTortureFFT");
        assert forall|i: int| 0 <= i < "MinTortureFFT"@.len() implies key_char(#[trigger] "MinTortureFFT"@[i]) by {
            assert(i == 0 || i == 1 || i == 2 || i == 3 || i == 4 || i == 5 || i == 6 || i == 7 || i == 8 || i == 9 || i == 10 || i == 11 || i == 12);
        }
    }
    assert(plain_key(ps[4].0) && clean_value(ps[4].1));
    assert(plain_key("MaxTortureFFT"@)) by {
        reveal_strlit("MaxTortureFFT");
        assert forall|i: int| 0 <= i < "MaxTortureFFT"@.len() implies key_char(#[trigger] "MaxTortureFFT"@[i]) by {
            assert(i == 0 || i == 1 || i == 2 || i == 3 || i == 4 || i == 5 || i == 6 || i == 7 || i == 8 || i == 9 || i == 10 || i == 11 || i == 12);
        }
    }
    assert(plain_key(ps[5].0) && clean_value(ps[5].1));
    assert(plain_key("TortureMem"@)) by {
        reveal_strlit("TortureMem");
        assert forall|i: int| 0 <= i < "TortureMem"@.len() implies key_char(#[trigger] "TortureMem"@[i]) by {
            assert(i == 0 || i == 1 || i == 2 || i == 3 || i == 4 || i == 5 || i == 6 || i == 7 || i == 8 || i == 9);
        }
    }
    assert(plain_key(ps[6].0) && clean_value(ps[6].1));
    assert(plain_key("TortureTime"@)) by {
        reveal_strlit("TortureTime");
        assert forall|i: int| 0 <= i < "TortureTime"@.len() implies key_char(#[trigger] "TortureTime"@[i]) by {
            assert(i == 0 || i == 1 || i == 2 || i == 3 || i == 4 || i == 5 || i == 6 || i == 7 || i == 8 || i == 9 || i == 10);
        }
    }
    assert(plain_key(ps[7].0) && clean_value(ps[7].1));
    assert forall|i: int| 0 <= i < ps.len() implies plain_key(#[trigger] ps[i].0) && clean_value(
        ps[i].1,
    ) by {
        assert(i == 0 || i == 1 || i == 2 || i == 3 || i == 4 || i == 5 || i == 6 || i == 7);
    }
}

proof fn lemma_debug_pairs_well_formed(v: DebugView)
    requires
        savable_debug(v),
    ensures
        well_formed_pairs(debug_pairs(v)),
{
    let ps = debug_pairs(v);
    assert(plain_key("disableCpuUtilizationCheck"@)) by {
        reveal_strlit("disableCpuUtilizationCheck");
        assert forall|i: int| 0 <= i < "disableCpuUtilizationCheck"@.len() implies key_char(#[trigger] "disableCpuUtilizationCheck"@[i]) by {
            assert(i == 0 || i == 1 || i == 2 || i == 3 || i == 4 || i == 5 || i == 6 || i == 7 || i == 8 || i == 9 || i == 10 || i == 11 || i == 12 || i == 13 || i == 14 || i == 15 || i == 16 || i == 17 || i == 18 || i == 19 || i == 20 || i == 21 || i == 22 || i == 23 || i == 24 || i == 25);
        }
    }
    lemma_flag_clean(v.disable_cpu_utilization_check);
    assert(plain_key(ps[0].0) && clean_value(ps[0].1));
    assert(plain_key("useWindowsPerformanceCountersForCpuUtilization"@)) by {
        reveal_strlit("useWindowsPerformanceCountersForCpuUtilization");
        assert forall|i: int| 0 <= i < "useWindowsPerformanceCountersForCpuUtilization"@.len() implies key_char(#[trigger] "useWindowsPerformanceCountersForCpuUtilization"@[i]) by {
            assert(i == 0 || i == 1 || i == 2 || i == 3 || i == 4 || i == 5 || i == 6 || i == 7 || i == 8 || i == 9 || i == 10 || i == 11 || i == 12 || i == 13 || i == 14 || i == 15 || i == 16 || i == 17 || i == 18 || i == 19 || i == 20 || i == 21 || i == 22 || i == 23 || i == 24 || i == 25 || i == 26 || i == 27 || i == 28 || i == 29 || i == 30 || i == 31 || i == 32 || i == 33 || i == 34 || i == 35 || i == 36 || i == 37 || i == 38 || i == 39 || i == 40 || i == 41 || i == 42 || i == 43 || i == 44 || i == 45);
        }
    }
    lemma_flag_clean(v.use_windows_perf_counters);
    assert(plain_key(ps[1].0) && clean_value(ps[1].1));
    assert(plain_key("enableCpuFrequencyCheck"@)) by {
        reveal_strlit("enableCpuFrequencyCheck");
        assert forall|i: int| 0 <= i < "enableCpuFrequencyCheck"@.len() implies key_char(#[trigger] "enableCpuFrequencyCheck"@[i]) by {
            assert(i == 0 || i == 1 || i == 2 || i == 3 || i == 4 || i == 5 || i == 6 || i == 7 || i == 8 || i == 9 || i == 10 || i == 11 || i == 12 || i == 13 || i == 14 || i == 15 || i == 16 || i == 17 || i == 18 || i == 19 || i == 20 || i == 21 || i == 22);
        }
    }
    lemma_flag_clean(v.enable_cpu_frequency_check);
    assert(plain_key(ps[2].0) && clean_value(ps[2].1));
    assert(plain_key("tickInterval"@)) by {
        reveal_strlit("tickInterval");
        assert forall|i: int| 0 <= i < "tickInterval"@.len() implies key_char(#[trigger] "tickInterval"@[i]) by {
            assert(i == 0 || i == 1 || i == 2 || i == 3 || i == 4 || i == 5 || i == 6 || i == 7 || i == 8 || i == 9 || i == 10 || i == 11);
        }
    }
    assert(plain_key(ps[3].0) && clean_value(ps[3].1));
    assert(plain_key("delayFirstErrorCheck"@)) by {
        reveal_strlit("delayFirstErrorCheck");
        assert forall|i: int| 0 <= i < "delayFirstErrorCheck"@.len() implies key_char(#[trigger] "delayFirstErrorCheck"@[i]) by {
            assert(i == 0 || i == 1 || i == 2 || i == 3 || i == 4 || i == 5 || i == 6 || i == 7 || i == 8 || i == 9 || i == 10 || i == 11 || i == 12 || i == 13 || i == 14 || i == 15 || i == 16 || i == 17 || i == 18 || i == 19);
        }
    }
    assert(plain_key(ps[4].0) && clean_value(ps[4].1));
    assert(plain_key("stressTestProgramPriority"@)) by {
        reveal_strlit("stressTestProgramPriority");
        assert forall|i: int| 0 <= i < "stressTestProgramPriority"@.len() implies key_char(#[trigger] "stressTestProgramPriority"@[i]) by {
            assert(i == 0 || i == 1 || i == 2 || i == 3 || i == 4 || i == 5 || i == 6 || i == 7 || i == 8 || i == 9 || i == 10 || i == 11 || i == 12 || i == 13 || i == 14 || i == 15 || i == 16 || i == 17 || i == 18 || i == 19 || i == 20 || i == 21 || i == 22 || i == 23 || i == 24);
        }
    }
    lemma_process_priority_round_trip(v.stress_test_program_priority);
    lemma_plain_clean(v.stress_test_program_priority.name());
    assert(plain_key(ps[5].0) && clean_value(ps[5].1));
    assert(plain_key("stressTestProgramWindowToForeground"@)) by {
        reveal_strlit("stressTestProgramWindowToForeground");
        assert forall|i: int| 0 <= i < "stressTestProgramWindowToForeground"@.len() implies key_char(#[trigger] "stressTestProgramWindowToForeground"@[i]) by {
            assert(i == 0 || i == 1 || i == 2 || i == 3 || i == 4 || i == 5 || i == 6 || i == 7 || i == 8 || i == 9 || i == 10 || i == 11 || i == 12 || i == 13 || i == 14 || i == 15 || i == 16 || i == 17 || i == 18 || i == 19 || i == 20 || i == 21 || i == 22 || i == 23 || i == 24 || i == 25 || i == 26 || i == 27 || i == 28 || i == 29 || i == 30 || i == 31 || i == 32 || i == 33 || i == 34);
        }
    }
    lemma_flag_clean(v.stress_test_program_window_to_foreground);
    assert(plain_key(ps[6].0) && clean_value(ps[6].1));
    assert(plain_key("suspensionTime"@)) by {
        reveal_strlit("suspensionTime");
        assert forall|i: int| 0 <= i < "suspensionTime"@.len() implies key_char(#[trigger] "suspensionTime"@[i]) by {
            assert(i == 0 || i == 1 || i == 2 || i == 3 || i == 4 || i == 5 || i == 6 || i == 7 || i == 8 || i == 9 || i == 10 || i == 11 || i == 12 || i == 13);
        }
    }
    assert(plain_key(ps[7].0) && clean_value(ps[7].1));
    assert(plain_key("modeToUseForSuspension"@)) by {
        reveal_strlit("modeToUseForSuspension");
        assert forall|i: int| 0 <= i < "modeToUseForSuspension"@.len() implies key_char(#[trigger] "modeToUseForSuspension"@[i]) by {
            assert(i == 0 || i == 1 || i == 2 || i == 3 || i == 4 || i == 5 || i == 6 || i == 7 || i == 8 || i == 9 || i == 10 || i == 11 || i == 12 || i == 13 || i == 14 || i == 15 || i == 16 || i == 17 || i == 18 || i == 19 || i == 20 || i == 21);
        }
    }
    lemma_suspension_mode_round_trip(v.mode_to_use_for_suspension);
    lemma_plain_clean(v.mode_to_use_for_suspension.name());
    assert(plain_key(ps[8].0) && clean_value(ps[8].1));
    assert forall|i: int| 0 <= i < ps.len() implies plain_key(#[trigger] ps[i].0) && clean_value(
        ps[i].1,
    ) by {
        assert(i == 0 || i == 1 || i == 2 || i == 3 || i == 4 || i == 5 || i == 6 || i == 7 || i == 8);
    }
}

proof fn lemma_blocks_well_formed(c: ConfigView)
    requires
        savable(c),
    ensures
        well_formed_blocks(config_blocks(c)),
{
    reveal_strlit("General");
    reveal_strlit("Prime95");
    reveal_strlit("yCruncher");
    reveal_strlit("Aida64");
    reveal_strlit("Linpack");
    reveal_strlit("AutomaticTestMode");
    reveal_strlit("Logging");
    reveal_strlit("Update");
    reveal_strlit("Prime95Custom");
    reveal_strlit("Debug");
    reveal_with_fuel(lacks, 18);
    let bs = config_blocks(c);
    lemma_general_pairs_well_formed(c.general);
    assert(no_newline("General"@)) by {
        assert forall|i: int| 0 <= i < "General"@.len() implies #[trigger] "General"@[i] != '\n' by {
            assert(i == 0 || i == 1 || i == 2 || i == 3 || i == 4 || i == 5 || i == 6);
        }
    }
    assert(bs[0].0.len() > 0 && no_newline(bs[0].0) && well_formed_pairs(bs[0].1));
    lemma_prime95_pairs_well_formed(c.prime95);
    assert(no_newline("Prime95"@)) by {
        assert forall|i: int| 0 <= i < "Prime95"@.len() implies #[trigger] "Prime95"@[i] != '\n' by {
            assert(i == 0 || i == 1 || i == 2 || i == 3 || i == 4 || i == 5 || i == 6);
        }
    }
    assert(bs[1].0.len() > 0 && no_newline(bs[1].0) && well_formed_pairs(bs[1].1));
    lemma_ycruncher_pairs_well_formed(c.ycruncher);
    assert(no_newline("yCruncher"@)) by {
        assert forall|i: int| 0 <= i < "yCruncher"@.len() implies #[trigger] "yCruncher"@[i] != '\n' by {
            assert(i == 0 || i == 1 || i == 2 || i == 3 || i == 4 || i == 5 || i == 6 || i == 7 || i == 8);
        }
    }
    assert(bs[2].0.len() > 0 && no_newline(bs[2].0) && well_formed_pairs(bs[2].1));
    lemma_aida64_pairs_well_formed(c.aida64);
    assert(no_newline("Aida64"@)) by {
        assert forall|i: int| 0 <= i < "Aida64"@.len() implies #[trigger] "Aida64"@[i] != '\n' by {
            assert(i == 0 || i == 1 || i == 2 || i == 3 || i == 4 || i == 5);
        }
    }
    assert(bs[3].0.len() > 0 && no_newline(bs[3].0) && well_formed_pairs(bs[3].1));
    lemma_linpack_pairs_well_formed(c.linpack);
    assert(no_newline("Linpack"@)) by {
        assert forall|i: int| 0 <= i < "Linpack"@.len() implies #[trigger] "Linpack"@[i] != '\n' by {
            assert(i == 0 || i == 1 || i == 2 || i == 3 || i == 4 || i == 5 || i == 6);
        }
    }
    assert(bs[4].0.len() > 0 && no_newline(bs[4].0) && well_formed_pairs(bs[4].1));
    lemma_automatic_test_mode_pairs_well_formed(c.automatic_test_mode);
    assert(no_newline("AutomaticTestMode"@)) by {
        assert forall|i: int| 0 <= i < "AutomaticTestMode"@.len() implies #[trigger] "AutomaticTestMode"@[i] != '\n' by {
            assert(i == 0 || i == 1 || i == 2 || i == 3 || i == 4 || i == 5 || i == 6 || i == 7 || i == 8 || i == 9 || i == 10 || i == 11 || i == 12 || i == 13 || i == 14 || i == 15 || i == 16);
        }
    }
    assert(bs[5].0.len() > 0 && no_newline(bs[5].0) && well_formed_pairs(bs[5].1));
    lemma_logging_pairs_well_formed(c.logging);
    assert(no_newline("Logging"@)) by {
        assert forall|i: int| 0 <= i < "Logging"@.len() implies #[trigger] "Logging"@[i] != '\n' by {
            assert(i == 0 || i == 1 || i == 2 || i == 3 || i == 4 || i == 5 || i == 6);
        }
    }
    assert(bs[6].0.len() > 0 && no_newline(bs[6].0) && well_formed_pairs(bs[6].1));
    lemma_update_pairs_well_formed(c.update);
    assert(no_newline("Update"@)) by {
        assert forall|i: int| 0 <= i < "Update"@.len() implies #[trigger] "Update"@[i] != '\n' by {
            assert(i == 0 || i == 1 || i == 2 || i == 3 || i == 4 || i == 5);
        }
    }
    assert(bs[7].0.len() > 0 && no_newline(bs[7].0) && well_formed_pairs(bs[7].1));
    lemma_prime95_custom_pairs_well_formed(c.prime95_custom);
    assert(no_newline("Prime95Custom"@)) by {
        assert forall|i: int| 0 <= i < "Prime95Custom"@.len() implies #[trigger] "Prime95Custom"@[i] != '\n' by {
            assert(i == 0 || i == 1 || i == 2 || i == 3 || i == 4 || i == 5 || i == 6 || i == 7 || i == 8 || i == 9 || i == 10 || i == 11 || i == 12);
        }
    }
    assert(bs[8].0.len() > 0 && no_newline(bs[8].0) && well_formed_pairs(bs[8].1));
    lemma_debug_pairs_well_formed(c.debug);
    assert(no_newline("Debug"@)) by {
        assert forall|i: int| 0 <= i < "Debug"@.len() implies #[trigger] "Debug"@[i] != '\n' by {
            assert(i == 0 || i == 1 || i == 2 || i == 3 || i == 4);
        }
    }
    assert(bs[9].0.len() > 0 && no_newline(bs[9].0) && well_formed_pairs(bs[9].1));
    assert forall|i: int| 0 <= i < bs.len() implies #[trigger] bs[i].0.len() > 0 && no_newline(
        bs[i].0,
    ) && well_formed_pairs(bs[i].1) by {
        assert(i == 0 || i == 1 || i == 2 || i == 3 || i == 4 || i == 5 || i == 6 || i == 7 || i == 8 || i == 9);
    }
}

proof fn lemma_header_line()
    ensures
        header_line().len() > 0,
        header_line()[0] == '#',
        !is_ws(header_line().last()),
        no_newline(header_line()),
{
    reveal_strlit("# CoreCycler config - Generated by CoreCycler GUI");
    let h = header_line();
    assert forall|i: int| 0 <= i < h.len() implies #[trigger] h[i] != '\n' by {
        assert(i == 0 || i == 1 || i == 2 || i == 3 || i == 4 || i == 5 || i == 6 || i == 7 || i == 8 || i == 9 || i == 10 || i == 11 || i == 12 || i == 13 || i == 14 || i == 15 || i == 16 || i == 17 || i == 18 || i == 19 || i == 20 || i == 21 || i == 22 || i == 23 || i == 24 || i == 25 || i == 26 || i == 27 || i == 28 || i == 29 || i == 30 || i == 31 || i == 32 || i == 33 || i == 34 || i == 35 || i == 36 || i == 37 || i == 38 || i == 39 || i == 40 || i == 41 || i == 42 || i == 43 || i == 44 || i == 45 || i == 46 || i == 47 || i == 48 || i == 49);
    }
}

proof fn lemma_general_reads_back(c: ConfigView)
    requires
        savable(c),
    ensures
        load_general(blocks_entries_from(config_blocks(c), 0)) == c.general,
{
    reveal_strlit("General");
    reveal_strlit("Prime95");
    reveal_strlit("yCruncher");
    reveal_strlit("Aida64");
    reveal_strlit("Linpack");
    reveal_strlit("AutomaticTestMode");
    reveal_strlit("Logging");
    reveal_strlit("Update");
    reveal_strlit("Prime95Custom");
    reveal_strlit("Debug");
    reveal_strlit("useConfigFile");
    reveal_strlit("stressTestProgram");
    reveal_strlit("runtimePerCore");
    reveal_strlit("suspendPeriodically");
    reveal_strlit("coreTestOrder");
    reveal_strlit("skipCoreOnError");
    reveal_strlit("stopOnError");
    reveal_strlit("numberOfThreads");
    reveal_strlit("assignBothVirtualCoresForSingleThread");
    reveal_strlit("maxIterations");
    reveal_strlit("coresToIgnore");
    reveal_strlit("restartTestProgramForEachCore");
    reveal_strlit("delayBetweenCores");
    reveal_strlit("beepOnError");
    reveal_strlit("flashOnError");
    reveal_strlit("lookForWheaErrors");
    reveal_strlit("treatWheaWarningAsError");
    reveal_with_fuel(blocks_lookup, 12);
    let bs = config_blocks(c);
    let es = blocks_entries_from(bs, 0);
    let v = c.general;
    let ps = general_pairs(v);
    assert("Prime95"@ != "General"@) by {
        assert("Prime95"@[0] != "General"@[0]);
    }
    assert("yCruncher"@ != "General"@) by {
        assert("yCruncher"@.len() != "General"@.len());
    }
    assert("Aida64"@ != "General"@) by {
        assert("Aida64"@.len() != "General"@.len());
    }
    assert("Linpack"@ != "General"@) by {
        assert("Linpack"@[0] != "General"@[0]);
    }
    assert("AutomaticTestMode"@ != "General"@) by {
        assert("AutomaticTestMode"@.len() != "General"@.len());
    }
    assert("Logging"@ != "General"@) by {
        assert("Logging"@[0] != "General"@[0]);
    }
    assert("Update"@ != "General"@) by {
        assert("Update"@.len() != "General"@.len());
    }
    assert("Prime95Custom"@ != "General"@) by {
        assert("Prime95Custom"@.len() != "General"@.len());
    }
    assert("Debug"@ != "General"@) by {
        assert("Debug"@.len() != "General"@.len());
    }
    assert(ps[1].0 != "useConfigFile"@) by {
        assert("stressTestProgram"@.len() != "useConfigFile"@.len());
    }
    assert(ps[2].0 != "useConfigFile"@) by {
        assert("runtimePerCore"@.len() != "useConfigFile"@.len());
    }
    assert(ps[3].0 != "useConfigFile"@) by {
        assert("suspendPeriodically"@.len() != "useConfigFile"@.len());
    }
    assert(ps[4].0 != "useConfigFile"@) by {
        assert("coreTestOrder"@[0] != "useConfigFile"@[0]);
    }
    assert(ps[5].0 != "useConfigFile"@) by {
        assert("skipCoreOnError"@.len() != "useConfigFile"@.len());
    }
    assert(ps[6].0 != "useConfigFile"@) by {
        assert("stopOnError"@.len() != "useConfigFile"@.len());
    }
    assert(ps[7].0 != "useConfigFile"@) by {
        assert("numberOfThreads"@.len() != "useConfigFile"@.len());
    }
    assert(ps[8].0 != "useConfigFile"@) by {
        assert("assignBothVirtualCoresForSingleThread"@.len() != "useConfigFile"@.len());
    }
    assert(ps[9].0 != "useConfigFile"@) by {
        assert("maxIterations"@[0] != "useConfigFile"@[0]);
    }
    assert(ps[10].0 != "useConfigFile"@) by {
        assert("coresToIgnore"@[0] != "useConfigFile"@[0]);
    }
    assert(ps[11].0 != "useConfigFile"@) by {
        assert("restartTestProgramForEachCore"@.len() != "useConfigFile"@.len());
    }
    assert(ps[12].0 != "useConfigFile"@) by {
        assert("delayBetweenCores"@.len() != "useConfigFile"@.len());
    }
    assert(ps[13].0 != "useConfigFile"@) by {
        assert("beepOnError"@.len() != "useConfigFile"@.len());
    }
    assert(ps[14].0 != "useConfigFile"@) by {
        assert("flashOnError"@.len() != "useConfigFile"@.len());
    }
    assert(ps[15].0 != "useConfigFile"@) by {
        assert("lookForWheaErrors"@.len() != "useConfigFile"@.len());
    }
    assert(ps[16].0 != "useConfigFile"@) by {
        assert("treatWheaWarningAsError"@.len() != "useConfigFile"@.len());
    }
    assert forall|m: int| 0 < m < 17 implies #[trigger] ps[m].0 != "useConfigFile"@ by {
        assert(m == 1 || m == 2 || m == 3 || m == 4 || m == 5 || m == 6 || m == 7 || m == 8 || m == 9 || m == 10 || m == 11 || m == 12 || m == 13 || m == 14 || m == 15 || m == 16);
    }
    lemma_key_lookup_at(ps, "useConfigFile"@, 0, 17);
    lemma_lookup_blocks(bs, 0, "General"@, "useConfigFile"@);
    assert(ini_lookup(es, "General"@, "useConfigFile"@) == Some(v.use_config_file));
    assert(ps[2].0 != "stressTestProgram"@) by {
        assert("runtimePerCore"@.len() != "stressTestProgram"@.len());
    }
    assert(ps[3].0 != "stressTestProgram"@) by {
        assert("suspendPeriodically"@.len() != "stressTestProgram"@.len());
    }
    assert(ps[4].0 != "stressTestProgram"@) by {
        assert("coreTestOrder"@.len() != "stressTestProgram"@.len());
    }
    assert(ps[5].0 != "stressTestProgram"@) by {
        assert("skipCoreOnError"@.len() != "stressTestProgram"@.len());
    }
    assert(ps[6].0 != "stressTestProgram"@) by {
        assert("stopOnError"@.len() != "stressTestProgram"@.len());
    }
    assert(ps[7].0 != "stressTestProgram"@) by {
        assert("numberOfThreads"@.len() != "stressTestProgram"@.len());
    }
    assert(ps[8].0 != "stressTestProgram"@) by {
        assert("assignBothVirtualCoresForSingleThread"@.len() != "stressTestProgram"@.len());
    }
    assert(ps[9].0 != "stressTestProgram"@) by {
        assert("maxIterations"@.len() != "stressTestProgram"@.len());
    }
    assert(ps[10].0 != "stressTestProgram"@) by {
        assert("coresToIgnore"@.len() != "stressTestProgram"@.len());
    }
    assert(ps[11].0 != "stressTestProgram"@) by {
        assert("restartTestProgramForEachCore"@.len() != "stressTestProgram"@.len());
    }
    assert(ps[12].0 != "stressTestProgram"@) by {
        assert("delayBetweenCores"@[0] != "stressTestProgram"@[0]);
    }
    assert(ps[13].0 != "stressTestProgram"@) by {
        assert("beepOnError"@.len() != "stressTestProgram"@.len());
    }
    assert(ps[14].0 != "stressTestProgram"@) by {
        assert("flashOnError"@.len() != "stressTestProgram"@.len());
    }
    assert(ps[15].0 != "stressTestProgram"@) by {
        assert("lookForWheaErrors"@[0] != "stressTestProgram"@[0]);
    }
    assert(ps[16].0 != "stressTestProgram"@) by {
        assert("treatWheaWarningAsError"@.len() != "stressTestProgram"@.len());
    }
    assert forall|m: int| 1 < m < 17 implies #[trigger] ps[m].0 != "stressTestProgram"@ by {
        assert(m == 2 || m == 3 || m == 4 || m == 5 || m == 6 || m == 7 || m == 8 || m == 9 || m == 10 || m == 11 || m == 12 || m == 13 || m == 14 || m == 15 || m == 16);
    }
    lemma_key_lookup_at(ps, "stressTestProgram"@, 1, 17);
    lemma_lookup_blocks(bs, 0, "General"@, "stressTestProgram"@);
    assert(ini_lookup(es, "General"@, "stressTestProgram"@) == Some(v.stress_test_program.name()));
    lemma_stress_test_program_round_trip(v.stress_test_program);
    assert(ps[3].0 != "runtimePerCore"@) by {
        assert("suspendPeriodically"@.len() != "runtimePerCore"@.len());
    }
    assert(ps[4].0 != "runtimePerCore"@) by {
        assert("coreTestOrder"@.len() != "runtimePerCore"@.len());
    }
    assert(ps[5].0 != "runtimePerCore"@) by {
        assert("skipCoreOnError"@.len() != "runtimePerCore"@.len());
    }
    assert(ps[6].0 != "runtimePerCore"@) by {
        assert("stopOnError"@.len() != "runtimePerCore"@.len());
    }
    assert(ps[7].0 != "runtimePerCore"@) by {
        assert("numberOfThreads"@.len() != "runtimePerCore"@.len());
    }
    assert(ps[8].0 != "runtimePerCore"@) by {
        assert("assignBothVirtualCoresForSingleThread"@.len() != "runtimePerCore"@.len());
    }
    assert(ps[9].0 != "runtimePerCore"@) by {
        assert("maxIterations"@.len() != "runtimePerCore"@.len());
    }
    assert(ps[10].0 != "runtimePerCore"@) by {
        assert("coresToIgnore"@.len() != "runtimePerCore"@.len());
    }
    assert(ps[11].0 != "runtimePerCore"@) by {
        assert("restartTestProgramForEachCore"@.len() != "runtimePerCore"@.len());
    }
    assert(ps[12].0 != "runtimePerCore"@) by {
        assert("delayBetweenCores"@.len() != "runtimePerCore"@.len());
    }
    assert(ps[13].0 != "runtimePerCore"@) by {
        assert("beepOnError"@.len() != "runtimePerCore"@.len());
    }
    assert(ps[14].0 != "runtimePerCore"@) by {
        assert("flashOnError"@.len() != "runtimePerCore"@.len());
    }
    assert(ps[15].0 != "runtimePerCore"@) by {
        assert("lookForWheaErrors"@.len() != "runtimePerCore"@.len());
    }
    assert(ps[16].0 != "runtimePerCore"@) by {
        assert("treatWheaWarningAsError"@.len() != "runtimePerCore"@.len());
    }
    assert forall|m: int| 2 < m < 17 implies #[trigger] ps[m].0 != "runtimePerCore"@ by {
        assert(m == 3 || m == 4 || m == 5 || m == 6 || m == 7 || m == 8 || m == 9 || m == 10 || m == 11 || m == 12 || m == 13 || m == 14 || m == 15 || m == 16);
    }
    lemma_key_lookup_at(ps, "runtimePerCore"@, 2, 17);
    lemma_lookup_blocks(bs, 0, "General"@, "runtimePerCore"@);
    assert(ini_lookup(es, "General"@, "runtimePerCore"@) == Some(v.runtime_per_core));
    assert(ps[4].0 != "suspendPeriodically"@) by {
        assert("coreTestOrder"@.len() != "suspendPeriodically"@.len());
    }
    assert(ps[5].0 != "suspendPeriodically"@) by {
        assert("skipCoreOnError"@.len() != "suspendPeriodically"@.len());
    }
    assert(ps[6].0 != "suspendPeriodically"@) by {
        assert("stopOnError"@.len() != "suspendPeriodically"@.len());
    }
    assert(ps[7].0 != "suspendPeriodically"@) by {
        assert("numberOfThreads"@.len() != "suspendPeriodically"@.len());
    }
    assert(ps[8].0 != "suspendPeriodically"@) by {
        assert("assignBothVirtualCoresForSingleThread"@.len() != "suspendPeriodically"@.len());
    }
    assert(ps[9].0 != "suspendPeriodically"@) by {
        assert("maxIterations"@.len() != "suspendPeriodically"@.len());
    }
    assert(ps[10].0 != "suspendPeriodically"@) by {
        assert("coresToIgnore"@.len() != "suspendPeriodically"@.len());
    }
    assert(ps[11].0 != "suspendPeriodically"@) by {
        assert("restartTestProgramForEachCore"@.len() != "suspendPeriodically"@.len());
    }
    assert(ps[12].0 != "suspendPeriodically"@) by {
        assert("delayBetweenCores"@.len() != "suspendPeriodically"@.len());
    }
    assert(ps[13].0 != "suspendPeriodically"@) by {
        assert("beepOnError"@.len() != "suspendPeriodically"@.len());
    }
    assert(ps[14].0 != "suspendPeriodically"@) by {
        assert("flashOnError"@.len() != "suspendPeriodically"@.len());
    }
    assert(ps[15].0 != "suspendPeriodically"@) by {
        assert("lookForWheaErrors"@.len() != "suspendPeriodically"@.len());
    }
    assert(ps[16].0 != "suspendPeriodically"@) by {
        assert("treatWheaWarningAsError"@.len() != "suspendPeriodically"@.len());
    }
    assert forall|m: int| 3 < m < 17 implies #[trigger] ps[m].0 != "suspendPeriodically"@ by {
        assert(m == 4 || m == 5 || m == 6 || m == 7 || m == 8 || m == 9 || m == 10 || m == 11 || m == 12 || m == 13 || m == 14 || m == 15 || m == 16);
    }
    lemma_key_lookup_at(ps, "suspendPeriodically"@, 3, 17);
    lemma_lookup_blocks(bs, 0, "General"@, "suspendPeriodically"@);
    assert(ini_lookup(es, "General"@, "suspendPeriodically"@) == Some(flag_text(v.suspend_periodically)));
    lemma_flag_round_trip(v.suspend_periodically);
    assert(ps[5].0 != "coreTestOrder"@) by {
        assert("skipCoreOnError"@.len() != "coreTestOrder"@.len());
    }
    assert(ps[6].0 != "coreTestOrder"@) by {
        assert("stopOnError"@.len() != "coreTestOrder"@.len());
    }
    assert(ps[7].0 != "coreTestOrder"@) by {
        assert("numberOfThreads"@.len() != "coreTestOrder"@.len());
    }
    assert(ps[8].0 != "coreTestOrder"@) by {
        assert("assignBothVirtualCoresForSingleThread"@.len() != "coreTestOrder"@.len());
    }
    assert(ps[9].0 != "coreTestOrder"@) by {
        assert("maxIterations"@[0] != "coreTestOrder"@[0]);
    }
    assert(ps[10].0 != "coreTestOrder"@) by {
        assert("coresToIgnore"@[4] != "coreTestOrder"@[4]);
    }
    assert(ps[11].0 != "coreTestOrder"@) by {
        assert("restartTestProgramForEachCore"@.len() != "coreTestOrder"@.len());
    }
    assert(ps[12].0 != "coreTestOrder"@) by {
        assert("delayBetweenCores"@.len() != "coreTestOrder"@.len());
    }
    assert(ps[13].0 != "coreTestOrder"@) by {
        assert("beepOnError"@.len() != "coreTestOrder"@.len());
    }
    assert(ps[14].0 != "coreTestOrder"@) by {
        assert("flashOnError"@.len() != "coreTestOrder"@.len());
    }
    assert(ps[15].0 != "coreTestOrder"@) by {
        assert("lookForWheaErrors"@.len() != "coreTestOrder"@.len());
    }
    assert(ps[16].0 != "coreTestOrder"@) by {
        assert("treatWheaWarningAsError"@.len() != "coreTestOrder"@.len());
    }
    assert forall|m: int| 4 < m < 17 implies #[trigger] ps[m].0 != "coreTestOrder"@ by {
        assert(m == 5 || m == 6 || m == 7 || m == 8 || m == 9 || m == 10 || m == 11 || m == 12 || m == 13 || m == 14 || m == 15 || m == 16);
    }
    lemma_key_lookup_at(ps, "coreTestOrder"@, 4, 17);
    lemma_lookup_blocks(bs, 0, "General"@, "coreTestOrder"@);
    assert(ini_lookup(es, "General"@, "coreTestOrder"@) == Some(v.core_test_order.name()));
    lemma_core_test_order_round_trip(v.core_test_order);
    assert(ps[6].0 != "skipCoreOnError"@) by {
        assert("stopOnError"@.len() != "skipCoreOnError"@.len());
    }
    assert(ps[7].0 != "skipCoreOnError"@) by {
        assert("numberOfThreads"@[0] != "skipCoreOnError"@[0]);
    }
    assert(ps[8].0 != "skipCoreOnError"@) by {
        assert("assignBothVirtualCoresForSingleThread"@.len() != "skipCoreOnError"@.len());
    }
    assert(ps[9].0 != "skipCoreOnError"@) by {
        assert("maxIterations"@.len() != "skipCoreOnError"@.len());
    }
    assert(ps[10].0 != "skipCoreOnError"@) by {
        assert("coresToIgnore"@.len() != "skipCoreOnError"@.len());
    }
    assert(ps[11].0 != "skipCoreOnError"@) by {
        assert("restartTestProgramForEachCore"@.len() != "skipCoreOnError"@.len());
    }
    assert(ps[12].0 != "skipCoreOnError"@) by {
        assert("delayBetweenCores"@.len() != "skipCoreOnError"@.len());
    }
    assert(ps[13].0 != "skipCoreOnError"@) by {
        assert("beepOnError"@.len() != "skipCoreOnError"@.len());
    }
    assert(ps[14].0 != "skipCoreOnError"@) by {
        assert("flashOnError"@.len() != "skipCoreOnError"@.len());
    }
    assert(ps[15].0 != "skipCoreOnError"@) by {
        assert("lookForWheaErrors"@.len() != "skipCoreOnError"@.len());
    }
    assert(ps[16].0 != "skipCoreOnError"@) by {
        assert("treatWheaWarningAsError"@.len() != "skipCoreOnError"@.len());
    }
    assert forall|m: int| 5 < m < 17 implies #[trigger] ps[m].0 != "skipCoreOnError"@ by {
        assert(m == 6 || m == 7 || m == 8 || m == 9 || m == 10 || m == 11 || m == 12 || m == 13 || m == 14 || m == 15 || m == 16);
    }
    lemma_key_lookup_at(ps, "skipCoreOnError"@, 5, 17);
    lemma_lookup_blocks(bs, 0, "General"@, "skipCoreOnError"@);
    assert(ini_lookup(es, "General"@, "skipCoreOnError"@) == Some(flag_text(v.skip_core_on_error)));
    lemma_flag_round_trip(v.skip_core_on_error);
    assert(ps[7].0 != "stopOnError"@) by {
        assert("numberOfThreads"@.len() != "stopOnError"@.len());
    }
    assert(ps[8].0 != "stopOnError"@) by {
        assert("assignBothVirtualCoresForSingleThread"@.len() != "stopOnError"@.len());
    }
    assert(ps[9].0 != "stopOnError"@) by {
        assert("maxIterations"@.len() != "stopOnError"@.len());
    }
    assert(ps[10].0 != "stopOnError"@) by {
        assert("coresToIgnore"@.len() != "stopOnError"@.len());
    }
    assert(ps[11].0 != "stopOnError"@) by {
        assert("restartTestProgramForEachCore"@.len() != "stopOnError"@.len());
    }
    assert(ps[12].0 != "stopOnError"@) by {
        assert("delayBetweenCores"@.len() != "stopOnError"@.len());
    }
    assert(ps[13].0 != "stopOnError"@) by {
        assert("beepOnError"@[0] != "stopOnError"@[0]);
    }
    assert(ps[14].0 != "stopOnError"@) by {
        assert("flashOnError"@.len() != "stopOnError"@.len());
    }
    assert(ps[15].0 != "stopOnError"@) by {
        assert("lookForWheaErrors"@.len() != "stopOnError"@.len());
    }
    assert(ps[16].0 != "stopOnError"@) by {
        assert("treatWheaWarningAsError"@.len() != "stopOnError"@.len());
    }
    assert forall|m: int| 6 < m < 17 implies #[trigger] ps[m].0 != "stopOnError"@ by {
        assert(m == 7 || m == 8 || m == 9 || m == 10 || m == 11 || m == 12 || m == 13 || m == 14 || m == 15 || m == 16);
    }
    lemma_key_lookup_at(ps, "stopOnError"@, 6, 17);
    lemma_lookup_blocks(bs, 0, "General"@, "stopOnError"@);
    assert(ini_lookup(es, "General"@, "stopOnError"@) == Some(flag_text(v.stop_on_error)));
    lemma_flag_round_trip(v.stop_on_error);
    assert(ps[8].0 != "numberOfThreads"@) by {
        assert("assignBothVirtualCoresForSingleThread"@.len() != "numberOfThreads"@.len());
    }
    assert(ps[9].0 != "numberOfThreads"@) by {
        assert("maxIterations"@.len() != "numberOfThreads"@.len());
    }
    assert(ps[10].0 != "numberOfThreads"@) by {
        assert("coresToIgnore"@.len() != "numberOfThreads"@.len());
    }
    assert(ps[11].0 != "numberOfThreads"@) by {
        assert("restartTestProgramForEachCore"@.len() != "numberOfThreads"@.len());
    }
    assert(ps[12].0 != "numberOfThreads"@) by {
        assert("delayBetweenCores"@.len() != "numberOfThreads"@.len());
    }
    assert(ps[13].0 != "numberOfThreads"@) by {
        assert("beepOnError"@.len() != "numberOfThreads"@.len());
    }
    assert(ps[14].0 != "numberOfThreads"@) by {
        assert("flashOnError"@.len() != "numberOfThreads"@.len());
    }
    assert(ps[15].0 != "numberOfThreads"@) by {
        assert("lookForWheaErrors"@.len() != "numberOfThreads"@.len());
    }
    assert(ps[16].0 != "numberOfThreads"@) by {
        assert("treatWheaWarningAsError"@.len() != "numberOfThreads"@.len());
    }
    assert forall|m: int| 7 < m < 17 implies #[trigger] ps[m].0 != "numberOfThreads"@ by {
        assert(m == 8 || m == 9 || m == 10 || m == 11 || m == 12 || m == 13 || m == 14 || m == 15 || m == 16);
    }
    lemma_key_lookup_at(ps, "numberOfThreads"@, 7, 17);
    lemma_lookup_blocks(bs, 0, "General"@, "numberOfThreads"@);
    assert(ini_lookup(es, "General"@, "numberOfThreads"@) == Some(decimal(v.number_of_threads as nat)));
    lemma_parse_decimal(v.number_of_threads as nat);
    assert(ps[9].0 != "assignBothVirtualCoresForSingleThread"@) by {
        assert("maxIterations"@.len() != "assignBothVirtualCoresForSingleThread"@.len());
    }
    assert(ps[10].0 != "assignBothVirtualCoresForSingleThread"@) by {
        assert("coresToIgnore"@.len() != "assignBothVirtualCoresForSingleThread"@.len());
    }
    assert(ps[11].0 != "assignBothVirtualCoresForSingleThread"@) by {
        assert("restartTestProgramForEachCore"@.len() != "assignBothVirtualCoresForSingleThread"@.len());
    }
    assert(ps[12].0 != "assignBothVirtualCoresForSingleThread"@) by {
        assert("delayBetweenCores"@.len() != "assignBothVirtualCoresForSingleThread"@.len());
    }
    assert(ps[13].0 != "assignBothVirtualCoresForSingleThread"@) by {
        assert("beepOnError"@.len() != "assignBothVirtualCoresForSingleThread"@.len());
    }
    assert(ps[14].0 != "assignBothVirtualCoresForSingleThread"@) by {
        assert("flashOnError"@.len() != "assignBothVirtualCoresForSingleThread"@.len());
    }
    assert(ps[15].0 != "assignBothVirtualCoresForSingleThread"@) by {
        assert("lookForWheaErrors"@.len() != "assignBothVirtualCoresForSingleThread"@.len());
    }
    assert(ps[16].0 != "assignBothVirtualCoresForSingleThread"@) by {
        assert("treatWheaWarningAsError"@.len() != "assignBothVirtualCoresForSingleThread"@.len());
    }
    assert forall|m: int| 8 < m < 17 implies #[trigger] ps[m].0 != "assignBothVirtualCoresForSingleThread"@ by {
        assert(m == 9 || m == 10 || m == 11 || m == 12 || m == 13 || m == 14 || m == 15 || m == 16);
    }
    lemma_key_lookup_at(ps, "assignBothVirtualCoresForSingleThread"@, 8, 17);
    lemma_lookup_blocks(bs, 0, "General"@, "assignBothVirtualCoresForSingleThread"@);
    assert(ini_lookup(es, "General"@, "assignBothVirtualCoresForSingleThread"@) == Some(flag_text(v.assign_both_virtual_cores)));
    lemma_flag_round_trip(v.assign_both_virtual_cores);
    assert(ps[10].0 != "maxIterations"@) by {
        assert("coresToIgnore"@[0] != "maxIterations"@[0]);
    }
    assert(ps[11].0 != "maxIterations"@) by {
        assert("restartTestProgramForEachCore"@.len() != "maxIterations"@.len());
    }
    assert(ps[12].0 != "maxIterations"@) by {
        assert("delayBetweenCores"@.len() != "maxIterations"@.len());
    }
    assert(ps[13].0 != "maxIterations"@) by {
        assert("beepOnError"@.len() != "maxIterations"@.len());
    }
    assert(ps[14].0 != "maxIterations"@) by {
        assert("flashOnError"@.len() != "maxIterations"@.len());
    }
    assert(ps[15].0 != "maxIterations"@) by {
        assert("lookForWheaErrors"@.len() != "maxIterations"@.len());
    }
    assert(ps[16].0 != "maxIterations"@) by {
        assert("treatWheaWarningAsError"@.len() != "maxIterations"@.len());
    }
    assert forall|m: int| 9 < m < 17 implies #[trigger] ps[m].0 != "maxIterations"@ by {
        assert(m == 10 || m == 11 || m == 12 || m == 13 || m == 14 || m == 15 || m == 16);
    }
    lemma_key_lookup_at(ps, "maxIterations"@, 9, 17);
    lemma_lookup_blocks(bs, 0, "General"@, "maxIterations"@);
    assert(ini_lookup(es, "General"@, "maxIterations"@) == Some(v.max_iterations));
    assert(ps[11].0 != "coresToIgnore"@) by {
        assert("restartTestProgramForEachCore"@.len() != "coresToIgnore"@.len());
    }
    assert(ps[12].0 != "coresToIgnore"@) by {
        assert("delayBetweenCores"@.len() != "coresToIgnore"@.len());
    }
    assert(ps[13].0 != "coresToIgnore"@) by {
        assert("beepOnError"@.len() != "coresToIgnore"@.len());
    }
    assert(ps[14].0 != "coresToIgnore"@) by {
        assert("flashOnError"@.len() != "coresToIgnore"@.len());
    }
    assert(ps[15].0 != "coresToIgnore"@) by {
        assert("lookForWheaErrors"@.len() != "coresToIgnore"@.len());
    }
    assert(ps[16].0 != "coresToIgnore"@) by {
        assert("treatWheaWarningAsError"@.len() != "coresToIgnore"@.len());
    }
    assert forall|m: int| 10 < m < 17 implies #[trigger] ps[m].0 != "coresToIgnore"@ by {
        assert(m == 11 || m == 12 || m == 13 || m == 14 || m == 15 || m == 16);
    }
    lemma_key_lookup_at(ps, "coresToIgnore"@, 10, 17);
    lemma_lookup_blocks(bs, 0, "General"@, "coresToIgnore"@);
    assert(ini_lookup(es, "General"@, "coresToIgnore"@) == Some(v.cores_to_ignore));
    assert(ps[12].0 != "restartTestProgramForEachCore"@) by {
        assert("delayBetweenCores"@.len() != "restartTestProgramForEachCore"@.len());
    }
    assert(ps[13].0 != "restartTestProgramForEachCore"@) by {
        assert("beepOnError"@.len() != "restartTestProgramForEachCore"@.len());
    }
    assert(ps[14].0 != "restartTestProgramForEachCore"@) by {
        assert("flashOnError"@.len() != "restartTestProgramForEachCore"@.len());
    }
    assert(ps[15].0 != "restartTestProgramForEachCore"@) by {
        assert("lookForWheaErrors"@.len() != "restartTestProgramForEachCore"@.len());
    }
    assert(ps[16].0 != "restartTestProgramForEachCore"@) by {
        assert("treatWheaWarningAsError"@.len() != "restartTestProgramForEachCore"@.len());
    }
    assert forall|m: int| 11 < m < 17 implies #[trigger] ps[m].0 != "restartTestProgramForEachCore"@ by {
        assert(m == 12 || m == 13 || m == 14 || m == 15 || m == 16);
    }
    lemma_key_lookup_at(ps, "restartTestProgramForEachCore"@, 11, 17);
    lemma_lookup_blocks(bs, 0, "General"@, "restartTestProgramForEachCore"@);
    assert(ini_lookup(es, "General"@, "restartTestProgramForEachCore"@) == Some(flag_text(v.restart_test_program_for_each_core)));
    lemma_flag_round_trip(v.restart_test_program_for_each_core);
    assert(ps[13].0 != "delayBetweenCores"@) by {
        assert("beepOnError"@.len() != "delayBetweenCores"@.len());
    }
    assert(ps[14].0 != "delayBetweenCores"@) by {
        assert("flashOnError"@.len() != "delayBetweenCores"@.len());
    }
    assert(ps[15].0 != "delayBetweenCores"@) by {
        assert("lookForWheaErrors"@[0] != "delayBetweenCores"@[0]);
    }
    assert(ps[16].0 != "delayBetweenCores"@) by {
        assert("treatWheaWarningAsError"@.len() != "delayBetweenCores"@.len());
    }
    assert forall|m: int| 12 < m < 17 implies #[trigger] ps[m].0 != "delayBetweenCores"@ by {
        assert(m == 13 || m == 14 || m == 15 || m == 16);
    }
    lemma_key_lookup_at(ps, "delayBetweenCores"@, 12, 17);
    lemma_lookup_blocks(bs, 0, "General"@, "delayBetweenCores"@);
    assert(ini_lookup(es, "General"@, "delayBetweenCores"@) == Some(v.delay_between_cores));
    assert(ps[14].0 != "beepOnError"@) by {
        assert("flashOnError"@.len() != "beepOnError"@.len());
    }
    assert(ps[15].0 != "beepOnError"@) by {
        assert("lookForWheaErrors"@.len() != "beepOnError"@.len());
    }
    assert(ps[16].0 != "beepOnError"@) by {
        assert("treatWheaWarningAsError"@.len() != "beepOnError"@.len());
    }
    assert forall|m: int| 13 < m < 17 implies #[trigger] ps[m].0 != "beepOnError"@ by {
        assert(m == 14 || m == 15 || m == 16);
    }
    lemma_key_lookup_at(ps, "beepOnError"@, 13, 17);
    lemma_lookup_blocks(bs, 0, "General"@, "beepOnError"@);
    assert(ini_lookup(es, "General"@, "beepOnError"@) == Some(flag_text(v.beep_on_error)));
    lemma_flag_round_trip(v.beep_on_error);
    assert(ps[15].0 != "flashOnError"@) by {
        assert("lookForWheaErrors"@.len() != "flashOnError"@.len());
    }
    assert(ps[16].0 != "flashOnError"@) by {
        assert("treatWheaWarningAsError"@.len() != "flashOnError"@.len());
    }
    assert forall|m: int| 14 < m < 17 implies #[trigger] ps[m].0 != "flashOnError"@ by {
        assert(m == 15 || m == 16);
    }
    lemma_key_lookup_at(ps, "flashOnError"@, 14, 17);
    lemma_lookup_blocks(bs, 0, "General"@, "flashOnError"@);
    assert(ini_lookup(es, "General"@, "flashOnError"@) == Some(flag_text(v.flash_on_error)));
    lemma_flag_round_trip(v.flash_on_error);
    assert(ps[16].0 != "lookForWheaErrors"@) by {
        assert("treatWheaWarningAsError"@.len() != "lookForWheaErrors"@.len());
    }
    assert forall|m: int| 15 < m < 17 implies #[trigger] ps[m].0 != "lookForWheaErrors"@ by {
        assert(m == 16);
    }
    lemma_key_lookup_at(ps, "lookForWheaErrors"@, 15, 17);
    lemma_lookup_blocks(bs, 0, "General"@, "lookForWheaErrors"@);
    assert(ini_lookup(es, "General"@, "lookForWheaErrors"@) == Some(flag_text(v.look_for_whea_errors)));
    lemma_flag_round_trip(v.look_for_whea_errors);
    lemma_key_lookup_at(ps, "treatWheaWarningAsError"@, 16, 17);
    lemma_lookup_blocks(bs, 0, "General"@, "treatWheaWarningAsError"@);
    assert(ini_lookup(es, "General"@, "treatWheaWarningAsError"@) == Some(flag_text(v.treat_whea_warning_as_error)));
    lemma_flag_round_trip(v.treat_whea_warning_as_error);
}

proof fn lemma_prime95_reads_back(c: ConfigView)
    requires
        savable(c),
    ensures
        load_prime95(blocks_entries_from(config_blocks(c), 0)) == c.prime95,
{
    reveal_strlit("General");
    reveal_strlit("Prime95");
    reveal_strlit("yCruncher");
    reveal_strlit("Aida64");
    reveal_strlit("Linpack");
    reveal_strlit("AutomaticTestMode");
    reveal_strlit("Logging");
    reveal_strlit("Update");
    reveal_strlit("Prime95Custom");
    reveal_strlit("Debug");
    reveal_strlit("mode");
    reveal_strlit("FFTSize");
    reveal_with_fuel(blocks_lookup, 12);
    let bs = config_blocks(c);
    let es = blocks_entries_from(bs, 0);
    let v = c.prime95;
    let ps = prime95_pairs(v);
    assert("General"@ != "Prime95"@) by {
        assert("General"@[0] != "Prime95"@[0]);
    }
    assert("yCruncher"@ != "Prime95"@) by {
        assert("yCruncher"@.len() != "Prime95"@.len());
    }
    assert("Aida64"@ != "Prime95"@) by {
        assert("Aida64"@.len() != "Prime95"@.len());
    }
    assert("Linpack"@ != "Prime95"@) by {
        assert("Linpack"@[0] != "Prime95"@[0]);
    }
    assert("AutomaticTestMode"@ != "Prime95"@) by {
        assert("AutomaticTestMode"@.len() != "Prime95"@.len());
    }
    assert("Logging"@ != "Prime95"@) by {
        assert("Logging"@[0] != "Prime95"@[0]);
    }
    assert("Update"@ != "Prime95"@) by {
        assert("Update"@.len() != "Prime95"@.len());
    }
    assert("Prime95Custom"@ != "Prime95"@) by {
        assert("Prime95Custom"@.len() != "Prime95"@.len());
    }
    assert("Debug"@ != "Prime95"@) by {
        assert("Debug"@.len() != "Prime95"@.len());
    }
    assert(ps[1].0 != "mode"@) by {
        assert("FFTSize"@.len() != "mode"@.len());
    }
    assert forall|m: int| 0 < m < 2 implies #[trigger] ps[m].0 != "mode"@ by {
        assert(m == 1);
    }
    lemma_key_lookup_at(ps, "mode"@, 0, 2);
    lemma_lookup_blocks(bs, 0, "Prime95"@, "mode"@);
    assert(ini_lookup(es, "Prime95"@, "mode"@) == Some(v.mode.name()));
    lemma_prime95_mode_round_trip(v.mode);
    lemma_key_lookup_at(ps, "FFTSize"@, 1, 2);
    lemma_lookup_blocks(bs, 0, "Prime95"@, "FFTSize"@);
    assert(ini_lookup(es, "Prime95"@, "FFTSize"@) == Some(v.fft_size.name()));
    lemma_fft_size_round_trip(v.fft_size);
}

proof fn lemma_ycruncher_reads_back(c: ConfigView)
    requires
        savable(c),
    ensures
        load_ycruncher(blocks_entries_from(config_blocks(c), 0)) == c.ycruncher,
{
    reveal_strlit("General");
    reveal_strlit("Prime95");
    reveal_strlit("yCruncher");
    reveal_strlit("Aida64");
    reveal_strlit("Linpack");
    reveal_strlit("AutomaticTestMode");
    reveal_strlit("Logging");
    reveal_strlit("Update");
    reveal_strlit("Prime95Custom");
    reveal_strlit("Debug");
    reveal_strlit("mode");
    reveal_strlit("tests");
    reveal_strlit("testDuration");
    reveal_strlit("memory");
    reveal_strlit("enableYCruncherLoggingWrapper");
    reveal_with_fuel(blocks_lookup, 12);
    let bs = config_blocks(c);
    let es = blocks_entries_from(bs, 0);
    let v = c.ycruncher;
    let ps = ycruncher_pairs(v);
    assert("General"@ != "yCruncher"@) by {
        assert("General"@.len() != "yCruncher"@.len());
    }
    assert("Prime95"@ != "yCruncher"@) by {
        assert("Prime95"@.len() != "yCruncher"@.len());
    }
    assert("Aida64"@ != "yCruncher"@) by {
        assert("Aida64"@.len() != "yCruncher"@.len());
    }
    assert("Linpack"@ != "yCruncher"@) by {
        assert("Linpack"@.len() != "yCruncher"@.len());
    }
    assert("AutomaticTestMode"@ != "yCruncher"@) by {
        assert("AutomaticTestMode"@.len() != "yCruncher"@.len());
    }
    assert("Logging"@ != "yCruncher"@) by {
        assert("Logging"@.len() != "yCruncher"@.len());
    }
    assert("Update"@ != "yCruncher"@) by {
        assert("Update"@.len() != "yCruncher"@.len());
    }
    assert("Prime95Custom"@ != "yCruncher"@) by {
        assert("Prime95Custom"@.len() != "yCruncher"@.len());
    }
    assert("Debug"@ != "yCruncher"@) by {
        assert("Debug"@.len() != "yCruncher"@.len());
    }
    assert(ps[1].0 != "mode"@) by {
        assert("tests"@.len() != "mode"@.len());
    }
    assert(ps[2].0 != "mode"@) by {
        assert("testDuration"@.len() != "mode"@.len());
    }
    assert(ps[3].0 != "mode"@) by {
        assert("memory"@.len() != "mode"@.len());
    }
    assert(ps[4].0 != "mode"@) by {
        assert("enableYCruncherLoggingWrapper"@.len() != "mode"@.len());
    }
    assert forall|m: int| 0 < m < 5 implies #[trigger] ps[m].0 != "mode"@ by {
        assert(m == 1 || m == 2 || m == 3 || m == 4);
    }
    lemma_key_lookup_at(ps, "mode"@, 0, 5);
    lemma_lookup_blocks(bs, 0, "yCruncher"@, "mode"@);
    assert(ini_lookup(es, "yCruncher"@, "mode"@) == Some(v.mode.name()));
    lemma_ycruncher_mode_round_trip(v.mode);
    assert(ps[2].0 != "tests"@) by {
        assert("testDuration"@.len() != "tests"@.len());
    }
    assert(ps[3].0 != "tests"@) by {
        assert("memory"@.len() != "tests"@.len());
    }
    assert(ps[4].0 != "tests"@) by {
        assert("enableYCruncherLoggingWrapper"@.len() != "tests"@.len());
    }
    assert forall|m: int| 1 < m < 5 implies #[trigger] ps[m].0 != "tests"@ by {
        assert(m == 2 || m == 3 || m == 4);
    }
    lemma_key_lookup_at(ps, "tests"@, 1, 5);
    lemma_lookup_blocks(bs, 0, "yCruncher"@, "tests"@);
    assert(ini_lookup(es, "yCruncher"@, "tests"@) == Some(v.tests));
    assert(ps[3].0 != "testDuration"@) by {
        assert("memory"@.len() != "testDuration"@.len());
    }
    assert(ps[4].0 != "testDuration"@) by {
        assert("enableYCruncherLoggingWrapper"@.len() != "testDuration"@.len());
    }
    assert forall|m: int| 2 < m < 5 implies #[trigger] ps[m].0 != "testDuration"@ by {
        assert(m == 3 || m == 4);
    }
    lemma_key_lookup_at(ps, "testDuration"@, 2, 5);
    lemma_lookup_blocks(bs, 0, "yCruncher"@, "testDuration"@);
    assert(ini_lookup(es, "yCruncher"@, "testDuration"@) == Some(v.test_duration));
    assert(ps[4].0 != "memory"@) by {
        assert("enableYCruncherLoggingWrapper"@.len() != "memory"@.len());
    }
    assert forall|m: int| 3 < m < 5 implies #[trigger] ps[m].0 != "memory"@ by {
        assert(m == 4);
    }
    lemma_key_lookup_at(ps, "memory"@, 3, 5);
    lemma_lookup_blocks(bs, 0, "yCruncher"@, "memory"@);
    assert(ini_lookup(es, "yCruncher"@, "memory"@) == Some(v.memory));
    lemma_key_lookup_at(ps, "enableYCruncherLoggingWrapper"@, 4, 5);
    lemma_lookup_blocks(bs, 0, "yCruncher"@, "enableYCruncherLoggingWrapper"@);
    assert(ini_lookup(es, "yCruncher"@, "enableYCruncherLoggingWrapper"@) == Some(flag_text(v.enable_logging_wrapper)));
    lemma_flag_round_trip(v.enable_logging_wrapper);
}

proof fn lemma_aida64_reads_back(c: ConfigView)
    requires
        savable(c),
    ensures
        load_aida64(blocks_entries_from(config_blocks(c), 0)) == c.aida64,
{
    reveal_strlit("General");
    reveal_strlit("Prime95");
    reveal_strlit("yCruncher");
    reveal_strlit("Aida64");
    reveal_strlit("Linpack");
    reveal_strlit("AutomaticTestMode");
    reveal_strlit("Logging");
    reveal_strlit("Update");
    reveal_strlit("Prime95Custom");
    reveal_strlit("Debug");
    reveal_strlit("mode");
    reveal_strlit("useAVX");
    reveal_strlit("maxMemory");
    reveal_with_fuel(blocks_lookup, 12);
    let bs = config_blocks(c);
    let es = blocks_entries_from(bs, 0);
    let v = c.aida64;
    let ps = aida64_pairs(v);
    assert("General"@ != "Aida64"@) by {
        assert("General"@.len() != "Aida64"@.len());
    }
    assert("Prime95"@ != "Aida64"@) by {
        assert("Prime95"@.len() != "Aida64"@.len());
    }
    assert("yCruncher"@ != "Aida64"@) by {
        assert("yCruncher"@.len() != "Aida64"@.len());
    }
    assert("Linpack"@ != "Aida64"@) by {
        assert("Linpack"@.len() != "Aida64"@.len());
    }
    assert("AutomaticTestMode"@ != "Aida64"@) by {
        assert("AutomaticTestMode"@.len() != "Aida64"@.len());
    }
    assert("Logging"@ != "Aida64"@) by {
        assert("Logging"@.len() != "Aida64"@.len());
    }
    assert("Update"@ != "Aida64"@) by {
        assert("Update"@[0] != "Aida64"@[0]);
    }
    assert("Prime95Custom"@ != "Aida64"@) by {
        assert("Prime95Custom"@.len() != "Aida64"@.len());
    }
    assert("Debug"@ != "Aida64"@) by {
        assert("Debug"@.len() != "Aida64"@.len());
    }
    assert(ps[1].0 != "mode"@) by {
        assert("useAVX"@.len() != "mode"@.len());
    }
    assert(ps[2].0 != "mode"@) by {
        assert("maxMemory"@.len() != "mode"@.len());
    }
    assert forall|m: int| 0 < m < 3 implies #[trigger] ps[m].0 != "mode"@ by {
        assert(m == 1 || m == 2);
    }
    lemma_key_lookup_at(ps, "mode"@, 0, 3);
    lemma_lookup_blocks(bs, 0, "Aida64"@, "mode"@);
    assert(ini_lookup(es, "Aida64"@, "mode"@) == Some(v.mode));
    assert(ps[2].0 != "useAVX"@) by {
        assert("maxMemory"@.len() != "useAVX"@.len());
    }
    assert forall|m: int| 1 < m < 3 implies #[trigger] ps[m].0 != "useAVX"@ by {
        assert(m == 2);
    }
    lemma_key_lookup_at(ps, "useAVX"@, 1, 3);
    lemma_lookup_blocks(bs, 0, "Aida64"@, "useAVX"@);
    assert(ini_lookup(es, "Aida64"@, "useAVX"@) == Some(flag_text(v.use_avx)));
    lemma_flag_round_trip(v.use_avx);
    lemma_key_lookup_at(ps, "maxMemory"@, 2, 3);
    lemma_lookup_blocks(bs, 0, "Aida64"@, "maxMemory"@);
    assert(ini_lookup(es, "Aida64"@, "maxMemory"@) == Some(v.max_memory));
}

proof fn lemma_linpack_reads_back(c: ConfigView)
    requires
        savable(c),
    ensures
        load_linpack(blocks_entries_from(config_blocks(c), 0)) == c.linpack,
{
    reveal_strlit("General");
    reveal_strlit("Prime95");
    reveal_strlit("yCruncher");
    reveal_strlit("Aida64");
    reveal_strlit("Linpack");
    reveal_strlit("AutomaticTestMode");
    reveal_strlit("Logging");
    reveal_strlit("Update");
    reveal_strlit("Prime95Custom");
    reveal_strlit("Debug");
    reveal_strlit("version");
    reveal_strlit("mode");
    reveal_strlit("memory");
    reveal_with_fuel(blocks_lookup, 12);
    let bs = config_blocks(c);
    let es = blocks_entries_from(bs, 0);
    let v = c.linpack;
    let ps = linpack_pairs(v);
    assert("General"@ != "Linpack"@) by {
        assert("General"@[0] != "Linpack"@[0]);
    }
    assert("Prime95"@ != "Linpack"@) by {
        assert("Prime95"@[0] != "Linpack"@[0]);
    }
    assert("yCruncher"@ != "Linpack"@) by {
        assert("yCruncher"@.len() != "Linpack"@.len());
    }
    assert("Aida64"@ != "Linpack"@) by {
        assert("Aida64"@.len() != "Linpack"@.len());
    }
    assert("AutomaticTestMode"@ != "Linpack"@) by {
        assert("AutomaticTestMode"@.len() != "Linpack"@.len());
    }
    assert("Logging"@ != "Linpack"@) by {
        assert("Logging"@[1] != "Linpack"@[1]);
    }
    assert("Update"@ != "Linpack"@) by {
        assert("Update"@.len() != "Linpack"@.len());
    }
    assert("Prime95Custom"@ != "Linpack"@) by {
        assert("Prime95Custom"@.len() != "Linpack"@.len());
    }
    assert("Debug"@ != "Linpack"@) by {
        assert("Debug"@.len() != "Linpack"@.len());
    }
    assert(ps[1].0 != "version"@) by {
        assert("mode"@.len() != "version"@.len());
    }
    assert(ps[2].0 != "version"@) by {
        assert("memory"@.len() != "version"@.len());
    }
    assert forall|m: int| 0 < m < 3 implies #[trigger] ps[m].0 != "version"@ by {
        assert(m == 1 || m == 2);
    }
    lemma_key_lookup_at(ps, "version"@, 0, 3);
    lemma_lookup_blocks(bs, 0, "Linpack"@, "version"@);
    assert(ini_lookup(es, "Linpack"@, "version"@) == Some(v.version.name()));
    lemma_linpack_version_round_trip(v.version);
    assert(ps[2].0 != "mode"@) by {
        assert("memory"@.len() != "mode"@.len());
    }
    assert forall|m: int| 1 < m < 3 implies #[trigger] ps[m].0 != "mode"@ by {
        assert(m == 2);
    }
    lemma_key_lookup_at(ps, "mode"@, 1, 3);
    lemma_lookup_blocks(bs, 0, "Linpack"@, "mode"@);
    assert(ini_lookup(es, "Linpack"@, "mode"@) == Some(v.mode.name()));
    lemma_linpack_mode_round_trip(v.mode);
    lemma_key_lookup_at(ps, "memory"@, 2, 3);
    lemma_lookup_blocks(bs, 0, "Linpack"@, "memory"@);
    assert(ini_lookup(es, "Linpack"@, "memory"@) == Some(v.memory));
}

proof fn lemma_automatic_test_mode_reads_back(c: ConfigView)
    requires
        savable(c),
    ensures
        load_automatic_test_mode(blocks_entries_from(config_blocks(c), 0)) == c.automatic_test_mode,
{
    reveal_strlit("General");
    reveal_strlit("Prime95");
    reveal_strlit("yCruncher");
    reveal_strlit("Aida64");
    reveal_strlit("Linpack");
    reveal_strlit("AutomaticTestMode");
    reveal_strlit("Logging");
    reveal_strlit("Update");
    reveal_strlit("Prime95Custom");
    reveal_strlit("Debug");
    reveal_strlit("enableAutomaticAdjustment");
    reveal_strlit("startValues");
    reveal_strlit("maxValue");
    reveal_strlit("incrementBy");
    reveal_strlit("setVoltageOnlyForTestedCore");
    reveal_strlit("repeatCoreOnError");
    reveal_strlit("enableResumeAfterUnexpectedExit");
    reveal_strlit("waitBeforeAutomaticResume");
    reveal_strlit("createSystemRestorePoint");
    reveal_strlit("askForSystemRestorePointCreation");
    reveal_with_fuel(blocks_lookup, 12);
    let bs = config_blocks(c);
    let es = blocks_entries_from(bs, 0);
    let v = c.automatic_test_mode;
    let ps = automatic_test_mode_pairs(v);
    assert("General"@ != "AutomaticTestMode"@) by {
        assert("General"@.len() != "AutomaticTestMode"@.len());
    }
    assert("Prime95"@ != "AutomaticTestMode"@) by {
        assert("Prime95"@.len() != "AutomaticTestMode"@.len());
    }
    assert("yCruncher"@ != "AutomaticTestMode"@) by {
        assert("yCruncher"@.len() != "AutomaticTestMode"@.len());
    }
    assert("Aida64"@ != "AutomaticTestMode"@) by {
        assert("Aida64"@.len() != "AutomaticTestMode"@.len());
    }
    assert("Linpack"@ != "AutomaticTestMode"@) by {
        assert("Linpack"@.len() != "AutomaticTestMode"@.len());
    }
    assert("Logging"@ != "AutomaticTestMode"@) by {
        assert("Logging"@.len() != "AutomaticTestMode"@.len());
    }
    assert("Update"@ != "AutomaticTestMode"@) by {
        assert("Update"@.len() != "AutomaticTestMode"@.len());
    }
    assert("Prime95Custom"@ != "AutomaticTestMode"@) by {
        assert("Prime95Custom"@.len() != "AutomaticTestMode"@.len());
    }
    assert("Debug"@ != "AutomaticTestMode"@) by {
        assert("Debug"@.len() != "AutomaticTestMode"@.len());
    }
    assert(ps[1].0 != "enableAutomaticAdjustment"@) by {
        assert("startValues"@.len() != "enableAutomaticAdjustment"@.len());
    }
    assert(ps[2].0 != "enableAutomaticAdjustment"@) by {
        assert("maxValue"@.len() != "enableAutomaticAdjustment"@.len());
    }
    assert(ps[3].0 != "enableAutomaticAdjustment"@) by {
        assert("incrementBy"@.len() != "enableAutomaticAdjustment"@.len());
    }
    assert(ps[4].0 != "enableAutomaticAdjustment"@) by {
        assert("setVoltageOnlyForTestedCore"@.len() != "enableAutomaticAdjustment"@.len());
    }
    assert(ps[5].0 != "enableAutomaticAdjustment"@) by {
        assert("repeatCoreOnError"@.len() != "enableAutomaticAdjustment"@.len());
    }
    assert(ps[6].0 != "enableAutomaticAdjustment"@) by {
        assert("enableResumeAfterUnexpectedExit"@.len() != "enableAutomaticAdjustment"@.len());
    }
    assert(ps[7].0 != "enableAutomaticAdjustment"@) by {
        assert("waitBeforeAutomaticResume"@[0] != "enableAutomaticAdjustment"@[0]);
    }
    assert(ps[8].0 != "enableAutomaticAdjustment"@) by {
        assert("createSystemRestorePoint"@.len() != "enableAutomaticAdjustment"@.len());
    }
    assert(ps[9].0 != "enableAutomaticAdjustment"@) by {
        assert("askForSystemRestorePointCreation"@.len() != "enableAutomaticAdjustment"@.len());
    }
    assert forall|m: int| 0 < m < 10 implies #[trigger] ps[m].0 != "enableAutomaticAdjustment"@ by {
        assert(m == 1 || m == 2 || m == 3 || m == 4 || m == 5 || m == 6 || m == 7 || m == 8 || m == 9);
    }
    lemma_key_lookup_at(ps, "enableAutomaticAdjustment"@, 0, 10);
    lemma_lookup_blocks(bs, 0, "AutomaticTestMode"@, "enableAutomaticAdjustment"@);
    assert(ini_lookup(es, "AutomaticTestMode"@, "enableAutomaticAdjustment"@) == Some(flag_text(v.enable_automatic_adjustment)));
    lemma_flag_round_trip(v.enable_automatic_adjustment);
    assert(ps[2].0 != "startValues"@) by {
        assert("maxValue"@.len() != "startValues"@.len());
    }
    assert(ps[3].0 != "startValues"@) by {
        assert("incrementBy"@[0] != "startValues"@[0]);
    }
    assert(ps[4].0 != "startValues"@) by {
        assert("setVoltageOnlyForTestedCore"@.len() != "startValues"@.len());
    }
    assert(ps[5].0 != "startValues"@) by {
        assert("repeatCoreOnError"@.len() != "startValues"@.len());
    }
    assert(ps[6].0 != "startValues"@) by {
        assert("enableResumeAfterUnexpectedExit"@.len() != "startValues"@.len());
    }
    assert(ps[7].0 != "startValues"@) by {
        assert("waitBeforeAutomaticResume"@.len() != "startValues"@.len());
    }
    assert(ps[8].0 != "startValues"@) by {
        assert("createSystemRestorePoint"@.len() != "startValues"@.len());
    }
    assert(ps[9].0 != "startValues"@) by {
        assert("askForSystemRestorePointCreation"@.len() != "startValues"@.len());
    }
    assert forall|m: int| 1 < m < 10 implies #[trigger] ps[m].0 != "startValues"@ by {
        assert(m == 2 || m == 3 || m == 4 || m == 5 || m == 6 || m == 7 || m == 8 || m == 9);
    }
    lemma_key_lookup_at(ps, "startValues"@, 1, 10);
    lemma_lookup_blocks(bs, 0, "AutomaticTestMode"@, "startValues"@);
    assert(ini_lookup(es, "AutomaticTestMode"@, "startValues"@) == Some(v.start_values));
    assert(ps[3].0 != "maxValue"@) by {
        assert("incrementBy"@.len() != "maxValue"@.len());
    }
    assert(ps[4].0 != "maxValue"@) by {
        assert("setVoltageOnlyForTestedCore"@.len() != "maxValue"@.len());
    }
    assert(ps[5].0 != "maxValue"@) by {
        assert("repeatCoreOnError"@.len() != "maxValue"@.len());
    }
    assert(ps[6].0 != "maxValue"@) by {
        assert("enableResumeAfterUnexpectedExit"@.len() != "maxValue"@.len());
    }
    assert(ps[7].0 != "maxValue"@) by {
        assert("waitBeforeAutomaticResume"@.len() != "maxValue"@.len());
    }
    assert(ps[8].0 != "maxValue"@) by {
        assert("createSystemRestorePoint"@.len() != "maxValue"@.len());
    }
    assert(ps[9].0 != "maxValue"@) by {
        assert("askForSystemRestorePointCreation"@.len() != "maxValue"@.len());
    }
    assert forall|m: int| 2 < m < 10 implies #[trigger] ps[m].0 != "maxValue"@ by {
        assert(m == 3 || m == 4 || m == 5 || m == 6 || m == 7 || m == 8 || m == 9);
    }
    lemma_key_lookup_at(ps, "maxValue"@, 2, 10);
    lemma_lookup_blocks(bs, 0, "AutomaticTestMode"@, "maxValue"@);
    assert(ini_lookup(es, "AutomaticTestMode"@, "maxValue"@) == Some(v.max_value));
    assert(ps[4].0 != "incrementBy"@) by {
        assert("setVoltageOnlyForTestedCore"@.len() != "incrementBy"@.len());
    }
    assert(ps[5].0 != "incrementBy"@) by {
        assert("repeatCoreOnError"@.len() != "incrementBy"@.len());
    }
    assert(ps[6].0 != "incrementBy"@) by {
        assert("enableResumeAfterUnexpectedExit"@.len() != "incrementBy"@.len());
    }
    assert(ps[7].0 != "incrementBy"@) by {
        assert("waitBeforeAutomaticResume"@.len() != "incrementBy"@.len());
    }
    assert(ps[8].0 != "incrementBy"@) by {
        assert("createSystemRestorePoint"@.len() != "incrementBy"@.len());
    }
    assert(ps[9].0 != "incrementBy"@) by {
        assert("askForSystemRestorePointCreation"@.len() != "incrementBy"@.len());
    }
    assert forall|m: int| 3 < m < 10 implies #[trigger] ps[m].0 != "incrementBy"@ by {
        assert(m == 4 || m == 5 || m == 6 || m == 7 || m == 8 || m == 9);
    }
    lemma_key_lookup_at(ps, "incrementBy"@, 3, 10);
    lemma_lookup_blocks(bs, 0, "AutomaticTestMode"@, "incrementBy"@);
    assert(ini_lookup(es, "AutomaticTestMode"@, "incrementBy"@) == Some(v.increment_by));
    assert(ps[5].0 != "setVoltageOnlyForTestedCore"@) by {
        assert("repeatCoreOnError"@.len() != "setVoltageOnlyForTestedCore"@.len());
    }
    assert(ps[6].0 != "setVoltageOnlyForTestedCore"@) by {
        assert("enableResumeAfterUnexpectedExit"@.len() != "setVoltageOnlyForTestedCore"@.len());
    }
    assert(ps[7].0 != "setVoltageOnlyForTestedCore"@) by {
        assert("waitBeforeAutomaticResume"@.len() != "setVoltageOnlyForTestedCore"@.len());
    }
    assert(ps[8].0 != "setVoltageOnlyForTestedCore"@) by {
        assert("createSystemRestorePoint"@.len() != "setVoltageOnlyForTestedCore"@.len());
    }
    assert(ps[9].0 != "setVoltageOnlyForTestedCore"@) by {
        assert("askForSystemRestorePointCreation"@.len() != "setVoltageOnlyForTestedCore"@.len());
    }
    assert forall|m: int| 4 < m < 10 implies #[trigger] ps[m].0 != "setVoltageOnlyForTestedCore"@ by {
        assert(m == 5 || m == 6 || m == 7 || m == 8 || m == 9);
    }
    lemma_key_lookup_at(ps, "setVoltageOnlyForTestedCore"@, 4, 10);
    lemma_lookup_blocks(bs, 0, "AutomaticTestMode"@, "setVoltageOnlyForTestedCore"@);
    assert(ini_lookup(es, "AutomaticTestMode"@, "setVoltageOnlyForTestedCore"@) == Some(flag_text(v.set_voltage_only_for_tested_core)));
    lemma_flag_round_trip(v.set_voltage_only_for_tested_core);
    assert(ps[6].0 != "repeatCoreOnError"@) by {
        assert("enableResumeAfterUnexpectedExit"@.len() != "repeatCoreOnError"@.len());
    }
    assert(ps[7].0 != "repeatCoreOnError"@) by {
        assert("waitBeforeAutomaticResume"@.len() != "repeatCoreOnError"@.len());
    }
    assert(ps[8].0 != "repeatCoreOnError"@) by {
        assert("createSystemRestorePoint"@.len() != "repeatCoreOnError"@.len());
    }
    assert(ps[9].0 != "repeatCoreOnError"@) by {
        assert("askForSystemRestorePointCreation"@.len() != "repeatCoreOnError"@.len());
    }
    assert forall|m: int| 5 < m < 10 implies #[trigger] ps[m].0 != "repeatCoreOnError"@ by {
        assert(m == 6 || m == 7 || m == 8 || m == 9);
    }
    lemma_key_lookup_at(ps, "repeatCoreOnError"@, 5, 10);
    lemma_lookup_blocks(bs, 0, "AutomaticTestMode"@, "repeatCoreOnError"@);
    assert(ini_lookup(es, "AutomaticTestMode"@, "repeatCoreOnError"@) == Some(flag_text(v.repeat_core_on_error)));
    lemma_flag_round_trip(v.repeat_core_on_error);
    assert(ps[7].0 != "enableResumeAfterUnexpectedExit"@) by {
        assert("waitBeforeAutomaticResume"@.len() != "enableResumeAfterUnexpectedExit"@.len());
    }
    assert(ps[8].0 != "enableResumeAfterUnexpectedExit"@) by {
        assert("createSystemRestorePoint"@.len() != "enableResumeAfterUnexpectedExit"@.len());
    }
    assert(ps[9].0 != "enableResumeAfterUnexpectedExit"@) by {
        assert("askForSystemRestorePointCreation"@.len() != "enableResumeAfterUnexpectedExit"@.len());
    }
    assert forall|m: int| 6 < m < 10 implies #[trigger] ps[m].0 != "enableResumeAfterUnexpectedExit"@ by {
        assert(m == 7 || m == 8 || m == 9);
    }
    lemma_key_lookup_at(ps, "enableResumeAfterUnexpectedExit"@, 6, 10);
    lemma_lookup_blocks(bs, 0, "AutomaticTestMode"@, "enableResumeAfterUnexpectedExit"@);
    assert(ini_lookup(es, "AutomaticTestMode"@, "enableResumeAfterUnexpectedExit"@) == Some(flag_text(v.enable_resume_after_unexpected_exit)));
    lemma_flag_round_trip(v.enable_resume_after_unexpected_exit);
    assert(ps[8].0 != "waitBeforeAutomaticResume"@) by {
        assert("createSystemRestorePoint"@.len() != "waitBeforeAutomaticResume"@.len());
    }
    assert(ps[9].0 != "waitBeforeAutomaticResume"@) by {
        assert("askForSystemRestorePointCreation"@.len() != "waitBeforeAutomaticResume"@.len());
    }
    assert forall|m: int| 7 < m < 10 implies #[trigger] ps[m].0 != "waitBeforeAutomaticResume"@ by {
        assert(m == 8 || m == 9);
    }
    lemma_key_lookup_at(ps, "waitBeforeAutomaticResume"@, 7, 10);
    lemma_lookup_blocks(bs, 0, "AutomaticTestMode"@, "waitBeforeAutomaticResume"@);
    assert(ini_lookup(es, "AutomaticTestMode"@, "waitBeforeAutomaticResume"@) == Some(v.wait_before_automatic_resume));
    assert(ps[9].0 != "createSystemRestorePoint"@) by {
        assert("askForSystemRestorePointCreation"@.len() != "createSystemRestorePoint"@.len());
    }
    assert forall|m: int| 8 < m < 10 implies #[trigger] ps[m].0 != "createSystemRestorePoint"@ by {
        assert(m == 9);
    }
    lemma_key_lookup_at(ps, "createSystemRestorePoint"@, 8, 10);
    lemma_lookup_blocks(bs, 0, "AutomaticTestMode"@, "createSystemRestorePoint"@);
    assert(ini_lookup(es, "AutomaticTestMode"@, "createSystemRestorePoint"@) == Some(flag_text(v.create_system_restore_point)));
    lemma_flag_round_trip(v.create_system_restore_point);
    lemma_key_lookup_at(ps, "askForSystemRestorePointCreation"@, 9, 10);
    lemma_lookup_blocks(bs, 0, "AutomaticTestMode"@, "askForSystemRestorePointCreation"@);
    assert(ini_lookup(es, "AutomaticTestMode"@, "askForSystemRestorePointCreation"@) == Some(flag_text(v.ask_for_system_restore_point_creation)));
    lemma_flag_round_trip(v.ask_for_system_restore_point_creation);
}

proof fn lemma_logging_reads_back(c: ConfigView)
    requires
        savable(c),
    ensures
        load_logging(blocks_entries_from(config_blocks(c), 0)) == c.logging,
{
    reveal_strlit("General");
    reveal_strlit("Prime95");
    reveal_strlit("yCruncher");
    reveal_strlit("Aida64");
    reveal_strlit("Linpack");
    reveal_strlit("AutomaticTestMode");
    reveal_strlit("Logging");
    reveal_strlit("Update");
    reveal_strlit("Prime95Custom");
    reveal_strlit("Debug");
    reveal_strlit("name");
    reveal_strlit("logLevel");
    reveal_strlit("useWindowsEventLog");
    reveal_strlit("flushDiskWriteCache");
    reveal_with_fuel(blocks_lookup, 12);
    let bs = config_blocks(c);
    let es = blocks_entries_from(bs, 0);
    let v = c.logging;
    let ps = logging_pairs(v);
    assert("General"@ != "Logging"@) by {
        assert("General"@[0] != "Logging"@[0]);
    }
    assert("Prime95"@ != "Logging"@) by {
        assert("Prime95"@[0] != "Logging"@[0]);
    }
    assert("yCruncher"@ != "Logging"@) by {
        assert("yCruncher"@.len() != "Logging"@.len());
    }
    assert("Aida64"@ != "Logging"@) by {
        assert("Aida64"@.len() != "Logging"@.len());
    }
    assert("Linpack"@ != "Logging"@) by {
        assert("Linpack"@[1] != "Logging"@[1]);
    }
    assert("AutomaticTestMode"@ != "Logging"@) by {
        assert("AutomaticTestMode"@.len() != "Logging"@.len());
    }
    assert("Update"@ != "Logging"@) by {
        assert("Update"@.len() != "Logging"@.len());
    }
    assert("Prime95Custom"@ != "Logging"@) by {
        assert("Prime95Custom"@.len() != "Logging"@.len());
    }
    assert("Debug"@ != "Logging"@) by {
        assert("Debug"@.len() != "Logging"@.len());
    }
    assert(ps[1].0 != "name"@) by {
        assert("logLevel"@.len() != "name"@.len());
    }
    assert(ps[2].0 != "name"@) by {
        assert("useWindowsEventLog"@.len() != "name"@.len());
    }
    assert(ps[3].0 != "name"@) by {
        assert("flushDiskWriteCache"@.len() != "name"@.len());
    }
    assert forall|m: int| 0 < m < 4 implies #[trigger] ps[m].0 != "name"@ by {
        assert(m == 1 || m == 2 || m == 3);
    }
    lemma_key_lookup_at(ps, "name"@, 0, 4);
    lemma_lookup_blocks(bs, 0, "Logging"@, "name"@);
    assert(ini_lookup(es, "Logging"@, "name"@) == Some(v.name));
    assert(ps[2].0 != "logLevel"@) by {
        assert("useWindowsEventLog"@.len() != "logLevel"@.len());
    }
    assert(ps[3].0 != "logLevel"@) by {
        assert("flushDiskWriteCache"@.len() != "logLevel"@.len());
    }
    assert forall|m: int| 1 < m < 4 implies #[trigger] ps[m].0 != "logLevel"@ by {
        assert(m == 2 || m == 3);
    }
    lemma_key_lookup_at(ps, "logLevel"@, 1, 4);
    lemma_lookup_blocks(bs, 0, "Logging"@, "logLevel"@);
    assert(ini_lookup(es, "Logging"@, "logLevel"@) == Some(v.log_level));
    assert(ps[3].0 != "useWindowsEventLog"@) by {
        assert("flushDiskWriteCache"@.len() != "useWindowsEventLog"@.len());
    }
    assert forall|m: int| 2 < m < 4 implies #[trigger] ps[m].0 != "useWindowsEventLog"@ by {
        assert(m == 3);
    }
    lemma_key_lookup_at(ps, "useWindowsEventLog"@, 2, 4);
    lemma_lookup_blocks(bs, 0, "Logging"@, "useWindowsEventLog"@);
    assert(ini_lookup(es, "Logging"@, "useWindowsEventLog"@) == Some(flag_text(v.use_windows_event_log)));
    lemma_flag_round_trip(v.use_windows_event_log);
    lemma_key_lookup_at(ps, "flushDiskWriteCache"@, 3, 4);
    lemma_lookup_blocks(bs, 0, "Logging"@, "flushDiskWriteCache"@);
    assert(ini_lookup(es, "Logging"@, "flushDiskWriteCache"@) == Some(flag_text(v.flush_disk_write_cache)));
    lemma_flag_round_trip(v.flush_disk_write_cache);
}

proof fn lemma_update_reads_back(c: ConfigView)
    requires
        savable(c),
    ensures
        load_update(blocks_entries_from(config_blocks(c), 0)) == c.update,
{
    reveal_strlit("General");
    reveal_strlit("Prime95");
    reveal_strlit("yCruncher");
    reveal_strlit("Aida64");
    reveal_strlit("Linpack");
    reveal_strlit("AutomaticTestMode");
    reveal_strlit("Logging");
    reveal_strlit("Update");
    reveal_strlit("Prime95Custom");
    reveal_strlit("Debug");
    reveal_strlit("enableUpdateCheck");
    reveal_strlit("updateCheckFrequency");
    reveal_with_fuel(blocks_lookup, 12);
    let bs = config_blocks(c);
    let es = blocks_entries_from(bs, 0);
    let v = c.update;
    let ps = update_pairs(v);
    assert("General"@ != "Update"@) by {
        assert("General"@.len() != "Update"@.len());
    }
    assert("Prime95"@ != "Update"@) by {
        assert("Prime95"@.len() != "Update"@.len());
    }
    assert("yCruncher"@ != "Update"@) by {
        assert("yCruncher"@.len() != "Update"@.len());
    }
    assert("Aida64"@ != "Update"@) by {
        assert("Aida64"@[0] != "Update"@[0]);
    }
    assert("Linpack"@ != "Update"@) by {
        assert("Linpack"@.len() != "Update"@.len());
    }
    assert("AutomaticTestMode"@ != "Update"@) by {
        assert("AutomaticTestMode"@.len() != "Update"@.len());
    }
    assert("Logging"@ != "Update"@) by {
        assert("Logging"@.len() != "Update"@.len());
    }
    assert("Prime95Custom"@ != "Update"@) by {
        assert("Prime95Custom"@.len() != "Update"@.len());
    }
    assert("Debug"@ != "Update"@) by {
        assert("Debug"@.len() != "Update"@.len());
    }
    assert(ps[1].0 != "enableUpdateCheck"@) by {
        assert("updateCheckFrequency"@.len() != "enableUpdateCheck"@.len());
    }
    assert forall|m: int| 0 < m < 2 implies #[trigger] ps[m].0 != "enableUpdateCheck"@ by {
        assert(m == 1);
    }
    lemma_key_lookup_at(ps, "enableUpdateCheck"@, 0, 2);
    lemma_lookup_blocks(bs, 0, "Update"@, "enableUpdateCheck"@);
    assert(ini_lookup(es, "Update"@, "enableUpdateCheck"@) == Some(flag_text(v.enable_update_check)));
    lemma_flag_round_trip(v.enable_update_check);
    lemma_key_lookup_at(ps, "updateCheckFrequency"@, 1, 2);
    lemma_lookup_blocks(bs, 0, "Update"@, "updateCheckFrequency"@);
    assert(ini_lookup(es, "Update"@, "updateCheckFrequency"@) == Some(v.update_check_frequency));
}

proof fn lemma_prime95_custom_reads_back(c: ConfigView)
    requires
        savable(c),
    ensures
        load_prime95_custom(blocks_entries_from(config_blocks(c), 0)) == c.prime95_custom,
{
    reveal_strlit("General");
    reveal_strlit("Prime95");
    reveal_strlit("yCruncher");
    reveal_strlit("Aida64");
    reveal_strlit("Linpack");
    reveal_strlit("AutomaticTestMode");
    reveal_strlit("Logging");
    reveal_strlit("Update");
    reveal_strlit("Prime95Custom");
    reveal_strlit("Debug");
    reveal_strlit("CpuSupportsAVX");
    reveal_strlit("CpuSupportsAVX2");
    reveal_strlit("CpuSupportsFMA3");
    reveal_strlit("CpuSupportsAVX512");
    reveal_strlit("MinTortureFFT");
    reveal_strlit("MaxTortureFFT");
    reveal_strlit("TortureMem");
    reveal_strlit("TortureTime");
    reveal_with_fuel(blocks_lookup, 12);
    let bs = config_blocks(c);
    let es = blocks_entries_from(bs, 0);
    let v = c.prime95_custom;
    let ps = prime95_custom_pairs(v);
    assert("General"@ != "Prime95Custom"@) by {
        assert("General"@.len() != "Prime95Custom"@.len());
    }
    assert("Prime95"@ != "Prime95Custom"@) by {
        assert("Prime95"@.len() != "Prime95Custom"@.len());
    }
    assert("yCruncher"@ != "Prime95Custom"@) by {
        assert("yCruncher"@.len() != "Prime95Custom"@.len());
    }
    assert("Aida64"@ != "Prime95Custom"@) by {
        assert("Aida64"@.len() != "Prime95Custom"@.len());
    }
    assert("Linpack"@ != "Prime95Custom"@) by {
        assert("Linpack"@.len() != "Prime95Custom"@.len());
    }
    assert("AutomaticTestMode"@ != "Prime95Custom"@) by {
        assert("AutomaticTestMode"@.len() != "Prime95Custom"@.len());
    }
    assert("Logging"@ != "Prime95Custom"@) by {
        assert("Logging"@.len() != "Prime95Custom"@.len());
    }
    assert("Update"@ != "Prime95Custom"@) by {
        assert("Update"@.len() != "Prime95Custom"@.len());
    }
    assert("Debug"@ != "Prime95Custom"@) by {
        assert("Debug"@.len() != "Prime95Custom"@.len());
    }
    assert(ps[1].0 != "CpuSupportsAVX"@) by {
        assert("CpuSupportsAVX2"@.len() != "CpuSupportsAVX"@.len());
    }
    assert(ps[2].0 != "CpuSupportsAVX"@) by {
        assert("CpuSupportsFMA3"@.len() != "CpuSupportsAVX"@.len());
    }
    assert(ps[3].0 != "CpuSupportsAVX"@) by {
        assert("CpuSupportsAVX512"@.len() != "CpuSupportsAVX"@.len());
    }
    assert(ps[4].0 != "CpuSupportsAVX"@) by {
        assert("MinTortureFFT"@.len() != "CpuSupportsAVX"@.len());
    }
    assert(ps[5].0 != "CpuSupportsAVX"@) by {
        assert("MaxTortureFFT"@.len() != "CpuSupportsAVX"@.len());
    }
    assert(ps[6].0 != "CpuSupportsAVX"@) by {
        assert("TortureMem"@.len() != "CpuSupportsAVX"@.len());
    }
    assert(ps[7].0 != "CpuSupportsAVX"@) by {
        assert("TortureTime"@.len() != "CpuSupportsAVX"@.len());
    }
    assert forall|m: int| 0 < m < 8 implies #[trigger] ps[m].0 != "CpuSupportsAVX"@ by {
        assert(m == 1 || m == 2 || m == 3 || m == 4 || m == 5 || m == 6 || m == 7);
    }
    lemma_key_lookup_at(ps, "CpuSupportsAVX"@, 0, 8);
    lemma_lookup_blocks(bs, 0, "Prime95Custom"@, "CpuSupportsAVX"@);
    assert(ini_lookup(es, "Prime95Custom"@, "CpuSupportsAVX"@) == Some(flag_text(v.cpu_supports_avx)));
    lemma_flag_round_trip(v.cpu_supports_avx);
    assert(ps[2].0 != "CpuSupportsAVX2"@) by {
        assert("CpuSupportsFMA3"@[11] != "CpuSupportsAVX2"@[11]);
    }
    assert(ps[3].0 != "CpuSupportsAVX2"@) by {
        assert("CpuSupportsAVX512"@.len() != "CpuSupportsAVX2"@.len());
    }
    assert(ps[4].0 != "CpuSupportsAVX2"@) by {
        assert("MinTortureFFT"@.len() != "CpuSupportsAVX2"@.len());
    }
    assert(ps[5].0 != "CpuSupportsAVX2"@) by {
        assert("MaxTortureFFT"@.len() != "CpuSupportsAVX2"@.len());
    }
    assert(ps[6].0 != "CpuSupportsAVX2"@) by {
        assert("TortureMem"@.len() != "CpuSupportsAVX2"@.len());
    }
    assert(ps[7].0 != "CpuSupportsAVX2"@) by {
        assert("TortureTime"@.len() != "CpuSupportsAVX2"@.len());
    }
    assert forall|m: int| 1 < m < 8 implies #[trigger] ps[m].0 != "CpuSupportsAVX2"@ by {
        assert(m == 2 || m == 3 || m == 4 || m == 5 || m == 6 || m == 7);
    }
    lemma_key_lookup_at(ps, "CpuSupportsAVX2"@, 1, 8);
    lemma_lookup_blocks(bs, 0, "Prime95Custom"@, "CpuSupportsAVX2"@);
    assert(ini_lookup(es, "Prime95Custom"@, "CpuSupportsAVX2"@) == Some(flag_text(v.cpu_supports_avx2)));
    lemma_flag_round_trip(v.cpu_supports_avx2);
    assert(ps[3].0 != "CpuSupportsFMA3"@) by {
        assert("CpuSupportsAVX512"@.len() != "CpuSupportsFMA3"@.len());
    }
    assert(ps[4].0 != "CpuSupportsFMA3"@) by {
        assert("MinTortureFFT"@.len() != "CpuSupportsFMA3"@.len());
    }
    assert(ps[5].0 != "CpuSupportsFMA3"@) by {
        assert("MaxTortureFFT"@.len() != "CpuSupportsFMA3"@.len());
    }
    assert(ps[6].0 != "CpuSupportsFMA3"@) by {
        assert("TortureMem"@.len() != "CpuSupportsFMA3"@.len());
    }
    assert(ps[7].0 != "CpuSupportsFMA3"@) by {
        assert("TortureTime"@.len() != "CpuSupportsFMA3"@.len());
    }
    assert forall|m: int| 2 < m < 8 implies #[trigger] ps[m].0 != "CpuSupportsFMA3"@ by {
        assert(m == 3 || m == 4 || m == 5 || m == 6 || m == 7);
    }
    lemma_key_lookup_at(ps, "CpuSupportsFMA3"@, 2, 8);
    lemma_lookup_blocks(bs, 0, "Prime95Custom"@, "CpuSupportsFMA3"@);
    assert(ini_lookup(es, "Prime95Custom"@, "CpuSupportsFMA3"@) == Some(flag_text(v.cpu_supports_fma3)));
    lemma_flag_round_trip(v.cpu_supports_fma3);
    assert(ps[4].0 != "CpuSupportsAVX512"@) by {
        assert("MinTortureFFT"@.len() != "CpuSupportsAVX512"@.len());
    }
    assert(ps[5].0 != "CpuSupportsAVX512"@) by {
        assert("MaxTortureFFT"@.len() != "CpuSupportsAVX512"@.len());
    }
    assert(ps[6].0 != "CpuSupportsAVX512"@) by {
        assert("TortureMem"@.len() != "CpuSupportsAVX512"@.len());
    }
    assert(ps[7].0 != "CpuSupportsAVX512"@) by {
        assert("TortureTime"@.len() != "CpuSupportsAVX512"@.len());
    }
    assert forall|m: int| 3 < m < 8 implies #[trigger] ps[m].0 != "CpuSupportsAVX512"@ by {
        assert(m == 4 || m == 5 || m == 6 || m == 7);
    }
    lemma_key_lookup_at(ps, "CpuSupportsAVX512"@, 3, 8);
    lemma_lookup_blocks(bs, 0, "Prime95Custom"@, "CpuSupportsAVX512"@);
    assert(ini_lookup(es, "Prime95Custom"@, "CpuSupportsAVX512"@) == Some(flag_text(v.cpu_supports_avx512)));
    lemma_flag_round_trip(v.cpu_supports_avx512);
    assert(ps[5].0 != "MinTortureFFT"@) by {
        assert("MaxTortureFFT"@[1] != "MinTortureFFT"@[1]);
    }
    assert(ps[6].0 != "MinTortureFFT"@) by {
        assert("TortureMem"@.len() != "MinTortureFFT"@.len());
    }
    assert(ps[7].0 != "MinTortureFFT"@) by {
        assert("TortureTime"@.len() != "MinTortureFFT"@.len());
    }
    assert forall|m: int| 4 < m < 8 implies #[trigger] ps[m].0 != "MinTortureFFT"@ by {
        assert(m == 5 || m == 6 || m == 7);
    }
    lemma_key_lookup_at(ps, "MinTortureFFT"@, 4, 8);
    lemma_lookup_blocks(bs, 0, "Prime95Custom"@, "MinTortureFFT"@);
    assert(ini_lookup(es, "Prime95Custom"@, "MinTortureFFT"@) == Some(v.min_torture_fft));
    assert(ps[6].0 != "MaxTortureFFT"@) by {
        assert("TortureMem"@.len() != "MaxTortureFFT"@.len());
    }
    assert(ps[7].0 != "MaxTortureFFT"@) by {
        assert("TortureTime"@.len() != "MaxTortureFFT"@.len());
    }
    assert forall|m: int| 5 < m < 8 implies #[trigger] ps[m].0 != "MaxTortureFFT"@ by {
        assert(m == 6 || m == 7);
    }
    lemma_key_lookup_at(ps, "MaxTortureFFT"@, 5, 8);
    lemma_lookup_blocks(bs, 0, "Prime95Custom"@, "MaxTortureFFT"@);
    assert(ini_lookup(es, "Prime95Custom"@, "MaxTortureFFT"@) == Some(v.max_torture_fft));
    assert(ps[7].0 != "TortureMem"@) by {
        assert("TortureTime"@.len() != "TortureMem"@.len());
    }
    assert forall|m: int| 6 < m < 8 implies #[trigger] ps[m].0 != "TortureMem"@ by {
        assert(m == 7);
    }
    lemma_key_lookup_at(ps, "TortureMem"@, 6, 8);
    lemma_lookup_blocks(bs, 0, "Prime95Custom"@, "TortureMem"@);
    assert(ini_lookup(es, "Prime95Custom"@, "TortureMem"@) == Some(v.torture_mem));
    lemma_key_lookup_at(ps, "TortureTime"@, 7, 8);
    lemma_lookup_blocks(bs, 0, "Prime95Custom"@, "TortureTime"@);
    assert(ini_lookup(es, "Prime95Custom"@, "TortureTime"@) == Some(v.torture_time));
}

proof fn lemma_debug_reads_back(c: ConfigView)
    requires
        savable(c),
    ensures
        load_debug(blocks_entries_from(config_blocks(c), 0)) == c.debug,
{
    reveal_strlit("General");
    reveal_strlit("Prime95");
    reveal_strlit("yCruncher");
    reveal_strlit("Aida64");
    reveal_strlit("Linpack");
    reveal_strlit("AutomaticTestMode");
    reveal_strlit("Logging");
    reveal_strlit("Update");
    reveal_strlit("Prime95Custom");
    reveal_strlit("Debug");
    reveal_strlit("disableCpuUtilizationCheck");
    reveal_strlit("useWindowsPerformanceCountersForCpuUtilization");
    reveal_strlit("enableCpuFrequencyCheck");
    reveal_strlit("tickInterval");
    reveal_strlit("delayFirstErrorCheck");
    reveal_strlit("stressTestProgramPriority");
    reveal_strlit("stressTestProgramWindowToForeground");
    reveal_strlit("suspensionTime");
    reveal_strlit("modeToUseForSuspension");
    reveal_with_fuel(blocks_lookup, 12);
    let bs = config_blocks(c);
    let es = blocks_entries_from(bs, 0);
    let v = c.debug;
    let ps = debug_pairs(v);
    assert("General"@ != "Debug"@) by {
        assert("General"@.len() != "Debug"@.len());
    }
    assert("Prime95"@ != "Debug"@) by {
        assert("Prime95"@.len() != "Debug"@.len());
    }
    assert("yCruncher"@ != "Debug"@) by {
        assert("yCruncher"@.len() != "Debug"@.len());
    }
    assert("Aida64"@ != "Debug"@) by {
        assert("Aida64"@.len() != "Debug"@.len());
    }
    assert("Linpack"@ != "Debug"@) by {
        assert("Linpack"@.len() != "Debug"@.len());
    }
    assert("AutomaticTestMode"@ != "Debug"@) by {
        assert("AutomaticTestMode"@.len() != "Debug"@.len());
    }
    assert("Logging"@ != "Debug"@) by {
        assert("Logging"@.len() != "Debug"@.len());
    }
    assert("Update"@ != "Debug"@) by {
        assert("Update"@.len() != "Debug"@.len());
    }
    assert("Prime95Custom"@ != "Debug"@) by {
        assert("Prime95Custom"@.len() != "Debug"@.len());
    }
    assert(ps[1].0 != "disableCpuUtilizationCheck"@) by {
        assert("useWindowsPerformanceCountersForCpuUtilization"@.len() != "disableCpuUtilizationCheck"@.len());
    }
    assert(ps[2].0 != "disableCpuUtilizationCheck"@) by {
        assert("enableCpuFrequencyCheck"@.len() != "disableCpuUtilizationCheck"@.len());
    }
    assert(ps[3].0 != "disableCpuUtilizationCheck"@) by {
        assert("tickInterval"@.len() != "disableCpuUtilizationCheck"@.len());
    }
    assert(ps[4].0 != "disableCpuUtilizationCheck"@) by {
        assert("delayFirstErrorCheck"@.len() != "disableCpuUtilizationCheck"@.len());
    }
    assert(ps[5].0 != "disableCpuUtilizationCheck"@) by {
        assert("stressTestProgramPriority"@.len() != "disableCpuUtilizationCheck"@.len());
    }
    assert(ps[6].0 != "disableCpuUtilizationCheck"@) by {
        assert("stressTestProgramWindowToForeground"@.len() != "disableCpuUtilizationCheck"@.len());
    }
    assert(ps[7].0 != "disableCpuUtilizationCheck"@) by {
        assert("suspensionTime"@.len() != "disableCpuUtilizationCheck"@.len());
    }
    assert(ps[8].0 != "disableCpuUtilizationCheck"@) by {
        assert("modeToUseForSuspension"@.len() != "disableCpuUtilizationCheck"@.len());
    }
    assert forall|m: int| 0 < m < 9 implies #[trigger] ps[m].0 != "disableCpuUtilizationCheck"@ by {
        assert(m == 1 || m == 2 || m == 3 || m == 4 || m == 5 || m == 6 || m == 7 || m == 8);
    }
    lemma_key_lookup_at(ps, "disableCpuUtilizationCheck"@, 0, 9);
    lemma_lookup_blocks(bs, 0, "Debug"@, "disableCpuUtilizationCheck"@);
    assert(ini_lookup(es, "Debug"@, "disableCpuUtilizationCheck"@) == Some(flag_text(v.disable_cpu_utilization_check)));
    lemma_flag_round_trip(v.disable_cpu_utilization_check);
    assert(ps[2].0 != "useWindowsPerformanceCountersForCpuUtilization"@) by {
        assert("enableCpuFrequencyCheck"@.len() != "useWindowsPerformanceCountersForCpuUtilization"@.len());
    }
    assert(ps[3].0 != "useWindowsPerformanceCountersForCpuUtilization"@) by {
        assert("tickInterval"@.len() != "useWindowsPerformanceCountersForCpuUtilization"@.len());
    }
    assert(ps[4].0 != "useWindowsPerformanceCountersForCpuUtilization"@) by {
        assert("delayFirstErrorCheck"@.len() != "useWindowsPerformanceCountersForCpuUtilization"@.len());
    }
    assert(ps[5].0 != "useWindowsPerformanceCountersForCpuUtilization"@) by {
        assert("stressTestProgramPriority"@.len() != "useWindowsPerformanceCountersForCpuUtilization"@.len());
    }
    assert(ps[6].0 != "useWindowsPerformanceCountersForCpuUtilization"@) by {
        assert("stressTestProgramWindowToForeground"@.len() != "useWindowsPerformanceCountersForCpuUtilization"@.len());
    }
    assert(ps[7].0 != "useWindowsPerformanceCountersForCpuUtilization"@) by {
        assert("suspensionTime"@.len() != "useWindowsPerformanceCountersForCpuUtilization"@.len());
    }
    assert(ps[8].0 != "useWindowsPerformanceCountersForCpuUtilization"@) by {
        assert("modeToUseForSuspension"@.len() != "useWindowsPerformanceCountersForCpuUtilization"@.len());
    }
    assert forall|m: int| 1 < m < 9 implies #[trigger] ps[m].0 != "useWindowsPerformanceCountersForCpuUtilization"@ by {
        assert(m == 2 || m == 3 || m == 4 || m == 5 || m == 6 || m == 7 || m == 8);
    }
    lemma_key_lookup_at(ps, "useWindowsPerformanceCountersForCpuUtilization"@, 1, 9);
    lemma_lookup_blocks(bs, 0, "Debug"@, "useWindowsPerformanceCountersForCpuUtilization"@);
    assert(ini_lookup(es, "Debug"@, "useWindowsPerformanceCountersForCpuUtilization"@) == Some(flag_text(v.use_windows_perf_counters)));
    lemma_flag_round_trip(v.use_windows_perf_counters);
    assert(ps[3].0 != "enableCpuFrequencyCheck"@) by {
        assert("tickInterval"@.len() != "enableCpuFrequencyCheck"@.len());
    }
    assert(ps[4].0 != "enableCpuFrequencyCheck"@) by {
        assert("delayFirstErrorCheck"@.len() != "enableCpuFrequencyCheck"@.len());
    }
    assert(ps[5].0 != "enableCpuFrequencyCheck"@) by {
        assert("stressTestProgramPriority"@.len() != "enableCpuFrequencyCheck"@.len());
    }
    assert(ps[6].0 != "enableCpuFrequencyCheck"@) by {
        assert("stressTestProgramWindowToForeground"@.len() != "enableCpuFrequencyCheck"@.len());
    }
    assert(ps[7].0 != "enableCpuFrequencyCheck"@) by {
        assert("suspensionTime"@.len() != "enableCpuFrequencyCheck"@.len());
    }
    assert(ps[8].0 != "enableCpuFrequencyCheck"@) by {
        assert("modeToUseForSuspension"@.len() != "enableCpuFrequencyCheck"@.len());
    }
    assert forall|m: int| 2 < m < 9 implies #[trigger] ps[m].0 != "enableCpuFrequencyCheck"@ by {
        assert(m == 3 || m == 4 || m == 5 || m == 6 || m == 7 || m == 8);
    }
    lemma_key_lookup_at(ps, "enableCpuFrequencyCheck"@, 2, 9);
    lemma_lookup_blocks(bs, 0, "Debug"@, "enableCpuFrequencyCheck"@);
    assert(ini_lookup(es, "Debug"@, "enableCpuFrequencyCheck"@) == Some(flag_text(v.enable_cpu_frequency_check)));
    lemma_flag_round_trip(v.enable_cpu_frequency_check);
    assert(ps[4].0 != "tickInterval"@) by {
        assert("delayFirstErrorCheck"@.len() != "tickInterval"@.len());
    }
    assert(ps[5].0 != "tickInterval"@) by {
        assert("stressTestProgramPriority"@.len() != "tickInterval"@.len());
    }
    assert(ps[6].0 != "tickInterval"@) by {
        assert("stressTestProgramWindowToForeground"@.len() != "tickInterval"@.len());
    }
    assert(ps[7].0 != "tickInterval"@) by {
        assert("suspensionTime"@.len() != "tickInterval"@.len());
    }
    assert(ps[8].0 != "tickInterval"@) by {
        assert("modeToUseForSuspension"@.len() != "tickInterval"@.len());
    }
    assert forall|m: int| 3 < m < 9 implies #[trigger] ps[m].0 != "tickInterval"@ by {
        assert(m == 4 || m == 5 || m == 6 || m == 7 || m == 8);
    }
    lemma_key_lookup_at(ps, "tickInterval"@, 3, 9);
    lemma_lookup_blocks(bs, 0, "Debug"@, "tickInterval"@);
    assert(ini_lookup(es, "Debug"@, "tickInterval"@) == Some(v.tick_interval));
    assert(ps[5].0 != "delayFirstErrorCheck"@) by {
        assert("stressTestProgramPriority"@.len() != "delayFirstErrorCheck"@.len());
    }
    assert(ps[6].0 != "delayFirstErrorCheck"@) by {
        assert("stressTestProgramWindowToForeground"@.len() != "delayFirstErrorCheck"@.len());
    }
    assert(ps[7].0 != "delayFirstErrorCheck"@) by {
        assert("suspensionTime"@.len() != "delayFirstErrorCheck"@.len());
    }
    assert(ps[8].0 != "delayFirstErrorCheck"@) by {
        assert("modeToUseForSuspension"@.len() != "delayFirstErrorCheck"@.len());
    }
    assert forall|m: int| 4 < m < 9 implies #[trigger] ps[m].0 != "delayFirstErrorCheck"@ by {
        assert(m == 5 || m == 6 || m == 7 || m == 8);
    }
    lemma_key_lookup_at(ps, "delayFirstErrorCheck"@, 4, 9);
    lemma_lookup_blocks(bs, 0, "Debug"@, "delayFirstErrorCheck"@);
    assert(ini_lookup(es, "Debug"@, "delayFirstErrorCheck"@) == Some(v.delay_first_error_check));
    assert(ps[6].0 != "stressTestProgramPriority"@) by {
        assert("stressTestProgramWindowToForeground"@.len() != "stressTestProgramPriority"@.len());
    }
    assert(ps[7].0 != "stressTestProgramPriority"@) by {
        assert("suspensionTime"@.len() != "stressTestProgramPriority"@.len());
    }
    assert(ps[8].0 != "stressTestProgramPriority"@) by {
        assert("modeToUseForSuspension"@.len() != "stressTestProgramPriority"@.len());
    }
    assert forall|m: int| 5 < m < 9 implies #[trigger] ps[m].0 != "stressTestProgramPriority"@ by {
        assert(m == 6 || m == 7 || m == 8);
    }
    lemma_key_lookup_at(ps, "stressTestProgramPriority"@, 5, 9);
    lemma_lookup_blocks(bs, 0, "Debug"@, "stressTestProgramPriority"@);
    assert(ini_lookup(es, "Debug"@, "stressTestProgramPriority"@) == Some(v.stress_test_program_priority.name()));
    lemma_process_priority_round_trip(v.stress_test_program_priority);
    assert(ps[7].0 != "stressTestProgramWindowToForeground"@) by {
        assert("suspensionTime"@.len() != "stressTestProgramWindowToForeground"@.len());
    }
    assert(ps[8].0 != "stressTestProgramWindowToForeground"@) by {
        assert("modeToUseForSuspension"@.len() != "stressTestProgramWindowToForeground"@.len());
    }
    assert forall|m: int| 6 < m < 9 implies #[trigger] ps[m].0 != "stressTestProgramWindowToForeground"@ by {
        assert(m == 7 || m == 8);
    }
    lemma_key_lookup_at(ps, "stressTestProgramWindowToForeground"@, 6, 9);
    lemma_lookup_blocks(bs, 0, "Debug"@, "stressTestProgramWindowToForeground"@);
    assert(ini_lookup(es, "Debug"@, "stressTestProgramWindowToForeground"@) == Some(flag_text(v.stress_test_program_window_to_foreground)));
    lemma_flag_round_trip(v.stress_test_program_window_to_foreground);
    assert(ps[8].0 != "suspensionTime"@) by {
        assert("modeToUseForSuspension"@.len() != "suspensionTime"@.len());
    }
    assert forall|m: int| 7 < m < 9 implies #[trigger] ps[m].0 != "suspensionTime"@ by {
        assert(m == 8);
    }
    lemma_key_lookup_at(ps, "suspensionTime"@, 7, 9);
    lemma_lookup_blocks(bs, 0, "Debug"@, "suspensionTime"@);
    assert(ini_lookup(es, "Debug"@, "suspensionTime"@) == Some(v.suspension_time));
    lemma_key_lookup_at(ps, "modeToUseForSuspension"@, 8, 9);
    lemma_lookup_blocks(bs, 0, "Debug"@, "modeToUseForSuspension"@);
    assert(ini_lookup(es, "Debug"@, "modeToUseForSuspension"@) == Some(v.mode_to_use_for_suspension.name()));
    lemma_suspension_mode_round_trip(v.mode_to_use_for_suspension);
}

/// The keys of the `general` pairs: the same for every value, none twice.
proof fn lemma_general_keys(v: GeneralView, w: GeneralView)
    ensures
        same_keys(general_pairs(v), general_pairs(w)),
        distinct_keys(general_pairs(v)),
{
    reveal_strlit("assignBothVirtualCoresForSingleThread");
    reveal_strlit("beepOnError");
    reveal_strlit("coreTestOrder");
    reveal_strlit("coresToIgnore");
    reveal_strlit("delayBetweenCores");
    reveal_strlit("flashOnError");
    reveal_strlit("lookForWheaErrors");
    reveal_strlit("maxIterations");
    reveal_strlit("numberOfThreads");
    reveal_strlit("restartTestProgramForEachCore");
    reveal_strlit("runtimePerCore");
    reveal_strlit("skipCoreOnError");
    reveal_strlit("stopOnError");
    reveal_strlit("stressTestProgram");
    reveal_strlit("suspendPeriodically");
    reveal_strlit("treatWheaWarningAsError");
    reveal_strlit("useConfigFile");
    let ps = general_pairs(v);
    let ds = general_pairs(w);
    assert forall|i: int| 0 <= i < ps.len() implies #[trigger] ps[i].0 == ds[i].0 by {
        assert(i == 0 || i == 1 || i == 2 || i == 3 || i == 4 || i == 5 || i == 6 || i == 7 || i == 8 || i == 9 || i == 10 || i == 11 || i == 12 || i == 13 || i == 14 || i == 15 || i == 16);
    }
    assert(ps[0].0 != ps[1].0) by { assert("useConfigFile"@.len() != "stressTestProgram"@.len()); }
    assert(ps[0].0 != ps[2].0) by { assert("useConfigFile"@.len() != "runtimePerCore"@.len()); }
    assert(ps[0].0 != ps[3].0) by { assert("useConfigFile"@.len() != "suspendPeriodically"@.len()); }
    assert(ps[0].0 != ps[4].0) by { assert("useConfigFile"@[0] != "coreTestOrder"@[0]); }
    assert(ps[0].0 != ps[5].0) by { assert("useConfigFile"@.len() != "skipCoreOnError"@.len()); }
    assert(ps[0].0 != ps[6].0) by { assert("useConfigFile"@.len() != "stopOnError"@.len()); }
    assert(ps[0].0 != ps[7].0) by { assert("useConfigFile"@.len() != "numberOfThreads"@.len()); }
    assert(ps[0].0 != ps[8].0) by { assert("useConfigFile"@.len() != "assignBothVirtualCoresForSingleThread"@.len()); }
    assert(ps[0].0 != ps[9].0) by { assert("useConfigFile"@[0] != "maxIterations"@[0]); }
    assert(ps[0].0 != ps[10].0) by { assert("useConfigFile"@[0] != "coresToIgnore"@[0]); }
    assert(ps[0].0 != ps[11].0) by { assert("useConfigFile"@.len() != "restartTestProgramForEachCore"@.len()); }
    assert(ps[0].0 != ps[12].0) by { assert("useConfigFile"@.len() != "delayBetweenCores"@.len()); }
    assert(ps[0].0 != ps[13].0) by { assert("useConfigFile"@.len() != "beepOnError"@.len()); }
    assert(ps[0].0 != ps[14].0) by { assert("useConfigFile"@.len() != "flashOnError"@.len()); }
    assert(ps[0].0 != ps[15].0) by { assert("useConfigFile"@.len() != "lookForWheaErrors"@.len()); }
    assert(ps[0].0 != ps[16].0) by { assert("useConfigFile"@.len() != "treatWheaWarningAsError"@.len()); }
    assert(ps[1].0 != ps[2].0) by { assert("stressTestProgram"@.len() != "runtimePerCore"@.len()); }
    assert(ps[1].0 != ps[3].0) by { assert("stressTestProgram"@.len() != "suspendPeriodically"@.len()); }
    assert(ps[1].0 != ps[4].0) by { assert("stressTestProgram"@.len() != "coreTestOrder"@.len()); }
    assert(ps[1].0 != ps[5].0) by { assert("stressTestProgram"@.len() != "skipCoreOnError"@.len()); }
    assert(ps[1].0 != ps[6].0) by { assert("stressTestProgram"@.len() != "stopOnError"@.len()); }
    assert(ps[1].0 != ps[7].0) by { assert("stressTestProgram"@.len() != "numberOfThreads"@.len()); }
    assert(ps[1].0 != ps[8].0) by { assert("stressTestProgram"@.len() != "assignBothVirtualCoresForSingleThread"@.len()); }
    assert(ps[1].0 != ps[9].0) by { assert("stressTestProgram"@.len() != "maxIterations"@.len()); }
    assert(ps[1].0 != ps[10].0) by { assert("stressTestProgram"@.len() != "coresToIgnore"@.len()); }
    assert(ps[1].0 != ps[11].0) by { assert("stressTestProgram"@.len() != "restartTestProgramForEachCore"@.len()); }
    assert(ps[1].0 != ps[12].0) by { assert("stressTestProgram"@[0] != "delayBetweenCores"@[0]); }
    assert(ps[1].0 != ps[13].0) by { assert("stressTestProgram"@.len() != "beepOnError"@.len()); }
    assert(ps[1].0 != ps[14].0) by { assert("stressTestProgram"@.len() != "flashOnError"@.len()); }
    assert(ps[1].0 != ps[15].0) by { assert("stressTestProgram"@[0] != "lookForWheaErrors"@[0]); }
    assert(ps[1].0 != ps[16].0) by { assert("stressTestProgram"@.len() != "treatWheaWarningAsError"@.len()); }
    assert(ps[2].0 != ps[3].0) by { assert("runtimePerCore"@.len() != "suspendPeriodically"@.len()); }
    assert(ps[2].0 != ps[4].0) by { assert("runtimePerCore"@.len() != "coreTestOrder"@.len()); }
    assert(ps[2].0 != ps[5].0) by { assert("runtimePerCore"@.len() != "skipCoreOnError"@.len()); }
    assert(ps[2].0 != ps[6].0) by { assert("runtimePerCore"@.len() != "stopOnError"@.len()); }
    assert(ps[2].0 != ps[7].0) by { assert("runtimePerCore"@.len() != "numberOfThreads"@.len()); }
    assert(ps[2].0 != ps[8].0) by { assert("runtimePerCore"@.len() != "assignBothVirtualCoresForSingleThread"@.len()); }
    assert(ps[2].0 != ps[9].0) by { assert("runtimePerCore"@.len() != "maxIterations"@.len()); }
    assert(ps[2].0 != ps[10].0) by { assert("runtimePerCore"@.len() != "coresToIgnore"@.len()); }
    assert(ps[2].0 != ps[11].0) by { assert("runtimePerCore"@.len() != "restartTestProgramForEachCore"@.len()); }
    assert(ps[2].0 != ps[12].0) by { assert("runtimePerCore"@.len() != "delayBetweenCores"@.len()); }
    assert(ps[2].0 != ps[13].0) by { assert("runtimePerCore"@.len() != "beepOnError"@.len()); }
    assert(ps[2].0 != ps[14].0) by { assert("runtimePerCore"@.len() != "flashOnError"@.len()); }
    assert(ps[2].0 != ps[15].0) by { assert("runtimePerCore"@.len() != "lookForWheaErrors"@.len()); }
    assert(ps[2].0 != ps[16].0) by { assert("runtimePerCore"@.len() != "treatWheaWarningAsError"@.len()); }
    assert(ps[3].0 != ps[4].0) by { assert("suspendPeriodically"@.len() != "coreTestOrder"@.len()); }
    assert(ps[3].0 != ps[5].0) by { assert("suspendPeriodically"@.len() != "skipCoreOnError"@.len()); }
    assert(ps[3].0 != ps[6].0) by { assert("suspendPeriodically"@.len() != "stopOnError"@.len()); }
    assert(ps[3].0 != ps[7].0) by { assert("suspendPeriodically"@.len() != "numberOfThreads"@.len()); }
    assert(ps[3].0 != ps[8].0) by { assert("suspendPeriodically"@.len() != "assignBothVirtualCoresForSingleThread"@.len()); }
    assert(ps[3].0 != ps[9].0) by { assert("suspendPeriodically"@.len() != "maxIterations"@.len()); }
    assert(ps[3].0 != ps[10].0) by { assert("suspendPeriodically"@.len() != "coresToIgnore"@.len()); }
    assert(ps[3].0 != ps[11].0) by { assert("suspendPeriodically"@.len() != "restartTestProgramForEachCore"@.len()); }
    assert(ps[3].0 != ps[12].0) by { assert("suspendPeriodically"@.len() != "delayBetweenCores"@.len()); }
    assert(ps[3].0 != ps[13].0) by { assert("suspendPeriodically"@.len() != "beepOnError"@.len()); }
    assert(ps[3].0 != ps[14].0) by { assert("suspendPeriodically"@.len() != "flashOnError"@.len()); }
    assert(ps[3].0 != ps[15].0) by { assert("suspendPeriodically"@.len() != "lookForWheaErrors"@.len()); }
    assert(ps[3].0 != ps[16].0) by { assert("suspendPeriodically"@.len() != "treatWheaWarningAsError"@.len()); }
    assert(ps[4].0 != ps[5].0) by { assert("coreTestOrder"@.len() != "skipCoreOnError"@.len()); }
    assert(ps[4].0 != ps[6].0) by { assert("coreTestOrder"@.len() != "stopOnError"@.len()); }
    assert(ps[4].0 != ps[7].0) by { assert("coreTestOrder"@.len() != "numberOfThreads"@.len()); }
    assert(ps[4].0 != ps[8].0) by { assert("coreTestOrder"@.len() != "assignBothVirtualCoresForSingleThread"@.len()); }
    assert(ps[4].0 != ps[9].0) by { assert("coreTestOrder"@[0] != "maxIterations"@[0]); }
    assert(ps[4].0 != ps[10].0) by { assert("coreTestOrder"@[4] != "coresToIgnore"@[4]); }
    assert(ps[4].0 != ps[11].0) by { assert("coreTestOrder"@.len() != "restartTestProgramForEachCore"@.len()); }
    assert(ps[4].0 != ps[12].0) by { assert("coreTestOrder"@.len() != "delayBetweenCores"@.len()); }
    assert(ps[4].0 != ps[13].0) by { assert("coreTestOrder"@.len() != "beepOnError"@.len()); }
    assert(ps[4].0 != ps[14].0) by { assert("coreTestOrder"@.len() != "flashOnError"@.len()); }
    assert(ps[4].0 != ps[15].0) by { assert("coreTestOrder"@.len() != "lookForWheaErrors"@.len()); }
    assert(ps[4].0 != ps[16].0) by { assert("coreTestOrder"@.len() != "treatWheaWarningAsError"@.len()); }
    assert(ps[5].0 != ps[6].0) by { assert("skipCoreOnError"@.len() != "stopOnError"@.len()); }
    assert(ps[5].0 != ps[7].0) by { assert("skipCoreOnError"@[0] != "numberOfThreads"@[0]); }
    assert(ps[5].0 != ps[8].0) by { assert("skipCoreOnError"@.len() != "assignBothVirtualCoresForSingleThread"@.len()); }
    assert(ps[5].0 != ps[9].0) by { assert("skipCoreOnError"@.len() != "maxIterations"@.len()); }
    assert(ps[5].0 != ps[10].0) by { assert("skipCoreOnError"@.len() != "coresToIgnore"@.len()); }
    assert(ps[5].0 != ps[11].0) by { assert("skipCoreOnError"@.len() != "restartTestProgramForEachCore"@.len()); }
    assert(ps[5].0 != ps[12].0) by { assert("skipCoreOnError"@.len() != "delayBetweenCores"@.len()); }
    assert(ps[5].0 != ps[13].0) by { assert("skipCoreOnError"@.len() != "beepOnError"@.len()); }
    assert(ps[5].0 != ps[14].0) by { assert("skipCoreOnError"@.len() != "flashOnError"@.len()); }
    assert(ps[5].0 != ps[15].0) by { assert("skipCoreOnError"@.len() != "lookForWheaErrors"@.len()); }
    assert(ps[5].0 != ps[16].0) by { assert("skipCoreOnError"@.len() != "treatWheaWarningAsError"@.len()); }
    assert(ps[6].0 != ps[7].0) by { assert("stopOnError"@.len() != "numberOfThreads"@.len()); }
    assert(ps[6].0 != ps[8].0) by { assert("stopOnError"@.len() != "assignBothVirtualCoresForSingleThread"@.len()); }
    assert(ps[6].0 != ps[9].0) by { assert("stopOnError"@.len() != "maxIterations"@.len()); }
    assert(ps[6].0 != ps[10].0) by { assert("stopOnError"@.len() != "coresToIgnore"@.len()); }
    assert(ps[6].0 != ps[11].0) by { assert("stopOnError"@.len() != "restartTestProgramForEachCore"@.len()); }
    assert(ps[6].0 != ps[12].0) by { assert("stopOnError"@.len() != "delayBetweenCores"@.len()); }
    assert(ps[6].0 != ps[13].0) by { assert("stopOnError"@[0] != "beepOnError"@[0]); }
    assert(ps[6].0 != ps[14].0) by { assert("stopOnError"@.len() != "flashOnError"@.len()); }
    assert(ps[6].0 != ps[15].0) by { assert("stopOnError"@.len() != "lookForWheaErrors"@.len()); }
    assert(ps[6].0 != ps[16].0) by { assert("stopOnError"@.len() != "treatWheaWarningAsError"@.len()); }
    assert(ps[7].0 != ps[8].0) by { assert("numberOfThreads"@.len() != "assignBothVirtualCoresForSingleThread"@.len()); }
    assert(ps[7].0 != ps[9].0) by { assert("numberOfThreads"@.len() != "maxIterations"@.len()); }
    assert(ps[7].0 != ps[10].0) by { assert("numberOfThreads"@.len() != "coresToIgnore"@.len()); }
    assert(ps[7].0 != ps[11].0) by { assert("numberOfThreads"@.len() != "restartTestProgramForEachCore"@.len()); }
    assert(ps[7].0 != ps[12].0) by { assert("numberOfThreads"@.len() != "delayBetweenCores"@.len()); }
    assert(ps[7].0 != ps[13].0) by { assert("numberOfThreads"@.len() != "beepOnError"@.len()); }
    assert(ps[7].0 != ps[14].0) by { assert("numberOfThreads"@.len() != "flashOnError"@.len()); }
    assert(ps[7].0 != ps[15].0) by { assert("numberOfThreads"@.len() != "lookForWheaErrors"@.len()); }
    assert(ps[7].0 != ps[16].0) by { assert("numberOfThreads"@.len() != "treatWheaWarningAsError"@.len()); }
    assert(ps[8].0 != ps[9].0) by { assert("assignBothVirtualCoresForSingleThread"@.len() != "maxIterations"@.len()); }
    assert(ps[8].0 != ps[10].0) by { assert("assignBothVirtualCoresForSingleThread"@.len() != "coresToIgnore"@.len()); }
    assert(ps[8].0 != ps[11].0) by { assert("assignBothVirtualCoresForSingleThread"@.len() != "restartTestProgramForEachCore"@.len()); }
    assert(ps[8].0 != ps[12].0) by { assert("assignBothVirtualCoresForSingleThread"@.len() != "delayBetweenCores"@.len()); }
    assert(ps[8].0 != ps[13].0) by { assert("assignBothVirtualCoresForSingleThread"@.len() != "beepOnError"@.len()); }
    assert(ps[8].0 != ps[14].0) by { assert("assignBothVirtualCoresForSingleThread"@.len() != "flashOnError"@.len()); }
    assert(ps[8].0 != ps[15].0) by { assert("assignBothVirtualCoresForSingleThread"@.len() != "lookForWheaErrors"@.len()); }
    assert(ps[8].0 != ps[16].0) by { assert("assignBothVirtualCoresForSingleThread"@.len() != "treatWheaWarningAsError"@.len()); }
    assert(ps[9].0 != ps[10].0) by { assert("maxIterations"@[0] != "coresToIgnore"@[0]); }
    assert(ps[9].0 != ps[11].0) by { assert("maxIterations"@.len() != "restartTestProgramForEachCore"@.len()); }
    assert(ps[9].0 != ps[12].0) by { assert("maxIterations"@.len() != "delayBetweenCores"@.len()); }
    assert(ps[9].0 != ps[13].0) by { assert("maxIterations"@.len() != "beepOnError"@.len()); }
    assert(ps[9].0 != ps[14].0) by { assert("maxIterations"@.len() != "flashOnError"@.len()); }
    assert(ps[9].0 != ps[15].0) by { assert("maxIterations"@.len() != "lookForWheaErrors"@.len()); }
    assert(ps[9].0 != ps[16].0) by { assert("maxIterations"@.len() != "treatWheaWarningAsError"@.len()); }
    assert(ps[10].0 != ps[11].0) by { assert("coresToIgnore"@.len() != "restartTestProgramForEachCore"@.len()); }
    assert(ps[10].0 != ps[12].0) by { assert("coresToIgnore"@.len() != "delayBetweenCores"@.len()); }
    assert(ps[10].0 != ps[13].0) by { assert("coresToIgnore"@.len() != "beepOnError"@.len()); }
    assert(ps[10].0 != ps[14].0) by { assert("coresToIgnore"@.len() != "flashOnError"@.len()); }
    assert(ps[10].0 != ps[15].0) by { assert("coresToIgnore"@.len() != "lookForWheaErrors"@.len()); }
    assert(ps[10].0 != ps[16].0) by { assert("coresToIgnore"@.len() != "treatWheaWarningAsError"@.len()); }
    assert(ps[11].0 != ps[12].0) by { assert("restartTestProgramForEachCore"@.len() != "delayBetweenCores"@.len()); }
    assert(ps[11].0 != ps[13].0) by { assert("restartTestProgramForEachCore"@.len() != "beepOnError"@.len()); }
    assert(ps[11].0 != ps[14].0) by { assert("restartTestProgramForEachCore"@.len() != "flashOnError"@.len()); }
    assert(ps[11].0 != ps[15].0) by { assert("restartTestProgramForEachCore"@.len() != "lookForWheaErrors"@.len()); }
    assert(ps[11].0 != ps[16].0) by { assert("restartTestProgramForEachCore"@.len() != "treatWheaWarningAsError"@.len()); }
    assert(ps[12].0 != ps[13].0) by { assert("delayBetweenCores"@.len() != "beepOnError"@.len()); }
    assert(ps[12].0 != ps[14].0) by { assert("delayBetweenCores"@.len() != "flashOnError"@.len()); }
    assert(ps[12].0 != ps[15].0) by { assert("delayBetweenCores"@[0] != "lookForWheaErrors"@[0]); }
    assert(ps[12].0 != ps[16].0) by { assert("delayBetweenCores"@.len() != "treatWheaWarningAsError"@.len()); }
    assert(ps[13].0 != ps[14].0) by { assert("beepOnError"@.len() != "flashOnError"@.len()); }
    assert(ps[13].0 != ps[15].0) by { assert("beepOnError"@.len() != "lookForWheaErrors"@.len()); }
    assert(ps[13].0 != ps[16].0) by { assert("beepOnError"@.len() != "treatWheaWarningAsError"@.len()); }
    assert(ps[14].0 != ps[15].0) by { assert("flashOnError"@.len() != "lookForWheaErrors"@.len()); }
    assert(ps[14].0 != ps[16].0) by { assert("flashOnError"@.len() != "treatWheaWarningAsError"@.len()); }
    assert(ps[15].0 != ps[16].0) by { assert("lookForWheaErrors"@.len() != "treatWheaWarningAsError"@.len()); }
    assert forall|i: int, j: int| 0 <= i < j < ps.len() implies #[trigger] ps[i].0 != #[trigger] ps[j].0 by {
        if i == 0 {
            assert(j == 1 || j == 2 || j == 3 || j == 4 || j == 5 || j == 6 || j == 7 || j == 8 || j == 9 || j == 10 || j == 11 || j == 12 || j == 13 || j == 14 || j == 15 || j == 16);
        } else if i == 1 {
            assert(j == 2 || j == 3 || j == 4 || j == 5 || j == 6 || j == 7 || j == 8 || j == 9 || j == 10 || j == 11 || j == 12 || j == 13 || j == 14 || j == 15 || j == 16);
        } else if i == 2 {
            assert(j == 3 || j == 4 || j == 5 || j == 6 || j == 7 || j == 8 || j == 9 || j == 10 || j == 11 || j == 12 || j == 13 || j == 14 || j == 15 || j == 16);
        } else if i == 3 {
            assert(j == 4 || j == 5 || j == 6 || j == 7 || j == 8 || j == 9 || j == 10 || j == 11 || j == 12 || j == 13 || j == 14 || j == 15 || j == 16);
        } else if i == 4 {
            assert(j == 5 || j == 6 || j == 7 || j == 8 || j == 9 || j == 10 || j == 11 || j == 12 || j == 13 || j == 14 || j == 15 || j == 16);
        } else if i == 5 {
            assert(j == 6 || j == 7 || j == 8 || j == 9 || j == 10 || j == 11 || j == 12 || j == 13 || j == 14 || j == 15 || j == 16);
        } else if i == 6 {
            assert(j == 7 || j == 8 || j == 9 || j == 10 || j == 11 || j == 12 || j == 13 || j == 14 || j == 15 || j == 16);
        } else if i == 7 {
            assert(j == 8 || j == 9 || j == 10 || j == 11 || j == 12 || j == 13 || j == 14 || j == 15 || j == 16);
        } else if i == 8 {
            assert(j == 9 || j == 10 || j == 11 || j == 12 || j == 13 || j == 14 || j == 15 || j == 16);
        } else if i == 9 {
            assert(j == 10 || j == 11 || j == 12 || j == 13 || j == 14 || j == 15 || j == 16);
        } else if i == 10 {
            assert(j == 11 || j == 12 || j == 13 || j == 14 || j == 15 || j == 16);
        } else if i == 11 {
            assert(j == 12 || j == 13 || j == 14 || j == 15 || j == 16);
        } else if i == 12 {
            assert(j == 13 || j == 14 || j == 15 || j == 16);
        } else if i == 13 {
            assert(j == 14 || j == 15 || j == 16);
        } else if i == 14 {
            assert(j == 15 || j == 16);
        } else if i == 15 {
            assert(j == 16);
        }
    }
}

/// The keys of the `prime95` pairs: the same for every value, none twice.
proof fn lemma_prime95_keys(v: Prime95View, w: Prime95View)
    ensures
        same_keys(prime95_pairs(v), prime95_pairs(w)),
        distinct_keys(prime95_pairs(v)),
{
    reveal_strlit("FFTSize");
    reveal_strlit("mode");
    let ps = prime95_pairs(v);
    let ds = prime95_pairs(w);
    assert forall|i: int| 0 <= i < ps.len() implies #[trigger] ps[i].0 == ds[i].0 by {
        assert(i == 0 || i == 1);
    }
    assert(ps[0].0 != ps[1].0) by { assert("mode"@.len() != "FFTSize"@.len()); }
    assert forall|i: int, j: int| 0 <= i < j < ps.len() implies #[trigger] ps[i].0 != #[trigger] ps[j].0 by {
        if i == 0 {
            assert(j == 1);
        }
    }
}

/// The keys of the `ycruncher` pairs: the same for every value, none twice.
proof fn lemma_ycruncher_keys(v: YCruncherView, w: YCruncherView)
    ensures
        same_keys(ycruncher_pairs(v), ycruncher_pairs(w)),
        distinct_keys(ycruncher_pairs(v)),
{
    reveal_strlit("enableYCruncherLoggingWrapper");
    reveal_strlit("memory");
    reveal_strlit("mode");
    reveal_strlit("testDuration");
    reveal_strlit("tests");
    let ps = ycruncher_pairs(v);
    let ds = ycruncher_pairs(w);
    assert forall|i: int| 0 <= i < ps.len() implies #[trigger] ps[i].0 == ds[i].0 by {
        assert(i == 0 || i == 1 || i == 2 || i == 3 || i == 4);
    }
    assert(ps[0].0 != ps[1].0) by { assert("mode"@.len() != "tests"@.len()); }
    assert(ps[0].0 != ps[2].0) by { assert("mode"@.len() != "testDuration"@.len()); }
    assert(ps[0].0 != ps[3].0) by { assert("mode"@.len() != "memory"@.len()); }
    assert(ps[0].0 != ps[4].0) by { assert("mode"@.len() != "enableYCruncherLoggingWrapper"@.len()); }
    assert(ps[1].0 != ps[2].0) by { assert("tests"@.len() != "testDuration"@.len()); }
    assert(ps[1].0 != ps[3].0) by { assert("tests"@.len() != "memory"@.len()); }
    assert(ps[1].0 != ps[4].0) by { assert("tests"@.len() != "enableYCruncherLoggingWrapper"@.len()); }
    assert(ps[2].0 != ps[3].0) by { assert("testDuration"@.len() != "memory"@.len()); }
    assert(ps[2].0 != ps[4].0) by { assert("testDuration"@.len() != "enableYCruncherLoggingWrapper"@.len()); }
    assert(ps[3].0 != ps[4].0) by { assert("memory"@.len() != "enableYCruncherLoggingWrapper"@.len()); }
    assert forall|i: int, j: int| 0 <= i < j < ps.len() implies #[trigger] ps[i].0 != #[trigger] ps[j].0 by {
        if i == 0 {
            assert(j == 1 || j == 2 || j == 3 || j == 4);
        } else if i == 1 {
            assert(j == 2 || j == 3 || j == 4);
        } else if i == 2 {
            assert(j == 3 || j == 4);
        } else if i == 3 {
            assert(j == 4);
        }
    }
}

/// The keys of the `aida64` pairs: the same for every value, none twice.
proof fn lemma_aida64_keys(v: Aida64View, w: Aida64View)
    ensures
        same_keys(aida64_pairs(v), aida64_pairs(w)),
        distinct_keys(aida64_pairs(v)),
{
    reveal_strlit("maxMemory");
    reveal_strlit("mode");
    reveal_strlit("useAVX");
    let ps = aida64_pairs(v);
    let ds = aida64_pairs(w);
    assert forall|i: int| 0 <= i < ps.len() implies #[trigger] ps[i].0 == ds[i].0 by {
        assert(i == 0 || i == 1 || i == 2);
    }
    assert(ps[0].0 != ps[1].0) by { assert("mode"@.len() != "useAVX"@.len()); }
    assert(ps[0].0 != ps[2].0) by { assert("mode"@.len() != "maxMemory"@.len()); }
    assert(ps[1].0 != ps[2].0) by { assert("useAVX"@.len() != "maxMemory"@.len()); }
    assert forall|i: int, j: int| 0 <= i < j < ps.len() implies #[trigger] ps[i].0 != #[trigger] ps[j].0 by {
        if i == 0 {
            assert(j == 1 || j == 2);
        } else if i == 1 {
            assert(j == 2);
        }
    }
}

/// The keys of the `linpack` pairs: the same for every value, none twice.
proof fn lemma_linpack_keys(v: LinpackView, w: LinpackView)
    ensures
        same_keys(linpack_pairs(v), linpack_pairs(w)),
        distinct_keys(linpack_pairs(v)),
{
    reveal_strlit("memory");
    reveal_strlit("mode");
    reveal_strlit("version");
    let ps = linpack_pairs(v);
    let ds = linpack_pairs(w);
    assert forall|i: int| 0 <= i < ps.len() implies #[trigger] ps[i].0 == ds[i].0 by {
        assert(i == 0 || i == 1 || i == 2);
    }
    assert(ps[0].0 != ps[1].0) by { assert("version"@.len() != "mode"@.len()); }
    assert(ps[0].0 != ps[2].0) by { assert("version"@.len() != "memory"@.len()); }
    assert(ps[1].0 != ps[2].0) by { assert("mode"@.len() != "memory"@.len()); }
    assert forall|i: int, j: int| 0 <= i < j < ps.len() implies #[trigger] ps[i].0 != #[trigger] ps[j].0 by {
        if i == 0 {
            assert(j == 1 || j == 2);
        } else if i == 1 {
            assert(j == 2);
        }
    }
}

/// The keys of the `automatic_test_mode` pairs: the same for every value, none twice.
proof fn lemma_automatic_test_mode_keys(v: AutomaticTestModeView, w: AutomaticTestModeView)
    ensures
        same_keys(automatic_test_mode_pairs(v), automatic_test_mode_pairs(w)),
        distinct_keys(automatic_test_mode_pairs(v)),
{
    reveal_strlit("askForSystemRestorePointCreation");
    reveal_strlit("createSystemRestorePoint");
    reveal_strlit("enableAutomaticAdjustment");
    reveal_strlit("enableResumeAfterUnexpectedExit");
    reveal_strlit("incrementBy");
    reveal_strlit("maxValue");
    reveal_strlit("repeatCoreOnError");
    reveal_strlit("setVoltageOnlyForTestedCore");
    reveal_strlit("startValues");
    reveal_strlit("waitBeforeAutomaticResume");
    let ps = automatic_test_mode_pairs(v);
    let ds = automatic_test_mode_pairs(w);
    assert forall|i: int| 0 <= i < ps.len() implies #[trigger] ps[i].0 == ds[i].0 by {
        assert(i == 0 || i == 1 || i == 2 || i == 3 || i == 4 || i == 5 || i == 6 || i == 7 || i == 8 || i == 9);
    }
    assert(ps[0].0 != ps[1].0) by { assert("enableAutomaticAdjustment"@.len() != "startValues"@.len()); }
    assert(ps[0].0 != ps[2].0) by { assert("enableAutomaticAdjustment"@.len() != "maxValue"@.len()); }
    assert(ps[0].0 != ps[3].0) by { assert("enableAutomaticAdjustment"@.len() != "incrementBy"@.len()); }
    assert(ps[0].0 != ps[4].0) by { assert("enableAutomaticAdjustment"@.len() != "setVoltageOnlyForTestedCore"@.len()); }
    assert(ps[0].0 != ps[5].0) by { assert("enableAutomaticAdjustment"@.len() != "repeatCoreOnError"@.len()); }
    assert(ps[0].0 != ps[6].0) by { assert("enableAutomaticAdjustment"@.len() != "enableResumeAfterUnexpectedExit"@.len()); }
    assert(ps[0].0 != ps[7].0) by { assert("enableAutomaticAdjustment"@[0] != "waitBeforeAutomaticResume"@[0]); }
    assert(ps[0].0 != ps[8].0) by { assert("enableAutomaticAdjustment"@.len() != "createSystemRestorePoint"@.len()); }
    assert(ps[0].0 != ps[9].0) by { assert("enableAutomaticAdjustment"@.len() != "askForSystemRestorePointCreation"@.len()); }
    assert(ps[1].0 != ps[2].0) by { assert("startValues"@.len() != "maxValue"@.len()); }
    assert(ps[1].0 != ps[3].0) by { assert("startValues"@[0] != "incrementBy"@[0]); }
    assert(ps[1].0 != ps[4].0) by { assert("startValues"@.len() != "setVoltageOnlyForTestedCore"@.len()); }
    assert(ps[1].0 != ps[5].0) by { assert("startValues"@.len() != "repeatCoreOnError"@.len()); }
    assert(ps[1].0 != ps[6].0) by { assert("startValues"@.len() != "enableResumeAfterUnexpectedExit"@.len()); }
    assert(ps[1].0 != ps[7].0) by { assert("startValues"@.len() != "waitBeforeAutomaticResume"@.len()); }
    assert(ps[1].0 != ps[8].0) by { assert("startValues"@.len() != "createSystemRestorePoint"@.len()); }
    assert(ps[1].0 != ps[9].0) by { assert("startValues"@.len() != "askForSystemRestorePointCreation"@.len()); }
    assert(ps[2].0 != ps[3].0) by { assert("maxValue"@.len() != "incrementBy"@.len()); }
    assert(ps[2].0 != ps[4].0) by { assert("maxValue"@.len() != "setVoltageOnlyForTestedCore"@.len()); }
    assert(ps[2].0 != ps[5].0) by { assert("maxValue"@.len() != "repeatCoreOnError"@.len()); }
    assert(ps[2].0 != ps[6].0) by { assert("maxValue"@.len() != "enableResumeAfterUnexpectedExit"@.len()); }
    assert(ps[2].0 != ps[7].0) by { assert("maxValue"@.len() != "waitBeforeAutomaticResume"@.len()); }
    assert(ps[2].0 != ps[8].0) by { assert("maxValue"@.len() != "createSystemRestorePoint"@.len()); }
    assert(ps[2].0 != ps[9].0) by { assert("maxValue"@.len() != "askForSystemRestorePointCreation"@.len()); }
    assert(ps[3].0 != ps[4].0) by { assert("incrementBy"@.len() != "setVoltageOnlyForTestedCore"@.len()); }
    assert(ps[3].0 != ps[5].0) by { assert("incrementBy"@.len() != "repeatCoreOnError"@.len()); }
    assert(ps[3].0 != ps[6].0) by { assert("incrementBy"@.len() != "enableResumeAfterUnexpectedExit"@.len()); }
    assert(ps[3].0 != ps[7].0) by { assert("incrementBy"@.len() != "waitBeforeAutomaticResume"@.len()); }
    assert(ps[3].0 != ps[8].0) by { assert("incrementBy"@.len() != "createSystemRestorePoint"@.len()); }
    assert(ps[3].0 != ps[9].0) by { assert("incrementBy"@.len() != "askForSystemRestorePointCreation"@.len()); }
    assert(ps[4].0 != ps[5].0) by { assert("setVoltageOnlyForTestedCore"@.len() != "repeatCoreOnError"@.len()); }
    assert(ps[4].0 != ps[6].0) by { assert("setVoltageOnlyForTestedCore"@.len() != "enableResumeAfterUnexpectedExit"@.len()); }
    assert(ps[4].0 != ps[7].0) by { assert("setVoltageOnlyForTestedCore"@.len() != "waitBeforeAutomaticResume"@.len()); }
    assert(ps[4].0 != ps[8].0) by { assert("setVoltageOnlyForTestedCore"@.len() != "createSystemRestorePoint"@.len()); }
    assert(ps[4].0 != ps[9].0) by { assert("setVoltageOnlyForTestedCore"@.len() != "askForSystemRestorePointCreation"@.len()); }
    assert(ps[5].0 != ps[6].0) by { assert("repeatCoreOnError"@.len() != "enableResumeAfterUnexpectedExit"@.len()); }
    assert(ps[5].0 != ps[7].0) by { assert("repeatCoreOnError"@.len() != "waitBeforeAutomaticResume"@.len()); }
    assert(ps[5].0 != ps[8].0) by { assert("repeatCoreOnError"@.len() != "createSystemRestorePoint"@.len()); }
    assert(ps[5].0 != ps[9].0) by { assert("repeatCoreOnError"@.len() != "askForSystemRestorePointCreation"@.len()); }
    assert(ps[6].0 != ps[7].0) by { assert("enableResumeAfterUnexpectedExit"@.len() != "waitBeforeAutomaticResume"@.len()); }
    assert(ps[6].0 != ps[8].0) by { assert("enableResumeAfterUnexpectedExit"@.len() != "createSystemRestorePoint"@.len()); }
    assert(ps[6].0 != ps[9].0) by { assert("enableResumeAfterUnexpectedExit"@.len() != "askForSystemRestorePointCreation"@.len()); }
    assert(ps[7].0 != ps[8].0) by { assert("waitBeforeAutomaticResume"@.len() != "createSystemRestorePoint"@.len()); }
    assert(ps[7].0 != ps[9].0) by { assert("waitBeforeAutomaticResume"@.len() != "askForSystemRestorePointCreation"@.len()); }
    assert(ps[8].0 != ps[9].0) by { assert("createSystemRestorePoint"@.len() != "askForSystemRestorePointCreation"@.len()); }
    assert forall|i: int, j: int| 0 <= i < j < ps.len() implies #[trigger] ps[i].0 != #[trigger] ps[j].0 by {
        if i == 0 {
            assert(j == 1 || j == 2 || j == 3 || j == 4 || j == 5 || j == 6 || j == 7 || j == 8 || j == 9);
        } else if i == 1 {
            assert(j == 2 || j == 3 || j == 4 || j == 5 || j == 6 || j == 7 || j == 8 || j == 9);
        } else if i == 2 {
            assert(j == 3 || j == 4 || j == 5 || j == 6 || j == 7 || j == 8 || j == 9);
        } else if i == 3 {
            assert(j == 4 || j == 5 || j == 6 || j == 7 || j == 8 || j == 9);
        } else if i == 4 {
            assert(j == 5 || j == 6 || j == 7 || j == 8 || j == 9);
        } else if i == 5 {
            assert(j == 6 || j == 7 || j == 8 || j == 9);
        } else if i == 6 {
            assert(j == 7 || j == 8 || j == 9);
        } else if i == 7 {
            assert(j == 8 || j == 9);
        } else if i == 8 {
            assert(j == 9);
        }
    }
}

/// The keys of the `logging` pairs: the same for every value, none twice.
proof fn lemma_logging_keys(v: LoggingView, w: LoggingView)
    ensures
        same_keys(logging_pairs(v), logging_pairs(w)),
        distinct_keys(logging_pairs(v)),
{
    reveal_strlit("flushDiskWriteCache");
    reveal_strlit("logLevel");
    reveal_strlit("name");
    reveal_strlit("useWindowsEventLog");
    let ps = logging_pairs(v);
    let ds = logging_pairs(w);
    assert forall|i: int| 0 <= i < ps.len() implies #[trigger] ps[i].0 == ds[i].0 by {
        assert(i == 0 || i == 1 || i == 2 || i == 3);
    }
    assert(ps[0].0 != ps[1].0) by { assert("name"@.len() != "logLevel"@.len()); }
    assert(ps[0].0 != ps[2].0) by { assert("name"@.len() != "useWindowsEventLog"@.len()); }
    assert(ps[0].0 != ps[3].0) by { assert("name"@.len() != "flushDiskWriteCache"@.len()); }
    assert(ps[1].0 != ps[2].0) by { assert("logLevel"@.len() != "useWindowsEventLog"@.len()); }
    assert(ps[1].0 != ps[3].0) by { assert("logLevel"@.len() != "flushDiskWriteCache"@.len()); }
    assert(ps[2].0 != ps[3].0) by { assert("useWindowsEventLog"@.len() != "flushDiskWriteCache"@.len()); }
    assert forall|i: int, j: int| 0 <= i < j < ps.len() implies #[trigger] ps[i].0 != #[trigger] ps[j].0 by {
        if i == 0 {
            assert(j == 1 || j == 2 || j == 3);
        } else if i == 1 {
            assert(j == 2 || j == 3);
        } else if i == 2 {
            assert(j == 3);
        }
    }
}

/// The keys of the `update` pairs: the same for every value, none twice.
proof fn lemma_update_keys(v: UpdateView, w: UpdateView)
    ensures
        same_keys(update_pairs(v), update_pairs(w)),
        distinct_keys(update_pairs(v)),
{
    reveal_strlit("enableUpdateCheck");
    reveal_strlit("updateCheckFrequency");
    let ps = update_pairs(v);
    let ds = update_pairs(w);
    assert forall|i: int| 0 <= i < ps.len() implies #[trigger] ps[i].0 == ds[i].0 by {
        assert(i == 0 || i == 1);
    }
    assert(ps[0].0 != ps[1].0) by { assert("enableUpdateCheck"@.len() != "updateCheckFrequency"@.len()); }
    assert forall|i: int, j: int| 0 <= i < j < ps.len() implies #[trigger] ps[i].0 != #[trigger] ps[j].0 by {
        if i == 0 {
            assert(j == 1);
        }
    }
}

/// The keys of the `prime95_custom` pairs: the same for every value, none twice.
proof fn lemma_prime95_custom_keys(v: Prime95CustomView, w: Prime95CustomView)
    ensures
        same_keys(prime95_custom_pairs(v), prime95_custom_pairs(w)),
        distinct_keys(prime95_custom_pairs(v)),
{
    reveal_strlit("CpuSupportsAVX");
    reveal_strlit("CpuSupportsAVX2");
    reveal_strlit("CpuSupportsAVX512");
    reveal_strlit("CpuSupportsFMA3");
    reveal_strlit("MaxTortureFFT");
    reveal_strlit("MinTortureFFT");
    reveal_strlit("TortureMem");
    reveal_strlit("TortureTime");
    let ps = prime95_custom_pairs(v);
    let ds = prime95_custom_pairs(w);
    assert forall|i: int| 0 <= i < ps.len() implies #[trigger] ps[i].0 == ds[i].0 by {
        assert(i == 0 || i == 1 || i == 2 || i == 3 || i == 4 || i == 5 || i == 6 || i == 7);
    }
    assert(ps[0].0 != ps[1].0) by { assert("CpuSupportsAVX"@.len() != "CpuSupportsAVX2"@.len()); }
    assert(ps[0].0 != ps[2].0) by { assert("CpuSupportsAVX"@.len() != "CpuSupportsFMA3"@.len()); }
    assert(ps[0].0 != ps[3].0) by { assert("CpuSupportsAVX"@.len() != "CpuSupportsAVX512"@.len()); }
    assert(ps[0].0 != ps[4].0) by { assert("CpuSupportsAVX"@.len() != "MinTortureFFT"@.len()); }
    assert(ps[0].0 != ps[5].0) by { assert("CpuSupportsAVX"@.len() != "MaxTortureFFT"@.len()); }
    assert(ps[0].0 != ps[6].0) by { assert("CpuSupportsAVX"@.len() != "TortureMem"@.len()); }
    assert(ps[0].0 != ps[7].0) by { assert("CpuSupportsAVX"@.len() != "TortureTime"@.len()); }
    assert(ps[1].0 != ps[2].0) by { assert("CpuSupportsAVX2"@[11] != "CpuSupportsFMA3"@[11]); }
    assert(ps[1].0 != ps[3].0) by { assert("CpuSupportsAVX2"@.len() != "CpuSupportsAVX512"@.len()); }
    assert(ps[1].0 != ps[4].0) by { assert("CpuSupportsAVX2"@.len() != "MinTortureFFT"@.len()); }
    assert(ps[1].0 != ps[5].0) by { assert("CpuSupportsAVX2"@.len() != "MaxTortureFFT"@.len()); }
    assert(ps[1].0 != ps[6].0) by { assert("CpuSupportsAVX2"@.len() != "TortureMem"@.len()); }
    assert(ps[1].0 != ps[7].0) by { assert("CpuSupportsAVX2"@.len() != "TortureTime"@.len()); }
    assert(ps[2].0 != ps[3].0) by { assert("CpuSupportsFMA3"@.len() != "CpuSupportsAVX512"@.len()); }
    assert(ps[2].0 != ps[4].0) by { assert("CpuSupportsFMA3"@.len() != "MinTortureFFT"@.len()); }
    assert(ps[2].0 != ps[5].0) by { assert("CpuSupportsFMA3"@.len() != "MaxTortureFFT"@.len()); }
    assert(ps[2].0 != ps[6].0) by { assert("CpuSupportsFMA3"@.len() != "TortureMem"@.len()); }
    assert(ps[2].0 != ps[7].0) by { assert("CpuSupportsFMA3"@.len() != "TortureTime"@.len()); }
    assert(ps[3].0 != ps[4].0) by { assert("CpuSupportsAVX512"@.len() != "MinTortureFFT"@.len()); }
    assert(ps[3].0 != ps[5].0) by { assert("CpuSupportsAVX512"@.len() != "MaxTortureFFT"@.len()); }
    assert(ps[3].0 != ps[6].0) by { assert("CpuSupportsAVX512"@.len() != "TortureMem"@.len()); }
    assert(ps[3].0 != ps[7].0) by { assert("CpuSupportsAVX512"@.len() != "TortureTime"@.len()); }
    assert(ps[4].0 != ps[5].0) by { assert("MinTortureFFT"@[1] != "MaxTortureFFT"@[1]); }
    assert(ps[4].0 != ps[6].0) by { assert("MinTortureFFT"@.len() != "TortureMem"@.len()); }
    assert(ps[4].0 != ps[7].0) by { assert("MinTortureFFT"@.len() != "TortureTime"@.len()); }
    assert(ps[5].0 != ps[6].0) by { assert("MaxTortureFFT"@.len() != "TortureMem"@.len()); }
    assert(ps[5].0 != ps[7].0) by { assert("MaxTortureFFT"@.len() != "TortureTime"@.len()); }
    assert(ps[6].0 != ps[7].0) by { assert("TortureMem"@.len() != "TortureTime"@.len()); }
    assert forall|i: int, j: int| 0 <= i < j < ps.len() implies #[trigger] ps[i].0 != #[trigger] ps[j].0 by {
        if i == 0 {
            assert(j == 1 || j == 2 || j == 3 || j == 4 || j == 5 || j == 6 || j == 7);
        } else if i == 1 {
            assert(j == 2 || j == 3 || j == 4 || j == 5 || j == 6 || j == 7);
        } else if i == 2 {
            assert(j == 3 || j == 4 || j == 5 || j == 6 || j == 7);
        } else if i == 3 {
            assert(j == 4 || j == 5 || j == 6 || j == 7);
        } else if i == 4 {
            assert(j == 5 || j == 6 || j == 7);
        } else if i == 5 {
            assert(j == 6 || j == 7);
        } else if i == 6 {
            assert(j == 7);
        }
    }
}

/// The keys of the `debug` pairs: the same for every value, none twice.
proof fn lemma_debug_keys(v: DebugView, w: DebugView)
    ensures
        same_keys(debug_pairs(v), debug_pairs(w)),
        distinct_keys(debug_pairs(v)),
{
    reveal_strlit("delayFirstErrorCheck");
    reveal_strlit("disableCpuUtilizationCheck");
    reveal_strlit("enableCpuFrequencyCheck");
    reveal_strlit("modeToUseForSuspension");
    reveal_strlit("stressTestProgramPriority");
    reveal_strlit("stressTestProgramWindowToForeground");
    reveal_strlit("suspensionTime");
    reveal_strlit("tickInterval");
    reveal_strlit("useWindowsPerformanceCountersForCpuUtilization");
    let ps = debug_pairs(v);
    let ds = debug_pairs(w);
    assert forall|i: int| 0 <= i < ps.len() implies #[trigger] ps[i].0 == ds[i].0 by {
        assert(i == 0 || i == 1 || i == 2 || i == 3 || i == 4 || i == 5 || i == 6 || i == 7 || i == 8);
    }
    assert(ps[0].0 != ps[1].0) by { assert("disableCpuUtilizationCheck"@.len() != "useWindowsPerformanceCountersForCpuUtilization"@.len()); }
    assert(ps[0].0 != ps[2].0) by { assert("disableCpuUtilizationCheck"@.len() != "enableCpuFrequencyCheck"@.len()); }
    assert(ps[0].0 != ps[3].0) by { assert("disableCpuUtilizationCheck"@.len() != "tickInterval"@.len()); }
    assert(ps[0].0 != ps[4].0) by { assert("disableCpuUtilizationCheck"@.len() != "delayFirstErrorCheck"@.len()); }
    assert(ps[0].0 != ps[5].0) by { assert("disableCpuUtilizationCheck"@.len() != "stressTestProgramPriority"@.len()); }
    assert(ps[0].0 != ps[6].0) by { assert("disableCpuUtilizationCheck"@.len() != "stressTestProgramWindowToForeground"@.len()); }
    assert(ps[0].0 != ps[7].0) by { assert("disableCpuUtilizationCheck"@.len() != "suspensionTime"@.len()); }
    assert(ps[0].0 != ps[8].0) by { assert("disableCpuUtilizationCheck"@.len() != "modeToUseForSuspension"@.len()); }
    assert(ps[1].0 != ps[2].0) by { assert("useWindowsPerformanceCountersForCpuUtilization"@.len() != "enableCpuFrequencyCheck"@.len()); }
    assert(ps[1].0 != ps[3].0) by { assert("useWindowsPerformanceCountersForCpuUtilization"@.len() != "tickInterval"@.len()); }
    assert(ps[1].0 != ps[4].0) by { assert("useWindowsPerformanceCountersForCpuUtilization"@.len() != "delayFirstErrorCheck"@.len()); }
    assert(ps[1].0 != ps[5].0) by { assert("useWindowsPerformanceCountersForCpuUtilization"@.len() != "stressTestProgramPriority"@.len()); }
    assert(ps[1].0 != ps[6].0) by { assert("useWindowsPerformanceCountersForCpuUtilization"@.len() != "stressTestProgramWindowToForeground"@.len()); }
    assert(ps[1].0 != ps[7].0) by { assert("useWindowsPerformanceCountersForCpuUtilization"@.len() != "suspensionTime"@.len()); }
    assert(ps[1].0 != ps[8].0) by { assert("useWindowsPerformanceCountersForCpuUtilization"@.len() != "modeToUseForSuspension"@.len()); }
    assert(ps[2].0 != ps[3].0) by { assert("enableCpuFrequencyCheck"@.len() != "tickInterval"@.len()); }
    assert(ps[2].0 != ps[4].0) by { assert("enableCpuFrequencyCheck"@.len() != "delayFirstErrorCheck"@.len()); }
    assert(ps[2].0 != ps[5].0) by { assert("enableCpuFrequencyCheck"@.len() != "stressTestProgramPriority"@.len()); }
    assert(ps[2].0 != ps[6].0) by { assert("enableCpuFrequencyCheck"@.len() != "stressTestProgramWindowToForeground"@.len()); }
    assert(ps[2].0 != ps[7].0) by { assert("enableCpuFrequencyCheck"@.len() != "suspensionTime"@.len()); }
    assert(ps[2].0 != ps[8].0) by { assert("enableCpuFrequencyCheck"@.len() != "modeToUseForSuspension"@.len()); }
    assert(ps[3].0 != ps[4].0) by { assert("tickInterval"@.len() != "delayFirstErrorCheck"@.len()); }
    assert(ps[3].0 != ps[5].0) by { assert("tickInterval"@.len() != "stressTestProgramPriority"@.len()); }
    assert(ps[3].0 != ps[6].0) by { assert("tickInterval"@.len() != "stressTestProgramWindowToForeground"@.len()); }
    assert(ps[3].0 != ps[7].0) by { assert("tickInterval"@.len() != "suspensionTime"@.len()); }
    assert(ps[3].0 != ps[8].0) by { assert("tickInterval"@.len() != "modeToUseForSuspension"@.len()); }
    assert(ps[4].0 != ps[5].0) by { assert("delayFirstErrorCheck"@.len() != "stressTestProgramPriority"@.len()); }
    assert(ps[4].0 != ps[6].0) by { assert("delayFirstErrorCheck"@.len() != "stressTestProgramWindowToForeground"@.len()); }
    assert(ps[4].0 != ps[7].0) by { assert("delayFirstErrorCheck"@.len() != "suspensionTime"@.len()); }
    assert(ps[4].0 != ps[8].0) by { assert("delayFirstErrorCheck"@.len() != "modeToUseForSuspension"@.len()); }
    assert(ps[5].0 != ps[6].0) by { assert("stressTestProgramPriority"@.len() != "stressTestProgramWindowToForeground"@.len()); }
    assert(ps[5].0 != ps[7].0) by { assert("stressTestProgramPriority"@.len() != "suspensionTime"@.len()); }
    assert(ps[5].0 != ps[8].0) by { assert("stressTestProgramPriority"@.len() != "modeToUseForSuspension"@.len()); }
    assert(ps[6].0 != ps[7].0) by { assert("stressTestProgramWindowToForeground"@.len() != "suspensionTime"@.len()); }
    assert(ps[6].0 != ps[8].0) by { assert("stressTestProgramWindowToForeground"@.len() != "modeToUseForSuspension"@.len()); }
    assert(ps[7].0 != ps[8].0) by { assert("suspensionTime"@.len() != "modeToUseForSuspension"@.len()); }
    assert forall|i: int, j: int| 0 <= i < j < ps.len() implies #[trigger] ps[i].0 != #[trigger] ps[j].0 by {
        if i == 0 {
            assert(j == 1 || j == 2 || j == 3 || j == 4 || j == 5 || j == 6 || j == 7 || j == 8);
        } else if i == 1 {
            assert(j == 2 || j == 3 || j == 4 || j == 5 || j == 6 || j == 7 || j == 8);
        } else if i == 2 {
            assert(j == 3 || j == 4 || j == 5 || j == 6 || j == 7 || j == 8);
        } else if i == 3 {
            assert(j == 4 || j == 5 || j == 6 || j == 7 || j == 8);
        } else if i == 4 {
            assert(j == 5 || j == 6 || j == 7 || j == 8);
        } else if i == 5 {
            assert(j == 6 || j == 7 || j == 8);
        } else if i == 6 {
            assert(j == 7 || j == 8);
        } else if i == 7 {
            assert(j == 8);
        }
    }
}

/// A configuration is written in the layout of the defaults: the same
/// sections with the same keys, no key twice in a section, no section twice.
proof fn lemma_config_layout(c: ConfigView)
    ensures
        same_layout(config_blocks(c), config_blocks(default_config())),
{
    reveal_strlit("General");
    reveal_strlit("Prime95");
    reveal_strlit("yCruncher");
    reveal_strlit("Aida64");
    reveal_strlit("Linpack");
    reveal_strlit("AutomaticTestMode");
    reveal_strlit("Logging");
    reveal_strlit("Update");
    reveal_strlit("Prime95Custom");
    reveal_strlit("Debug");
    let bs = config_blocks(c);
    let ds = config_blocks(default_config());
    let d = default_config();
    lemma_general_keys(c.general, d.general);
    lemma_prime95_keys(c.prime95, d.prime95);
    lemma_ycruncher_keys(c.ycruncher, d.ycruncher);
    lemma_aida64_keys(c.aida64, d.aida64);
    lemma_linpack_keys(c.linpack, d.linpack);
    lemma_automatic_test_mode_keys(c.automatic_test_mode, d.automatic_test_mode);
    lemma_logging_keys(c.logging, d.logging);
    lemma_update_keys(c.update, d.update);
    lemma_prime95_custom_keys(c.prime95_custom, d.prime95_custom);
    lemma_debug_keys(c.debug, d.debug);
    assert(bs[0].0 == ds[0].0 && same_keys(bs[0].1, ds[0].1) && distinct_keys(bs[0].1));
    assert(bs[1].0 == ds[1].0 && same_keys(bs[1].1, ds[1].1) && distinct_keys(bs[1].1));
    assert(bs[2].0 == ds[2].0 && same_keys(bs[2].1, ds[2].1) && distinct_keys(bs[2].1));
    assert(bs[3].0 == ds[3].0 && same_keys(bs[3].1, ds[3].1) && distinct_keys(bs[3].1));
    assert(bs[4].0 == ds[4].0 && same_keys(bs[4].1, ds[4].1) && distinct_keys(bs[4].1));
    assert(bs[5].0 == ds[5].0 && same_keys(bs[5].1, ds[5].1) && distinct_keys(bs[5].1));
    assert(bs[6].0 == ds[6].0 && same_keys(bs[6].1, ds[6].1) && distinct_keys(bs[6].1));
    assert(bs[7].0 == ds[7].0 && same_keys(bs[7].1, ds[7].1) && distinct_keys(bs[7].1));
    assert(bs[8].0 == ds[8].0 && same_keys(bs[8].1, ds[8].1) && distinct_keys(bs[8].1));
    assert(bs[9].0 == ds[9].0 && same_keys(bs[9].1, ds[9].1) && distinct_keys(bs[9].1));
    assert forall|i: int| 0 <= i < bs.len() implies #[trigger] bs[i].0 == ds[i].0 && same_keys(bs[i].1, ds[i].1) && distinct_keys(bs[i].1) by {
        assert(i == 0 || i == 1 || i == 2 || i == 3 || i == 4 || i == 5 || i == 6 || i == 7 || i == 8 || i == 9);
    }
    assert(bs[0].0 != bs[1].0) by { assert("General"@[0] != "Prime95"@[0]); }
    assert(bs[0].0 != bs[2].0) by { assert("General"@.len() != "yCruncher"@.len()); }
    assert(bs[0].0 != bs[3].0) by { assert("General"@.len() != "Aida64"@.len()); }
    assert(bs[0].0 != bs[4].0) by { assert("General"@[0] != "Linpack"@[0]); }
    assert(bs[0].0 != bs[5].0) by { assert("General"@.len() != "AutomaticTestMode"@.len()); }
    assert(bs[0].0 != bs[6].0) by { assert("General"@[0] != "Logging"@[0]); }
    assert(bs[0].0 != bs[7].0) by { assert("General"@.len() != "Update"@.len()); }
    assert(bs[0].0 != bs[8].0) by { assert("General"@.len() != "Prime95Custom"@.len()); }
    assert(bs[0].0 != bs[9].0) by { assert("General"@.len() != "Debug"@.len()); }
    assert(bs[1].0 != bs[2].0) by { assert("Prime95"@.len() != "yCruncher"@.len()); }
    assert(bs[1].0 != bs[3].0) by { assert("Prime95"@.len() != "Aida64"@.len()); }
    assert(bs[1].0 != bs[4].0) by { assert("Prime95"@[0] != "Linpack"@[0]); }
    assert(bs[1].0 != bs[5].0) by { assert("Prime95"@.len() != "AutomaticTestMode"@.len()); }
    assert(bs[1].0 != bs[6].0) by { assert("Prime95"@[0] != "Logging"@[0]); }
    assert(bs[1].0 != bs[7].0) by { assert("Prime95"@.len() != "Update"@.len()); }
    assert(bs[1].0 != bs[8].0) by { assert("Prime95"@.len() != "Prime95Custom"@.len()); }
    assert(bs[1].0 != bs[9].0) by { assert("Prime95"@.len() != "Debug"@.len()); }
    assert(bs[2].0 != bs[3].0) by { assert("yCruncher"@.len() != "Aida64"@.len()); }
    assert(bs[2].0 != bs[4].0) by { assert("yCruncher"@.len() != "Linpack"@.len()); }
    assert(bs[2].0 != bs[5].0) by { assert("yCruncher"@.len() != "AutomaticTestMode"@.len()); }
    assert(bs[2].0 != bs[6].0) by { assert("yCruncher"@.len() != "Logging"@.len()); }
    assert(bs[2].0 != bs[7].0) by { assert("yCruncher"@.len() != "Update"@.len()); }
    assert(bs[2].0 != bs[8].0) by { assert("yCruncher"@.len() != "Prime95Custom"@.len()); }
    assert(bs[2].0 != bs[9].0) by { assert("yCruncher"@.len() != "Debug"@.len()); }
    assert(bs[3].0 != bs[4].0) by { assert("Aida64"@.len() != "Linpack"@.len()); }
    assert(bs[3].0 != bs[5].0) by { assert("Aida64"@.len() != "AutomaticTestMode"@.len()); }
    assert(bs[3].0 != bs[6].0) by { assert("Aida64"@.len() != "Logging"@.len()); }
    assert(bs[3].0 != bs[7].0) by { assert("Aida64"@[0] != "Update"@[0]); }
    assert(bs[3].0 != bs[8].0) by { assert("Aida64"@.len() != "Prime95Custom"@.len()); }
    assert(bs[3].0 != bs[9].0) by { assert("Aida64"@.len() != "Debug"@.len()); }
    assert(bs[4].0 != bs[5].0) by { assert("Linpack"@.len() != "AutomaticTestMode"@.len()); }
    assert(bs[4].0 != bs[6].0) by { assert("Linpack"@[1] != "Logging"@[1]); }
    assert(bs[4].0 != bs[7].0) by { assert("Linpack"@.len() != "Update"@.len()); }
    assert(bs[4].0 != bs[8].0) by { assert("Linpack"@.len() != "Prime95Custom"@.len()); }
    assert(bs[4].0 != bs[9].0) by { assert("Linpack"@.len() != "Debug"@.len()); }
    assert(bs[5].0 != bs[6].0) by { assert("AutomaticTestMode"@.len() != "Logging"@.len()); }
    assert(bs[5].0 != bs[7].0) by { assert("AutomaticTestMode"@.len() != "Update"@.len()); }
    assert(bs[5].0 != bs[8].0) by { assert("AutomaticTestMode"@.len() != "Prime95Custom"@.len()); }
    assert(bs[5].0 != bs[9].0) by { assert("AutomaticTestMode"@.len() != "Debug"@.len()); }
    assert(bs[6].0 != bs[7].0) by { assert("Logging"@.len() != "Update"@.len()); }
    assert(bs[6].0 != bs[8].0) by { assert("Logging"@.len() != "Prime95Custom"@.len()); }
    assert(bs[6].0 != bs[9].0) by { assert("Logging"@.len() != "Debug"@.len()); }
    assert(bs[7].0 != bs[8].0) by { assert("Update"@.len() != "Prime95Custom"@.len()); }
    assert(bs[7].0 != bs[9].0) by { assert("Update"@.len() != "Debug"@.len()); }
    assert(bs[8].0 != bs[9].0) by { assert("Prime95Custom"@.len() != "Debug"@.len()); }
    assert forall|i: int, j: int| 0 <= i < j < bs.len() implies #[trigger] bs[i].0 != #[trigger] bs[j].0 by {
        if i == 0 {
            assert(j == 1 || j == 2 || j == 3 || j == 4 || j == 5 || j == 6 || j == 7 || j == 8 || j == 9);
        } else if i == 1 {
            assert(j == 2 || j == 3 || j == 4 || j == 5 || j == 6 || j == 7 || j == 8 || j == 9);
        } else if i == 2 {
            assert(j == 3 || j == 4 || j == 5 || j == 6 || j == 7 || j == 8 || j == 9);
        } else if i == 3 {
            assert(j == 4 || j == 5 || j == 6 || j == 7 || j == 8 || j == 9);
        } else if i == 4 {
            assert(j == 5 || j == 6 || j == 7 || j == 8 || j == 9);
        } else if i == 5 {
            assert(j == 6 || j == 7 || j == 8 || j == 9);
        } else if i == 6 {
            assert(j == 7 || j == 8 || j == 9);
        } else if i == 7 {
            assert(j == 8 || j == 9);
        } else if i == 8 {
            assert(j == 9);
        }
    }
}

/// The default configuration is savable.
proof fn lemma_default_savable()
    ensures
        savable(default_config()),
{
    reveal_strlit("6m");
    reveal_strlit("10000");
    reveal_strlit("15");
    reveal_strlit("Default");
    reveal_strlit("Huge");
    reveal_strlit("BKT, BBP, SFTv4, SNT, SVT, FFTv4, N63, VT3");
    reveal_strlit("60");
    reveal_strlit("CACHE");
    reveal_strlit("90");
    reveal_strlit("2GB");
    reveal_strlit("CurrentValues");
    reveal_strlit("0");
    reveal_strlit("120");
    reveal_strlit("CoreCycler");
    reveal_strlit("2");
    reveal_strlit("24");
    reveal_strlit("4");
    reveal_strlit("8192");
    reveal_strlit("1");
    reveal_strlit("10");
    reveal_strlit("1000");
    reveal_with_fuel(plain_word, 14);
    let e = Seq::<char>::empty();
    assert(trim(e) =~= e);
    lemma_plain_clean("6m"@);
    lemma_plain_clean("10000"@);
    lemma_plain_clean("15"@);
    lemma_plain_clean("Default"@);
    lemma_plain_clean("Huge"@);
    lemma_plain_clean("60"@);
    lemma_plain_clean("CACHE"@);
    lemma_plain_clean("90"@);
    lemma_plain_clean("2GB"@);
    lemma_plain_clean("CurrentValues"@);
    lemma_plain_clean("0"@);
    lemma_plain_clean("120"@);
    lemma_plain_clean("CoreCycler"@);
    lemma_plain_clean("2"@);
    lemma_plain_clean("24"@);
    lemma_plain_clean("4"@);
    lemma_plain_clean("8192"@);
    lemma_plain_clean("1"@);
    lemma_plain_clean("10"@);
    lemma_plain_clean("1000"@);
    let t = "BKT, BBP, SFTv4, SNT, SVT, FFTv4, N63, VT3"@;
    lemma_trim_ends(t);
    assert forall|i: int| 0 <= i < t.len() implies #[trigger] t[i] != '#' && t[i] != '\n' by {
        assert(t[i] == 'B' || t[i] == 'K' || t[i] == 'T' || t[i] == ',' || t[i] == ' ' || t[i] == 'P'
            || t[i] == 'S' || t[i] == 'F' || t[i] == 'v' || t[i] == '4' || t[i] == 'N' || t[i] == 'V'
            || t[i] == '6' || t[i] == '3');
    }
}

/// Saving is compact: a setting is written exactly when its value differs
/// from the default one, and then with its value; the defaults are written
/// with no setting at all.
pub proof fn lemma_save_writes_changes(c: ConfigView, sec: Seq<char>, key: Seq<char>)
    ensures
        blocks_lookup(saved_blocks(c), 0, sec, key) == changed_lookup(
            blocks_lookup(config_blocks(c), 0, sec, key),
            blocks_lookup(config_blocks(default_config()), 0, sec, key),
        ),
        forall|i: int|
            0 <= i < saved_blocks(default_config()).len() ==> (#[trigger] saved_blocks(
                default_config(),
            )[i]).1.len() == 0,
{
    lemma_config_layout(c);
    lemma_changed_blocks_lookup(config_blocks(c), config_blocks(default_config()), 0, sec, key);
    let ds = config_blocks(default_config());
    assert forall|i: int| 0 <= i < saved_blocks(default_config()).len() implies (
    #[trigger] saved_blocks(default_config())[i]).1.len() == 0 by {
        lemma_changed_pairs_none(ds[i].1);
    }
}

/// Whatever the text does not set keeps its default: a section that no
/// assignment names loads its defaults, and a text without assignments
/// loads the default configuration.
#[verifier::spinoff_prover]
pub proof fn lemma_missing_defaults(es: Seq<Assignment>)
    ensures
        (forall|i: int| 0 <= i < es.len() ==> (#[trigger] es[i]).0 != "General"@) ==> load_view(es).general
            == default_general(),
        (forall|i: int| 0 <= i < es.len() ==> (#[trigger] es[i]).0 != "Prime95"@) ==> load_view(es).prime95
            == default_prime95(),
        (forall|i: int| 0 <= i < es.len() ==> (#[trigger] es[i]).0 != "yCruncher"@) ==> load_view(es).ycruncher
            == default_ycruncher(),
        (forall|i: int| 0 <= i < es.len() ==> (#[trigger] es[i]).0 != "Aida64"@) ==> load_view(es).aida64
            == default_aida64(),
        (forall|i: int| 0 <= i < es.len() ==> (#[trigger] es[i]).0 != "Linpack"@) ==> load_view(es).linpack
            == default_linpack(),
        (forall|i: int| 0 <= i < es.len() ==> (#[trigger] es[i]).0 != "AutomaticTestMode"@) ==> load_view(es).automatic_test_mode
            == default_automatic_test_mode(),
        (forall|i: int| 0 <= i < es.len() ==> (#[trigger] es[i]).0 != "Logging"@) ==> load_view(es).logging
            == default_logging(),
        (forall|i: int| 0 <= i < es.len() ==> (#[trigger] es[i]).0 != "Update"@) ==> load_view(es).update
            == default_update(),
        (forall|i: int| 0 <= i < es.len() ==> (#[trigger] es[i]).0 != "Prime95Custom"@) ==> load_view(es).prime95_custom
            == default_prime95_custom(),
        (forall|i: int| 0 <= i < es.len() ==> (#[trigger] es[i]).0 != "Debug"@) ==> load_view(es).debug
            == default_debug(),
        es.len() == 0 ==> load_view(es) == default_config(),
{
    if forall|i: int| 0 <= i < es.len() ==> (#[trigger] es[i]).0 != "General"@ {
        lemma_lookup_section_absent(es, "General"@);
    }
    if forall|i: int| 0 <= i < es.len() ==> (#[trigger] es[i]).0 != "Prime95"@ {
        lemma_lookup_section_absent(es, "Prime95"@);
    }
    if forall|i: int| 0 <= i < es.len() ==> (#[trigger] es[i]).0 != "yCruncher"@ {
        lemma_lookup_section_absent(es, "yCruncher"@);
    }
    if forall|i: int| 0 <= i < es.len() ==> (#[trigger] es[i]).0 != "Aida64"@ {
        lemma_lookup_section_absent(es, "Aida64"@);
    }
    if forall|i: int| 0 <= i < es.len() ==> (#[trigger] es[i]).0 != "Linpack"@ {
        lemma_lookup_section_absent(es, "Linpack"@);
    }
    if forall|i: int| 0 <= i < es.len() ==> (#[trigger] es[i]).0 != "AutomaticTestMode"@ {
        lemma_lookup_section_absent(es, "AutomaticTestMode"@);
    }
    if forall|i: int| 0 <= i < es.len() ==> (#[trigger] es[i]).0 != "Logging"@ {
        lemma_lookup_section_absent(es, "Logging"@);
    }
    if forall|i: int| 0 <= i < es.len() ==> (#[trigger] es[i]).0 != "Update"@ {
        lemma_lookup_section_absent(es, "Update"@);
    }
    if forall|i: int| 0 <= i < es.len() ==> (#[trigger] es[i]).0 != "Prime95Custom"@ {
        lemma_lookup_section_absent(es, "Prime95Custom"@);
    }
    if forall|i: int| 0 <= i < es.len() ==> (#[trigger] es[i]).0 != "Debug"@ {
        lemma_lookup_section_absent(es, "Debug"@);
    }
}

/// Assignments `s` that hold, for each setting, the value of `a` where it
/// differs from that of `b` and nothing where it is the same.
pub open spec fn holds_changes(a: Seq<Assignment>, b: Seq<Assignment>, s: Seq<Assignment>) -> bool {
    forall|sec: Seq<char>, key: Seq<char>|
        #[trigger] ini_lookup(s, sec, key) == changed_lookup(ini_lookup(a, sec, key), ini_lookup(b, sec, key))
}

proof fn lemma_load_general_changes(a: Seq<Assignment>, b: Seq<Assignment>, s: Seq<Assignment>)
    requires
        holds_changes(a, b, s),
        load_general(b) == default_general(),
    ensures
        load_general(s) == load_general(a),
{
}

proof fn lemma_load_prime95_changes(a: Seq<Assignment>, b: Seq<Assignment>, s: Seq<Assignment>)
    requires
        holds_changes(a, b, s),
        load_prime95(b) == default_prime95(),
    ensures
        load_prime95(s) == load_prime95(a),
{
}

proof fn lemma_load_ycruncher_changes(a: Seq<Assignment>, b: Seq<Assignment>, s: Seq<Assignment>)
    requires
        holds_changes(a, b, s),
        load_ycruncher(b) == default_ycruncher(),
    ensures
        load_ycruncher(s) == load_ycruncher(a),
{
}

proof fn lemma_load_aida64_changes(a: Seq<Assignment>, b: Seq<Assignment>, s: Seq<Assignment>)
    requires
        holds_changes(a, b, s),
        load_aida64(b) == default_aida64(),
    ensures
        load_aida64(s) == load_aida64(a),
{
}

proof fn lemma_load_linpack_changes(a: Seq<Assignment>, b: Seq<Assignment>, s: Seq<Assignment>)
    requires
        holds_changes(a, b, s),
        load_linpack(b) == default_linpack(),
    ensures
        load_linpack(s) == load_linpack(a),
{
}

proof fn lemma_load_automatic_test_mode_changes(a: Seq<Assignment>, b: Seq<Assignment>, s: Seq<Assignment>)
    requires
        holds_changes(a, b, s),
        load_automatic_test_mode(b) == default_automatic_test_mode(),
    ensures
        load_automatic_test_mode(s) == load_automatic_test_mode(a),
{
}

proof fn lemma_load_logging_changes(a: Seq<Assignment>, b: Seq<Assignment>, s: Seq<Assignment>)
    requires
        holds_changes(a, b, s),
        load_logging(b) == default_logging(),
    ensures
        load_logging(s) == load_logging(a),
{
}

proof fn lemma_load_update_changes(a: Seq<Assignment>, b: Seq<Assignment>, s: Seq<Assignment>)
    requires
        holds_changes(a, b, s),
        load_update(b) == default_update(),
    ensures
        load_update(s) == load_update(a),
{
}

proof fn lemma_load_prime95_custom_changes(a: Seq<Assignment>, b: Seq<Assignment>, s: Seq<Assignment>)
    requires
        holds_changes(a, b, s),
        load_prime95_custom(b) == default_prime95_custom(),
    ensures
        load_prime95_custom(s) == load_prime95_custom(a),
{
}

proof fn lemma_load_debug_changes(a: Seq<Assignment>, b: Seq<Assignment>, s: Seq<Assignment>)
    requires
        holds_changes(a, b, s),
        load_debug(b) == default_debug(),
    ensures
        load_debug(s) == load_debug(a),
{
}

/// Assignments that hold the changes of `a` over `b` load as `a` does when
/// `b` loads as the defaults.
proof fn lemma_load_changes(a: Seq<Assignment>, b: Seq<Assignment>, s: Seq<Assignment>)
    requires
        holds_changes(a, b, s),
        load_view(b) == default_config(),
    ensures
        load_view(s) == load_view(a),
{
    lemma_load_general_changes(a, b, s);
    lemma_load_prime95_changes(a, b, s);
    lemma_load_ycruncher_changes(a, b, s);
    lemma_load_aida64_changes(a, b, s);
    lemma_load_linpack_changes(a, b, s);
    lemma_load_automatic_test_mode_changes(a, b, s);
    lemma_load_logging_changes(a, b, s);
    lemma_load_update_changes(a, b, s);
    lemma_load_prime95_custom_changes(a, b, s);
    lemma_load_debug_changes(a, b, s);
}

/// Writing a savable configuration and reading the text back gives the
/// same configuration: a setting left out because it has its default value
/// reads back as that default.
pub proof fn lemma_save_load_round_trip(c: ConfigView)
    requires
        savable(c),
    ensures
        load_view(ini_read(render_text(c)).entries) == c,
{
    let d = default_config();
    let bs = config_blocks(c);
    let ds = config_blocks(d);
    let saved = saved_blocks(c);
    lemma_blocks_well_formed(c);
    lemma_header_line();
    lemma_changed_blocks_well_formed(bs, ds);
    lemma_read_document(header_line(), saved);
    lemma_default_savable();
    lemma_general_reads_back(c);
    lemma_prime95_reads_back(c);
    lemma_ycruncher_reads_back(c);
    lemma_aida64_reads_back(c);
    lemma_linpack_reads_back(c);
    lemma_automatic_test_mode_reads_back(c);
    lemma_logging_reads_back(c);
    lemma_update_reads_back(c);
    lemma_prime95_custom_reads_back(c);
    lemma_debug_reads_back(c);
    lemma_general_reads_back(d);
    lemma_prime95_reads_back(d);
    lemma_ycruncher_reads_back(d);
    lemma_aida64_reads_back(d);
    lemma_linpack_reads_back(d);
    lemma_automatic_test_mode_reads_back(d);
    lemma_logging_reads_back(d);
    lemma_update_reads_back(d);
    lemma_prime95_custom_reads_back(d);
    lemma_debug_reads_back(d);
    let a = blocks_entries_from(bs, 0);
    let b = blocks_entries_from(ds, 0);
    let s = blocks_entries_from(saved, 0);
    assert(load_view(a) == c);
    assert(load_view(b) == d);
    lemma_config_layout(c);
    assert forall|sec: Seq<char>, key: Seq<char>| #[trigger] ini_lookup(s, sec, key) == changed_lookup(
        ini_lookup(a, sec, key),
        ini_lookup(b, sec, key),
    ) by {
        lemma_lookup_blocks(saved, 0, sec, key);
        lemma_lookup_blocks(bs, 0, sec, key);
        lemma_lookup_blocks(ds, 0, sec, key);
        lemma_changed_blocks_lookup(bs, ds, 0, sec, key);
    }
    lemma_load_changes(a, b, s);
}


} // verus!
