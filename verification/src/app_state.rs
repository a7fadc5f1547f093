//! The application's state and its transitions: what each message does to
//! the configuration and the run monitor, and which outside work (saving,
//! loading, starting or stopping a run, the clipboard) it asks for.  The
//! outside work itself is done by the caller, which reports back through
//! the event methods.
use vstd::prelude::*;

use crate::config_file::{load_config, load_view};
use crate::edits::{
    normalize_tests, toggled_core_text, normalized_tests, runtime_from_input, runtime_text,
    toggle_aida_component, toggle_core_ignore, toggle_test, toggled_aida_mode,
    toggled_tests,
};
use crate::edits::{core_list, cores_text, lemma_toggled_core_list, strictly_ascending};
use crate::edits::{all_plain, lemma_normalized_tests_known, lemma_word_list_join, plain_item, word_list};
use crate::ini::ini_read;
use crate::model::{
    default_config, AutomaticTestModeView, ConfigView, CoreCyclerConfig, CoreTestOrder,
    CoreTestOrderView, DebugConfig, DebugView, FFTSize, FFTSizeView, GeneralConfig, GeneralView,
    LinpackConfig, LinpackMode, LinpackVersion, LinpackView, LoggingConfig, LoggingView,
    Prime95Config, Prime95CustomConfig, Prime95CustomView, Prime95Mode, Prime95View,
    ProcessPriority, StressTestProgram, SuspensionMode, UpdateConfig, UpdateView, YCruncherConfig,
    YCruncherMode, YCruncherView, Aida64Config, Aida64View, AutomaticTestModeConfig,
};
use crate::monitor::{
    apply_line, at_most_one_testing, lemma_line_keeps_one_testing, errors_below, lemma_line_counters, tests_below, CoreState, CoreStatus,
    MonitorState, MonitorView,
};
use crate::text::{
    before, before_lit, chars_of, decimal, eq_lit, is_digit, join, join_exec, parse_u8, push_decimal,
    push_lit, spec_parse_u8, string_of, views,
};

verus! {

/// The outside work that a message asks for.
#[derive(Debug, Clone)]
pub enum Command {
    /// Nothing to do.
    Nothing,
    /// Write the configuration to `config.ini`, then report through
    /// [`AppState::save_finished`].
    SaveConfig,
    /// Read `config.ini` (or the default preset), then report through
    /// [`AppState::load_finished`].
    LoadConfig,
    /// Save the configuration and start CoreCycler for the program, then
    /// report through [`AppState::run_save_failed`], [`AppState::run_started`]
    /// or [`AppState::run_start_failed`].
    StartRun(String),
    /// Stop the running process tree.
    StopRunner,
    /// Collect new output and check whether the run ended, then report
    /// through [`AppState::receive_output`] and [`AppState::process_exited`].
    PollRunner,
    /// Put the text on the clipboard.
    CopyToClipboard(String),
}

/// The abstract value of a [`Command`].
pub enum CommandView {
    Nothing,
    SaveConfig,
    LoadConfig,
    StartRun(Seq<char>),
    StopRunner,
    PollRunner,
    CopyToClipboard(Seq<char>),
}

impl View for Command {
    type V = CommandView;

    open spec fn view(&self) -> CommandView {
        match self {
            Command::Nothing => CommandView::Nothing,
            Command::SaveConfig => CommandView::SaveConfig,
            Command::LoadConfig => CommandView::LoadConfig,
            Command::StartRun(p) => CommandView::StartRun(p@),
            Command::StopRunner => CommandView::StopRunner,
            Command::PollRunner => CommandView::PollRunner,
            Command::CopyToClipboard(t) => CommandView::CopyToClipboard(t@),
        }
    }
}

/// What the application holds apart from the running process.
pub struct AppState {
    pub config: CoreCyclerConfig,
    pub config_section: usize,
    pub num_physical_cores: u32,
    pub preset_configs: Vec<String>,
    pub is_running: bool,
    pub running_program: String,
    pub log_lines: Vec<String>,
    pub monitor: MonitorState,
    pub status_message: Option<String>,
}

/// The abstract value of an [`AppState`].
pub struct AppView {
    pub config: ConfigView,
    pub config_section: usize,
    pub num_physical_cores: u32,
    pub preset_configs: Seq<Seq<char>>,
    pub is_running: bool,
    pub running_program: Seq<char>,
    pub log_lines: Seq<Seq<char>>,
    pub monitor: MonitorView,
    pub status_message: Option<Seq<char>>,
}

/// The views of a sequence of strings.
pub open spec fn string_views(v: Seq<String>) -> Seq<Seq<char>> {
    Seq::new(v.len(), |i: int| v[i]@)
}

pub open spec fn option_view(o: Option<String>) -> Option<Seq<char>> {
    match o {
        Some(s) => Some(s@),
        None => None,
    }
}

impl View for AppState {
    type V = AppView;

    open spec fn view(&self) -> AppView {
        AppView {
            config: self.config@,
            config_section: self.config_section,
            num_physical_cores: self.num_physical_cores,
            preset_configs: string_views(self.preset_configs@),
            is_running: self.is_running,
            running_program: self.running_program@,
            log_lines: string_views(self.log_lines@),
            monitor: self.monitor@,
            status_message: option_view(self.status_message),
        }
    }
}

/// The y-cruncher settings that the old (`old_version`) or the new
/// y-cruncher accepts: the tests it does not know dropped (its default tests
/// when none is left), and a mode it does not have replaced by `00-x86`.
pub open spec fn prepared_ycruncher(y: YCruncherView, old_version: bool) -> YCruncherView {
    YCruncherView {
        tests: if old_version {
            normalized_tests(y.tests, YCruncherConfig::spec_old_tags(), YCruncherConfig::spec_old_default_tests())
        } else {
            normalized_tests(y.tests, YCruncherConfig::spec_new_tags(), YCruncherConfig::spec_new_default_tests())
        },
        mode: if (if old_version {
            YCruncherMode::spec_old_modes()
        } else {
            YCruncherMode::spec_new_modes()
        }).contains(y.mode) {
            y.mode
        } else {
            YCruncherMode::X86
        },
        ..y
    }
}

/// The configuration that a run of `program` uses: the program set, no
/// other configuration file referenced, and for y-cruncher only the tests
/// and modes that the chosen y-cruncher version has.
pub open spec fn prepared_config(c: ConfigView, program: Seq<char>) -> ConfigView {
    let c1 = ConfigView {
        general: GeneralView {
            stress_test_program: StressTestProgram::parse(program),
            use_config_file: Seq::empty(),
            ..c.general
        },
        ..c
    };
    if program == "YCRUNCHER_OLD"@ {
        ConfigView { ycruncher: prepared_ycruncher(c1.ycruncher, true), ..c1 }
    } else if program == "YCRUNCHER"@ {
        ConfigView { ycruncher: prepared_ycruncher(c1.ycruncher, false), ..c1 }
    } else {
        c1
    }
}

/// The state after a message.
pub open spec fn next_state(s: AppView, m: Message) -> AppView {
    match m {
        Message::ConfigSectionChanged(i) => AppView { config_section: i, ..s },
        Message::ResetConfig => AppView {
            config: default_config(),
            status_message: Some("Config reset to defaults"@),
            ..s
        },
        Message::RunProgram(p) => if s.is_running {
            s
        } else {
            AppView { config: prepared_config(s.config, p@), ..s }
        },
        Message::StopTest => if s.is_running {
            AppView { monitor: MonitorView { status_text: "Stopping..."@, ..s.monitor }, ..s }
        } else {
            s
        },
        Message::SaveConfig | Message::LoadConfig | Message::OutputReceived(_)
        | Message::ProcessExited(_) | Message::CopyLog | Message::Tick => s,
        _ => AppView { config: edit_config(s.config, m), ..s },
    }
}

/// The outside work that a message asks for.
pub open spec fn command_for(s: AppView, m: Message) -> CommandView {
    match m {
        Message::SaveConfig => CommandView::SaveConfig,
        Message::LoadConfig => CommandView::LoadConfig,
        Message::RunProgram(p) => if s.is_running {
            CommandView::Nothing
        } else {
            CommandView::StartRun(p@)
        },
        Message::StopTest => if s.is_running {
            CommandView::StopRunner
        } else {
            CommandView::Nothing
        },
        Message::Tick => if s.is_running {
            CommandView::PollRunner
        } else {
            CommandView::Nothing
        },
        Message::CopyLog => CommandView::CopyToClipboard(join(s.log_lines, seq!['\n'])),
        _ => CommandView::Nothing,
    }
}

/// What the user or the runner asks of the application.
#[derive(Debug, Clone)]
pub enum Message {
    ConfigSectionChanged(usize),
    SaveConfig,
    LoadConfig,
    ResetConfig,
    RunProgram(String),
    StopTest,
    OutputReceived(Vec<String>),
    ProcessExited(i32),
    CopyLog,
    Tick,
    GeneralUseConfigFile(String),
    GeneralStressTestProgram(String),
    GeneralRuntimePerCore(String),
    GeneralSuspendPeriodically(bool),
    GeneralCoreTestOrder(String),
    GeneralSkipCoreOnError(bool),
    GeneralStopOnError(bool),
    GeneralNumberOfThreads(String),
    GeneralAssignBothVCores(bool),
    GeneralMaxIterations(String),
    GeneralCoresToIgnore(String),
    ToggleCoreIgnore(u32, bool),
    GeneralRestartPerCore(bool),
    GeneralDelayBetweenCores(String),
    GeneralBeepOnError(bool),
    GeneralFlashOnError(bool),
    GeneralLookForWhea(bool),
    GeneralTreatWheaAsError(bool),
    Prime95Mode(String),
    Prime95FFTSize(String),
    YCruncherMode(String),
    YCruncherTests(String),
    YCruncherToggleTest(String, bool),
    YCruncherTestDuration(String),
    YCruncherMemory(String),
    YCruncherLoggingWrapper(bool),
    Aida64Mode(String),
    Aida64ToggleModeComponent(String, bool),
    Aida64UseAVX(bool),
    Aida64MaxMemory(String),
    LinpackVersion(String),
    LinpackModeChanged(String),
    LinpackMemory(String),
    AutoEnableAdjustment(bool),
    AutoStartValues(String),
    AutoMaxValue(String),
    AutoIncrementBy(String),
    AutoVoltageOnlyTested(bool),
    AutoRepeatCoreOnError(bool),
    AutoEnableResume(bool),
    AutoWaitBeforeResume(String),
    AutoCreateRestore(bool),
    AutoAskRestore(bool),
    LogName(String),
    LogLevel(String),
    LogUseEventLog(bool),
    LogFlushCache(bool),
    UpdateEnableCheck(bool),
    UpdateFrequency(String),
    P95CustomAVX(bool),
    P95CustomAVX2(bool),
    P95CustomFMA3(bool),
    P95CustomAVX512(bool),
    P95CustomMinFFT(String),
    P95CustomMaxFFT(String),
    P95CustomMem(String),
    P95CustomTime(String),
    DebugDisableCpuCheck(bool),
    DebugUsePerfCounters(bool),
    DebugEnableFreqCheck(bool),
    DebugTickInterval(String),
    DebugDelayFirstCheck(String),
    DebugPriority(String),
    DebugShowWindow(bool),
    DebugSuspensionTime(String),
    DebugSuspensionMode(String),
}

/// The part of the configuration that a message edits.
#[derive(Debug, Clone, Copy, PartialEq, Eq, Structural)]
pub enum SettingGroup {
    GeneralRun,
    GeneralErrors,
    Prime95,
    YCruncher,
    Aida64,
    Linpack,
    AutomaticTestMode,
    Logging,
    Update,
    Prime95Custom,
    Debug,
    /// The message edits no setting.
    NoSetting,
}

/// The part of the configuration that `m` edits.
pub open spec fn group_of(m: Message) -> SettingGroup {
    match m {
        Message::GeneralUseConfigFile(_)
        | Message::GeneralStressTestProgram(_)
        | Message::GeneralRuntimePerCore(_)
        | Message::GeneralSuspendPeriodically(_)
        | Message::GeneralCoreTestOrder(_)
        | Message::GeneralNumberOfThreads(_)
        | Message::GeneralAssignBothVCores(_)
        | Message::GeneralMaxIterations(_)
        | Message::GeneralRestartPerCore(_)
        | Message::GeneralDelayBetweenCores(_) => SettingGroup::GeneralRun,
        Message::GeneralSkipCoreOnError(_)
        | Message::GeneralStopOnError(_)
        | Message::GeneralCoresToIgnore(_)
        | Message::ToggleCoreIgnore(_, _)
        | Message::GeneralBeepOnError(_)
        | Message::GeneralFlashOnError(_)
        | Message::GeneralLookForWhea(_)
        | Message::GeneralTreatWheaAsError(_) => SettingGroup::GeneralErrors,
        Message::Prime95Mode(_)
        | Message::Prime95FFTSize(_) => SettingGroup::Prime95,
        Message::YCruncherMode(_)
        | Message::YCruncherTests(_)
        | Message::YCruncherToggleTest(_, _)
        | Message::YCruncherTestDuration(_)
        | Message::YCruncherMemory(_)
        | Message::YCruncherLoggingWrapper(_) => SettingGroup::YCruncher,
        Message::Aida64Mode(_)
        | Message::Aida64ToggleModeComponent(_, _)
        | Message::Aida64UseAVX(_)
        | Message::Aida64MaxMemory(_) => SettingGroup::Aida64,
        Message::LinpackVersion(_)
        | Message::LinpackModeChanged(_)
        | Message::LinpackMemory(_) => SettingGroup::Linpack,
        Message::AutoEnableAdjustment(_)
        | Message::AutoStartValues(_)
        | Message::AutoMaxValue(_)
        | Message::AutoIncrementBy(_)
        | Message::AutoVoltageOnlyTested(_)
        | Message::AutoRepeatCoreOnError(_)
        | Message::AutoEnableResume(_)
        | Message::AutoWaitBeforeResume(_)
        | Message::AutoCreateRestore(_)
        | Message::AutoAskRestore(_) => SettingGroup::AutomaticTestMode,
        Message::LogName(_)
        | Message::LogLevel(_)
        | Message::LogUseEventLog(_)
        | Message::LogFlushCache(_) => SettingGroup::Logging,
        Message::UpdateEnableCheck(_)
        | Message::UpdateFrequency(_) => SettingGroup::Update,
        Message::P95CustomAVX(_)
        | Message::P95CustomAVX2(_)
        | Message::P95CustomFMA3(_)
        | Message::P95CustomAVX512(_)
        | Message::P95CustomMinFFT(_)
        | Message::P95CustomMaxFFT(_)
        | Message::P95CustomMem(_)
        | Message::P95CustomTime(_) => SettingGroup::Prime95Custom,
        Message::DebugDisableCpuCheck(_)
        | Message::DebugUsePerfCounters(_)
        | Message::DebugEnableFreqCheck(_)
        | Message::DebugTickInterval(_)
        | Message::DebugDelayFirstCheck(_)
        | Message::DebugPriority(_)
        | Message::DebugShowWindow(_)
        | Message::DebugSuspensionTime(_)
        | Message::DebugSuspensionMode(_) => SettingGroup::Debug,
        _ => SettingGroup::NoSetting,
    }
}

/// The general settings of a test run after an editing message.
pub open spec fn edit_general_run(s: GeneralView, m: Message) -> GeneralView {
    match m {
        Message::GeneralUseConfigFile(v) => GeneralView { use_config_file: v@, ..s },
        Message::GeneralStressTestProgram(v) => GeneralView { stress_test_program: StressTestProgram::parse(v@), ..s },
        Message::GeneralRuntimePerCore(v) => GeneralView { runtime_per_core: runtime_text(v@), ..s },
        Message::GeneralSuspendPeriodically(b) => GeneralView { suspend_periodically: b, ..s },
        Message::GeneralCoreTestOrder(v) => GeneralView { core_test_order: CoreTestOrderView::parse(v@), ..s },
        Message::GeneralNumberOfThreads(v) => GeneralView { number_of_threads: match spec_parse_u8(v@) {
                Some(n) => n,
                None => 1u8,
            }, ..s },
        Message::GeneralAssignBothVCores(b) => GeneralView { assign_both_virtual_cores: b, ..s },
        Message::GeneralMaxIterations(v) => GeneralView { max_iterations: v@, ..s },
        Message::GeneralRestartPerCore(b) => GeneralView { restart_test_program_for_each_core: b, ..s },
        Message::GeneralDelayBetweenCores(v) => GeneralView { delay_between_cores: v@, ..s },
        _ => s,
    }
}

/// The general settings on cores and errors after an editing message.
pub open spec fn edit_general_errors(s: GeneralView, m: Message) -> GeneralView {
    match m {
        Message::GeneralSkipCoreOnError(b) => GeneralView { skip_core_on_error: b, ..s },
        Message::GeneralStopOnError(b) => GeneralView { stop_on_error: b, ..s },
        Message::GeneralCoresToIgnore(v) => GeneralView { cores_to_ignore: v@, ..s },
        Message::ToggleCoreIgnore(id, checked) => GeneralView { cores_to_ignore: toggled_core_text(s.cores_to_ignore, id, checked), ..s },
        Message::GeneralBeepOnError(b) => GeneralView { beep_on_error: b, ..s },
        Message::GeneralFlashOnError(b) => GeneralView { flash_on_error: b, ..s },
        Message::GeneralLookForWhea(b) => GeneralView { look_for_whea_errors: b, ..s },
        Message::GeneralTreatWheaAsError(b) => GeneralView { treat_whea_warning_as_error: b, ..s },
        _ => s,
    }
}

/// The prime95 settings after an editing message.
pub open spec fn edit_prime95(s: Prime95View, m: Message) -> Prime95View {
    match m {
        Message::Prime95Mode(v) => Prime95View { mode: Prime95Mode::parse(v@), ..s },
        Message::Prime95FFTSize(v) => Prime95View { fft_size: FFTSizeView::parse(v@), ..s },
        _ => s,
    }
}

/// The ycruncher settings after an editing message.
pub open spec fn edit_ycruncher(s: YCruncherView, m: Message) -> YCruncherView {
    match m {
        Message::YCruncherMode(v) => YCruncherView { mode: YCruncherMode::parse(before(v@, " ("@)), ..s },
        Message::YCruncherTests(v) => YCruncherView { tests: v@, ..s },
        Message::YCruncherToggleTest(name, enabled) => YCruncherView { tests: toggled_tests(s.tests, name@, enabled), ..s },
        Message::YCruncherTestDuration(v) => YCruncherView { test_duration: v@, ..s },
        Message::YCruncherMemory(v) => YCruncherView { memory: v@, ..s },
        Message::YCruncherLoggingWrapper(b) => YCruncherView { enable_logging_wrapper: b, ..s },
        _ => s,
    }
}

/// The aida64 settings after an editing message.
pub open spec fn edit_aida64(s: Aida64View, m: Message) -> Aida64View {
    match m {
        Message::Aida64Mode(v) => Aida64View { mode: v@, ..s },
        Message::Aida64ToggleModeComponent(name, enabled) => Aida64View { mode: toggled_aida_mode(s.mode, name@, enabled), ..s },
        Message::Aida64UseAVX(b) => Aida64View { use_avx: b, ..s },
        Message::Aida64MaxMemory(v) => Aida64View { max_memory: v@, ..s },
        _ => s,
    }
}

/// The linpack settings after an editing message.
pub open spec fn edit_linpack(s: LinpackView, m: Message) -> LinpackView {
    match m {
        Message::LinpackVersion(v) => {
            let ver = LinpackVersion::parse(v@);
            LinpackView {
                version: ver,
                mode: if ver == LinpackVersion::V2021 || ver == LinpackVersion::V2024 {
                    LinpackMode::Fastest
                } else {
                    s.mode
                },
                ..s
            }
        },
        Message::LinpackModeChanged(v) => LinpackView { mode: LinpackMode::parse(v@), ..s },
        Message::LinpackMemory(v) => LinpackView { memory: v@, ..s },
        _ => s,
    }
}

/// The automatic test mode settings after an editing message.
pub open spec fn edit_automatic_test_mode(s: AutomaticTestModeView, m: Message) -> AutomaticTestModeView {
    match m {
        Message::AutoEnableAdjustment(b) => AutomaticTestModeView { enable_automatic_adjustment: b, ..s },
        Message::AutoStartValues(v) => AutomaticTestModeView { start_values: v@, ..s },
        Message::AutoMaxValue(v) => AutomaticTestModeView { max_value: v@, ..s },
        Message::AutoIncrementBy(v) => AutomaticTestModeView { increment_by: v@, ..s },
        Message::AutoVoltageOnlyTested(b) => AutomaticTestModeView { set_voltage_only_for_tested_core: b, ..s },
        Message::AutoRepeatCoreOnError(b) => AutomaticTestModeView { repeat_core_on_error: b, ..s },
        Message::AutoEnableResume(b) => AutomaticTestModeView { enable_resume_after_unexpected_exit: b, ..s },
        Message::AutoWaitBeforeResume(v) => AutomaticTestModeView { wait_before_automatic_resume: v@, ..s },
        Message::AutoCreateRestore(b) => AutomaticTestModeView { create_system_restore_point: b, ..s },
        Message::AutoAskRestore(b) => AutomaticTestModeView { ask_for_system_restore_point_creation: b, ..s },
        _ => s,
    }
}

/// The logging settings after an editing message.
pub open spec fn edit_logging(s: LoggingView, m: Message) -> LoggingView {
    match m {
        Message::LogName(v) => LoggingView { name: v@, ..s },
        Message::LogLevel(v) => LoggingView { log_level: v@, ..s },
        Message::LogUseEventLog(b) => LoggingView { use_windows_event_log: b, ..s },
        Message::LogFlushCache(b) => LoggingView { flush_disk_write_cache: b, ..s },
        _ => s,
    }
}

/// The update settings after an editing message.
pub open spec fn edit_update(s: UpdateView, m: Message) -> UpdateView {
    match m {
        Message::UpdateEnableCheck(b) => UpdateView { enable_update_check: b, ..s },
        Message::UpdateFrequency(v) => UpdateView { update_check_frequency: v@, ..s },
        _ => s,
    }
}

/// The prime95 custom settings after an editing message.
pub open spec fn edit_prime95_custom(s: Prime95CustomView, m: Message) -> Prime95CustomView {
    match m {
        Message::P95CustomAVX(b) => Prime95CustomView { cpu_supports_avx: b, ..s },
        Message::P95CustomAVX2(b) => Prime95CustomView { cpu_supports_avx2: b, ..s },
        Message::P95CustomFMA3(b) => Prime95CustomView { cpu_supports_fma3: b, ..s },
        Message::P95CustomAVX512(b) => Prime95CustomView { cpu_supports_avx512: b, ..s },
        Message::P95CustomMinFFT(v) => Prime95CustomView { min_torture_fft: v@, ..s },
        Message::P95CustomMaxFFT(v) => Prime95CustomView { max_torture_fft: v@, ..s },
        Message::P95CustomMem(v) => Prime95CustomView { torture_mem: v@, ..s },
        Message::P95CustomTime(v) => Prime95CustomView { torture_time: v@, ..s },
        _ => s,
    }
}

/// The debug settings after an editing message.
pub open spec fn edit_debug(s: DebugView, m: Message) -> DebugView {
    match m {
        Message::DebugDisableCpuCheck(b) => DebugView { disable_cpu_utilization_check: b, ..s },
        Message::DebugUsePerfCounters(b) => DebugView { use_windows_perf_counters: b, ..s },
        Message::DebugEnableFreqCheck(b) => DebugView { enable_cpu_frequency_check: b, ..s },
        Message::DebugTickInterval(v) => DebugView { tick_interval: v@, ..s },
        Message::DebugDelayFirstCheck(v) => DebugView { delay_first_error_check: v@, ..s },
        Message::DebugPriority(v) => DebugView { stress_test_program_priority: ProcessPriority::parse(v@), ..s },
        Message::DebugShowWindow(b) => DebugView { stress_test_program_window_to_foreground: b, ..s },
        Message::DebugSuspensionTime(v) => DebugView { suspension_time: v@, ..s },
        Message::DebugSuspensionMode(v) => DebugView { mode_to_use_for_suspension: SuspensionMode::parse(v@), ..s },
        _ => s,
    }
}

/// The configuration after an editing message.
pub open spec fn edit_config(c: ConfigView, m: Message) -> ConfigView {
    match group_of(m) {
        SettingGroup::GeneralRun => ConfigView { general: edit_general_run(c.general, m), ..c },
        SettingGroup::GeneralErrors => ConfigView { general: edit_general_errors(c.general, m), ..c },
        SettingGroup::Prime95 => ConfigView { prime95: edit_prime95(c.prime95, m), ..c },
        SettingGroup::YCruncher => ConfigView { ycruncher: edit_ycruncher(c.ycruncher, m), ..c },
        SettingGroup::Aida64 => ConfigView { aida64: edit_aida64(c.aida64, m), ..c },
        SettingGroup::Linpack => ConfigView { linpack: edit_linpack(c.linpack, m), ..c },
        SettingGroup::AutomaticTestMode => ConfigView { automatic_test_mode: edit_automatic_test_mode(c.automatic_test_mode, m), ..c },
        SettingGroup::Logging => ConfigView { logging: edit_logging(c.logging, m), ..c },
        SettingGroup::Update => ConfigView { update: edit_update(c.update, m), ..c },
        SettingGroup::Prime95Custom => ConfigView { prime95_custom: edit_prime95_custom(c.prime95_custom, m), ..c },
        SettingGroup::Debug => ConfigView { debug: edit_debug(c.debug, m), ..c },
        SettingGroup::NoSetting => c,
    }
}

/// The part of the configuration that a message edits.
fn setting_group(m: &Message) -> (r: SettingGroup)
    ensures
        r == group_of(*m),
{
    match m {
        Message::GeneralUseConfigFile(_)
        | Message::GeneralStressTestProgram(_)
        | Message::GeneralRuntimePerCore(_)
        | Message::GeneralSuspendPeriodically(_)
        | Message::GeneralCoreTestOrder(_)
        | Message::GeneralNumberOfThreads(_)
        | Message::GeneralAssignBothVCores(_)
        | Message::GeneralMaxIterations(_)
        | Message::GeneralRestartPerCore(_)
        | Message::GeneralDelayBetweenCores(_) => SettingGroup::GeneralRun,
        Message::GeneralSkipCoreOnError(_)
        | Message::GeneralStopOnError(_)
        | Message::GeneralCoresToIgnore(_)
        | Message::ToggleCoreIgnore(_, _)
        | Message::GeneralBeepOnError(_)
        | Message::GeneralFlashOnError(_)
        | Message::GeneralLookForWhea(_)
        | Message::GeneralTreatWheaAsError(_) => SettingGroup::GeneralErrors,
        Message::Prime95Mode(_)
        | Message::Prime95FFTSize(_) => SettingGroup::Prime95,
        Message::YCruncherMode(_)
        | Message::YCruncherTests(_)
        | Message::YCruncherToggleTest(_, _)
        | Message::YCruncherTestDuration(_)
        | Message::YCruncherMemory(_)
        | Message::YCruncherLoggingWrapper(_) => SettingGroup::YCruncher,
        Message::Aida64Mode(_)
        | Message::Aida64ToggleModeComponent(_, _)
        | Message::Aida64UseAVX(_)
        | Message::Aida64MaxMemory(_) => SettingGroup::Aida64,
        Message::LinpackVersion(_)
        | Message::LinpackModeChanged(_)
        | Message::LinpackMemory(_) => SettingGroup::Linpack,
        Message::AutoEnableAdjustment(_)
        | Message::AutoStartValues(_)
        | Message::AutoMaxValue(_)
        | Message::AutoIncrementBy(_)
        | Message::AutoVoltageOnlyTested(_)
        | Message::AutoRepeatCoreOnError(_)
        | Message::AutoEnableResume(_)
        | Message::AutoWaitBeforeResume(_)
        | Message::AutoCreateRestore(_)
        | Message::AutoAskRestore(_) => SettingGroup::AutomaticTestMode,
        Message::LogName(_)
        | Message::LogLevel(_)
        | Message::LogUseEventLog(_)
        | Message::LogFlushCache(_) => SettingGroup::Logging,
        Message::UpdateEnableCheck(_)
        | Message::UpdateFrequency(_) => SettingGroup::Update,
        Message::P95CustomAVX(_)
        | Message::P95CustomAVX2(_)
        | Message::P95CustomFMA3(_)
        | Message::P95CustomAVX512(_)
        | Message::P95CustomMinFFT(_)
        | Message::P95CustomMaxFFT(_)
        | Message::P95CustomMem(_)
        | Message::P95CustomTime(_) => SettingGroup::Prime95Custom,
        Message::DebugDisableCpuCheck(_)
        | Message::DebugUsePerfCounters(_)
        | Message::DebugEnableFreqCheck(_)
        | Message::DebugTickInterval(_)
        | Message::DebugDelayFirstCheck(_)
        | Message::DebugPriority(_)
        | Message::DebugShowWindow(_)
        | Message::DebugSuspensionTime(_)
        | Message::DebugSuspensionMode(_) => SettingGroup::Debug,
        _ => SettingGroup::NoSetting,
    }
}

/// Applies a message to the general settings of a test run.
#[verifier::spinoff_prover]
#[verifier::rlimit(100)]
fn apply_general_run_edit(s: &mut GeneralConfig, message: Message)
    ensures
        final(s)@ == edit_general_run(old(s)@, message),
{
    match message {
        Message::GeneralUseConfigFile(v) => {
            s.use_config_file = v;
        },
        Message::GeneralStressTestProgram(v) => {
            s.stress_test_program = StressTestProgram::from_str(v.as_str());
        },
        Message::GeneralRuntimePerCore(v) => {
            s.runtime_per_core = runtime_from_input(v.as_str());
        },
        Message::GeneralSuspendPeriodically(b) => {
            s.suspend_periodically = b;
        },
        Message::GeneralCoreTestOrder(v) => {
            s.core_test_order = CoreTestOrder::from_str(v.as_str());
        },
        Message::GeneralNumberOfThreads(v) => {
            let c = chars_of(v.as_str());
            s.number_of_threads = match parse_u8(&c) {
                Some(n) => n,
                None => 1,
            };
        },
        Message::GeneralAssignBothVCores(b) => {
            s.assign_both_virtual_cores = b;
        },
        Message::GeneralMaxIterations(v) => {
            s.max_iterations = v;
        },
        Message::GeneralRestartPerCore(b) => {
            s.restart_test_program_for_each_core = b;
        },
        Message::GeneralDelayBetweenCores(v) => {
            s.delay_between_cores = v;
        },
        _ => {},
    }
}

/// Applies a message to the general settings on cores and errors.
#[verifier::spinoff_prover]
#[verifier::rlimit(100)]
fn apply_general_errors_edit(s: &mut GeneralConfig, message: Message)
    ensures
        final(s)@ == edit_general_errors(old(s)@, message),
{
    match message {
        Message::GeneralSkipCoreOnError(b) => {
            s.skip_core_on_error = b;
        },
        Message::GeneralStopOnError(b) => {
            s.stop_on_error = b;
        },
        Message::GeneralCoresToIgnore(v) => {
            s.cores_to_ignore = v;
        },
        Message::ToggleCoreIgnore(id, checked) => {
            s.cores_to_ignore = toggle_core_ignore(s.cores_to_ignore.as_str(), id, checked);
        },
        Message::GeneralBeepOnError(b) => {
            s.beep_on_error = b;
        },
        Message::GeneralFlashOnError(b) => {
            s.flash_on_error = b;
        },
        Message::GeneralLookForWhea(b) => {
            s.look_for_whea_errors = b;
        },
        Message::GeneralTreatWheaAsError(b) => {
            s.treat_whea_warning_as_error = b;
        },
        _ => {},
    }
}

/// Applies a message to the prime95 settings.
fn apply_prime95_edit(s: &mut Prime95Config, message: Message)
    ensures
        final(s)@ == edit_prime95(old(s)@, message),
{
    match message {
        Message::Prime95Mode(v) => {
            s.mode = Prime95Mode::from_str(v.as_str());
        },
        Message::Prime95FFTSize(v) => {
            s.fft_size = FFTSize::from_str(v.as_str());
        },
        _ => {},
    }
}

/// Applies a message to the ycruncher settings.
fn apply_ycruncher_edit(s: &mut YCruncherConfig, message: Message)
    ensures
        final(s)@ == edit_ycruncher(old(s)@, message),
{
    match message {
        Message::YCruncherMode(v) => {
            let chars = chars_of(v.as_str());
            let key = before_lit(&chars, " (");
            s.mode = YCruncherMode::from_str(string_of(&key).as_str());
        },
        Message::YCruncherTests(v) => {
            s.tests = v;
        },
        Message::YCruncherToggleTest(name, enabled) => {
            s.tests = toggle_test(s.tests.as_str(), name.as_str(), enabled);
        },
        Message::YCruncherTestDuration(v) => {
            s.test_duration = v;
        },
        Message::YCruncherMemory(v) => {
            s.memory = v;
        },
        Message::YCruncherLoggingWrapper(b) => {
            s.enable_logging_wrapper = b;
        },
        _ => {},
    }
}

/// Applies a message to the aida64 settings.
fn apply_aida64_edit(s: &mut Aida64Config, message: Message)
    ensures
        final(s)@ == edit_aida64(old(s)@, message),
{
    match message {
        Message::Aida64Mode(v) => {
            s.mode = v;
        },
        Message::Aida64ToggleModeComponent(name, enabled) => {
            s.mode = toggle_aida_component(s.mode.as_str(), name.as_str(), enabled);
        },
        Message::Aida64UseAVX(b) => {
            s.use_avx = b;
        },
        Message::Aida64MaxMemory(v) => {
            s.max_memory = v;
        },
        _ => {},
    }
}

/// Applies a message to the linpack settings.
fn apply_linpack_edit(s: &mut LinpackConfig, message: Message)
    ensures
        final(s)@ == edit_linpack(old(s)@, message),
{
    match message {
        Message::LinpackVersion(v) => {
            let ver = LinpackVersion::from_str(v.as_str());
            if ver == LinpackVersion::V2021 || ver == LinpackVersion::V2024 {
                s.mode = LinpackMode::Fastest;
            }
            s.version = ver;
        },
        Message::LinpackModeChanged(v) => {
            s.mode = LinpackMode::from_str(v.as_str());
        },
        Message::LinpackMemory(v) => {
            s.memory = v;
        },
        _ => {},
    }
}

/// Applies a message to the automatic test mode settings.
fn apply_automatic_test_mode_edit(s: &mut AutomaticTestModeConfig, message: Message)
    ensures
        final(s)@ == edit_automatic_test_mode(old(s)@, message),
{
    match message {
        Message::AutoEnableAdjustment(b) => {
            s.enable_automatic_adjustment = b;
        },
        Message::AutoStartValues(v) => {
            s.start_values = v;
        },
        Message::AutoMaxValue(v) => {
            s.max_value = v;
        },
        Message::AutoIncrementBy(v) => {
            s.increment_by = v;
        },
        Message::AutoVoltageOnlyTested(b) => {
            s.set_voltage_only_for_tested_core = b;
        },
        Message::AutoRepeatCoreOnError(b) => {
            s.repeat_core_on_error = b;
        },
        Message::AutoEnableResume(b) => {
            s.enable_resume_after_unexpected_exit = b;
        },
        Message::AutoWaitBeforeResume(v) => {
            s.wait_before_automatic_resume = v;
        },
        Message::AutoCreateRestore(b) => {
            s.create_system_restore_point = b;
        },
        Message::AutoAskRestore(b) => {
            s.ask_for_system_restore_point_creation = b;
        },
        _ => {},
    }
}

/// Applies a message to the logging settings.
fn apply_logging_edit(s: &mut LoggingConfig, message: Message)
    ensures
        final(s)@ == edit_logging(old(s)@, message),
{
    match message {
        Message::LogName(v) => {
            s.name = v;
        },
        Message::LogLevel(v) => {
            s.log_level = v;
        },
        Message::LogUseEventLog(b) => {
            s.use_windows_event_log = b;
        },
        Message::LogFlushCache(b) => {
            s.flush_disk_write_cache = b;
        },
        _ => {},
    }
}

/// Applies a message to the update settings.
fn apply_update_edit(s: &mut UpdateConfig, message: Message)
    ensures
        final(s)@ == edit_update(old(s)@, message),
{
    match message {
        Message::UpdateEnableCheck(b) => {
            s.enable_update_check = b;
        },
        Message::UpdateFrequency(v) => {
            s.update_check_frequency = v;
        },
        _ => {},
    }
}

/// Applies a message to the prime95 custom settings.
fn apply_prime95_custom_edit(s: &mut Prime95CustomConfig, message: Message)
    ensures
        final(s)@ == edit_prime95_custom(old(s)@, message),
{
    match message {
        Message::P95CustomAVX(b) => {
            s.cpu_supports_avx = b;
        },
        Message::P95CustomAVX2(b) => {
            s.cpu_supports_avx2 = b;
        },
        Message::P95CustomFMA3(b) => {
            s.cpu_supports_fma3 = b;
        },
        Message::P95CustomAVX512(b) => {
            s.cpu_supports_avx512 = b;
        },
        Message::P95CustomMinFFT(v) => {
            s.min_torture_fft = v;
        },
        Message::P95CustomMaxFFT(v) => {
            s.max_torture_fft = v;
        },
        Message::P95CustomMem(v) => {
            s.torture_mem = v;
        },
        Message::P95CustomTime(v) => {
            s.torture_time = v;
        },
        _ => {},
    }
}

/// Applies a message to the debug settings.
fn apply_debug_edit(s: &mut DebugConfig, message: Message)
    ensures
        final(s)@ == edit_debug(old(s)@, message),
{
    match message {
        Message::DebugDisableCpuCheck(b) => {
            s.disable_cpu_utilization_check = b;
        },
        Message::DebugUsePerfCounters(b) => {
            s.use_windows_perf_counters = b;
        },
        Message::DebugEnableFreqCheck(b) => {
            s.enable_cpu_frequency_check = b;
        },
        Message::DebugTickInterval(v) => {
            s.tick_interval = v;
        },
        Message::DebugDelayFirstCheck(v) => {
            s.delay_first_error_check = v;
        },
        Message::DebugPriority(v) => {
            s.stress_test_program_priority = ProcessPriority::from_str(v.as_str());
        },
        Message::DebugShowWindow(b) => {
            s.stress_test_program_window_to_foreground = b;
        },
        Message::DebugSuspensionTime(v) => {
            s.suspension_time = v;
        },
        Message::DebugSuspensionMode(v) => {
            s.mode_to_use_for_suspension = SuspensionMode::from_str(v.as_str());
        },
        _ => {},
    }
}

impl AppState {
    /// Applies an editing message to the configuration.
    fn apply_edit(&mut self, message: Message)
        ensures
            final(self)@ == (AppView { config: edit_config(old(self)@.config, message), ..old(self)@ }),
    {
        match setting_group(&message) {
            SettingGroup::GeneralRun => apply_general_run_edit(&mut self.config.general, message),
            SettingGroup::GeneralErrors => apply_general_errors_edit(&mut self.config.general, message),
            SettingGroup::Prime95 => apply_prime95_edit(&mut self.config.prime95, message),
            SettingGroup::YCruncher => apply_ycruncher_edit(&mut self.config.ycruncher, message),
            SettingGroup::Aida64 => apply_aida64_edit(&mut self.config.aida64, message),
            SettingGroup::Linpack => apply_linpack_edit(&mut self.config.linpack, message),
            SettingGroup::AutomaticTestMode => apply_automatic_test_mode_edit(&mut self.config.automatic_test_mode, message),
            SettingGroup::Logging => apply_logging_edit(&mut self.config.logging, message),
            SettingGroup::Update => apply_update_edit(&mut self.config.update, message),
            SettingGroup::Prime95Custom => apply_prime95_custom_edit(&mut self.config.prime95_custom, message),
            SettingGroup::Debug => apply_debug_edit(&mut self.config.debug, message),
            SettingGroup::NoSetting => {},
        }
    }
}


/// The decimal numeral of a signed number, with `-` before a negative one.
pub open spec fn signed_decimal(n: int) -> Seq<char> {
    if n < 0 {
        seq!['-'] + decimal((-n) as nat)
    } else {
        decimal(n as nat)
    }
}

/// The monitor after the lines `lines`, in order.
pub open spec fn apply_lines(m: MonitorView, lines: Seq<Seq<char>>) -> MonitorView
    decreases lines.len(),
{
    if lines.len() == 0 {
        m
    } else {
        apply_line(apply_lines(m, lines.drop_last()), lines.last())
    }
}

/// The log kept: when it holds more than 5000 lines, only the last 3000.
pub open spec fn bounded_log(ls: Seq<Seq<char>>) -> Seq<Seq<char>> {
    if ls.len() > 5000 {
        ls.skip(ls.len() - 3000)
    } else {
        ls
    }
}

/// The cores, all idle again with no counts.
pub open spec fn reset_cores(cs: Seq<CoreStatus>) -> Seq<CoreStatus> {
    Seq::new(
        cs.len(),
        |i: int| CoreStatus { id: cs[i].id, state: CoreState::Idle, error_count: 0, times_tested: 0 },
    )
}

/// The tags of a list of y-cruncher tests.
fn tag_chars(tests: &Vec<crate::model::YCruncherTest>) -> (r: Vec<Vec<char>>)
    ensures
        views(r@) == Seq::new(tests@.len(), |i: int| tests@[i].tag@),
{
    let mut r: Vec<Vec<char>> = Vec::new();
    let mut i: usize = 0;
    while i < tests.len()
        invariant
            i <= tests@.len(),
            r@.len() == i,
            forall|j: int| 0 <= j < i ==> #[trigger] r@[j]@ == tests@[j].tag@,
        decreases tests.len() - i,
    {
        r.push(chars_of(tests[i].tag));
        i = i + 1;
    }
    assert(views(r@) =~= Seq::new(tests@.len(), |i: int| tests@[i].tag@));
    r
}

fn mode_in(list: &Vec<YCruncherMode>, m: YCruncherMode) -> (r: bool)
    ensures
        r == list@.contains(m),
{
    let mut i: usize = 0;
    while i < list.len()
        invariant
            i <= list@.len(),
            forall|j: int| 0 <= j < i ==> list@[j] != m,
        decreases list.len() - i,
    {
        if list[i] == m {
            assert(list@[i as int] == m);
            return true;
        }
        i = i + 1;
    }
    false
}

fn message_text(label: &str, detail: &str) -> (r: String)
    ensures
        r@ == label@ + detail@,
{
    let mut out = chars_of(label);
    push_lit(&mut out, detail);
    string_of(&out)
}

/// Sets the program to run and drops the reference to another
/// configuration file, which would override these settings.
fn prepare_general(g: &mut GeneralConfig, program: &str)
    ensures
        final(g)@ == (GeneralView {
            stress_test_program: StressTestProgram::parse(program@),
            use_config_file: Seq::empty(),
            ..old(g)@
        }),
{
    g.stress_test_program = StressTestProgram::from_str(program);
    g.use_config_file = String::new();
}

/// Makes the y-cruncher settings fit the old or the new y-cruncher.
fn prepare_ycruncher(y: &mut YCruncherConfig, old_version: bool)
    ensures
        final(y)@ == prepared_ycruncher(old(y)@, old_version),
{
    let (known, defaults, modes) = if old_version {
        (YCruncherConfig::old_tests(), YCruncherConfig::old_default_tests(), YCruncherMode::old_modes())
    } else {
        (YCruncherConfig::new_tests(), YCruncherConfig::new_default_tests(), YCruncherMode::new_modes())
    };
    let tags = tag_chars(&known);
    proof {
        if old_version {
            assert(views(tags@) =~= YCruncherConfig::spec_old_tags());
        } else {
            assert(views(tags@) =~= YCruncherConfig::spec_new_tags());
        }
    }
    y.tests = normalize_tests(y.tests.as_str(), &tags, defaults);
    if !mode_in(&modes, y.mode) {
        y.mode = YCruncherMode::X86;
    }
}

impl AppState {
    /// The state at start-up, with the configuration that was found.
    pub fn new(config: CoreCyclerConfig, num_physical_cores: u32, preset_configs: Vec<String>) -> (r:
        AppState)
        ensures
            r.config@ == config@,
            r.config_section == 0,
            r.num_physical_cores == num_physical_cores,
            r.preset_configs@ == preset_configs@,
            !r.is_running,
            r.running_program@ == Seq::<char>::empty(),
            r.log_lines@.len() == 0,
            r.monitor.cores@.len() == num_physical_cores,
            forall|i: int|
                0 <= i < num_physical_cores ==> #[trigger] r.monitor.cores@[i] == (CoreStatus {
                    id: i as u32,
                    state: CoreState::Idle,
                    error_count: 0,
                    times_tested: 0,
                }),
            r.monitor.current_iteration == 0,
            r.monitor.status_text@ == "Ready"@,
            r.status_message is None,
    {
        AppState {
            config,
            config_section: 0,
            num_physical_cores,
            preset_configs,
            is_running: false,
            running_program: String::new(),
            log_lines: Vec::new(),
            monitor: MonitorState::new(num_physical_cores),
            status_message: None,
        }
    }

    /// Sets up the configuration for a run of `program`.
    fn prepare_run(&mut self, program: &str)
        ensures
            final(self)@ == (AppView {
                config: prepared_config(old(self)@.config, program@),
                ..old(self)@
            }),
    {
        prepare_general(&mut self.config.general, program);
        let p = chars_of(program);
        if eq_lit(&p, "YCRUNCHER_OLD") {
            prepare_ycruncher(&mut self.config.ycruncher, true);
        } else if eq_lit(&p, "YCRUNCHER") {
            prepare_ycruncher(&mut self.config.ycruncher, false);
        }
    }

    /// Handles a message: updates the state and says what outside work is
    /// due.
    pub fn update(&mut self, message: Message) -> (cmd: Command)
        ensures
            final(self)@ == next_state(old(self)@, message),
            cmd@ == command_for(old(self)@, message),
    {
        match message {
            Message::ConfigSectionChanged(i) => {
                self.config_section = i;
                Command::Nothing
            },
            Message::SaveConfig => Command::SaveConfig,
            Message::LoadConfig => Command::LoadConfig,
            Message::ResetConfig => {
                self.config = CoreCyclerConfig::default();
                self.status_message = Some("Config reset to defaults".to_owned());
                Command::Nothing
            },
            Message::RunProgram(p) => {
                if self.is_running {
                    Command::Nothing
                } else {
                    self.prepare_run(p.as_str());
                    Command::StartRun(p)
                }
            },
            Message::StopTest => {
                if self.is_running {
                    self.monitor.status_text = "Stopping...".to_owned();
                    Command::StopRunner
                } else {
                    Command::Nothing
                }
            },
            Message::Tick => {
                if self.is_running {
                    Command::PollRunner
                } else {
                    Command::Nothing
                }
            },
            Message::CopyLog => {
                let mut lines: Vec<Vec<char>> = Vec::new();
                let mut i: usize = 0;
                while i < self.log_lines.len()
                    invariant
                        i <= self.log_lines@.len(),
                        lines@.len() == i,
                        forall|j: int| 0 <= j < i ==> #[trigger] lines@[j]@ == self.log_lines@[j]@,
                    decreases self.log_lines.len() - i,
                {
                    lines.push(chars_of(self.log_lines[i].as_str()));
                    i = i + 1;
                }
                assert(views(lines@) =~= string_views(self.log_lines@));
                let text = join_exec(&lines, "\n");
                proof {
                    reveal_strlit("\n");
                    assert("\n"@ =~= seq!['\n']);
                }
                Command::CopyToClipboard(string_of(&text))
            },
            Message::OutputReceived(_) => Command::Nothing,
            Message::ProcessExited(_) => Command::Nothing,
            other => {
                self.apply_edit(other);
                Command::Nothing
            },
        }
    }

    /// Reports how saving the configuration went.
    pub fn save_finished(&mut self, result: Result<(), String>)
        ensures
            final(self)@ == (AppView {
                status_message: Some(
                    match result {
                        Ok(_) => "Config saved to config.ini"@,
                        Err(e) => "Save failed: "@ + e@,
                    },
                ),
                ..old(self)@
            }),
    {
        self.status_message = Some(
            match result {
                Ok(_) => "Config saved to config.ini".to_owned(),
                Err(e) => message_text("Save failed: ", e.as_str()),
            },
        );
    }

    /// Reports the text read from the configuration file `path`, or why it
    /// could not be read.
    pub fn load_finished(&mut self, path: &str, result: Result<String, String>)
        ensures
            final(self)@ == match result {
                Ok(content) => AppView {
                    config: load_view(ini_read(content@).entries),
                    status_message: Some("Loaded "@ + path@),
                    ..old(self)@
                },
                Err(e) => AppView { status_message: Some("Load failed: "@ + e@), ..old(self)@ },
            },
    {
        match result {
            Ok(content) => {
                self.config = load_config(content.as_str());
                self.status_message = Some(message_text("Loaded ", path));
            },
            Err(e) => {
                self.status_message = Some(message_text("Load failed: ", e.as_str()));
            },
        }
    }

    /// Reports that the configuration could not be saved before a run.
    pub fn run_save_failed(&mut self, error: &str)
        ensures
            final(self)@ == (AppView {
                status_message: Some("Failed to save config: "@ + error@),
                ..old(self)@
            }),
    {
        self.status_message = Some(message_text("Failed to save config: ", error));
    }

    /// Reports that CoreCycler could not be started.
    pub fn run_start_failed(&mut self, error: &str)
        ensures
            final(self)@ == (AppView {
                status_message: Some("Failed to start: "@ + error@),
                ..old(self)@
            }),
    {
        self.status_message = Some(message_text("Failed to start: ", error));
    }

    /// Reports that CoreCycler started for `program`: the log starts afresh
    /// and every core is idle again.
    pub fn run_started(&mut self, program: &str)
        ensures
            final(self)@ == (AppView {
                is_running: true,
                running_program: program@,
                log_lines: seq!["[GUI] Starting "@ + program@],
                monitor: MonitorView {
                    cores: reset_cores(old(self)@.monitor.cores),
                    current_iteration: 0,
                    status_text: "Starting "@ + program@ + "..."@,
                },
                status_message: None,
                ..old(self)@
            }),
    {
        self.is_running = true;
        self.running_program = program.to_owned();
        let mut log: Vec<String> = Vec::new();
        log.push(message_text("[GUI] Starting ", program));
        assert(string_views(log@) =~= seq!["[GUI] Starting "@ + program@]);
        self.log_lines = log;
        self.monitor.current_iteration = 0;
        let mut status = chars_of("Starting ");
        push_lit(&mut status, program);
        push_lit(&mut status, "...");
        self.monitor.status_text = string_of(&status);
        self.status_message = None;
        let mut cores: Vec<CoreStatus> = Vec::new();
        let mut i: usize = 0;
        while i < self.monitor.cores.len()
            invariant
                i <= self.monitor.cores@.len(),
                cores@.len() == i,
                forall|j: int| 0 <= j < i ==> #[trigger] cores@[j] == reset_cores(self.monitor.cores@)[j],
            decreases self.monitor.cores.len() - i,
        {
            let id = self.monitor.cores[i].id;
            cores.push(CoreStatus { id, state: CoreState::Idle, error_count: 0, times_tested: 0 });
            i = i + 1;
        }
        assert(cores@ =~= reset_cores(self.monitor.cores@));
        self.monitor.cores = cores;
    }

    /// Whether the counters leave room for `n` more lines of output.
    pub fn counters_fit(&self, n: usize) -> (r: bool)
        ensures
            r == (3 * n <= u32::MAX && tests_below(self.monitor.cores@, u32::MAX - 3 * n)
                && errors_below(self.monitor.cores@, u32::MAX - 2 * n)),
    {
        if n > 1431655765 {
            return false;
        }
        let t_bound: u32 = 0xffff_ffff - 3 * (n as u32);
        let e_bound: u32 = 0xffff_ffff - 2 * (n as u32);
        let mut i: usize = 0;
        while i < self.monitor.cores.len()
            invariant
                i <= self.monitor.cores@.len(),
                t_bound == u32::MAX - 3 * n,
                e_bound == u32::MAX - 2 * n,
                forall|j: int|
                    #![trigger self.monitor.cores@[j]]
                    0 <= j < i ==> self.monitor.cores@[j].times_tested < t_bound
                        && self.monitor.cores@[j].error_count < e_bound,
            decreases self.monitor.cores.len() - i,
        {
            let c = self.monitor.cores[i];
            if c.times_tested >= t_bound || c.error_count >= e_bound {
                return false;
            }
            i = i + 1;
        }
        true
    }

    /// Takes new lines of output: each updates the monitor, then all join
    /// the log, which keeps its last 3000 lines when it grows past 5000.
    pub fn receive_output(&mut self, lines: Vec<String>)
        requires
            3 * lines@.len() <= u32::MAX,
            tests_below(old(self)@.monitor.cores, u32::MAX - 3 * lines@.len()),
            errors_below(old(self)@.monitor.cores, u32::MAX - 2 * lines@.len()),
        ensures
            final(self)@ == (AppView {
                monitor: apply_lines(old(self)@.monitor, string_views(lines@)),
                log_lines: bounded_log(old(self)@.log_lines + string_views(lines@)),
                ..old(self)@
            }),
    {
        let ghost m0 = self.monitor@;
        let ghost lv = string_views(lines@);
        let ghost n = lines@.len();
        let mut i: usize = 0;
        assert(lv.take(0) =~= Seq::<Seq<char>>::empty());
        while i < lines.len()
            invariant
                i <= lines@.len() == n,
                lv == string_views(lines@),
                3 * n <= u32::MAX,
                self.monitor@ == apply_lines(m0, lv.take(i as int)),
                self@ == (AppView { monitor: self.monitor@, ..old(self)@ }),
                tests_below(self.monitor@.cores, u32::MAX - 3 * n + 3 * i),
                errors_below(self.monitor@.cores, u32::MAX - 2 * n + 2 * i),
            decreases lines.len() - i,
        {
            assert(lv.take(i + 1).drop_last() =~= lv.take(i as int));
            assert(lv.take(i + 1).last() == lines@[i as int]@);
            let ghost before = self.monitor@;
            proof {
                lemma_line_counters(
                    before,
                    lines@[i as int]@,
                    u32::MAX - 3 * n + 3 * i,
                    u32::MAX - 2 * n + 2 * i,
                );
            }
            self.monitor.parse_output_line(lines[i].as_str());
            i = i + 1;
        }
        assert(lv.take(n as int) =~= lv);
        let ghost old_log = string_views(self.log_lines@);
        let ghost mid = self@;
        let mut j: usize = 0;
        while j < lines.len()
            invariant
                j <= lines@.len() == n,
                lv == string_views(lines@),
                string_views(self.log_lines@) == old_log + lv.take(j as int),
                self@ == (AppView { log_lines: string_views(self.log_lines@), ..mid }),
            decreases lines.len() - j,
        {
            let ghost before = self.log_lines@;
            self.log_lines.push(lines[j].clone());
            assert(lv.take(j + 1) =~= lv.take(j as int).push(lines@[j as int]@));
            assert(string_views(self.log_lines@) =~= string_views(before).push(lines@[j as int]@));
            j = j + 1;
        }
        assert(lv.take(n as int) =~= lv);
        let len = self.log_lines.len();
        if len > 5000 {
            let mut kept: Vec<String> = Vec::new();
            let mut k: usize = len - 3000;
            assert(len >= 3000);
            while k < len
                invariant
                    len - 3000 <= k <= len == self.log_lines@.len(),
                    kept@.len() == k - (len - 3000),
                    forall|q: int|
                        0 <= q < kept@.len() ==> #[trigger] kept@[q]@ == self.log_lines@[q + len
                            - 3000]@,
                decreases len - k,
            {
                kept.push(self.log_lines[k].clone());
                k = k + 1;
            }
            let ghost all = string_views(self.log_lines@);
            assert(string_views(kept@) =~= all.skip(all.len() - 3000));
            self.log_lines = kept;
        }
    }

    /// Reports that the run ended with `code` after `elapsed`.
    pub fn process_exited(&mut self, code: i32, elapsed: &str)
        ensures
            final(self)@ == (AppView {
                is_running: false,
                monitor: MonitorView {
                    status_text: "Finished "@ + old(self)@.running_program + " after "@ + elapsed@
                        + " (exit code: "@ + signed_decimal(code as int) + ")"@,
                    ..old(self)@.monitor
                },
                ..old(self)@
            }),
    {
        let mut out = chars_of("Finished ");
        push_lit(&mut out, self.running_program.as_str());
        push_lit(&mut out, " after ");
        push_lit(&mut out, elapsed);
        push_lit(&mut out, " (exit code: ");
        let ghost before = out@;
        let wide = code as i64;
        if wide < 0 {
            out.push('-');
            push_decimal(&mut out, (-wide) as u64);
        } else {
            push_decimal(&mut out, wide as u64);
        }
        assert(out@ =~= before + signed_decimal(code as int));
        push_lit(&mut out, ")");
        self.monitor.status_text = string_of(&out);
        self.is_running = false;
    }
}


// ---------------------------------------------------------------------------
// Laws of the application state
// ---------------------------------------------------------------------------

/// No message starts or ends a run by itself: only the reports of the outside
/// work ([`AppState::run_started`], [`AppState::process_exited`]) do.
pub proof fn lemma_messages_keep_running(s: AppView, m: Message)
    ensures
        next_state(s, m).is_running == s.is_running,
        next_state(s, m).log_lines == s.log_lines,
{
}

/// The state with the configuration `c` and all else as in `s`.
pub open spec fn with_config(s: AppView, c: ConfigView) -> AppView {
    AppView { config: c, ..s }
}

/// Each message that edits the general settings of a test run sets its own setting from
/// the value given and changes nothing else.
pub proof fn lemma_general_run_messages(s: AppView, v: String, b: bool)
    ensures
        next_state(s, Message::GeneralUseConfigFile(v)) == with_config(
            s,
            ConfigView { general: GeneralView { use_config_file: v@, ..s.config.general }, ..s.config },
        ),
        next_state(s, Message::GeneralStressTestProgram(v)) == with_config(
            s,
            ConfigView { general: GeneralView { stress_test_program: StressTestProgram::parse(v@), ..s.config.general }, ..s.config },
        ),
        next_state(s, Message::GeneralRuntimePerCore(v)) == with_config(
            s,
            ConfigView { general: GeneralView { runtime_per_core: runtime_text(v@), ..s.config.general }, ..s.config },
        ),
        next_state(s, Message::GeneralSuspendPeriodically(b)) == with_config(
            s,
            ConfigView { general: GeneralView { suspend_periodically: b, ..s.config.general }, ..s.config },
        ),
        next_state(s, Message::GeneralCoreTestOrder(v)) == with_config(
            s,
            ConfigView { general: GeneralView { core_test_order: CoreTestOrderView::parse(v@), ..s.config.general }, ..s.config },
        ),
        next_state(s, Message::GeneralNumberOfThreads(v)) == with_config(
            s,
            ConfigView { general: GeneralView { number_of_threads: match spec_parse_u8(v@) { Some(n) => n, None => 1u8, }, ..s.config.general }, ..s.config },
        ),
        next_state(s, Message::GeneralAssignBothVCores(b)) == with_config(
            s,
            ConfigView { general: GeneralView { assign_both_virtual_cores: b, ..s.config.general }, ..s.config },
        ),
        next_state(s, Message::GeneralMaxIterations(v)) == with_config(
            s,
            ConfigView { general: GeneralView { max_iterations: v@, ..s.config.general }, ..s.config },
        ),
        next_state(s, Message::GeneralRestartPerCore(b)) == with_config(
            s,
            ConfigView { general: GeneralView { restart_test_program_for_each_core: b, ..s.config.general }, ..s.config },
        ),
        next_state(s, Message::GeneralDelayBetweenCores(v)) == with_config(
            s,
            ConfigView { general: GeneralView { delay_between_cores: v@, ..s.config.general }, ..s.config },
        ),
{
}

/// Each message that edits the general settings on cores and errors sets its own setting from
/// the value given and changes nothing else.
pub proof fn lemma_general_errors_messages(s: AppView, v: String, b: bool)
    ensures
        next_state(s, Message::GeneralSkipCoreOnError(b)) == with_config(
            s,
            ConfigView { general: GeneralView { skip_core_on_error: b, ..s.config.general }, ..s.config },
        ),
        next_state(s, Message::GeneralStopOnError(b)) == with_config(
            s,
            ConfigView { general: GeneralView { stop_on_error: b, ..s.config.general }, ..s.config },
        ),
        next_state(s, Message::GeneralCoresToIgnore(v)) == with_config(
            s,
            ConfigView { general: GeneralView { cores_to_ignore: v@, ..s.config.general }, ..s.config },
        ),
        next_state(s, Message::GeneralBeepOnError(b)) == with_config(
            s,
            ConfigView { general: GeneralView { beep_on_error: b, ..s.config.general }, ..s.config },
        ),
        next_state(s, Message::GeneralFlashOnError(b)) == with_config(
            s,
            ConfigView { general: GeneralView { flash_on_error: b, ..s.config.general }, ..s.config },
        ),
        next_state(s, Message::GeneralLookForWhea(b)) == with_config(
            s,
            ConfigView { general: GeneralView { look_for_whea_errors: b, ..s.config.general }, ..s.config },
        ),
        next_state(s, Message::GeneralTreatWheaAsError(b)) == with_config(
            s,
            ConfigView { general: GeneralView { treat_whea_warning_as_error: b, ..s.config.general }, ..s.config },
        ),
{
}

/// Each message that edits the Prime95 settings sets its own setting from
/// the value given and changes nothing else.
pub proof fn lemma_prime95_messages(s: AppView, v: String)
    ensures
        next_state(s, Message::Prime95Mode(v)) == with_config(
            s,
            ConfigView { prime95: Prime95View { mode: Prime95Mode::parse(v@), ..s.config.prime95 }, ..s.config },
        ),
        next_state(s, Message::Prime95FFTSize(v)) == with_config(
            s,
            ConfigView { prime95: Prime95View { fft_size: FFTSizeView::parse(v@), ..s.config.prime95 }, ..s.config },
        ),
{
}

/// Each message that edits the y-cruncher settings sets its own setting from
/// the value given and changes nothing else.
pub proof fn lemma_ycruncher_messages(s: AppView, v: String, b: bool, name: String)
    ensures
        next_state(s, Message::YCruncherMode(v)) == with_config(
            s,
            ConfigView { ycruncher: YCruncherView { mode: YCruncherMode::parse(before(v@, " ("@)), ..s.config.ycruncher }, ..s.config },
        ),
        next_state(s, Message::YCruncherTests(v)) == with_config(
            s,
            ConfigView { ycruncher: YCruncherView { tests: v@, ..s.config.ycruncher }, ..s.config },
        ),
        next_state(s, Message::YCruncherToggleTest(name, b)) == with_config(
            s,
            ConfigView { ycruncher: YCruncherView { tests: toggled_tests(s.config.ycruncher.tests, name@, b), ..s.config.ycruncher }, ..s.config },
        ),
        next_state(s, Message::YCruncherTestDuration(v)) == with_config(
            s,
            ConfigView { ycruncher: YCruncherView { test_duration: v@, ..s.config.ycruncher }, ..s.config },
        ),
        next_state(s, Message::YCruncherMemory(v)) == with_config(
            s,
            ConfigView { ycruncher: YCruncherView { memory: v@, ..s.config.ycruncher }, ..s.config },
        ),
        next_state(s, Message::YCruncherLoggingWrapper(b)) == with_config(
            s,
            ConfigView { ycruncher: YCruncherView { enable_logging_wrapper: b, ..s.config.ycruncher }, ..s.config },
        ),
{
}

/// Each message that edits the Aida64 settings sets its own setting from
/// the value given and changes nothing else.
pub proof fn lemma_aida64_messages(s: AppView, v: String, b: bool, name: String)
    ensures
        next_state(s, Message::Aida64Mode(v)) == with_config(
            s,
            ConfigView { aida64: Aida64View { mode: v@, ..s.config.aida64 }, ..s.config },
        ),
        next_state(s, Message::Aida64ToggleModeComponent(name, b)) == with_config(
            s,
            ConfigView { aida64: Aida64View { mode: toggled_aida_mode(s.config.aida64.mode, name@, b), ..s.config.aida64 }, ..s.config },
        ),
        next_state(s, Message::Aida64UseAVX(b)) == with_config(
            s,
            ConfigView { aida64: Aida64View { use_avx: b, ..s.config.aida64 }, ..s.config },
        ),
        next_state(s, Message::Aida64MaxMemory(v)) == with_config(
            s,
            ConfigView { aida64: Aida64View { max_memory: v@, ..s.config.aida64 }, ..s.config },
        ),
{
}

/// Each message that edits the Linpack settings sets its own setting from
/// the value given and changes nothing else; choosing Linpack 2021 or 2024,
/// which run only in the `FASTEST` mode, also sets that mode.
pub proof fn lemma_linpack_messages(s: AppView, v: String)
    ensures
        next_state(s, Message::LinpackVersion(v)) == with_config(
            s,
            ConfigView {
                linpack: LinpackView {
                    version: LinpackVersion::parse(v@),
                    mode: if LinpackVersion::parse(v@) == LinpackVersion::V2021 || LinpackVersion::parse(v@)
                        == LinpackVersion::V2024 {
                        LinpackMode::Fastest
                    } else {
                        s.config.linpack.mode
                    },
                    ..s.config.linpack
                },
                ..s.config
            },
        ),
        next_state(s, Message::LinpackModeChanged(v)) == with_config(
            s,
            ConfigView { linpack: LinpackView { mode: LinpackMode::parse(v@), ..s.config.linpack }, ..s.config },
        ),
        next_state(s, Message::LinpackMemory(v)) == with_config(
            s,
            ConfigView { linpack: LinpackView { memory: v@, ..s.config.linpack }, ..s.config },
        ),
{
}

/// Each message that edits the automatic test mode settings sets its own setting from
/// the value given and changes nothing else.
#[verifier::spinoff_prover]
#[verifier::rlimit(40)]
pub proof fn lemma_automatic_test_mode_messages(s: AppView, v: String, b: bool)
    ensures
        next_state(s, Message::AutoEnableAdjustment(b)) == with_config(
            s,
            ConfigView { automatic_test_mode: AutomaticTestModeView { enable_automatic_adjustment: b, ..s.config.automatic_test_mode }, ..s.config },
        ),
        next_state(s, Message::AutoStartValues(v)) == with_config(
            s,
            ConfigView { automatic_test_mode: AutomaticTestModeView { start_values: v@, ..s.config.automatic_test_mode }, ..s.config },
        ),
        next_state(s, Message::AutoMaxValue(v)) == with_config(
            s,
            ConfigView { automatic_test_mode: AutomaticTestModeView { max_value: v@, ..s.config.automatic_test_mode }, ..s.config },
        ),
        next_state(s, Message::AutoIncrementBy(v)) == with_config(
            s,
            ConfigView { automatic_test_mode: AutomaticTestModeView { increment_by: v@, ..s.config.automatic_test_mode }, ..s.config },
        ),
        next_state(s, Message::AutoVoltageOnlyTested(b)) == with_config(
            s,
            ConfigView { automatic_test_mode: AutomaticTestModeView { set_voltage_only_for_tested_core: b, ..s.config.automatic_test_mode }, ..s.config },
        ),
        next_state(s, Message::AutoRepeatCoreOnError(b)) == with_config(
            s,
            ConfigView { automatic_test_mode: AutomaticTestModeView { repeat_core_on_error: b, ..s.config.automatic_test_mode }, ..s.config },
        ),
        next_state(s, Message::AutoEnableResume(b)) == with_config(
            s,
            ConfigView { automatic_test_mode: AutomaticTestModeView { enable_resume_after_unexpected_exit: b, ..s.config.automatic_test_mode }, ..s.config },
        ),
        next_state(s, Message::AutoWaitBeforeResume(v)) == with_config(
            s,
            ConfigView { automatic_test_mode: AutomaticTestModeView { wait_before_automatic_resume: v@, ..s.config.automatic_test_mode }, ..s.config },
        ),
        next_state(s, Message::AutoCreateRestore(b)) == with_config(
            s,
            ConfigView { automatic_test_mode: AutomaticTestModeView { create_system_restore_point: b, ..s.config.automatic_test_mode }, ..s.config },
        ),
        next_state(s, Message::AutoAskRestore(b)) == with_config(
            s,
            ConfigView { automatic_test_mode: AutomaticTestModeView { ask_for_system_restore_point_creation: b, ..s.config.automatic_test_mode }, ..s.config },
        ),
{
}

/// Each message that edits the logging settings sets its own setting from
/// the value given and changes nothing else.
pub proof fn lemma_logging_messages(s: AppView, v: String, b: bool)
    ensures
        next_state(s, Message::LogName(v)) == with_config(
            s,
            ConfigView { logging: LoggingView { name: v@, ..s.config.logging }, ..s.config },
        ),
        next_state(s, Message::LogLevel(v)) == with_config(
            s,
            ConfigView { logging: LoggingView { log_level: v@, ..s.config.logging }, ..s.config },
        ),
        next_state(s, Message::LogUseEventLog(b)) == with_config(
            s,
            ConfigView { logging: LoggingView { use_windows_event_log: b, ..s.config.logging }, ..s.config },
        ),
        next_state(s, Message::LogFlushCache(b)) == with_config(
            s,
            ConfigView { logging: LoggingView { flush_disk_write_cache: b, ..s.config.logging }, ..s.config },
        ),
{
}

/// Each message that edits the update settings sets its own setting from
/// the value given and changes nothing else.
pub proof fn lemma_update_messages(s: AppView, v: String, b: bool)
    ensures
        next_state(s, Message::UpdateEnableCheck(b)) == with_config(
            s,
            ConfigView { update: UpdateView { enable_update_check: b, ..s.config.update }, ..s.config },
        ),
        next_state(s, Message::UpdateFrequency(v)) == with_config(
            s,
            ConfigView { update: UpdateView { update_check_frequency: v@, ..s.config.update }, ..s.config },
        ),
{
}

/// Each message that edits the Prime95 custom settings sets its own setting from
/// the value given and changes nothing else.
pub proof fn lemma_prime95_custom_messages(s: AppView, v: String, b: bool)
    ensures
        next_state(s, Message::P95CustomAVX(b)) == with_config(
            s,
            ConfigView { prime95_custom: Prime95CustomView { cpu_supports_avx: b, ..s.config.prime95_custom }, ..s.config },
        ),
        next_state(s, Message::P95CustomAVX2(b)) == with_config(
            s,
            ConfigView { prime95_custom: Prime95CustomView { cpu_supports_avx2: b, ..s.config.prime95_custom }, ..s.config },
        ),
        next_state(s, Message::P95CustomFMA3(b)) == with_config(
            s,
            ConfigView { prime95_custom: Prime95CustomView { cpu_supports_fma3: b, ..s.config.prime95_custom }, ..s.config },
        ),
        next_state(s, Message::P95CustomAVX512(b)) == with_config(
            s,
            ConfigView { prime95_custom: Prime95CustomView { cpu_supports_avx512: b, ..s.config.prime95_custom }, ..s.config },
        ),
        next_state(s, Message::P95CustomMinFFT(v)) == with_config(
            s,
            ConfigView { prime95_custom: Prime95CustomView { min_torture_fft: v@, ..s.config.prime95_custom }, ..s.config },
        ),
        next_state(s, Message::P95CustomMaxFFT(v)) == with_config(
            s,
            ConfigView { prime95_custom: Prime95CustomView { max_torture_fft: v@, ..s.config.prime95_custom }, ..s.config },
        ),
        next_state(s, Message::P95CustomMem(v)) == with_config(
            s,
            ConfigView { prime95_custom: Prime95CustomView { torture_mem: v@, ..s.config.prime95_custom }, ..s.config },
        ),
        next_state(s, Message::P95CustomTime(v)) == with_config(
            s,
            ConfigView { prime95_custom: Prime95CustomView { torture_time: v@, ..s.config.prime95_custom }, ..s.config },
        ),
{
}

/// Each message that edits the debug settings sets its own setting from
/// the value given and changes nothing else.
pub proof fn lemma_debug_messages(s: AppView, v: String, b: bool)
    ensures
        next_state(s, Message::DebugDisableCpuCheck(b)) == with_config(
            s,
            ConfigView { debug: DebugView { disable_cpu_utilization_check: b, ..s.config.debug }, ..s.config },
        ),
        next_state(s, Message::DebugUsePerfCounters(b)) == with_config(
            s,
            ConfigView { debug: DebugView { use_windows_perf_counters: b, ..s.config.debug }, ..s.config },
        ),
        next_state(s, Message::DebugEnableFreqCheck(b)) == with_config(
            s,
            ConfigView { debug: DebugView { enable_cpu_frequency_check: b, ..s.config.debug }, ..s.config },
        ),
        next_state(s, Message::DebugTickInterval(v)) == with_config(
            s,
            ConfigView { debug: DebugView { tick_interval: v@, ..s.config.debug }, ..s.config },
        ),
        next_state(s, Message::DebugDelayFirstCheck(v)) == with_config(
            s,
            ConfigView { debug: DebugView { delay_first_error_check: v@, ..s.config.debug }, ..s.config },
        ),
        next_state(s, Message::DebugPriority(v)) == with_config(
            s,
            ConfigView { debug: DebugView { stress_test_program_priority: ProcessPriority::parse(v@), ..s.config.debug }, ..s.config },
        ),
        next_state(s, Message::DebugShowWindow(b)) == with_config(
            s,
            ConfigView { debug: DebugView { stress_test_program_window_to_foreground: b, ..s.config.debug }, ..s.config },
        ),
        next_state(s, Message::DebugSuspensionTime(v)) == with_config(
            s,
            ConfigView { debug: DebugView { suspension_time: v@, ..s.config.debug }, ..s.config },
        ),
        next_state(s, Message::DebugSuspensionMode(v)) == with_config(
            s,
            ConfigView { debug: DebugView { mode_to_use_for_suspension: SuspensionMode::parse(v@), ..s.config.debug }, ..s.config },
        ),
{
}

/// Starting a run of y-cruncher keeps the configured mode when the chosen
/// version has it and runs `00-x86` otherwise: the new y-cruncher lacks only
/// `11-BD1` and `20-ZN3`, the old one only `12-BD2` and `24-ZN5`.  The test
/// list keeps the tests that the chosen version knows (see
/// `lemma_normalized_tests_kept`), its default tests when none is left.  A
/// run of another program keeps the y-cruncher settings as they are.
pub proof fn lemma_run_ycruncher_mode(s: AppView, p: String)
    requires
        !s.is_running,
    ensures
        ({
            let y = s.config.ycruncher;
            let r = next_state(s, Message::RunProgram(p)).config.ycruncher;
            &&& p@ == "YCRUNCHER"@ ==> r.mode == (if y.mode == YCruncherMode::BD1 || y.mode
                == YCruncherMode::ZN3 {
                YCruncherMode::X86
            } else {
                y.mode
            })
            &&& p@ == "YCRUNCHER_OLD"@ ==> r.mode == (if y.mode == YCruncherMode::BD2 || y.mode
                == YCruncherMode::ZN5 {
                YCruncherMode::X86
            } else {
                y.mode
            })
            &&& p@ == "YCRUNCHER"@ ==> r.tests == normalized_tests(
                y.tests,
                YCruncherConfig::spec_new_tags(),
                YCruncherConfig::spec_new_default_tests(),
            )
            &&& p@ == "YCRUNCHER_OLD"@ ==> r.tests == normalized_tests(
                y.tests,
                YCruncherConfig::spec_old_tags(),
                YCruncherConfig::spec_old_default_tests(),
            )
            &&& p@ != "YCRUNCHER"@ && p@ != "YCRUNCHER_OLD"@ ==> r == y
        }),
{
    reveal_strlit("YCRUNCHER");
    reveal_strlit("YCRUNCHER_OLD");
    assert("YCRUNCHER"@.len() != "YCRUNCHER_OLD"@.len());
    let m = s.config.ycruncher.mode;
    let nm = YCruncherMode::spec_new_modes();
    let om = YCruncherMode::spec_old_modes();
    if m == YCruncherMode::BD1 || m == YCruncherMode::ZN3 {
        assert(!nm.contains(m)) by {
            if nm.contains(m) {
                let i = choose|i: int| 0 <= i < nm.len() && nm[i] == m;
                assert(0 <= i < 15);
            }
        }
    } else {
        assert(nm.contains(m)) by {
            match m {
                YCruncherMode::Auto => assert(nm[0] == m),
                YCruncherMode::X86 => assert(nm[1] == m),
                YCruncherMode::P4P => assert(nm[2] == m),
                YCruncherMode::A64 => assert(nm[3] == m),
                YCruncherMode::NHM => assert(nm[4] == m),
                YCruncherMode::SNB => assert(nm[5] == m),
                YCruncherMode::BD2 => assert(nm[6] == m),
                YCruncherMode::HSW => assert(nm[7] == m),
                YCruncherMode::BDW => assert(nm[8] == m),
                YCruncherMode::SKX => assert(nm[9] == m),
                YCruncherMode::ZN1 => assert(nm[10] == m),
                YCruncherMode::CNL => assert(nm[11] == m),
                YCruncherMode::ZN2 => assert(nm[12] == m),
                YCruncherMode::ZN4 => assert(nm[13] == m),
                YCruncherMode::ZN5 => assert(nm[14] == m),
                _ => {},
            }
        }
    }
    if m == YCruncherMode::BD2 || m == YCruncherMode::ZN5 {
        assert(!om.contains(m)) by {
            if om.contains(m) {
                let i = choose|i: int| 0 <= i < om.len() && om[i] == m;
                assert(0 <= i < 15);
            }
        }
    } else {
        assert(om.contains(m)) by {
            match m {
                YCruncherMode::Auto => assert(om[0] == m),
                YCruncherMode::X86 => assert(om[1] == m),
                YCruncherMode::P4P => assert(om[2] == m),
                YCruncherMode::A64 => assert(om[3] == m),
                YCruncherMode::NHM => assert(om[4] == m),
                YCruncherMode::BD1 => assert(om[5] == m),
                YCruncherMode::SNB => assert(om[6] == m),
                YCruncherMode::HSW => assert(om[7] == m),
                YCruncherMode::BDW => assert(om[8] == m),
                YCruncherMode::SKX => assert(om[9] == m),
                YCruncherMode::ZN1 => assert(om[10] == m),
                YCruncherMode::CNL => assert(om[11] == m),
                YCruncherMode::ZN2 => assert(om[12] == m),
                YCruncherMode::ZN3 => assert(om[13] == m),
                YCruncherMode::ZN4 => assert(om[14] == m),
                _ => {},
            }
        }
    }
}

/// The messages that are no setting: RESET puts back the default
/// configuration and says so; STOP during a run shows `Stopping...` and asks
/// the runner to stop, and does nothing otherwise; choosing a section of the
/// editor changes only that; SAVE, LOAD, COPY and the tick change nothing
/// themselves and ask for saving, loading, copying the log joined by line
/// breaks, and polling the runner during a run.
pub proof fn lemma_control_messages(s: AppView, i: usize)
    ensures
        next_state(s, Message::ResetConfig) == (AppView {
            config: default_config(),
            status_message: Some("Config reset to defaults"@),
            ..s
        }),
        command_for(s, Message::ResetConfig) == CommandView::Nothing,
        s.is_running ==> next_state(s, Message::StopTest) == (AppView {
            monitor: MonitorView { status_text: "Stopping..."@, ..s.monitor },
            ..s
        }) && command_for(s, Message::StopTest) == CommandView::StopRunner,
        !s.is_running ==> next_state(s, Message::StopTest) == s && command_for(s, Message::StopTest)
            == CommandView::Nothing,
        next_state(s, Message::ConfigSectionChanged(i)) == (AppView { config_section: i, ..s }),
        next_state(s, Message::SaveConfig) == s,
        command_for(s, Message::SaveConfig) == CommandView::SaveConfig,
        next_state(s, Message::LoadConfig) == s,
        command_for(s, Message::LoadConfig) == CommandView::LoadConfig,
        next_state(s, Message::CopyLog) == s,
        command_for(s, Message::CopyLog) == CommandView::CopyToClipboard(join(s.log_lines, seq!['\n'])),
        next_state(s, Message::Tick) == s,
        command_for(s, Message::Tick) == (if s.is_running {
            CommandView::PollRunner
        } else {
            CommandView::Nothing
        }),
{
}

/// However many lines of output arrive, at most one core is under test if
/// that held before.
pub proof fn lemma_lines_keep_one_testing(m: MonitorView, lines: Seq<Seq<char>>)
    requires
        at_most_one_testing(m.cores),
    ensures
        at_most_one_testing(apply_lines(m, lines).cores),
    decreases lines.len(),
{
    if lines.len() > 0 {
        lemma_lines_keep_one_testing(m, lines.drop_last());
        lemma_line_keeps_one_testing(apply_lines(m, lines.drop_last()), lines.last());
    }
}

/// Checking or unchecking core `id` changes the list of cores to ignore
/// alone: the list is written back as its numbers joined by `, `, it holds
/// `id` exactly when the core was checked and every other core as before,
/// and a list that rose strictly still does.
pub proof fn lemma_toggle_core_ignore(s: AppView, id: u32, checked: bool)
    ensures
        ({
            let t = next_state(s, Message::ToggleCoreIgnore(id, checked));
            let prev = core_list(s.config.general.cores_to_ignore);
            let next = core_list(t.config.general.cores_to_ignore);
            &&& t.config.general.cores_to_ignore == cores_text(next)
            &&& next.to_set() == (if checked {
                prev.to_set().insert(id)
            } else {
                prev.to_set().remove(id)
            })
            &&& strictly_ascending(prev) ==> strictly_ascending(next)
            &&& t == (AppView {
                config: ConfigView {
                    general: GeneralView {
                        cores_to_ignore: t.config.general.cores_to_ignore,
                        ..s.config.general
                    },
                    ..s.config
                },
                ..s
            })
        }),
{
    lemma_toggled_core_list(s.config.general.cores_to_ignore, id, checked);
}

/// RUN while nothing runs sets the program, drops the reference to another
/// configuration file and asks to start the run; while a run is going on it
/// does nothing.
pub proof fn lemma_run_program(s: AppView, p: String)
    ensures
        !s.is_running ==> {
            &&& next_state(s, Message::RunProgram(p)).config.general.stress_test_program
                == StressTestProgram::parse(p@)
            &&& next_state(s, Message::RunProgram(p)).config.general.use_config_file.len() == 0
            &&& command_for(s, Message::RunProgram(p)) == CommandView::StartRun(p@)
        },
        s.is_running ==> next_state(s, Message::RunProgram(p)) == s && command_for(
            s,
            Message::RunProgram(p),
        ) == CommandView::Nothing,
{
}

/// The default test lists hold known tests only.
proof fn lemma_default_tests_known()
    ensures
        forall|i: int|
            0 <= i < word_list(YCruncherConfig::spec_new_default_tests()).len()
                ==> YCruncherConfig::spec_new_tags().contains(
                #[trigger] word_list(YCruncherConfig::spec_new_default_tests())[i],
            ),
        forall|i: int|
            0 <= i < word_list(YCruncherConfig::spec_old_default_tests()).len()
                ==> YCruncherConfig::spec_old_tags().contains(
                #[trigger] word_list(YCruncherConfig::spec_old_default_tests())[i],
            ),
{
    reveal_strlit(", ");
    reveal_strlit("BKT, BBP, SFTv4, SNT, SVT, FFTv4, N63, VT3");
    reveal_strlit("BKT, BBP, SFT, FFT, N32, N64, HNT, VST");
    reveal_strlit("BKT");
    reveal_strlit("BBP");
    reveal_strlit("SFTv4");
    reveal_strlit("SNT");
    reveal_strlit("SVT");
    reveal_strlit("FFTv4");
    reveal_strlit("N63");
    reveal_strlit("VT3");
    reveal_strlit("SFT");
    reveal_strlit("FFT");
    reveal_strlit("N32");
    reveal_strlit("N64");
    reveal_strlit("HNT");
    reveal_strlit("VST");
    reveal_strlit("C17");
    reveal_with_fuel(join, 9);
    let new_list = seq!["BKT"@, "BBP"@, "SFTv4"@, "SNT"@, "SVT"@, "FFTv4"@, "N63"@, "VT3"@];
    let old_list = seq!["BKT"@, "BBP"@, "SFT"@, "FFT"@, "N32"@, "N64"@, "HNT"@, "VST"@];
    assert(YCruncherConfig::spec_new_default_tests() =~= join(new_list, ", "@));
    assert(YCruncherConfig::spec_old_default_tests() =~= join(old_list, ", "@));
    assert(all_plain(new_list)) by {
        assert forall|i: int| 0 <= i < new_list.len() implies plain_item(#[trigger] new_list[i]) by {
            assert(is_digit(new_list[i][0]) || (65 <= (new_list[i][0] as u32) <= 90));
        }
    }
    assert(all_plain(old_list)) by {
        assert forall|i: int| 0 <= i < old_list.len() implies plain_item(#[trigger] old_list[i]) by {
            assert(is_digit(old_list[i][0]) || (65 <= (old_list[i][0] as u32) <= 90));
        }
    }
    lemma_word_list_join(new_list);
    lemma_word_list_join(old_list);
    let nt = YCruncherConfig::spec_new_tags();
    let ot = YCruncherConfig::spec_old_tags();
    assert forall|i: int| 0 <= i < new_list.len() implies nt.contains(#[trigger] new_list[i]) by {
        assert(new_list[i] == nt[i]);
    }
    assert forall|i: int| 0 <= i < old_list.len() implies ot.contains(#[trigger] old_list[i]) by {
        assert(old_list[i] == ot[i]);
    }
}

/// A run of the new or the old y-cruncher starts with only tests and a mode
/// that this version knows, so the script does not stop on an unknown one.
pub proof fn lemma_run_ycruncher_known(s: AppView, p: String)
    requires
        !s.is_running,
        p@ == "YCRUNCHER"@ || p@ == "YCRUNCHER_OLD"@,
    ensures
        ({
            let y = next_state(s, Message::RunProgram(p)).config.ycruncher;
            let old_version = p@ == "YCRUNCHER_OLD"@;
            let tags = if old_version {
                YCruncherConfig::spec_old_tags()
            } else {
                YCruncherConfig::spec_new_tags()
            };
            let modes = if old_version {
                YCruncherMode::spec_old_modes()
            } else {
                YCruncherMode::spec_new_modes()
            };
            &&& forall|i: int|
                0 <= i < word_list(y.tests).len() ==> tags.contains(#[trigger] word_list(y.tests)[i])
            &&& modes.contains(y.mode)
        }),
{
    reveal_strlit("YCRUNCHER");
    reveal_strlit("YCRUNCHER_OLD");
    lemma_default_tests_known();
    let c = s.config;
    let old_version = p@ == "YCRUNCHER_OLD"@;
    if old_version {
        assert(p@ != "YCRUNCHER"@);
        lemma_normalized_tests_known(
            c.ycruncher.tests,
            YCruncherConfig::spec_old_tags(),
            YCruncherConfig::spec_old_default_tests(),
        );
        assert(YCruncherMode::spec_old_modes()[1] == YCruncherMode::X86);
    } else {
        lemma_normalized_tests_known(
            c.ycruncher.tests,
            YCruncherConfig::spec_new_tags(),
            YCruncherConfig::spec_new_default_tests(),
        );
        assert(YCruncherMode::spec_new_modes()[1] == YCruncherMode::X86);
    }
}

/// Choosing Linpack 2021 or 2024 locks the mode to FASTEST.
pub proof fn lemma_linpack_version_locks_mode(s: AppView, v: String)
    ensures
        ({
            let l = next_state(s, Message::LinpackVersion(v)).config.linpack;
            &&& l.version == LinpackVersion::parse(v@)
            &&& (l.version == LinpackVersion::V2021 || l.version == LinpackVersion::V2024) ==> l.mode
                == LinpackMode::Fastest
            &&& !(l.version == LinpackVersion::V2021 || l.version == LinpackVersion::V2024) ==> l.mode
                == s.config.linpack.mode
        }),
{
}

/// The log keeps at most 5000 lines, and what it keeps are the newest ones.
pub proof fn lemma_log_bounded(ls: Seq<Seq<char>>)
    ensures
        bounded_log(ls).len() <= 5000,
        bounded_log(ls) == ls.skip(ls.len() - bounded_log(ls).len()),
{
    if ls.len() <= 5000 {
        assert(ls.skip(0) =~= ls);
    }
}
} // verus!
