use corecycler_gui::monitor::{
    extract_core_number, extract_number_after, first_shown_line, format_elapsed, line_tone,
    state_label, CoreState, LineTone, MonitorState,
};

#[test]
fn numbers_after_keywords() {
    assert_eq!(extract_number_after("12:00:00 - Iteration 12/100", "Iteration "), Some(12));
    assert_eq!(extract_number_after("Set to Core 7 (CPU 14)", "Set to Core "), Some(7));
    assert_eq!(extract_number_after("Iteration x7y", "Iteration "), Some(7));
    assert_eq!(extract_number_after("no number", "Iteration "), None);
    assert_eq!(extract_number_after("Iteration none", "Iteration "), None);
    assert_eq!(extract_number_after("Iteration 99999999999", "Iteration "), None);
}

#[test]
fn core_numbers_follow_core() {
    assert_eq!(extract_core_number("Core 7 (CPU 14) has thrown an error"), Some(7));
    assert_eq!(extract_core_number("Set to Core 12 (CPU 3)"), Some(12));
    assert_eq!(extract_core_number("core 7 lower case"), None);
    assert_eq!(extract_core_number("Core x"), None);
}

#[test]
fn a_run_updates_the_cores() {
    let mut m = MonitorState::new(4);
    assert_eq!(m.cores.len(), 4);
    assert_eq!(m.status_text, "Ready");
    m.parse_output_line("12:00:00 - Iteration 1");
    assert_eq!(m.current_iteration, 1);
    assert_eq!(m.status_text, "Iteration 1");
    m.parse_output_line("12:00:01 - Set to Core 2 (CPU 4)");
    assert_eq!(m.cores[2].state, CoreState::Testing);
    assert_eq!(m.status_text, "Testing Core 2");
    m.parse_output_line("[LOG] 12:06:01 - Test completed in 00h06m00s");
    assert_eq!(m.cores[2].state, CoreState::Passed);
    assert_eq!(m.cores[2].times_tested, 1);
    m.parse_output_line("12:06:02 - Set to Core 1 (CPU 2)");
    m.parse_output_line("12:07:00 - Core 1 (CPU 2) has thrown an error");
    assert_eq!(m.cores[1].state, CoreState::Error);
    assert_eq!(m.cores[1].error_count, 1);
    m.parse_output_line("12:07:01 - There was a WHEA error while testing Core 1");
    assert_eq!(m.cores[1].error_count, 2);
    m.parse_output_line("12:08:00 - Core 3 (CPU 6) has previously thrown an error, skipping");
    assert_eq!(m.cores[3].state, CoreState::Skipped);
    m.parse_output_line("12:09:00 - Set to Core 0 (CPU 0)");
    m.parse_output_line("No core has thrown an error");
    assert_eq!(m.cores[0].state, CoreState::Passed);
    assert_eq!(m.cores[0].times_tested, 1);
    m.parse_output_line("Progress 3/4 | Iteration 2/10 | Runtime 00:15:00");
    assert_eq!(m.current_iteration, 2);
    assert_eq!(m.status_text, "Progress 3/4 | Iteration 2/10 | Runtime 00:15:00");
}

#[test]
fn unknown_core_and_checks_change_nothing() {
    let mut m = MonitorState::new(2);
    m.parse_output_line("Set to Core 9 (CPU 18)");
    assert_eq!(m.status_text, "Ready");
    m.parse_output_line("Checking for stress test errors");
    m.parse_output_line("Looking for new WHEA errors");
    assert_eq!(m.cores[0].state, CoreState::Idle);
    assert_eq!(m.cores[1].state, CoreState::Idle);
    assert_eq!(m.cores[0].error_count, 0);
}

#[test]
fn elapsed_time_formats() {
    assert_eq!(format_elapsed(3725), "1h 02m 05s");
    assert_eq!(format_elapsed(3600), "1h 00m 00s");
    assert_eq!(format_elapsed(65), "1m 05s");
    assert_eq!(format_elapsed(5), "5s");
    assert_eq!(format_elapsed(0), "0s");
}

#[test]
fn line_tones() {
    assert_eq!(line_tone("No core has thrown an error"), LineTone::Success);
    assert_eq!(line_tone("Core 1 has thrown an error"), LineTone::Error);
    assert_eq!(line_tone("WHEA error while testing"), LineTone::Warning);
    assert_eq!(line_tone("Checking for stress test errors"), LineTone::Success);
    assert_eq!(line_tone("No new WHEA error"), LineTone::Success);
    assert_eq!(line_tone("[STDERR] something"), LineTone::Muted);
    assert_eq!(line_tone("12:00 - Iteration 3"), LineTone::Accent);
    assert_eq!(line_tone("Set to Core 2"), LineTone::Primary);
    assert_eq!(line_tone("plain"), LineTone::Secondary);
}

#[test]
fn core_labels_and_shown_lines() {
    assert_eq!(state_label(CoreState::Idle), "IDLE");
    assert_eq!(state_label(CoreState::Testing), "TESTING");
    assert_eq!(state_label(CoreState::Passed), "PASS");
    assert_eq!(state_label(CoreState::Error), "ERROR");
    assert_eq!(state_label(CoreState::Skipped), "SKIP");
    assert_eq!(first_shown_line(800), 300);
    assert_eq!(first_shown_line(20), 0);
}

fn testing_count(m: &MonitorState) -> usize {
    m.cores.iter().filter(|c| c.state == CoreState::Testing).count()
}

#[test]
fn at_most_one_core_is_under_test() {
    let mut m = MonitorState::new(3);
    let lines = [
        "12:00:00 - Iteration 1",
        "12:00:01 - Set to Core 0 (CPU 0)",
        "12:01:00 - Set to Core 1 (CPU 2)",
        "12:02:00 - Set to Core 1 (CPU 2)",
        "12:03:00 - Core 1 (CPU 2) has thrown an error",
        "12:04:00 - Set to Core 2 (CPU 4)",
        "12:05:00 - Test completed in 00h01m00s",
        "12:06:00 - Set to Core 0 (CPU 0)",
    ];
    for line in lines {
        m.parse_output_line(line);
        assert!(testing_count(&m) <= 1);
    }
    assert_eq!(testing_count(&m), 1);
}

#[test]
fn set_core_passes_the_core_under_test() {
    let mut m = MonitorState::new(3);
    m.parse_output_line("Set to Core 0 (CPU 0)");
    assert_eq!(m.cores[0].state, CoreState::Testing);
    m.parse_output_line("[LOG] Set to Core 2 (CPU 4)");
    assert_eq!(m.cores[0].state, CoreState::Passed);
    assert_eq!(m.cores[0].times_tested, 1);
    assert_eq!(m.cores[2].state, CoreState::Testing);
    assert_eq!(m.cores[1].state, CoreState::Idle);
    m.parse_output_line("Set to Core 2 (CPU 4)");
    assert_eq!(m.cores[2].state, CoreState::Testing);
    assert_eq!(m.cores[2].times_tested, 1);
}
