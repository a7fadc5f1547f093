use corecycler_gui::edits::runtime_from_input;
use corecycler_gui::choices::{
    aida_has_part, config_file_choice, config_file_options, dropdown_options, level_of_label,
    log_level_label, log_level_options, pick_or_first, runtime_minutes_shown,
    select_preset_configs, strvec, threads_choice, use_config_file_from_choice,
};

fn owned(v: &[&str]) -> Vec<String> {
    v.iter().map(|s| s.to_string()).collect()
}

#[test]
fn strvec_copies_in_order() {
    assert_eq!(strvec(&["Default", "1", "2"]), owned(&["Default", "1", "2"]));
    assert!(strvec(&[]).is_empty());
}

#[test]
fn pick_or_first_keeps_unknown_values() {
    let opts = owned(&["Default", "1", "2"]);
    assert_eq!(pick_or_first("  3 ", &opts), Some("3".to_string()));
    assert_eq!(pick_or_first("2", &opts), Some("2".to_string()));
    assert_eq!(pick_or_first("", &opts), Some("Default".to_string()));
    assert_eq!(pick_or_first("   ", &[]), None);
}

#[test]
fn dropdown_shows_a_value_it_does_not_offer() {
    let opts = owned(&["a", "b"]);
    assert_eq!(dropdown_options(opts.clone(), &Some("c".to_string())), owned(&["c", "a", "b"]));
    assert_eq!(dropdown_options(opts.clone(), &Some("b".to_string())), owned(&["a", "b"]));
    assert_eq!(dropdown_options(opts, &None), owned(&["a", "b"]));
}

#[test]
fn log_levels_map_to_entries_and_back() {
    assert_eq!(log_level_options().len(), 5);
    assert_eq!(log_level_label("0"), "0 - None");
    assert_eq!(log_level_label("3"), "3 - Verbose + Console");
    assert_eq!(log_level_label("7"), "2 - Debug");
    for level in ["0", "1", "2", "3", "4"] {
        assert_eq!(level_of_label(log_level_label(level)), level);
    }
    assert_eq!(level_of_label(""), "2");
}

#[test]
fn other_config_file_entries() {
    assert_eq!(
        config_file_options(&owned(&["a.ini", "b.config.ini"])),
        owned(&["(disabled)", "configs\\a.ini", "configs\\b.config.ini"])
    );
    assert_eq!(config_file_choice(""), "(disabled)");
    assert_eq!(config_file_choice("configs\\a.ini"), "configs\\a.ini");
    assert_eq!(use_config_file_from_choice("(disabled)".to_string()), "");
    assert_eq!(use_config_file_from_choice("configs\\a.ini".to_string()), "configs\\a.ini");
}

#[test]
fn small_settings_show() {
    assert_eq!(threads_choice(2), "2");
    assert_eq!(threads_choice(1), "1");
    assert_eq!(threads_choice(7), "1");
    assert_eq!(runtime_minutes_shown("6m"), "6");
    assert_eq!(runtime_minutes_shown("15mm"), "15");
    assert_eq!(runtime_minutes_shown("2h"), "2h");
}

#[test]
fn aida_parts_are_found_in_any_case() {
    assert!(aida_has_part("cache,cpu", "CPU"));
    assert!(aida_has_part("CACHE", "CACHE"));
    assert!(!aida_has_part("CACHE", "RAM"));
}

#[test]
fn presets_are_filtered_and_sorted() {
    let names = owned(&["b.ini", "default.config.ini", "a.config.ini", "notes.txt", "C.ini"]);
    assert_eq!(select_preset_configs(names), owned(&["C.ini", "a.config.ini", "b.ini"]));
    assert!(select_preset_configs(Vec::new()).is_empty());
}

#[test]
fn shown_runtime_typed_again_gives_the_stored_runtime() {
    for input in ["6 min", "15", "", "x"] {
        let stored = runtime_from_input(input);
        assert_eq!(runtime_from_input(&runtime_minutes_shown(&stored)), stored);
    }
}

#[test]
fn config_file_entry_gives_the_setting_back() {
    for setting in ["", "configs\\a.ini"] {
        assert_eq!(use_config_file_from_choice(config_file_choice(setting)), setting);
    }
}

#[test]
fn checking_an_aida_part_shows_it_checked() {
    use_aida("cache", "FPU");
    use_aida("CPU,RAM", "CACHE");
}

fn use_aida(mode: &str, part: &str) {
    let toggled = corecycler_gui::edits::toggle_aida_component(mode, part, true);
    assert!(aida_has_part(&toggled, part));
}
