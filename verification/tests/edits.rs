use corecycler_gui::edits::{
    normalize_tests, parse_core_list, runtime_from_input, toggle_aida_component,
    toggle_core_ignore, toggle_test, word_list_exec,
};

#[test]
fn core_ignore_toggles() {
    assert_eq!(toggle_core_ignore("3, 1", 2, true), "1, 2, 3");
    assert_eq!(toggle_core_ignore("1, 2, 3", 2, false), "1, 3");
    assert_eq!(toggle_core_ignore("", 5, true), "5");
    assert_eq!(toggle_core_ignore("5", 5, false), "");
    assert_eq!(toggle_core_ignore("4,x, 2", 4, true), "4, 2");
    assert_eq!(parse_core_list(" 7, a,3 "), vec![7, 3]);
}

#[test]
fn ycruncher_test_toggles() {
    assert_eq!(toggle_test("BKT, BBP", "SFT", true), "BKT, BBP, SFT");
    assert_eq!(toggle_test("BKT, BBP", "BKT", false), "BBP");
    assert_eq!(toggle_test("BKT,,BBP", "BBP", true), "BKT, BBP");
    assert_eq!(toggle_test("", "N63", true), "N63");
}

#[test]
fn tests_cleaned_for_a_version() {
    let known: Vec<Vec<char>> = vec!["BKT".chars().collect(), "BBP".chars().collect()];
    assert_eq!(normalize_tests("BKT, SFTv4, BBP", &known, "BKT"), "BKT, BBP");
    assert_eq!(normalize_tests("N63", &known, "BKT, BBP"), "BKT, BBP");
}

#[test]
fn aida_components_toggle_in_canonical_order() {
    assert_eq!(toggle_aida_component("CACHE", "cpu", true), "CACHE,CPU");
    assert_eq!(toggle_aida_component("RAM,CACHE", "FPU", true), "CACHE,FPU,RAM");
    assert_eq!(toggle_aida_component("CACHE,CPU", "CACHE", false), "CPU");
    assert_eq!(toggle_aida_component("CPU", "cpu", false), "CACHE");
}

#[test]
fn runtime_keeps_minutes() {
    assert_eq!(runtime_from_input("6 min"), "6m");
    assert_eq!(runtime_from_input("15"), "15m");
    assert_eq!(runtime_from_input("abc"), "");
}

#[test]
fn word_lists() {
    let w = word_list_exec(" a, ,b ,c");
    let w: Vec<String> = w.into_iter().map(|v| v.into_iter().collect()).collect();
    assert_eq!(w, vec!["a".to_string(), "b".to_string(), "c".to_string()]);
}

#[test]
fn core_ignore_list_stays_rising_and_holds_the_chosen_cores() {
    let mut text = String::from("1, 4, 9");
    text = toggle_core_ignore(&text, 6, true);
    assert_eq!(text, "1, 4, 6, 9");
    text = toggle_core_ignore(&text, 0, true);
    assert_eq!(text, "0, 1, 4, 6, 9");
    text = toggle_core_ignore(&text, 4, false);
    assert_eq!(text, "0, 1, 6, 9");
    text = toggle_core_ignore(&text, 6, true);
    assert_eq!(text, "0, 1, 6, 9");
    text = toggle_core_ignore(&text, 7, false);
    assert_eq!(text, "0, 1, 6, 9");
    assert_eq!(parse_core_list(&text), vec![0, 1, 6, 9]);
}
