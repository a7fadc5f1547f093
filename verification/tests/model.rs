use corecycler_gui::model::{
    CoreCyclerConfig, CoreTestOrder, FFTSize, LinpackMode, LinpackVersion, Prime95Mode,
    ProcessPriority, StressTestProgram, SuspensionMode, YCruncherConfig, YCruncherMode,
};

#[test]
fn program_names_read_back() {
    for p in StressTestProgram::all() {
        assert_eq!(StressTestProgram::from_str(p.as_str()), p);
    }
    assert_eq!(StressTestProgram::from_str(" ycruncher_old "), StressTestProgram::YCruncherOld);
    assert_eq!(StressTestProgram::from_str("unknown"), StressTestProgram::Prime95);
}

#[test]
fn enum_names_read_back() {
    for m in Prime95Mode::all() {
        assert_eq!(Prime95Mode::from_str(m.as_str()), m);
    }
    for v in LinpackVersion::all() {
        assert_eq!(LinpackVersion::from_str(v.as_str()), v);
    }
    for m in LinpackMode::all() {
        assert_eq!(LinpackMode::from_str(m.as_str()), m);
    }
    for p in ProcessPriority::all() {
        assert_eq!(ProcessPriority::from_str(p.as_str()), p);
    }
    for m in SuspensionMode::all() {
        assert_eq!(SuspensionMode::from_str(m.as_str()), m);
    }
    for m in YCruncherMode::all() {
        assert_eq!(YCruncherMode::from_str(m.as_str()), m);
    }
    assert_eq!(Prime95Mode::from_str("avx512"), Prime95Mode::AVX512);
    assert_eq!(Prime95Mode::from_str("weird"), Prime95Mode::SSE);
}

#[test]
fn ycruncher_labels_select_their_mode() {
    for m in YCruncherMode::all() {
        let label = m.label();
        let name = label.split(" (").next().unwrap();
        assert_eq!(YCruncherMode::from_str(name), m);
    }
    assert_eq!(YCruncherMode::ZN2.label(), "19-ZN2 (Zen 2/3)");
    assert_eq!(YCruncherMode::from_str("AUTO"), YCruncherMode::Auto);
    assert_eq!(YCruncherMode::from_str("19-ZN2 ~ anything"), YCruncherMode::ZN2);
    assert_eq!(YCruncherMode::from_str("nonsense"), YCruncherMode::X86);
}

#[test]
fn ycruncher_mode_lists() {
    let new = YCruncherMode::new_modes();
    let old = YCruncherMode::old_modes();
    assert!(new.contains(&YCruncherMode::ZN5));
    assert!(!new.contains(&YCruncherMode::BD1));
    assert!(old.contains(&YCruncherMode::BD1));
    assert!(old.contains(&YCruncherMode::ZN3));
    assert!(!old.contains(&YCruncherMode::ZN5));
}

#[test]
fn ycruncher_test_lists() {
    let new: Vec<&str> = YCruncherConfig::new_tests().iter().map(|t| t.tag).collect();
    assert_eq!(new, vec!["BKT", "BBP", "SFTv4", "SNT", "SVT", "FFTv4", "N63", "VT3"]);
    let old: Vec<&str> = YCruncherConfig::old_tests().iter().map(|t| t.tag).collect();
    assert_eq!(old, vec!["BKT", "BBP", "SFT", "FFT", "N32", "N64", "HNT", "VST", "C17"]);
    assert_eq!(YCruncherConfig::new_default_tests(), "BKT, BBP, SFTv4, SNT, SVT, FFTv4, N63, VT3");
    assert_eq!(YCruncherConfig::old_default_tests(), "BKT, BBP, SFT, FFT, N32, N64, HNT, VST");
}

#[test]
fn presets_and_custom_values() {
    assert_eq!(CoreTestOrder::from_str("Random"), CoreTestOrder::Random);
    assert_eq!(CoreTestOrder::from_str(" 5,4,0 "), CoreTestOrder::Custom("5,4,0".to_string()));
    assert_eq!(CoreTestOrder::Custom("2,1".to_string()).as_str(), "2,1");
    assert_eq!(FFTSize::from_str("HeavyShort"), FFTSize::HeavyShort);
    assert_eq!(FFTSize::from_str("1344-4096"), FFTSize::Custom("1344-4096".to_string()));
    assert_eq!(FFTSize::Huge.as_str(), "Huge");
}

#[test]
fn defaults_match_corecycler() {
    let c = CoreCyclerConfig::default();
    assert_eq!(c.general.stress_test_program, StressTestProgram::Prime95);
    assert_eq!(c.general.runtime_per_core, "6m");
    assert_eq!(c.general.core_test_order, CoreTestOrder::Default);
    assert_eq!(c.prime95.mode, Prime95Mode::SSE);
    assert_eq!(c.prime95.fft_size, FFTSize::Huge);
    assert_eq!(c.ycruncher.mode, YCruncherMode::X86);
    assert_eq!(c.aida64.mode, "CACHE");
    assert_eq!(c.linpack.version, LinpackVersion::V2018);
    assert_eq!(c.logging.name, "CoreCycler");
    assert_eq!(c.logging.log_level, "2");
}

#[test]
fn ycruncher_labels_are_name_then_description() {
    for m in YCruncherMode::all() {
        let label = m.label();
        let name = m.as_str();
        assert!(!name.contains(" ("));
        assert!(label.starts_with(name));
        let rest = &label[name.len()..];
        assert!(rest.starts_with(" ("));
        assert!(rest.ends_with(')'));
        assert!(rest.len() > 3);
        assert_eq!(label.split(" (").next(), Some(name));
    }
    assert_eq!(YCruncherMode::Auto.label(), "auto (Auto-detect)");
}
