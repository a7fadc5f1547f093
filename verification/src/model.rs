//! The typed model of CoreCycler's configuration: the enumerations that its
//! settings take, the ten sections of `config.ini`, and their defaults.
use vstd::prelude::*;

use crate::text::{
    contains_seq, lemma_find, lemma_trim_part, lemma_trim_trimmed, lemma_trim_upper,
    lemma_upper_ascii_upper, ascii_upper, is_ascii_seq, lemma_before_absent, lemma_before_prefix, is_ws, lemma_plain_word, plain_word, before, before_lit, chars_of, eq_ignore_ascii_case, eq_ignore_case_lit, eq_lit, string_of, to_uppercase,
    trim, trim_ws, upper_case,
};

verus! {

/// The stress test program that CoreCycler runs.
#[derive(Debug, Clone, Copy, PartialEq, Eq, Structural)]
pub enum StressTestProgram {
    Prime95,
    Aida64,
    YCruncher,
    YCruncherOld,
    Linpack,
}

impl StressTestProgram {
    /// The name that the configuration file uses for this value.
    pub open spec fn name(self) -> Seq<char> {
        match self {
            StressTestProgram::Prime95 => "PRIME95"@,
            StressTestProgram::Aida64 => "AIDA64"@,
            StressTestProgram::YCruncher => "YCRUNCHER"@,
            StressTestProgram::YCruncherOld => "YCRUNCHER_OLD"@,
            StressTestProgram::Linpack => "LINPACK"@,
        }
    }

    /// The value that `s`, trimmed and upper-cased, names; `Prime95` for any other text.
    pub open spec fn parse(s: Seq<char>) -> StressTestProgram {
        let k = upper_case(trim(s));
        if k == "AIDA64"@ {
            StressTestProgram::Aida64
        } else if k == "YCRUNCHER"@ {
            StressTestProgram::YCruncher
        } else if k == "YCRUNCHER_OLD"@ {
            StressTestProgram::YCruncherOld
        } else if k == "LINPACK"@ {
            StressTestProgram::Linpack
        } else {
            StressTestProgram::Prime95
        }
    }

    pub fn as_str(&self) -> (r: &'static str)
        ensures
            r@ == self.name(),
    {
        match self {
            StressTestProgram::Prime95 => "PRIME95",
            StressTestProgram::Aida64 => "AIDA64",
            StressTestProgram::YCruncher => "YCRUNCHER",
            StressTestProgram::YCruncherOld => "YCRUNCHER_OLD",
            StressTestProgram::Linpack => "LINPACK",
        }
    }

    pub fn from_str(s: &str) -> (r: StressTestProgram)
        ensures
            r == StressTestProgram::parse(s@),
    {
        let chars = chars_of(s);
        let trimmed = trim_ws(&chars);
        let k = to_uppercase(&trimmed);
        if eq_lit(&k, "AIDA64") {
            StressTestProgram::Aida64
        } else if eq_lit(&k, "YCRUNCHER") {
            StressTestProgram::YCruncher
        } else if eq_lit(&k, "YCRUNCHER_OLD") {
            StressTestProgram::YCruncherOld
        } else if eq_lit(&k, "LINPACK") {
            StressTestProgram::Linpack
        } else {
            StressTestProgram::Prime95
        }
    }

    /// Every value, in the order the editor lists them.
    pub fn all() -> (r: Vec<StressTestProgram>)
        ensures
            r@ == seq![StressTestProgram::Prime95, StressTestProgram::Aida64, StressTestProgram::YCruncher, StressTestProgram::YCruncherOld, StressTestProgram::Linpack],
    {
        let mut r: Vec<StressTestProgram> = Vec::new();
        r.push(StressTestProgram::Prime95);
        r.push(StressTestProgram::Aida64);
        r.push(StressTestProgram::YCruncher);
        r.push(StressTestProgram::YCruncherOld);
        r.push(StressTestProgram::Linpack);
        assert(r@ =~= seq![StressTestProgram::Prime95, StressTestProgram::Aida64, StressTestProgram::YCruncher, StressTestProgram::YCruncherOld, StressTestProgram::Linpack]);
        r
    }
}

/// The instruction set that Prime95 is run with.
#[derive(Debug, Clone, Copy, PartialEq, Eq, Structural)]
pub enum Prime95Mode {
    SSE,
    AVX,
    AVX2,
    AVX512,
    Custom,
}

impl Prime95Mode {
    /// The name that the configuration file uses for this value.
    pub open spec fn name(self) -> Seq<char> {
        match self {
            Prime95Mode::SSE => "SSE"@,
            Prime95Mode::AVX => "AVX"@,
            Prime95Mode::AVX2 => "AVX2"@,
            Prime95Mode::AVX512 => "AVX512"@,
            Prime95Mode::Custom => "CUSTOM"@,
        }
    }

    /// The value that `s`, trimmed and upper-cased, names; `SSE` for any other text.
    pub open spec fn parse(s: Seq<char>) -> Prime95Mode {
        let k = upper_case(trim(s));
        if k == "AVX"@ {
            Prime95Mode::AVX
        } else if k == "AVX2"@ {
            Prime95Mode::AVX2
        } else if k == "AVX512"@ {
            Prime95Mode::AVX512
        } else if k == "CUSTOM"@ {
            Prime95Mode::Custom
        } else {
            Prime95Mode::SSE
        }
    }

    pub fn as_str(&self) -> (r: &'static str)
        ensures
            r@ == self.name(),
    {
        match self {
            Prime95Mode::SSE => "SSE",
            Prime95Mode::AVX => "AVX",
            Prime95Mode::AVX2 => "AVX2",
            Prime95Mode::AVX512 => "AVX512",
            Prime95Mode::Custom => "CUSTOM",
        }
    }

    pub fn from_str(s: &str) -> (r: Prime95Mode)
        ensures
            r == Prime95Mode::parse(s@),
    {
        let chars = chars_of(s);
        let trimmed = trim_ws(&chars);
        let k = to_uppercase(&trimmed);
        if eq_lit(&k, "AVX") {
            Prime95Mode::AVX
        } else if eq_lit(&k, "AVX2") {
            Prime95Mode::AVX2
        } else if eq_lit(&k, "AVX512") {
            Prime95Mode::AVX512
        } else if eq_lit(&k, "CUSTOM") {
            Prime95Mode::Custom
        } else {
            Prime95Mode::SSE
        }
    }

    /// Every value, in the order the editor lists them.
    pub fn all() -> (r: Vec<Prime95Mode>)
        ensures
            r@ == seq![Prime95Mode::SSE, Prime95Mode::AVX, Prime95Mode::AVX2, Prime95Mode::AVX512, Prime95Mode::Custom],
    {
        let mut r: Vec<Prime95Mode> = Vec::new();
        r.push(Prime95Mode::SSE);
        r.push(Prime95Mode::AVX);
        r.push(Prime95Mode::AVX2);
        r.push(Prime95Mode::AVX512);
        r.push(Prime95Mode::Custom);
        assert(r@ =~= seq![Prime95Mode::SSE, Prime95Mode::AVX, Prime95Mode::AVX2, Prime95Mode::AVX512, Prime95Mode::Custom]);
        r
    }
}

/// The Linpack release that is run.
#[derive(Debug, Clone, Copy, PartialEq, Eq, Structural)]
pub enum LinpackVersion {
    V2018,
    V2019,
    V2021,
    V2024,
}

impl LinpackVersion {
    /// The name that the configuration file uses for this value.
    pub open spec fn name(self) -> Seq<char> {
        match self {
            LinpackVersion::V2018 => "2018"@,
            LinpackVersion::V2019 => "2019"@,
            LinpackVersion::V2021 => "2021"@,
            LinpackVersion::V2024 => "2024"@,
        }
    }

    /// The value that `s`, trimmed, names; `V2018` for any other text.
    pub open spec fn parse(s: Seq<char>) -> LinpackVersion {
        let k = trim(s);
        if k == "2019"@ {
            LinpackVersion::V2019
        } else if k == "2021"@ {
            LinpackVersion::V2021
        } else if k == "2024"@ {
            LinpackVersion::V2024
        } else {
            LinpackVersion::V2018
        }
    }

    pub fn as_str(&self) -> (r: &'static str)
        ensures
            r@ == self.name(),
    {
        match self {
            LinpackVersion::V2018 => "2018",
            LinpackVersion::V2019 => "2019",
            LinpackVersion::V2021 => "2021",
            LinpackVersion::V2024 => "2024",
        }
    }

    pub fn from_str(s: &str) -> (r: LinpackVersion)
        ensures
            r == LinpackVersion::parse(s@),
    {
        let chars = chars_of(s);
        let k = trim_ws(&chars);
        if eq_lit(&k, "2019") {
            LinpackVersion::V2019
        } else if eq_lit(&k, "2021") {
            LinpackVersion::V2021
        } else if eq_lit(&k, "2024") {
            LinpackVersion::V2024
        } else {
            LinpackVersion::V2018
        }
    }

    /// Every value, in the order the editor lists them.
    pub fn all() -> (r: Vec<LinpackVersion>)
        ensures
            r@ == seq![LinpackVersion::V2018, LinpackVersion::V2019, LinpackVersion::V2021, LinpackVersion::V2024],
    {
        let mut r: Vec<LinpackVersion> = Vec::new();
        r.push(LinpackVersion::V2018);
        r.push(LinpackVersion::V2019);
        r.push(LinpackVersion::V2021);
        r.push(LinpackVersion::V2024);
        assert(r@ =~= seq![LinpackVersion::V2018, LinpackVersion::V2019, LinpackVersion::V2021, LinpackVersion::V2024]);
        r
    }
}

/// The Linpack speed setting.
#[derive(Debug, Clone, Copy, PartialEq, Eq, Structural)]
pub enum LinpackMode {
    Slowest,
    Slow,
    Medium,
    Fast,
    Fastest,
}

impl LinpackMode {
    /// The name that the configuration file uses for this value.
    pub open spec fn name(self) -> Seq<char> {
        match self {
            LinpackMode::Slowest => "SLOWEST"@,
            LinpackMode::Slow => "SLOW"@,
            LinpackMode::Medium => "MEDIUM"@,
            LinpackMode::Fast => "FAST"@,
            LinpackMode::Fastest => "FASTEST"@,
        }
    }

    /// The value that `s`, trimmed and upper-cased, names; `Medium` for any other text.
    pub open spec fn parse(s: Seq<char>) -> LinpackMode {
        let k = upper_case(trim(s));
        if k == "SLOWEST"@ {
            LinpackMode::Slowest
        } else if k == "SLOW"@ {
            LinpackMode::Slow
        } else if k == "FAST"@ {
            LinpackMode::Fast
        } else if k == "FASTEST"@ {
            LinpackMode::Fastest
        } else {
            LinpackMode::Medium
        }
    }

    pub fn as_str(&self) -> (r: &'static str)
        ensures
            r@ == self.name(),
    {
        match self {
            LinpackMode::Slowest => "SLOWEST",
            LinpackMode::Slow => "SLOW",
            LinpackMode::Medium => "MEDIUM",
            LinpackMode::Fast => "FAST",
            LinpackMode::Fastest => "FASTEST",
        }
    }

    pub fn from_str(s: &str) -> (r: LinpackMode)
        ensures
            r == LinpackMode::parse(s@),
    {
        let chars = chars_of(s);
        let trimmed = trim_ws(&chars);
        let k = to_uppercase(&trimmed);
        if eq_lit(&k, "SLOWEST") {
            LinpackMode::Slowest
        } else if eq_lit(&k, "SLOW") {
            LinpackMode::Slow
        } else if eq_lit(&k, "FAST") {
            LinpackMode::Fast
        } else if eq_lit(&k, "FASTEST") {
            LinpackMode::Fastest
        } else {
            LinpackMode::Medium
        }
    }

    /// Every value, in the order the editor lists them.
    pub fn all() -> (r: Vec<LinpackMode>)
        ensures
            r@ == seq![LinpackMode::Slowest, LinpackMode::Slow, LinpackMode::Medium, LinpackMode::Fast, LinpackMode::Fastest],
    {
        let mut r: Vec<LinpackMode> = Vec::new();
        r.push(LinpackMode::Slowest);
        r.push(LinpackMode::Slow);
        r.push(LinpackMode::Medium);
        r.push(LinpackMode::Fast);
        r.push(LinpackMode::Fastest);
        assert(r@ =~= seq![LinpackMode::Slowest, LinpackMode::Slow, LinpackMode::Medium, LinpackMode::Fast, LinpackMode::Fastest]);
        r
    }
}

/// The priority class that the stress test program runs at.
#[derive(Debug, Clone, Copy, PartialEq, Eq, Structural)]
pub enum ProcessPriority {
    Idle,
    BelowNormal,
    Normal,
    AboveNormal,
    High,
    RealTime,
}

impl ProcessPriority {
    /// The name that the configuration file uses for this value.
    pub open spec fn name(self) -> Seq<char> {
        match self {
            ProcessPriority::Idle => "Idle"@,
            ProcessPriority::BelowNormal => "BelowNormal"@,
            ProcessPriority::Normal => "Normal"@,
            ProcessPriority::AboveNormal => "AboveNormal"@,
            ProcessPriority::High => "High"@,
            ProcessPriority::RealTime => "RealTime"@,
        }
    }

    /// The value that `s`, trimmed, names; `Normal` for any other text.
    pub open spec fn parse(s: Seq<char>) -> ProcessPriority {
        let k = trim(s);
        if k == "Idle"@ {
            ProcessPriority::Idle
        } else if k == "BelowNormal"@ {
            ProcessPriority::BelowNormal
        } else if k == "AboveNormal"@ {
            ProcessPriority::AboveNormal
        } else if k == "High"@ {
            ProcessPriority::High
        } else if k == "RealTime"@ {
            ProcessPriority::RealTime
        } else {
            ProcessPriority::Normal
        }
    }

    pub fn as_str(&self) -> (r: &'static str)
        ensures
            r@ == self.name(),
    {
        match self {
            ProcessPriority::Idle => "Idle",
            ProcessPriority::BelowNormal => "BelowNormal",
            ProcessPriority::Normal => "Normal",
            ProcessPriority::AboveNormal => "AboveNormal",
            ProcessPriority::High => "High",
            ProcessPriority::RealTime => "RealTime",
        }
    }

    pub fn from_str(s: &str) -> (r: ProcessPriority)
        ensures
            r == ProcessPriority::parse(s@),
    {
        let chars = chars_of(s);
        let k = trim_ws(&chars);
        if eq_lit(&k, "Idle") {
            ProcessPriority::Idle
        } else if eq_lit(&k, "BelowNormal") {
            ProcessPriority::BelowNormal
        } else if eq_lit(&k, "AboveNormal") {
            ProcessPriority::AboveNormal
        } else if eq_lit(&k, "High") {
            ProcessPriority::High
        } else if eq_lit(&k, "RealTime") {
            ProcessPriority::RealTime
        } else {
            ProcessPriority::Normal
        }
    }

    /// Every value, in the order the editor lists them.
    pub fn all() -> (r: Vec<ProcessPriority>)
        ensures
            r@ == seq![ProcessPriority::Idle, ProcessPriority::BelowNormal, ProcessPriority::Normal, ProcessPriority::AboveNormal, ProcessPriority::High, ProcessPriority::RealTime],
    {
        let mut r: Vec<ProcessPriority> = Vec::new();
        r.push(ProcessPriority::Idle);
        r.push(ProcessPriority::BelowNormal);
        r.push(ProcessPriority::Normal);
        r.push(ProcessPriority::AboveNormal);
        r.push(ProcessPriority::High);
        r.push(ProcessPriority::RealTime);
        assert(r@ =~= seq![ProcessPriority::Idle, ProcessPriority::BelowNormal, ProcessPriority::Normal, ProcessPriority::AboveNormal, ProcessPriority::High, ProcessPriority::RealTime]);
        r
    }
}

/// How CoreCycler suspends the stress test program.
#[derive(Debug, Clone, Copy, PartialEq, Eq, Structural)]
pub enum SuspensionMode {
    Debugger,
    Threads,
}

impl SuspensionMode {
    /// The name that the configuration file uses for this value.
    pub open spec fn name(self) -> Seq<char> {
        match self {
            SuspensionMode::Debugger => "Debugger"@,
            SuspensionMode::Threads => "Threads"@,
        }
    }

    /// The value that `s`, trimmed, names; `Threads` for any other text.
    pub open spec fn parse(s: Seq<char>) -> SuspensionMode {
        let k = trim(s);
        if k == "Debugger"@ {
            SuspensionMode::Debugger
        } else {
            SuspensionMode::Threads
        }
    }

    pub fn as_str(&self) -> (r: &'static str)
        ensures
            r@ == self.name(),
    {
        match self {
            SuspensionMode::Debugger => "Debugger",
            SuspensionMode::Threads => "Threads",
        }
    }

    pub fn from_str(s: &str) -> (r: SuspensionMode)
        ensures
            r == SuspensionMode::parse(s@),
    {
        let chars = chars_of(s);
        let k = trim_ws(&chars);
        if eq_lit(&k, "Debugger") {
            SuspensionMode::Debugger
        } else {
            SuspensionMode::Threads
        }
    }

    /// Every value, in the order the editor lists them.
    pub fn all() -> (r: Vec<SuspensionMode>)
        ensures
            r@ == seq![SuspensionMode::Debugger, SuspensionMode::Threads],
    {
        let mut r: Vec<SuspensionMode> = Vec::new();
        r.push(SuspensionMode::Debugger);
        r.push(SuspensionMode::Threads);
        assert(r@ =~= seq![SuspensionMode::Debugger, SuspensionMode::Threads]);
        r
    }
}

/// The order in which the cores are tested: a named preset or a custom list.
#[derive(Debug, Clone, PartialEq, Eq)]
pub enum CoreTestOrder {
    Default,
    Alternate,
    CorePairs,
    Random,
    Sequential,
    Custom(String),
}

/// The abstract value of a [`CoreTestOrder`].
pub enum CoreTestOrderView {
    Default,
    Alternate,
    CorePairs,
    Random,
    Sequential,
    Custom(Seq<char>),
}

impl View for CoreTestOrder {
    type V = CoreTestOrderView;

    open spec fn view(&self) -> CoreTestOrderView {
        match self {
            CoreTestOrder::Default => CoreTestOrderView::Default,
            CoreTestOrder::Alternate => CoreTestOrderView::Alternate,
            CoreTestOrder::CorePairs => CoreTestOrderView::CorePairs,
            CoreTestOrder::Random => CoreTestOrderView::Random,
            CoreTestOrder::Sequential => CoreTestOrderView::Sequential,
            CoreTestOrder::Custom(s) => CoreTestOrderView::Custom(s@),
        }
    }
}

impl CoreTestOrderView {
    /// The name that the configuration file uses for this value.
    pub open spec fn name(self) -> Seq<char> {
        match self {
            CoreTestOrderView::Default => "Default"@,
            CoreTestOrderView::Alternate => "Alternate"@,
            CoreTestOrderView::CorePairs => "CorePairs"@,
            CoreTestOrderView::Random => "Random"@,
            CoreTestOrderView::Sequential => "Sequential"@,
            CoreTestOrderView::Custom(s) => s,
        }
    }

    /// The preset that `s`, trimmed, names; otherwise the trimmed text as a
    /// custom value.
    pub open spec fn parse(s: Seq<char>) -> CoreTestOrderView {
        let k = trim(s);
        if k == "Default"@ {
            CoreTestOrderView::Default
        } else if k == "Alternate"@ {
            CoreTestOrderView::Alternate
        } else if k == "CorePairs"@ {
            CoreTestOrderView::CorePairs
        } else if k == "Random"@ {
            CoreTestOrderView::Random
        } else if k == "Sequential"@ {
            CoreTestOrderView::Sequential
        } else {
            CoreTestOrderView::Custom(k)
        }
    }
}

impl CoreTestOrder {
    pub fn as_str(&self) -> (r: &str)
        ensures
            r@ == self@.name(),
    {
        match self {
            CoreTestOrder::Default => "Default",
            CoreTestOrder::Alternate => "Alternate",
            CoreTestOrder::CorePairs => "CorePairs",
            CoreTestOrder::Random => "Random",
            CoreTestOrder::Sequential => "Sequential",
            CoreTestOrder::Custom(s) => s.as_str(),
        }
    }

    pub fn from_str(s: &str) -> (r: CoreTestOrder)
        ensures
            r@ == CoreTestOrderView::parse(s@),
    {
        let chars = chars_of(s);
        let k = trim_ws(&chars);
        if eq_lit(&k, "Default") {
            CoreTestOrder::Default
        } else if eq_lit(&k, "Alternate") {
            CoreTestOrder::Alternate
        } else if eq_lit(&k, "CorePairs") {
            CoreTestOrder::CorePairs
        } else if eq_lit(&k, "Random") {
            CoreTestOrder::Random
        } else if eq_lit(&k, "Sequential") {
            CoreTestOrder::Sequential
        } else {
            CoreTestOrder::Custom(string_of(&k))
        }
    }

    /// The names of the presets, in the order the editor lists them.
    pub open spec fn spec_presets() -> Seq<Seq<char>> {
        seq!["Default"@, "Alternate"@, "CorePairs"@, "Random"@, "Sequential"@]
    }

    pub fn presets() -> (r: Vec<&'static str>)
        ensures
            r@.len() == CoreTestOrder::spec_presets().len(),
            forall|i: int| 0 <= i < r@.len() ==> r@[i]@ == #[trigger] CoreTestOrder::spec_presets()[i],
    {
        let mut r: Vec<&'static str> = Vec::new();
        r.push("Default");
        r.push("Alternate");
        r.push("CorePairs");
        r.push("Random");
        r.push("Sequential");
        r
    }
}

/// The FFT sizes that Prime95 tests: a named preset or a custom range.
#[derive(Debug, Clone, PartialEq, Eq)]
pub enum FFTSize {
    Smallest,
    Small,
    Large,
    Huge,
    All,
    Moderate,
    Heavy,
    HeavyShort,
    Custom(String),
}

/// The abstract value of a [`FFTSize`].
pub enum FFTSizeView {
    Smallest,
    Small,
    Large,
    Huge,
    All,
    Moderate,
    Heavy,
    HeavyShort,
    Custom(Seq<char>),
}

impl View for FFTSize {
    type V = FFTSizeView;

    open spec fn view(&self) -> FFTSizeView {
        match self {
            FFTSize::Smallest => FFTSizeView::Smallest,
            FFTSize::Small => FFTSizeView::Small,
            FFTSize::Large => FFTSizeView::Large,
            FFTSize::Huge => FFTSizeView::Huge,
            FFTSize::All => FFTSizeView::All,
            FFTSize::Moderate => FFTSizeView::Moderate,
            FFTSize::Heavy => FFTSizeView::Heavy,
            FFTSize::HeavyShort => FFTSizeView::HeavyShort,
            FFTSize::Custom(s) => FFTSizeView::Custom(s@),
        }
    }
}

impl FFTSizeView {
    /// The name that the configuration file uses for this value.
    pub open spec fn name(self) -> Seq<char> {
        match self {
            FFTSizeView::Smallest => "Smallest"@,
            FFTSizeView::Small => "Small"@,
            FFTSizeView::Large => "Large"@,
            FFTSizeView::Huge => "Huge"@,
            FFTSizeView::All => "All"@,
            FFTSizeView::Moderate => "Moderate"@,
            FFTSizeView::Heavy => "Heavy"@,
            FFTSizeView::HeavyShort => "HeavyShort"@,
            FFTSizeView::Custom(s) => s,
        }
    }

    /// The preset that `s`, trimmed, names; otherwise the trimmed text as a
    /// custom value.
    pub open spec fn parse(s: Seq<char>) -> FFTSizeView {
        let k = trim(s);
        if k == "Smallest"@ {
            FFTSizeView::Smallest
        } else if k == "Small"@ {
            FFTSizeView::Small
        } else if k == "Large"@ {
            FFTSizeView::Large
        } else if k == "Huge"@ {
            FFTSizeView::Huge
        } else if k == "All"@ {
            FFTSizeView::All
        } else if k == "Moderate"@ {
            FFTSizeView::Moderate
        } else if k == "Heavy"@ {
            FFTSizeView::Heavy
        } else if k == "HeavyShort"@ {
            FFTSizeView::HeavyShort
        } else {
            FFTSizeView::Custom(k)
        }
    }
}

impl FFTSize {
    pub fn as_str(&self) -> (r: &str)
        ensures
            r@ == self@.name(),
    {
        match self {
            FFTSize::Smallest => "Smallest",
            FFTSize::Small => "Small",
            FFTSize::Large => "Large",
            FFTSize::Huge => "Huge",
            FFTSize::All => "All",
            FFTSize::Moderate => "Moderate",
            FFTSize::Heavy => "Heavy",
            FFTSize::HeavyShort => "HeavyShort",
            FFTSize::Custom(s) => s.as_str(),
        }
    }

    pub fn from_str(s: &str) -> (r: FFTSize)
        ensures
            r@ == FFTSizeView::parse(s@),
    {
        let chars = chars_of(s);
        let k = trim_ws(&chars);
        if eq_lit(&k, "Smallest") {
            FFTSize::Smallest
        } else if eq_lit(&k, "Small") {
            FFTSize::Small
        } else if eq_lit(&k, "Large") {
            FFTSize::Large
        } else if eq_lit(&k, "Huge") {
            FFTSize::Huge
        } else if eq_lit(&k, "All") {
            FFTSize::All
        } else if eq_lit(&k, "Moderate") {
            FFTSize::Moderate
        } else if eq_lit(&k, "Heavy") {
            FFTSize::Heavy
        } else if eq_lit(&k, "HeavyShort") {
            FFTSize::HeavyShort
        } else {
            FFTSize::Custom(string_of(&k))
        }
    }

    /// The names of the presets, in the order the editor lists them.
    pub open spec fn spec_presets() -> Seq<Seq<char>> {
        seq!["Smallest"@, "Small"@, "Large"@, "Huge"@, "All"@, "Moderate"@, "Heavy"@, "HeavyShort"@]
    }

    pub fn presets() -> (r: Vec<&'static str>)
        ensures
            r@.len() == FFTSize::spec_presets().len(),
            forall|i: int| 0 <= i < r@.len() ==> r@[i]@ == #[trigger] FFTSize::spec_presets()[i],
    {
        let mut r: Vec<&'static str> = Vec::new();
        r.push("Smallest");
        r.push("Small");
        r.push("Large");
        r.push("Huge");
        r.push("All");
        r.push("Moderate");
        r.push("Heavy");
        r.push("HeavyShort");
        r
    }
}

/// The y-cruncher binary (instruction-set tuning) that is run.
#[derive(Debug, Clone, Copy, PartialEq, Eq, Structural)]
pub enum YCruncherMode {
    Auto,
    X86,
    P4P,
    A64,
    NHM,
    SNB,
    BD1,
    BD2,
    HSW,
    BDW,
    SKX,
    ZN1,
    CNL,
    ZN2,
    ZN3,
    ZN4,
    ZN5,
}

impl YCruncherMode {
    /// The name that the configuration file uses for this mode.
    pub open spec fn name(self) -> Seq<char> {
        match self {
            YCruncherMode::Auto => "auto"@,
            YCruncherMode::X86 => "00-x86"@,
            YCruncherMode::P4P => "04-P4P"@,
            YCruncherMode::A64 => "05-A64"@,
            YCruncherMode::NHM => "08-NHM"@,
            YCruncherMode::SNB => "11-SNB"@,
            YCruncherMode::BD1 => "11-BD1"@,
            YCruncherMode::BD2 => "12-BD2"@,
            YCruncherMode::HSW => "13-HSW"@,
            YCruncherMode::BDW => "14-BDW"@,
            YCruncherMode::SKX => "17-SKX"@,
            YCruncherMode::ZN1 => "17-ZN1"@,
            YCruncherMode::CNL => "18-CNL"@,
            YCruncherMode::ZN2 => "19-ZN2"@,
            YCruncherMode::ZN3 => "20-ZN3"@,
            YCruncherMode::ZN4 => "22-ZN4"@,
            YCruncherMode::ZN5 => "24-ZN5"@,
        }
    }

    /// The name shown in the editor.
    pub open spec fn spec_label(self) -> Seq<char> {
        match self {
            YCruncherMode::Auto => "auto (Auto-detect)"@,
            YCruncherMode::X86 => "00-x86 (Legacy)"@,
            YCruncherMode::P4P => "04-P4P (Pentium 4)"@,
            YCruncherMode::A64 => "05-A64 (Athlon 64)"@,
            YCruncherMode::NHM => "08-NHM (Nehalem)"@,
            YCruncherMode::SNB => "11-SNB (Sandy Bridge)"@,
            YCruncherMode::BD1 => "11-BD1 (Bulldozer, old yCruncher)"@,
            YCruncherMode::BD2 => "12-BD2 (Piledriver)"@,
            YCruncherMode::HSW => "13-HSW (Haswell)"@,
            YCruncherMode::BDW => "14-BDW (Broadwell)"@,
            YCruncherMode::SKX => "17-SKX (Skylake-X AVX512)"@,
            YCruncherMode::ZN1 => "17-ZN1 (Zen 1)"@,
            YCruncherMode::CNL => "18-CNL (Cannon Lake AVX512)"@,
            YCruncherMode::ZN2 => "19-ZN2 (Zen 2/3)"@,
            YCruncherMode::ZN3 => "20-ZN3 (Zen 3, old yCruncher)"@,
            YCruncherMode::ZN4 => "22-ZN4 (Zen 4 AVX512)"@,
            YCruncherMode::ZN5 => "24-ZN5 (Zen 5 AVX512)"@,
        }
    }

    /// The mode that `s` names: `auto` in any ASCII case, or the name before
    /// any ` ~` or ` (` annotation; `X86` for any other text.
    pub open spec fn parse(s: Seq<char>) -> YCruncherMode {
        let t = trim(s);
        if eq_ignore_ascii_case(t, "auto"@) {
            YCruncherMode::Auto
        } else {
            let k = trim(before(before(t, " ~"@), " ("@));
            if k == "04-P4P"@ {
                YCruncherMode::P4P
            } else if k == "05-A64"@ {
                YCruncherMode::A64
            } else if k == "08-NHM"@ {
                YCruncherMode::NHM
            } else if k == "11-SNB"@ {
                YCruncherMode::SNB
            } else if k == "11-BD1"@ {
                YCruncherMode::BD1
            } else if k == "12-BD2"@ {
                YCruncherMode::BD2
            } else if k == "13-HSW"@ {
                YCruncherMode::HSW
            } else if k == "14-BDW"@ {
                YCruncherMode::BDW
            } else if k == "17-SKX"@ {
                YCruncherMode::SKX
            } else if k == "17-ZN1"@ {
                YCruncherMode::ZN1
            } else if k == "18-CNL"@ {
                YCruncherMode::CNL
            } else if k == "19-ZN2"@ {
                YCruncherMode::ZN2
            } else if k == "20-ZN3"@ {
                YCruncherMode::ZN3
            } else if k == "22-ZN4"@ {
                YCruncherMode::ZN4
            } else if k == "24-ZN5"@ {
                YCruncherMode::ZN5
            } else {
                YCruncherMode::X86
            }
        }
    }

    pub fn as_str(&self) -> (r: &'static str)
        ensures
            r@ == self.name(),
    {
        match self {
            YCruncherMode::Auto => "auto",
            YCruncherMode::X86 => "00-x86",
            YCruncherMode::P4P => "04-P4P",
            YCruncherMode::A64 => "05-A64",
            YCruncherMode::NHM => "08-NHM",
            YCruncherMode::SNB => "11-SNB",
            YCruncherMode::BD1 => "11-BD1",
            YCruncherMode::BD2 => "12-BD2",
            YCruncherMode::HSW => "13-HSW",
            YCruncherMode::BDW => "14-BDW",
            YCruncherMode::SKX => "17-SKX",
            YCruncherMode::ZN1 => "17-ZN1",
            YCruncherMode::CNL => "18-CNL",
            YCruncherMode::ZN2 => "19-ZN2",
            YCruncherMode::ZN3 => "20-ZN3",
            YCruncherMode::ZN4 => "22-ZN4",
            YCruncherMode::ZN5 => "24-ZN5",
        }
    }

    pub fn label(&self) -> (r: &'static str)
        ensures
            r@ == self.spec_label(),
    {
        match self {
            YCruncherMode::Auto => "auto (Auto-detect)",
            YCruncherMode::X86 => "00-x86 (Legacy)",
            YCruncherMode::P4P => "04-P4P (Pentium 4)",
            YCruncherMode::A64 => "05-A64 (Athlon 64)",
            YCruncherMode::NHM => "08-NHM (Nehalem)",
            YCruncherMode::SNB => "11-SNB (Sandy Bridge)",
            YCruncherMode::BD1 => "11-BD1 (Bulldozer, old yCruncher)",
            YCruncherMode::BD2 => "12-BD2 (Piledriver)",
            YCruncherMode::HSW => "13-HSW (Haswell)",
            YCruncherMode::BDW => "14-BDW (Broadwell)",
            YCruncherMode::SKX => "17-SKX (Skylake-X AVX512)",
            YCruncherMode::ZN1 => "17-ZN1 (Zen 1)",
            YCruncherMode::CNL => "18-CNL (Cannon Lake AVX512)",
            YCruncherMode::ZN2 => "19-ZN2 (Zen 2/3)",
            YCruncherMode::ZN3 => "20-ZN3 (Zen 3, old yCruncher)",
            YCruncherMode::ZN4 => "22-ZN4 (Zen 4 AVX512)",
            YCruncherMode::ZN5 => "24-ZN5 (Zen 5 AVX512)",
        }
    }

    pub fn from_str(s: &str) -> (r: YCruncherMode)
        ensures
            r == YCruncherMode::parse(s@),
    {
        let chars = chars_of(s);
        let t = trim_ws(&chars);
        if eq_ignore_case_lit(&t, "auto") {
            return YCruncherMode::Auto;
        }
        let a = before_lit(&t, " ~");
        let b = before_lit(&a, " (");
        let k = trim_ws(&b);
        if eq_lit(&k, "04-P4P") {
            YCruncherMode::P4P
        } else if eq_lit(&k, "05-A64") {
            YCruncherMode::A64
        } else if eq_lit(&k, "08-NHM") {
            YCruncherMode::NHM
        } else if eq_lit(&k, "11-SNB") {
            YCruncherMode::SNB
        } else if eq_lit(&k, "11-BD1") {
            YCruncherMode::BD1
        } else if eq_lit(&k, "12-BD2") {
            YCruncherMode::BD2
        } else if eq_lit(&k, "13-HSW") {
            YCruncherMode::HSW
        } else if eq_lit(&k, "14-BDW") {
            YCruncherMode::BDW
        } else if eq_lit(&k, "17-SKX") {
            YCruncherMode::SKX
        } else if eq_lit(&k, "17-ZN1") {
            YCruncherMode::ZN1
        } else if eq_lit(&k, "18-CNL") {
            YCruncherMode::CNL
        } else if eq_lit(&k, "19-ZN2") {
            YCruncherMode::ZN2
        } else if eq_lit(&k, "20-ZN3") {
            YCruncherMode::ZN3
        } else if eq_lit(&k, "22-ZN4") {
            YCruncherMode::ZN4
        } else if eq_lit(&k, "24-ZN5") {
            YCruncherMode::ZN5
        } else {
            YCruncherMode::X86
        }
    }

    /// The modes of the current y-cruncher (v0.8 and later).
    pub open spec fn spec_new_modes() -> Seq<YCruncherMode> {
        seq![YCruncherMode::Auto, YCruncherMode::X86, YCruncherMode::P4P, YCruncherMode::A64, YCruncherMode::NHM, YCruncherMode::SNB, YCruncherMode::BD2, YCruncherMode::HSW, YCruncherMode::BDW, YCruncherMode::SKX, YCruncherMode::ZN1, YCruncherMode::CNL, YCruncherMode::ZN2, YCruncherMode::ZN4, YCruncherMode::ZN5]
    }

    pub fn new_modes() -> (r: Vec<YCruncherMode>)
        ensures
            r@ == YCruncherMode::spec_new_modes(),
    {
        let mut r: Vec<YCruncherMode> = Vec::new();
        r.push(YCruncherMode::Auto);
        r.push(YCruncherMode::X86);
        r.push(YCruncherMode::P4P);
        r.push(YCruncherMode::A64);
        r.push(YCruncherMode::NHM);
        r.push(YCruncherMode::SNB);
        r.push(YCruncherMode::BD2);
        r.push(YCruncherMode::HSW);
        r.push(YCruncherMode::BDW);
        r.push(YCruncherMode::SKX);
        r.push(YCruncherMode::ZN1);
        r.push(YCruncherMode::CNL);
        r.push(YCruncherMode::ZN2);
        r.push(YCruncherMode::ZN4);
        r.push(YCruncherMode::ZN5);
        assert(r@ =~= YCruncherMode::spec_new_modes());
        r
    }

    /// The modes of the old y-cruncher (v0.7.10).
    pub open spec fn spec_old_modes() -> Seq<YCruncherMode> {
        seq![YCruncherMode::Auto, YCruncherMode::X86, YCruncherMode::P4P, YCruncherMode::A64, YCruncherMode::NHM, YCruncherMode::BD1, YCruncherMode::SNB, YCruncherMode::HSW, YCruncherMode::BDW, YCruncherMode::SKX, YCruncherMode::ZN1, YCruncherMode::CNL, YCruncherMode::ZN2, YCruncherMode::ZN3, YCruncherMode::ZN4]
    }

    pub fn old_modes() -> (r: Vec<YCruncherMode>)
        ensures
            r@ == YCruncherMode::spec_old_modes(),
    {
        let mut r: Vec<YCruncherMode> = Vec::new();
        r.push(YCruncherMode::Auto);
        r.push(YCruncherMode::X86);
        r.push(YCruncherMode::P4P);
        r.push(YCruncherMode::A64);
        r.push(YCruncherMode::NHM);
        r.push(YCruncherMode::BD1);
        r.push(YCruncherMode::SNB);
        r.push(YCruncherMode::HSW);
        r.push(YCruncherMode::BDW);
        r.push(YCruncherMode::SKX);
        r.push(YCruncherMode::ZN1);
        r.push(YCruncherMode::CNL);
        r.push(YCruncherMode::ZN2);
        r.push(YCruncherMode::ZN3);
        r.push(YCruncherMode::ZN4);
        assert(r@ =~= YCruncherMode::spec_old_modes());
        r
    }

    /// Every mode.
    pub open spec fn spec_all() -> Seq<YCruncherMode> {
        seq![YCruncherMode::Auto, YCruncherMode::X86, YCruncherMode::P4P, YCruncherMode::A64, YCruncherMode::NHM, YCruncherMode::SNB, YCruncherMode::BD1, YCruncherMode::BD2, YCruncherMode::HSW, YCruncherMode::BDW, YCruncherMode::SKX, YCruncherMode::ZN1, YCruncherMode::CNL, YCruncherMode::ZN2, YCruncherMode::ZN3, YCruncherMode::ZN4, YCruncherMode::ZN5]
    }

    pub fn all() -> (r: Vec<YCruncherMode>)
        ensures
            r@ == YCruncherMode::spec_all(),
    {
        let mut r: Vec<YCruncherMode> = Vec::new();
        r.push(YCruncherMode::Auto);
        r.push(YCruncherMode::X86);
        r.push(YCruncherMode::P4P);
        r.push(YCruncherMode::A64);
        r.push(YCruncherMode::NHM);
        r.push(YCruncherMode::SNB);
        r.push(YCruncherMode::BD1);
        r.push(YCruncherMode::BD2);
        r.push(YCruncherMode::HSW);
        r.push(YCruncherMode::BDW);
        r.push(YCruncherMode::SKX);
        r.push(YCruncherMode::ZN1);
        r.push(YCruncherMode::CNL);
        r.push(YCruncherMode::ZN2);
        r.push(YCruncherMode::ZN3);
        r.push(YCruncherMode::ZN4);
        r.push(YCruncherMode::ZN5);
        assert(r@ =~= YCruncherMode::spec_all());
        r
    }

}

/// The `[General]` section.
#[derive(Debug, Clone)]
pub struct GeneralConfig {
    pub use_config_file: String,
    pub stress_test_program: StressTestProgram,
    pub runtime_per_core: String,
    pub suspend_periodically: bool,
    pub core_test_order: CoreTestOrder,
    pub skip_core_on_error: bool,
    pub stop_on_error: bool,
    pub number_of_threads: u8,
    pub assign_both_virtual_cores: bool,
    pub max_iterations: String,
    pub cores_to_ignore: String,
    pub restart_test_program_for_each_core: bool,
    pub delay_between_cores: String,
    pub beep_on_error: bool,
    pub flash_on_error: bool,
    pub look_for_whea_errors: bool,
    pub treat_whea_warning_as_error: bool,
}

/// The abstract value of a [`GeneralConfig`].
pub struct GeneralView {
    pub use_config_file: Seq<char>,
    pub stress_test_program: StressTestProgram,
    pub runtime_per_core: Seq<char>,
    pub suspend_periodically: bool,
    pub core_test_order: CoreTestOrderView,
    pub skip_core_on_error: bool,
    pub stop_on_error: bool,
    pub number_of_threads: u8,
    pub assign_both_virtual_cores: bool,
    pub max_iterations: Seq<char>,
    pub cores_to_ignore: Seq<char>,
    pub restart_test_program_for_each_core: bool,
    pub delay_between_cores: Seq<char>,
    pub beep_on_error: bool,
    pub flash_on_error: bool,
    pub look_for_whea_errors: bool,
    pub treat_whea_warning_as_error: bool,
}

impl View for GeneralConfig {
    type V = GeneralView;

    open spec fn view(&self) -> GeneralView {
        GeneralView {
            use_config_file: self.use_config_file@,
            stress_test_program: self.stress_test_program,
            runtime_per_core: self.runtime_per_core@,
            suspend_periodically: self.suspend_periodically,
            core_test_order: self.core_test_order@,
            skip_core_on_error: self.skip_core_on_error,
            stop_on_error: self.stop_on_error,
            number_of_threads: self.number_of_threads,
            assign_both_virtual_cores: self.assign_both_virtual_cores,
            max_iterations: self.max_iterations@,
            cores_to_ignore: self.cores_to_ignore@,
            restart_test_program_for_each_core: self.restart_test_program_for_each_core,
            delay_between_cores: self.delay_between_cores@,
            beep_on_error: self.beep_on_error,
            flash_on_error: self.flash_on_error,
            look_for_whea_errors: self.look_for_whea_errors,
            treat_whea_warning_as_error: self.treat_whea_warning_as_error,
        }
    }
}

/// The settings that CoreCycler's own defaults give the section.
pub open spec fn default_general() -> GeneralView {
    GeneralView {
        use_config_file: Seq::<char>::empty(),
        stress_test_program: StressTestProgram::Prime95,
        runtime_per_core: "6m"@,
        suspend_periodically: true,
        core_test_order: CoreTestOrderView::Default,
        skip_core_on_error: true,
        stop_on_error: false,
        number_of_threads: 1,
        assign_both_virtual_cores: false,
        max_iterations: "10000"@,
        cores_to_ignore: Seq::<char>::empty(),
        restart_test_program_for_each_core: false,
        delay_between_cores: "15"@,
        beep_on_error: true,
        flash_on_error: true,
        look_for_whea_errors: true,
        treat_whea_warning_as_error: true,
    }
}

impl Default for GeneralConfig {
    fn default() -> (r: GeneralConfig)
        ensures
            r@ == default_general(),
    {
        let r = GeneralConfig {
            use_config_file: String::new(),
            stress_test_program: StressTestProgram::Prime95,
            runtime_per_core: "6m".to_owned(),
            suspend_periodically: true,
            core_test_order: CoreTestOrder::Default,
            skip_core_on_error: true,
            stop_on_error: false,
            number_of_threads: 1,
            assign_both_virtual_cores: false,
            max_iterations: "10000".to_owned(),
            cores_to_ignore: String::new(),
            restart_test_program_for_each_core: false,
            delay_between_cores: "15".to_owned(),
            beep_on_error: true,
            flash_on_error: true,
            look_for_whea_errors: true,
            treat_whea_warning_as_error: true,
        };
        r
    }
}

/// The `[Prime95]` section.
#[derive(Debug, Clone)]
pub struct Prime95Config {
    pub mode: Prime95Mode,
    pub fft_size: FFTSize,
}

/// The abstract value of a [`Prime95Config`].
pub struct Prime95View {
    pub mode: Prime95Mode,
    pub fft_size: FFTSizeView,
}

impl View for Prime95Config {
    type V = Prime95View;

    open spec fn view(&self) -> Prime95View {
        Prime95View {
            mode: self.mode,
            fft_size: self.fft_size@,
        }
    }
}

/// The settings that CoreCycler's own defaults give the section.
pub open spec fn default_prime95() -> Prime95View {
    Prime95View {
        mode: Prime95Mode::SSE,
        fft_size: FFTSizeView::Huge,
    }
}

impl Default for Prime95Config {
    fn default() -> (r: Prime95Config)
        ensures
            r@ == default_prime95(),
    {
        let r = Prime95Config {
            mode: Prime95Mode::SSE,
            fft_size: FFTSize::Huge,
        };
        r
    }
}

/// The `[yCruncher]` section.
#[derive(Debug, Clone)]
pub struct YCruncherConfig {
    pub mode: YCruncherMode,
    pub tests: String,
    pub test_duration: String,
    pub memory: String,
    pub enable_logging_wrapper: bool,
}

/// The abstract value of a [`YCruncherConfig`].
pub struct YCruncherView {
    pub mode: YCruncherMode,
    pub tests: Seq<char>,
    pub test_duration: Seq<char>,
    pub memory: Seq<char>,
    pub enable_logging_wrapper: bool,
}

impl View for YCruncherConfig {
    type V = YCruncherView;

    open spec fn view(&self) -> YCruncherView {
        YCruncherView {
            mode: self.mode,
            tests: self.tests@,
            test_duration: self.test_duration@,
            memory: self.memory@,
            enable_logging_wrapper: self.enable_logging_wrapper,
        }
    }
}

/// The settings that CoreCycler's own defaults give the section.
pub open spec fn default_ycruncher() -> YCruncherView {
    YCruncherView {
        mode: YCruncherMode::X86,
        tests: "BKT, BBP, SFTv4, SNT, SVT, FFTv4, N63, VT3"@,
        test_duration: "60"@,
        memory: "Default"@,
        enable_logging_wrapper: true,
    }
}

impl Default for YCruncherConfig {
    fn default() -> (r: YCruncherConfig)
        ensures
            r@ == default_ycruncher(),
    {
        let r = YCruncherConfig {
            mode: YCruncherMode::X86,
            tests: "BKT, BBP, SFTv4, SNT, SVT, FFTv4, N63, VT3".to_owned(),
            test_duration: "60".to_owned(),
            memory: "Default".to_owned(),
            enable_logging_wrapper: true,
        };
        r
    }
}

/// The `[Aida64]` section.
#[derive(Debug, Clone)]
pub struct Aida64Config {
    pub mode: String,
    pub use_avx: bool,
    pub max_memory: String,
}

/// The abstract value of a [`Aida64Config`].
pub struct Aida64View {
    pub mode: Seq<char>,
    pub use_avx: bool,
    pub max_memory: Seq<char>,
}

impl View for Aida64Config {
    type V = Aida64View;

    open spec fn view(&self) -> Aida64View {
        Aida64View {
            mode: self.mode@,
            use_avx: self.use_avx,
            max_memory: self.max_memory@,
        }
    }
}

/// The settings that CoreCycler's own defaults give the section.
pub open spec fn default_aida64() -> Aida64View {
    Aida64View {
        mode: "CACHE"@,
        use_avx: false,
        max_memory: "90"@,
    }
}

impl Default for Aida64Config {
    fn default() -> (r: Aida64Config)
        ensures
            r@ == default_aida64(),
    {
        let r = Aida64Config {
            mode: "CACHE".to_owned(),
            use_avx: false,
            max_memory: "90".to_owned(),
        };
        r
    }
}

/// The `[Linpack]` section.
#[derive(Debug, Clone)]
pub struct LinpackConfig {
    pub version: LinpackVersion,
    pub mode: LinpackMode,
    pub memory: String,
}

/// The abstract value of a [`LinpackConfig`].
pub struct LinpackView {
    pub version: LinpackVersion,
    pub mode: LinpackMode,
    pub memory: Seq<char>,
}

impl View for LinpackConfig {
    type V = LinpackView;

    open spec fn view(&self) -> LinpackView {
        LinpackView {
            version: self.version,
            mode: self.mode,
            memory: self.memory@,
        }
    }
}

/// The settings that CoreCycler's own defaults give the section.
pub open spec fn default_linpack() -> LinpackView {
    LinpackView {
        version: LinpackVersion::V2018,
        mode: LinpackMode::Medium,
        memory: "2GB"@,
    }
}

impl Default for LinpackConfig {
    fn default() -> (r: LinpackConfig)
        ensures
            r@ == default_linpack(),
    {
        let r = LinpackConfig {
            version: LinpackVersion::V2018,
            mode: LinpackMode::Medium,
            memory: "2GB".to_owned(),
        };
        r
    }
}

/// The `[AutomaticTestMode]` section.
#[derive(Debug, Clone)]
pub struct AutomaticTestModeConfig {
    pub enable_automatic_adjustment: bool,
    pub start_values: String,
    pub max_value: String,
    pub increment_by: String,
    pub set_voltage_only_for_tested_core: bool,
    pub repeat_core_on_error: bool,
    pub enable_resume_after_unexpected_exit: bool,
    pub wait_before_automatic_resume: String,
    pub create_system_restore_point: bool,
    pub ask_for_system_restore_point_creation: bool,
}

/// The abstract value of a [`AutomaticTestModeConfig`].
pub struct AutomaticTestModeView {
    pub enable_automatic_adjustment: bool,
    pub start_values: Seq<char>,
    pub max_value: Seq<char>,
    pub increment_by: Seq<char>,
    pub set_voltage_only_for_tested_core: bool,
    pub repeat_core_on_error: bool,
    pub enable_resume_after_unexpected_exit: bool,
    pub wait_before_automatic_resume: Seq<char>,
    pub create_system_restore_point: bool,
    pub ask_for_system_restore_point_creation: bool,
}

impl View for AutomaticTestModeConfig {
    type V = AutomaticTestModeView;

    open spec fn view(&self) -> AutomaticTestModeView {
        AutomaticTestModeView {
            enable_automatic_adjustment: self.enable_automatic_adjustment,
            start_values: self.start_values@,
            max_value: self.max_value@,
            increment_by: self.increment_by@,
            set_voltage_only_for_tested_core: self.set_voltage_only_for_tested_core,
            repeat_core_on_error: self.repeat_core_on_error,
            enable_resume_after_unexpected_exit: self.enable_resume_after_unexpected_exit,
            wait_before_automatic_resume: self.wait_before_automatic_resume@,
            create_system_restore_point: self.create_system_restore_point,
            ask_for_system_restore_point_creation: self.ask_for_system_restore_point_creation,
        }
    }
}

/// The settings that CoreCycler's own defaults give the section.
pub open spec fn default_automatic_test_mode() -> AutomaticTestModeView {
    AutomaticTestModeView {
        enable_automatic_adjustment: false,
        start_values: "CurrentValues"@,
        max_value: "0"@,
        increment_by: "Default"@,
        set_voltage_only_for_tested_core: false,
        repeat_core_on_error: true,
        enable_resume_after_unexpected_exit: false,
        wait_before_automatic_resume: "120"@,
        create_system_restore_point: true,
        ask_for_system_restore_point_creation: true,
    }
}

impl Default for AutomaticTestModeConfig {
    fn default() -> (r: AutomaticTestModeConfig)
        ensures
            r@ == default_automatic_test_mode(),
    {
        let r = AutomaticTestModeConfig {
            enable_automatic_adjustment: false,
            start_values: "CurrentValues".to_owned(),
            max_value: "0".to_owned(),
            increment_by: "Default".to_owned(),
            set_voltage_only_for_tested_core: false,
            repeat_core_on_error: true,
            enable_resume_after_unexpected_exit: false,
            wait_before_automatic_resume: "120".to_owned(),
            create_system_restore_point: true,
            ask_for_system_restore_point_creation: true,
        };
        r
    }
}

/// The `[Logging]` section.
#[derive(Debug, Clone)]
pub struct LoggingConfig {
    pub name: String,
    pub log_level: String,
    pub use_windows_event_log: bool,
    pub flush_disk_write_cache: bool,
}

/// The abstract value of a [`LoggingConfig`].
pub struct LoggingView {
    pub name: Seq<char>,
    pub log_level: Seq<char>,
    pub use_windows_event_log: bool,
    pub flush_disk_write_cache: bool,
}

impl View for LoggingConfig {
    type V = LoggingView;

    open spec fn view(&self) -> LoggingView {
        LoggingView {
            name: self.name@,
            log_level: self.log_level@,
            use_windows_event_log: self.use_windows_event_log,
            flush_disk_write_cache: self.flush_disk_write_cache,
        }
    }
}

/// The settings that CoreCycler's own defaults give the section.
pub open spec fn default_logging() -> LoggingView {
    LoggingView {
        name: "CoreCycler"@,
        log_level: "2"@,
        use_windows_event_log: true,
        flush_disk_write_cache: false,
    }
}

impl Default for LoggingConfig {
    fn default() -> (r: LoggingConfig)
        ensures
            r@ == default_logging(),
    {
        let r = LoggingConfig {
            name: "CoreCycler".to_owned(),
            log_level: "2".to_owned(),
            use_windows_event_log: true,
            flush_disk_write_cache: false,
        };
        r
    }
}

/// The `[Update]` section.
#[derive(Debug, Clone)]
pub struct UpdateConfig {
    pub enable_update_check: bool,
    pub update_check_frequency: String,
}

/// The abstract value of a [`UpdateConfig`].
pub struct UpdateView {
    pub enable_update_check: bool,
    pub update_check_frequency: Seq<char>,
}

impl View for UpdateConfig {
    type V = UpdateView;

    open spec fn view(&self) -> UpdateView {
        UpdateView {
            enable_update_check: self.enable_update_check,
            update_check_frequency: self.update_check_frequency@,
        }
    }
}

/// The settings that CoreCycler's own defaults give the section.
pub open spec fn default_update() -> UpdateView {
    UpdateView {
        enable_update_check: true,
        update_check_frequency: "24"@,
    }
}

impl Default for UpdateConfig {
    fn default() -> (r: UpdateConfig)
        ensures
            r@ == default_update(),
    {
        let r = UpdateConfig {
            enable_update_check: true,
            update_check_frequency: "24".to_owned(),
        };
        r
    }
}

/// The `[Prime95Custom]` section.
#[derive(Debug, Clone)]
pub struct Prime95CustomConfig {
    pub cpu_supports_avx: bool,
    pub cpu_supports_avx2: bool,
    pub cpu_supports_fma3: bool,
    pub cpu_supports_avx512: bool,
    pub min_torture_fft: String,
    pub max_torture_fft: String,
    pub torture_mem: String,
    pub torture_time: String,
}

/// The abstract value of a [`Prime95CustomConfig`].
pub struct Prime95CustomView {
    pub cpu_supports_avx: bool,
    pub cpu_supports_avx2: bool,
    pub cpu_supports_fma3: bool,
    pub cpu_supports_avx512: bool,
    pub min_torture_fft: Seq<char>,
    pub max_torture_fft: Seq<char>,
    pub torture_mem: Seq<char>,
    pub torture_time: Seq<char>,
}

impl View for Prime95CustomConfig {
    type V = Prime95CustomView;

    open spec fn view(&self) -> Prime95CustomView {
        Prime95CustomView {
            cpu_supports_avx: self.cpu_supports_avx,
            cpu_supports_avx2: self.cpu_supports_avx2,
            cpu_supports_fma3: self.cpu_supports_fma3,
            cpu_supports_avx512: self.cpu_supports_avx512,
            min_torture_fft: self.min_torture_fft@,
            max_torture_fft: self.max_torture_fft@,
            torture_mem: self.torture_mem@,
            torture_time: self.torture_time@,
        }
    }
}

/// The settings that CoreCycler's own defaults give the section.
pub open spec fn default_prime95_custom() -> Prime95CustomView {
    Prime95CustomView {
        cpu_supports_avx: false,
        cpu_supports_avx2: false,
        cpu_supports_fma3: false,
        cpu_supports_avx512: false,
        min_torture_fft: "4"@,
        max_torture_fft: "8192"@,
        torture_mem: "0"@,
        torture_time: "1"@,
    }
}

impl Default for Prime95CustomConfig {
    fn default() -> (r: Prime95CustomConfig)
        ensures
            r@ == default_prime95_custom(),
    {
        let r = Prime95CustomConfig {
            cpu_supports_avx: false,
            cpu_supports_avx2: false,
            cpu_supports_fma3: false,
            cpu_supports_avx512: false,
            min_torture_fft: "4".to_owned(),
            max_torture_fft: "8192".to_owned(),
            torture_mem: "0".to_owned(),
            torture_time: "1".to_owned(),
        };
        r
    }
}

/// The `[Debug]` section.
#[derive(Debug, Clone)]
pub struct DebugConfig {
    pub disable_cpu_utilization_check: bool,
    pub use_windows_perf_counters: bool,
    pub enable_cpu_frequency_check: bool,
    pub tick_interval: String,
    pub delay_first_error_check: String,
    pub stress_test_program_priority: ProcessPriority,
    pub stress_test_program_window_to_foreground: bool,
    pub suspension_time: String,
    pub mode_to_use_for_suspension: SuspensionMode,
}

/// The abstract value of a [`DebugConfig`].
pub struct DebugView {
    pub disable_cpu_utilization_check: bool,
    pub use_windows_perf_counters: bool,
    pub enable_cpu_frequency_check: bool,
    pub tick_interval: Seq<char>,
    pub delay_first_error_check: Seq<char>,
    pub stress_test_program_priority: ProcessPriority,
    pub stress_test_program_window_to_foreground: bool,
    pub suspension_time: Seq<char>,
    pub mode_to_use_for_suspension: SuspensionMode,
}

impl View for DebugConfig {
    type V = DebugView;

    open spec fn view(&self) -> DebugView {
        DebugView {
            disable_cpu_utilization_check: self.disable_cpu_utilization_check,
            use_windows_perf_counters: self.use_windows_perf_counters,
            enable_cpu_frequency_check: self.enable_cpu_frequency_check,
            tick_interval: self.tick_interval@,
            delay_first_error_check: self.delay_first_error_check@,
            stress_test_program_priority: self.stress_test_program_priority,
            stress_test_program_window_to_foreground: self.stress_test_program_window_to_foreground,
            suspension_time: self.suspension_time@,
            mode_to_use_for_suspension: self.mode_to_use_for_suspension,
        }
    }
}

/// The settings that CoreCycler's own defaults give the section.
pub open spec fn default_debug() -> DebugView {
    DebugView {
        disable_cpu_utilization_check: false,
        use_windows_perf_counters: false,
        enable_cpu_frequency_check: false,
        tick_interval: "10"@,
        delay_first_error_check: "0"@,
        stress_test_program_priority: ProcessPriority::Normal,
        stress_test_program_window_to_foreground: false,
        suspension_time: "1000"@,
        mode_to_use_for_suspension: SuspensionMode::Threads,
    }
}

impl Default for DebugConfig {
    fn default() -> (r: DebugConfig)
        ensures
            r@ == default_debug(),
    {
        let r = DebugConfig {
            disable_cpu_utilization_check: false,
            use_windows_perf_counters: false,
            enable_cpu_frequency_check: false,
            tick_interval: "10".to_owned(),
            delay_first_error_check: "0".to_owned(),
            stress_test_program_priority: ProcessPriority::Normal,
            stress_test_program_window_to_foreground: false,
            suspension_time: "1000".to_owned(),
            mode_to_use_for_suspension: SuspensionMode::Threads,
        };
        r
    }
}

/// A y-cruncher test: its tag and a description.
pub struct YCruncherTest {
    pub tag: &'static str,
    pub description: &'static str,
}

impl YCruncherConfig {
    /// The tags of the current y-cruncher's tests (v0.8 and later).
    pub open spec fn spec_new_tags() -> Seq<Seq<char>> {
        seq!["BKT"@, "BBP"@, "SFTv4"@, "SNT"@, "SVT"@, "FFTv4"@, "N63"@, "VT3"@]
    }

    /// The tags of the old y-cruncher's tests (v0.7.10).
    pub open spec fn spec_old_tags() -> Seq<Seq<char>> {
        seq!["BKT"@, "BBP"@, "SFT"@, "FFT"@, "N32"@, "N64"@, "HNT"@, "VST"@, "C17"@]
    }

    /// The descriptions of the current y-cruncher's tests, in the order of
    /// their tags.
    pub open spec fn spec_new_descriptions() -> Seq<Seq<char>> {
        seq!["Basecase + Karatsuba (Scalar Int)"@, "BBP Digit Extraction (AVX2 Float)"@, "Small In-Cache FFTv4 (AVX2 Float)"@, "Small In-Cache N63 (AVX2 Int)"@, "Small In-Cache VT3 (AVX2 Float)"@, "Fast Fourier Transform v4 (AVX2 Float)"@, "Classic NTT v2 (AVX2 Int)"@, "Vector Transform v3 (AVX2 Float)"@]
    }

    /// The descriptions of the old y-cruncher's tests, in the order of their
    /// tags.
    pub open spec fn spec_old_descriptions() -> Seq<Seq<char>> {
        seq!["Basecase + Karatsuba"@, "BBP Digit Extraction"@, "Small In-Cache FFT"@, "Fast Fourier Transform"@, "Classic NTT 32-bit"@, "Classic NTT 64-bit"@, "Hybrid NTT"@, "Vector Transform"@, "Component 17"@]
    }

    pub open spec fn spec_new_default_tests() -> Seq<char> {
        "BKT, BBP, SFTv4, SNT, SVT, FFTv4, N63, VT3"@
    }

    pub open spec fn spec_old_default_tests() -> Seq<char> {
        "BKT, BBP, SFT, FFT, N32, N64, HNT, VST"@
    }

    /// The tests of the current y-cruncher, tag and description.
    pub fn new_tests() -> (r: Vec<YCruncherTest>)
        ensures
            r@.len() == YCruncherConfig::spec_new_tags().len(),
            forall|i: int|
                0 <= i < r@.len() ==> r@[i].tag@ == #[trigger] YCruncherConfig::spec_new_tags()[i],
            forall|i: int|
                0 <= i < r@.len() ==> r@[i].description@
                    == #[trigger] YCruncherConfig::spec_new_descriptions()[i],
    {
        let mut r: Vec<YCruncherTest> = Vec::new();
        r.push(YCruncherTest { tag: "BKT", description: "Basecase + Karatsuba (Scalar Int)" });
        r.push(YCruncherTest { tag: "BBP", description: "BBP Digit Extraction (AVX2 Float)" });
        r.push(YCruncherTest { tag: "SFTv4", description: "Small In-Cache FFTv4 (AVX2 Float)" });
        r.push(YCruncherTest { tag: "SNT", description: "Small In-Cache N63 (AVX2 Int)" });
        r.push(YCruncherTest { tag: "SVT", description: "Small In-Cache VT3 (AVX2 Float)" });
        r.push(
            YCruncherTest { tag: "FFTv4", description: "Fast Fourier Transform v4 (AVX2 Float)" },
        );
        r.push(YCruncherTest { tag: "N63", description: "Classic NTT v2 (AVX2 Int)" });
        r.push(YCruncherTest { tag: "VT3", description: "Vector Transform v3 (AVX2 Float)" });
        r
    }

    /// The tests of the old y-cruncher, tag and description.
    pub fn old_tests() -> (r: Vec<YCruncherTest>)
        ensures
            r@.len() == YCruncherConfig::spec_old_tags().len(),
            forall|i: int|
                0 <= i < r@.len() ==> r@[i].tag@ == #[trigger] YCruncherConfig::spec_old_tags()[i],
            forall|i: int|
                0 <= i < r@.len() ==> r@[i].description@
                    == #[trigger] YCruncherConfig::spec_old_descriptions()[i],
    {
        let mut r: Vec<YCruncherTest> = Vec::new();
        r.push(YCruncherTest { tag: "BKT", description: "Basecase + Karatsuba" });
        r.push(YCruncherTest { tag: "BBP", description: "BBP Digit Extraction" });
        r.push(YCruncherTest { tag: "SFT", description: "Small In-Cache FFT" });
        r.push(YCruncherTest { tag: "FFT", description: "Fast Fourier Transform" });
        r.push(YCruncherTest { tag: "N32", description: "Classic NTT 32-bit" });
        r.push(YCruncherTest { tag: "N64", description: "Classic NTT 64-bit" });
        r.push(YCruncherTest { tag: "HNT", description: "Hybrid NTT" });
        r.push(YCruncherTest { tag: "VST", description: "Vector Transform" });
        r.push(YCruncherTest { tag: "C17", description: "Component 17" });
        r
    }

    /// The tests that the current y-cruncher runs unless told otherwise.
    pub fn new_default_tests() -> (r: &'static str)
        ensures
            r@ == YCruncherConfig::spec_new_default_tests(),
    {
        "BKT, BBP, SFTv4, SNT, SVT, FFTv4, N63, VT3"
    }

    /// The tests that the old y-cruncher runs unless told otherwise.
    pub fn old_default_tests() -> (r: &'static str)
        ensures
            r@ == YCruncherConfig::spec_old_default_tests(),
    {
        "BKT, BBP, SFT, FFT, N32, N64, HNT, VST"
    }
}

/// All sections of CoreCycler's configuration.
#[derive(Debug, Clone)]
pub struct CoreCyclerConfig {
    pub general: GeneralConfig,
    pub prime95: Prime95Config,
    pub ycruncher: YCruncherConfig,
    pub aida64: Aida64Config,
    pub linpack: LinpackConfig,
    pub automatic_test_mode: AutomaticTestModeConfig,
    pub logging: LoggingConfig,
    pub update: UpdateConfig,
    pub prime95_custom: Prime95CustomConfig,
    pub debug: DebugConfig,
}

/// The abstract value of a [`CoreCyclerConfig`].
pub struct ConfigView {
    pub general: GeneralView,
    pub prime95: Prime95View,
    pub ycruncher: YCruncherView,
    pub aida64: Aida64View,
    pub linpack: LinpackView,
    pub automatic_test_mode: AutomaticTestModeView,
    pub logging: LoggingView,
    pub update: UpdateView,
    pub prime95_custom: Prime95CustomView,
    pub debug: DebugView,
}

impl View for CoreCyclerConfig {
    type V = ConfigView;

    open spec fn view(&self) -> ConfigView {
        ConfigView {
            general: self.general@,
            prime95: self.prime95@,
            ycruncher: self.ycruncher@,
            aida64: self.aida64@,
            linpack: self.linpack@,
            automatic_test_mode: self.automatic_test_mode@,
            logging: self.logging@,
            update: self.update@,
            prime95_custom: self.prime95_custom@,
            debug: self.debug@,
        }
    }
}

/// CoreCycler's default configuration.
pub open spec fn default_config() -> ConfigView {
    ConfigView {
        general: default_general(),
        prime95: default_prime95(),
        ycruncher: default_ycruncher(),
        aida64: default_aida64(),
        linpack: default_linpack(),
        automatic_test_mode: default_automatic_test_mode(),
        logging: default_logging(),
        update: default_update(),
        prime95_custom: default_prime95_custom(),
        debug: default_debug(),
    }
}

impl Default for CoreCyclerConfig {
    fn default() -> (r: CoreCyclerConfig)
        ensures
            r@ == default_config(),
    {
        CoreCyclerConfig {
            general: GeneralConfig::default(),
            prime95: Prime95Config::default(),
            ycruncher: YCruncherConfig::default(),
            aida64: Aida64Config::default(),
            linpack: LinpackConfig::default(),
            automatic_test_mode: AutomaticTestModeConfig::default(),
            logging: LoggingConfig::default(),
            update: UpdateConfig::default(),
            prime95_custom: Prime95CustomConfig::default(),
            debug: DebugConfig::default(),
        }
    }
}


/// Reading back the name of a program gives the program.
pub proof fn lemma_stress_test_program_round_trip(x: StressTestProgram)
    ensures
        StressTestProgram::parse(x.name()) == x,
        plain_word(x.name(), false),
{
    reveal_strlit("PRIME95");
    reveal_strlit("AIDA64");
    reveal_strlit("YCRUNCHER");
    reveal_strlit("YCRUNCHER_OLD");
    reveal_strlit("LINPACK");
    reveal_with_fuel(plain_word, 14);
    assert(plain_word(x.name(), true));
    lemma_plain_word(x.name(), true);
    assert(plain_word(x.name(), false));
}

/// Reading back the name of a Prime95 mode gives the Prime95 mode.
pub proof fn lemma_prime95_mode_round_trip(x: Prime95Mode)
    ensures
        Prime95Mode::parse(x.name()) == x,
        plain_word(x.name(), false),
{
    reveal_strlit("SSE");
    reveal_strlit("AVX");
    reveal_strlit("AVX2");
    reveal_strlit("AVX512");
    reveal_strlit("CUSTOM");
    reveal_with_fuel(plain_word, 7);
    assert(plain_word(x.name(), true));
    lemma_plain_word(x.name(), true);
    assert(plain_word(x.name(), false));
}

/// Reading back the name of a Linpack version gives the Linpack version.
pub proof fn lemma_linpack_version_round_trip(x: LinpackVersion)
    ensures
        LinpackVersion::parse(x.name()) == x,
        plain_word(x.name(), false),
{
    reveal_strlit("2018");
    reveal_strlit("2019");
    reveal_strlit("2021");
    reveal_strlit("2024");
    reveal_with_fuel(plain_word, 5);
    assert(plain_word(x.name(), false));
    lemma_plain_word(x.name(), false);
}

/// Reading back the name of a Linpack mode gives the Linpack mode.
pub proof fn lemma_linpack_mode_round_trip(x: LinpackMode)
    ensures
        LinpackMode::parse(x.name()) == x,
        plain_word(x.name(), false),
{
    reveal_strlit("SLOWEST");
    reveal_strlit("SLOW");
    reveal_strlit("MEDIUM");
    reveal_strlit("FAST");
    reveal_strlit("FASTEST");
    reveal_with_fuel(plain_word, 8);
    assert(plain_word(x.name(), true));
    lemma_plain_word(x.name(), true);
    assert(plain_word(x.name(), false));
}

/// Reading back the name of a priority gives the priority.
pub proof fn lemma_process_priority_round_trip(x: ProcessPriority)
    ensures
        ProcessPriority::parse(x.name()) == x,
        plain_word(x.name(), false),
{
    reveal_strlit("Idle");
    reveal_strlit("BelowNormal");
    reveal_strlit("Normal");
    reveal_strlit("AboveNormal");
    reveal_strlit("High");
    reveal_strlit("RealTime");
    reveal_with_fuel(plain_word, 12);
    assert(plain_word(x.name(), false));
    lemma_plain_word(x.name(), false);
}

/// Reading back the name of a suspension mode gives the suspension mode.
pub proof fn lemma_suspension_mode_round_trip(x: SuspensionMode)
    ensures
        SuspensionMode::parse(x.name()) == x,
        plain_word(x.name(), false),
{
    reveal_strlit("Debugger");
    reveal_strlit("Threads");
    reveal_with_fuel(plain_word, 9);
    assert(plain_word(x.name(), false));
    lemma_plain_word(x.name(), false);
}

/// Reading back the name of a y-cruncher mode gives the mode.
pub proof fn lemma_ycruncher_mode_round_trip(x: YCruncherMode)
    ensures
        YCruncherMode::parse(x.name()) == x,
        plain_word(x.name(), false),
{
    reveal_strlit("auto");
    reveal_strlit("00-x86");
    reveal_strlit("04-P4P");
    reveal_strlit("05-A64");
    reveal_strlit("08-NHM");
    reveal_strlit("11-SNB");
    reveal_strlit("11-BD1");
    reveal_strlit("12-BD2");
    reveal_strlit("13-HSW");
    reveal_strlit("14-BDW");
    reveal_strlit("17-SKX");
    reveal_strlit("17-ZN1");
    reveal_strlit("18-CNL");
    reveal_strlit("19-ZN2");
    reveal_strlit("20-ZN3");
    reveal_strlit("22-ZN4");
    reveal_strlit("24-ZN5");
    reveal_strlit(" ~");
    reveal_strlit(" (");
    reveal_with_fuel(plain_word, 7);
    let n = x.name();
    assert(plain_word(n, false));
    lemma_plain_word(n, false);
    lemma_before_absent(n, " ~"@);
    lemma_before_absent(n, " ("@);
}

/// Reading a setting's value ignores the white space around it.
pub proof fn lemma_parse_ignores_surrounding_space(s: Seq<char>)
    ensures
        StressTestProgram::parse(s) == StressTestProgram::parse(trim(s)),
        Prime95Mode::parse(s) == Prime95Mode::parse(trim(s)),
        LinpackVersion::parse(s) == LinpackVersion::parse(trim(s)),
        LinpackMode::parse(s) == LinpackMode::parse(trim(s)),
        ProcessPriority::parse(s) == ProcessPriority::parse(trim(s)),
        SuspensionMode::parse(s) == SuspensionMode::parse(trim(s)),
        CoreTestOrderView::parse(s) == CoreTestOrderView::parse(trim(s)),
        FFTSizeView::parse(s) == FFTSizeView::parse(trim(s)),
        YCruncherMode::parse(s) == YCruncherMode::parse(trim(s)),
{
    lemma_trim_part(s);
    lemma_trim_trimmed(trim(s));
}

/// The program, the Prime95 mode and the Linpack mode are read without
/// regard to the case of ASCII letters.
pub proof fn lemma_parse_ignores_case(s: Seq<char>)
    requires
        is_ascii_seq(s),
    ensures
        StressTestProgram::parse(ascii_upper(s)) == StressTestProgram::parse(s),
        Prime95Mode::parse(ascii_upper(s)) == Prime95Mode::parse(s),
        LinpackMode::parse(ascii_upper(s)) == LinpackMode::parse(s),
{
    lemma_trim_upper(s);
    lemma_upper_ascii_upper(trim(s));
}

/// Every y-cruncher mode is shown as its name, then ` (`, a description
/// that is not empty and `)`; the name holds no ` (`, so the label up to its
/// first ` (` is the name.
pub proof fn lemma_ycruncher_label_format(x: YCruncherMode)
    ensures
        exists|d: Seq<char>| d.len() > 0 && #[trigger] (x.name() + " ("@ + d + ")"@) == x.spec_label(),
        !contains_seq(x.name(), " ("@),
        before(x.spec_label(), " ("@) == x.name(),
{
    lemma_ycruncher_mode_round_trip(x);
    lemma_plain_word(x.name(), false);
    reveal_strlit("auto (Auto-detect)");
    reveal_strlit("00-x86 (Legacy)");
    reveal_strlit("04-P4P (Pentium 4)");
    reveal_strlit("05-A64 (Athlon 64)");
    reveal_strlit("08-NHM (Nehalem)");
    reveal_strlit("11-SNB (Sandy Bridge)");
    reveal_strlit("11-BD1 (Bulldozer, old yCruncher)");
    reveal_strlit("12-BD2 (Piledriver)");
    reveal_strlit("13-HSW (Haswell)");
    reveal_strlit("14-BDW (Broadwell)");
    reveal_strlit("17-SKX (Skylake-X AVX512)");
    reveal_strlit("17-ZN1 (Zen 1)");
    reveal_strlit("18-CNL (Cannon Lake AVX512)");
    reveal_strlit("19-ZN2 (Zen 2/3)");
    reveal_strlit("20-ZN3 (Zen 3, old yCruncher)");
    reveal_strlit("22-ZN4 (Zen 4 AVX512)");
    reveal_strlit("24-ZN5 (Zen 5 AVX512)");
    reveal_strlit("auto");
    reveal_strlit("00-x86");
    reveal_strlit("04-P4P");
    reveal_strlit("05-A64");
    reveal_strlit("08-NHM");
    reveal_strlit("11-SNB");
    reveal_strlit("11-BD1");
    reveal_strlit("12-BD2");
    reveal_strlit("13-HSW");
    reveal_strlit("14-BDW");
    reveal_strlit("17-SKX");
    reveal_strlit("17-ZN1");
    reveal_strlit("18-CNL");
    reveal_strlit("19-ZN2");
    reveal_strlit("20-ZN3");
    reveal_strlit("22-ZN4");
    reveal_strlit("24-ZN5");
    reveal_strlit(" (");
    reveal_strlit(")");
    let n = x.name();
    let l = x.spec_label();
    let d = l.subrange((n.len() + 2) as int, l.len() - 1);
    assert(l =~= n + " ("@ + d + ")"@);
    assert(d.len() > 0);
    assert(is_ws(' '));
    lemma_before_absent(n, " ("@);
    lemma_find(n, " ("@);
    assert(n + " ("@ + (d + ")"@) =~= l);
    lemma_before_prefix(n, " ("@, d + ")"@);
}

/// Choosing a mode by its label in the editor selects that mode: the name
/// before ` (` reads back as the mode.
pub proof fn lemma_ycruncher_label_selects(x: YCruncherMode)
    ensures
        YCruncherMode::parse(before(x.spec_label(), " ("@)) == x,
{
    lemma_ycruncher_label_format(x);
    lemma_ycruncher_mode_round_trip(x);
}

impl CoreTestOrderView {
    /// The value is a preset, or a custom text that has no surrounding white
    /// space and is not the name of a preset.
    pub open spec fn is_canonical(self) -> bool {
        match self {
            CoreTestOrderView::Custom(s) => trim(s) == s && !CoreTestOrder::spec_presets().contains(s),
            _ => true,
        }
    }
}

/// Reading back the name of a canonical core test order gives the value.
pub proof fn lemma_core_test_order_round_trip(x: CoreTestOrderView)
    requires
        x.is_canonical(),
    ensures
        CoreTestOrderView::parse(x.name()) == x,
{
    reveal_strlit("Default");
    reveal_strlit("Alternate");
    reveal_strlit("CorePairs");
    reveal_strlit("Random");
    reveal_strlit("Sequential");
    reveal_with_fuel(plain_word, 11);
    if let CoreTestOrderView::Custom(s) = x {
        assert(CoreTestOrder::spec_presets()[0] == "Default"@);
        assert(CoreTestOrder::spec_presets()[1] == "Alternate"@);
        assert(CoreTestOrder::spec_presets()[2] == "CorePairs"@);
        assert(CoreTestOrder::spec_presets()[3] == "Random"@);
        assert(CoreTestOrder::spec_presets()[4] == "Sequential"@);
    } else {
        assert(plain_word(x.name(), false));
        lemma_plain_word(x.name(), false);
    }
}

impl FFTSizeView {
    /// The value is a preset, or a custom text that has no surrounding white
    /// space and is not the name of a preset.
    pub open spec fn is_canonical(self) -> bool {
        match self {
            FFTSizeView::Custom(s) => trim(s) == s && !FFTSize::spec_presets().contains(s),
            _ => true,
        }
    }
}

/// Reading back the name of a canonical FFT size gives the value.
pub proof fn lemma_fft_size_round_trip(x: FFTSizeView)
    requires
        x.is_canonical(),
    ensures
        FFTSizeView::parse(x.name()) == x,
{
    reveal_strlit("Smallest");
    reveal_strlit("Small");
    reveal_strlit("Large");
    reveal_strlit("Huge");
    reveal_strlit("All");
    reveal_strlit("Moderate");
    reveal_strlit("Heavy");
    reveal_strlit("HeavyShort");
    reveal_with_fuel(plain_word, 11);
    if let FFTSizeView::Custom(s) = x {
        assert(FFTSize::spec_presets()[0] == "Smallest"@);
        assert(FFTSize::spec_presets()[1] == "Small"@);
        assert(FFTSize::spec_presets()[2] == "Large"@);
        assert(FFTSize::spec_presets()[3] == "Huge"@);
        assert(FFTSize::spec_presets()[4] == "All"@);
        assert(FFTSize::spec_presets()[5] == "Moderate"@);
        assert(FFTSize::spec_presets()[6] == "Heavy"@);
        assert(FFTSize::spec_presets()[7] == "HeavyShort"@);
    } else {
        assert(plain_word(x.name(), false));
        lemma_plain_word(x.name(), false);
    }
}

} // verus!
