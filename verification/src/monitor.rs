//! Following a run from CoreCycler's output: the state of every core, the
//! iteration, and a status line, updated one output line at a time.
use vstd::prelude::*;
use vstd::arithmetic::div_mod::lemma_fundamental_div_mod_converse;

use crate::text::{
    chars_of, contains_lit, contains_seq, copy_range, decimal, find, find_exec, leading_digits,
    lemma_contains_part, lemma_find, parse_u32, push_decimal, push_lit, spec_parse_u32, starts_with, string_of,
    take_digits, trim, trim_start_by, trim_start_class, trim_ws, TrimClass, is_ascii_letter,
    lemma_trim_start_parts,
};

verus! {

/// The state of one core in a run.
#[derive(Debug, Clone, Copy, PartialEq, Eq, Structural)]
pub enum CoreState {
    Idle,
    Testing,
    Passed,
    Error,
    Skipped,
}

/// One core: its index, state, how many errors it threw and how many
/// times it passed a test.
#[derive(Debug, Clone, Copy)]
pub struct CoreStatus {
    pub id: u32,
    pub state: CoreState,
    pub error_count: u32,
    pub times_tested: u32,
}

// ---------------------------------------------------------------------------
// Numbers in output lines
// ---------------------------------------------------------------------------

/// The number that follows the first `keyword` in `line`: the first run of
/// digits after it, read as a `u32`.
pub open spec fn number_after(line: Seq<char>, keyword: Seq<char>) -> Option<u32> {
    match find(line, keyword) {
        Some(p) => spec_parse_u32(
            leading_digits(trim_start_by(line.skip(p + keyword.len()), TrimClass::NonDigit)),
        ),
        None => None,
    }
}

/// The core number right after the first `Core ` in `line`.
pub open spec fn core_number(line: Seq<char>) -> Option<u32> {
    match find(line, "Core "@) {
        Some(p) => spec_parse_u32(leading_digits(line.skip(p + "Core "@.len()))),
        None => None,
    }
}

/// The run of digits after the first `keyword` in `line`, as a number.
pub fn extract_number_after(line: &str, keyword: &str) -> (r: Option<u32>)
    ensures
        r == number_after(line@, keyword@),
{
    let l = chars_of(line);
    let k = chars_of(keyword);
    match find_exec(&l, &k) {
        Some(p) => {
            proof {
                lemma_find(l@, k@);
            }
            let n = l.len();
            assert(p + k@.len() <= n);
            let rest = copy_range(&l, p + k.len(), n);
            let tail = trim_start_class(&rest, TrimClass::NonDigit);
            let digits = take_digits(&tail);
            parse_u32(&digits)
        },
        None => None,
    }
}

/// The number right after the first `Core ` in `line`.
pub fn extract_core_number(line: &str) -> (r: Option<u32>)
    ensures
        r == core_number(line@),
{
    let l = chars_of(line);
    let k = chars_of("Core ");
    match find_exec(&l, &k) {
        Some(p) => {
            proof {
                lemma_find(l@, k@);
            }
            let n = l.len();
            assert(p + k@.len() <= n);
            let rest = copy_range(&l, p + k.len(), n);
            let digits = take_digits(&rest);
            parse_u32(&digits)
        },
        None => None,
    }
}

// ---------------------------------------------------------------------------
// The monitor state and its updates
// ---------------------------------------------------------------------------

/// What the monitor shows of a run.
pub struct MonitorState {
    pub cores: Vec<CoreStatus>,
    pub current_iteration: u32,
    pub status_text: String,
}

/// The abstract value of a [`MonitorState`].
pub struct MonitorView {
    pub cores: Seq<CoreStatus>,
    pub current_iteration: u32,
    pub status_text: Seq<char>,
}

impl View for MonitorState {
    type V = MonitorView;

    open spec fn view(&self) -> MonitorView {
        MonitorView {
            cores: self.cores@,
            current_iteration: self.current_iteration,
            status_text: self.status_text@,
        }
    }
}

/// Every core has passed fewer than `bound` tests.
pub open spec fn tests_below(cores: Seq<CoreStatus>, bound: int) -> bool {
    forall|i: int| 0 <= i < cores.len() ==> #[trigger] cores[i].times_tested < bound
}

/// Every core has thrown fewer than `bound` errors.
pub open spec fn errors_below(cores: Seq<CoreStatus>, bound: int) -> bool {
    forall|i: int| 0 <= i < cores.len() ==> #[trigger] cores[i].error_count < bound
}

/// The cores with every core under test marked as passed, its test counted.
pub open spec fn pass_testing(cores: Seq<CoreStatus>) -> Seq<CoreStatus> {
    Seq::new(
        cores.len(),
        |i: int|
            if cores[i].state == CoreState::Testing {
                CoreStatus {
                    id: cores[i].id,
                    state: CoreState::Passed,
                    error_count: cores[i].error_count,
                    times_tested: (cores[i].times_tested + 1) as u32,
                }
            } else {
                cores[i]
            },
    )
}

/// The index of the first core of `cores[i..]` with number `id`.
pub open spec fn find_core_from(cores: Seq<CoreStatus>, id: u32, i: int) -> Option<int>
    decreases cores.len() - i,
{
    if i < 0 || i >= cores.len() {
        None
    } else if cores[i].id == id {
        Some(i)
    } else {
        find_core_from(cores, id, i + 1)
    }
}

pub open spec fn find_core(cores: Seq<CoreStatus>, id: u32) -> Option<int> {
    find_core_from(cores, id, 0)
}

pub proof fn lemma_find_core_from(cores: Seq<CoreStatus>, id: u32, i: int)
    requires
        0 <= i,
    ensures
        find_core_from(cores, id, i) matches Some(k) ==> i <= k < cores.len() && cores[k].id == id,
    decreases cores.len() - i,
{
    if i < cores.len() && cores[i].id != id {
        lemma_find_core_from(cores, id, i + 1);
    }
}

/// `core` in the state `state`.
pub open spec fn with_state(core: CoreStatus, state: CoreState) -> CoreStatus {
    CoreStatus {
        id: core.id,
        state: state,
        error_count: core.error_count,
        times_tested: core.times_tested,
    }
}

/// `core` marked as failed, its error counted.
pub open spec fn with_error(core: CoreStatus) -> CoreStatus {
    CoreStatus {
        id: core.id,
        state: CoreState::Error,
        error_count: (core.error_count + 1) as u32,
        times_tested: core.times_tested,
    }
}

/// A line of the log file without the `[LOG] ` mark that the log reader
/// puts before it.
pub open spec fn without_log_mark(line: Seq<char>) -> Seq<char> {
    if starts_with(line, "[LOG] "@) {
        line.skip(6)
    } else {
        line
    }
}

/// `Iteration N`: the iteration is N; a line `- Iteration N` that is no
/// progress line also shows it in the status.
pub open spec fn on_iteration(m: MonitorView, l: Seq<char>) -> MonitorView {
    if contains_seq(l, "Iteration"@) {
        match number_after(l, "Iteration "@) {
            Some(n) => MonitorView {
                cores: m.cores,
                current_iteration: n,
                status_text: if contains_seq(l, "- Iteration"@) && !contains_seq(l, "Progress"@) {
                    "Iteration "@ + decimal(n as nat)
                } else {
                    m.status_text
                },
            },
            None => m,
        }
    } else {
        m
    }
}

/// `Set to Core N`: the cores under test have passed, and core N is under
/// test now.
pub open spec fn on_set_core(m: MonitorView, l: Seq<char>) -> MonitorView {
    if contains_seq(l, "Set to Core"@) {
        match number_after(l, "Set to Core "@) {
            Some(c) => {
                let cs = pass_testing(m.cores);
                match find_core(cs, c) {
                    Some(i) => MonitorView {
                        cores: cs.update(i, with_state(cs[i], CoreState::Testing)),
                        current_iteration: m.current_iteration,
                        status_text: "Testing Core "@ + decimal(c as nat),
                    },
                    None => MonitorView {
                        cores: cs,
                        current_iteration: m.current_iteration,
                        status_text: m.status_text,
                    },
                }
            },
            None => m,
        }
    } else {
        m
    }
}

/// A progress line with a runtime becomes the status, from its first letter.
pub open spec fn on_progress(m: MonitorView, l: Seq<char>) -> MonitorView {
    if contains_seq(l, "Progress"@) && contains_seq(l, "Runtime"@) {
        MonitorView {
            cores: m.cores,
            current_iteration: m.current_iteration,
            status_text: trim_start_by(trim(l), TrimClass::NonLetter),
        }
    } else {
        m
    }
}

/// The cores under test have passed when `marker` is in the line.
pub open spec fn on_all_passed(m: MonitorView, l: Seq<char>, marker: Seq<char>) -> MonitorView {
    if contains_seq(l, marker) {
        MonitorView {
            cores: pass_testing(m.cores),
            current_iteration: m.current_iteration,
            status_text: m.status_text,
        }
    } else {
        m
    }
}

/// The core named in the line has thrown an error.
pub open spec fn mark_error(m: MonitorView, l: Seq<char>) -> MonitorView {
    match core_number(l) {
        Some(c) => match find_core(m.cores, c) {
            Some(i) => MonitorView {
                cores: m.cores.update(i, with_error(m.cores[i])),
                current_iteration: m.current_iteration,
                status_text: m.status_text,
            },
            None => m,
        },
        None => m,
    }
}

/// `has thrown an error`: the core named is in error.
pub open spec fn on_error(m: MonitorView, l: Seq<char>) -> MonitorView {
    if contains_seq(l, "has thrown an error"@) {
        mark_error(m, l)
    } else {
        m
    }
}

/// A WHEA error while testing: the core named is in error.
pub open spec fn on_whea(m: MonitorView, l: Seq<char>) -> MonitorView {
    if contains_seq(l, "WHEA error while"@) || contains_seq(l, "WHEA errors while"@) {
        mark_error(m, l)
    } else {
        m
    }
}

/// `skipping`: the core named is skipped.
pub open spec fn on_skip(m: MonitorView, l: Seq<char>) -> MonitorView {
    if contains_seq(l, "skipping"@) {
        match core_number(l) {
            Some(c) => match find_core(m.cores, c) {
                Some(i) => MonitorView {
                    cores: m.cores.update(i, with_state(m.cores[i], CoreState::Skipped)),
                    current_iteration: m.current_iteration,
                    status_text: m.status_text,
                },
                None => m,
            },
            None => m,
        }
    } else {
        m
    }
}

/// The monitor after one line of output, the patterns tested in order.
pub open spec fn apply_line(m: MonitorView, raw: Seq<char>) -> MonitorView {
    let l = without_log_mark(raw);
    let m1 = on_iteration(m, l);
    let m2 = on_set_core(m1, l);
    let m3 = on_progress(m2, l);
    let m4 = on_all_passed(m3, l, "Test completed in"@);
    let m5 = on_error(m4, l);
    let m6 = on_whea(m5, l);
    let m7 = on_skip(m6, l);
    on_all_passed(m7, l, "No core has thrown an error"@)
}

fn pass_testing_exec(cores: &mut Vec<CoreStatus>)
    requires
        tests_below(old(cores)@, u32::MAX as int),
    ensures
        final(cores)@ == pass_testing(old(cores)@),
{
    let ghost start = cores@;
    let mut i: usize = 0;
    while i < cores.len()
        invariant
            i <= cores@.len() == start.len(),
            tests_below(start, u32::MAX as int),
            forall|j: int| 0 <= j < i ==> #[trigger] cores@[j] == pass_testing(start)[j],
            forall|j: int| i <= j < cores@.len() ==> #[trigger] cores@[j] == start[j],
        decreases cores.len() - i,
    {
        let c = cores[i];
        assert(cores@[i as int] == start[i as int]);
        assert(start[i as int].times_tested < u32::MAX);
        if c.state == CoreState::Testing {
            cores.set(
                i,
                CoreStatus {
                    id: c.id,
                    state: CoreState::Passed,
                    error_count: c.error_count,
                    times_tested: c.times_tested + 1,
                },
            );
        }
        i = i + 1;
    }
    assert(cores@ =~= pass_testing(start));
}

fn find_core_exec(cores: &Vec<CoreStatus>, id: u32) -> (r: Option<usize>)
    ensures
        match r {
            Some(k) => find_core(cores@, id) == Some(k as int) && k < cores@.len(),
            None => find_core(cores@, id) is None,
        },
{
    proof {
        lemma_find_core_from(cores@, id, 0);
    }
    let mut i: usize = 0;
    while i < cores.len()
        invariant
            i <= cores@.len(),
            find_core(cores@, id) == find_core_from(cores@, id, i as int),
        decreases cores.len() - i,
    {
        if cores[i].id == id {
            return Some(i);
        }
        i = i + 1;
    }
    None
}

/// The status text `label` followed by the decimal numeral of `n`.
fn label_number(label: &str, n: u32) -> (r: String)
    ensures
        r@ == label@ + decimal(n as nat),
{
    let mut out: Vec<char> = Vec::new();
    push_lit(&mut out, label);
    push_decimal(&mut out, n as u64);
    assert(out@ =~= label@ + decimal(n as nat));
    string_of(&out)
}

impl MonitorState {
    /// The monitor before a run: cores `0..num_cores`, all idle with no
    /// counts, iteration 0 and the status `Ready`.
    pub fn new(num_cores: u32) -> (r: MonitorState)
        ensures
            r.cores@.len() == num_cores,
            forall|i: int|
                0 <= i < num_cores ==> #[trigger] r.cores@[i] == (CoreStatus {
                    id: i as u32,
                    state: CoreState::Idle,
                    error_count: 0,
                    times_tested: 0,
                }),
            r.current_iteration == 0,
            r.status_text@ == "Ready"@,
    {
        let mut cores: Vec<CoreStatus> = Vec::new();
        let mut i: u32 = 0;
        while i < num_cores
            invariant
                i <= num_cores,
                cores@.len() == i,
                forall|j: int|
                    0 <= j < i ==> #[trigger] cores@[j] == (CoreStatus {
                        id: j as u32,
                        state: CoreState::Idle,
                        error_count: 0,
                        times_tested: 0,
                    }),
            decreases num_cores - i,
        {
            cores.push(CoreStatus { id: i, state: CoreState::Idle, error_count: 0, times_tested: 0 });
            i = i + 1;
        }
        MonitorState { cores, current_iteration: 0, status_text: "Ready".to_owned() }
    }

    fn iteration_step(&mut self, l: &str)
        ensures
            final(self)@ == on_iteration(old(self)@, l@),
    {
        let lc = chars_of(l);
        if contains_lit(&lc, "Iteration") {
            match extract_number_after(l, "Iteration ") {
                Some(n) => {
                    self.current_iteration = n;
                    if contains_lit(&lc, "- Iteration") && !contains_lit(&lc, "Progress") {
                        self.status_text = label_number("Iteration ", n);
                    }
                },
                None => {},
            }
        }
    }

    fn set_core_step(&mut self, l: &str)
        requires
            tests_below(old(self)@.cores, u32::MAX as int),
        ensures
            final(self)@ == on_set_core(old(self)@, l@),
    {
        let lc = chars_of(l);
        if contains_lit(&lc, "Set to Core") {
            match extract_number_after(l, "Set to Core ") {
                Some(c) => {
                    pass_testing_exec(&mut self.cores);
                    match find_core_exec(&self.cores, c) {
                        Some(i) => {
                            let core = self.cores[i];
                            self.cores.set(
                                i,
                                CoreStatus {
                                    id: core.id,
                                    state: CoreState::Testing,
                                    error_count: core.error_count,
                                    times_tested: core.times_tested,
                                },
                            );
                            self.status_text = label_number("Testing Core ", c);
                        },
                        None => {},
                    }
                },
                None => {},
            }
        }
    }

    fn progress_step(&mut self, l: &str)
        ensures
            final(self)@ == on_progress(old(self)@, l@),
    {
        let lc = chars_of(l);
        if contains_lit(&lc, "Progress") && contains_lit(&lc, "Runtime") {
            let t = trim_ws(&lc);
            let s = trim_start_class(&t, TrimClass::NonLetter);
            self.status_text = string_of(&s);
        }
    }

    fn all_passed_step(&mut self, l: &str, marker: &str)
        requires
            tests_below(old(self)@.cores, u32::MAX as int),
        ensures
            final(self)@ == on_all_passed(old(self)@, l@, marker@),
    {
        let lc = chars_of(l);
        if contains_lit(&lc, marker) {
            pass_testing_exec(&mut self.cores);
        }
    }

    fn error_mark(&mut self, l: &str)
        requires
            errors_below(old(self)@.cores, u32::MAX as int),
        ensures
            final(self)@ == mark_error(old(self)@, l@),
    {
        match extract_core_number(l) {
            Some(c) => match find_core_exec(&self.cores, c) {
                Some(i) => {
                    let core = self.cores[i];
                    assert(self.cores@[i as int].error_count < u32::MAX);
                    self.cores.set(
                        i,
                        CoreStatus {
                            id: core.id,
                            state: CoreState::Error,
                            error_count: core.error_count + 1,
                            times_tested: core.times_tested,
                        },
                    );
                },
                None => {},
            },
            None => {},
        }
    }

    fn skip_step(&mut self, l: &str)
        ensures
            final(self)@ == on_skip(old(self)@, l@),
    {
        let lc = chars_of(l);
        if contains_lit(&lc, "skipping") {
            match extract_core_number(l) {
                Some(c) => match find_core_exec(&self.cores, c) {
                    Some(i) => {
                        let core = self.cores[i];
                        self.cores.set(
                            i,
                            CoreStatus {
                                id: core.id,
                                state: CoreState::Skipped,
                                error_count: core.error_count,
                                times_tested: core.times_tested,
                            },
                        );
                    },
                    None => {},
                },
                None => {},
            }
        }
    }

    /// Updates the monitor from one line of CoreCycler's output or log.
    pub fn parse_output_line(&mut self, line: &str)
        requires
            tests_below(old(self)@.cores, u32::MAX - 2),
            errors_below(old(self)@.cores, u32::MAX - 1),
        ensures
            final(self)@ == apply_line(old(self)@, line@),
    {
        let raw = chars_of(line);
        let mark = chars_of("[LOG] ");
        proof {
            reveal_strlit("[LOG] ");
        }
        let l: String = if crate::text::starts_with_exec(&raw, &mark) {
            string_of(&copy_range(&raw, 6, raw.len()))
        } else {
            line.to_owned()
        };
        proof {
            reveal_strlit("[LOG] ");
        }
        assert(l@ == without_log_mark(line@));
        let ls = l.as_str();
        let ghost m0 = self@;
        self.iteration_step(ls);
        proof {
            lemma_phase_counters(m0, l@);
        }
        self.set_core_step(ls);
        self.progress_step(ls);
        self.all_passed_step(ls, "Test completed in");
        let lc = chars_of(ls);
        if contains_lit(&lc, "has thrown an error") {
            self.error_mark(ls);
        }
        if contains_lit(&lc, "WHEA error while") || contains_lit(&lc, "WHEA errors while") {
            self.error_mark(ls);
        }
        self.skip_step(ls);
        self.all_passed_step(ls, "No core has thrown an error");
    }
}

/// How far each update of a line can raise the counters.
proof fn lemma_phase_counters(m: MonitorView, l: Seq<char>)
    requires
        tests_below(m.cores, u32::MAX - 2),
        errors_below(m.cores, u32::MAX - 1),
    ensures
        ({
            let m1 = on_iteration(m, l);
            let m2 = on_set_core(m1, l);
            let m3 = on_progress(m2, l);
            let m4 = on_all_passed(m3, l, "Test completed in"@);
            let m5 = on_error(m4, l);
            let m6 = on_whea(m5, l);
            let m7 = on_skip(m6, l);
            &&& tests_below(m1.cores, u32::MAX - 2)
            &&& tests_below(m3.cores, u32::MAX - 1)
            &&& tests_below(m7.cores, u32::MAX as int)
            &&& errors_below(m4.cores, u32::MAX - 1)
            &&& errors_below(m5.cores, u32::MAX as int)
        }),
{
    let m1 = on_iteration(m, l);
    let m2 = on_set_core(m1, l);
    let m3 = on_progress(m2, l);
    let m4 = on_all_passed(m3, l, "Test completed in"@);
    let m5 = on_error(m4, l);
    let m6 = on_whea(m5, l);
    if let Some(c) = number_after(l, "Set to Core "@) {
        lemma_find_core_from(pass_testing(m1.cores), c, 0);
    }
    if let Some(c) = core_number(l) {
        lemma_find_core_from(m4.cores, c, 0);
        lemma_find_core_from(m5.cores, c, 0);
        lemma_find_core_from(m6.cores, c, 0);
    }
    assert(tests_below(m2.cores, u32::MAX - 1));
    assert(tests_below(m4.cores, u32::MAX as int));
}

// ---------------------------------------------------------------------------
// What a line of output cannot do
// ---------------------------------------------------------------------------

/// `b` has the cores of `a`, in order, with no counter lowered.
pub open spec fn counts_kept(a: Seq<CoreStatus>, b: Seq<CoreStatus>) -> bool {
    &&& a.len() == b.len()
    &&& forall|i: int|
        0 <= i < a.len() ==> #[trigger] b[i].id == a[i].id && b[i].error_count >= a[i].error_count
            && b[i].times_tested >= a[i].times_tested
}

proof fn lemma_pass_keeps(a: Seq<CoreStatus>)
    requires
        tests_below(a, u32::MAX as int),
    ensures
        counts_kept(a, pass_testing(a)),
{
}

proof fn lemma_mark_error_keeps(m: MonitorView, l: Seq<char>)
    requires
        errors_below(m.cores, u32::MAX as int),
    ensures
        counts_kept(m.cores, mark_error(m, l).cores),
{
    if let Some(c) = core_number(l) {
        lemma_find_core_from(m.cores, c, 0);
    }
}

/// A line of output never adds or removes a core, never renumbers one, and
/// never lowers an error or test count.
#[verifier::spinoff_prover]
pub proof fn lemma_line_keeps_counts(m: MonitorView, raw: Seq<char>)
    requires
        tests_below(m.cores, u32::MAX - 2),
        errors_below(m.cores, u32::MAX - 1),
    ensures
        counts_kept(m.cores, apply_line(m, raw).cores),
{
    let l = without_log_mark(raw);
    lemma_phase_counters(m, l);
    let m1 = on_iteration(m, l);
    let m2 = on_set_core(m1, l);
    let m3 = on_progress(m2, l);
    let m4 = on_all_passed(m3, l, "Test completed in"@);
    let m5 = on_error(m4, l);
    let m6 = on_whea(m5, l);
    let m7 = on_skip(m6, l);
    let m8 = on_all_passed(m7, l, "No core has thrown an error"@);
    lemma_pass_keeps(m1.cores);
    if let Some(c) = number_after(l, "Set to Core "@) {
        lemma_find_core_from(pass_testing(m1.cores), c, 0);
    }
    assert(counts_kept(m1.cores, m2.cores));
    lemma_pass_keeps(m3.cores);
    assert(counts_kept(m3.cores, m4.cores));
    lemma_mark_error_keeps(m4, l);
    assert(counts_kept(m4.cores, m5.cores));
    lemma_phase_counters_whea(m4, l);
    lemma_mark_error_keeps(m5, l);
    assert(counts_kept(m5.cores, m6.cores));
    if let Some(c) = core_number(l) {
        lemma_find_core_from(m6.cores, c, 0);
    }
    assert(counts_kept(m6.cores, m7.cores));
    lemma_pass_keeps(m7.cores);
    assert(counts_kept(m7.cores, m8.cores));
}

proof fn lemma_phase_counters_whea(m4: MonitorView, l: Seq<char>)
    requires
        errors_below(m4.cores, u32::MAX - 1),
    ensures
        errors_below(on_error(m4, l).cores, u32::MAX as int),
{
    if let Some(c) = core_number(l) {
        lemma_find_core_from(m4.cores, c, 0);
    }
}

proof fn lemma_pass_bounds(a: Seq<CoreStatus>, b: int, e: int)
    requires
        tests_below(a, b),
        errors_below(a, e),
        b <= u32::MAX,
    ensures
        tests_below(pass_testing(a), b + 1),
        errors_below(pass_testing(a), e),
{
}

proof fn lemma_mark_error_bounds(m: MonitorView, l: Seq<char>, b: int, e: int)
    requires
        tests_below(m.cores, b),
        errors_below(m.cores, e),
        e <= u32::MAX,
    ensures
        tests_below(mark_error(m, l).cores, b),
        errors_below(mark_error(m, l).cores, e + 1),
{
    if let Some(c) = core_number(l) {
        lemma_find_core_from(m.cores, c, 0);
    }
}

/// One line of output raises a test count by at most three and an error
/// count by at most two.
pub proof fn lemma_line_counters(m: MonitorView, raw: Seq<char>, b: int, e: int)
    requires
        tests_below(m.cores, b),
        errors_below(m.cores, e),
        b <= u32::MAX - 2,
        e <= u32::MAX - 1,
    ensures
        tests_below(apply_line(m, raw).cores, b + 3),
        errors_below(apply_line(m, raw).cores, e + 2),
{
    let l = without_log_mark(raw);
    let m1 = on_iteration(m, l);
    let m2 = on_set_core(m1, l);
    let m3 = on_progress(m2, l);
    let m4 = on_all_passed(m3, l, "Test completed in"@);
    let m5 = on_error(m4, l);
    let m6 = on_whea(m5, l);
    let m7 = on_skip(m6, l);
    lemma_pass_bounds(m1.cores, b, e);
    if let Some(c) = number_after(l, "Set to Core "@) {
        lemma_find_core_from(pass_testing(m1.cores), c, 0);
    }
    assert(tests_below(m2.cores, b + 1));
    assert(errors_below(m2.cores, e));
    lemma_pass_bounds(m3.cores, b + 1, e);
    assert(tests_below(m4.cores, b + 2));
    lemma_mark_error_bounds(m4, l, b + 2, e);
    assert(errors_below(m5.cores, e + 1));
    lemma_mark_error_bounds(m5, l, b + 2, e + 1);
    assert(errors_below(m6.cores, e + 2));
    if let Some(c) = core_number(l) {
        lemma_find_core_from(m6.cores, c, 0);
    }
    assert(tests_below(m7.cores, b + 2));
    assert(errors_below(m7.cores, e + 2));
    lemma_pass_bounds(m7.cores, b + 2, e + 2);
}

// ---------------------------------------------------------------------------
// The core under test
// ---------------------------------------------------------------------------

/// At most one core is under test.
pub open spec fn at_most_one_testing(cores: Seq<CoreStatus>) -> bool {
    forall|i: int, j: int|
        #![trigger cores[i], cores[j]]
        0 <= i < cores.len() && 0 <= j < cores.len() && cores[i].state == CoreState::Testing
            && cores[j].state == CoreState::Testing ==> i == j
}

/// No two cores have the same number.
pub open spec fn distinct_ids(cores: Seq<CoreStatus>) -> bool {
    forall|i: int, j: int|
        #![trigger cores[i], cores[j]]
        0 <= i < cores.len() && 0 <= j < cores.len() && i != j ==> cores[i].id != cores[j].id
}

/// Among cores with distinct numbers, the search for a number finds the
/// one core that has it.
proof fn lemma_find_core_unique(cores: Seq<CoreStatus>, id: u32, k: int, i: int)
    requires
        distinct_ids(cores),
        0 <= i <= k < cores.len(),
        cores[k].id == id,
    ensures
        find_core_from(cores, id, i) == Some(k),
    decreases k - i,
{
    if i < k {
        assert(cores[i].id != id);
        lemma_find_core_unique(cores, id, k, i + 1);
    }
}

/// A core set to a state other than under test keeps at most one core
/// under test.
proof fn lemma_update_keeps_one(cores: Seq<CoreStatus>, i: int, c: CoreStatus)
    requires
        at_most_one_testing(cores),
        0 <= i < cores.len(),
        c.state != CoreState::Testing,
    ensures
        at_most_one_testing(cores.update(i, c)),
{
    let u = cores.update(i, c);
    assert forall|a: int, b: int|
        #![trigger u[a], u[b]]
        0 <= a < u.len() && 0 <= b < u.len() && u[a].state == CoreState::Testing && u[b].state
            == CoreState::Testing implies a == b by {
        assert(u[a] == cores[a] && u[b] == cores[b]);
        assert(cores[a].state == CoreState::Testing && cores[b].state == CoreState::Testing);
    }
}

proof fn lemma_mark_error_keeps_one(m: MonitorView, l: Seq<char>)
    requires
        at_most_one_testing(m.cores),
    ensures
        at_most_one_testing(mark_error(m, l).cores),
{
    if let Some(c) = core_number(l) {
        lemma_find_core_from(m.cores, c, 0);
        if let Some(i) = find_core(m.cores, c) {
            lemma_update_keeps_one(m.cores, i, with_error(m.cores[i]));
        }
    }
}

/// After every line of output at most one core is under test, if that held
/// before it.
pub proof fn lemma_line_keeps_one_testing(m: MonitorView, raw: Seq<char>)
    requires
        at_most_one_testing(m.cores),
    ensures
        at_most_one_testing(apply_line(m, raw).cores),
{
    let l = without_log_mark(raw);
    let m1 = on_iteration(m, l);
    let m2 = on_set_core(m1, l);
    let m3 = on_progress(m2, l);
    let m4 = on_all_passed(m3, l, "Test completed in"@);
    let m5 = on_error(m4, l);
    let m6 = on_whea(m5, l);
    let m7 = on_skip(m6, l);
    if contains_seq(l, "Set to Core"@) {
        if let Some(c) = number_after(l, "Set to Core "@) {
            let cs = pass_testing(m1.cores);
            lemma_find_core_from(cs, c, 0);
            if let Some(i) = find_core(cs, c) {
                let u = cs.update(i, with_state(cs[i], CoreState::Testing));
                assert forall|a: int, b: int|
                    #![trigger u[a], u[b]]
                    0 <= a < u.len() && 0 <= b < u.len() && u[a].state == CoreState::Testing
                        && u[b].state == CoreState::Testing implies a == b by {
                    if a != i {
                        assert(u[a] == cs[a]);
                    }
                    if b != i {
                        assert(u[b] == cs[b]);
                    }
                }
            }
        }
    }
    assert(at_most_one_testing(m2.cores));
    assert(at_most_one_testing(m4.cores));
    lemma_mark_error_keeps_one(m4, l);
    assert(at_most_one_testing(m5.cores));
    lemma_mark_error_keeps_one(m5, l);
    assert(at_most_one_testing(m6.cores));
    if contains_seq(l, "skipping"@) {
        if let Some(c) = core_number(l) {
            lemma_find_core_from(m6.cores, c, 0);
            if let Some(i) = find_core(m6.cores, c) {
                lemma_update_keeps_one(m6.cores, i, with_state(m6.cores[i], CoreState::Skipped));
            }
        }
    }
    assert(at_most_one_testing(m7.cores));
}

/// A line without `WHEA error` reports no WHEA error.
proof fn lemma_no_whea(l: Seq<char>)
    requires
        !contains_seq(l, "WHEA error"@),
    ensures
        !contains_seq(l, "WHEA error while"@),
        !contains_seq(l, "WHEA errors while"@),
{
    reveal_strlit("WHEA error");
    reveal_strlit("WHEA error while");
    reveal_strlit("WHEA errors while");
    if contains_seq(l, "WHEA error while"@) {
        assert("WHEA error while"@.subrange(0, 10) =~= "WHEA error"@);
        lemma_contains_part(l, "WHEA error while"@, "WHEA error"@, 0);
    }
    if contains_seq(l, "WHEA errors while"@) {
        assert("WHEA errors while"@.subrange(0, 10) =~= "WHEA error"@);
        lemma_contains_part(l, "WHEA errors while"@, "WHEA error"@, 0);
    }
}

/// A line without `has thrown an error` holds no summary that no core has.
proof fn lemma_no_thrown(l: Seq<char>)
    requires
        !contains_seq(l, "has thrown an error"@),
    ensures
        !contains_seq(l, "No core has thrown an error"@),
{
    reveal_strlit("has thrown an error");
    reveal_strlit("No core has thrown an error");
    if contains_seq(l, "No core has thrown an error"@) {
        assert("No core has thrown an error"@.subrange(8, 27) =~= "has thrown an error"@);
        lemma_contains_part(l, "No core has thrown an error"@, "has thrown an error"@, 8);
    }
}

/// A line that reports an error of core `n` and nothing else: either
/// `has thrown an error`, or a WHEA error while testing (`WHEA error while`
/// or `WHEA errors while`), naming `Core n`.  Core `n` is in error with one
/// more error counted, its tests as before; every other core is as it was.
pub proof fn lemma_error_report_line(m: MonitorView, raw: Seq<char>, n: u32, k: int)
    requires
        (contains_seq(without_log_mark(raw), "has thrown an error"@) && !contains_seq(
            without_log_mark(raw),
            "WHEA error"@,
        )) || ((contains_seq(without_log_mark(raw), "WHEA error while"@) || contains_seq(
            without_log_mark(raw),
            "WHEA errors while"@,
        )) && !contains_seq(without_log_mark(raw), "has thrown an error"@)),
        core_number(without_log_mark(raw)) == Some(n),
        0 <= k < m.cores.len(),
        m.cores[k].id == n,
        distinct_ids(m.cores),
        errors_below(m.cores, u32::MAX as int),
        !contains_seq(without_log_mark(raw), "Set to Core"@),
        !contains_seq(without_log_mark(raw), "skipping"@),
        !contains_seq(without_log_mark(raw), "Test completed in"@),
        !contains_seq(without_log_mark(raw), "No core has thrown an error"@),
    ensures
        apply_line(m, raw).cores.len() == m.cores.len(),
        apply_line(m, raw).cores[k].state == CoreState::Error,
        apply_line(m, raw).cores[k].error_count == m.cores[k].error_count + 1,
        apply_line(m, raw).cores[k].times_tested == m.cores[k].times_tested,
        forall|i: int|
            0 <= i < m.cores.len() && i != k ==> #[trigger] apply_line(m, raw).cores[i] == m.cores[i],
{
    let l = without_log_mark(raw);
    if !contains_seq(l, "has thrown an error"@) {
        lemma_no_thrown(l);
    } else {
        lemma_no_whea(l);
    }
    lemma_find_core_unique(m.cores, n, k, 0);
    let m1 = on_iteration(m, l);
    let m2 = on_set_core(m1, l);
    let m3 = on_progress(m2, l);
    let m4 = on_all_passed(m3, l, "Test completed in"@);
    let m5 = on_error(m4, l);
    let m6 = on_whea(m5, l);
    let m7 = on_skip(m6, l);
    assert(m4.cores == m.cores);
    let u = m.cores.update(k, with_error(m.cores[k]));
    assert(m6.cores == u);
    assert(m7.cores == u);
    assert(apply_line(m, raw).cores == u);
}

/// A line `... skipping` naming `Core n`, with no other event: core `n` is
/// skipped with its counts as before; every other core is as it was.
pub proof fn lemma_skip_line(m: MonitorView, raw: Seq<char>, n: u32, k: int)
    requires
        contains_seq(without_log_mark(raw), "skipping"@),
        core_number(without_log_mark(raw)) == Some(n),
        0 <= k < m.cores.len(),
        m.cores[k].id == n,
        distinct_ids(m.cores),
        !contains_seq(without_log_mark(raw), "Set to Core"@),
        !contains_seq(without_log_mark(raw), "Test completed in"@),
        !contains_seq(without_log_mark(raw), "has thrown an error"@),
        !contains_seq(without_log_mark(raw), "WHEA error"@),
    ensures
        apply_line(m, raw).cores.len() == m.cores.len(),
        apply_line(m, raw).cores[k].state == CoreState::Skipped,
        apply_line(m, raw).cores[k].error_count == m.cores[k].error_count,
        apply_line(m, raw).cores[k].times_tested == m.cores[k].times_tested,
        forall|i: int|
            0 <= i < m.cores.len() && i != k ==> #[trigger] apply_line(m, raw).cores[i] == m.cores[i],
{
    let l = without_log_mark(raw);
    lemma_no_thrown(l);
    lemma_no_whea(l);
    lemma_find_core_unique(m.cores, n, k, 0);
    let m1 = on_iteration(m, l);
    let m2 = on_set_core(m1, l);
    let m3 = on_progress(m2, l);
    let m4 = on_all_passed(m3, l, "Test completed in"@);
    let m5 = on_error(m4, l);
    let m6 = on_whea(m5, l);
    let m7 = on_skip(m6, l);
    assert(m6.cores == m.cores);
    let u = m.cores.update(k, with_state(m.cores[k], CoreState::Skipped));
    assert(m7.cores == u);
    assert(apply_line(m, raw).cores == u);
}

/// A line `Test completed in ...` or `No core has thrown an error` with no
/// other event: every core under test has passed, one more test counted;
/// every other core is as it was.
pub proof fn lemma_test_done_line(m: MonitorView, raw: Seq<char>)
    requires
        contains_seq(without_log_mark(raw), "Test completed in"@) || contains_seq(
            without_log_mark(raw),
            "No core has thrown an error"@,
        ),
        tests_below(m.cores, u32::MAX - 1),
        !contains_seq(without_log_mark(raw), "Set to Core"@),
        !contains_seq(without_log_mark(raw), "skipping"@),
        !contains_seq(without_log_mark(raw), "WHEA error"@),
        core_number(without_log_mark(raw)) is None,
    ensures
        apply_line(m, raw).cores.len() == m.cores.len(),
        forall|i: int|
            0 <= i < m.cores.len() ==> (#[trigger] apply_line(m, raw).cores[i]) == (if m.cores[i].state
                == CoreState::Testing {
                CoreStatus {
                    id: m.cores[i].id,
                    state: CoreState::Passed,
                    error_count: m.cores[i].error_count,
                    times_tested: (m.cores[i].times_tested + 1) as u32,
                }
            } else {
                m.cores[i]
            }),
{
    let l = without_log_mark(raw);
    lemma_no_whea(l);
    let m1 = on_iteration(m, l);
    let m2 = on_set_core(m1, l);
    let m3 = on_progress(m2, l);
    let m4 = on_all_passed(m3, l, "Test completed in"@);
    let m5 = on_error(m4, l);
    let m6 = on_whea(m5, l);
    let m7 = on_skip(m6, l);
    let m8 = on_all_passed(m7, l, "No core has thrown an error"@);
    assert(m3.cores == m.cores);
    assert(m7.cores == m4.cores);
    if contains_seq(l, "Test completed in"@) {
        assert(m4.cores == pass_testing(m.cores));
        assert forall|i: int| 0 <= i < m.cores.len() implies #[trigger] pass_testing(m4.cores)[i]
            == m4.cores[i] by {
        }
        assert(pass_testing(m4.cores) =~= m4.cores);
    }
}

/// A line sets the iteration to the number after its first `Iteration `
/// and leaves it as it was when there is none.
pub proof fn lemma_iteration_of_line(m: MonitorView, raw: Seq<char>)
    ensures
        apply_line(m, raw).current_iteration == (match number_after(
            without_log_mark(raw),
            "Iteration "@,
        ) {
            Some(n) => n,
            None => m.current_iteration,
        }),
{
    let l = without_log_mark(raw);
    reveal_strlit("Iteration ");
    reveal_strlit("Iteration");
    lemma_find(l, "Iteration "@);
    if number_after(l, "Iteration "@) is Some {
        assert("Iteration "@.subrange(0, 9) =~= "Iteration"@);
        lemma_contains_part(l, "Iteration "@, "Iteration"@, 0);
    }
}

/// The search for a number that some core has finds a core.
proof fn lemma_find_core_exists(cores: Seq<CoreStatus>, id: u32, k: int, i: int)
    requires
        0 <= i <= k < cores.len(),
        cores[k].id == id,
    ensures
        find_core_from(cores, id, i) is Some,
    decreases k - i,
{
    if i < k && cores[i].id != id {
        lemma_find_core_exists(cores, id, k, i + 1);
    }
}

/// A `Set to Core n` line for a core that exists shows `Testing Core n`,
/// unless it is also a progress line with a runtime.
pub proof fn lemma_set_core_status(m: MonitorView, raw: Seq<char>, n: u32, k: int)
    requires
        number_after(without_log_mark(raw), "Set to Core "@) == Some(n),
        0 <= k < m.cores.len(),
        m.cores[k].id == n,
        !(contains_seq(without_log_mark(raw), "Progress"@) && contains_seq(
            without_log_mark(raw),
            "Runtime"@,
        )),
    ensures
        apply_line(m, raw).status_text == "Testing Core "@ + decimal(n as nat),
{
    let l = without_log_mark(raw);
    reveal_strlit("Set to Core ");
    reveal_strlit("Set to Core");
    lemma_find(l, "Set to Core "@);
    assert("Set to Core "@.subrange(0, 11) =~= "Set to Core"@);
    lemma_contains_part(l, "Set to Core "@, "Set to Core"@, 0);
    let m1 = on_iteration(m, l);
    let cs = pass_testing(m1.cores);
    assert(cs[k].id == n);
    lemma_find_core_exists(cs, n, k, 0);
}

/// A line `- Iteration N` that is no progress line and sets no core shows
/// `Iteration N`.
pub proof fn lemma_iteration_status(m: MonitorView, raw: Seq<char>, n: u32)
    requires
        contains_seq(without_log_mark(raw), "- Iteration"@),
        number_after(without_log_mark(raw), "Iteration "@) == Some(n),
        !contains_seq(without_log_mark(raw), "Progress"@),
        !contains_seq(without_log_mark(raw), "Set to Core"@),
    ensures
        apply_line(m, raw).status_text == "Iteration "@ + decimal(n as nat),
{
    let l = without_log_mark(raw);
    reveal_strlit("- Iteration");
    reveal_strlit("Iteration");
    assert("- Iteration"@.subrange(2, 11) =~= "Iteration"@);
    lemma_contains_part(l, "- Iteration"@, "Iteration"@, 2);
}

/// A progress line (with `Progress` and `Runtime`) shows itself as status,
/// trimmed and from its first ASCII letter on.
pub proof fn lemma_progress_status(m: MonitorView, raw: Seq<char>)
    requires
        contains_seq(without_log_mark(raw), "Progress"@),
        contains_seq(without_log_mark(raw), "Runtime"@),
    ensures
        exists|p: int|
            0 <= p <= trim(without_log_mark(raw)).len() && apply_line(m, raw).status_text == trim(
                without_log_mark(raw),
            ).skip(p) && (forall|q: int|
                0 <= q < p ==> !is_ascii_letter(#[trigger] trim(without_log_mark(raw))[q])) && (p
                < trim(without_log_mark(raw)).len() ==> is_ascii_letter(
                trim(without_log_mark(raw))[p],
            )),
{
    let t = trim(without_log_mark(raw));
    lemma_trim_start_parts(t, TrimClass::NonLetter);
}

/// The patterns that a `Set to Core` line without other news does not hold.
proof fn lemma_quiet_set_core_line(l: Seq<char>, n: u32)
    requires
        number_after(l, "Set to Core "@) == Some(n),
        !contains_seq(l, "has thrown an error"@),
        !contains_seq(l, "WHEA error"@),
    ensures
        contains_seq(l, "Set to Core"@),
        !contains_seq(l, "WHEA error while"@),
        !contains_seq(l, "WHEA errors while"@),
        !contains_seq(l, "No core has thrown an error"@),
{
    reveal_strlit("Set to Core ");
    reveal_strlit("Set to Core");
    reveal_strlit("WHEA error");
    reveal_strlit("WHEA error while");
    reveal_strlit("WHEA errors while");
    reveal_strlit("has thrown an error");
    reveal_strlit("No core has thrown an error");
    lemma_find(l, "Set to Core "@);
    assert("Set to Core "@.subrange(0, 11) =~= "Set to Core"@);
    lemma_contains_part(l, "Set to Core "@, "Set to Core"@, 0);
    if contains_seq(l, "WHEA error while"@) {
        assert("WHEA error while"@.subrange(0, 10) =~= "WHEA error"@);
        lemma_contains_part(l, "WHEA error while"@, "WHEA error"@, 0);
    }
    if contains_seq(l, "WHEA errors while"@) {
        assert("WHEA errors while"@.subrange(0, 10) =~= "WHEA error"@);
        lemma_contains_part(l, "WHEA errors while"@, "WHEA error"@, 0);
    }
    if contains_seq(l, "No core has thrown an error"@) {
        assert("No core has thrown an error"@.subrange(8, 27) =~= "has thrown an error"@);
        lemma_contains_part(l, "No core has thrown an error"@, "has thrown an error"@, 8);
    }
}

/// A `Set to Core n` line that tells of no skip, error, WHEA error or
/// finished test, where core n is among cores with distinct numbers: core n
/// is under test afterwards; every core that was under test has passed one
/// more test, and is passed now unless it is core n; every other core is
/// as it was.
pub proof fn lemma_set_core_line(m: MonitorView, raw: Seq<char>, n: u32, k: int)
    requires
        number_after(without_log_mark(raw), "Set to Core "@) == Some(n),
        0 <= k < m.cores.len(),
        m.cores[k].id == n,
        distinct_ids(m.cores),
        tests_below(m.cores, u32::MAX as int),
        !contains_seq(without_log_mark(raw), "skipping"@),
        !contains_seq(without_log_mark(raw), "has thrown an error"@),
        !contains_seq(without_log_mark(raw), "WHEA error"@),
        !contains_seq(without_log_mark(raw), "Test completed in"@),
    ensures
        apply_line(m, raw).cores.len() == m.cores.len(),
        apply_line(m, raw).cores[k].state == CoreState::Testing,
        forall|i: int|
            0 <= i < m.cores.len() && #[trigger] m.cores[i].state == CoreState::Testing
                ==> apply_line(m, raw).cores[i].times_tested == m.cores[i].times_tested + 1 && (
            m.cores[i].id != n ==> apply_line(m, raw).cores[i].state == CoreState::Passed),
        forall|i: int|
            0 <= i < m.cores.len() && i != k && m.cores[i].state != CoreState::Testing
                ==> #[trigger] apply_line(m, raw).cores[i] == m.cores[i],
{
    let l = without_log_mark(raw);
    lemma_quiet_set_core_line(l, n);
    let m1 = on_iteration(m, l);
    let m2 = on_set_core(m1, l);
    let m3 = on_progress(m2, l);
    let m4 = on_all_passed(m3, l, "Test completed in"@);
    let m5 = on_error(m4, l);
    let m6 = on_whea(m5, l);
    let m7 = on_skip(m6, l);
    let cs = pass_testing(m.cores);
    assert(distinct_ids(cs)) by {
        assert forall|a: int, b: int|
            #![trigger cs[a], cs[b]]
            0 <= a < cs.len() && 0 <= b < cs.len() && a != b implies cs[a].id != cs[b].id by {
            assert(m.cores[a].id != m.cores[b].id);
        }
    }
    lemma_find_core_unique(cs, n, k, 0);
    let u = cs.update(k, with_state(cs[k], CoreState::Testing));
    assert(m2.cores == u);
    assert(m7.cores == u);
    assert(apply_line(m, raw).cores == u);
    assert forall|i: int|
        0 <= i < m.cores.len() && #[trigger] m.cores[i].state == CoreState::Testing implies u[i].times_tested
        == m.cores[i].times_tested + 1 && (m.cores[i].id != n ==> u[i].state == CoreState::Passed) by {
        if i != k {
            assert(u[i] == cs[i]);
        }
    }
    assert forall|i: int|
        0 <= i < m.cores.len() && i != k && m.cores[i].state != CoreState::Testing implies #[trigger] u[i]
        == m.cores[i] by {
        assert(u[i] == cs[i]);
    }
}

// ---------------------------------------------------------------------------
// Elapsed time
// ---------------------------------------------------------------------------

/// A number below 100 in two digits, as `{:02}` writes it.
pub open spec fn two_digits(n: nat) -> Seq<char> {
    if n < 10 {
        seq!['0'] + decimal(n)
    } else {
        decimal(n)
    }
}

/// An elapsed time as the status shows it: `1h 02m 03s`, `2m 03s` or `3s`.
pub open spec fn elapsed_text(secs: nat) -> Seq<char> {
    let h = secs / 3600;
    let m = (secs % 3600) / 60;
    let s = secs % 60;
    if h > 0 {
        decimal(h) + "h "@ + two_digits(m) + "m "@ + two_digits(s) + seq!['s']
    } else if m > 0 {
        decimal(m) + "m "@ + two_digits(s) + seq!['s']
    } else {
        decimal(s) + seq!['s']
    }
}

/// The elapsed time of `h` hours, `m` minutes and `s` seconds (`m` and `s`
/// below 60) shows exactly those parts: `{h}h {mm}m {ss}s` when there is an
/// hour, `{m}m {ss}s` when there is a minute, `{s}s` otherwise.
pub proof fn lemma_elapsed_parts(h: nat, m: nat, s: nat)
    requires
        m < 60,
        s < 60,
    ensures
        elapsed_text(h * 3600 + m * 60 + s) == (if h > 0 {
            decimal(h) + "h "@ + two_digits(m) + "m "@ + two_digits(s) + seq!['s']
        } else if m > 0 {
            decimal(m) + "m "@ + two_digits(s) + seq!['s']
        } else {
            decimal(s) + seq!['s']
        }),
{
    let t: int = (h * 3600 + m * 60 + s) as int;
    let r: int = (m * 60 + s) as int;
    assert(0 <= r < 3600) by (nonlinear_arith)
        requires
            m < 60,
            s < 60,
            r == m * 60 + s,
    ;
    lemma_fundamental_div_mod_converse(t, 3600, h as int, r);
    lemma_fundamental_div_mod_converse(r, 60, m as int, s as int);
    assert(t == (h * 60 + m) * 60 + s) by (nonlinear_arith)
        requires
            t == h * 3600 + m * 60 + s,
    ;
    lemma_fundamental_div_mod_converse(t, 60, (h * 60 + m) as int, s as int);
}

fn push_two_digits(out: &mut Vec<char>, n: u64)
    requires
        n < 100,
    ensures
        final(out)@ == old(out)@ + two_digits(n as nat),
{
    let ghost start = out@;
    if n < 10 {
        out.push('0');
    }
    push_decimal(out, n);
    assert(out@ =~= start + two_digits(n as nat));
}

/// Writes an elapsed time given in seconds.
pub fn format_elapsed(secs: u64) -> (r: String)
    ensures
        r@ == elapsed_text(secs as nat),
{
    let h = secs / 3600;
    let m = (secs % 3600) / 60;
    let s = secs % 60;
    let mut out: Vec<char> = Vec::new();
    if h > 0 {
        push_decimal(&mut out, h);
        push_lit(&mut out, "h ");
        push_two_digits(&mut out, m);
        push_lit(&mut out, "m ");
        push_two_digits(&mut out, s);
        out.push('s');
    } else if m > 0 {
        push_decimal(&mut out, m);
        push_lit(&mut out, "m ");
        push_two_digits(&mut out, s);
        out.push('s');
    } else {
        push_decimal(&mut out, s);
        out.push('s');
    }
    assert(out@ =~= elapsed_text(secs as nat));
    string_of(&out)
}


// ---------------------------------------------------------------------------
// How the monitor shows lines and cores
// ---------------------------------------------------------------------------

/// The colour a line of output is shown in.
#[derive(Debug, Clone, Copy, PartialEq, Eq, Structural)]
pub enum LineTone {
    /// Success and information.
    Success,
    /// A core threw an error.
    Error,
    /// A WHEA error while testing.
    Warning,
    /// The script's error stream.
    Muted,
    /// An iteration line.
    Accent,
    /// A core is set for testing.
    Primary,
    /// Anything else.
    Secondary,
}

/// The colour of a line: only a core's error is red, only a WHEA error
/// while testing is yellow; checks and success lines are green.
pub open spec fn tone_of(l: Seq<char>) -> LineTone {
    if contains_seq(l, "No core has thrown an error"@) {
        LineTone::Success
    } else if contains_seq(l, "has thrown an error"@) {
        LineTone::Error
    } else if contains_seq(l, "WHEA error while"@) || contains_seq(l, "WHEA errors while"@) {
        LineTone::Warning
    } else if contains_seq(l, "No new WHEA"@) || contains_seq(l, "Checking for stress test errors"@)
        || contains_seq(l, "Looking for new WHEA"@) || contains_seq(l, "Stored WHEA Error Date"@)
        || contains_seq(l, "Last WHEA Error Date"@) || contains_seq(l, "passed"@) || contains_seq(
        l,
        "completed"@,
    ) {
        LineTone::Success
    } else if contains_seq(l, "[STDERR]"@) {
        LineTone::Muted
    } else if contains_seq(l, "Iteration"@) && contains_seq(l, " - "@) {
        LineTone::Accent
    } else if contains_seq(l, "Set to Core"@) {
        LineTone::Primary
    } else {
        LineTone::Secondary
    }
}

pub fn line_tone(line: &str) -> (r: LineTone)
    ensures
        r == tone_of(line@),
        r == LineTone::Error <==> contains_seq(line@, "has thrown an error"@) && !contains_seq(
            line@,
            "No core has thrown an error"@,
        ),
{
    let l = chars_of(line);
    if contains_lit(&l, "No core has thrown an error") {
        LineTone::Success
    } else if contains_lit(&l, "has thrown an error") {
        LineTone::Error
    } else if contains_lit(&l, "WHEA error while") || contains_lit(&l, "WHEA errors while") {
        LineTone::Warning
    } else if contains_lit(&l, "No new WHEA") || contains_lit(&l, "Checking for stress test errors")
        || contains_lit(&l, "Looking for new WHEA") || contains_lit(&l, "Stored WHEA Error Date")
        || contains_lit(&l, "Last WHEA Error Date") || contains_lit(&l, "passed") || contains_lit(
        &l,
        "completed",
    ) {
        LineTone::Success
    } else if contains_lit(&l, "[STDERR]") {
        LineTone::Muted
    } else if contains_lit(&l, "Iteration") && contains_lit(&l, " - ") {
        LineTone::Accent
    } else if contains_lit(&l, "Set to Core") {
        LineTone::Primary
    } else {
        LineTone::Secondary
    }
}

/// The word shown under a core for its state.
pub fn state_label(state: CoreState) -> (r: &'static str)
    ensures
        r@ == match state {
            CoreState::Idle => "IDLE"@,
            CoreState::Testing => "TESTING"@,
            CoreState::Passed => "PASS"@,
            CoreState::Error => "ERROR"@,
            CoreState::Skipped => "SKIP"@,
        },
{
    match state {
        CoreState::Idle => "IDLE",
        CoreState::Testing => "TESTING",
        CoreState::Passed => "PASS",
        CoreState::Error => "ERROR",
        CoreState::Skipped => "SKIP",
    }
}

/// The index of the first of the at most 500 newest lines that the monitor
/// shows out of `len`.
pub fn first_shown_line(len: usize) -> (r: usize)
    ensures
        r == (if len > 500 {
            len - 500
        } else {
            0
        }),
{
    if len > 500 {
        len - 500
    } else {
        0
    }
}
} // verus!
