//! Recognising the log file that CoreCycler writes for a run: its name is
//! `{logName}_{date}_{PROGRAM}_{MODE}.log`, where the mode part depends on the
//! stress test program and its settings.
use vstd::prelude::*;

use crate::model::{ConfigView, CoreCyclerConfig, LinpackVersion, StressTestProgram, YCruncherMode};
use crate::text::{
    ascii_upper, is_ascii_seq, trim_all, trim_each, upper_all, upper_each,
    occurs_at, chars_of, contains_exec, contains_seq, ends_with, ends_with_exec, ends_with_lit, join,
    join_exec, nonempty_exec, nonempty_pieces, push_all, push_lit, split_exec, split_on,
    starts_with, starts_with_exec, string_of, to_uppercase, trim, trim_by, trim_class, trim_ws,
    trim_end_by, trim_end_class, lemma_join_nonempty, lemma_nonempty_pieces_from,
    upper_case, views, words, Separator, TrimClass,
};

verus! {

/// The Aida64 mode list as the log name carries it: the comma-separated
/// entries trimmed, empty ones dropped, upper-cased and joined by `-`;
/// `CACHE` when nothing is left.
pub open spec fn normalized_modes(mode: Seq<char>) -> Seq<char> {
    let joined = join(
        upper_each(nonempty_pieces(trim_each(split_on(mode, Separator::Char(','))))),
        "-"@,
    );
    if joined.len() == 0 {
        "CACHE"@
    } else {
        joined
    }
}

/// The entries of an Aida64 mode list: trimmed, empty ones dropped.
pub open spec fn mode_entries(mode: Seq<char>) -> Seq<Seq<char>> {
    nonempty_pieces(trim_each(split_on(mode, Separator::Char(','))))
}

/// Normalises an Aida64 mode list (`"cache, ram"` becomes `"CACHE-RAM"`):
/// `CACHE` exactly when the list has no entry, the entries upper-cased and
/// joined by `-` otherwise.
pub fn normalize_mode_list(mode: &str) -> (r: String)
    ensures
        r@ == normalized_modes(mode@),
        r@ == (if mode_entries(mode@).len() == 0 {
            "CACHE"@
        } else {
            join(upper_each(mode_entries(mode@)), "-"@)
        }),
{
    let chars = chars_of(mode);
    let pieces = split_exec(&chars, Separator::Char(','));
    let trimmed = trim_all(pieces);
    let kept = nonempty_exec(trimmed);
    proof {
        lemma_nonempty_pieces_from(views(trimmed@));
    }
    let ghost kv = views(kept@);
    let upper = upper_all(kept);
    let joined = join_exec(&upper, "-");
    proof {
        if kv.len() > 0 {
            assert(kv[0].len() > 0);
            assert(kv[0] == kept@[0]@);
            assert(views(upper@)[0] == upper@[0]@);
            lemma_join_nonempty(views(upper@), "-"@);
        }
    }
    if joined.len() == 0 {
        "CACHE".to_owned()
    } else {
        string_of(&joined)
    }
}

/// What the name of the log file of a run must look like.
#[derive(Clone, Debug)]
pub struct LogMonitorHint {
    pub prefix: String,
    pub program: String,
    pub mode_suffix: String,
}

/// The prefix, program and mode parts of a log name.
pub struct HintView {
    pub prefix: Seq<char>,
    pub program: Seq<char>,
    pub mode_suffix: Seq<char>,
}

impl View for LogMonitorHint {
    type V = HintView;

    open spec fn view(&self) -> HintView {
        HintView { prefix: self.prefix@, program: self.program@, mode_suffix: self.mode_suffix@ }
    }
}

/// The mode part of the log name of a run with configuration `c`.  Linpack
/// 2021 and 2024 always run in the `FASTEST` mode.
pub open spec fn mode_suffix_for(c: ConfigView) -> Seq<char> {
    match c.general.stress_test_program {
        StressTestProgram::Prime95 => c.prime95.mode.name(),
        StressTestProgram::Aida64 => normalized_modes(c.aida64.mode),
        StressTestProgram::YCruncher | StressTestProgram::YCruncherOld => upper_case(
            c.ycruncher.mode.name(),
        ),
        StressTestProgram::Linpack => {
            let effective = match c.linpack.version {
                LinpackVersion::V2018 | LinpackVersion::V2019 => c.linpack.mode.name(),
                LinpackVersion::V2021 | LinpackVersion::V2024 => "FASTEST"@,
            };
            c.linpack.version.name() + seq!['_'] + effective
        },
    }
}

/// The log-name parts for a run with configuration `c`: the log name
/// (`CoreCycler` when it is blank), the program, and the mode part.
pub open spec fn hint_for(c: ConfigView) -> HintView {
    let name = trim(c.logging.name);
    HintView {
        prefix: if name.len() == 0 {
            "CoreCycler"@
        } else {
            name
        },
        program: c.general.stress_test_program.name(),
        mode_suffix: mode_suffix_for(c),
    }
}

/// `f` is a log name of a run described by `h`: it starts with
/// `{prefix}_`, holds `_{PROGRAM}_` and ends with `_{MODE}.log`.
pub open spec fn name_matches(h: HintView, f: Seq<char>) -> bool {
    &&& starts_with(f, h.prefix + seq!['_'])
    &&& contains_seq(f, seq!['_'] + h.program + seq!['_'])
    &&& ends_with(f, seq!['_'] + h.mode_suffix + ".log"@)
}

/// A word of program output with the punctuation around it removed.
pub open spec fn cleaned(w: Seq<char>) -> Seq<char> {
    trim_by(w, TrimClass::WrappingPunct)
}

/// A path that is one plain file name: non-empty, without a directory
/// separator or drive colon.
pub open spec fn bare_file_name(p: Seq<char>) -> bool {
    &&& p.len() > 0
    &&& p != "."@
    &&& p != ".."@
    &&& forall|i: int| 0 <= i < p.len() ==> #[trigger] p[i] != '/' && p[i] != '\\' && p[i] != ':'
}

/// The part of `p` after its last `/`; all of `p` when it has none.
pub open spec fn after_last_slash(p: Seq<char>) -> Seq<char>
    decreases p.len(),
{
    if p.len() == 0 {
        p
    } else if p.last() == '/' {
        Seq::empty()
    } else {
        after_last_slash(p.drop_last()).push(p.last())
    }
}

/// A path whose file name is known on every platform: folders separated by
/// `/` only, no `\\` and no drive colon, not a network path (`//`), ending in
/// a plain file name.  A bare file name is such a path.
pub open spec fn plain_path(p: Seq<char>) -> bool {
    &&& bare_file_name(after_last_slash(p))
    &&& forall|i: int| 0 <= i < p.len() ==> #[trigger] p[i] != '\\' && p[i] != ':'
    &&& !(p.len() >= 2 && p[0] == '/' && p[1] == '/')
}

/// Whether every word of `ws[i..]` that names a `.log` file names it by a
/// plain path.
pub open spec fn log_words_plain(ws: Seq<Seq<char>>, i: int) -> bool
    decreases ws.len() - i,
{
    if i < 0 || i >= ws.len() {
        true
    } else {
        (ends_with(cleaned(ws[i]), ".log"@) ==> plain_path(cleaned(ws[i])))
            && log_words_plain(ws, i + 1)
    }
}

/// The file name of the first word of `ws[i..]` that names a `.log` file
/// whose name matches `h`.
pub open spec fn first_matching_log(h: HintView, ws: Seq<Seq<char>>, i: int) -> Option<Seq<char>>
    decreases ws.len() - i,
{
    if i < 0 || i >= ws.len() {
        None
    } else {
        let c = cleaned(ws[i]);
        if ends_with(c, ".log"@) && name_matches(h, after_last_slash(c)) {
            Some(after_last_slash(c))
        } else {
            first_matching_log(h, ws, i + 1)
        }
    }
}

/// A word that names a `.log` file whose name, after the last `/`, is one
/// of a run described by `h`.
pub open spec fn names_run_log(h: HintView, w: Seq<char>) -> bool {
    ends_with(cleaned(w), ".log"@) && name_matches(h, after_last_slash(cleaned(w)))
}

/// The log found among the words `ws[i..]` is the file name of the first
/// word that names a `.log` file of the run; none is found when no word
/// does.
pub proof fn lemma_first_matching_log(h: HintView, ws: Seq<Seq<char>>, i: int)
    requires
        0 <= i,
    ensures
        match first_matching_log(h, ws, i) {
            Some(f) => exists|j: int|
                i <= j < ws.len() && #[trigger] names_run_log(h, ws[j]) && f == after_last_slash(
                    cleaned(ws[j]),
                ) && forall|k: int| i <= k < j ==> !names_run_log(h, #[trigger] ws[k]),
            None => forall|k: int| i <= k < ws.len() ==> !names_run_log(h, #[trigger] ws[k]),
        },
    decreases ws.len() - i,
{
    if i < ws.len() {
        lemma_first_matching_log(h, ws, i + 1);
        if names_run_log(h, ws[i]) {
            assert(names_run_log(h, ws[i]));
        } else {
            match first_matching_log(h, ws, i + 1) {
                Some(f) => {
                    let j = choose|j: int|
                        i + 1 <= j < ws.len() && #[trigger] names_run_log(h, ws[j]) && f
                            == after_last_slash(cleaned(ws[j])) && forall|k: int|
                            i + 1 <= k < j ==> !names_run_log(h, #[trigger] ws[k]);
                    assert forall|k: int| i <= k < j implies !names_run_log(h, #[trigger] ws[k]) by {
                        if k > i {
                            assert(i + 1 <= k < j);
                        }
                    }
                },
                None => {},
            }
        }
    }
}

/// The file name of a path, through `Path::file_name` (and `OsStr::to_str`).
/// Claims only that a plain path (folders separated by `/`, no `\\`, no drive
/// colon, not starting with `//`, ending in a plain file name) has the text
/// after its last `/` as file name, on every platform; how other paths split
/// depends on the platform's path syntax and is left unsaid.
#[verifier::external_body]
fn path_file_name(path: &str) -> (r: Option<String>)
    ensures
        plain_path(path@) ==> r.is_some() && r.unwrap()@ == after_last_slash(path@),
{
    match std::path::Path::new(path).file_name() {
        Some(name) => match name.to_str() {
            Some(s) => Some(s.to_string()),
            None => None,
        },
        None => None,
    }
}

/// Appends `a`, `_` and `b`.
fn underscore_join(a: &str, b: &str) -> (r: String)
    ensures
        r@ == a@ + seq!['_'] + b@,
{
    let mut out: Vec<char> = Vec::new();
    push_lit(&mut out, a);
    out.push('_');
    push_lit(&mut out, b);
    assert(out@ =~= a@ + seq!['_'] + b@);
    string_of(&out)
}

impl LogMonitorHint {
    /// The log-name parts of a run with configuration `config`.
    pub fn from_config(config: &CoreCyclerConfig) -> (r: LogMonitorHint)
        ensures
            r@ == hint_for(config@),
    {
        let name_chars = chars_of(config.logging.name.as_str());
        let name = trim_ws(&name_chars);
        let prefix = if name.len() == 0 {
            "CoreCycler".to_owned()
        } else {
            string_of(&name)
        };
        let mode_suffix = match config.general.stress_test_program {
            StressTestProgram::Prime95 => config.prime95.mode.as_str().to_owned(),
            StressTestProgram::Aida64 => normalize_mode_list(config.aida64.mode.as_str()),
            StressTestProgram::YCruncher | StressTestProgram::YCruncherOld => {
                let m = chars_of(config.ycruncher.mode.as_str());
                string_of(&to_uppercase(&m))
            },
            StressTestProgram::Linpack => {
                let effective = match config.linpack.version {
                    LinpackVersion::V2018 | LinpackVersion::V2019 => config.linpack.mode.as_str(),
                    LinpackVersion::V2021 | LinpackVersion::V2024 => "FASTEST",
                };
                underscore_join(config.linpack.version.as_str(), effective)
            },
        };
        LogMonitorHint {
            prefix,
            program: config.general.stress_test_program.as_str().to_owned(),
            mode_suffix,
        }
    }

    /// Whether `file_name` is a log name of this run.
    pub fn matches_file_name(&self, file_name: &str) -> (r: bool)
        ensures
            r == name_matches(self@, file_name@),
    {
        let f = chars_of(file_name);
        let mut head = chars_of(self.prefix.as_str());
        head.push('_');
        let mut middle: Vec<char> = vec!['_'];
        push_lit(&mut middle, self.program.as_str());
        middle.push('_');
        let mut tail: Vec<char> = vec!['_'];
        push_lit(&mut tail, self.mode_suffix.as_str());
        push_lit(&mut tail, ".log");
        assert(head@ =~= self@.prefix + seq!['_']);
        assert(middle@ =~= seq!['_'] + self@.program + seq!['_']);
        assert(tail@ =~= seq!['_'] + self@.mode_suffix + ".log"@);
        starts_with_exec(&f, &head) && contains_exec(&f, &middle) && ends_with_exec(&f, &tail)
    }

    /// The file name of the first `.log` path in a line of program output
    /// that names a log of this run.  Where a `.log` path has no file name
    /// the search stops with `None`.  Where every `.log` word of the line is
    /// a plain path (folders separated by `/`), the result is exactly the
    /// text after the last `/` of the first such word that names a log of
    /// this run, or `None` if none does.
    pub fn extract_path_from_output_line(&self, line: &str) -> (r: Option<String>)
        ensures
            r matches Some(f) ==> name_matches(self@, f@),
            log_words_plain(words(line@), 0) ==> match r {
                Some(f) => first_matching_log(self@, words(line@), 0) == Some(f@),
                None => first_matching_log(self@, words(line@), 0) is None,
            },
    {
        let chars = chars_of(line);
        let pieces = split_exec(&chars, Separator::Whitespace);
        let ws = nonempty_exec(pieces);
        let ghost wv = words(line@);
        assert(views(ws@) == wv);
        let mut i: usize = 0;
        while i < ws.len()
            invariant
                i <= ws@.len(),
                views(ws@) == wv,
                wv == words(line@),
                log_words_plain(wv, 0) ==> log_words_plain(wv, i as int) && first_matching_log(
                    self@,
                    wv,
                    0,
                ) == first_matching_log(self@, wv, i as int),
            decreases ws.len() - i,
        {
            assert(ws@[i as int]@ == wv[i as int]);
            assert(wv.len() == ws@.len());
            let c = trim_class(&ws[i], TrimClass::WrappingPunct);
            assert(c@ == cleaned(wv[i as int]));
            proof {
                if log_words_plain(wv, 0) {
                    assert(log_words_plain(wv, i as int));
                    assert(ends_with(c@, ".log"@) ==> plain_path(c@));
                    assert(log_words_plain(wv, i + 1));
                }
            }
            if ends_with_lit(&c, ".log") {
                let path = string_of(&c);
                match path_file_name(path.as_str()) {
                    None => {
                        return None;
                    },
                    Some(name) => {
                        if self.matches_file_name(name.as_str()) {
                            return Some(name);
                        }
                    },
                }
            }
            i = i + 1;
        }
        None
    }
}


/// The log name that CoreCycler builds for a run,
/// `{prefix}_{date}_{PROGRAM}_{MODE}.log`.
pub open spec fn log_name(h: HintView, date: Seq<char>) -> Seq<char> {
    h.prefix + seq!['_'] + date + seq!['_'] + h.program + seq!['_'] + h.mode_suffix + ".log"@
}

/// Every name that CoreCycler builds for a run, whatever its date part, is
/// recognised as a log of that run.
pub proof fn lemma_log_name_matches(h: HintView, date: Seq<char>)
    ensures
        name_matches(h, log_name(h, date)),
{
    let f = log_name(h, date);
    let head = h.prefix + seq!['_'];
    let middle = seq!['_'] + h.program + seq!['_'];
    let tail = seq!['_'] + h.mode_suffix + ".log"@;
    assert(f =~= head + date + middle + h.mode_suffix + ".log"@);
    assert(f.subrange(0, head.len() as int) =~= head);
    let at: int = (head.len() + date.len()) as int;
    assert(f.subrange(at, at + middle.len()) =~= middle);
    assert(occurs_at(f, middle, at));
    assert(contains_seq(f, middle));
    let start: int = f.len() - tail.len();
    assert(f.subrange(start, f.len() as int) =~= tail);
}

/// The parts of the log name of a run: the configured log name trimmed
/// (`CoreCycler` when it is blank), the program's name, and the mode part:
/// the Prime95 mode's name; the y-cruncher mode's name in capitals; the
/// Aida64 mode list as [`normalize_mode_list`] gives it; for
/// Linpack the version, `_` and the configured mode for versions 2018 and
/// 2019, `FASTEST` in place of the mode for 2021 and 2024.
pub proof fn lemma_run_log_hint(c: ConfigView)
    ensures
        hint_for(c).prefix == (if trim(c.logging.name).len() == 0 {
            "CoreCycler"@
        } else {
            trim(c.logging.name)
        }),
        hint_for(c).program == c.general.stress_test_program.name(),
        c.general.stress_test_program == StressTestProgram::Prime95 ==> hint_for(c).mode_suffix
            == c.prime95.mode.name(),
        c.general.stress_test_program == StressTestProgram::YCruncher
            || c.general.stress_test_program == StressTestProgram::YCruncherOld
            ==> hint_for(c).mode_suffix == ascii_upper(c.ycruncher.mode.name()),
        c.general.stress_test_program == StressTestProgram::Aida64 ==> hint_for(c).mode_suffix
            == normalized_modes(c.aida64.mode),
        c.general.stress_test_program == StressTestProgram::Linpack ==> hint_for(c).mode_suffix == (
        match c.linpack.version {
            LinpackVersion::V2018 => "2018_"@ + c.linpack.mode.name(),
            LinpackVersion::V2019 => "2019_"@ + c.linpack.mode.name(),
            LinpackVersion::V2021 => "2021_FASTEST"@,
            LinpackVersion::V2024 => "2024_FASTEST"@,
        }),
{
    reveal_strlit("2018");
    reveal_strlit("2019");
    reveal_strlit("2021");
    reveal_strlit("2024");
    reveal_strlit("2018_");
    reveal_strlit("2019_");
    reveal_strlit("2021_FASTEST");
    reveal_strlit("2024_FASTEST");
    reveal_strlit("FASTEST");
    let v = c.linpack.version;
    let m = c.linpack.mode.name();
    match v {
        LinpackVersion::V2018 => assert(v.name() + seq!['_'] + m =~= "2018_"@ + m),
        LinpackVersion::V2019 => assert(v.name() + seq!['_'] + m =~= "2019_"@ + m),
        _ => {},
    }
    assert("2021"@ + seq!['_'] + "FASTEST"@ =~= "2021_FASTEST"@);
    assert("2024"@ + seq!['_'] + "FASTEST"@ =~= "2024_FASTEST"@);
    lemma_ycruncher_names_ascii(c.ycruncher.mode);
}

/// The names of y-cruncher modes are ASCII.
proof fn lemma_ycruncher_names_ascii(x: YCruncherMode)
    ensures
        is_ascii_seq(x.name()),
{
    reveal_strlit("auto");
    reveal_strlit("00-x86");
    reveal_strlit("04-P4P");
    reveal_strlit("05-A64");
    reveal_strlit("08-NHM");
    reveal_strlit("11-SNB");
    reveal_strlit("11-BD1");
    reveal_strlit("12-BD2");
    reveal_strlit("13-HSW");
    reveal_strlit("14-BDW");
    reveal_strlit("17-SKX");
    reveal_strlit("17-ZN1");
    reveal_strlit("18-CNL");
    reveal_strlit("19-ZN2");
    reveal_strlit("20-ZN3");
    reveal_strlit("22-ZN4");
    reveal_strlit("24-ZN5");
}

/// Only the names of the form `{prefix}_..._{PROGRAM}_..._{MODE}.log` are
/// taken for a log of the run: a name that matches starts with the prefix
/// and `_`, holds the program between two `_`, and ends with `_`, the mode
/// part and `.log`; and every such name matches.
pub proof fn lemma_name_match_parts(h: HintView, f: Seq<char>)
    ensures
        name_matches(h, f) <==> (f.len() >= h.prefix.len() + 1 && f.take((h.prefix.len() + 1) as int)
            == h.prefix.push('_') && (exists|i: int|
            0 <= i && i + h.program.len() + 2 <= f.len() && #[trigger] f.subrange(
                i,
                i + h.program.len() + 2,
            ) == seq!['_'] + h.program + seq!['_']) && f.len() >= h.mode_suffix.len() + 5
            && f.skip(f.len() - h.mode_suffix.len() - 5) == seq!['_'] + h.mode_suffix + ".log"@),
{
    reveal_strlit(".log");
    let head = h.prefix + seq!['_'];
    let mid = seq!['_'] + h.program + seq!['_'];
    let tail = seq!['_'] + h.mode_suffix + ".log"@;
    assert(head =~= h.prefix.push('_'));
    if f.len() >= head.len() {
        assert(f.take(head.len() as int) =~= f.subrange(0, head.len() as int));
    }
    if f.len() >= tail.len() {
        assert(f.skip(f.len() - tail.len()) =~= f.subrange(f.len() - tail.len(), f.len() as int));
    }
    if contains_seq(f, mid) {
        let i = choose|i: int| occurs_at(f, mid, i);
        assert(f.subrange(i, i + h.program.len() + 2) == mid);
    }
    if exists|i: int|
        0 <= i && i + h.program.len() + 2 <= f.len() && #[trigger] f.subrange(
            i,
            i + h.program.len() + 2,
        ) == seq!['_'] + h.program + seq!['_'] {
        let i = choose|i: int|
            0 <= i && i + h.program.len() + 2 <= f.len() && #[trigger] f.subrange(
                i,
                i + h.program.len() + 2,
            ) == seq!['_'] + h.program + seq!['_'];
        assert(occurs_at(f, mid, i));
    }
}

/// The Aida64 mode part of a log name is never empty.
pub proof fn lemma_normalized_modes_nonempty(mode: Seq<char>)
    ensures
        normalized_modes(mode).len() > 0,
{
    reveal_strlit("CACHE");
}


// ---------------------------------------------------------------------------
// Choosing the log file and reading its lines
// ---------------------------------------------------------------------------

/// A file found in the log folder: its name and when it was last written
/// (nanoseconds since the Unix epoch).
#[derive(Debug, Clone)]
pub struct LogFile {
    pub name: String,
    pub modified: u128,
}

/// The file is a log of the run described by `h`, written since the run
/// started at `spawn_time`.
pub open spec fn is_run_log(h: HintView, f: LogFile, spawn_time: u128) -> bool {
    name_matches(h, f.name@) && f.modified >= spawn_time
}

impl LogMonitorHint {
    /// The log of this run to follow among `files`: of the logs of the run
    /// written since it started, the most recently written, the first found
    /// of those written at the same time; none when there is no such log.
    pub fn newest_log(&self, files: &Vec<LogFile>, spawn_time: u128) -> (r: Option<usize>)
        ensures
            match r {
                Some(i) => {
                    &&& i < files@.len()
                    &&& is_run_log(self@, files@[i as int], spawn_time)
                    &&& forall|j: int|
                        0 <= j < files@.len() && is_run_log(self@, #[trigger] files@[j], spawn_time)
                            ==> files@[j].modified <= files@[i as int].modified && (j < i
                            ==> files@[j].modified < files@[i as int].modified)
                },
                None => forall|j: int|
                    0 <= j < files@.len() ==> !is_run_log(self@, #[trigger] files@[j], spawn_time),
            },
    {
        let mut best: Option<usize> = None;
        let mut i: usize = 0;
        while i < files.len()
            invariant
                i <= files@.len(),
                match best {
                    Some(b) => {
                        &&& b < i
                        &&& is_run_log(self@, files@[b as int], spawn_time)
                        &&& forall|j: int|
                            0 <= j < i && is_run_log(self@, #[trigger] files@[j], spawn_time)
                                ==> files@[j].modified <= files@[b as int].modified && (j < b
                                ==> files@[j].modified < files@[b as int].modified)
                    },
                    None => forall|j: int|
                        0 <= j < i ==> !is_run_log(self@, #[trigger] files@[j], spawn_time),
                },
            decreases files.len() - i,
        {
            let f = &files[i];
            if f.modified >= spawn_time && self.matches_file_name(f.name.as_str()) {
                match best {
                    Some(b) => {
                        if f.modified > files[b].modified {
                            best = Some(i);
                        }
                    },
                    None => {
                        best = Some(i);
                    },
                }
            }
            i = i + 1;
        }
        best
    }
}

/// A path between single quotes for PowerShell: each `'` written twice.
pub open spec fn quote_doubled(s: Seq<char>) -> Seq<char>
    decreases s.len(),
{
    if s.len() == 0 {
        Seq::empty()
    } else if s.last() == '\'' {
        quote_doubled(s.drop_last()) + seq!['\'', '\'']
    } else {
        quote_doubled(s.drop_last()).push(s.last())
    }
}

/// The PowerShell command that runs the script at `script_path` with all
/// its output streams sent to standard output.
pub fn script_command(script_path: &str) -> (r: String)
    ensures
        r@ == "& '"@ + quote_doubled(script_path@) + "' *>&1"@,
{
    let p = chars_of(script_path);
    let mut out = chars_of("& '");
    let ghost start = out@;
    let mut i: usize = 0;
    assert(p@.take(0) =~= Seq::<char>::empty());
    while i < p.len()
        invariant
            i <= p@.len(),
            p@ == script_path@,
            out@ == start + quote_doubled(p@.take(i as int)),
        decreases p.len() - i,
    {
        assert(p@.take(i + 1).drop_last() =~= p@.take(i as int));
        assert(p@.take(i + 1).last() == p@[i as int]);
        if p[i] == '\'' {
            out.push('\'');
            out.push('\'');
            assert(out@ =~= start + quote_doubled(p@.take(i + 1)));
        } else {
            out.push(p[i]);
            assert(out@ =~= start + quote_doubled(p@.take(i + 1)));
        }
        i = i + 1;
    }
    assert(p@.take(p@.len() as int) =~= p@);
    push_lit(&mut out, "' *>&1");
    string_of(&out)
}

/// `s` without white space at its end.
pub open spec fn trimmed_end(s: Seq<char>) -> Seq<char> {
    trim_end_by(s, TrimClass::Whitespace)
}

/// A line read from the log file as it joins the output: without the white
/// space at its end, after `[LOG] `; none for a blank line.
pub fn log_file_line(raw: &str) -> (r: Option<String>)
    ensures
        match r {
            Some(l) => trimmed_end(raw@).len() > 0 && l@ == "[LOG] "@ + trimmed_end(raw@),
            None => trimmed_end(raw@).len() == 0,
        },
{
    let c = chars_of(raw);
    let t = trim_end_class(&c, TrimClass::Whitespace);
    if t.len() == 0 {
        None
    } else {
        let mut out = chars_of("[LOG] ");
        push_all(&mut out, &t);
        Some(string_of(&out))
    }
}

/// A line of the script's error stream as it joins the output.
pub fn stderr_line(raw: &str) -> (r: String)
    ensures
        r@ == "[STDERR] "@ + raw@,
{
    let mut out = chars_of("[STDERR] ");
    push_lit(&mut out, raw);
    string_of(&out)
}
} // verus!
