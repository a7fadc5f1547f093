//! The INI dialect of CoreCycler's `config.ini`: `[Section]` headers,
//! `key = value` lines, whole-line `#` comments and inline `#` comments after
//! a value.
use vstd::prelude::*;

use crate::text::{
    is_separator, is_ws, lemma_split_on_nonempty, occurs_at, trim_end_by, trim_start_by,
    TrimClass, lemma_find_from, before, chars_of, copy_range, eq_lit, find, find_exec,
    lemma_find, split_on, string_of, trim, trim_ws, Separator, before_lit, lemma_trim_part,
    lemma_trim_trimmed,
};

verus! {

/// A value without the comment that a `#` starts, and without surrounding
/// white space.
pub open spec fn strip_comment(v: Seq<char>) -> Seq<char> {
    trim(before(v, "#"@))
}

/// An assignment `key = value` read in section `section`.
pub type Assignment = (Seq<char>, Seq<char>, Seq<char>);

/// What the reader has gathered after some lines: the section headers seen,
/// the assignments read (in order), and the section that is open.
pub struct IniState {
    pub sections: Seq<Seq<char>>,
    pub entries: Seq<Assignment>,
    pub current: Seq<char>,
}

pub open spec fn initial_state() -> IniState {
    IniState { sections: Seq::empty(), entries: Seq::empty(), current: Seq::empty() }
}

/// How one line changes what has been read.  Blank lines and lines that
/// start with `#` change nothing; `[name]` opens section `name`; a line with
/// `=` assigns the trimmed text before the first `=` the trimmed, comment-free
/// text after it, in the open section, if one with a non-empty name is open.
pub open spec fn ini_step(st: IniState, line: Seq<char>) -> IniState {
    let t = trim(line);
    if t.len() == 0 || t[0] == '#' {
        st
    } else if t[0] == '[' && t.last() == ']' {
        let name = t.subrange(1, t.len() - 1);
        IniState { sections: st.sections.push(name), entries: st.entries, current: name }
    } else {
        match find(t, "="@) {
            Some(k) => if st.current.len() > 0 {
                IniState {
                    sections: st.sections,
                    entries: st.entries.push(
                        (st.current, trim(t.take(k)), strip_comment(trim(t.skip(k + 1)))),
                    ),
                    current: st.current,
                }
            } else {
                st
            },
            None => st,
        }
    }
}

/// Reading a line depends only on the line with the white space around it
/// removed: trailing `\r` of Windows line ends or indentation change nothing.
pub proof fn lemma_line_read_trimmed(st: IniState, line: Seq<char>)
    ensures
        ini_step(st, line) == ini_step(st, trim(line)),
{
    lemma_trim_part(line);
    lemma_trim_trimmed(trim(line));
}

/// A line that is, apart from white space around it, empty or a `#` comment
/// changes nothing.
pub proof fn lemma_blank_or_comment_line(st: IniState, line: Seq<char>)
    requires
        trim(line).len() == 0 || trim(line)[0] == '#',
    ensures
        ini_step(st, line) == st,
{
}

/// A line `[name]`, with any white space around it, opens the section
/// `name`: it is listed and later assignments go to it.
pub proof fn lemma_header_line(st: IniState, line: Seq<char>, name: Seq<char>)
    requires
        trim(line) == seq!['['] + name + seq![']'],
    ensures
        ini_step(st, line) == (IniState {
            sections: st.sections.push(name),
            entries: st.entries,
            current: name,
        }),
{
    let t = trim(line);
    assert(t[0] == '[');
    assert(t.last() == ']');
    assert(t.subrange(1, t.len() - 1) =~= name);
}

/// A line `key = value`, with any white space around it, whose key holds no
/// `=` and is no comment or section header: in an open section it assigns
/// the trimmed key the value trimmed and cut at its first `#`; outside any
/// section it is dropped.
pub proof fn lemma_assignment_line(st: IniState, line: Seq<char>, key: Seq<char>, value: Seq<char>)
    requires
        trim(line) == key + "="@ + value,
        forall|i: int| 0 <= i < key.len() ==> #[trigger] key[i] != '=',
        key.len() > 0 ==> key[0] != '#' && key[0] != '[',
    ensures
        st.current.len() > 0 ==> ini_step(st, line) == (IniState {
            sections: st.sections,
            entries: st.entries.push((st.current, trim(key), trim(before(trim(value), "#"@)))),
            current: st.current,
        }),
        st.current.len() == 0 ==> ini_step(st, line) == st,
{
    reveal_strlit("=");
    let t = trim(line);
    let k = key.len() as int;
    assert(t[k] == '=');
    if k == 0 {
        assert(t[0] == '=');
    } else {
        assert(t[0] == key[0]);
    }
    assert(t.subrange(k, k + 1) =~= "="@);
    assert(occurs_at(t, "="@, k));
    lemma_find(t, "="@);
    let f = find(t, "="@)->0;
    if f < k {
        assert(t.subrange(f, f + 1)[0] == t[f]);
        assert(t[f] == key[f]);
    }
    assert(f == k);
    assert(t.take(k) =~= key);
    assert(t.skip(k + 1) =~= value);
}

/// The state after reading `lines` in order from `st`.
pub open spec fn ini_fold(st: IniState, lines: Seq<Seq<char>>) -> IniState
    decreases lines.len(),
{
    if lines.len() == 0 {
        st
    } else {
        ini_step(ini_fold(st, lines.drop_last()), lines.last())
    }
}

/// The state after reading all lines of `text`.
pub open spec fn ini_read(text: Seq<char>) -> IniState {
    ini_fold(initial_state(), split_on(text, Separator::Char('\n')))
}

/// The value last assigned to `key` in `section`.
pub open spec fn ini_lookup(entries: Seq<Assignment>, section: Seq<char>, key: Seq<char>) -> Option<
    Seq<char>,
>
    decreases entries.len(),
{
    if entries.len() == 0 {
        None
    } else if entries.last().0 == section && entries.last().1 == key {
        Some(entries.last().2)
    } else {
        ini_lookup(entries.drop_last(), section, key)
    }
}

/// In a section that no assignment names, no key has a value.
pub proof fn lemma_lookup_section_absent(entries: Seq<Assignment>, section: Seq<char>)
    requires
        forall|i: int| 0 <= i < entries.len() ==> (#[trigger] entries[i]).0 != section,
    ensures
        forall|key: Seq<char>| #[trigger] ini_lookup(entries, section, key) is None,
    decreases entries.len(),
{
    if entries.len() > 0 {
        let p = entries.drop_last();
        assert forall|i: int| 0 <= i < p.len() implies (#[trigger] p[i]).0 != section by {
            assert(p[i] == entries[i]);
        }
        lemma_lookup_section_absent(p, section);
        assert(entries[entries.len() - 1] == entries.last());
        assert forall|key: Seq<char>| #[trigger] ini_lookup(entries, section, key) is None by {
            assert(ini_lookup(p, section, key) is None);
        }
    }
}

/// Sections to their keys to their values, as a map of maps.
pub open spec fn ini_map(sections: Seq<Seq<char>>, entries: Seq<Assignment>) -> Map<
    Seq<char>,
    Map<Seq<char>, Seq<char>>,
> {
    Map::new(
        |s: Seq<char>| sections.contains(s),
        |s: Seq<char>|
            Map::new(
                |k: Seq<char>| ini_lookup(entries, s, k) is Some,
                |k: Seq<char>| ini_lookup(entries, s, k).unwrap(),
            ),
    )
}

/// One assignment of a read document.
#[derive(Debug, Clone)]
pub struct IniEntry {
    pub section: String,
    pub key: String,
    pub value: String,
}

impl IniEntry {
    pub open spec fn model(self) -> Assignment {
        (self.section@, self.key@, self.value@)
    }
}

/// A read INI document: the section headers and the assignments, in the
/// order the text gives them.
#[derive(Debug, Clone)]
pub struct IniDocument {
    pub sections: Vec<String>,
    pub entries: Vec<IniEntry>,
}

impl IniDocument {
    pub open spec fn section_names(&self) -> Seq<Seq<char>> {
        Seq::new(self.sections@.len(), |i: int| self.sections@[i]@)
    }

    pub open spec fn assignments(&self) -> Seq<Assignment> {
        Seq::new(self.entries@.len(), |i: int| self.entries@[i].model())
    }

    /// The value of `key` in `section`: the last one assigned.
    pub fn get(&self, section: &str, key: &str) -> (r: Option<String>)
        ensures
            match r {
                Some(v) => ini_lookup(self.assignments(), section@, key@) == Some(v@),
                None => ini_lookup(self.assignments(), section@, key@) is None,
            },
    {
        let ghost es = self.assignments();
        let mut i: usize = self.entries.len();
        assert(es.take(i as int) =~= es);
        while i > 0
            invariant
                i <= self.entries@.len(),
                es == self.assignments(),
                ini_lookup(es, section@, key@) == ini_lookup(es.take(i as int), section@, key@),
            decreases i,
        {
            let e = &self.entries[i - 1];
            assert(es.take(i as int).drop_last() =~= es.take(i - 1));
            assert(es.take(i as int).last() == e.model());
            let sc = chars_of(e.section.as_str());
            let kc = chars_of(e.key.as_str());
            if eq_lit(&sc, section) && eq_lit(&kc, key) {
                return Some(e.value.clone());
            }
            i = i - 1;
        }
        None
    }
}

impl View for IniDocument {
    type V = Map<Seq<char>, Map<Seq<char>, Seq<char>>>;

    open spec fn view(&self) -> Map<Seq<char>, Map<Seq<char>, Seq<char>>> {
        ini_map(self.section_names(), self.assignments())
    }
}

/// Strips an inline `#` comment and surrounding white space from a value.
pub fn strip_inline_comment(value: &str) -> (r: String)
    ensures
        r@ == strip_comment(value@),
{
    let chars = chars_of(value);
    let head = before_lit(&chars, "#");
    let t = trim_ws(&head);
    string_of(&t)
}

/// Reads one line into `doc`, with `current` the open section.
fn read_line(doc: &mut IniDocument, current: &mut Vec<char>, line: &[char])
    ensures
        ini_step(
            IniState {
                sections: old(doc).section_names(),
                entries: old(doc).assignments(),
                current: old(current)@,
            },
            line@,
        ) == (IniState {
            sections: final(doc).section_names(),
            entries: final(doc).assignments(),
            current: final(current)@,
        }),
{
    let t = trim_ws(line);
    let n = t.len();
    if n == 0 || t[0] == '#' {
        return;
    }
    if t[0] == '[' && t[n - 1] == ']' {
        let name = copy_range(&t, 1, n - 1);
        let ghost before_sections = doc.section_names();
        doc.sections.push(string_of(&name));
        assert(doc.section_names() =~= before_sections.push(name@));
        *current = name;
        return;
    }
    let eq: Vec<char> = vec!['='];
    assert(eq@ =~= "="@) by {
        reveal_strlit("=");
    }
    match find_exec(&t, &eq) {
        Some(k) => {
            proof {
                lemma_find(t@, eq@);
            }
            if current.len() > 0 {
                let key_part = copy_range(&t, 0, k);
                let key = trim_ws(&key_part);
                let raw_part = copy_range(&t, k + 1, n);
                let raw = trim_ws(&raw_part);
                let head = before_lit(&raw, "#");
                let value = trim_ws(&head);
                assert(key_part@ =~= t@.take(k as int));
                assert(raw_part@ =~= t@.skip(k + 1));
                let entry = IniEntry {
                    section: string_of(current),
                    key: string_of(&key),
                    value: string_of(&value),
                };
                let ghost before_entries = doc.assignments();
                doc.entries.push(entry);
                assert(doc.assignments() =~= before_entries.push(
                    (current@, key@, value@),
                ));
            }
        },
        None => {},
    }
}

/// Reads an INI text into a document.
pub fn parse_ini(content: &str) -> (doc: IniDocument)
    ensures
        doc.section_names() == ini_read(content@).sections,
        doc.assignments() == ini_read(content@).entries,
{
    let chars = chars_of(content);
    let mut doc = IniDocument { sections: Vec::new(), entries: Vec::new() };
    let mut current: Vec<char> = Vec::new();
    let mut line: Vec<char> = Vec::new();
    let ghost sep = Separator::Char('\n');
    let mut i: usize = 0;
    assert(chars@.take(0) =~= Seq::<char>::empty());
    assert(doc.section_names() =~= Seq::<Seq<char>>::empty());
    assert(doc.assignments() =~= Seq::<Assignment>::empty());
    while i < chars.len()
        invariant
            i <= chars@.len(),
            chars@ == content@,
            sep == Separator::Char('\n'),
            ({
                let pieces = split_on(chars@.take(i as int), sep);
                &&& pieces.len() >= 1
                &&& pieces.last() == line@
                &&& ini_fold(initial_state(), pieces.drop_last()) == (IniState {
                    sections: doc.section_names(),
                    entries: doc.assignments(),
                    current: current@,
                })
            }),
        decreases chars.len() - i,
    {
        let c = chars[i];
        let ghost prev = split_on(chars@.take(i as int), sep);
        assert(chars@.take(i + 1).drop_last() =~= chars@.take(i as int));
        assert(chars@.take(i + 1).last() == c);
        assert(chars@.take(i + 1).len() > 0);
        if c == '\n' {
            read_line(&mut doc, &mut current, &line);
            line = Vec::new();
            let ghost next = split_on(chars@.take(i + 1), sep);
            assert(next == prev.push(Seq::<char>::empty()));
            assert(next.drop_last() =~= prev);
        } else {
            line.push(c);
            let ghost next = split_on(chars@.take(i + 1), sep);
            assert(next == prev.update(prev.len() - 1, prev.last().push(c)));
            assert(next.drop_last() =~= prev.drop_last());
        }
        i = i + 1;
    }
    assert(chars@.take(chars@.len() as int) =~= chars@);
    read_line(&mut doc, &mut current, &line);
    doc
}


// ---------------------------------------------------------------------------
// Reading laid-out text
// ---------------------------------------------------------------------------

/// The state after reading every line of `text` from `st`, the last,
/// unterminated one included.
pub open spec fn read_from(st: IniState, text: Seq<char>) -> IniState {
    let ps = split_on(text, Separator::Char('\n'));
    ini_step(ini_fold(st, ps.drop_last()), ps.last())
}

/// A value that reads back as itself: no surrounding white space, no `#`
/// and no line break.
pub open spec fn clean_value(v: Seq<char>) -> bool {
    &&& trim(v) == v
    &&& forall|i: int| 0 <= i < v.len() ==> #[trigger] v[i] != '#' && v[i] != '\n'
}

/// A key that the reader takes as written: non-empty, without white space
/// and without `#`, `=` or `[`.
pub open spec fn plain_key(k: Seq<char>) -> bool {
    k.len() > 0 && forall|i: int| 0 <= i < k.len() ==> key_char(#[trigger] k[i])
}

/// A character that may stand in a key.
pub open spec fn key_char(c: char) -> bool {
    !is_ws(c) && c != '#' && c != '=' && c != '['
}

pub open spec fn newline() -> Seq<char> {
    seq!['\n']
}

/// The line `key = value`.
pub open spec fn kv_line(k: Seq<char>, v: Seq<char>) -> Seq<char> {
    k + seq![' ', '=', ' '] + v
}

/// The lines `key = value` of `kvs`, each ended by a line break.
pub open spec fn pairs_text(kvs: Seq<(Seq<char>, Seq<char>)>) -> Seq<char>
    decreases kvs.len(),
{
    if kvs.len() == 0 {
        Seq::empty()
    } else {
        pairs_text(kvs.drop_last()) + kv_line(kvs.last().0, kvs.last().1) + newline()
    }
}

/// A section: its `[name]` header line and its `key = value` lines.
pub open spec fn block_text(name: Seq<char>, kvs: Seq<(Seq<char>, Seq<char>)>) -> Seq<char> {
    seq!['['] + name + seq![']'] + newline() + pairs_text(kvs)
}

/// The assignments that reading the lines of `kvs` in section `name` makes.
pub open spec fn tagged(name: Seq<char>, kvs: Seq<(Seq<char>, Seq<char>)>) -> Seq<Assignment> {
    Seq::new(kvs.len(), |i: int| (name, kvs[i].0, kvs[i].1))
}

pub open spec fn well_formed_pairs(kvs: Seq<(Seq<char>, Seq<char>)>) -> bool {
    forall|i: int| 0 <= i < kvs.len() ==> plain_key(#[trigger] kvs[i].0) && clean_value(kvs[i].1)
}

pub open spec fn no_newline(s: Seq<char>) -> bool {
    forall|i: int| 0 <= i < s.len() ==> s[i] != '\n'
}

proof fn lemma_split_single(s: Seq<char>)
    requires
        no_newline(s),
    ensures
        split_on(s, Separator::Char('\n')) == seq![s],
    decreases s.len(),
{
    let sep = Separator::Char('\n');
    if s.len() > 0 {
        lemma_split_single(s.drop_last());
        assert(s.drop_last().push(s.last()) =~= s);
        assert(s.last() != '\n');
        assert(!is_separator(sep, s.last()));
        assert(seq![s.drop_last()].update(0, s.drop_last().push(s.last())) =~= seq![s]);
    } else {
        assert(s =~= Seq::<char>::empty());
    }
}

/// Splitting `line`, a line break and `rest` gives `line` and then the
/// pieces of `rest`.
proof fn lemma_split_line(line: Seq<char>, rest: Seq<char>)
    requires
        no_newline(line),
    ensures
        split_on(line + newline() + rest, Separator::Char('\n')) == seq![line] + split_on(
            rest,
            Separator::Char('\n'),
        ),
    decreases rest.len(),
{
    let sep = Separator::Char('\n');
    let x = line + newline();
    if rest.len() == 0 {
        lemma_split_single(line);
        assert(x + rest =~= x);
        assert(x.drop_last() =~= line);
        assert(split_on(x, sep) =~= seq![line] + split_on(rest, sep));
    } else {
        let r = rest.drop_last();
        let c = rest.last();
        lemma_split_line(line, r);
        lemma_split_on_nonempty(r, sep);
        assert((x + rest).drop_last() =~= x + r);
        assert((x + rest).last() == c);
        let p = split_on(r, sep);
        if c == '\n' {
            assert((seq![line] + p).push(Seq::<char>::empty()) =~= seq![line] + p.push(
                Seq::<char>::empty(),
            ));
        } else {
            assert((seq![line] + p).update(p.len() as int, p.last().push(c)) =~= seq![line]
                + p.update(p.len() - 1, p.last().push(c)));
        }
    }
}

proof fn lemma_fold_first(st: IniState, x: Seq<char>, ps: Seq<Seq<char>>)
    ensures
        ini_fold(st, seq![x] + ps) == ini_fold(ini_step(st, x), ps),
    decreases ps.len(),
{
    if ps.len() == 0 {
        assert(seq![x] + ps =~= seq![x]);
        assert(seq![x].drop_last() =~= Seq::<Seq<char>>::empty());
        assert(ini_fold(st, Seq::<Seq<char>>::empty()) == st);
        assert(ini_fold(ini_step(st, x), ps) == ini_step(st, x));
    } else {
        lemma_fold_first(st, x, ps.drop_last());
        assert((seq![x] + ps).drop_last() =~= seq![x] + ps.drop_last());
        assert((seq![x] + ps).last() == ps.last());
    }
}

/// Reading a line and what follows it is reading the line, then the rest.
pub proof fn lemma_read_line(st: IniState, line: Seq<char>, rest: Seq<char>)
    requires
        no_newline(line),
    ensures
        read_from(st, line + newline() + rest) == read_from(ini_step(st, line), rest),
{
    let sep = Separator::Char('\n');
    lemma_split_line(line, rest);
    let q = split_on(rest, sep);
    lemma_split_on_nonempty(rest, sep);
    assert((seq![line] + q).drop_last() =~= seq![line] + q.drop_last());
    lemma_fold_first(st, line, q.drop_last());
}

pub proof fn lemma_read_empty(st: IniState)
    ensures
        read_from(st, Seq::empty()) == st,
        ini_step(st, Seq::empty()) == st,
{
    assert(split_on(Seq::<char>::empty(), Separator::Char('\n')).drop_last() =~= Seq::<
        Seq<char>,
    >::empty());
    assert(trim(Seq::<char>::empty()) =~= Seq::<char>::empty());
}

pub proof fn lemma_read_whole(text: Seq<char>)
    ensures
        ini_read(text) == read_from(initial_state(), text),
{
    lemma_split_on_nonempty(text, Separator::Char('\n'));
}

/// Text whose first and last characters are not white space is its own trim.
pub proof fn lemma_trim_ends(s: Seq<char>)
    requires
        s.len() > 0,
        !is_ws(s[0]),
        !is_ws(s.last()),
    ensures
        trim(s) == s,
{
    assert(trim_start_by(s, TrimClass::Whitespace) == s);
    assert(trim_end_by(s, TrimClass::Whitespace) == s);
}

proof fn lemma_clean_ends(v: Seq<char>)
    requires
        trim(v) == v,
        v.len() > 0,
    ensures
        !is_ws(v[0]),
        !is_ws(v.last()),
    decreases v.len(),
{
    let ts = trim_start_by(v, TrimClass::Whitespace);
    if is_ws(v[0]) {
        lemma_trim_start_shorter(v.drop_first());
        lemma_trim_end_shorter(ts);
        assert(false);
    }
    if is_ws(v.last()) {
        assert(ts == v);
        lemma_trim_end_shorter(v.drop_last());
        assert(false);
    }
}

proof fn lemma_trim_start_shorter(s: Seq<char>)
    ensures
        trim_start_by(s, TrimClass::Whitespace).len() <= s.len(),
    decreases s.len(),
{
    if s.len() > 0 && is_ws(s[0]) {
        lemma_trim_start_shorter(s.drop_first());
    }
}

proof fn lemma_trim_end_shorter(s: Seq<char>)
    ensures
        trim_end_by(s, TrimClass::Whitespace).len() <= s.len(),
    decreases s.len(),
{
    if s.len() > 0 && is_ws(s.last()) {
        lemma_trim_end_shorter(s.drop_last());
    }
}

proof fn lemma_no_hash(v: Seq<char>)
    requires
        forall|i: int| 0 <= i < v.len() ==> #[trigger] v[i] != '#',
    ensures
        before(v, "#"@) == v,
{
    reveal_strlit("#");
    lemma_find(v, "#"@);
    if let Some(k) = find(v, "#"@) {
        assert(v.subrange(k, k + 1)[0] == v[k]);
    }
}

/// Reading `key = value` in an open section records the assignment.
pub proof fn lemma_step_kv(st: IniState, k: Seq<char>, v: Seq<char>)
    requires
        st.current.len() > 0,
        plain_key(k),
        clean_value(v),
    ensures
        ini_step(st, kv_line(k, v)) == (IniState {
            sections: st.sections,
            entries: st.entries.push((st.current, k, v)),
            current: st.current,
        }),
{
    reveal_strlit("=");
    let line = kv_line(k, v);
    let n: int = k.len() as int;
    // The trimmed line: the whole line, or without its last space when the
    // value is empty.
    let t = if v.len() > 0 {
        k + seq![' ', '=', ' '] + v
    } else {
        k + seq![' ', '=']
    };
    if v.len() > 0 {
        lemma_clean_ends(v);
        assert(line.last() == v.last());
        lemma_trim_ends(line);
    } else {
        assert(line =~= t.push(' '));
        assert(trim_start_by(line, TrimClass::Whitespace) == line);
        assert(line.drop_last() =~= t);
        assert(trim_end_by(t, TrimClass::Whitespace) == t);
        assert(trim_end_by(line, TrimClass::Whitespace) == t);
    }
    assert(trim(line) == t);
    assert(t[0] == k[0]);
    // The first `=` is the one after the key.
    let eq = "="@;
    assert(occurs_at(t, eq, n + 1)) by {
        assert(t.subrange(n + 1, n + 2) =~= eq);
    }
    lemma_find_from(t, eq, 0);
    assert forall|j: int| 0 <= j < n + 1 implies !occurs_at(t, eq, j) by {
        if occurs_at(t, eq, j) {
            assert(t.subrange(j, j + 1)[0] == t[j]);
            if j < n {
                assert(t[j] == k[j]);
            }
        }
    }
    assert(find(t, eq) == Some(n + 1));
    // The key.
    let kt = t.take(n + 1);
    assert(kt =~= k.push(' '));
    assert(trim_start_by(kt, TrimClass::Whitespace) == kt);
    assert(kt.drop_last() =~= k);
    assert(trim_end_by(k, TrimClass::Whitespace) == k);
    assert(trim(kt) == k);
    // The value.
    let vt = t.skip(n + 2);
    if v.len() > 0 {
        assert(vt =~= seq![' '] + v);
        assert(vt.drop_first() =~= v);
        assert(trim_start_by(vt, TrimClass::Whitespace) == trim_start_by(v, TrimClass::Whitespace));
        assert(trim(vt) == v);
    } else {
        assert(vt =~= v);
    }
    lemma_no_hash(v);
}

/// Reading a `[name]` line opens section `name`.
pub proof fn lemma_step_header(st: IniState, name: Seq<char>)
    requires
        name.len() > 0,
    ensures
        ini_step(st, seq!['['] + name + seq![']']) == (IniState {
            sections: st.sections.push(name),
            entries: st.entries,
            current: name,
        }),
{
    let line = seq!['['] + name + seq![']'];
    lemma_trim_ends(line);
    assert(line.subrange(1, line.len() - 1) =~= name);
}

proof fn lemma_pairs_no_newline(kvs: Seq<(Seq<char>, Seq<char>)>, i: int)
    requires
        well_formed_pairs(kvs),
        0 <= i < kvs.len(),
    ensures
        no_newline(kv_line(kvs[i].0, kvs[i].1)),
{
    let k = kvs[i].0;
    let v = kvs[i].1;
    let l = kv_line(k, v);
    assert forall|j: int| 0 <= j < l.len() implies l[j] != '\n' by {
        if j < k.len() {
            assert(l[j] == k[j]);
            assert(key_char(k[j]));
        } else if j >= k.len() + 3 {
            assert(l[j] == v[j - k.len() - 3]);
        }
    }
}

/// Reading the `key = value` lines of `kvs` in an open section records
/// them, in order.
pub proof fn lemma_read_pairs(st: IniState, kvs: Seq<(Seq<char>, Seq<char>)>, rest: Seq<char>)
    requires
        st.current.len() > 0,
        well_formed_pairs(kvs),
    ensures
        read_from(st, pairs_text(kvs) + rest) == read_from(
            IniState {
                sections: st.sections,
                entries: st.entries + tagged(st.current, kvs),
                current: st.current,
            },
            rest,
        ),
    decreases kvs.len(),
{
    if kvs.len() == 0 {
        assert(pairs_text(kvs) + rest =~= rest);
        assert(st.entries + tagged(st.current, kvs) =~= st.entries);
    } else {
        let front = kvs.drop_last();
        let k = kvs.last().0;
        let v = kvs.last().1;
        let line = kv_line(k, v);
        assert(well_formed_pairs(front)) by {
            assert forall|i: int| 0 <= i < front.len() implies plain_key(#[trigger] front[i].0)
                && clean_value(front[i].1) by {
                assert(front[i] == kvs[i]);
            }
        }
        assert(pairs_text(kvs) + rest =~= pairs_text(front) + (line + newline() + rest));
        lemma_read_pairs(st, front, line + newline() + rest);
        let mid = IniState {
            sections: st.sections,
            entries: st.entries + tagged(st.current, front),
            current: st.current,
        };
        lemma_pairs_no_newline(kvs, kvs.len() - 1);
        lemma_read_line(mid, line, rest);
        lemma_step_kv(mid, k, v);
        assert(mid.entries.push((st.current, k, v)) =~= st.entries + tagged(st.current, kvs));
    }
}

/// Reading a section's text records its header and its assignments.
pub proof fn lemma_read_block(
    st: IniState,
    name: Seq<char>,
    kvs: Seq<(Seq<char>, Seq<char>)>,
    rest: Seq<char>,
)
    requires
        name.len() > 0,
        no_newline(name),
        well_formed_pairs(kvs),
    ensures
        read_from(st, block_text(name, kvs) + rest) == read_from(
            IniState {
                sections: st.sections.push(name),
                entries: st.entries + tagged(name, kvs),
                current: name,
            },
            rest,
        ),
{
    let header = seq!['['] + name + seq![']'];
    assert(block_text(name, kvs) + rest =~= header + newline() + (pairs_text(kvs) + rest));
    assert(no_newline(header)) by {
        assert forall|j: int| 0 <= j < header.len() implies header[j] != '\n' by {
            if 0 < j < header.len() - 1 {
                assert(header[j] == name[j - 1]);
            }
        }
    }
    lemma_read_line(st, header, pairs_text(kvs) + rest);
    lemma_step_header(st, name);
    lemma_read_pairs(ini_step(st, header), kvs, rest);
}

/// An empty line changes nothing.
pub proof fn lemma_read_blank(st: IniState, rest: Seq<char>)
    ensures
        read_from(st, newline() + rest) == read_from(st, rest),
{
    assert(newline() + rest =~= Seq::<char>::empty() + newline() + rest);
    lemma_read_line(st, Seq::empty(), rest);
    lemma_read_empty(st);
}

// ---------------------------------------------------------------------------
// Looking up
// ---------------------------------------------------------------------------

/// The value paired with `k` last in `kvs[..n]`.
pub open spec fn key_lookup(kvs: Seq<(Seq<char>, Seq<char>)>, k: Seq<char>, n: int) -> Option<
    Seq<char>,
>
    decreases n,
{
    if n <= 0 {
        None
    } else if kvs[n - 1].0 == k {
        Some(kvs[n - 1].1)
    } else {
        key_lookup(kvs, k, n - 1)
    }
}

pub proof fn lemma_lookup_concat(a: Seq<Assignment>, b: Seq<Assignment>, s: Seq<char>, k: Seq<char>)
    ensures
        ini_lookup(a + b, s, k) == (match ini_lookup(b, s, k) {
            Some(v) => Some(v),
            None => ini_lookup(a, s, k),
        }),
    decreases b.len(),
{
    if b.len() == 0 {
        assert(a + b =~= a);
    } else {
        assert((a + b).drop_last() =~= a + b.drop_last());
        assert((a + b).last() == b.last());
        lemma_lookup_concat(a, b.drop_last(), s, k);
    }
}

proof fn lemma_key_lookup_prefix(kvs: Seq<(Seq<char>, Seq<char>)>, k: Seq<char>, n: int)
    requires
        0 <= n < kvs.len(),
    ensures
        key_lookup(kvs.drop_last(), k, n) == key_lookup(kvs, k, n),
    decreases n,
{
    if n > 0 {
        lemma_key_lookup_prefix(kvs, k, n - 1);
    }
}

/// Looking up in the assignments of one section.
pub proof fn lemma_lookup_tagged(
    name: Seq<char>,
    kvs: Seq<(Seq<char>, Seq<char>)>,
    s: Seq<char>,
    k: Seq<char>,
)
    ensures
        ini_lookup(tagged(name, kvs), s, k) == if name == s {
            key_lookup(kvs, k, kvs.len() as int)
        } else {
            None
        },
    decreases kvs.len(),
{
    if kvs.len() > 0 {
        let front = kvs.drop_last();
        assert(tagged(name, kvs).drop_last() =~= tagged(name, front));
        lemma_lookup_tagged(name, front, s, k);
        lemma_key_lookup_prefix(kvs, k, kvs.len() - 1);
    }
}


// ---------------------------------------------------------------------------
// Documents laid out as a list of sections
// ---------------------------------------------------------------------------

/// `key = value` pairs of one section.
pub type Pairs = Seq<(Seq<char>, Seq<char>)>;

/// A section to be written: its name and its pairs.
pub type Block = (Seq<char>, Pairs);

/// The text of the sections `bs[i..]`, separated by empty lines.
pub open spec fn blocks_text_from(bs: Seq<Block>, i: int) -> Seq<char>
    decreases bs.len() - i,
{
    if i < 0 || i >= bs.len() {
        Seq::empty()
    } else if i == bs.len() - 1 {
        block_text(bs[i].0, bs[i].1)
    } else {
        block_text(bs[i].0, bs[i].1) + newline() + blocks_text_from(bs, i + 1)
    }
}

/// The assignments that reading the sections `bs[i..]` makes.
pub open spec fn blocks_entries_from(bs: Seq<Block>, i: int) -> Seq<Assignment>
    decreases bs.len() - i,
{
    if i < 0 || i >= bs.len() {
        Seq::empty()
    } else {
        tagged(bs[i].0, bs[i].1) + blocks_entries_from(bs, i + 1)
    }
}

/// The value last given to `key` in section `s` among the sections `bs[i..]`.
pub open spec fn blocks_lookup(bs: Seq<Block>, i: int, s: Seq<char>, k: Seq<char>) -> Option<
    Seq<char>,
>
    decreases bs.len() - i,
{
    if i < 0 || i >= bs.len() {
        None
    } else {
        match blocks_lookup(bs, i + 1, s, k) {
            Some(v) => Some(v),
            None => if bs[i].0 == s {
                key_lookup(bs[i].1, k, bs[i].1.len() as int)
            } else {
                None
            },
        }
    }
}

pub open spec fn well_formed_blocks(bs: Seq<Block>) -> bool {
    forall|i: int|
        0 <= i < bs.len() ==> #[trigger] bs[i].0.len() > 0 && no_newline(bs[i].0)
            && well_formed_pairs(bs[i].1)
}

/// Reading the text of sections `bs[i..]` records their assignments.
pub proof fn lemma_read_blocks(st: IniState, bs: Seq<Block>, i: int)
    requires
        0 <= i < bs.len(),
        well_formed_blocks(bs),
    ensures
        read_from(st, blocks_text_from(bs, i)).entries == st.entries + blocks_entries_from(bs, i),
    decreases bs.len() - i,
{
    let name = bs[i].0;
    let kvs = bs[i].1;
    assert(bs[i].0.len() > 0 && no_newline(bs[i].0) && well_formed_pairs(bs[i].1));
    let st2 = IniState {
        sections: st.sections.push(name),
        entries: st.entries + tagged(name, kvs),
        current: name,
    };
    if i == bs.len() - 1 {
        assert(block_text(name, kvs) + Seq::<char>::empty() =~= block_text(name, kvs));
        lemma_read_block(st, name, kvs, Seq::empty());
        lemma_read_empty(st2);
        assert(blocks_entries_from(bs, i + 1) =~= Seq::<Assignment>::empty());
        assert(st.entries + tagged(name, kvs) + Seq::<Assignment>::empty() =~= st.entries
            + tagged(name, kvs));
    } else {
        let rest = blocks_text_from(bs, i + 1);
        assert(blocks_text_from(bs, i) =~= block_text(name, kvs) + (newline() + rest));
        lemma_read_block(st, name, kvs, newline() + rest);
        lemma_read_blank(st2, rest);
        lemma_read_blocks(st2, bs, i + 1);
        assert(st2.entries + blocks_entries_from(bs, i + 1) =~= st.entries + blocks_entries_from(
            bs,
            i,
        ));
    }
}

/// Looking up in the assignments of sections `bs[i..]`.
pub proof fn lemma_lookup_blocks(bs: Seq<Block>, i: int, s: Seq<char>, k: Seq<char>)
    requires
        0 <= i,
    ensures
        ini_lookup(blocks_entries_from(bs, i), s, k) == blocks_lookup(bs, i, s, k),
    decreases bs.len() - i,
{
    if i < bs.len() {
        lemma_lookup_blocks(bs, i + 1, s, k);
        lemma_lookup_concat(tagged(bs[i].0, bs[i].1), blocks_entries_from(bs, i + 1), s, k);
        lemma_lookup_tagged(bs[i].0, bs[i].1, s, k);
    }
}

/// `s` has no character `c`; checked one character at a time.
pub open spec fn lacks(s: Seq<char>, c: char) -> bool
    decreases s.len(),
{
    s.len() == 0 || (s[0] != c && lacks(s.drop_first(), c))
}

pub proof fn lemma_lacks(s: Seq<char>, c: char)
    requires
        lacks(s, c),
    ensures
        forall|i: int| 0 <= i < s.len() ==> #[trigger] s[i] != c,
    decreases s.len(),
{
    if s.len() > 0 {
        lemma_lacks(s.drop_first(), c);
        assert forall|i: int| 0 <= i < s.len() implies #[trigger] s[i] != c by {
            if i > 0 {
                assert(s[i] == s.drop_first()[i - 1]);
            }
        }
    }
}

/// Reading a whole document: a comment line, an empty line and sections.
pub proof fn lemma_read_document(comment: Seq<char>, bs: Seq<Block>)
    requires
        comment.len() > 0,
        comment[0] == '#',
        !is_ws(comment.last()),
        no_newline(comment),
        bs.len() > 0,
        well_formed_blocks(bs),
    ensures
        ini_read(comment + newline() + newline() + blocks_text_from(bs, 0)).entries
            == blocks_entries_from(bs, 0),
{
    let st = initial_state();
    let body = blocks_text_from(bs, 0);
    let text = comment + newline() + newline() + body;
    lemma_read_whole(text);
    assert(text =~= comment + newline() + (newline() + body));
    lemma_read_line(st, comment, newline() + body);
    lemma_trim_ends(comment);
    assert(ini_step(st, comment) == st);
    lemma_read_blank(st, body);
    lemma_read_blocks(st, bs, 0);
    assert(st.entries + blocks_entries_from(bs, 0) =~= blocks_entries_from(bs, 0));
}


/// The value paired with `k` at index `j` is found when no later pair of
/// `kvs[..n]` has the key `k`.
pub proof fn lemma_key_lookup_at(kvs: Seq<(Seq<char>, Seq<char>)>, k: Seq<char>, j: int, n: int)
    requires
        0 <= j < n <= kvs.len(),
        kvs[j].0 == k,
        forall|m: int| j < m < n ==> #[trigger] kvs[m].0 != k,
    ensures
        key_lookup(kvs, k, n) == Some(kvs[j].1),
    decreases n,
{
    if n - 1 > j {
        assert(kvs[n - 1].0 != k);
        lemma_key_lookup_at(kvs, k, j, n - 1);
    }
}


// ---------------------------------------------------------------------------
// Writing only what differs from the defaults
// ---------------------------------------------------------------------------

/// The pairs of `ps` whose value differs from the value at the same place
/// in `ds`, the pairs of the defaults; in order.
pub open spec fn changed_pairs(ps: Pairs, ds: Pairs) -> Pairs
    decreases ps.len(),
{
    if ps.len() == 0 || ds.len() == 0 {
        Seq::empty()
    } else {
        let r = changed_pairs(ps.drop_last(), ds.drop_last());
        if ps.last().1 == ds.last().1 {
            r
        } else {
            r.push(ps.last())
        }
    }
}

/// The sections of `bs`, each with only the pairs that differ from those of
/// the same section of `ds`.
pub open spec fn changed_blocks(bs: Seq<Block>, ds: Seq<Block>) -> Seq<Block> {
    Seq::new(bs.len(), |i: int| (bs[i].0, changed_pairs(bs[i].1, ds[i].1)))
}

/// `ps` and `ds` have the same keys, in the same places.
pub open spec fn same_keys(ps: Pairs, ds: Pairs) -> bool {
    &&& ps.len() == ds.len()
    &&& forall|i: int| 0 <= i < ps.len() ==> #[trigger] ps[i].0 == ds[i].0
}

/// No key occurs twice in `ps`.
pub open spec fn distinct_keys(ps: Pairs) -> bool {
    forall|i: int, j: int| 0 <= i < j < ps.len() ==> #[trigger] ps[i].0 != #[trigger] ps[j].0
}

/// `ds` is laid out as `bs`: the same section names, each section with the
/// same keys, no key twice in a section and no section name twice.
pub open spec fn same_layout(bs: Seq<Block>, ds: Seq<Block>) -> bool {
    &&& bs.len() == ds.len()
    &&& forall|i: int|
        0 <= i < bs.len() ==> #[trigger] bs[i].0 == ds[i].0 && same_keys(bs[i].1, ds[i].1)
            && distinct_keys(bs[i].1)
    &&& forall|i: int, j: int| 0 <= i < j < bs.len() ==> #[trigger] bs[i].0 != #[trigger] bs[j].0
}

/// What looking up in the changed pairs finds: nothing where the value is the
/// default one, the value otherwise.
pub open spec fn changed_lookup(v: Option<Seq<char>>, d: Option<Seq<char>>) -> Option<Seq<char>> {
    if v == d {
        None
    } else {
        v
    }
}

/// A key that no pair of `kvs[..n]` has is not found.
pub proof fn lemma_key_lookup_absent(kvs: Pairs, k: Seq<char>, n: int)
    requires
        n <= kvs.len(),
        forall|m: int| 0 <= m < n ==> #[trigger] kvs[m].0 != k,
    ensures
        key_lookup(kvs, k, n) is None,
    decreases n,
{
    if n > 0 {
        lemma_key_lookup_absent(kvs, k, n - 1);
    }
}

/// The changed pairs are pairs of `ps`.
pub proof fn lemma_changed_pairs_from(ps: Pairs, ds: Pairs)
    ensures
        forall|i: int|
            0 <= i < changed_pairs(ps, ds).len() ==> ps.contains(#[trigger] changed_pairs(ps, ds)[i]),
    decreases ps.len(),
{
    if ps.len() > 0 && ds.len() > 0 {
        let p = ps.drop_last();
        lemma_changed_pairs_from(p, ds.drop_last());
        let r = changed_pairs(p, ds.drop_last());
        let c = changed_pairs(ps, ds);
        assert forall|i: int| 0 <= i < c.len() implies ps.contains(#[trigger] c[i]) by {
            if i < r.len() {
                assert(c[i] == r[i]);
                let m = choose|m: int| 0 <= m < p.len() && p[m] == r[i];
                assert(ps[m] == r[i]);
            } else {
                assert(c[i] == ps.last());
                assert(ps[ps.len() - 1] == ps.last());
            }
        }
    }
}

/// Looking up in the changed pairs.
pub proof fn lemma_changed_lookup(ps: Pairs, ds: Pairs, k: Seq<char>)
    requires
        same_keys(ps, ds),
        distinct_keys(ps),
    ensures
        key_lookup(changed_pairs(ps, ds), k, changed_pairs(ps, ds).len() as int) == changed_lookup(
            key_lookup(ps, k, ps.len() as int),
            key_lookup(ds, k, ds.len() as int),
        ),
    decreases ps.len(),
{
    if ps.len() > 0 {
        let p = ps.drop_last();
        let d = ds.drop_last();
        let x = ps.last();
        let y = ds.last();
        assert(x == ps[ps.len() - 1]);
        assert(y == ds[ds.len() - 1]);
        assert(same_keys(p, d)) by {
            assert forall|i: int| 0 <= i < p.len() implies #[trigger] p[i].0 == d[i].0 by {
                assert(p[i] == ps[i]);
                assert(d[i] == ds[i]);
            }
        }
        assert(distinct_keys(p)) by {
            assert forall|i: int, j: int| 0 <= i < j < p.len() implies #[trigger] p[i].0
                != #[trigger] p[j].0 by {
                assert(p[i] == ps[i]);
                assert(p[j] == ps[j]);
            }
        }
        lemma_changed_lookup(p, d, k);
        let r = changed_pairs(p, d);
        let c = changed_pairs(ps, ds);
        lemma_key_lookup_prefix(ps, k, ps.len() - 1);
        lemma_key_lookup_prefix(ds, k, ds.len() - 1);
        assert(p =~= ps.drop_last());
        if k == x.0 {
            assert(y.0 == k);
            assert forall|m: int| 0 <= m < p.len() implies #[trigger] p[m].0 != k by {
                assert(p[m] == ps[m]);
            }
            assert forall|m: int| 0 <= m < d.len() implies #[trigger] d[m].0 != k by {
                assert(d[m] == ds[m]);
                assert(ds[m].0 == ps[m].0);
            }
            lemma_key_lookup_absent(p, k, p.len() as int);
            lemma_key_lookup_absent(d, k, d.len() as int);
            if x.1 != y.1 {
                assert(c == r.push(x));
                assert(c[c.len() - 1] == x);
            } else {
                assert(c == r);
            }
        } else {
            assert(y.0 != k);
            if x.1 != y.1 {
                assert(c == r.push(x));
                assert(c[c.len() - 1] == x);
                lemma_key_lookup_prefix(c, k, c.len() - 1);
                assert(c.drop_last() =~= r);
            } else {
                assert(c == r);
            }
        }
    }
}

/// A section name that no block of `bs[i..]` has is not looked up.
pub proof fn lemma_blocks_lookup_absent(bs: Seq<Block>, i: int, s: Seq<char>, k: Seq<char>)
    requires
        0 <= i,
        forall|j: int| i <= j < bs.len() ==> #[trigger] bs[j].0 != s,
    ensures
        blocks_lookup(bs, i, s, k) is None,
    decreases bs.len() - i,
{
    if i < bs.len() {
        lemma_blocks_lookup_absent(bs, i + 1, s, k);
    }
}

/// Looking up in the changed sections: nothing where the value is the one
/// of `ds`, the value of `bs` otherwise.
pub proof fn lemma_changed_blocks_lookup(bs: Seq<Block>, ds: Seq<Block>, i: int, s: Seq<char>, k: Seq<char>)
    requires
        0 <= i,
        same_layout(bs, ds),
    ensures
        blocks_lookup(changed_blocks(bs, ds), i, s, k) == changed_lookup(
            blocks_lookup(bs, i, s, k),
            blocks_lookup(ds, i, s, k),
        ),
    decreases bs.len() - i,
{
    let cs = changed_blocks(bs, ds);
    if i < bs.len() {
        lemma_changed_blocks_lookup(bs, ds, i + 1, s, k);
        assert(cs[i] == (bs[i].0, changed_pairs(bs[i].1, ds[i].1)));
        assert(bs[i].0 == ds[i].0 && same_keys(bs[i].1, ds[i].1) && distinct_keys(bs[i].1));
        if bs[i].0 == s {
            assert forall|j: int| i + 1 <= j < bs.len() implies #[trigger] bs[j].0 != s by {
                assert(bs[i].0 != bs[j].0);
            }
            assert forall|j: int| i + 1 <= j < ds.len() implies #[trigger] ds[j].0 != s by {
                assert(bs[i].0 != bs[j].0);
                assert(bs[j].0 == ds[j].0);
            }
            assert forall|j: int| i + 1 <= j < cs.len() implies #[trigger] cs[j].0 != s by {
                assert(bs[i].0 != bs[j].0);
                assert(cs[j].0 == bs[j].0);
            }
            lemma_blocks_lookup_absent(bs, i + 1, s, k);
            lemma_blocks_lookup_absent(ds, i + 1, s, k);
            lemma_blocks_lookup_absent(cs, i + 1, s, k);
            lemma_changed_lookup(bs[i].1, ds[i].1, k);
        }
    }
}

/// No pair differs from itself.
pub proof fn lemma_changed_pairs_none(ps: Pairs)
    ensures
        changed_pairs(ps, ps).len() == 0,
    decreases ps.len(),
{
    if ps.len() > 0 {
        lemma_changed_pairs_none(ps.drop_last());
    }
}

/// The changed sections are well formed when the sections are.
pub proof fn lemma_changed_blocks_well_formed(bs: Seq<Block>, ds: Seq<Block>)
    requires
        well_formed_blocks(bs),
    ensures
        well_formed_blocks(changed_blocks(bs, ds)),
{
    let cs = changed_blocks(bs, ds);
    assert forall|i: int| 0 <= i < cs.len() implies #[trigger] cs[i].0.len() > 0 && no_newline(
        cs[i].0,
    ) && well_formed_pairs(cs[i].1) by {
        assert(bs[i].0.len() > 0 && no_newline(bs[i].0) && well_formed_pairs(bs[i].1));
        let ps = bs[i].1;
        let c = cs[i].1;
        lemma_changed_pairs_from(ps, ds[i].1);
        assert forall|j: int| 0 <= j < c.len() implies plain_key(#[trigger] c[j].0) && clean_value(
            c[j].1,
        ) by {
            let m = choose|m: int| 0 <= m < ps.len() && ps[m] == c[j];
            assert(plain_key(ps[m].0) && clean_value(ps[m].1));
        }
    }
}
} // verus!
