//! The edits that the configuration editor makes to list-valued and
//! derived settings: cores to ignore, y-cruncher tests, Aida64 test parts,
//! the runtime per core, and the program-specific clean-up before a run.
use vstd::prelude::*;
use vstd::relations::{sorted_by, total_ordering};

use crate::text::{
    chars_eq, chars_of, decimal, is_digit, join, join_exec, nonempty_exec, nonempty_pieces,
    parse_u32, push_decimal, push_lit, spec_parse_u32, split_exec, split_on, string_of,
    to_uppercase, trim, trim_all, trim_each, trim_ws, upper_all, upper_case, upper_each, views,
    Separator, eq_lit, is_trimmed, lemma_decimal_parses, lemma_nonempty_pieces_all,
    lemma_nonempty_pieces_from, lemma_parse_decimal, lemma_split_join_comma,
    lemma_split_pieces_plain, lemma_trim_after_space, lemma_trim_part, lemma_trim_trimmed,
    no_separator, is_separator, contains_seq, is_ascii_seq, lemma_ascii_upper_ascii,
    lemma_ascii_upper_occurs, lemma_join_ascii, lemma_join_contains, lemma_plain_word,
    lemma_split_pieces_ascii, occurs_at, plain_word,
};

verus! {

// ---------------------------------------------------------------------------
// Lists of words
// ---------------------------------------------------------------------------

/// The comma-separated entries of `s`, trimmed, empty ones dropped.
pub open spec fn word_list(s: Seq<char>) -> Seq<Seq<char>> {
    nonempty_pieces(trim_each(split_on(s, Separator::Char(','))))
}

/// `ps` without any entry equal to `x`.
pub open spec fn without(ps: Seq<Seq<char>>, x: Seq<char>) -> Seq<Seq<char>>
    decreases ps.len(),
{
    if ps.len() == 0 {
        Seq::empty()
    } else {
        let r = without(ps.drop_last(), x);
        if ps.last() == x {
            r
        } else {
            r.push(ps.last())
        }
    }
}

/// `x` switched on (added at the end unless present) or off (removed).
pub open spec fn toggled(ps: Seq<Seq<char>>, x: Seq<char>, on: bool) -> Seq<Seq<char>> {
    if on {
        if ps.contains(x) {
            ps
        } else {
            ps.push(x)
        }
    } else {
        without(ps, x)
    }
}

/// The entries of `ps` that `known` holds, in order.
pub open spec fn keep_known(ps: Seq<Seq<char>>, known: Seq<Seq<char>>) -> Seq<Seq<char>>
    decreases ps.len(),
{
    if ps.len() == 0 {
        Seq::empty()
    } else {
        let r = keep_known(ps.drop_last(), known);
        if known.contains(ps.last()) {
            r.push(ps.last())
        } else {
            r
        }
    }
}

pub fn word_list_exec(s: &str) -> (r: Vec<Vec<char>>)
    ensures
        views(r@) == word_list(s@),
{
    let chars = chars_of(s);
    let pieces = split_exec(&chars, Separator::Char(','));
    let trimmed = trim_all(pieces);
    nonempty_exec(trimmed)
}

fn list_contains(ps: &Vec<Vec<char>>, x: &[char]) -> (r: bool)
    ensures
        r == views(ps@).contains(x@),
{
    let mut i: usize = 0;
    while i < ps.len()
        invariant
            i <= ps@.len(),
            forall|j: int| 0 <= j < i ==> #[trigger] ps@[j]@ != x@,
        decreases ps.len() - i,
    {
        if chars_eq(&ps[i], x) {
            assert(views(ps@)[i as int] == x@);
            return true;
        }
        i = i + 1;
    }
    proof {
        if views(ps@).contains(x@) {
            let k = choose|k: int| 0 <= k < views(ps@).len() && views(ps@)[k] == x@;
            assert(ps@[k]@ == x@);
        }
    }
    false
}

fn list_without(ps: &Vec<Vec<char>>, x: &[char]) -> (r: Vec<Vec<char>>)
    ensures
        views(r@) == without(views(ps@), x@),
{
    let ghost vs = views(ps@);
    let mut r: Vec<Vec<char>> = Vec::new();
    let mut i: usize = 0;
    assert(vs.take(0) =~= Seq::<Seq<char>>::empty());
    while i < ps.len()
        invariant
            i <= ps@.len(),
            vs == views(ps@),
            views(r@) == without(vs.take(i as int), x@),
        decreases ps.len() - i,
    {
        assert(vs.take(i + 1).drop_last() =~= vs.take(i as int));
        assert(vs.take(i + 1).last() == ps@[i as int]@);
        if !chars_eq(&ps[i], x) {
            let e = ps[i].clone();
            r.push(e);
            assert(views(r@) =~= without(vs.take(i as int), x@).push(vs[i as int]));
        }
        i = i + 1;
    }
    assert(vs.take(ps@.len() as int) =~= vs);
    r
}

fn toggle_list(ps: Vec<Vec<char>>, x: Vec<char>, on: bool) -> (r: Vec<Vec<char>>)
    ensures
        views(r@) == toggled(views(ps@), x@, on),
{
    if on {
        if list_contains(&ps, &x) {
            ps
        } else {
            let ghost before = views(ps@);
            let mut ps = ps;
            ps.push(x);
            assert(views(ps@) =~= before.push(x@));
            ps
        }
    } else {
        list_without(&ps, &x)
    }
}

fn keep_known_exec(ps: &Vec<Vec<char>>, known: &Vec<Vec<char>>) -> (r: Vec<Vec<char>>)
    ensures
        views(r@) == keep_known(views(ps@), views(known@)),
{
    let ghost vs = views(ps@);
    let mut r: Vec<Vec<char>> = Vec::new();
    let mut i: usize = 0;
    assert(vs.take(0) =~= Seq::<Seq<char>>::empty());
    while i < ps.len()
        invariant
            i <= ps@.len(),
            vs == views(ps@),
            views(r@) == keep_known(vs.take(i as int), views(known@)),
        decreases ps.len() - i,
    {
        assert(vs.take(i + 1).drop_last() =~= vs.take(i as int));
        assert(vs.take(i + 1).last() == ps@[i as int]@);
        if list_contains(known, &ps[i]) {
            let e = ps[i].clone();
            r.push(e);
            assert(views(r@) =~= keep_known(vs.take(i as int), views(known@)).push(vs[i as int]));
        }
        i = i + 1;
    }
    assert(vs.take(ps@.len() as int) =~= vs);
    r
}

// ---------------------------------------------------------------------------
// y-cruncher tests
// ---------------------------------------------------------------------------

/// The y-cruncher test list with `name` switched on or off, written back
/// as `A, B, C`.
pub open spec fn toggled_tests(tests: Seq<char>, name: Seq<char>, enabled: bool) -> Seq<char> {
    join(toggled(word_list(tests), name, enabled), ", "@)
}

/// Switches a y-cruncher test on or off in the comma-separated test list.
pub fn toggle_test(tests: &str, name: &str, enabled: bool) -> (r: String)
    ensures
        r@ == toggled_tests(tests@, name@, enabled),
{
    let list = word_list_exec(tests);
    let toggled = toggle_list(list, chars_of(name), enabled);
    string_of(&join_exec(&toggled, ", "))
}

/// The test list keeping only the tests that `known` names; `fallback` when
/// none is left.
pub open spec fn normalized_tests(tests: Seq<char>, known: Seq<Seq<char>>, fallback: Seq<char>) -> Seq<char> {
    let valid = keep_known(word_list(tests), known);
    if valid.len() == 0 {
        fallback
    } else {
        join(valid, ", "@)
    }
}

/// Keeps the tests of `tests` that `known` names; `fallback` when none is
/// left.
pub fn normalize_tests(tests: &str, known: &Vec<Vec<char>>, fallback: &str) -> (r: String)
    ensures
        r@ == normalized_tests(tests@, views(known@), fallback@),
{
    let list = word_list_exec(tests);
    let valid = keep_known_exec(&list, known);
    if valid.len() == 0 {
        fallback.to_owned()
    } else {
        string_of(&join_exec(&valid, ", "))
    }
}

// ---------------------------------------------------------------------------
// Aida64 test parts
// ---------------------------------------------------------------------------

/// The Aida64 parts of a mode list: entries trimmed and upper-cased, empty
/// ones dropped.
pub open spec fn aida_parts(mode: Seq<char>) -> Seq<Seq<char>> {
    nonempty_pieces(upper_each(trim_each(split_on(mode, Separator::Char(',')))))
}

/// Where a part goes in the canonical order `CACHE`, `CPU`, `FPU`, `RAM`;
/// any other part after them.
pub open spec fn aida_rank(p: Seq<char>) -> int {
    if p == "CACHE"@ {
        0
    } else if p == "CPU"@ {
        1
    } else if p == "FPU"@ {
        2
    } else if p == "RAM"@ {
        3
    } else {
        99
    }
}

/// The parts of `ps` of rank `k`, in order.
pub open spec fn with_rank(ps: Seq<Seq<char>>, k: int) -> Seq<Seq<char>>
    decreases ps.len(),
{
    if ps.len() == 0 {
        Seq::empty()
    } else {
        let r = with_rank(ps.drop_last(), k);
        if aida_rank(ps.last()) == k {
            r.push(ps.last())
        } else {
            r
        }
    }
}

/// `ps` stably sorted by rank.
pub open spec fn rank_sorted(ps: Seq<Seq<char>>) -> Seq<Seq<char>> {
    with_rank(ps, 0) + with_rank(ps, 1) + with_rank(ps, 2) + with_rank(ps, 3) + with_rank(ps, 99)
}

/// The Aida64 mode with `component` (upper-cased) switched on or off, in
/// canonical order, joined by `,`; `CACHE` when no part is left.
pub open spec fn toggled_aida_mode(mode: Seq<char>, component: Seq<char>, enabled: bool) -> Seq<
    char,
> {
    let parts = rank_sorted(toggled(aida_parts(mode), upper_case(component), enabled));
    if parts.len() == 0 {
        "CACHE"@
    } else {
        join(parts, ","@)
    }
}

fn rank_exec(p: &[char]) -> (r: u32)
    ensures
        r == aida_rank(p@),
{
    if eq_lit(p, "CACHE") {
        0
    } else if eq_lit(p, "CPU") {
        1
    } else if eq_lit(p, "FPU") {
        2
    } else if eq_lit(p, "RAM") {
        3
    } else {
        99
    }
}

/// Appends the parts of `ps` of rank `k` to `out`.
fn push_rank(out: &mut Vec<Vec<char>>, ps: &Vec<Vec<char>>, k: u32)
    ensures
        views(final(out)@) == views(old(out)@) + with_rank(views(ps@), k as int),
{
    let ghost vs = views(ps@);
    let ghost start = views(out@);
    let mut i: usize = 0;
    assert(vs.take(0) =~= Seq::<Seq<char>>::empty());
    assert(start + with_rank(vs.take(0), k as int) =~= start);
    while i < ps.len()
        invariant
            i <= ps@.len(),
            vs == views(ps@),
            views(out@) == start + with_rank(vs.take(i as int), k as int),
        decreases ps.len() - i,
    {
        assert(vs.take(i + 1).drop_last() =~= vs.take(i as int));
        assert(vs.take(i + 1).last() == ps@[i as int]@);
        if rank_exec(&ps[i]) == k {
            let e = ps[i].clone();
            let ghost prev = views(out@);
            out.push(e);
            assert(views(out@) =~= prev.push(vs[i as int]));
            assert(with_rank(vs.take(i + 1), k as int) == with_rank(vs.take(i as int), k as int).push(
                vs[i as int],
            ));
            assert(views(out@) =~= start + with_rank(vs.take(i + 1), k as int));
        }
        i = i + 1;
    }
    assert(vs.take(ps@.len() as int) =~= vs);
}

/// Switches an Aida64 test part on or off in the mode list.
pub fn toggle_aida_component(mode: &str, component: &str, enabled: bool) -> (r: String)
    ensures
        r@ == toggled_aida_mode(mode@, component@, enabled),
{
    let chars = chars_of(mode);
    let pieces = split_exec(&chars, Separator::Char(','));
    let trimmed = trim_all(pieces);
    let upper = upper_all(trimmed);
    let parts = nonempty_exec(upper);
    let comp_chars = chars_of(component);
    let comp = to_uppercase(&comp_chars);
    let toggled = toggle_list(parts, comp, enabled);
    let mut sorted: Vec<Vec<char>> = Vec::new();
    assert(views(sorted@) =~= Seq::<Seq<char>>::empty());
    push_rank(&mut sorted, &toggled, 0);
    push_rank(&mut sorted, &toggled, 1);
    push_rank(&mut sorted, &toggled, 2);
    push_rank(&mut sorted, &toggled, 3);
    push_rank(&mut sorted, &toggled, 99);
    assert(views(sorted@) =~= rank_sorted(views(toggled@)));
    if sorted.len() == 0 {
        "CACHE".to_owned()
    } else {
        string_of(&join_exec(&sorted, ","))
    }
}

// ---------------------------------------------------------------------------
// Cores to ignore
// ---------------------------------------------------------------------------

/// The numbers among the pieces `ps`, each read after trimming; pieces that
/// are no `u32` are skipped.
pub open spec fn parsed_numbers(ps: Seq<Seq<char>>) -> Seq<u32>
    decreases ps.len(),
{
    if ps.len() == 0 {
        Seq::empty()
    } else {
        let r = parsed_numbers(ps.drop_last());
        match spec_parse_u32(trim(ps.last())) {
            Some(n) => r.push(n),
            None => r,
        }
    }
}

/// The core numbers of a comma-separated list.
pub open spec fn core_list(s: Seq<char>) -> Seq<u32> {
    parsed_numbers(split_on(s, Separator::Char(',')))
}

pub open spec fn u32_leq() -> spec_fn(u32, u32) -> bool {
    |a: u32, b: u32| a <= b
}

/// `s` without the number `x`.
pub open spec fn remove_number(s: Seq<u32>, x: u32) -> Seq<u32>
    decreases s.len(),
{
    if s.len() == 0 {
        Seq::empty()
    } else {
        let r = remove_number(s.drop_last(), x);
        if s.last() == x {
            r
        } else {
            r.push(s.last())
        }
    }
}

/// The core list with core `id` checked (added, and the list sorted, unless
/// present) or unchecked (removed).
pub open spec fn toggled_cores(s: Seq<u32>, id: u32, checked: bool) -> Seq<u32> {
    if checked {
        if s.contains(id) {
            s
        } else {
            s.push(id).sort_by(u32_leq())
        }
    } else {
        remove_number(s, id)
    }
}

/// A core list written as `1, 2, 3`.
pub open spec fn cores_text(s: Seq<u32>) -> Seq<char> {
    join(Seq::new(s.len(), |i: int| decimal(s[i] as nat)), ", "@)
}

/// Reads the core numbers of a comma-separated list.
pub fn parse_core_list(s: &str) -> (r: Vec<u32>)
    ensures
        r@ == core_list(s@),
{
    let chars = chars_of(s);
    let pieces = split_exec(&chars, Separator::Char(','));
    let ghost vs = views(pieces@);
    let mut r: Vec<u32> = Vec::new();
    let mut i: usize = 0;
    assert(vs.take(0) =~= Seq::<Seq<char>>::empty());
    while i < pieces.len()
        invariant
            i <= pieces@.len(),
            vs == views(pieces@),
            r@ == parsed_numbers(vs.take(i as int)),
        decreases pieces.len() - i,
    {
        assert(vs.take(i + 1).drop_last() =~= vs.take(i as int));
        assert(vs.take(i + 1).last() == pieces@[i as int]@);
        let t = trim_ws(&pieces[i]);
        match parse_u32(&t) {
            Some(n) => r.push(n),
            None => {},
        }
        i = i + 1;
    }
    assert(vs.take(pieces@.len() as int) =~= vs);
    r
}

proof fn lemma_u32_leq_total()
    ensures
        total_ordering(u32_leq()),
{
}

/// Sorts a list of numbers into ascending order.
fn sort_numbers(v: &Vec<u32>) -> (r: Vec<u32>)
    ensures
        r@ == v@.sort_by(u32_leq()),
{
    broadcast use vstd::seq_lib::group_to_multiset_ensures;

    let leq = Ghost(u32_leq());
    let mut r: Vec<u32> = Vec::new();
    let mut i: usize = 0;
    assert(v@.take(0) =~= Seq::<u32>::empty());
    while i < v.len()
        invariant
            i <= v@.len(),
            leq@ == u32_leq(),
            sorted_by(r@, leq@),
            r@.to_multiset() == v@.take(i as int).to_multiset(),
        decreases v.len() - i,
    {
        let x = v[i];
        let mut pos: usize = 0;
        while pos < r.len() && r[pos] <= x
            invariant
                pos <= r@.len(),
                leq@ == u32_leq(),
                sorted_by(r@, leq@),
                forall|j: int| 0 <= j < pos ==> r@[j] <= x,
            decreases r.len() - pos,
        {
            pos = pos + 1;
        }
        let ghost old_r = r@;
        r.insert(pos, x);
        assert(r@ == old_r.insert(pos as int, x));
        assert(sorted_by(r@, leq@)) by {
            let l = u32_leq();
            let p = pos as int;
            assert forall|a: int, b: int| 0 <= a < b < r@.len() implies #[trigger] l(
                r@[a],
                r@[b],
            ) by {
                if a < p && b < p {
                    assert(l(old_r[a], old_r[b]));
                } else if a < p && b == p {
                } else if a < p && b > p {
                    assert(l(old_r[a], old_r[b - 1]));
                } else if a == p {
                    assert(x < old_r[p]);
                    if b - 1 > p {
                        assert(l(old_r[p], old_r[b - 1]));
                    }
                } else {
                    assert(l(old_r[a - 1], old_r[b - 1]));
                }
            }
        }
        assert(v@.take(i + 1) =~= v@.take(i as int).push(x));
        proof {
            vstd::seq_lib::to_multiset_insert(old_r, pos as int, x);
            vstd::seq_lib::to_multiset_build(v@.take(i as int), x);
        }
        i = i + 1;
    }
    assert(v@.take(v@.len() as int) =~= v@);
    proof {
        lemma_u32_leq_total();
        v@.lemma_sort_by_ensures(u32_leq());
        vstd::seq_lib::lemma_sorted_unique(r@, v@.sort_by(u32_leq()), u32_leq());
    }
    r
}

fn write_numbers(v: &Vec<u32>) -> (r: String)
    ensures
        r@ == cores_text(v@),
{
    let ghost ds = Seq::new(v@.len(), |i: int| decimal(v@[i] as nat));
    let mut out: Vec<char> = Vec::new();
    let mut i: usize = 0;
    assert(ds.take(0) =~= Seq::<Seq<char>>::empty());
    while i < v.len()
        invariant
            i <= v@.len(),
            ds == Seq::new(v@.len(), |i: int| decimal(v@[i] as nat)),
            out@ == join(ds.take(i as int), ", "@),
        decreases v.len() - i,
    {
        assert(ds.take(i + 1).drop_last() =~= ds.take(i as int));
        if i > 0 {
            push_lit(&mut out, ", ");
        } else {
            assert(ds.take(1)[0] == ds[0]);
        }
        let ghost mid = out@;
        push_decimal(&mut out, v[i] as u64);
        assert(out@ == mid + ds[i as int]);
        i = i + 1;
    }
    assert(ds.take(v@.len() as int) =~= ds);
    string_of(&out)
}

fn remove_number_exec(v: &Vec<u32>, x: u32) -> (r: Vec<u32>)
    ensures
        r@ == remove_number(v@, x),
{
    let mut r: Vec<u32> = Vec::new();
    let mut i: usize = 0;
    assert(v@.take(0) =~= Seq::<u32>::empty());
    while i < v.len()
        invariant
            i <= v@.len(),
            r@ == remove_number(v@.take(i as int), x),
        decreases v.len() - i,
    {
        assert(v@.take(i + 1).drop_last() =~= v@.take(i as int));
        if v[i] != x {
            r.push(v[i]);
        }
        i = i + 1;
    }
    assert(v@.take(v@.len() as int) =~= v@);
    r
}

/// The list of cores to ignore with core `id` checked or unchecked, written
/// back as `1, 2, 3`.  Opaque: its body is revealed where it is reasoned
/// about.
#[verifier::opaque]
pub open spec fn toggled_core_text(text: Seq<char>, id: u32, checked: bool) -> Seq<char> {
    cores_text(toggled_cores(core_list(text), id, checked))
}

/// Checks or unchecks core `id` in the comma-separated list of cores to
/// ignore; the list is written back as `1, 2, 3`.
pub fn toggle_core_ignore(cores_to_ignore: &str, id: u32, checked: bool) -> (r: String)
    ensures
        r@ == toggled_core_text(cores_to_ignore@, id, checked),
{
    reveal(toggled_core_text);
    let cores = parse_core_list(cores_to_ignore);
    let mut found = false;
    let mut i: usize = 0;
    while i < cores.len()
        invariant
            i <= cores@.len(),
            found == exists|j: int| 0 <= j < i && cores@[j] == id,
        decreases cores.len() - i,
    {
        if cores[i] == id {
            found = true;
        }
        i = i + 1;
    }
    assert(found == cores@.contains(id));
    let result = if checked {
        if found {
            cores
        } else {
            let mut more = cores;
            more.push(id);
            sort_numbers(&more)
        }
    } else {
        remove_number_exec(&cores, id)
    };
    write_numbers(&result)
}

// ---------------------------------------------------------------------------
// Runtime per core
// ---------------------------------------------------------------------------

/// The ASCII digits of `s`, in order.
pub open spec fn digits_of(s: Seq<char>) -> Seq<char>
    decreases s.len(),
{
    if s.len() == 0 {
        Seq::empty()
    } else {
        let r = digits_of(s.drop_last());
        if is_digit(s.last()) {
            r.push(s.last())
        } else {
            r
        }
    }
}

/// The runtime per core from what the user typed: its digits followed by
/// `m` (minutes), or nothing when there are no digits.
pub open spec fn runtime_text(input: Seq<char>) -> Seq<char> {
    let d = digits_of(input);
    if d.len() == 0 {
        Seq::empty()
    } else {
        d.push('m')
    }
}

/// The runtime per core from what the user typed.
pub fn runtime_from_input(input: &str) -> (r: String)
    ensures
        r@ == runtime_text(input@),
{
    let chars = chars_of(input);
    let mut d: Vec<char> = Vec::new();
    let mut i: usize = 0;
    assert(chars@.take(0) =~= Seq::<char>::empty());
    while i < chars.len()
        invariant
            i <= chars@.len(),
            d@ == digits_of(chars@.take(i as int)),
        decreases chars.len() - i,
    {
        assert(chars@.take(i + 1).drop_last() =~= chars@.take(i as int));
        let c = chars[i];
        if 48 <= (c as u32) && (c as u32) <= 57 {
            d.push(c);
        }
        i = i + 1;
    }
    assert(chars@.take(chars@.len() as int) =~= chars@);
    if d.len() == 0 {
        String::new()
    } else {
        d.push('m');
        string_of(&d)
    }
}


// ---------------------------------------------------------------------------
// What the checkboxes show after a toggle
// ---------------------------------------------------------------------------

/// An entry that a comma-separated list written with `, ` reads back
/// unchanged: non-empty, trimmed, without a comma.
pub open spec fn plain_item(w: Seq<char>) -> bool {
    &&& w.len() > 0
    &&& is_trimmed(w)
    &&& no_separator(w, Separator::Char(','))
}

pub open spec fn all_plain(ps: Seq<Seq<char>>) -> bool {
    forall|i: int| 0 <= i < ps.len() ==> plain_item(#[trigger] ps[i])
}

/// The entries of a comma-separated list are plain.
pub proof fn lemma_word_list_plain(s: Seq<char>)
    ensures
        all_plain(word_list(s)),
{
    let sp = split_on(s, Separator::Char(','));
    let te = trim_each(sp);
    lemma_split_pieces_plain(s, Separator::Char(','));
    lemma_nonempty_pieces_from(te);
    let w = word_list(s);
    assert forall|i: int| 0 <= i < w.len() implies plain_item(#[trigger] w[i]) by {
        let j = choose|j: int| 0 <= j < te.len() && te[j] == w[i];
        assert(te[j] == trim(sp[j]));
        lemma_trim_part(sp[j]);
        assert(no_separator(sp[j], Separator::Char(',')));
        assert forall|k: int| 0 <= k < w[i].len() implies !is_separator(
            Separator::Char(','),
            #[trigger] w[i][k],
        ) by {
            let m = choose|m: int| 0 <= m < sp[j].len() && sp[j][m] == trim(sp[j])[k];
            assert(!is_separator(Separator::Char(','), sp[j][m]));
        }
    }
}

/// A list of plain entries written with `, ` reads back as itself.
pub proof fn lemma_word_list_join(ps: Seq<Seq<char>>)
    requires
        all_plain(ps),
    ensures
        word_list(join(ps, ", "@)) == ps,
{
    let sep = Separator::Char(',');
    if ps.len() == 0 {
        assert(split_on(Seq::<char>::empty(), sep) =~= seq![Seq::<char>::empty()]);
        assert(trim(Seq::<char>::empty()) =~= Seq::<char>::empty());
        let te = trim_each(split_on(join(ps, ", "@), sep));
        assert(te =~= seq![Seq::<char>::empty()]);
        assert(te.drop_last() =~= Seq::<Seq<char>>::empty());
        assert(te.last().len() == 0);
        assert(nonempty_pieces(te.drop_last()) =~= Seq::<Seq<char>>::empty());
        assert(nonempty_pieces(te) =~= ps);
    } else {
        lemma_split_join_comma(ps);
        let sp = split_on(join(ps, ", "@), sep);
        let te = trim_each(sp);
        assert forall|i: int| 0 <= i < ps.len() implies #[trigger] te[i] == ps[i] by {
            assert(plain_item(ps[i]));
            if i == 0 {
                lemma_trim_trimmed(ps[0]);
            } else {
                lemma_trim_after_space(ps[i]);
            }
        }
        assert(te =~= ps);
        lemma_nonempty_pieces_all(ps);
    }
}

/// What removing an entry keeps.
pub proof fn lemma_without(ps: Seq<Seq<char>>, x: Seq<char>)
    ensures
        !without(ps, x).contains(x),
        forall|t: Seq<char>| t != x ==> (#[trigger] without(ps, x).contains(t) == ps.contains(t)),
        forall|i: int| 0 <= i < without(ps, x).len() ==> ps.contains(#[trigger] without(ps, x)[i]),
    decreases ps.len(),
{
    if ps.len() > 0 {
        let p = ps.drop_last();
        let last = ps.last();
        lemma_without(p, x);
        let r = without(p, x);
        let w = without(ps, x);
        assert(ps =~= p.push(last));
        assert(ps[ps.len() - 1] == last);
        if last == x {
            assert(w == r);
        } else {
            assert(w == r.push(last));
            assert(w[w.len() - 1] == last);
        }
        assert forall|t: Seq<char>| t != x implies (#[trigger] w.contains(t) == ps.contains(t)) by {
            if ps.contains(t) {
                let k = choose|k: int| 0 <= k < ps.len() && ps[k] == t;
                if k < p.len() {
                    assert(p[k] == t);
                    assert(p.contains(t));
                    assert(r.contains(t));
                    let j = choose|j: int| 0 <= j < r.len() && r[j] == t;
                    assert(w[j] == t);
                } else {
                    assert(last == t);
                }
            }
            if w.contains(t) {
                let k = choose|k: int| 0 <= k < w.len() && w[k] == t;
                if k < r.len() {
                    assert(r[k] == t);
                    assert(r.contains(t));
                    assert(p.contains(t));
                    let m = choose|m: int| 0 <= m < p.len() && p[m] == t;
                    assert(ps[m] == t);
                } else {
                    assert(last == t);
                }
            }
        }
        assert forall|i: int| 0 <= i < w.len() implies ps.contains(#[trigger] w[i]) by {
            if i < r.len() {
                assert(w[i] == r[i]);
                assert(p.contains(r[i]));
                let m = choose|m: int| 0 <= m < p.len() && p[m] == r[i];
                assert(ps[m] == r[i]);
            } else {
                assert(w[i] == last);
            }
        }
        if w.contains(x) {
            let k = choose|k: int| 0 <= k < w.len() && w[k] == x;
            if k < r.len() {
                assert(r[k] == x);
                assert(r.contains(x));
            }
        }
    }
}

/// Toggling a plain entry keeps the list plain.
proof fn lemma_toggled_plain(ps: Seq<Seq<char>>, x: Seq<char>, on: bool)
    requires
        all_plain(ps),
        plain_item(x),
    ensures
        all_plain(toggled(ps, x, on)),
{
    if !on {
        lemma_without(ps, x);
        let w = without(ps, x);
        assert forall|i: int| 0 <= i < w.len() implies plain_item(#[trigger] w[i]) by {
            let k = choose|k: int| 0 <= k < ps.len() && ps[k] == w[i];
            assert(plain_item(ps[k]));
        }
    } else if !ps.contains(x) {
        let w = ps.push(x);
        assert forall|i: int| 0 <= i < w.len() implies plain_item(#[trigger] w[i]) by {
            if i < ps.len() {
                assert(w[i] == ps[i]);
            }
        }
    }
}

/// After a y-cruncher test is switched on (off), the test list holds
/// (lacks) it, and every other test is as it was: the checkbox of each
/// test shows what was chosen.
pub proof fn lemma_toggled_test_shown(tests: Seq<char>, name: Seq<char>, enabled: bool)
    requires
        plain_item(name),
    ensures
        word_list(toggled_tests(tests, name, enabled)).contains(name) == enabled,
        forall|t: Seq<char>|
            t != name ==> #[trigger] word_list(toggled_tests(tests, name, enabled)).contains(t)
                == word_list(tests).contains(t),
{
    let ps = word_list(tests);
    lemma_word_list_plain(tests);
    lemma_toggled_plain(ps, name, enabled);
    lemma_word_list_join(toggled(ps, name, enabled));
    lemma_without(ps, name);
    if enabled && !ps.contains(name) {
        let w = ps.push(name);
        assert(w[w.len() - 1] == name);
        assert forall|t: Seq<char>| t != name implies #[trigger] w.contains(t) == ps.contains(t) by {
            if w.contains(t) {
                let k = choose|k: int| 0 <= k < w.len() && w[k] == t;
                assert(k < ps.len());
                assert(ps[k] == t);
            }
            if ps.contains(t) {
                let k = choose|k: int| 0 <= k < ps.len() && ps[k] == t;
                assert(w[k] == t);
            }
        }
    }
}

/// The numbers read from pieces that each read as a number.
proof fn lemma_parsed_numbers(pieces: Seq<Seq<char>>, ns: Seq<u32>)
    requires
        pieces.len() == ns.len(),
        forall|i: int| 0 <= i < ns.len() ==> spec_parse_u32(trim(#[trigger] pieces[i])) == Some(ns[i]),
    ensures
        parsed_numbers(pieces) == ns,
    decreases ns.len(),
{
    if ns.len() > 0 {
        lemma_parsed_numbers(pieces.drop_last(), ns.drop_last());
        assert(pieces[pieces.len() - 1] == pieces.last());
        assert(ns.drop_last().push(ns.last()) =~= ns);
    }
}

/// The decimal numeral of a number is a plain entry that reads back as it.
proof fn lemma_decimal_item(n: u32)
    ensures
        plain_item(decimal(n as nat)),
        spec_parse_u32(decimal(n as nat)) == Some(n),
{
    lemma_decimal_parses(n as nat);
    lemma_parse_decimal(n as nat);
    let d = decimal(n as nat);
    assert(is_digit(d[0]));
    assert(is_digit(d.last()));
    assert forall|i: int| 0 <= i < d.len() implies !is_separator(Separator::Char(','), #[trigger] d[i]) by {
        assert(is_digit(d[i]));
    }
}

/// A core list written as `1, 2, 3` reads back as the same numbers.
pub proof fn lemma_core_list_text(ns: Seq<u32>)
    ensures
        core_list(cores_text(ns)) == ns,
{
    let sep = Separator::Char(',');
    let ds = Seq::new(ns.len(), |i: int| decimal(ns[i] as nat));
    assert forall|i: int| 0 <= i < ds.len() implies plain_item(#[trigger] ds[i]) by {
        lemma_decimal_item(ns[i]);
    }
    if ns.len() == 0 {
        assert(split_on(Seq::<char>::empty(), sep) =~= seq![Seq::<char>::empty()]);
        let sp = split_on(cores_text(ns), sep);
        assert(sp =~= seq![Seq::<char>::empty()]);
        assert(trim(Seq::<char>::empty()) =~= Seq::<char>::empty());
        assert(spec_parse_u32(Seq::<char>::empty()) is None);
        assert(sp.drop_last() =~= Seq::<Seq<char>>::empty());
        assert(sp.last() =~= Seq::<char>::empty());
        assert(trim(sp.last()) =~= Seq::<char>::empty());
        assert(parsed_numbers(sp.drop_last()) =~= Seq::<u32>::empty());
        assert(parsed_numbers(sp) =~= ns);
    } else {
        assert forall|i: int| 0 <= i < ds.len() implies no_separator(#[trigger] ds[i], sep) by {
            assert(plain_item(ds[i]));
        }
        lemma_split_join_comma(ds);
        let sp = split_on(cores_text(ns), sep);
        assert forall|i: int| 0 <= i < ns.len() implies spec_parse_u32(trim(#[trigger] sp[i]))
            == Some(ns[i]) by {
            lemma_decimal_item(ns[i]);
            if i == 0 {
                lemma_trim_trimmed(ds[0]);
            } else {
                lemma_trim_after_space(ds[i]);
            }
        }
        lemma_parsed_numbers(sp, ns);
    }
}

/// What removing a number keeps.
proof fn lemma_remove_number(s: Seq<u32>, x: u32)
    ensures
        !remove_number(s, x).contains(x),
        forall|k: u32| k != x ==> (#[trigger] remove_number(s, x).contains(k) == s.contains(k)),
    decreases s.len(),
{
    if s.len() > 0 {
        let p = s.drop_last();
        let last = s.last();
        lemma_remove_number(p, x);
        let r = remove_number(p, x);
        let w = remove_number(s, x);
        assert(s =~= p.push(last));
        assert(s[s.len() - 1] == last);
        if last == x {
            assert(w == r);
        } else {
            assert(w == r.push(last));
            assert(w[w.len() - 1] == last);
        }
        assert forall|k: u32| k != x implies (#[trigger] w.contains(k) == s.contains(k)) by {
            if s.contains(k) {
                let j = choose|j: int| 0 <= j < s.len() && s[j] == k;
                if j < p.len() {
                    assert(p[j] == k);
                    assert(p.contains(k));
                    assert(r.contains(k));
                    let m = choose|m: int| 0 <= m < r.len() && r[m] == k;
                    assert(w[m] == k);
                } else {
                    assert(last == k);
                }
            }
            if w.contains(k) {
                let j = choose|j: int| 0 <= j < w.len() && w[j] == k;
                if j < r.len() {
                    assert(r[j] == k);
                    assert(r.contains(k));
                    assert(p.contains(k));
                    let m = choose|m: int| 0 <= m < p.len() && p[m] == k;
                    assert(s[m] == k);
                } else {
                    assert(last == k);
                }
            }
        }
        if w.contains(x) {
            let j = choose|j: int| 0 <= j < w.len() && w[j] == x;
            if j < r.len() {
                assert(r[j] == x);
                assert(r.contains(x));
            }
        }
    }
}

/// After core `id` is checked (unchecked) in the list of cores to ignore,
/// the list holds (lacks) it and every other core is as it was: the
/// checkbox of each core shows what was chosen.
pub proof fn lemma_toggled_core_shown(text: Seq<char>, id: u32, checked: bool)
    ensures
        core_list(toggled_core_text(text, id, checked)).contains(id) == checked,
        forall|k: u32|
            k != id ==> #[trigger] core_list(toggled_core_text(text, id, checked)).contains(k)
                == core_list(text).contains(k),
{
    reveal(toggled_core_text);
    broadcast use vstd::seq_lib::group_to_multiset_ensures;
    let s = core_list(text);
    let t = toggled_cores(s, id, checked);
    lemma_core_list_text(t);
    if checked {
        if !s.contains(id) {
            let w = s.push(id);
            lemma_u32_leq_total();
            w.lemma_sort_by_ensures(u32_leq());
            assert(w.to_multiset() == t.to_multiset());
            assert(w[w.len() - 1] == id);
            assert(w.contains(id));
            assert(w.to_multiset().count(id) > 0);
            assert(t.contains(id));
            assert forall|k: u32| k != id implies #[trigger] t.contains(k) == s.contains(k) by {
                if s.contains(k) {
                    let j = choose|j: int| 0 <= j < s.len() && s[j] == k;
                    assert(w[j] == k);
                    assert(w.to_multiset().count(k) > 0);
                }
                if t.contains(k) {
                    assert(t.to_multiset().count(k) > 0);
                    assert(w.contains(k));
                    let j = choose|j: int| 0 <= j < w.len() && w[j] == k;
                    assert(j < s.len());
                    assert(s[j] == k);
                }
            }
        }
    } else {
        lemma_remove_number(s, id);
    }
}

/// The numbers of `s` rise strictly from first to last.
pub open spec fn strictly_ascending(s: Seq<u32>) -> bool {
    forall|i: int, j: int| 0 <= i < j < s.len() ==> s[i] < s[j]
}

/// Removing a number from a strictly rising list leaves it strictly rising.
proof fn lemma_remove_number_ascending(s: Seq<u32>, x: u32)
    requires
        strictly_ascending(s),
    ensures
        strictly_ascending(remove_number(s, x)),
    decreases s.len(),
{
    if s.len() > 0 {
        let p = s.drop_last();
        let last = s.last();
        assert(strictly_ascending(p));
        lemma_remove_number_ascending(p, x);
        lemma_remove_number(p, x);
        let r = remove_number(p, x);
        if last != x {
            let w = r.push(last);
            assert forall|i: int, j: int| 0 <= i < j < w.len() implies w[i] < w[j] by {
                if j == w.len() - 1 {
                    assert(w[i] == r[i]);
                    assert(r.contains(r[i]));
                    if r[i] == x {
                        assert(false);
                    }
                    assert(p.contains(r[i]));
                    let m = choose|m: int| 0 <= m < p.len() && p[m] == r[i];
                    assert(s[m] == p[m]);
                    assert(s[s.len() - 1] == last);
                } else {
                    assert(w[i] == r[i] && w[j] == r[j]);
                }
            }
        }
    }
}

/// Checking or unchecking core `id` in a list of cores to ignore: the list
/// is written back as its numbers joined by `, `, it holds `id` exactly when
/// the core was checked and every other core as before, and a list that
/// rose strictly still does.
pub proof fn lemma_toggled_core_list(text: Seq<char>, id: u32, checked: bool)
    ensures
        toggled_core_text(text, id, checked) == cores_text(
            core_list(toggled_core_text(text, id, checked)),
        ),
        core_list(toggled_core_text(text, id, checked)).to_set() == (if checked {
            core_list(text).to_set().insert(id)
        } else {
            core_list(text).to_set().remove(id)
        }),
        strictly_ascending(core_list(text)) ==> strictly_ascending(
            core_list(toggled_core_text(text, id, checked)),
        ),
{
    lemma_toggled_core_shown(text, id, checked);
    reveal(toggled_core_text);
    let l = core_list(text);
    let t = toggled_cores(l, id, checked);
    lemma_core_list_text(t);
    assert(core_list(toggled_core_text(text, id, checked)) == t);
    let want = if checked {
        l.to_set().insert(id)
    } else {
        l.to_set().remove(id)
    };
    assert forall|k: u32| #[trigger] t.to_set().contains(k) == want.contains(k) by {
        if k != id {
            assert(core_list(toggled_core_text(text, id, checked)).contains(k) == l.contains(k));
        }
    }
    assert(t.to_set() =~= want);
    if strictly_ascending(l) {
        if checked {
            if !l.contains(id) {
                broadcast use vstd::seq_lib::group_to_multiset_ensures;
                let w = l.push(id);
                lemma_u32_leq_total();
                w.lemma_sort_by_ensures(u32_leq());
                assert(w.no_duplicates()) by {
                    assert forall|i: int, j: int|
                        0 <= i < w.len() && 0 <= j < w.len() && i != j implies w[i] != w[j] by {
                        if i == w.len() - 1 {
                            assert(l[j] == w[j]);
                        } else if j == w.len() - 1 {
                            assert(l[i] == w[i]);
                        } else {
                            assert(l[i] == w[i] && l[j] == w[j]);
                        }
                    }
                }
                w.lemma_multiset_has_no_duplicates();
                assert(w.to_multiset() == t.to_multiset());
                t.lemma_multiset_has_no_duplicates_conv();
                assert forall|i: int, j: int| 0 <= i < j < t.len() implies t[i] < t[j] by {
                    assert(u32_leq()(t[i], t[j]));
                    assert(t[i] != t[j]);
                }
            }
        } else {
            lemma_remove_number_ascending(l, id);
        }
    }
}

/// The entries that `keep_known` keeps are known ones of `ps`.
pub proof fn lemma_keep_known(ps: Seq<Seq<char>>, known: Seq<Seq<char>>)
    ensures
        forall|i: int|
            0 <= i < keep_known(ps, known).len() ==> known.contains(#[trigger] keep_known(ps, known)[i])
                && ps.contains(keep_known(ps, known)[i]),
    decreases ps.len(),
{
    if ps.len() > 0 {
        let p = ps.drop_last();
        lemma_keep_known(p, known);
        let r = keep_known(p, known);
        let k = keep_known(ps, known);
        assert forall|i: int| 0 <= i < k.len() implies known.contains(#[trigger] k[i]) && ps.contains(k[i]) by {
            if i < r.len() {
                assert(k[i] == r[i]);
                assert(p.contains(r[i]));
                let m = choose|m: int| 0 <= m < p.len() && p[m] == r[i];
                assert(ps[m] == r[i]);
            } else {
                assert(k[i] == ps.last());
                assert(ps[ps.len() - 1] == ps.last());
            }
        }
    }
}

/// After the clean-up, every test in the list is a known one, provided the
/// fallback list holds known tests only.
pub proof fn lemma_normalized_tests_known(tests: Seq<char>, known: Seq<Seq<char>>, fallback: Seq<char>)
    requires
        forall|i: int| 0 <= i < word_list(fallback).len() ==> known.contains(#[trigger] word_list(fallback)[i]),
    ensures
        forall|i: int|
            0 <= i < word_list(normalized_tests(tests, known, fallback)).len() ==> known.contains(
                #[trigger] word_list(normalized_tests(tests, known, fallback))[i],
            ),
{
    let ps = word_list(tests);
    let valid = keep_known(ps, known);
    if valid.len() > 0 {
        lemma_keep_known(ps, known);
        lemma_word_list_plain(tests);
        assert forall|i: int| 0 <= i < valid.len() implies plain_item(#[trigger] valid[i]) by {
            let m = choose|m: int| 0 <= m < ps.len() && ps[m] == valid[i];
            assert(plain_item(ps[m]));
        }
        lemma_word_list_join(valid);
    }
}

/// The entries kept are exactly those of `ps` that `known` names.
proof fn lemma_keep_known_members(ps: Seq<Seq<char>>, known: Seq<Seq<char>>)
    ensures
        forall|x: Seq<char>|
            #[trigger] keep_known(ps, known).contains(x) <==> ps.contains(x) && known.contains(x),
    decreases ps.len(),
{
    if ps.len() > 0 {
        let p = ps.drop_last();
        lemma_keep_known_members(p, known);
        let r = keep_known(p, known);
        let k = keep_known(ps, known);
        let last = ps.last();
        assert(ps[ps.len() - 1] == last);
        assert forall|x: Seq<char>| #[trigger] k.contains(x) <==> ps.contains(x) && known.contains(x) by {
            if ps.contains(x) {
                let j = choose|j: int| 0 <= j < ps.len() && ps[j] == x;
                if j < p.len() {
                    assert(p[j] == x);
                }
            }
            if p.contains(x) {
                let j = choose|j: int| 0 <= j < p.len() && p[j] == x;
                assert(ps[j] == x);
            }
            if k.contains(x) {
                let j = choose|j: int| 0 <= j < k.len() && k[j] == x;
                if j < r.len() {
                    assert(r[j] == x);
                }
            }
            if r.contains(x) {
                let j = choose|j: int| 0 <= j < r.len() && r[j] == x;
                if known.contains(last) {
                    assert(k[j] == x);
                }
            }
            if known.contains(last) {
                assert(k[r.len() as int] == last);
            }
        }
    }
}

/// The clean-up of a test list keeps exactly the tests of the list that are
/// known; a list without any known test becomes the fallback list.
pub proof fn lemma_normalized_tests_kept(tests: Seq<char>, known: Seq<Seq<char>>, fallback: Seq<char>)
    ensures
        (exists|x: Seq<char>| word_list(tests).contains(x) && #[trigger] known.contains(x)) ==> forall|
            x: Seq<char>,
        | #[trigger] word_list(normalized_tests(tests, known, fallback)).contains(x) <==> word_list(
            tests,
        ).contains(x) && known.contains(x),
        !(exists|x: Seq<char>| word_list(tests).contains(x) && #[trigger] known.contains(x))
            ==> normalized_tests(tests, known, fallback) == fallback,
{
    let ps = word_list(tests);
    let valid = keep_known(ps, known);
    lemma_keep_known_members(ps, known);
    if exists|x: Seq<char>| ps.contains(x) && #[trigger] known.contains(x) {
        let x = choose|x: Seq<char>| ps.contains(x) && #[trigger] known.contains(x);
        assert(valid.contains(x));
        assert(valid.len() > 0);
        lemma_keep_known(ps, known);
        lemma_word_list_plain(tests);
        assert forall|i: int| 0 <= i < valid.len() implies plain_item(#[trigger] valid[i]) by {
            let m = choose|m: int| 0 <= m < ps.len() && ps[m] == valid[i];
            assert(plain_item(ps[m]));
        }
        lemma_word_list_join(valid);
    } else {
        if valid.len() > 0 {
            assert(valid.contains(valid[0]));
        }
    }
}

/// A part of rank `k` of `ps` is among the parts of rank `k`.
proof fn lemma_with_rank_contains(ps: Seq<Seq<char>>, x: Seq<char>)
    requires
        ps.contains(x),
    ensures
        with_rank(ps, aida_rank(x)).contains(x),
    decreases ps.len(),
{
    let p = ps.drop_last();
    let r = with_rank(p, aida_rank(x));
    let w = with_rank(ps, aida_rank(x));
    let k = choose|k: int| 0 <= k < ps.len() && ps[k] == x;
    if k == ps.len() - 1 {
        assert(w.last() == x);
        assert(w[w.len() - 1] == x);
    } else {
        assert(p[k] == x);
        lemma_with_rank_contains(p, x);
        let j = choose|j: int| 0 <= j < r.len() && r[j] == x;
        assert(w[j] == x);
    }
}

/// The parts of rank `k` are parts of `ps`.
proof fn lemma_with_rank_from(ps: Seq<Seq<char>>, k: int)
    ensures
        forall|j: int| 0 <= j < with_rank(ps, k).len() ==> ps.contains(#[trigger] with_rank(ps, k)[j]),
    decreases ps.len(),
{
    if ps.len() > 0 {
        let p = ps.drop_last();
        lemma_with_rank_from(p, k);
        let r = with_rank(p, k);
        let w = with_rank(ps, k);
        assert forall|j: int| 0 <= j < w.len() implies ps.contains(#[trigger] w[j]) by {
            if j < r.len() {
                assert(w[j] == r[j]);
                let m = choose|m: int| 0 <= m < p.len() && p[m] == r[j];
                assert(ps[m] == r[j]);
            } else {
                assert(w[j] == ps.last());
                assert(ps[ps.len() - 1] == ps.last());
            }
        }
    }
}

/// Sorting by rank keeps the parts, and only them.
proof fn lemma_rank_sorted(ps: Seq<Seq<char>>)
    ensures
        forall|x: Seq<char>| ps.contains(x) ==> #[trigger] rank_sorted(ps).contains(x),
        forall|j: int| 0 <= j < rank_sorted(ps).len() ==> ps.contains(#[trigger] rank_sorted(ps)[j]),
{
    let a = with_rank(ps, 0);
    let b = with_rank(ps, 1);
    let c = with_rank(ps, 2);
    let d = with_rank(ps, 3);
    let e = with_rank(ps, 99);
    let r = rank_sorted(ps);
    assert(r == a + b + c + d + e);
    assert forall|x: Seq<char>| ps.contains(x) implies #[trigger] r.contains(x) by {
        let k = aida_rank(x);
        lemma_with_rank_contains(ps, x);
        let w = with_rank(ps, k);
        let j = choose|j: int| 0 <= j < w.len() && w[j] == x;
        if k == 0 {
            assert(r[j] == x);
        } else if k == 1 {
            assert(r[a.len() + j] == x);
        } else if k == 2 {
            assert(r[a.len() + b.len() + j] == x);
        } else if k == 3 {
            assert(r[a.len() + b.len() + c.len() + j] == x);
        } else {
            assert(r[a.len() + b.len() + c.len() + d.len() + j] == x);
        }
    }
    lemma_with_rank_from(ps, 0);
    lemma_with_rank_from(ps, 1);
    lemma_with_rank_from(ps, 2);
    lemma_with_rank_from(ps, 3);
    lemma_with_rank_from(ps, 99);
    assert forall|j: int| 0 <= j < r.len() implies ps.contains(#[trigger] r[j]) by {
        if j < a.len() {
            assert(r[j] == a[j]);
        } else if j < a.len() + b.len() {
            assert(r[j] == b[j - a.len()]);
        } else if j < a.len() + b.len() + c.len() {
            assert(r[j] == c[j - a.len() - b.len()]);
        } else if j < a.len() + b.len() + c.len() + d.len() {
            assert(r[j] == d[j - a.len() - b.len() - c.len()]);
        } else {
            assert(r[j] == e[j - a.len() - b.len() - c.len() - d.len()]);
        }
    }
}

/// The parts of an ASCII mode are ASCII.
proof fn lemma_aida_parts_ascii(mode: Seq<char>)
    requires
        is_ascii_seq(mode),
    ensures
        forall|i: int| 0 <= i < aida_parts(mode).len() ==> is_ascii_seq(#[trigger] aida_parts(mode)[i]),
{
    let sp = split_on(mode, Separator::Char(','));
    let ue = upper_each(trim_each(sp));
    lemma_split_pieces_ascii(mode, Separator::Char(','));
    lemma_nonempty_pieces_from(ue);
    let ps = aida_parts(mode);
    assert forall|i: int| 0 <= i < ps.len() implies is_ascii_seq(#[trigger] ps[i]) by {
        let j = choose|j: int| 0 <= j < ue.len() && ue[j] == ps[i];
        let t = trim(sp[j]);
        assert(is_ascii_seq(sp[j]));
        lemma_trim_part(sp[j]);
        assert forall|k: int| 0 <= k < t.len() implies (t[k] as u32) < 128 by {
            let m = choose|m: int| 0 <= m < sp[j].len() && sp[j][m] == t[k];
            assert((sp[j][m] as u32) < 128);
        }
        assert(ue[j] == upper_case(t));
        lemma_ascii_upper_ascii(t);
    }
}

/// Checking an Aida64 test part checks its checkbox: for a mode written in
/// ASCII and a part name in capitals, the upper-cased mode holds the part.
pub proof fn lemma_aida_part_checked(mode: Seq<char>, part: Seq<char>)
    requires
        is_ascii_seq(mode),
        part.len() > 0,
        plain_word(part, true),
    ensures
        contains_seq(upper_case(toggled_aida_mode(mode, part, true)), part),
{
    lemma_plain_word(part, true);
    let ps = aida_parts(mode);
    let t = toggled(ps, part, true);
    if !ps.contains(part) {
        assert(t[t.len() - 1] == part);
    }
    assert(t.contains(part));
    lemma_rank_sorted(t);
    let parts = rank_sorted(t);
    assert(parts.contains(part));
    let j = choose|j: int| 0 <= j < parts.len() && parts[j] == part;
    let result = join(parts, ","@);
    assert(toggled_aida_mode(mode, part, true) == result);
    lemma_join_contains(parts, ","@, j);
    let k = choose|k: int| occurs_at(result, part, k);
    lemma_aida_parts_ascii(mode);
    assert forall|i: int| 0 <= i < parts.len() implies is_ascii_seq(#[trigger] parts[i]) by {
        assert(t.contains(parts[i]));
        let m = choose|m: int| 0 <= m < t.len() && t[m] == parts[i];
        if m < ps.len() {
            assert(t[m] == ps[m]);
        }
    }
    reveal_strlit(",");
    lemma_join_ascii(parts, ","@);
    lemma_ascii_upper_occurs(result, part, k);
}
} // verus!
