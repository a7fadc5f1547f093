//! What the configuration editor offers and shows: the entries of its
//! drop-down lists, the entry that is selected, and how a chosen entry is
//! turned back into a setting.
use vstd::prelude::*;

use crate::app_state::option_view;
use crate::edits::{digits_of, runtime_text};
use crate::text::{
    chars_of, contains_lit, contains_seq, ends_with, ends_with_lit, eq_lit, is_digit, push_lit,
    string_of, to_uppercase, trim, trim_ws, upper_case,
};
use vstd::relations::{sorted_by, total_ordering};

verus! {

/// The views of a sequence of strings.
pub open spec fn texts(v: Seq<String>) -> Seq<Seq<char>> {
    Seq::new(v.len(), |i: int| v[i]@)
}

/// The given texts as owned strings, in order.
pub fn strvec(items: &[&str]) -> (r: Vec<String>)
    ensures
        r@.len() == items@.len(),
        forall|i: int| 0 <= i < items@.len() ==> #[trigger] r@[i]@ == items@[i]@,
{
    let mut r: Vec<String> = Vec::new();
    let mut i: usize = 0;
    while i < items.len()
        invariant
            i <= items@.len(),
            r@.len() == i,
            forall|j: int| 0 <= j < i ==> #[trigger] r@[j]@ == items@[j]@,
        decreases items.len() - i,
    {
        r.push(items[i].to_owned());
        i = i + 1;
    }
    r
}

/// The entry selected for a setting: the setting, trimmed, whether or not
/// the list offers it; the first entry of the list when the setting is
/// blank (none when the list is empty too).
pub open spec fn picked(value: Seq<char>, options: Seq<Seq<char>>) -> Option<Seq<char>> {
    if trim(value).len() == 0 {
        if options.len() == 0 {
            None
        } else {
            Some(options[0])
        }
    } else {
        Some(trim(value))
    }
}

pub fn pick_or_first(value: &str, options: &[String]) -> (r: Option<String>)
    ensures
        option_view(r) == picked(value@, texts(options@)),
{
    let chars = chars_of(value);
    let trimmed = trim_ws(&chars);
    if trimmed.len() == 0 {
        if options.len() == 0 {
            None
        } else {
            Some(options[0].clone())
        }
    } else {
        Some(string_of(&trimmed))
    }
}

/// The entries of a drop-down list: the offered ones, with the selected
/// value put first when the list does not offer it, so that a value read
/// from the file that no entry names is still shown.
pub open spec fn dropdown_entries(options: Seq<Seq<char>>, selected: Option<Seq<char>>) -> Seq<
    Seq<char>,
> {
    match selected {
        Some(s) => if options.contains(s) {
            options
        } else {
            seq![s] + options
        },
        None => options,
    }
}

pub fn dropdown_options(options: Vec<String>, selected: &Option<String>) -> (r: Vec<String>)
    ensures
        texts(r@) == dropdown_entries(texts(options@), option_view(*selected)),
        selected matches Some(s) ==> texts(r@).contains(s@),
{
    let ghost offered = texts(options@);
    match selected {
        Some(sel) => {
            let target = chars_of(sel.as_str());
            let mut found = false;
            let mut i: usize = 0;
            while i < options.len()
                invariant
                    i <= options@.len(),
                    offered == texts(options@),
                    target@ == sel@,
                    found == exists|j: int| 0 <= j < i && #[trigger] offered[j] == sel@,
                decreases options.len() - i,
            {
                let entry = chars_of(options[i].as_str());
                assert(entry@ == offered[i as int]);
                if crate::text::chars_eq(&entry, &target) {
                    found = true;
                }
                proof {
                    if found {
                        if entry@ == target@ {
                            assert(offered[i as int] == sel@);
                        }
                    } else {
                        assert forall|j: int| 0 <= j < i + 1 implies #[trigger] offered[j] != sel@ by {
                            if j == i {
                                assert(offered[j] == entry@);
                            }
                        }
                    }
                }
                i = i + 1;
            }
            assert(found == offered.contains(sel@));
            if found {
                options
            } else {
                let mut r: Vec<String> = Vec::new();
                r.push(sel.clone());
                let mut k: usize = 0;
                while k < options.len()
                    invariant
                        k <= options@.len(),
                        offered == texts(options@),
                        texts(r@) == seq![sel@] + offered.take(k as int),
                    decreases options.len() - k,
                {
                    let ghost before = r@;
                    r.push(options[k].clone());
                    assert(texts(r@) =~= texts(before).push(options@[k as int]@));
                    assert(offered.take(k + 1) =~= offered.take(k as int).push(offered[k as int]));
                    k = k + 1;
                }
                assert(offered.take(options@.len() as int) =~= offered);
                assert(texts(r@)[0] == sel@);
                r
            }
        },
        None => options,
    }
}

// ---------------------------------------------------------------------------
// Log level
// ---------------------------------------------------------------------------

/// The entry of the log level list that shows the level `level`; levels
/// other than 0, 1, 3 and 4 show as 2.
pub open spec fn level_label(level: Seq<char>) -> Seq<char> {
    if level == "0"@ {
        "0 - None"@
    } else if level == "1"@ {
        "1 - Verbose"@
    } else if level == "3"@ {
        "3 - Verbose + Console"@
    } else if level == "4"@ {
        "4 - Debug + Console"@
    } else {
        "2 - Debug"@
    }
}

/// The entries of the log level list.
pub fn log_level_options() -> (r: Vec<String>)
    ensures
        texts(r@) == seq![
            "0 - None"@,
            "1 - Verbose"@,
            "2 - Debug"@,
            "3 - Verbose + Console"@,
            "4 - Debug + Console"@,
        ],
{
    let mut r: Vec<String> = Vec::new();
    r.push("0 - None".to_owned());
    r.push("1 - Verbose".to_owned());
    r.push("2 - Debug".to_owned());
    r.push("3 - Verbose + Console".to_owned());
    r.push("4 - Debug + Console".to_owned());
    assert(texts(r@) =~= seq![
        "0 - None"@,
        "1 - Verbose"@,
        "2 - Debug"@,
        "3 - Verbose + Console"@,
        "4 - Debug + Console"@,
    ]);
    r
}

pub fn log_level_label(level: &str) -> (r: &'static str)
    ensures
        r@ == level_label(level@),
{
    let l = chars_of(level);
    if crate::text::eq_lit(&l, "0") {
        "0 - None"
    } else if crate::text::eq_lit(&l, "1") {
        "1 - Verbose"
    } else if crate::text::eq_lit(&l, "3") {
        "3 - Verbose + Console"
    } else if crate::text::eq_lit(&l, "4") {
        "4 - Debug + Console"
    } else {
        "2 - Debug"
    }
}

/// The level that an entry of the log level list sets: its first character,
/// `2` for an empty entry.
pub open spec fn label_level(label: Seq<char>) -> Seq<char> {
    if label.len() == 0 {
        seq!['2']
    } else {
        seq![label[0]]
    }
}

pub fn level_of_label(label: &str) -> (r: String)
    ensures
        r@ == label_level(label@),
{
    let l = chars_of(label);
    let mut out: Vec<char> = Vec::new();
    if l.len() == 0 {
        out.push('2');
    } else {
        out.push(l[0]);
    }
    assert(out@ =~= label_level(label@));
    string_of(&out)
}

/// Choosing the entry that shows a level sets that level, for each of the
/// five levels.
pub proof fn lemma_log_level_round_trip(level: Seq<char>)
    requires
        level == "0"@ || level == "1"@ || level == "2"@ || level == "3"@ || level == "4"@,
    ensures
        label_level(level_label(level)) == level,
{
    reveal_strlit("0");
    reveal_strlit("1");
    reveal_strlit("2");
    reveal_strlit("3");
    reveal_strlit("4");
    reveal_strlit("0 - None");
    reveal_strlit("1 - Verbose");
    reveal_strlit("2 - Debug");
    reveal_strlit("3 - Verbose + Console");
    reveal_strlit("4 - Debug + Console");
    assert(label_level(level_label(level)) =~= level);
}

// ---------------------------------------------------------------------------
// Other configuration file
// ---------------------------------------------------------------------------

/// The entries of the list of other configuration files: `(disabled)`, then
/// each preset as `configs\NAME`.
pub open spec fn config_file_entries(presets: Seq<Seq<char>>) -> Seq<Seq<char>> {
    seq!["(disabled)"@] + Seq::new(presets.len(), |i: int| "configs\\"@ + presets[i])
}

pub fn config_file_options(presets: &Vec<String>) -> (r: Vec<String>)
    ensures
        texts(r@) == config_file_entries(texts(presets@)),
{
    let ghost ps = texts(presets@);
    let mut r: Vec<String> = Vec::new();
    r.push("(disabled)".to_owned());
    let mut i: usize = 0;
    while i < presets.len()
        invariant
            i <= presets@.len(),
            ps == texts(presets@),
            texts(r@) == seq!["(disabled)"@] + Seq::new(i as nat, |j: int| "configs\\"@ + ps[j]),
        decreases presets.len() - i,
    {
        let mut entry = chars_of("configs\\");
        push_lit(&mut entry, presets[i].as_str());
        let ghost before = r@;
        let ghost f = |j: int| "configs\\"@ + ps[j];
        assert(entry@ == f(i as int));
        r.push(string_of(&entry));
        assert(texts(r@) =~= texts(before).push(f(i as int)));
        assert(Seq::new((i + 1) as nat, f) =~= Seq::new(i as nat, f).push(f(i as int)));
        assert(texts(r@) =~= seq!["(disabled)"@] + Seq::new((i + 1) as nat, f));
        i = i + 1;
    }
    assert(Seq::new(presets@.len(), |j: int| "configs\\"@ + ps[j]) =~= Seq::new(
        ps.len(),
        |j: int| "configs\\"@ + ps[j],
    ));
    r
}

/// The entry that shows the setting: `(disabled)` for none.
pub open spec fn config_file_entry(use_config_file: Seq<char>) -> Seq<char> {
    if use_config_file.len() == 0 {
        "(disabled)"@
    } else {
        use_config_file
    }
}

pub fn config_file_choice(use_config_file: &str) -> (r: String)
    ensures
        r@ == config_file_entry(use_config_file@),
{
    if use_config_file.unicode_len() == 0 {
        "(disabled)".to_owned()
    } else {
        use_config_file.to_owned()
    }
}

/// The setting that an entry gives: none for `(disabled)`.
pub open spec fn config_file_setting(entry: Seq<char>) -> Seq<char> {
    if entry == "(disabled)"@ {
        Seq::empty()
    } else {
        entry
    }
}

pub fn use_config_file_from_choice(entry: String) -> (r: String)
    ensures
        r@ == config_file_setting(entry@),
{
    let e = chars_of(entry.as_str());
    if crate::text::eq_lit(&e, "(disabled)") {
        String::new()
    } else {
        entry
    }
}

/// Choosing the entry that shows a setting gives the setting back; the one
/// setting for which this fails is a file named `(disabled)` itself.
pub proof fn lemma_config_file_round_trip(use_config_file: Seq<char>)
    requires
        use_config_file != "(disabled)"@,
    ensures
        config_file_setting(config_file_entry(use_config_file)) == use_config_file,
{
    reveal_strlit("(disabled)");
}

// ---------------------------------------------------------------------------
// Small settings
// ---------------------------------------------------------------------------

/// The entry of the thread count list that shows `n`: `2` for two, `1`
/// otherwise.
pub fn threads_choice(n: u8) -> (r: &'static str)
    ensures
        r@ == (if n == 2 {
            "2"@
        } else {
            "1"@
        }),
{
    if n == 2 {
        "2"
    } else {
        "1"
    }
}

/// `s` without the `m` characters at its end.
pub open spec fn without_trailing_m(s: Seq<char>) -> Seq<char>
    decreases s.len(),
{
    if s.len() > 0 && s.last() == 'm' {
        without_trailing_m(s.drop_last())
    } else {
        s
    }
}

/// The runtime per core as the editor shows it: the minutes without the
/// `m` unit.
pub fn runtime_minutes_shown(runtime: &str) -> (r: String)
    ensures
        r@ == without_trailing_m(runtime@),
{
    let c = chars_of(runtime);
    let mut n: usize = c.len();
    assert(c@.take(c@.len() as int) =~= c@);
    while n > 0 && c[n - 1] == 'm'
        invariant
            n <= c@.len(),
            without_trailing_m(c@.take(n as int)) == without_trailing_m(runtime@),
            c@ == runtime@,
        decreases n,
    {
        assert(c@.take(n as int).drop_last() =~= c@.take(n - 1));
        n = n - 1;
    }
    assert(c@ .take(c@.len() as int) =~= c@);
    let r = crate::text::copy_range(&c, 0, n);
    string_of(&r)
}

/// The digits of `s` are `s` itself when `s` has only digits.
proof fn lemma_digits_of_digits(s: Seq<char>)
    requires
        forall|i: int| 0 <= i < s.len() ==> is_digit(#[trigger] s[i]),
    ensures
        digits_of(s) == s,
    decreases s.len(),
{
    if s.len() > 0 {
        lemma_digits_of_digits(s.drop_last());
        assert(is_digit(s[s.len() - 1]));
        assert(s.drop_last().push(s.last()) =~= s);
    }
}

/// The digits of `s` are digits.
proof fn lemma_digits_of_are_digits(s: Seq<char>)
    ensures
        forall|i: int| 0 <= i < digits_of(s).len() ==> is_digit(#[trigger] digits_of(s)[i]),
    decreases s.len(),
{
    if s.len() > 0 {
        lemma_digits_of_are_digits(s.drop_last());
        let r = digits_of(s.drop_last());
        assert forall|i: int| 0 <= i < digits_of(s).len() implies is_digit(#[trigger] digits_of(s)[i]) by {
            if i < r.len() {
                assert(digits_of(s)[i] == r[i]);
            }
        }
    }
}

/// The runtime the editor shows, typed in again, gives the stored runtime
/// back: the runtime is always stored in minutes.
pub proof fn lemma_runtime_shown_round_trip(input: Seq<char>)
    ensures
        runtime_text(without_trailing_m(runtime_text(input))) == runtime_text(input),
{
    let d = digits_of(input);
    lemma_digits_of_are_digits(input);
    if d.len() > 0 {
        let r = d.push('m');
        assert(r.drop_last() =~= d);
        assert(is_digit(d.last()));
        assert(without_trailing_m(r) == without_trailing_m(d));
        assert(without_trailing_m(d) == d);
        lemma_digits_of_digits(d);
    } else {
        assert(runtime_text(input) =~= Seq::<char>::empty());
        assert(digits_of(Seq::<char>::empty()) =~= Seq::<char>::empty());
    }
}

/// The Aida64 mode includes the test part `part`, in any case.
pub fn aida_has_part(mode: &str, part: &str) -> (r: bool)
    ensures
        r == contains_seq(crate::text::spec_to_uppercase(mode@), part@),
        crate::text::is_ascii_seq(mode@) ==> r == contains_seq(upper_case(mode@), part@),
{
    let m = chars_of(mode);
    let upper = to_uppercase(&m);
    contains_lit(&upper, part)
}


// ---------------------------------------------------------------------------
// Preset configuration files
// ---------------------------------------------------------------------------

/// `a` comes no later than `b` when both are compared character by character
/// from index `i` on, by code point, a prefix first: the order of `str`.
pub open spec fn text_leq_from(a: Seq<char>, b: Seq<char>, i: int) -> bool
    decreases a.len() - i,
{
    if i >= a.len() {
        true
    } else if i >= b.len() {
        false
    } else if a[i] != b[i] {
        a[i] < b[i]
    } else {
        text_leq_from(a, b, i + 1)
    }
}

/// The order of texts that sorting a list of `String`s follows.
pub open spec fn text_order() -> spec_fn(Seq<char>, Seq<char>) -> bool {
    |a: Seq<char>, b: Seq<char>| text_leq_from(a, b, 0)
}

proof fn lemma_text_leq_reflexive(a: Seq<char>, i: int)
    requires
        0 <= i,
    ensures
        text_leq_from(a, a, i),
    decreases a.len() - i,
{
    if i < a.len() {
        lemma_text_leq_reflexive(a, i + 1);
    }
}

proof fn lemma_text_leq_antisymmetric(a: Seq<char>, b: Seq<char>, i: int)
    requires
        0 <= i <= a.len(),
        i <= b.len(),
        text_leq_from(a, b, i),
        text_leq_from(b, a, i),
    ensures
        a.len() == b.len(),
        forall|j: int| i <= j < a.len() ==> a[j] == b[j],
    decreases a.len() - i,
{
    if i < a.len() {
        lemma_text_leq_antisymmetric(a, b, i + 1);
        assert forall|j: int| i <= j < a.len() implies a[j] == b[j] by {
            if j > i {
            }
        }
    } else if i < b.len() {
    }
}

proof fn lemma_text_leq_transitive(a: Seq<char>, b: Seq<char>, c: Seq<char>, i: int)
    requires
        0 <= i,
        text_leq_from(a, b, i),
        text_leq_from(b, c, i),
    ensures
        text_leq_from(a, c, i),
    decreases a.len() - i,
{
    if i < a.len() && i < b.len() && i < c.len() && a[i] == b[i] && b[i] == c[i] {
        lemma_text_leq_transitive(a, b, c, i + 1);
    }
}

proof fn lemma_text_leq_total(a: Seq<char>, b: Seq<char>, i: int)
    requires
        0 <= i,
    ensures
        text_leq_from(a, b, i) || text_leq_from(b, a, i),
    decreases a.len() - i,
{
    if i < a.len() && i < b.len() && a[i] == b[i] {
        lemma_text_leq_total(a, b, i + 1);
    } else if i < a.len() && i < b.len() {
    }
}

/// The order of texts is a total order.
pub proof fn lemma_text_order_total()
    ensures
        total_ordering(text_order()),
{
    let o = text_order();
    assert forall|x: Seq<char>| #[trigger] o(x, x) by {
        lemma_text_leq_reflexive(x, 0);
    }
    assert forall|x: Seq<char>, y: Seq<char>| #[trigger] o(x, y) && #[trigger] o(y, x) implies x == y by {
        lemma_text_leq_antisymmetric(x, y, 0);
        assert(x =~= y);
    }
    assert forall|x: Seq<char>, y: Seq<char>, z: Seq<char>| #[trigger] o(x, y) && #[trigger] o(y, z) implies o(x, z) by {
        lemma_text_leq_transitive(x, y, z, 0);
    }
    assert forall|x: Seq<char>, y: Seq<char>| #[trigger] o(x, y) || #[trigger] o(y, x) by {
        lemma_text_leq_total(x, y, 0);
    }
}

/// The presets among `names` are exactly its names that end in `.ini`,
/// other than `default.config.ini`.
proof fn lemma_preset_names_members(names: Seq<Seq<char>>)
    ensures
        forall|x: Seq<char>|
            #[trigger] preset_names(names).contains(x) <==> names.contains(x) && ends_with(x, ".ini"@)
                && x != "default.config.ini"@,
    decreases names.len(),
{
    reveal_strlit(".ini");
    reveal_strlit(".config.ini");
    if names.len() > 0 {
        let p = names.drop_last();
        lemma_preset_names_members(p);
        let r = preset_names(p);
        let last = names.last();
        assert forall|x: Seq<char>|
            #[trigger] preset_names(names).contains(x) <==> names.contains(x) && ends_with(x, ".ini"@)
                && x != "default.config.ini"@ by {
            if ends_with(x, ".config.ini"@) {
                assert(x.subrange(x.len() - 4, x.len() as int) =~= ".config.ini"@.subrange(7, 11));
                assert(".config.ini"@.subrange(7, 11) =~= ".ini"@);
            }
            if names.contains(x) {
                let j = choose|j: int| 0 <= j < names.len() && names[j] == x;
                if j < p.len() {
                    assert(p[j] == x);
                }
            }
            if p.contains(x) {
                let j = choose|j: int| 0 <= j < p.len() && p[j] == x;
                assert(names[j] == x);
            }
            assert(names[names.len() - 1] == last);
            if preset_names(names).contains(x) {
                let q = preset_names(names);
                let j = choose|j: int| 0 <= j < q.len() && q[j] == x;
                if j < r.len() {
                    assert(r[j] == x);
                }
            }
            if r.contains(x) {
                let j = choose|j: int| 0 <= j < r.len() && r[j] == x;
                if is_preset_name(last) {
                    assert(preset_names(names)[j] == x);
                }
            }
            if is_preset_name(last) {
                assert(preset_names(names)[r.len() as int] == last);
            }
        }
    }
}

/// The preset configurations offered are the given names that end in
/// `.ini`, other than `default.config.ini`, each as often as given, sorted.
pub proof fn lemma_preset_selection(names: Seq<Seq<char>>)
    ensures
        sorted_by(preset_names(names).sort_by(text_order()), text_order()),
        forall|x: Seq<char>|
            #[trigger] preset_names(names).sort_by(text_order()).contains(x) <==> names.contains(x)
                && ends_with(x, ".ini"@) && x != "default.config.ini"@,
        preset_names(names).sort_by(text_order()).to_multiset() == preset_names(names).to_multiset(),
{
    broadcast use vstd::seq_lib::group_to_multiset_ensures;
    lemma_text_order_total();
    let q = preset_names(names);
    q.lemma_sort_by_ensures(text_order());
    lemma_preset_names_members(names);
    let t = q.sort_by(text_order());
    assert forall|x: Seq<char>| #[trigger] t.contains(x) <==> q.contains(x) by {
        assert(t.to_multiset().count(x) == q.to_multiset().count(x));
    }
}

/// Whether `a` comes no later than `b`.
pub fn text_le(a: &[char], b: &[char]) -> (r: bool)
    ensures
        r == text_leq_from(a@, b@, 0),
{
    let mut i: usize = 0;
    while i < a.len() && i < b.len() && a[i] == b[i]
        invariant
            i <= a@.len(),
            i <= b@.len(),
            text_leq_from(a@, b@, i as int) == text_leq_from(a@, b@, 0),
        decreases a.len() - i,
    {
        i = i + 1;
    }
    if i >= a.len() {
        true
    } else if i >= b.len() {
        false
    } else {
        a[i] < b[i]
    }
}

/// A file name in the presets folder is a preset: an `.ini` file other than
/// the default configuration.
pub open spec fn is_preset_name(name: Seq<char>) -> bool {
    (ends_with(name, ".ini"@) || ends_with(name, ".config.ini"@)) && name != "default.config.ini"@
}

/// The presets among `names`, in order.
pub open spec fn preset_names(names: Seq<Seq<char>>) -> Seq<Seq<char>>
    decreases names.len(),
{
    if names.len() == 0 {
        Seq::empty()
    } else {
        let r = preset_names(names.drop_last());
        if is_preset_name(names.last()) {
            r.push(names.last())
        } else {
            r
        }
    }
}

/// The presets among the file names found in the presets folder, sorted.
pub fn select_preset_configs(names: Vec<String>) -> (r: Vec<String>)
    ensures
        texts(r@) == preset_names(texts(names@)).sort_by(text_order()),
{
    broadcast use vstd::seq_lib::group_to_multiset_ensures;

    let ghost all = texts(names@);
    let mut found: Vec<String> = Vec::new();
    let mut i: usize = 0;
    assert(all.take(0) =~= Seq::<Seq<char>>::empty());
    while i < names.len()
        invariant
            i <= names@.len(),
            all == texts(names@),
            texts(found@) == preset_names(all.take(i as int)),
        decreases names.len() - i,
    {
        let n = chars_of(names[i].as_str());
        let keep = (ends_with_lit(&n, ".ini") || ends_with_lit(&n, ".config.ini")) && !eq_lit(
            &n,
            "default.config.ini",
        );
        assert(all.take(i + 1).drop_last() =~= all.take(i as int));
        assert(all.take(i + 1).last() == names@[i as int]@);
        if keep {
            let ghost before = found@;
            found.push(names[i].clone());
            assert(texts(found@) =~= texts(before).push(names@[i as int]@));
        }
        i = i + 1;
    }
    assert(all.take(names@.len() as int) =~= all);
    let ghost wanted = texts(found@);
    let ghost o = text_order();
    let mut r: Vec<String> = Vec::new();
    let mut k: usize = 0;
    assert(wanted.take(0) =~= Seq::<Seq<char>>::empty());
    while k < found.len()
        invariant
            k <= found@.len(),
            wanted == texts(found@),
            o == text_order(),
            sorted_by(texts(r@), o),
            texts(r@).to_multiset() == wanted.take(k as int).to_multiset(),
        decreases found.len() - k,
    {
        let x = chars_of(found[k].as_str());
        let mut pos: usize = 0;
        let mut go = true;
        while go && pos < r.len()
            invariant
                pos <= r@.len(),
                o == text_order(),
                sorted_by(texts(r@), o),
                forall|j: int| 0 <= j < pos ==> #[trigger] o(texts(r@)[j], x@),
                !go ==> pos < r@.len() && !o(texts(r@)[pos as int], x@),
            decreases 2 * (r@.len() - pos) + (if go { 1int } else { 0int }),
        {
            let y = chars_of(r[pos].as_str());
            assert(y@ == texts(r@)[pos as int]);
            if text_le(&y, &x) {
                pos = pos + 1;
            } else {
                go = false;
            }
        }
        let ghost old_r = texts(r@);
        r.insert(pos, found[k].clone());
        let ghost new_r = texts(r@);
        assert(new_r =~= old_r.insert(pos as int, x@));
        assert(sorted_by(new_r, o)) by {
            lemma_text_order_total();
            let p = pos as int;
            assert forall|a: int, b: int| 0 <= a < b < new_r.len() implies #[trigger] o(new_r[a], new_r[b]) by {
                if a < p && b < p {
                    assert(o(old_r[a], old_r[b]));
                } else if a < p && b == p {
                } else if a < p && b > p {
                    assert(o(old_r[a], old_r[b - 1]));
                } else if a == p {
                    if p < old_r.len() {
                        assert(!o(old_r[p], x@));
                        assert(o(x@, old_r[p]));
                        if b - 1 > p {
                            assert(o(old_r[p], old_r[b - 1]));
                        }
                    }
                } else {
                    assert(o(old_r[a - 1], old_r[b - 1]));
                }
            }
        }
        assert(wanted.take(k + 1) =~= wanted.take(k as int).push(x@));
        proof {
            vstd::seq_lib::to_multiset_insert(old_r, pos as int, x@);
            vstd::seq_lib::to_multiset_build(wanted.take(k as int), x@);
        }
        k = k + 1;
    }
    assert(wanted.take(found@.len() as int) =~= wanted);
    proof {
        lemma_text_order_total();
        wanted.lemma_sort_by_ensures(text_order());
        vstd::seq_lib::lemma_sorted_unique(texts(r@), wanted.sort_by(text_order()), text_order());
    }
    r
}
} // verus!
