//! Character-level text primitives shared by the configuration, log and
//! monitor modules.  Text is handled as `Seq<char>` in specifications and as
//! `Vec<char>` / `&[char]` in executable code.
use vstd::prelude::*;

verus! {

// ---------------------------------------------------------------------------
// Character classes
// ---------------------------------------------------------------------------

/// White space in the sense of Unicode's `White_Space` property, which is
/// what `char::is_whitespace` (and so `str::trim`) tests.
pub open spec fn is_ws(c: char) -> bool {
    let u = c as u32;
    ||| 9 <= u <= 13
    ||| u == 32
    ||| u == 0x85
    ||| u == 0xA0
    ||| u == 0x1680
    ||| 0x2000 <= u <= 0x200A
    ||| u == 0x2028
    ||| u == 0x2029
    ||| u == 0x202F
    ||| u == 0x205F
    ||| u == 0x3000
}

/// The punctuation that surrounds a path in a line of program output.
pub open spec fn is_wrapping_punct(c: char) -> bool {
    ||| c == '"'
    ||| c == '\''
    ||| c == '('
    ||| c == ')'
    ||| c == '['
    ||| c == ']'
    ||| c == '{'
    ||| c == '}'
    ||| c == ','
    ||| c == ';'
}

/// The two classes of characters that text is trimmed of.
#[derive(Clone, Copy, PartialEq, Eq, Debug)]
pub enum TrimClass {
    Whitespace,
    WrappingPunct,
    NonLetter,
    NonDigit,
}

pub open spec fn in_class(class: TrimClass, c: char) -> bool {
    match class {
        TrimClass::Whitespace => is_ws(c),
        TrimClass::WrappingPunct => is_wrapping_punct(c),
        TrimClass::NonLetter => !is_ascii_letter(c),
        TrimClass::NonDigit => !is_digit(c),
    }
}

/// An ASCII letter, as `char::is_ascii_alphabetic` tests.
pub open spec fn is_ascii_letter(c: char) -> bool {
    let u = c as u32;
    (65 <= u <= 90) || (97 <= u <= 122)
}

pub fn is_whitespace(c: char) -> (r: bool)
    ensures
        r == is_ws(c),
{
    let u = c as u32;
    (9 <= u && u <= 13) || u == 32 || u == 0x85 || u == 0xA0 || u == 0x1680 || (0x2000 <= u
        && u <= 0x200A) || u == 0x2028 || u == 0x2029 || u == 0x202F || u == 0x205F || u
        == 0x3000
}

pub fn char_in_class(class: TrimClass, c: char) -> (r: bool)
    ensures
        r == in_class(class, c),
{
    match class {
        TrimClass::Whitespace => is_whitespace(c),
        TrimClass::WrappingPunct => {
            c == '"' || c == '\'' || c == '(' || c == ')' || c == '[' || c == ']' || c == '{'
                || c == '}' || c == ',' || c == ';'
        },
        TrimClass::NonLetter => {
            let u = c as u32;
            !((65 <= u && u <= 90) || (97 <= u && u <= 122))
        },
        TrimClass::NonDigit => {
            let u = c as u32;
            !(48 <= u && u <= 57)
        },
    }
}

// ---------------------------------------------------------------------------
// Trimming
// ---------------------------------------------------------------------------

/// `s` without its leading characters of `class`.
pub open spec fn trim_start_by(s: Seq<char>, class: TrimClass) -> Seq<char>
    decreases s.len(),
{
    if s.len() > 0 && in_class(class, s[0]) {
        trim_start_by(s.drop_first(), class)
    } else {
        s
    }
}

/// Trimming the start of `s` drops its longest prefix of characters of
/// `class`: what is left is a suffix of `s` that is empty or starts with a
/// character outside `class`.
pub proof fn lemma_trim_start_parts(s: Seq<char>, class: TrimClass)
    ensures
        exists|p: int|
            0 <= p <= s.len() && trim_start_by(s, class) == s.skip(p) && (forall|q: int|
                0 <= q < p ==> in_class(class, #[trigger] s[q])) && (p < s.len() ==> !in_class(
                class,
                s[p],
            )),
    decreases s.len(),
{
    if s.len() > 0 && in_class(class, s[0]) {
        lemma_trim_start_parts(s.drop_first(), class);
        let t = s.drop_first();
        let p = choose|p: int|
            0 <= p <= t.len() && trim_start_by(t, class) == t.skip(p) && (forall|q: int|
                0 <= q < p ==> in_class(class, #[trigger] t[q])) && (p < t.len() ==> !in_class(
                class,
                t[p],
            ));
        assert(t.skip(p) =~= s.skip(p + 1));
        assert forall|q: int| 0 <= q < p + 1 implies in_class(class, #[trigger] s[q]) by {
            if q > 0 {
                assert(s[q] == t[q - 1]);
            }
        }
        if p + 1 < s.len() {
            assert(s[p + 1] == t[p]);
        }
    } else {
        assert(s.skip(0) =~= s);
        assert(trim_start_by(s, class) == s.skip(0));
    }
}

/// Capitalising ASCII text and trimming its white space can be done in
/// either order.
pub proof fn lemma_trim_upper(s: Seq<char>)
    requires
        is_ascii_seq(s),
    ensures
        trim(ascii_upper(s)) == ascii_upper(trim(s)),
        is_ascii_seq(trim(s)),
{
    lemma_trim_start_upper(s);
    let a = trim_start_by(s, TrimClass::Whitespace);
    lemma_trim_part(s);
    lemma_trim_start_part(s);
    assert(is_ascii_seq(a)) by {
        assert forall|i: int| 0 <= i < a.len() implies (a[i] as u32) < 128 by {
            assert(a[i] == s[i + (s.len() - a.len())]);
        }
    }
    lemma_trim_end_upper(a);
    assert forall|j: int| 0 <= j < trim(s).len() implies (trim(s)[j] as u32) < 128 by {
        let i = choose|i: int| 0 <= i < s.len() && s[i] == #[trigger] trim(s)[j];
    }
}

proof fn lemma_trim_start_upper(s: Seq<char>)
    requires
        is_ascii_seq(s),
    ensures
        trim_start_by(ascii_upper(s), TrimClass::Whitespace) == ascii_upper(
            trim_start_by(s, TrimClass::Whitespace),
        ),
    decreases s.len(),
{
    let u = ascii_upper(s);
    if s.len() > 0 {
        assert(u[0] == ascii_upper_char(s[0]));
        assert(is_ws(u[0]) == is_ws(s[0]));
        if is_ws(s[0]) {
            assert(u.drop_first() =~= ascii_upper(s.drop_first()));
            lemma_trim_start_upper(s.drop_first());
        }
    }
}

proof fn lemma_trim_end_upper(s: Seq<char>)
    requires
        is_ascii_seq(s),
    ensures
        trim_end_by(ascii_upper(s), TrimClass::Whitespace) == ascii_upper(
            trim_end_by(s, TrimClass::Whitespace),
        ),
    decreases s.len(),
{
    let u = ascii_upper(s);
    if s.len() > 0 {
        assert(u.last() == ascii_upper_char(s.last()));
        assert(is_ws(u.last()) == is_ws(s.last()));
        if is_ws(s.last()) {
            assert(u.drop_last() =~= ascii_upper(s.drop_last()));
            lemma_trim_end_upper(s.drop_last());
        }
    }
}

/// Capitalising ASCII text twice is capitalising it once, and upper-casing
/// capitalised ASCII text leaves it as it is.
pub proof fn lemma_upper_ascii_upper(s: Seq<char>)
    requires
        is_ascii_seq(s),
    ensures
        is_ascii_seq(ascii_upper(s)),
        upper_case(ascii_upper(s)) == ascii_upper(s),
{
    let u = ascii_upper(s);
    assert forall|i: int| 0 <= i < u.len() implies (u[i] as u32) < 128 by {
        assert(u[i] == ascii_upper_char(s[i]));
    }
    assert(ascii_upper(u) =~= u);
}

/// `s` without its trailing characters of `class`.
pub open spec fn trim_end_by(s: Seq<char>, class: TrimClass) -> Seq<char>
    decreases s.len(),
{
    if s.len() > 0 && in_class(class, s.last()) {
        trim_end_by(s.drop_last(), class)
    } else {
        s
    }
}

pub open spec fn trim_by(s: Seq<char>, class: TrimClass) -> Seq<char> {
    trim_end_by(trim_start_by(s, class), class)
}

/// `s` without leading and trailing white space, as `str::trim` gives it.
pub open spec fn trim(s: Seq<char>) -> Seq<char> {
    trim_by(s, TrimClass::Whitespace)
}

/// Copies `s[lo..hi]`.
pub fn copy_range(s: &[char], lo: usize, hi: usize) -> (r: Vec<char>)
    requires
        lo <= hi <= s@.len(),
    ensures
        r@ == s@.subrange(lo as int, hi as int),
{
    let mut r: Vec<char> = Vec::new();
    let mut i: usize = lo;
    while i < hi
        invariant
            lo <= i <= hi <= s@.len(),
            r@ == s@.subrange(lo as int, i as int),
        decreases hi - i,
    {
        r.push(s[i]);
        i = i + 1;
        assert(r@ =~= s@.subrange(lo as int, i as int));
    }
    r
}

/// Removes the leading and trailing characters of `class` from `s`.
pub fn trim_class(s: &[char], class: TrimClass) -> (r: Vec<char>)
    ensures
        r@ == trim_by(s@, class),
{
    let n = s.len();
    let mut i: usize = 0;
    assert(s@.subrange(0, n as int) =~= s@);
    while i < n && char_in_class(class, s[i])
        invariant
            i <= n == s@.len(),
            trim_start_by(s@, class) == trim_start_by(s@.subrange(i as int, n as int), class),
        decreases n - i,
    {
        assert(s@.subrange(i as int, n as int).drop_first() =~= s@.subrange(
            i + 1,
            n as int,
        ));
        i = i + 1;
    }
    assert(trim_start_by(s@, class) == s@.subrange(i as int, n as int));
    let mut j: usize = n;
    while j > i && char_in_class(class, s[j - 1])
        invariant
            i <= j <= n == s@.len(),
            trim_start_by(s@, class) == s@.subrange(i as int, n as int),
            trim_by(s@, class) == trim_end_by(s@.subrange(i as int, j as int), class),
        decreases j,
    {
        assert(s@.subrange(i as int, j as int).drop_last() =~= s@.subrange(
            i as int,
            j - 1,
        ));
        j = j - 1;
    }
    copy_range(s, i, j)
}

/// Removes the leading characters of `class` from `s`.
pub fn trim_start_class(s: &[char], class: TrimClass) -> (r: Vec<char>)
    ensures
        r@ == trim_start_by(s@, class),
{
    let n = s.len();
    let mut i: usize = 0;
    assert(s@.subrange(0, n as int) =~= s@);
    while i < n && char_in_class(class, s[i])
        invariant
            i <= n == s@.len(),
            trim_start_by(s@, class) == trim_start_by(s@.subrange(i as int, n as int), class),
        decreases n - i,
    {
        assert(s@.subrange(i as int, n as int).drop_first() =~= s@.subrange(
            i + 1,
            n as int,
        ));
        i = i + 1;
    }
    copy_range(s, i, n)
}

/// Removes the trailing characters of `class` from `s`.
pub fn trim_end_class(s: &[char], class: TrimClass) -> (r: Vec<char>)
    ensures
        r@ == trim_end_by(s@, class),
{
    let mut j: usize = s.len();
    assert(s@.subrange(0, j as int) =~= s@);
    while j > 0 && char_in_class(class, s[j - 1])
        invariant
            j <= s@.len(),
            trim_end_by(s@, class) == trim_end_by(s@.subrange(0, j as int), class),
        decreases j,
    {
        assert(s@.subrange(0, j as int).drop_last() =~= s@.subrange(0, j - 1));
        j = j - 1;
    }
    copy_range(s, 0, j)
}

/// Removes leading and trailing white space.
pub fn trim_ws(s: &[char]) -> (r: Vec<char>)
    ensures
        r@ == trim(s@),
{
    trim_class(s, TrimClass::Whitespace)
}

// ---------------------------------------------------------------------------
// Conversions between `str`/`String` and character vectors
// ---------------------------------------------------------------------------

/// The characters of `s`, in order.
pub fn chars_of(s: &str) -> (r: Vec<char>)
    ensures
        r@ == s@,
{
    broadcast use vstd::string::axiom_spec_iter;

    let mut r: Vec<char> = Vec::new();
    for c in it: s.chars()
        invariant
            r@.len() == it.index(),
            forall|i: int| 0 <= i < it.index() ==> r@[i] == it.seq()[i],
    {
        r.push(c);
    }
    assert(r@ =~= s@);
    r
}

/// A `String` of the characters `v`, collected through `FromIterator<char>`
/// for `String`.  Claims only that the string holds `v` in order.
#[verifier::external_body]
pub fn string_of(v: &[char]) -> (r: String)
    ensures
        r@ == v@,
{
    v.iter().collect()
}

/// Whether the characters `a` spell the string `lit`.
pub fn eq_lit(a: &[char], lit: &str) -> (r: bool)
    ensures
        r == (a@ == lit@),
{
    let n = lit.unicode_len();
    if a.len() != n {
        return false;
    }
    let mut i: usize = 0;
    while i < n
        invariant
            i <= n == a@.len() == lit@.len(),
            forall|k: int| 0 <= k < i ==> a@[k] == lit@[k],
        decreases n - i,
    {
        if a[i] != lit.get_char(i) {
            return false;
        }
        i = i + 1;
    }
    assert(a@ =~= lit@);
    true
}

/// Appends the characters of `lit` to `out`.
pub fn push_lit(out: &mut Vec<char>, lit: &str)
    ensures
        final(out)@ == old(out)@ + lit@,
{
    let n = lit.unicode_len();
    let ghost start = out@;
    let mut i: usize = 0;
    while i < n
        invariant
            i <= n == lit@.len(),
            out@ == start + lit@.subrange(0, i as int),
        decreases n - i,
    {
        out.push(lit.get_char(i));
        i = i + 1;
        assert(out@ =~= start + lit@.subrange(0, i as int));
    }
    assert(lit@.subrange(0, n as int) =~= lit@);
}

/// Appends the characters `s` to `out`.
pub fn push_all(out: &mut Vec<char>, s: &[char])
    ensures
        final(out)@ == old(out)@ + s@,
{
    let ghost start = out@;
    let mut i: usize = 0;
    while i < s.len()
        invariant
            i <= s@.len(),
            out@ == start + s@.subrange(0, i as int),
        decreases s.len() - i,
    {
        out.push(s[i]);
        i = i + 1;
        assert(out@ =~= start + s@.subrange(0, i as int));
    }
    assert(s@.subrange(0, s@.len() as int) =~= s@);
}


// ---------------------------------------------------------------------------
// ASCII case
// ---------------------------------------------------------------------------

pub open spec fn is_ascii_seq(s: Seq<char>) -> bool {
    forall|i: int| 0 <= i < s.len() ==> (s[i] as u32) < 128
}

/// The code of `c` with ASCII capitals mapped to their small letters.
pub open spec fn ascii_fold(c: char) -> u32 {
    let u = c as u32;
    if 65 <= u <= 90 {
        (u + 32) as u32
    } else {
        u
    }
}

/// `a` and `b` are equal up to ASCII case, as `str::eq_ignore_ascii_case` tests.
pub open spec fn eq_ignore_ascii_case(a: Seq<char>, b: Seq<char>) -> bool {
    &&& a.len() == b.len()
    &&& forall|i: int| 0 <= i < a.len() ==> ascii_fold(a[i]) == ascii_fold(b[i])
}

pub open spec fn ascii_upper_char(c: char) -> char {
    let u = c as u32;
    if 97 <= u <= 122 {
        (u - 32) as char
    } else {
        c
    }
}

/// `s` with the ASCII small letters capitalised.
pub open spec fn ascii_upper(s: Seq<char>) -> Seq<char> {
    Seq::new(s.len(), |i: int| ascii_upper_char(s[i]))
}

pub fn eq_ignore_case_lit(a: &[char], lit: &str) -> (r: bool)
    ensures
        r == eq_ignore_ascii_case(a@, lit@),
{
    let n = lit.unicode_len();
    if a.len() != n {
        return false;
    }
    let mut i: usize = 0;
    while i < n
        invariant
            i <= n == a@.len() == lit@.len(),
            forall|k: int| 0 <= k < i ==> ascii_fold(a@[k]) == ascii_fold(lit@[k]),
        decreases n - i,
    {
        let x = a[i] as u32;
        let y = lit.get_char(i) as u32;
        let fx = if 65 <= x && x <= 90 {
            x + 32
        } else {
            x
        };
        let fy = if 65 <= y && y <= 90 {
            y + 32
        } else {
            y
        };
        if fx != fy {
            return false;
        }
        i = i + 1;
    }
    true
}

/// The result of `str::to_uppercase` on the string `s` (Unicode case mapping).
pub uninterp spec fn spec_to_uppercase(s: Seq<char>) -> Seq<char>;

/// `str::to_uppercase`.  Claims that the result is the named function of the
/// input, that on ASCII text the Unicode mapping capitalises exactly the
/// small letters a to z, and that non-empty text gives non-empty text (each
/// character maps to one or more characters); what it does with other
/// characters is left unsaid.
#[verifier::external_body]
fn str_to_uppercase(s: &str) -> (r: String)
    ensures
        r@ == spec_to_uppercase(s@),
        is_ascii_seq(s@) ==> r@ == ascii_upper(s@),
        s@.len() > 0 ==> r@.len() > 0,
{
    s.to_uppercase()
}

/// The characters `s` upper-cased as `str::to_uppercase` does it.
pub fn to_uppercase(s: &[char]) -> (r: Vec<char>)
    ensures
        r@ == spec_to_uppercase(s@),
        is_ascii_seq(s@) ==> r@ == ascii_upper(s@),
        s@.len() > 0 ==> r@.len() > 0,
{
    let text = string_of(s);
    let upper = str_to_uppercase(text.as_str());
    chars_of(upper.as_str())
}

/// Upper-casing as `str::to_uppercase` does it: on ASCII text by capitalising
/// the small letters, on other text by the Unicode case mapping.
pub open spec fn upper_case(s: Seq<char>) -> Seq<char> {
    if is_ascii_seq(s) {
        ascii_upper(s)
    } else {
        spec_to_uppercase(s)
    }
}

/// Every character of `s` is neither white space nor one of `#`, `=`, `[`,
/// and (when `caps`) none is a non-ASCII character or an ASCII small letter;
/// checked one character at a time.
pub open spec fn plain_word(s: Seq<char>, caps: bool) -> bool
    decreases s.len(),
{
    if s.len() == 0 {
        true
    } else {
        let u = s[0] as u32;
        &&& !is_ws(s[0])
        &&& s[0] != '#'
        &&& s[0] != '='
        &&& s[0] != '['
        &&& caps ==> u < 128 && !(97 <= u <= 122)
        &&& plain_word(s.drop_first(), caps)
    }
}

pub proof fn lemma_plain_word(s: Seq<char>, caps: bool)
    requires
        plain_word(s, caps),
    ensures
        forall|i: int|
            0 <= i < s.len() ==> !is_ws(#[trigger] s[i]) && s[i] != '#' && s[i] != '=' && s[i]
                != '[',
        trim(s) == s,
        caps ==> is_ascii_seq(s) && ascii_upper(s) == s && upper_case(s) == s,
    decreases s.len(),
{
    if s.len() > 0 {
        lemma_plain_word(s.drop_first(), caps);
        assert forall|i: int| 0 <= i < s.len() implies !is_ws(#[trigger] s[i]) && s[i] != '#'
            && s[i] != '=' && s[i] != '[' by {
            if i > 0 {
                assert(s[i] == s.drop_first()[i - 1]);
            }
        }
        if caps {
            assert forall|i: int| 0 <= i < s.len() implies (s[i] as u32) < 128 && !(97 <= (
            s[i] as u32) <= 122) by {
                if i > 0 {
                    assert(s[i] == s.drop_first()[i - 1]);
                }
            }
            assert(ascii_upper(s) =~= s);
        }
        assert(trim_start_by(s, TrimClass::Whitespace) == s);
    }
}

// ---------------------------------------------------------------------------
// Decimal numbers
// ---------------------------------------------------------------------------

pub open spec fn is_digit(c: char) -> bool {
    48 <= (c as u32) <= 57
}

pub open spec fn all_digits(s: Seq<char>) -> bool {
    forall|i: int| 0 <= i < s.len() ==> is_digit(s[i])
}

/// The value of the decimal numeral `s` (read as if all characters were digits).
pub open spec fn digits_value(s: Seq<char>) -> nat
    decreases s.len(),
{
    if s.len() == 0 {
        0
    } else {
        digits_value(s.drop_last()) * 10 + ((s.last() as u32) - 48) as nat
    }
}

/// What `str::parse` accepts for an unsigned integer: an optional `+`
/// followed by one or more decimal digits; the value, before any range check.
pub open spec fn spec_parse_unsigned(s: Seq<char>) -> Option<nat> {
    let d = if s.len() > 0 && s[0] == '+' {
        s.drop_first()
    } else {
        s
    };
    if d.len() > 0 && all_digits(d) {
        Some(digits_value(d))
    } else {
        None
    }
}

/// `s.parse::<u32>().ok()`.
pub open spec fn spec_parse_u32(s: Seq<char>) -> Option<u32> {
    match spec_parse_unsigned(s) {
        Some(v) => if v <= u32::MAX {
            Some(v as u32)
        } else {
            None
        },
        None => None,
    }
}

/// `s.parse::<u8>().ok()`.
pub open spec fn spec_parse_u8(s: Seq<char>) -> Option<u8> {
    match spec_parse_unsigned(s) {
        Some(v) => if v <= u8::MAX {
            Some(v as u8)
        } else {
            None
        },
        None => None,
    }
}

proof fn lemma_digits_value_grows(s: Seq<char>, k: int)
    requires
        0 <= k <= s.len(),
        all_digits(s),
    ensures
        digits_value(s.take(k)) <= digits_value(s),
    decreases s.len() - k,
{
    if k < s.len() {
        lemma_digits_value_grows(s, k + 1);
        assert(s.take(k + 1).drop_last() =~= s.take(k));
    } else {
        assert(s.take(k) =~= s);
    }
}

pub fn parse_u32(s: &[char]) -> (r: Option<u32>)
    ensures
        r == spec_parse_u32(s@),
{
    let n = s.len();
    let start: usize = if n > 0 && s[0] == '+' {
        1
    } else {
        0
    };
    let ghost d = if s@.len() > 0 && s@[0] == '+' {
        s@.drop_first()
    } else {
        s@
    };
    assert(d =~= s@.subrange(start as int, n as int));
    assert(spec_parse_unsigned(s@) == (if d.len() > 0 && all_digits(d) {
        Some(digits_value(d))
    } else {
        None::<nat>
    }));
    if start >= n {
        return None;
    }
    let mut i: usize = start;
    let mut acc: u64 = 0;
    while i < n
        invariant
            start <= i <= n == s@.len(),
            d == s@.subrange(start as int, n as int),
            all_digits(d.take(i - start)),
            acc == digits_value(d.take(i - start)),
            acc <= u32::MAX,
            spec_parse_unsigned(s@) == (if d.len() > 0 && all_digits(d) {
                Some(digits_value(d))
            } else {
                None::<nat>
            }),
        decreases n - i,
    {
        let c: u32 = s[i] as u32;
        if c < 48 || c > 57 {
            assert(!is_digit(d[i - start]));
            assert(!all_digits(d));
            return None;
        }
        assert(d.take(i - start + 1).drop_last() =~= d.take(i - start));
        let next = acc * 10 + (c - 48) as u64;
        if next > 0xffff_ffff {
            // Every later digit keeps the value at least this large.
            let ghost k = i - start + 1;
            proof {
                assert(d.take(k).last() == s@[i as int]);
                assert(digits_value(d.take(k)) == next);
                if all_digits(d) {
                    lemma_digits_value_grows(d, k);
                }
            }
            // The rest may still hold a non-digit; either way parsing fails.
            return None;
        }
        acc = next;
        i = i + 1;
    }
    assert(d.take(n - start) =~= d);
    Some(acc as u32)
}

pub fn parse_u8(s: &[char]) -> (r: Option<u8>)
    ensures
        r == spec_parse_u8(s@),
{
    match parse_u32(s) {
        Some(v) => if v <= 255 {
            Some(v as u8)
        } else {
            None
        },
        None => None,
    }
}

pub open spec fn digit_char(d: nat) -> char {
    (d + 48) as char
}

/// The decimal numeral of `n`, without leading zeros.
pub open spec fn decimal(n: nat) -> Seq<char>
    decreases n,
{
    if n < 10 {
        seq![digit_char(n)]
    } else {
        decimal(n / 10).push(digit_char(n % 10))
    }
}

fn digit_char_exec(d: u64) -> (c: char)
    requires
        d < 10,
    ensures
        c == digit_char(d as nat),
{
    match d {
        0 => '0',
        1 => '1',
        2 => '2',
        3 => '3',
        4 => '4',
        5 => '5',
        6 => '6',
        7 => '7',
        8 => '8',
        _ => '9',
    }
}

/// Appends the decimal numeral of `n`.
pub fn push_decimal(out: &mut Vec<char>, n: u64)
    ensures
        final(out)@ == old(out)@ + decimal(n as nat),
    decreases n,
{
    if n < 10 {
        out.push(digit_char_exec(n));
        assert(decimal(n as nat) =~= seq![digit_char(n as nat)]);
    } else {
        push_decimal(out, n / 10);
        out.push(digit_char_exec(n % 10));
    }
}

pub proof fn lemma_decimal_parses(n: nat)
    ensures
        all_digits(decimal(n)),
        decimal(n).len() > 0,
        decimal(n)[0] != '+',
        digits_value(decimal(n)) == n,
    decreases n,
{
    if n >= 10 {
        lemma_decimal_parses(n / 10);
        assert(decimal(n).drop_last() =~= decimal(n / 10));
        assert(n == (n / 10) * 10 + n % 10) by (nonlinear_arith);
        let d = n % 10;
        assert(d < 10);
        assert((digit_char(d) as u32) == d + 48);
        let x = decimal(n);
        assert(x.last() == digit_char(d));
        assert(digits_value(x) == digits_value(x.drop_last()) * 10 + ((x.last() as u32) - 48) as nat);
        assert(digits_value(x.drop_last()) == n / 10);
        assert(digits_value(x) == n);
    } else {
        assert((digit_char(n) as u32) == n + 48);
        assert(decimal(n).drop_last() =~= Seq::<char>::empty());
        assert(digits_value(Seq::<char>::empty()) == 0);
    }
}

/// A decimal numeral reads back as the number it was written from.
pub proof fn lemma_parse_decimal(n: nat)
    ensures
        spec_parse_unsigned(decimal(n)) == Some(n),
{
    lemma_decimal_parses(n);
}


/// The digits at the start of `s`, up to the first other character.
pub open spec fn leading_digits(s: Seq<char>) -> Seq<char>
    decreases s.len(),
{
    if s.len() > 0 && is_digit(s[0]) {
        seq![s[0]] + leading_digits(s.drop_first())
    } else {
        Seq::empty()
    }
}

/// Copies the digits at the start of `s`.
pub fn take_digits(s: &[char]) -> (r: Vec<char>)
    ensures
        r@ == leading_digits(s@),
{
    let n = s.len();
    let mut j: usize = 0;
    assert(s@.subrange(0, n as int) =~= s@);
    assert(s@.subrange(0, 0) + leading_digits(s@) =~= leading_digits(s@));
    while j < n && 48 <= (s[j] as u32) && (s[j] as u32) <= 57
        invariant
            j <= n == s@.len(),
            forall|k: int| 0 <= k < j ==> is_digit(#[trigger] s@[k]),
            leading_digits(s@) == s@.subrange(0, j as int) + leading_digits(
                s@.subrange(j as int, n as int),
            ),
        decreases n - j,
    {
        let ghost rest = s@.subrange(j as int, n as int);
        assert(rest.drop_first() =~= s@.subrange(j + 1, n as int));
        assert(s@.subrange(0, j + 1) =~= s@.subrange(0, j as int) + seq![rest[0]]);
        j = j + 1;
    }
    proof {
        let rest = s@.subrange(j as int, n as int);
        assert(leading_digits(rest) =~= Seq::<char>::empty());
        assert(s@.subrange(0, j as int) + Seq::<char>::empty() =~= s@.subrange(0, j as int));
    }
    copy_range(s, 0, j)
}

// ---------------------------------------------------------------------------
// Searching
// ---------------------------------------------------------------------------

/// `p` occurs in `s` starting at index `i`.
pub open spec fn occurs_at(s: Seq<char>, p: Seq<char>, i: int) -> bool {
    0 <= i && i + p.len() <= s.len() && s.subrange(i, i + p.len()) == p
}

pub open spec fn contains_seq(s: Seq<char>, p: Seq<char>) -> bool {
    exists|i: int| occurs_at(s, p, i)
}

pub open spec fn starts_with(s: Seq<char>, p: Seq<char>) -> bool {
    occurs_at(s, p, 0)
}

pub open spec fn ends_with(s: Seq<char>, p: Seq<char>) -> bool {
    p.len() <= s.len() && occurs_at(s, p, s.len() - p.len())
}

/// The first index at or after `i` at which `p` occurs in `s`.
pub open spec fn find_from(s: Seq<char>, p: Seq<char>, i: int) -> Option<int>
    decreases s.len() + 1 - i,
{
    if i < 0 || i + p.len() > s.len() {
        None
    } else if occurs_at(s, p, i) {
        Some(i)
    } else {
        find_from(s, p, i + 1)
    }
}

/// The first index at which `p` occurs in `s`, as `str::find` gives it
/// (counted in characters).
pub open spec fn find(s: Seq<char>, p: Seq<char>) -> Option<int> {
    find_from(s, p, 0)
}

pub proof fn lemma_find_from(s: Seq<char>, p: Seq<char>, i: int)
    requires
        0 <= i,
    ensures
        match find_from(s, p, i) {
            Some(k) => i <= k && occurs_at(s, p, k) && forall|j: int|
                i <= j < k ==> !occurs_at(s, p, j),
            None => forall|j: int| i <= j ==> !occurs_at(s, p, j),
        },
    decreases s.len() + 1 - i,
{
    if i + p.len() > s.len() {
    } else if occurs_at(s, p, i) {
    } else {
        lemma_find_from(s, p, i + 1);
        assert forall|j: int| i <= j && j < i + 1 implies !occurs_at(s, p, j) by {
            assert(j == i);
        }
    }
}

pub proof fn lemma_find(s: Seq<char>, p: Seq<char>)
    ensures
        find(s, p) is Some <==> contains_seq(s, p),
        find(s, p) matches Some(k) ==> occurs_at(s, p, k) && forall|j: int|
            0 <= j < k ==> !occurs_at(s, p, j),
{
    lemma_find_from(s, p, 0);
    if let Some(k) = find(s, p) {
        assert(occurs_at(s, p, k));
    }
}

pub fn occurs_at_exec(s: &[char], p: &[char], i: usize) -> (r: bool)
    ensures
        r == occurs_at(s@, p@, i as int),
{
    if p.len() > s.len() || i > s.len() - p.len() {
        return false;
    }
    let mut k: usize = 0;
    while k < p.len()
        invariant
            i + p@.len() <= s@.len(),
            s@.len() == s.len(),
            k <= p@.len(),
            forall|j: int| 0 <= j < k ==> s@[i + j] == p@[j],
        decreases p.len() - k,
    {
        if s[i + k] != p[k] {
            assert(s@.subrange(i as int, i + p@.len())[k as int] != p@[k as int]);
            return false;
        }
        k = k + 1;
    }
    assert(s@.subrange(i as int, i + p@.len()) =~= p@);
    true
}

pub fn find_from_exec(s: &[char], p: &[char], from: usize) -> (r: Option<usize>)
    ensures
        match r {
            Some(k) => find_from(s@, p@, from as int) == Some(k as int),
            None => find_from(s@, p@, from as int) is None,
        },
{
    if p.len() > s.len() {
        return None;
    }
    if p.len() == 0 {
        if from <= s.len() {
            assert(s@.subrange(from as int, from as int) =~= p@);
            return Some(from);
        }
        return None;
    }
    let last = s.len() - p.len();
    let mut i: usize = from;
    while i <= last
        invariant
            last + p@.len() == s@.len(),
            s@.len() == s.len(),
            p@.len() >= 1,
            from <= i,
            find_from(s@, p@, from as int) == find_from(s@, p@, i as int),
        decreases last + 1 - i,
    {
        if occurs_at_exec(s, p, i) {
            return Some(i);
        }
        i = i + 1;
    }
    None
}

pub fn find_exec(s: &[char], p: &[char]) -> (r: Option<usize>)
    ensures
        match r {
            Some(k) => find(s@, p@) == Some(k as int),
            None => find(s@, p@) is None,
        },
{
    find_from_exec(s, p, 0)
}

pub fn contains_exec(s: &[char], p: &[char]) -> (r: bool)
    ensures
        r == contains_seq(s@, p@),
{
    proof {
        lemma_find(s@, p@);
    }
    find_exec(s, p).is_some()
}

pub fn contains_lit(s: &[char], lit: &str) -> (r: bool)
    ensures
        r == contains_seq(s@, lit@),
{
    let p = chars_of(lit);
    contains_exec(s, &p)
}

pub fn starts_with_exec(s: &[char], p: &[char]) -> (r: bool)
    ensures
        r == starts_with(s@, p@),
{
    occurs_at_exec(s, p, 0)
}

pub fn ends_with_exec(s: &[char], p: &[char]) -> (r: bool)
    ensures
        r == ends_with(s@, p@),
{
    if p.len() > s.len() {
        false
    } else {
        occurs_at_exec(s, p, s.len() - p.len())
    }
}

pub fn ends_with_lit(s: &[char], lit: &str) -> (r: bool)
    ensures
        r == ends_with(s@, lit@),
{
    let p = chars_of(lit);
    ends_with_exec(s, &p)
}

/// The part of `s` before the first occurrence of `p`, or all of `s` where
/// `p` does not occur: the first piece that `str::split` yields.
pub open spec fn before(s: Seq<char>, p: Seq<char>) -> Seq<char> {
    match find(s, p) {
        Some(k) => s.take(k),
        None => s,
    }
}

pub fn before_lit(s: &[char], lit: &str) -> (r: Vec<char>)
    ensures
        r@ == before(s@, lit@),
{
    let p = chars_of(lit);
    match find_exec(s, &p) {
        Some(k) => {
            proof {
                lemma_find(s@, p@);
            }
            copy_range(s, 0, k)
        },
        None => copy_range(s, 0, s.len()),
    }
}

/// A text without white space does not hold a pattern that starts with
/// white space.
pub proof fn lemma_before_absent(s: Seq<char>, p: Seq<char>)
    requires
        p.len() > 0,
        is_ws(p[0]),
        forall|i: int| 0 <= i < s.len() ==> !is_ws(#[trigger] s[i]),
    ensures
        before(s, p) == s,
        find(s, p) is None,
{
    lemma_find(s, p);
    if let Some(k) = find(s, p) {
        assert(s.subrange(k, k + p.len())[0] == p[0]);
        assert(s[k] == p[0]);
    }
}

/// In `a + p + b`, where `a` has no white space and `p` starts with white
/// space, the part before `p` is `a`.
pub proof fn lemma_before_prefix(a: Seq<char>, p: Seq<char>, b: Seq<char>)
    requires
        p.len() > 0,
        is_ws(p[0]),
        forall|i: int| 0 <= i < a.len() ==> !is_ws(#[trigger] a[i]),
    ensures
        before(a + p + b, p) == a,
{
    let s = a + p + b;
    assert(s.subrange(a.len() as int, (a.len() + p.len()) as int) =~= p);
    assert(occurs_at(s, p, a.len() as int));
    lemma_find(s, p);
    let k = find(s, p)->0;
    assert(k <= a.len());
    if k < a.len() {
        assert(s.subrange(k, k + p.len())[0] == p[0]);
        assert(s[k] == a[k]);
    }
    assert(s.take(a.len() as int) =~= a);
}

// ---------------------------------------------------------------------------
// Splitting and joining
// ---------------------------------------------------------------------------

/// What separates the pieces of a text.
#[derive(Clone, Copy, PartialEq, Eq, Debug)]
pub enum Separator {
    Char(char),
    Whitespace,
}

pub open spec fn is_separator(sep: Separator, c: char) -> bool {
    match sep {
        Separator::Char(x) => c == x,
        Separator::Whitespace => is_ws(c),
    }
}

/// The pieces of `s` between separators, empty ones included, as
/// `str::split` yields them.
pub open spec fn split_on(s: Seq<char>, sep: Separator) -> Seq<Seq<char>>
    decreases s.len(),
{
    if s.len() == 0 {
        seq![Seq::<char>::empty()]
    } else {
        let prev = split_on(s.drop_last(), sep);
        if is_separator(sep, s.last()) {
            prev.push(Seq::<char>::empty())
        } else {
            prev.update(prev.len() - 1, prev.last().push(s.last()))
        }
    }
}

pub proof fn lemma_split_on_nonempty(s: Seq<char>, sep: Separator)
    ensures
        split_on(s, sep).len() >= 1,
    decreases s.len(),
{
    if s.len() > 0 {
        lemma_split_on_nonempty(s.drop_last(), sep);
    }
}

/// The non-empty pieces of `ps`, in order.
pub open spec fn nonempty_pieces(ps: Seq<Seq<char>>) -> Seq<Seq<char>>
    decreases ps.len(),
{
    if ps.len() == 0 {
        Seq::empty()
    } else {
        let r = nonempty_pieces(ps.drop_last());
        if ps.last().len() > 0 {
            r.push(ps.last())
        } else {
            r
        }
    }
}

/// The white-space separated words of `s`, as `str::split_whitespace`
/// yields them.
pub open spec fn words(s: Seq<char>) -> Seq<Seq<char>> {
    nonempty_pieces(split_on(s, Separator::Whitespace))
}

/// The pieces of `ps` joined by `sep`, as `[String]::join` gives them.
pub open spec fn join(ps: Seq<Seq<char>>, sep: Seq<char>) -> Seq<char>
    decreases ps.len(),
{
    if ps.len() == 0 {
        Seq::empty()
    } else if ps.len() == 1 {
        ps[0]
    } else {
        join(ps.drop_last(), sep) + sep + ps.last()
    }
}

/// The views of a vector of character vectors.
pub open spec fn views(v: Seq<Vec<char>>) -> Seq<Seq<char>> {
    Seq::new(v.len(), |i: int| v[i]@)
}

pub fn split_exec(s: &[char], sep: Separator) -> (r: Vec<Vec<char>>)
    ensures
        views(r@) == split_on(s@, sep),
{
    let mut pieces: Vec<Vec<char>> = Vec::new();
    let mut cur: Vec<char> = Vec::new();
    let mut i: usize = 0;
    assert(s@.take(0) =~= Seq::<char>::empty());
    assert(views(pieces@).push(cur@) =~= split_on(s@.take(0), sep));
    while i < s.len()
        invariant
            i <= s@.len(),
            views(pieces@).push(cur@) == split_on(s@.take(i as int), sep),
        decreases s.len() - i,
    {
        let c = s[i];
        let ghost prev = split_on(s@.take(i as int), sep);
        assert(s@.take(i + 1).drop_last() =~= s@.take(i as int));
        let sepc = match sep {
            Separator::Char(x) => c == x,
            Separator::Whitespace => is_whitespace(c),
        };
        if sepc {
            let done = cur;
            pieces.push(done);
            cur = Vec::new();
            assert(views(pieces@).push(cur@) =~= prev.push(Seq::<char>::empty()));
        } else {
            cur.push(c);
            assert(views(pieces@).push(cur@) =~= prev.update(
                prev.len() - 1,
                prev.last().push(c),
            ));
        }
        i = i + 1;
    }
    assert(s@.take(s@.len() as int) =~= s@);
    pieces.push(cur);
    pieces
}

pub fn nonempty_exec(ps: Vec<Vec<char>>) -> (r: Vec<Vec<char>>)
    ensures
        views(r@) == nonempty_pieces(views(ps@)),
{
    let mut r: Vec<Vec<char>> = Vec::new();
    let mut i: usize = 0;
    let ghost vs = views(ps@);
    assert(vs.take(0) =~= Seq::<Seq<char>>::empty());
    while i < ps.len()
        invariant
            i <= ps@.len(),
            vs == views(ps@),
            views(r@) == nonempty_pieces(vs.take(i as int)),
        decreases ps.len() - i,
    {
        assert(vs.take(i + 1).drop_last() =~= vs.take(i as int));
        let piece = ps[i].clone();
        assert(piece@ == vs[i as int]);
        if piece.len() > 0 {
            r.push(piece);
            assert(views(r@) =~= nonempty_pieces(vs.take(i as int)).push(vs[i as int]));
        }
        i = i + 1;
    }
    assert(vs.take(ps@.len() as int) =~= vs);
    r
}

pub fn join_exec(ps: &Vec<Vec<char>>, sep: &str) -> (r: Vec<char>)
    ensures
        r@ == join(views(ps@), sep@),
{
    let mut out: Vec<char> = Vec::new();
    let ghost vs = views(ps@);
    let mut i: usize = 0;
    assert(vs.take(0) =~= Seq::<Seq<char>>::empty());
    while i < ps.len()
        invariant
            i <= ps@.len(),
            vs == views(ps@),
            out@ == join(vs.take(i as int), sep@),
        decreases ps.len() - i,
    {
        assert(vs.take(i + 1).drop_last() =~= vs.take(i as int));
        if i > 0 {
            push_lit(&mut out, sep);
        } else {
            assert(vs.take(1)[0] == vs[0]);
        }
        push_all(&mut out, &ps[i]);
        i = i + 1;
    }
    assert(vs.take(ps@.len() as int) =~= vs);
    out
}


/// Each piece of `ps`, trimmed.
pub open spec fn trim_each(ps: Seq<Seq<char>>) -> Seq<Seq<char>> {
    Seq::new(ps.len(), |i: int| trim(ps[i]))
}

/// Each piece of `ps`, upper-cased.
pub open spec fn upper_each(ps: Seq<Seq<char>>) -> Seq<Seq<char>> {
    Seq::new(ps.len(), |i: int| upper_case(ps[i]))
}

pub fn trim_all(ps: Vec<Vec<char>>) -> (r: Vec<Vec<char>>)
    ensures
        views(r@) == trim_each(views(ps@)),
{
    let mut r: Vec<Vec<char>> = Vec::new();
    let mut i: usize = 0;
    while i < ps.len()
        invariant
            i <= ps@.len(),
            r@.len() == i,
            forall|j: int| 0 <= j < i ==> #[trigger] r@[j]@ == trim(ps@[j]@),
        decreases ps.len() - i,
    {
        r.push(trim_ws(&ps[i]));
        i = i + 1;
    }
    assert(views(r@) =~= trim_each(views(ps@)));
    r
}

pub fn upper_all(ps: Vec<Vec<char>>) -> (r: Vec<Vec<char>>)
    ensures
        views(r@) == upper_each(views(ps@)),
        forall|j: int| 0 <= j < r@.len() && ps@[j]@.len() > 0 ==> (#[trigger] r@[j]@).len() > 0,
{
    let mut r: Vec<Vec<char>> = Vec::new();
    let mut i: usize = 0;
    while i < ps.len()
        invariant
            i <= ps@.len(),
            r@.len() == i,
            forall|j: int| 0 <= j < i ==> #[trigger] r@[j]@ == upper_case(ps@[j]@),
            forall|j: int| 0 <= j < i && ps@[j]@.len() > 0 ==> (#[trigger] r@[j]@).len() > 0,
        decreases ps.len() - i,
    {
        r.push(to_uppercase(&ps[i]));
        i = i + 1;
    }
    assert(views(r@) =~= upper_each(views(ps@)));
    r
}

/// Whether two character sequences are equal.
pub fn chars_eq(a: &[char], b: &[char]) -> (r: bool)
    ensures
        r == (a@ == b@),
{
    if a.len() != b.len() {
        return false;
    }
    let mut i: usize = 0;
    while i < a.len()
        invariant
            i <= a@.len() == b@.len(),
            forall|k: int| 0 <= k < i ==> a@[k] == b@[k],
        decreases a.len() - i,
    {
        if a[i] != b[i] {
            return false;
        }
        i = i + 1;
    }
    assert(a@ =~= b@);
    true
}


// ---------------------------------------------------------------------------
// Lists written with `, ` and read back
// ---------------------------------------------------------------------------

/// `s` holds no separator.
pub open spec fn no_separator(s: Seq<char>, sep: Separator) -> bool {
    forall|i: int| 0 <= i < s.len() ==> !is_separator(sep, #[trigger] s[i])
}

/// Splitting `s + t`, where `t` holds no separator, extends the last piece
/// of `s` by `t`.
pub proof fn lemma_split_append_plain(s: Seq<char>, t: Seq<char>, sep: Separator)
    requires
        no_separator(t, sep),
    ensures
        split_on(s + t, sep) == split_on(s, sep).update(
            split_on(s, sep).len() - 1,
            split_on(s, sep).last() + t,
        ),
    decreases t.len(),
{
    lemma_split_on_nonempty(s, sep);
    let p = split_on(s, sep);
    if t.len() == 0 {
        assert(s + t =~= s);
        assert(p.last() + t =~= p.last());
        assert(p.update(p.len() - 1, p.last() + t) =~= p);
    } else {
        let t1 = t.drop_last();
        assert(no_separator(t1, sep));
        lemma_split_append_plain(s, t1, sep);
        assert((s + t).drop_last() =~= s + t1);
        assert((s + t).last() == t.last());
        lemma_split_on_nonempty(s + t1, sep);
        let q = split_on(s + t1, sep);
        assert(q =~= p.update(p.len() - 1, p.last() + t1));
        assert(q.last() == p.last() + t1);
        assert(q.last().push(t.last()) =~= p.last() + t);
        assert(q.update(q.len() - 1, q.last().push(t.last())) =~= p.update(
            p.len() - 1,
            p.last() + t,
        ));
    }
}

/// Splitting `s` then one separator adds an empty last piece.
pub proof fn lemma_split_push_separator(s: Seq<char>, c: char, sep: Separator)
    requires
        is_separator(sep, c),
    ensures
        split_on(s.push(c), sep) == split_on(s, sep).push(Seq::<char>::empty()),
{
    assert(s.push(c).drop_last() =~= s);
}

/// The pieces of a split hold no separator.
pub proof fn lemma_split_pieces_plain(s: Seq<char>, sep: Separator)
    ensures
        forall|i: int|
            0 <= i < split_on(s, sep).len() ==> no_separator(#[trigger] split_on(s, sep)[i], sep),
    decreases s.len(),
{
    if s.len() > 0 {
        lemma_split_pieces_plain(s.drop_last(), sep);
        lemma_split_on_nonempty(s.drop_last(), sep);
        let prev = split_on(s.drop_last(), sep);
        if !is_separator(sep, s.last()) {
            let l = prev.last().push(s.last());
            assert(no_separator(prev[prev.len() - 1], sep));
            assert(no_separator(l, sep));
        }
    }
}

/// `s` has no white space at either end.
pub open spec fn is_trimmed(s: Seq<char>) -> bool {
    s.len() == 0 || (!is_ws(s[0]) && !is_ws(s.last()))
}

/// What trimming white space keeps of `s` is a part of `s` with no white
/// space at either end.
pub proof fn lemma_trim_start_part(s: Seq<char>)
    ensures
        ({
            let t = trim_start_by(s, TrimClass::Whitespace);
            &&& t.len() <= s.len()
            &&& t =~= s.skip(s.len() - t.len())
            &&& t.len() > 0 ==> !is_ws(t[0])
        }),
    decreases s.len(),
{
    if s.len() > 0 && is_ws(s[0]) {
        lemma_trim_start_part(s.drop_first());
        let t = trim_start_by(s, TrimClass::Whitespace);
        assert(s.drop_first().skip(s.drop_first().len() - t.len()) =~= s.skip(s.len() - t.len()));
    } else {
        assert(s.skip(0) =~= s);
    }
}

pub proof fn lemma_trim_end_part(s: Seq<char>)
    ensures
        ({
            let t = trim_end_by(s, TrimClass::Whitespace);
            &&& t.len() <= s.len()
            &&& t =~= s.take(t.len() as int)
            &&& t.len() > 0 ==> !is_ws(t.last())
        }),
    decreases s.len(),
{
    if s.len() > 0 && is_ws(s.last()) {
        lemma_trim_end_part(s.drop_last());
        let t = trim_end_by(s, TrimClass::Whitespace);
        assert(s.drop_last().take(t.len() as int) =~= s.take(t.len() as int));
    } else {
        assert(s.take(s.len() as int) =~= s);
    }
}

/// Trimming gives a trimmed part of `s`: every character of it is one of
/// `s`.
pub proof fn lemma_trim_part(s: Seq<char>)
    ensures
        is_trimmed(trim(s)),
        forall|j: int|
            0 <= j < trim(s).len() ==> exists|i: int| 0 <= i < s.len() && s[i] == #[trigger] trim(s)[j],
{
    let a = trim_start_by(s, TrimClass::Whitespace);
    lemma_trim_start_part(s);
    lemma_trim_end_part(a);
    let t = trim(s);
    assert(t == trim_end_by(a, TrimClass::Whitespace));
    if t.len() > 0 {
        assert(t[0] == a[0]);
    }
    let k = s.len() - a.len();
    assert forall|j: int| 0 <= j < t.len() implies exists|i: int|
        0 <= i < s.len() && s[i] == #[trigger] t[j] by {
        assert(t[j] == a[j]);
        assert(a[j] == s[k + j]);
    }
}

/// A trimmed text is its own trim.
pub proof fn lemma_trim_trimmed(s: Seq<char>)
    requires
        is_trimmed(s),
    ensures
        trim(s) == s,
{
}

/// A trimmed text after one space trims back to itself.
pub proof fn lemma_trim_after_space(s: Seq<char>)
    requires
        is_trimmed(s),
    ensures
        trim(seq![' '] + s) == s,
{
    let t = seq![' '] + s;
    assert(is_ws(' '));
    assert(t.drop_first() =~= s);
    assert(trim_start_by(t, TrimClass::Whitespace) == trim_start_by(s, TrimClass::Whitespace));
}

/// `nonempty_pieces(ps)` keeps pieces of `ps` only, each non-empty.
pub proof fn lemma_nonempty_pieces_from(ps: Seq<Seq<char>>)
    ensures
        forall|i: int|
            0 <= i < nonempty_pieces(ps).len() ==> (#[trigger] nonempty_pieces(ps)[i]).len() > 0
                && ps.contains(nonempty_pieces(ps)[i]),
    decreases ps.len(),
{
    if ps.len() > 0 {
        lemma_nonempty_pieces_from(ps.drop_last());
        let r = nonempty_pieces(ps.drop_last());
        assert forall|i: int| 0 <= i < nonempty_pieces(ps).len() implies (
        #[trigger] nonempty_pieces(ps)[i]).len() > 0 && ps.contains(nonempty_pieces(ps)[i]) by {
            if i < r.len() {
                let j = choose|j: int| 0 <= j < ps.drop_last().len() && ps.drop_last()[j] == r[i];
                assert(ps[j] == r[i]);
            } else {
                assert(ps[ps.len() - 1] == ps.last());
            }
        }
    }
}

/// A list of non-empty pieces keeps them all.
pub proof fn lemma_nonempty_pieces_all(ps: Seq<Seq<char>>)
    requires
        forall|i: int| 0 <= i < ps.len() ==> (#[trigger] ps[i]).len() > 0,
    ensures
        nonempty_pieces(ps) == ps,
    decreases ps.len(),
{
    if ps.len() > 0 {
        lemma_nonempty_pieces_all(ps.drop_last());
        assert(ps.drop_last().push(ps.last()) =~= ps);
    }
}

/// Splitting `ps` written with `, ` at the commas, when no piece holds a
/// comma, gives the first piece and each further one after a space.
pub proof fn lemma_split_join_comma(ps: Seq<Seq<char>>)
    requires
        ps.len() > 0,
        forall|i: int| 0 <= i < ps.len() ==> no_separator(#[trigger] ps[i], Separator::Char(',')),
    ensures
        split_on(join(ps, ", "@), Separator::Char(',')) == Seq::new(
            ps.len(),
            |i: int|
                if i == 0 {
                    ps[0]
                } else {
                    seq![' '] + ps[i]
                },
        ),
    decreases ps.len(),
{
    reveal_strlit(", ");
    let sep = Separator::Char(',');
    if ps.len() == 1 {
        lemma_split_append_plain(Seq::<char>::empty(), ps[0], sep);
        assert(Seq::<char>::empty() + ps[0] =~= ps[0]);
        assert(split_on(Seq::<char>::empty(), sep) =~= seq![Seq::<char>::empty()]);
        assert(Seq::<char>::empty() + ps[0] =~= ps[0]);
        assert(split_on(join(ps, ", "@), sep) =~= seq![ps[0]]);
    } else {
        let prev = ps.drop_last();
        assert(forall|i: int| 0 <= i < prev.len() ==> #[trigger] prev[i] == ps[i]);
        lemma_split_join_comma(prev);
        let jp = join(prev, ", "@);
        let t = seq![' '] + ps.last();
        assert(ps[ps.len() - 1] == ps.last());
        assert(no_separator(t, sep));
        assert(join(ps, ", "@) =~= jp.push(',') + t);
        lemma_split_push_separator(jp, ',', sep);
        lemma_split_append_plain(jp.push(','), t, sep);
        let a = split_on(jp, sep);
        let b = split_on(jp.push(','), sep);
        assert(b == a.push(Seq::<char>::empty()));
        assert(Seq::<char>::empty() + t =~= t);
        assert(split_on(join(ps, ", "@), sep) =~= Seq::new(
            ps.len(),
            |i: int|
                if i == 0 {
                    ps[0]
                } else {
                    seq![' '] + ps[i]
                },
        ));
    }
}


// ---------------------------------------------------------------------------
// Occurrences in joined and capitalised texts
// ---------------------------------------------------------------------------

/// An occurrence stays one when more text follows.
pub proof fn lemma_occurs_extend(a: Seq<char>, b: Seq<char>, p: Seq<char>, k: int)
    requires
        occurs_at(a, p, k),
    ensures
        occurs_at(a + b, p, k),
{
    assert((a + b).subrange(k, k + p.len()) =~= a.subrange(k, k + p.len()));
}

/// A text that holds `p` holds each part of `p`.
pub proof fn lemma_contains_part(s: Seq<char>, p: Seq<char>, q: Seq<char>, off: int)
    requires
        contains_seq(s, p),
        occurs_at(p, q, off),
    ensures
        contains_seq(s, q),
{
    let i = choose|i: int| occurs_at(s, p, i);
    assert(s.subrange(i + off, i + off + q.len()) =~= p.subrange(off, off + q.len()));
    assert(occurs_at(s, q, i + off));
}

/// Each piece occurs in the pieces joined.
pub proof fn lemma_join_contains(ps: Seq<Seq<char>>, sep: Seq<char>, i: int)
    requires
        0 <= i < ps.len(),
    ensures
        contains_seq(join(ps, sep), ps[i]),
    decreases ps.len(),
{
    if ps.len() == 1 {
        assert(join(ps, sep).subrange(0, ps[0].len() as int) =~= ps[0]);
        assert(occurs_at(join(ps, sep), ps[i], 0));
    } else {
        let prev = ps.drop_last();
        let jp = join(prev, sep);
        assert(join(ps, sep) == jp + sep + ps.last());
        if i == ps.len() - 1 {
            let k: int = (jp.len() + sep.len()) as int;
            assert(join(ps, sep).subrange(k, k + ps.last().len()) =~= ps.last());
            assert(occurs_at(join(ps, sep), ps[i], k));
        } else {
            lemma_join_contains(prev, sep, i);
            assert(prev[i] == ps[i]);
            let k = choose|k: int| occurs_at(jp, prev[i], k);
            lemma_occurs_extend(jp, sep + ps.last(), ps[i], k);
            assert(jp + sep + ps.last() =~= jp + (sep + ps.last()));
            assert(occurs_at(join(ps, sep), ps[i], k));
        }
    }
}

/// Pieces of ASCII text joined by an ASCII separator are ASCII.
pub proof fn lemma_join_ascii(ps: Seq<Seq<char>>, sep: Seq<char>)
    requires
        is_ascii_seq(sep),
        forall|i: int| 0 <= i < ps.len() ==> is_ascii_seq(#[trigger] ps[i]),
    ensures
        is_ascii_seq(join(ps, sep)),
    decreases ps.len(),
{
    if ps.len() > 1 {
        let prev = ps.drop_last();
        assert forall|i: int| 0 <= i < prev.len() implies is_ascii_seq(#[trigger] prev[i]) by {
            assert(prev[i] == ps[i]);
        }
        lemma_join_ascii(prev, sep);
        assert(is_ascii_seq(ps[ps.len() - 1]));
        let j = join(ps, sep);
        let jp = join(prev, sep);
        assert forall|k: int| 0 <= k < j.len() implies (j[k] as u32) < 128 by {
            if k < jp.len() {
                assert(j[k] == jp[k]);
            } else if k < jp.len() + sep.len() {
                assert(j[k] == sep[k - jp.len()]);
            } else {
                assert(j[k] == ps.last()[k - jp.len() - sep.len()]);
            }
        }
    }
}

/// The pieces of an ASCII text are ASCII.
pub proof fn lemma_split_pieces_ascii(s: Seq<char>, sep: Separator)
    requires
        is_ascii_seq(s),
    ensures
        forall|i: int| 0 <= i < split_on(s, sep).len() ==> is_ascii_seq(#[trigger] split_on(s, sep)[i]),
    decreases s.len(),
{
    if s.len() > 0 {
        let p = s.drop_last();
        assert(is_ascii_seq(p));
        lemma_split_pieces_ascii(p, sep);
        lemma_split_on_nonempty(p, sep);
        let prev = split_on(p, sep);
        assert((s.last() as u32) < 128);
        if !is_separator(sep, s.last()) {
            assert(is_ascii_seq(prev[prev.len() - 1]));
            assert(is_ascii_seq(prev.last().push(s.last())));
        } else {
            assert(is_ascii_seq(Seq::<char>::empty()));
        }
    }
}

/// Capitalising keeps an occurrence, capitalised.
pub proof fn lemma_ascii_upper_occurs(s: Seq<char>, p: Seq<char>, k: int)
    requires
        occurs_at(s, p, k),
    ensures
        occurs_at(ascii_upper(s), ascii_upper(p), k),
{
    let a = ascii_upper(s).subrange(k, k + p.len());
    assert forall|j: int| 0 <= j < p.len() implies a[j] == ascii_upper(p)[j] by {
        assert(s.subrange(k, k + p.len())[j] == p[j]);
        assert(s[k + j] == p[j]);
    }
    assert(a =~= ascii_upper(p));
}

/// The capitals of ASCII text are ASCII.
pub proof fn lemma_ascii_upper_ascii(s: Seq<char>)
    requires
        is_ascii_seq(s),
    ensures
        is_ascii_seq(ascii_upper(s)),
{
    assert forall|i: int| 0 <= i < ascii_upper(s).len() implies (ascii_upper(s)[i] as u32) < 128 by {
        assert((s[i] as u32) < 128);
    }
}

/// Pieces joined are non-empty when there is a piece and the first is
/// non-empty.
pub proof fn lemma_join_nonempty(ps: Seq<Seq<char>>, sep: Seq<char>)
    requires
        ps.len() > 0,
        ps[0].len() > 0,
    ensures
        join(ps, sep).len() > 0,
    decreases ps.len(),
{
    if ps.len() > 1 {
        assert(ps.drop_last()[0] == ps[0]);
        lemma_join_nonempty(ps.drop_last(), sep);
    }
}
} // verus!
