//! Text building blocks shared by every module: decimal rendering of
//! integers, boolean words, and the few std string and path operations the
//! library relies on.
use vstd::prelude::*;

verus! {

/// The character that spells the decimal digit `d`.
pub open spec fn digit_char(d: nat) -> char {
    if d == 0 {
        '0'
    } else if d == 1 {
        '1'
    } else if d == 2 {
        '2'
    } else if d == 3 {
        '3'
    } else if d == 4 {
        '4'
    } else if d == 5 {
        '5'
    } else if d == 6 {
        '6'
    } else if d == 7 {
        '7'
    } else if d == 8 {
        '8'
    } else {
        '9'
    }
}

/// Decimal spelling of a natural number, most significant digit first,
/// with no leading zeros.
pub open spec fn decimal(n: nat) -> Seq<char>
    decreases n,
{
    if n < 10 {
        seq![digit_char(n)]
    } else {
        decimal(n / 10).push(digit_char(n % 10))
    }
}

/// Decimal spelling of an integer, with a leading '-' when negative.
pub open spec fn signed_decimal(i: int) -> Seq<char> {
    if i < 0 {
        seq!['-'] + decimal((-i) as nat)
    } else {
        decimal(i as nat)
    }
}

/// The word that `{}` prints for a boolean.
pub open spec fn bool_text(b: bool) -> Seq<char> {
    if b {
        "true"@
    } else {
        "false"@
    }
}

/// `pattern` occurs somewhere inside `text`.
pub open spec fn contains_text(text: Seq<char>, pattern: Seq<char>) -> bool {
    exists|i: int|
        0 <= i && i + pattern.len() <= text.len() && #[trigger] text.subrange(i, i + pattern.len())
            == pattern
}

/// The texts joined with `sep` between consecutive items.
pub open spec fn joined(items: Seq<Seq<char>>, sep: Seq<char>) -> Seq<char>
    decreases items.len(),
{
    if items.len() == 0 {
        Seq::empty()
    } else if items.len() == 1 {
        items[0]
    } else {
        joined(items.drop_last(), sep) + sep + items.last()
    }
}

fn digit_text(d: u64) -> (s: &'static str)
    requires
        d < 10,
    ensures
        s@ == seq![digit_char(d as nat)],
{
    if d == 0 {
        proof {
            reveal_strlit("0");
        }
        "0"
    } else if d == 1 {
        proof {
            reveal_strlit("1");
        }
        "1"
    } else if d == 2 {
        proof {
            reveal_strlit("2");
        }
        "2"
    } else if d == 3 {
        proof {
            reveal_strlit("3");
        }
        "3"
    } else if d == 4 {
        proof {
            reveal_strlit("4");
        }
        "4"
    } else if d == 5 {
        proof {
            reveal_strlit("5");
        }
        "5"
    } else if d == 6 {
        proof {
            reveal_strlit("6");
        }
        "6"
    } else if d == 7 {
        proof {
            reveal_strlit("7");
        }
        "7"
    } else if d == 8 {
        proof {
            reveal_strlit("8");
        }
        "8"
    } else {
        proof {
            reveal_strlit("9");
        }
        "9"
    }
}

/// Renders `n` in decimal, as `{}` does.
pub fn decimal_text(n: u64) -> (s: String)
    ensures
        s@ == decimal(n as nat),
{
    let mut m: u64 = n;
    let mut acc = String::new();
    while m >= 10
        invariant
            decimal(n as nat) == decimal(m as nat) + acc@,
        decreases m,
    {
        let d: u64 = m % 10;
        let piece = String::from_str(digit_text(d));
        proof {
            assert(decimal(m as nat) == decimal((m / 10) as nat).push(digit_char((m % 10) as nat)));
            assert(decimal(m as nat) + acc@ =~= decimal((m / 10) as nat) + (piece@ + acc@));
        }
        acc = piece.concat(acc.as_str());
        m = m / 10;
    }
    let first = String::from_str(digit_text(m));
    first.concat(acc.as_str())
}

/// Renders a 128-bit count in decimal, as `{}` does.
pub fn decimal_text_wide(n: u128) -> (s: String)
    ensures
        s@ == decimal(n as nat),
{
    let mut m: u128 = n;
    let mut acc = String::new();
    while m >= 10
        invariant
            decimal(n as nat) == decimal(m as nat) + acc@,
        decreases m,
    {
        let d: u128 = m % 10;
        let piece = String::from_str(digit_text(d as u64));
        proof {
            assert(decimal(m as nat) == decimal((m / 10) as nat).push(digit_char((m % 10) as nat)));
            assert(decimal(m as nat) + acc@ =~= decimal((m / 10) as nat) + (piece@ + acc@));
        }
        acc = piece.concat(acc.as_str());
        m = m / 10;
    }
    let first = String::from_str(digit_text(m as u64));
    first.concat(acc.as_str())
}

/// Renders a signed integer in decimal, as `{}` does.
pub fn signed_text(i: i64) -> (s: String)
    ensures
        s@ == signed_decimal(i as int),
{
    if i < 0 {
        let magnitude: u64 = if i == i64::MIN {
            9223372036854775808u64
        } else {
            (-i) as u64
        };
        proof {
            reveal_strlit("-");
        }
        String::from_str("-").concat(decimal_text(magnitude).as_str())
    } else {
        decimal_text(i as u64)
    }
}

/// The word `{}` prints for a boolean.
pub fn bool_word(b: bool) -> (s: &'static str)
    ensures
        s@ == bool_text(b),
{
    if b {
        "true"
    } else {
        "false"
    }
}

/// Joins the texts with `sep` between consecutive items.
pub fn join_texts(items: &Vec<String>, sep: &str) -> (s: String)
    ensures
        s@ == joined(items.deep_view(), sep@),
{
    let mut out = String::new();
    let mut k: usize = 0;
    let ghost all = items.deep_view();
    while k < items.len()
        invariant
            k <= items.len(),
            all == items.deep_view(),
            all.len() == items.len(),
            out@ == joined(all.take(k as int), sep@),
        decreases items.len() - k,
    {
        proof {
            assert(all.take(k + 1).drop_last() =~= all.take(k as int));
            assert(all.take(k + 1).last() == items@[k as int]@);
        }
        if k == 0 {
            out.append(items[k].as_str());
            proof {
                assert(out@ =~= joined(all.take(1), sep@));
            }
        } else {
            out.append(sep);
            out.append(items[k].as_str());
        }
        k = k + 1;
    }
    proof {
        assert(all.take(items.len() as int) =~= all);
    }
    out
}

/// The text `{:?}` prints for a string: quoted, with std's escapes.
pub uninterp spec fn debug_quoted(s: Seq<char>) -> Seq<char>;

/// Calls std's `Debug` formatting of `str` (`format!("{:?}", s)`); the
/// contract only names the result, std's escaping rules are not restated.
#[verifier::external_body]
pub(crate) fn debug_text(s: &str) -> (r: String)
    ensures
        r@ == debug_quoted(s@),
{
    format!("{:?}", s)
}

/// The text of `Path::new(base).join(part)`, as `display()` prints it,
/// under the path rules of the platform the library is built for.
pub uninterp spec fn joined_path(base: Seq<char>, part: Seq<char>) -> Seq<char>;

/// Calls std's `Path::join` on `base` and `part` and renders the result
/// with `display()`. The contract names the result; std's rules for
/// separators and absolute parts are not restated here.
#[verifier::external_body]
pub(crate) fn path_join(base: &str, part: &str) -> (r: String)
    ensures
        r@ == joined_path(base@, part@),
{
    std::path::Path::new(base).join(part).display().to_string()
}

/// The ASCII lower-case form of a character; other characters stay.
pub open spec fn ascii_lower(c: char) -> char {
    if 'A' <= c && c <= 'Z' {
        ((c as u32) + 32) as char
    } else {
        c
    }
}

/// The characters Unicode gives the White_Space property, which std's
/// `char::is_whitespace` tests.
pub open spec fn is_white_space(c: char) -> bool {
    let u = c as u32;
    ||| 0x09 <= u && u <= 0x0d
    ||| u == 0x20
    ||| u == 0x85
    ||| u == 0xa0
    ||| u == 0x1680
    ||| 0x2000 <= u && u <= 0x200a
    ||| u == 0x2028
    ||| u == 0x2029
    ||| u == 0x202f
    ||| u == 0x205f
    ||| u == 0x3000
}

/// `s` without its leading white space.
pub open spec fn trim_start_ws(s: Seq<char>) -> Seq<char>
    decreases s.len(),
{
    if s.len() > 0 && is_white_space(s[0]) {
        trim_start_ws(s.drop_first())
    } else {
        s
    }
}

/// `s` without its trailing white space.
pub open spec fn trim_end_ws(s: Seq<char>) -> Seq<char>
    decreases s.len(),
{
    if s.len() > 0 && is_white_space(s.last()) {
        trim_end_ws(s.drop_last())
    } else {
        s
    }
}

/// The longest prefix of `s` without white space.
pub open spec fn word_prefix(s: Seq<char>) -> Seq<char>
    decreases s.len(),
{
    if s.len() == 0 || is_white_space(s[0]) {
        Seq::empty()
    } else {
        seq![s[0]] + word_prefix(s.drop_first())
    }
}

/// The first white-space separated word of `s`, if there is one.
pub open spec fn first_word(s: Seq<char>) -> Option<Seq<char>> {
    let rest = trim_start_ws(s);
    if rest.len() == 0 {
        None
    } else {
        Some(word_prefix(rest))
    }
}

/// The value of a string of ASCII digits.
pub open spec fn digits_value(s: Seq<char>) -> nat
    decreases s.len(),
{
    if s.len() == 0 {
        0
    } else {
        digits_value(s.drop_last()) * 10 + ((s.last() as u32) - ('0' as u32)) as nat
    }
}

pub open spec fn all_digits(s: Seq<char>) -> bool {
    forall|i: int| 0 <= i < s.len() ==> '0' <= #[trigger] s[i] && s[i] <= '9'
}

/// What `str::parse::<u64>` gives: an optional '+' followed by at least
/// one ASCII digit, with a value that fits in `u64`.
pub open spec fn parsed_u64(s: Seq<char>) -> Option<u64> {
    let digits = if s.len() > 0 && s[0] == '+' {
        s.drop_first()
    } else {
        s
    };
    if digits.len() > 0 && all_digits(digits) && digits_value(digits) <= u64::MAX {
        Some(digits_value(digits) as u64)
    } else {
        None
    }
}

/// Index of the first '\n' in `s`, or its length when there is none.
pub open spec fn newline_index(s: Seq<char>) -> int
    decreases s.len(),
{
    if s.len() == 0 {
        0
    } else if s[0] == '\n' {
        0
    } else {
        1 + newline_index(s.drop_first())
    }
}

pub proof fn lemma_newline_index_bounds(s: Seq<char>)
    ensures
        0 <= newline_index(s) <= s.len(),
        newline_index(s) < s.len() ==> s[newline_index(s)] == '\n',
    decreases s.len(),
{
    if s.len() > 0 && s[0] != '\n' {
        lemma_newline_index_bounds(s.drop_first());
    }
}

/// The lines `str::lines` yields: split at each '\n', a '\r' right before
/// a '\n' dropped, and no empty line after a final '\n'.
pub open spec fn text_lines_of(s: Seq<char>) -> Seq<Seq<char>>
    decreases s.len(),
{
    if s.len() == 0 {
        Seq::empty()
    } else {
        let i = newline_index(s);
        proof {
            lemma_newline_index_bounds(s);
        }
        if i < s.len() {
            let line = s.subrange(0, i);
            let line = if line.len() > 0 && line.last() == '\r' {
                line.drop_last()
            } else {
                line
            };
            seq![line] + text_lines_of(s.subrange(i + 1, s.len() as int))
        } else {
            seq![s]
        }
    }
}

// ---------------------------------------------------------------------------
// Character-level text operations
// ---------------------------------------------------------------------------
/// The characters of `s`, in order.
pub(crate) fn text_chars(s: &str) -> (v: Vec<char>)
    ensures
        v@ == s@,
{
    broadcast use vstd::string::axiom_spec_iter;

    let mut v: Vec<char> = Vec::new();
    for c in it: s.chars()
        invariant
            v@ == it.seq().take(it.index() as int),
    {
        v.push(c);
    }
    v
}

/// Whether `p` occurs in `t` at position `i`.
fn matches_at(t: &Vec<char>, p: &Vec<char>, i: usize) -> (r: bool)
    requires
        i + p@.len() <= t@.len(),
    ensures
        r == (t@.subrange(i as int, i + p@.len()) == p@),
{
    let mut j: usize = 0;
    while j < p.len()
        invariant
            j <= p@.len(),
            i + p@.len() <= t@.len(),
            t@.len() == t.len(),
            forall|k: int| 0 <= k < j ==> t@[i + k] == p@[k],
        decreases p.len() - j,
    {
        if t[i + j] != p[j] {
            proof {
                assert(t@.subrange(i as int, i + p@.len())[j as int] != p@[j as int]);
            }
            return false;
        }
        j = j + 1;
    }
    proof {
        assert(t@.subrange(i as int, i + p@.len()) =~= p@);
    }
    true
}

/// Whether `prefix` is a prefix of `s`.
pub(crate) fn text_starts_with(s: &str, prefix: &str) -> (r: bool)
    ensures
        r == prefix@.is_prefix_of(s@),
{
    let sv = text_chars(s);
    let pv = text_chars(prefix);
    if pv.len() > sv.len() {
        return false;
    }
    matches_at(&sv, &pv, 0)
}

/// Whether `pattern` occurs in `s`.
pub(crate) fn text_contains(s: &str, pattern: &str) -> (r: bool)
    ensures
        r == contains_text(s@, pattern@),
{
    let sv = text_chars(s);
    let pv = text_chars(pattern);
    if pv.len() > sv.len() {
        return false;
    }
    let last = sv.len() - pv.len();
    let mut i: usize = 0;
    while i <= last
        invariant
            sv@ == s@,
            pv@ == pattern@,
            last + pv@.len() == sv@.len(),
            forall|k: int| 0 <= k < i ==> #[trigger] s@.subrange(k, k + pattern@.len()) != pattern@,
        decreases last + 1 - i,
    {
        if matches_at(&sv, &pv, i) {
            return true;
        }
        if i == last {
            return false;
        }
        i = i + 1;
    }
    false
}

/// Whether the two texts are equal.
pub(crate) fn text_eq(a: &str, b: &str) -> (r: bool)
    ensures
        r == (a@ == b@),
{
    let av = text_chars(a);
    let bv = text_chars(b);
    if av.len() != bv.len() {
        return false;
    }
    let r = matches_at(&av, &bv, 0);
    proof {
        assert(a@.subrange(0, b@.len() as int) =~= a@);
    }
    r
}

/// The lower-case letter for an ASCII upper-case letter.
fn lower_letter(c: char) -> (r: &'static str)
    requires
        'A' <= c && c <= 'Z',
    ensures
        r@ == seq![ascii_lower(c)],
{
    proof {
        reveal_strlit("a");
        reveal_strlit("b");
        reveal_strlit("c");
        reveal_strlit("d");
        reveal_strlit("e");
        reveal_strlit("f");
        reveal_strlit("g");
        reveal_strlit("h");
        reveal_strlit("i");
        reveal_strlit("j");
        reveal_strlit("k");
        reveal_strlit("l");
        reveal_strlit("m");
        reveal_strlit("n");
        reveal_strlit("o");
        reveal_strlit("p");
        reveal_strlit("q");
        reveal_strlit("r");
        reveal_strlit("s");
        reveal_strlit("t");
        reveal_strlit("u");
        reveal_strlit("v");
        reveal_strlit("w");
        reveal_strlit("x");
        reveal_strlit("y");
        reveal_strlit("z");
    }
    match c {
        'A' => "a",
        'B' => "b",
        'C' => "c",
        'D' => "d",
        'E' => "e",
        'F' => "f",
        'G' => "g",
        'H' => "h",
        'I' => "i",
        'J' => "j",
        'K' => "k",
        'L' => "l",
        'M' => "m",
        'N' => "n",
        'O' => "o",
        'P' => "p",
        'Q' => "q",
        'R' => "r",
        'S' => "s",
        'T' => "t",
        'U' => "u",
        'V' => "v",
        'W' => "w",
        'X' => "x",
        'Y' => "y",
        _ => "z",
    }
}

/// `s` with each ASCII upper-case letter made lower-case.
pub(crate) fn text_ascii_lowercase(s: &str) -> (r: String)
    ensures
        r@ == s@.map_values(|c: char| ascii_lower(c)),
{
    let sv = text_chars(s);
    let mut out = String::new();
    let mut start: usize = 0;
    let mut k: usize = 0;
    while k < sv.len()
        invariant
            sv@ == s@,
            start <= k <= sv@.len(),
            out@ == s@.subrange(0, start as int).map_values(|c: char| ascii_lower(c)),
            forall|i: int| start <= i < k ==> ascii_lower(#[trigger] s@[i]) == s@[i],
        decreases sv.len() - k,
    {
        let c = sv[k];
        if 'A' <= c && c <= 'Z' {
            let run = s.substring_char(start, k);
            out.append(run);
            out.append(lower_letter(c));
            proof {
                assert(s@.subrange(0, k + 1).map_values(|c: char| ascii_lower(c)) =~= s@.subrange(
                    0,
                    start as int,
                ).map_values(|c: char| ascii_lower(c)) + s@.subrange(start as int, k as int)
                    + seq![ascii_lower(c)]);
            }
            start = k + 1;
        }
        k = k + 1;
    }
    let run = s.substring_char(start, sv.len());
    out.append(run);
    proof {
        assert(s@.map_values(|c: char| ascii_lower(c)) =~= s@.subrange(0, start as int).map_values(
            |c: char| ascii_lower(c),
        ) + s@.subrange(start as int, s@.len() as int));
    }
    out
}

/// `s` with each NUL character replaced by a space.
pub(crate) fn text_nul_to_space(s: &str) -> (r: String)
    ensures
        r@ == s@.map_values(|c: char| if c == '\0' { ' ' } else { c }),
{
    let sv = text_chars(s);
    let mut out = String::new();
    let mut start: usize = 0;
    let mut k: usize = 0;
    proof {
        reveal_strlit(" ");
    }
    while k < sv.len()
        invariant
            sv@ == s@,
            start <= k <= sv@.len(),
            out@ == s@.subrange(0, start as int).map_values(|c: char| if c == '\0' { ' ' } else { c }),
            forall|i: int| start <= i < k ==> #[trigger] s@[i] != '\0',
        decreases sv.len() - k,
    {
        if sv[k] == '\0' {
            let run = s.substring_char(start, k);
            out.append(run);
            out.append(" ");
            proof {
                reveal_strlit(" ");
                assert(s@.subrange(0, k + 1).map_values(|c: char| if c == '\0' { ' ' } else { c })
                    =~= s@.subrange(0, start as int).map_values(|c: char| if c == '\0' { ' ' } else { c })
                    + s@.subrange(start as int, k as int) + seq![' ']);
            }
            start = k + 1;
        }
        k = k + 1;
    }
    let run = s.substring_char(start, sv.len());
    out.append(run);
    proof {
        assert(s@.map_values(|c: char| if c == '\0' { ' ' } else { c }) =~= s@.subrange(
            0,
            start as int,
        ).map_values(|c: char| if c == '\0' { ' ' } else { c }) + s@.subrange(start as int, s@.len() as int));
    }
    out
}

/// The rest of `s` after `prefix`, when `s` starts with it.
pub(crate) fn text_strip_prefix(s: &str, prefix: &str) -> (r: Option<String>)
    ensures
        crate::ui::opt_view(r) == if prefix@.is_prefix_of(s@) {
            Some(s@.subrange(prefix@.len() as int, s@.len() as int))
        } else {
            None
        },
{
    if text_starts_with(s, prefix) {
        let plen = text_chars(prefix).len();
        let slen = text_chars(s).len();
        Some(String::from_str(s.substring_char(plen, slen)))
    } else {
        None
    }
}

/// Whether `c` is white space (the Unicode White_Space property).
fn is_ws(c: char) -> (r: bool)
    ensures
        r == is_white_space(c),
{
    let u = c as u32;
    (0x09 <= u && u <= 0x0d) || u == 0x20 || u == 0x85 || u == 0xa0 || u == 0x1680 || (0x2000 <= u
        && u <= 0x200a) || u == 0x2028 || u == 0x2029 || u == 0x202f || u == 0x205f || u == 0x3000
}

proof fn lemma_trim_start(s: Seq<char>, i: int)
    requires
        0 <= i <= s.len(),
        forall|k: int| 0 <= k < i ==> is_white_space(#[trigger] s[k]),
        i == s.len() || !is_white_space(s[i]),
    ensures
        trim_start_ws(s) == s.subrange(i, s.len() as int),
    decreases i,
{
    if i > 0 {
        let t = s.drop_first();
        assert forall|k: int| 0 <= k < i - 1 implies is_white_space(#[trigger] t[k]) by {
            assert(t[k] == s[k + 1]);
        }
        lemma_trim_start(t, i - 1);
        assert(t.subrange(i - 1, t.len() as int) =~= s.subrange(i, s.len() as int));
    } else {
        assert(s.subrange(0, s.len() as int) =~= s);
    }
}

proof fn lemma_trim_end(s: Seq<char>, j: int)
    requires
        0 <= j <= s.len(),
        forall|k: int| j <= k < s.len() ==> is_white_space(#[trigger] s[k]),
        j == 0 || !is_white_space(s[j - 1]),
    ensures
        trim_end_ws(s) == s.subrange(0, j),
    decreases s.len() - j,
{
    if j < s.len() {
        let t = s.drop_last();
        lemma_trim_end(t, j);
        assert(t.subrange(0, j) =~= s.subrange(0, j));
    } else {
        assert(s.subrange(0, s.len() as int) =~= s);
    }
}

proof fn lemma_word_prefix(t: Seq<char>, m: int)
    requires
        0 <= m <= t.len(),
        forall|k: int| 0 <= k < m ==> !is_white_space(#[trigger] t[k]),
        m == t.len() || is_white_space(t[m]),
    ensures
        word_prefix(t) == t.subrange(0, m),
    decreases m,
{
    if m > 0 {
        let u = t.drop_first();
        assert forall|k: int| 0 <= k < m - 1 implies !is_white_space(#[trigger] u[k]) by {
            assert(u[k] == t[k + 1]);
        }
        lemma_word_prefix(u, m - 1);
        assert(seq![t[0]] + u.subrange(0, m - 1) =~= t.subrange(0, m));
    } else {
        assert(t.subrange(0, 0) =~= Seq::<char>::empty());
    }
}

/// Index of the first character of `sv` at or after `from` that is not
/// white space, or its length.
fn skip_ws(sv: &Vec<char>, from: usize) -> (i: usize)
    requires
        from <= sv@.len(),
    ensures
        from <= i <= sv@.len(),
        forall|k: int| from <= k < i ==> is_white_space(#[trigger] sv@[k]),
        i == sv@.len() || !is_white_space(sv@[i as int]),
{
    let mut i = from;
    while i < sv.len() && is_ws(sv[i])
        invariant
            from <= i <= sv@.len(),
            forall|k: int| from <= k < i ==> is_white_space(#[trigger] sv@[k]),
        decreases sv.len() - i,
    {
        i = i + 1;
    }
    i
}

/// `s` without its leading and trailing white space, as `str::trim` gives it.
pub(crate) fn text_trim(s: &str) -> (r: String)
    ensures
        r@ == trim_end_ws(trim_start_ws(s@)),
{
    let sv = text_chars(s);
    let i = skip_ws(&sv, 0);
    let mut j = sv.len();
    while j > i && is_ws(sv[j - 1])
        invariant
            i <= j <= sv@.len(),
            forall|k: int| j <= k < sv@.len() ==> is_white_space(#[trigger] sv@[k]),
        decreases j,
    {
        j = j - 1;
    }
    proof {
        lemma_trim_start(s@, i as int);
        let t = s@.subrange(i as int, s@.len() as int);
        assert forall|k: int| j - i <= k < t.len() implies is_white_space(#[trigger] t[k]) by {
            assert(t[k] == s@[k + i]);
        }
        if j > i {
            assert(t[j - i - 1] == s@[j - 1]);
        }
        lemma_trim_end(t, j - i);
        assert(t.subrange(0, j - i) =~= s@.subrange(i as int, j as int));
    }
    String::from_str(s.substring_char(i, j))
}

/// The first white-space separated word of `s`, as
/// `str::split_whitespace` yields it first.
pub(crate) fn text_first_word(s: &str) -> (r: Option<String>)
    ensures
        crate::ui::opt_view(r) == first_word(s@),
{
    let sv = text_chars(s);
    let i = skip_ws(&sv, 0);
    proof {
        lemma_trim_start(s@, i as int);
    }
    if i == sv.len() {
        return None;
    }
    let mut k = i;
    while k < sv.len() && !is_ws(sv[k])
        invariant
            i <= k <= sv@.len(),
            forall|x: int| i <= x < k ==> !is_white_space(#[trigger] sv@[x]),
        decreases sv.len() - k,
    {
        k = k + 1;
    }
    proof {
        let t = s@.subrange(i as int, s@.len() as int);
        assert forall|x: int| 0 <= x < k - i implies !is_white_space(#[trigger] t[x]) by {
            assert(t[x] == s@[x + i]);
        }
        if k < sv@.len() {
            assert(t[k - i] == s@[k as int]);
        }
        lemma_word_prefix(t, k - i);
        assert(t.subrange(0, k - i) =~= s@.subrange(i as int, k as int));
    }
    Some(String::from_str(s.substring_char(i, k)))
}

/// A number never shrinks when digits are appended.
proof fn lemma_digits_value_prefix(s: Seq<char>, k: int)
    requires
        0 <= k <= s.len(),
        all_digits(s),
    ensures
        digits_value(s.take(k)) <= digits_value(s),
    decreases s.len() - k,
{
    if k < s.len() {
        lemma_digits_value_prefix(s, k + 1);
        let t = s.take(k + 1);
        assert(t.drop_last() =~= s.take(k));
        assert('0' <= t.last() && t.last() <= '9');
    }
    else {
        assert(s.take(k) =~= s);
    }
}

/// The number `s` spells, as `str::parse::<u64>` reads it.
pub(crate) fn text_parse_u64(s: &str) -> (r: Option<u64>)
    ensures
        r == parsed_u64(s@),
{
    let sv = text_chars(s);
    let start: usize = if sv.len() > 0 && sv[0] == '+' {
        1
    } else {
        0
    };
    let ghost digits = s@.subrange(start as int, s@.len() as int);
    proof {
        if start == 1 {
            assert(digits =~= s@.drop_first());
        } else {
            assert(digits =~= s@);
        }
    }
    if start == sv.len() {
        return None;
    }
    let mut val: u64 = 0;
    let mut k: usize = start;
    while k < sv.len()
        invariant
            start <= k <= sv@.len(),
            sv@ == s@,
            digits == s@.subrange(start as int, s@.len() as int),
            digits == (if s@.len() > 0 && s@[0] == '+' {
                s@.drop_first()
            } else {
                s@
            }),
            digits.len() > 0,
            all_digits(digits.take(k - start)),
            val == digits_value(digits.take(k - start)),
        decreases sv.len() - k,
    {
        let c = sv[k];
        proof {
            assert(digits[k - start] == c);
            assert(digits.take(k - start + 1).drop_last() =~= digits.take(k - start));
        }
        if c < '0' || c > '9' {
            proof {
                assert(!all_digits(digits));
            }
            return None;
        }
        let d = (c as u32 - '0' as u32) as u64;
        proof {
            assert(digits.take(k - start + 1).drop_last() =~= digits.take(k - start));
            assert forall|x: int| 0 <= x < k - start + 1 implies '0' <= #[trigger] digits.take(
                k - start + 1,
            )[x] && digits.take(k - start + 1)[x] <= '9' by {
                if x < k - start {
                    assert(digits.take(k - start + 1)[x] == digits.take(k - start)[x]);
                }
            }
        }
        let next = match val.checked_mul(10) {
            Some(v) => v.checked_add(d),
            None => None,
        };
        match next {
            Some(v) => {
                val = v;
            },
            None => {
                proof {
                    let t = digits.take(k - start + 1);
                    assert(t.last() == c);
                    assert(digits_value(t) == digits_value(t.drop_last()) * 10 + d);
                    assert(digits_value(t) > u64::MAX);
                    if all_digits(digits) {
                        lemma_digits_value_prefix(digits, k - start + 1);
                    }
                }
                return None;
            },
        }
        k = k + 1;
    }
    proof {
        assert(digits.take(k - start) =~= digits);
    }
    Some(val)
}

proof fn lemma_newline_index_at(s: Seq<char>, m: int)
    requires
        0 <= m <= s.len(),
        forall|x: int| 0 <= x < m ==> #[trigger] s[x] != '\n',
        m == s.len() || s[m] == '\n',
    ensures
        newline_index(s) == m,
    decreases m,
{
    if m > 0 {
        let t = s.drop_first();
        assert forall|x: int| 0 <= x < m - 1 implies #[trigger] t[x] != '\n' by {
            assert(t[x] == s[x + 1]);
        }
        lemma_newline_index_at(t, m - 1);
    }
}

/// The lines of `s`, as `str::lines` yields them; see `text_lines_of`.
pub(crate) fn text_lines(s: &str) -> (r: Vec<String>)
    ensures
        r.deep_view() == text_lines_of(s@),
{
    let sv = text_chars(s);
    let mut out: Vec<String> = Vec::new();
    let mut start: usize = 0;
    let mut k: usize = 0;
    proof {
        assert(s@.subrange(0, s@.len() as int) =~= s@);
    }
    while k < sv.len()
        invariant
            sv@ == s@,
            start <= k <= sv@.len(),
            forall|x: int| start <= x < k ==> #[trigger] s@[x] != '\n',
            text_lines_of(s@) == out.deep_view() + text_lines_of(
                s@.subrange(start as int, s@.len() as int),
            ),
        decreases sv.len() - k,
    {
        if sv[k] == '\n' {
            let end: usize = if k > start && sv[k - 1] == '\r' {
                k - 1
            } else {
                k
            };
            let line = String::from_str(s.substring_char(start, end));
            let ghost rest = s@.subrange(start as int, s@.len() as int);
            proof {
                let m = k - start;
                assert forall|x: int| 0 <= x < m implies #[trigger] rest[x] != '\n' by {
                    assert(rest[x] == s@[x + start]);
                }
                assert(rest[m] == s@[k as int]);
                lemma_newline_index_at(rest, m);
                assert(rest.subrange(m + 1, rest.len() as int) =~= s@.subrange(
                    k + 1,
                    s@.len() as int,
                ));
                let l = rest.subrange(0, m);
                if m > 0 {
                    assert(l.last() == s@[k - 1]);
                    assert(l.drop_last() =~= s@.subrange(start as int, k - 1));
                }
                assert(l =~= s@.subrange(start as int, k as int));
            }
            let ghost before = out.deep_view();
            out.push(line);
            proof {
                assert(out.deep_view() =~= before.push(line@));
                assert(before + text_lines_of(rest) =~= out.deep_view() + text_lines_of(
                    s@.subrange(k + 1, s@.len() as int),
                ));
            }
            start = k + 1;
        }
        k = k + 1;
    }
    if start < sv.len() {
        let ghost rest = s@.subrange(start as int, s@.len() as int);
        proof {
            assert forall|x: int| 0 <= x < rest.len() implies #[trigger] rest[x] != '\n' by {
                assert(rest[x] == s@[x + start]);
            }
            lemma_newline_index_at(rest, rest.len() as int);
        }
        let ghost before = out.deep_view();
        out.push(String::from_str(s.substring_char(start, sv.len())));
        proof {
            assert(out.deep_view() =~= before + text_lines_of(rest));
        }
    } else {
        proof {
            assert(out.deep_view() + text_lines_of(s@.subrange(start as int, s@.len() as int))
                =~= out.deep_view());
        }
    }
    out
}

} // verus!
