//! Text helpers shared by the renderers: decimal formatting, string equality
//! and path joining.

use vstd::prelude::*;

verus! {

/// The ASCII character of a decimal digit.
pub open spec fn digit_char(d: nat) -> char {
    if d == 0 { '0' }
    else if d == 1 { '1' }
    else if d == 2 { '2' }
    else if d == 3 { '3' }
    else if d == 4 { '4' }
    else if d == 5 { '5' }
    else if d == 6 { '6' }
    else if d == 7 { '7' }
    else if d == 8 { '8' }
    else { '9' }
}

/// Decimal representation of a natural number, most significant digit first,
/// without leading zeros.
pub open spec fn decimal(n: nat) -> Seq<char>
    decreases n,
{
    if n < 10 {
        seq![digit_char(n)]
    } else {
        decimal(n / 10).push(digit_char(n % 10))
    }
}

fn digit_str(d: u64) -> (s: &'static str)
    requires
        d < 10,
    ensures
        s@ == seq![digit_char(d as nat)],
{
    proof {
        reveal_strlit("0");
        reveal_strlit("1");
        reveal_strlit("2");
        reveal_strlit("3");
        reveal_strlit("4");
        reveal_strlit("5");
        reveal_strlit("6");
        reveal_strlit("7");
        reveal_strlit("8");
        reveal_strlit("9");
    }
    match d {
        0 => "0",
        1 => "1",
        2 => "2",
        3 => "3",
        4 => "4",
        5 => "5",
        6 => "6",
        7 => "7",
        8 => "8",
        _ => "9",
    }
}

/// Formats `n` in decimal, as `Display` does for unsigned integers.
pub fn decimal_text(n: u64) -> (s: String)
    ensures
        s@ == decimal(n as nat),
    decreases n,
{
    if n < 10 {
        digit_str(n).to_owned()
    } else {
        let mut s = decimal_text(n / 10);
        s.append(digit_str(n % 10));
        s
    }
}

/// Character-wise equality of two strings.
pub fn str_equal(a: &str, b: &str) -> (r: bool)
    ensures
        r == (a@ == b@),
{
    let n = a.unicode_len();
    let m = b.unicode_len();
    if n != m {
        return false;
    }
    let mut i: usize = 0;
    while i < n
        invariant
            n == a@.len(),
            m == b@.len(),
            n == m,
            i <= n,
            forall|j: int| 0 <= j < i ==> a@[j] == b@[j],
        decreases n - i,
    {
        if a.get_char(i) != b.get_char(i) {
            return false;
        }
        i = i + 1;
    }
    assert(a@ =~= b@);
    true
}

/// `needle` occurs in `hay`.
pub open spec fn contains(hay: Seq<char>, needle: Seq<char>) -> bool {
    exists|i: int| 0 <= i && i + needle.len() <= hay.len() && #[trigger] hay.subrange(i, i + needle.len()) == needle
}

/// How the target platform writes paths: `/` alone separates on Unix; on
/// Windows both `/` and `\` separate, and `\` is written between parts.
#[derive(Debug, Clone, Copy, PartialEq, Eq, Structural)]
pub enum PathStyle {
    Unix,
    Windows,
}

/// `c` separates path components in `style`.
pub open spec fn is_separator(c: char, style: PathStyle) -> bool {
    c == '/' || (style == PathStyle::Windows && c == '\\')
}

/// `p` is a bare Windows drive such as `C:`.
pub open spec fn is_bare_drive(p: Seq<char>) -> bool {
    p.len() == 2 && p[1] == ':' && (('a' <= p[0] && p[0] <= 'z') || ('A' <= p[0] && p[0] <= 'Z'))
}

/// No separator goes between `base` and a relative name: `base` is empty,
/// ends in a separator, or (on Windows) is a bare drive.
pub open spec fn needs_no_separator(base: Seq<char>, style: PathStyle) -> bool {
    base.len() == 0 || is_separator(base.last(), style) || (style == PathStyle::Windows && is_bare_drive(base))
}

/// `base` extended by the relative component `name`, as `PathBuf::join`
/// extends it on a platform with this style: the style's main separator
/// goes between them unless none is needed.
pub open spec fn joined(base: Seq<char>, name: Seq<char>, style: PathStyle) -> Seq<char> {
    if needs_no_separator(base, style) {
        base + name
    } else if style == PathStyle::Windows {
        base + seq!['\\'] + name
    } else {
        base + seq!['/'] + name
    }
}

/// `std::path::MAIN_SEPARATOR`: the main path separator of the platform the
/// program was built for. It differs between platforms, so nothing is
/// stated of it.
#[verifier::external_body]
fn main_separator() -> char {
    std::path::MAIN_SEPARATOR
}

/// The path style of the platform the program was built for: Windows where
/// the main separator is `\`, Unix elsewhere.
pub fn path_style() -> (r: PathStyle) {
    if main_separator() == '\\' {
        PathStyle::Windows
    } else {
        PathStyle::Unix
    }
}

/// Joins a relative file or directory name onto a base path.
pub fn join_path(base: &str, name: &str, style: PathStyle) -> (r: String)
    ensures
        r@ == joined(base@, name@, style),
{
    proof {
        reveal_strlit("/");
        reveal_strlit("\\");
    }
    let n = base.unicode_len();
    let mut r = base.to_owned();
    if n == 0 {
        r.append(name);
        return r;
    }
    let last = base.get_char(n - 1);
    let windows = style == PathStyle::Windows;
    let mut bare_drive = false;
    if windows && n == 2 {
        let d = base.get_char(0);
        bare_drive = base.get_char(1) == ':' && (('a' <= d && d <= 'z') || ('A' <= d && d <= 'Z'));
    }
    let separated = last == '/' || (windows && last == '\\');
    if !separated && !bare_drive {
        if windows {
            r.append("\\");
        } else {
            r.append("/");
        }
    }
    r.append(name);
    r
}

/// The value of a decimal digit character.
pub open spec fn digit_value(c: char) -> int {
    (c as int) - ('0' as int)
}

/// The number a string of decimal digits denotes.
pub open spec fn digits_value(s: Seq<char>) -> int
    decreases s.len(),
{
    if s.len() == 0 {
        0
    } else {
        digits_value(s.drop_last()) * 10 + digit_value(s.last())
    }
}

/// Every character of `s` is a decimal digit.
pub open spec fn all_digits(s: Seq<char>) -> bool {
    forall|i: int| 0 <= i < s.len() ==> '0' <= #[trigger] s[i] <= '9'
}

proof fn lemma_digit_char(d: nat)
    requires
        d < 10,
    ensures
        digit_value(digit_char(d)) == d,
        '0' <= digit_char(d) <= '9',
{
}

/// Law: the decimal text of `n` is a non-empty string of digits without a
/// leading zero (unless it is `0`) that reads back as `n`.
pub proof fn law_decimal_reads_back(n: nat)
    ensures
        decimal(n).len() > 0,
        all_digits(decimal(n)),
        digits_value(decimal(n)) == n,
        decimal(n)[0] != '0' || n == 0,
    decreases n,
{
    if n < 10 {
        lemma_digit_char(n);
        assert(decimal(n).drop_last() =~= Seq::<char>::empty());
        assert(digits_value(decimal(n)) == digits_value(Seq::<char>::empty()) * 10 + digit_value(digit_char(n)));
    } else {
        law_decimal_reads_back(n / 10);
        lemma_digit_char(n % 10);
        let d = decimal(n);
        assert(d.drop_last() =~= decimal(n / 10));
        assert(d[0] == decimal(n / 10)[0]);
        assert(d.last() == digit_char(n % 10));
        assert(digits_value(d) == digits_value(decimal(n / 10)) * 10 + digit_value(digit_char(n % 10)));
        assert((n / 10) * 10 + n % 10 == n) by (nonlinear_arith);
        assert(all_digits(d)) by {
            assert forall|i: int| 0 <= i < d.len() implies '0' <= #[trigger] d[i] <= '9' by {
                if i < d.len() - 1 {
                    assert(d[i] == decimal(n / 10)[i]);
                }
            }
        }
    }
}

/// Law: joining keeps the name at the end, and a non-empty base at the start.
pub proof fn law_join_keeps_parts(base: Seq<char>, name: Seq<char>, style: PathStyle)
    ensures
        joined(base, name, style).len() >= name.len(),
        joined(base, name, style).subrange(joined(base, name, style).len() - name.len(), joined(base, name, style).len() as int) == name,
        joined(base, name, style).subrange(0, base.len() as int) == base,
{
    let j = joined(base, name, style);
    assert(j.subrange(j.len() - name.len(), j.len() as int) =~= name);
    assert(j.subrange(0, base.len() as int) =~= base);
}

/// `h` ends with `t`.
pub open spec fn ends_with(h: Seq<char>, t: Seq<char>) -> bool {
    h.len() >= t.len() && h.subrange(h.len() - t.len(), h.len() as int) == t
}

/// `h` begins with `t`.
pub open spec fn starts_with(h: Seq<char>, t: Seq<char>) -> bool {
    h.len() >= t.len() && h.subrange(0, t.len() as int) == t
}

/// The character `x` does not occur in `h`.
pub open spec fn lacks_char(h: Seq<char>, x: char) -> bool {
    forall|i: int| 0 <= i < h.len() ==> h[i] != x
}

/// A text that lacks a character of `n` does not contain `n`.
pub proof fn lemma_lacks_char_not_contains(h: Seq<char>, n: Seq<char>, k: int)
    requires
        0 <= k < n.len(),
        lacks_char(h, n[k]),
    ensures
        !contains(h, n),
{
    if contains(h, n) {
        let i = choose|i: int| 0 <= i && i + n.len() <= h.len() && #[trigger] h.subrange(i, i + n.len()) == n;
        assert(h.subrange(i, i + n.len())[k] == h[i + k]);
    }
}

/// Joining two texts that lack a character gives one that lacks it.
pub proof fn lemma_lacks_char_concat(a: Seq<char>, b: Seq<char>, x: char)
    requires
        lacks_char(a, x),
        lacks_char(b, x),
    ensures
        lacks_char(a + b, x),
{
    assert forall|i: int| 0 <= i < (a + b).len() implies (a + b)[i] != x by {
        if i < a.len() {
            assert((a + b)[i] == a[i]);
        } else {
            assert((a + b)[i] == b[i - a.len()]);
        }
    }
}

/// A text contains each text that occurs in it at a known place.
pub proof fn lemma_contains_at(h: Seq<char>, n: Seq<char>, i: int)
    requires
        0 <= i,
        i + n.len() <= h.len(),
        h.subrange(i, i + n.len()) == n,
    ensures
        contains(h, n),
{
}

/// A text contains what its parts contain.
pub proof fn lemma_contains_in_part(a: Seq<char>, b: Seq<char>, c: Seq<char>, n: Seq<char>)
    requires
        contains(b, n),
    ensures
        contains(a + b + c, n),
{
    let i = choose|i: int| 0 <= i && i + n.len() <= b.len() && #[trigger] b.subrange(i, i + n.len()) == n;
    assert((a + b + c).subrange(a.len() + i, a.len() + i + n.len()) =~= b.subrange(i, i + n.len()));
    lemma_contains_at(a + b + c, n, a.len() + i);
}

} // verus!
