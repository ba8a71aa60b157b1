//! Small text helpers shared by the other modules: decimal rendering of
//! integers and the joining of directory names.

use vstd::prelude::*;

verus! {

/// The character that renders the decimal digit `d`.
pub open spec fn digit_char(d: nat) -> char {
    if d == 0 {
        '0'
    } else if d == 1 {
        '1'
    } else if d == 2 {
        '2'
    } else if d == 3 {
        '3'
    } else if d == 4 {
        '4'
    } else if d == 5 {
        '5'
    } else if d == 6 {
        '6'
    } else if d == 7 {
        '7'
    } else if d == 8 {
        '8'
    } else {
        '9'
    }
}

/// The decimal rendering of `n`, without leading zeros.
pub open spec fn decimal(n: nat) -> Seq<char>
    decreases n,
{
    if n < 10 {
        seq![digit_char(n)]
    } else {
        decimal(n / 10).push(digit_char(n % 10))
    }
}

/// The rendering of `n`, which is below 100, as exactly two digits.
pub open spec fn two_digits(n: nat) -> Seq<char> {
    seq![digit_char(n / 10), digit_char(n % 10)]
}

/// The one-character text of a decimal digit.
pub fn digit_text(d: u8) -> (r: &'static str)
    requires
        d < 10,
    ensures
        r@ == seq![digit_char(d as nat)],
{
    proof {
        reveal_strlit("0");
        reveal_strlit("1");
        reveal_strlit("2");
        reveal_strlit("3");
        reveal_strlit("4");
        reveal_strlit("5");
        reveal_strlit("6");
        reveal_strlit("7");
        reveal_strlit("8");
        reveal_strlit("9");
    }
    let r = if d == 0 {
        "0"
    } else if d == 1 {
        "1"
    } else if d == 2 {
        "2"
    } else if d == 3 {
        "3"
    } else if d == 4 {
        "4"
    } else if d == 5 {
        "5"
    } else if d == 6 {
        "6"
    } else if d == 7 {
        "7"
    } else if d == 8 {
        "8"
    } else {
        "9"
    };
    assert(r@ =~= seq![digit_char(d as nat)]);
    r
}

/// Appends the decimal rendering of `n` to `out`.
pub fn push_decimal(out: &mut String, n: u64)
    ensures
        final(out)@ == old(out)@ + decimal(n as nat),
    decreases n,
{
    if n >= 10 {
        push_decimal(out, n / 10);
    }
    let d: u8 = (n % 10) as u8;
    out.append(digit_text(d));
    assert(final(out)@ =~= old(out)@ + decimal(n as nat));
}

/// Appends `n`, which is below 100, as exactly two digits to `out`.
pub fn push_two_digits(out: &mut String, n: u8)
    requires
        n < 100,
    ensures
        final(out)@ == old(out)@ + two_digits(n as nat),
{
    out.append(digit_text(n / 10));
    out.append(digit_text(n % 10));
    assert(final(out)@ =~= old(out)@ + two_digits(n as nat));
}

/// The path of the entry `name` inside the directory `base`: the two joined
/// by one `/`, unless `base` is empty or already ends in one. A `name` that
/// begins with `/` is a path from the root and stands for itself.
pub open spec fn child_path(base: Seq<char>, name: Seq<char>) -> Seq<char> {
    if name.len() > 0 && name[0] == '/' {
        name
    } else if base.len() == 0 {
        name
    } else if base.last() == '/' {
        base + name
    } else {
        base.push('/') + name
    }
}

/// Joins a directory and an entry name as `child_path` says.
pub fn join_path(base: &str, name: &str) -> (r: String)
    ensures
        r@ == child_path(base@, name@),
{
    proof {
        reveal_strlit("/");
    }
    let n = base.unicode_len();
    if name.unicode_len() > 0 && name.get_char(0) == '/' {
        String::from_str(name)
    } else if n == 0 {
        String::from_str(name)
    } else if base.get_char(n - 1) == '/' {
        let r = String::from_str(base).concat(name);
        assert(r@ =~= child_path(base@, name@));
        r
    } else {
        let r = String::from_str(base).concat("/").concat(name);
        assert(r@ =~= child_path(base@, name@));
        r
    }
}

/// A copy of an optional text.
pub fn clone_opt_text(v: &Option<String>) -> (r: Option<String>)
    ensures
        r.deep_view() == v.deep_view(),
{
    match v {
        Some(s) => Some(s.clone()),
        None => None,
    }
}

/// A copy of a list of texts.
pub fn clone_texts(v: &Vec<String>) -> (r: Vec<String>)
    ensures
        r.deep_view() == v.deep_view(),
{
    let mut r: Vec<String> = Vec::new();
    let mut i: usize = 0;
    while i < v.len()
        invariant
            i <= v.len(),
            r.len() == i,
            forall|k: int| 0 <= k < i ==> r[k]@ == v[k]@,
        decreases v.len() - i,
    {
        r.push(v[i].clone());
        i += 1;
    }
    assert(r.deep_view() =~= v.deep_view());
    r
}

/// A copy of a list of pairs of texts.
pub fn clone_text_pairs(v: &Vec<(String, String)>) -> (r: Vec<(String, String)>)
    ensures
        r.deep_view() == v.deep_view(),
{
    let mut r: Vec<(String, String)> = Vec::new();
    let mut i: usize = 0;
    while i < v.len()
        invariant
            i <= v.len(),
            r.len() == i,
            forall|k: int| 0 <= k < i ==> r[k].deep_view() == v[k].deep_view(),
        decreases v.len() - i,
    {
        r.push((v[i].0.clone(), v[i].1.clone()));
        i += 1;
    }
    assert(r.deep_view() =~= v.deep_view());
    r
}


/// The decimal rendering of a signed number: a minus sign before the
/// magnitude of a negative one.
pub open spec fn signed_decimal(n: int) -> Seq<char> {
    if n < 0 {
        seq!['-'] + decimal((-n) as nat)
    } else {
        decimal(n as nat)
    }
}

/// Appends the decimal rendering of the signed number `n` to `out`.
pub fn push_signed_decimal(out: &mut String, n: i64)
    ensures
        final(out)@ == old(out)@ + signed_decimal(n as int),
{
    proof {
        reveal_strlit("-");
    }
    if n < 0 {
        out.append("-");
        let magnitude: u64 = if n == i64::MIN {
            0x8000_0000_0000_0000
        } else {
            (-n) as u64
        };
        push_decimal(out, magnitude);
        assert(final(out)@ =~= old(out)@ + signed_decimal(n as int));
    } else {
        push_decimal(out, n as u64);
    }
}


/// The lower-case character that renders the hexadecimal digit `d`.
pub open spec fn hex_char(d: nat) -> char {
    if d < 10 {
        digit_char(d)
    } else if d == 10 {
        'a'
    } else if d == 11 {
        'b'
    } else if d == 12 {
        'c'
    } else if d == 13 {
        'd'
    } else if d == 14 {
        'e'
    } else {
        'f'
    }
}

/// The hexadecimal digit of `n` at the place `k`, the lowest place being 0.
pub open spec fn hex_digit_at(n: nat, k: nat) -> nat
    decreases k,
{
    if k == 0 {
        n % 16
    } else {
        hex_digit_at(n / 16, (k - 1) as nat)
    }
}

/// Whether a hyphen stands before the digit at the position `p` of a
/// hyphenated identifier, counted from the left.
pub open spec fn hyphen_before(p: nat) -> bool {
    p == 8 || p == 12 || p == 16 || p == 20
}

/// The first `p` hexadecimal digits of the 128-bit number `id`, highest
/// place first, with the hyphens that the canonical form of an identifier
/// puts between its five groups.
pub open spec fn hyphenated_prefix(id: u128, p: nat) -> Seq<char>
    decreases p,
{
    if p == 0 {
        Seq::empty()
    } else {
        let before = hyphenated_prefix(id, (p - 1) as nat);
        let digit = hex_char(hex_digit_at(id as nat, (32 - p) as nat));
        if hyphen_before((p - 1) as nat) {
            before.push('-').push(digit)
        } else {
            before.push(digit)
        }
    }
}

/// The canonical text of a 128-bit identifier: its 32 lower-case
/// hexadecimal digits in groups of 8, 4, 4, 4 and 12, separated by hyphens.
pub open spec fn hyphenated_text(id: u128) -> Seq<char> {
    hyphenated_prefix(id, 32)
}

/// The lower-case form of a text by the Unicode case mappings.
pub uninterp spec fn lowercase_of(text: Seq<char>) -> Seq<char>;

/// Turns a text into lower case with `str::to_lowercase` of the standard
/// library, which follows the Unicode case mappings; the result is named,
/// not spelled out.
#[verifier::external_body]
pub(crate) fn to_lowercase(text: &str) -> (lower: String)
    ensures
        lower@ == lowercase_of(text@),
{
    text.to_lowercase()
}

/// Whether `part` stands somewhere in `whole`.
pub open spec fn has_part(whole: Seq<char>, part: Seq<char>) -> bool {
    exists|i: int|
        0 <= i && i + part.len() <= whole.len() && #[trigger] whole.subrange(
            i,
            i + part.len(),
        ) == part
}

/// Asks `str::contains` of the standard library whether `part` stands
/// somewhere in `whole`, that is, whether it matches a sub-slice of it.
#[verifier::external_body]
pub(crate) fn contains_text(whole: &str, part: &str) -> (found: bool)
    ensures
        found == has_part(whole@, part@),
{
    whole.contains(part)
}


} // verus!
