//! Text: blankness, letter case, substring search, UTF-16 and decimal numbers.

use vstd::prelude::*;

verus! {

/// `c` has the Unicode property `White_Space`.
pub open spec fn is_white_space(c: char) -> bool {
    let u = c as u32;
    ||| 0x09 <= u <= 0x0d
    ||| u == 0x20
    ||| u == 0x85
    ||| u == 0xa0
    ||| u == 0x1680
    ||| 0x2000 <= u <= 0x200a
    ||| u == 0x2028
    ||| u == 0x2029
    ||| u == 0x202f
    ||| u == 0x205f
    ||| u == 0x3000
}

/// Nothing is left of `s` once white space is trimmed from its ends.
pub open spec fn is_blank(s: Seq<char>) -> bool {
    forall|i: int| 0 <= i < s.len() ==> is_white_space(#[trigger] s[i])
}

/// `c` with an ASCII capital letter made small.
pub open spec fn ascii_lower(c: char) -> char {
    if 'A' <= c <= 'Z' {
        (c as u32 + 32) as char
    } else {
        c
    }
}

/// `s` with its ASCII capital letters made small.
pub open spec fn ascii_lowered(s: Seq<char>) -> Seq<char> {
    s.map_values(|c: char| ascii_lower(c))
}

/// `part` stands in `whole` at index `at`.
pub open spec fn occurs_at(whole: Seq<char>, part: Seq<char>, at: int) -> bool {
    &&& 0 <= at <= whole.len() - part.len()
    &&& whole.subrange(at, at + part.len()) == part
}

/// `part` stands somewhere in `whole`.
pub open spec fn occurs_in(whole: Seq<char>, part: Seq<char>) -> bool {
    exists|at: int| occurs_at(whole, part, at)
}

/// `u` is the first half of a surrogate pair.
pub open spec fn is_high_half(u: u16) -> bool {
    0xd800 <= u <= 0xdbff
}

/// `u` is the second half of a surrogate pair.
pub open spec fn is_low_half(u: u16) -> bool {
    0xdc00 <= u <= 0xdfff
}

/// The character that a surrogate pair stands for.
pub open spec fn pair_char(high: u16, low: u16) -> char {
    (0x1_0000 + (high - 0xd800) * 0x400 + (low - 0xdc00)) as char
}

/// The character that a code unit stands for on its own; half of a surrogate
/// pair stands for the replacement character.
pub open spec fn unit_char(u: u16) -> char {
    if is_high_half(u) || is_low_half(u) {
        '\u{fffd}'
    } else {
        u as char
    }
}

/// The text that UTF-16 code units stand for, with the replacement character
/// for every half of a surrogate pair that is without the other.
pub open spec fn utf16_lossy(units: Seq<u16>) -> Seq<char>
    decreases units.len(),
{
    if units.len() == 0 {
        Seq::empty()
    } else if units.len() >= 2 && is_high_half(units[0]) && is_low_half(units[1]) {
        seq![pair_char(units[0], units[1])] + utf16_lossy(units.skip(2))
    } else {
        seq![unit_char(units[0])] + utf16_lossy(units.skip(1))
    }
}

/// The text that `str::to_lowercase` makes of `s`.
pub uninterp spec fn lowercased(s: Seq<char>) -> Seq<char>;

/// No code unit of `units` is half of a surrogate pair.
pub open spec fn no_surrogates(units: Seq<u16>) -> bool {
    forall|i: int|
        0 <= i < units.len() ==> !is_high_half(#[trigger] units[i]) && !is_low_half(units[i])
}

/// Code units without surrogates each stand for the character with that
/// number.
pub proof fn law_plain_units_are_characters(units: Seq<u16>)
    requires
        no_surrogates(units),
    ensures
        utf16_lossy(units) == units.map_values(|u: u16| u as char),
    decreases units.len(),
{
    let chars = units.map_values(|u: u16| u as char);
    if units.len() > 0 {
        let rest = units.skip(1);
        assert forall|i: int| 0 <= i < rest.len() implies !is_high_half(#[trigger] rest[i])
            && !is_low_half(rest[i]) by {
            assert(rest[i] == units[i + 1]);
        }
        law_plain_units_are_characters(rest);
        assert(seq![unit_char(units[0])] + rest.map_values(|u: u16| u as char) =~= chars);
    } else {
        assert(utf16_lossy(units) =~= chars);
    }
}

/// `std`'s `char::is_whitespace` answers whether the character has the
/// Unicode property `White_Space`; the code points that have it are those of
/// [`is_white_space`].
pub assume_specification[ char::is_whitespace ](c: char) -> (b: bool)
    ensures
        b == is_white_space(c),
;

/// `std`'s `char::to_ascii_lowercase` maps the letters `A` to `Z` to `a` to
/// `z` and every other character to itself.
pub assume_specification[ char::to_ascii_lowercase ](c: &char) -> (r: char)
    ensures
        r == ascii_lower(*c),
;

/// `std`'s `str::to_lowercase` depends on the text alone. Text that is all
/// ASCII comes back with its capital letters made small; what other text
/// becomes follows the Unicode tables and is only named here.
pub assume_specification[ str::to_lowercase ](s: &str) -> (r: String)
    ensures
        r@ == lowercased(s@),
        s.is_ascii() ==> r@ == ascii_lowered(s@),
;

/// `std`'s `String::from_utf16_lossy` decodes UTF-16: a surrogate pair gives
/// one character, every unpaired surrogate one replacement character, and any
/// other code unit the character with its number.
pub assume_specification[ String::from_utf16_lossy ](units: &[u16]) -> (r: String)
    ensures
        r@ == utf16_lossy(units@),
;

/// The characters of `s`.
fn chars_of(s: &str) -> (chars: Vec<char>)
    ensures
        chars@ == s@,
{
    let mut chars: Vec<char> = Vec::new();
    for c in it: s.chars()
        invariant
            chars@ == it.seq().take(it.index()),
            it.seq() == s@,
    {
        chars.push(c);
    }
    chars
}

/// Whether `s` holds nothing but white space.
pub fn blank(s: &str) -> (b: bool)
    ensures
        b == is_blank(s@),
{
    for c in it: s.chars()
        invariant
            it.seq() == s@,
            forall|i: int| 0 <= i < it.index() ==> is_white_space(#[trigger] s@[i]),
    {
        if !c.is_whitespace() {
            assert(s@[it.index()] == c);
            return false;
        }
    }
    true
}

/// The characters of `s` with ASCII capital letters made small.
fn ascii_lower_chars(s: &str) -> (chars: Vec<char>)
    ensures
        chars@ == ascii_lowered(s@),
{
    let mut chars: Vec<char> = Vec::new();
    for c in it: s.chars()
        invariant
            chars@ == ascii_lowered(it.seq().take(it.index())),
            it.seq() == s@,
    {
        chars.push(c.to_ascii_lowercase());
        assert(chars@ == ascii_lowered(it.seq().take(it.index() + 1)));
    }
    assert(s@.take(s@.len() as int) == s@);
    chars
}

fn same_chars(a: &Vec<char>, b: &Vec<char>) -> (r: bool)
    ensures
        r == (a@ == b@),
{
    if a.len() != b.len() {
        return false;
    }
    assert(a@.subrange(0, a@.len() as int) =~= a@);
    occurs_here(a, b, 0)
}

fn occurs_here(whole: &Vec<char>, part: &Vec<char>, at: usize) -> (r: bool)
    requires
        at + part@.len() <= whole@.len(),
    ensures
        r == occurs_at(whole@, part@, at as int),
{
    let mut i: usize = 0;
    let end: usize = whole.len();
    while i < part.len()
        invariant
            end == whole@.len(),
            at + part@.len() <= end,
            i <= part@.len(),
            forall|k: int| 0 <= k < i ==> whole@[at + k] == #[trigger] part@[k],
        decreases part@.len() - i,
    {
        if whole[at + i] != part[i] {
            assert(whole@.subrange(at as int, at + part@.len())[i as int] == whole@[at + i]);
            return false;
        }
        i += 1;
    }
    assert(whole@.subrange(at as int, at + part@.len()) =~= part@);
    true
}

/// Whether `part` stands somewhere in `whole`.
fn contains_chars(whole: &Vec<char>, part: &Vec<char>) -> (r: bool)
    ensures
        r == occurs_in(whole@, part@),
{
    if part.len() > whole.len() {
        return false;
    }
    let last: usize = whole.len() - part.len();
    let mut at: usize = 0;
    while !occurs_here(whole, part, at)
        invariant
            last + part@.len() == whole@.len(),
            at <= last,
            forall|k: int| 0 <= k < at ==> !#[trigger] occurs_at(whole@, part@, k),
        decreases last - at,
    {
        if at == last {
            return false;
        }
        at += 1;
    }
    true
}

/// Whether `a` and `b` are the same text but for the case of ASCII letters.
pub fn same_ignoring_ascii_case(a: &str, b: &str) -> (r: bool)
    ensures
        r == (ascii_lowered(a@) == ascii_lowered(b@)),
{
    same_chars(&ascii_lower_chars(a), &ascii_lower_chars(b))
}

/// Whether `part` stands in `whole` once the ASCII letters of `whole` are
/// made small.
pub fn contains_in_ascii_lowercase(whole: &str, part: &str) -> (r: bool)
    ensures
        r == occurs_in(ascii_lowered(whole@), part@),
{
    contains_chars(&ascii_lower_chars(whole), &chars_of(part))
}

/// Whether `part` stands in `whole`.
pub fn contains(whole: &str, part: &str) -> (r: bool)
    ensures
        r == occurs_in(whole@, part@),
{
    contains_chars(&chars_of(whole), &chars_of(part))
}

/// Whether `part` stands in `whole` once `whole` is made lower case.
pub fn contains_in_lowercase(whole: &str, part: &str) -> (r: bool)
    ensures
        r == occurs_in(lowercased(whole@), part@),
        whole.is_ascii() ==> r == occurs_in(ascii_lowered(whole@), part@),
{
    let lower: String = whole.to_lowercase();
    contains(lower.as_str(), part)
}

/// The text of the first `written` code units of `buf`.
pub fn text_of_utf16(buf: &[u16], written: usize) -> (r: String)
    requires
        written <= buf@.len(),
    ensures
        r@ == utf16_lossy(buf@.take(written as int)),
{
    let units: &[u16] = vstd::slice::slice_subrange(buf, 0, written);
    assert(units@ =~= buf@.take(written as int));
    String::from_utf16_lossy(units)
}

/// The decimal digits of `n`, with zeros in front up to `width` of them.
pub open spec fn digits(n: nat, width: nat) -> Seq<char>
    decreases n, width,
{
    if n < 10 && width <= 1 {
        seq![digit_char(n)]
    } else {
        digits(n / 10, (if width == 0 { 0 } else { width - 1 }) as nat).push(digit_char(n % 10))
    }
}

/// The digit that stands for `n`.
pub open spec fn digit_char(n: nat) -> char {
    (48 + n) as char
}

/// `n` written in decimal.
pub fn decimal(n: u64) -> (r: String)
    ensures
        r@ == digits(n as nat, 1),
    decreases n,
{
    let mut r: String = if n < 10 {
        String::new()
    } else {
        decimal(n / 10)
    };
    let d: &str = digit_text((n % 10) as u32);
    r.append(d);
    assert(n < 10 ==> r@ =~= digits(n as nat, 1));
    assert(n >= 10 ==> r@ =~= digits(n as nat, 1)) by {
        reveal_with_fuel(digits, 2);
        lemma_width_none_is_one((n / 10) as nat);
    }
    r
}

/// A width of none and a width of one ask for the same digits.
proof fn lemma_width_none_is_one(n: nat)
    ensures
        digits(n, 0) == digits(n, 1),
    decreases n,
{
    if n >= 10 {
        lemma_width_none_is_one(n / 10);
    }
}

fn digit_text(d: u32) -> (r: &'static str)
    requires
        d < 10,
    ensures
        r@ == seq![digit_char(d as nat)],
{
    proof {
        reveal_strlit("0");
        reveal_strlit("1");
        reveal_strlit("2");
        reveal_strlit("3");
        reveal_strlit("4");
        reveal_strlit("5");
        reveal_strlit("6");
        reveal_strlit("7");
        reveal_strlit("8");
        reveal_strlit("9");
    }
    match d {
        0 => "0",
        1 => "1",
        2 => "2",
        3 => "3",
        4 => "4",
        5 => "5",
        6 => "6",
        7 => "7",
        8 => "8",
        _ => "9",
    }
}

} // verus!
