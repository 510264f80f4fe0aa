//! What holds of white space, letter case, substrings, UTF-16 and numerals.

use vstd::prelude::*;

#[allow(unused_imports)]
use crate::text::{
    ascii_lowered, digit_char, digits, is_white_space, lowercased, occurs_at, utf16_lossy,
};
use crate::text::{
    blank, contains, contains_in_ascii_lowercase, contains_in_lowercase, decimal,
    same_ignoring_ascii_case, text_of_utf16,
};

verus! {

/// The number that decimal digits stand for.
pub open spec fn number(s: Seq<char>) -> int
    decreases s.len(),
{
    if s.len() == 0 {
        0
    } else {
        10 * number(s.drop_last()) + (s.last() as int - '0' as int)
    }
}

/// `s` is made of decimal digits.
pub open spec fn all_digits(s: Seq<char>) -> bool {
    forall|i: int| 0 <= i < s.len() ==> '0' <= #[trigger] s[i] <= '9'
}

/// `s` is a number in decimal without a needless zero in front.
pub open spec fn is_numeral(s: Seq<char>) -> bool {
    &&& s.len() > 0
    &&& all_digits(s)
    &&& s[0] == '0' ==> s.len() == 1
}

/// The digits of a number stand for it, and have no more zeros in front than
/// are asked for.
pub proof fn lemma_digits(n: nat, width: nat)
    ensures
        number(digits(n, width)) == n,
        all_digits(digits(n, width)),
        digits(n, width).len() >= 1,
        digits(n, width).len() >= width,
        digits(n, width)[0] == '0' ==> digits(n, width).len() == 1 || digits(n, width).len()
            == width,
    decreases n, width,
{
    let s = digits(n, width);
    if n < 10 && width <= 1 {
        assert(s.drop_last() =~= Seq::<char>::empty());
        reveal_with_fuel(number, 2);
    } else {
        let less: nat = (if width == 0 { 0 } else { width - 1 }) as nat;
        lemma_digits(n / 10, less);
        assert(s.drop_last() =~= digits(n / 10, less));
        assert(s[0] == digits(n / 10, less)[0]);
        assert forall|i: int| 0 <= i < s.len() implies '0' <= #[trigger] s[i] <= '9' by {
            if i < s.len() - 1 {
                assert(s[i] == digits(n / 10, less)[i]);
            }
        }
        if s[0] == '0' && digits(n / 10, less).len() == 1 && s.len() != width {
            assert(digits(n / 10, less).drop_last() =~= Seq::<char>::empty());
            reveal_with_fuel(number, 2);
            assert(n / 10 == 0);
        }
    }
}

/// A numeral with more digits stands for a greater number.
proof fn lemma_longer_is_greater(a: Seq<char>, b: Seq<char>)
    requires
        all_digits(a),
        is_numeral(b),
        0 < a.len() < b.len(),
    ensures
        0 <= number(a) < number(b),
    decreases b.len(),
{
    let (a1, b1) = (a.drop_last(), b.drop_last());
    assert(a.last() == a[a.len() - 1]);
    assert(b.last() == b[b.len() - 1]);
    assert forall|i: int| 0 <= i < a1.len() implies '0' <= #[trigger] a1[i] <= '9' by {
        assert(a1[i] == a[i]);
    }
    assert forall|i: int| 0 <= i < b1.len() implies '0' <= #[trigger] b1[i] <= '9' by {
        assert(b1[i] == b[i]);
    }
    assert(b1[0] == b[0]);
    if a1.len() == 0 {
        assert(number(a1) == 0);
        lemma_numeral_is_positive(b1);
    } else {
        lemma_longer_is_greater(a1, b1);
    }
}

proof fn lemma_numeral_is_positive(b: Seq<char>)
    requires
        all_digits(b),
        b.len() > 0,
        b[0] != '0',
    ensures
        number(b) > 0,
    decreases b.len(),
{
    let b1 = b.drop_last();
    assert(b.last() == b[b.len() - 1]);
    if b1.len() > 0 {
        assert forall|i: int| 0 <= i < b1.len() implies '0' <= #[trigger] b1[i] <= '9' by {
            assert(b1[i] == b[i]);
        }
        assert(b1[0] == b[0]);
        lemma_numeral_is_positive(b1);
    } else {
        assert(number(b1) == 0);
    }
}

/// As many digits that stand for the same number are the same digits.
proof fn lemma_same_number(a: Seq<char>, b: Seq<char>)
    requires
        all_digits(a),
        all_digits(b),
        a.len() == b.len(),
        number(a) == number(b),
    ensures
        a == b,
    decreases a.len(),
{
    if a.len() > 0 {
        let (a1, b1) = (a.drop_last(), b.drop_last());
        assert(a.last() == a[a.len() - 1]);
        assert(b.last() == b[b.len() - 1]);
        assert forall|i: int| 0 <= i < a1.len() implies '0' <= #[trigger] a1[i] <= '9' by {
            assert(a1[i] == a[i]);
        }
        assert forall|i: int| 0 <= i < b1.len() implies '0' <= #[trigger] b1[i] <= '9' by {
            assert(b1[i] == b[i]);
        }
        lemma_same_number(a1, b1);
        assert(a =~= a1.push(a.last()));
        assert(b =~= b1.push(b.last()));
    } else {
        assert(a =~= b);
    }
}

/// A number has one numeral.
pub proof fn law_numerals_are_unique(a: Seq<char>, b: Seq<char>)
    requires
        is_numeral(a),
        is_numeral(b),
        number(a) == number(b),
    ensures
        a == b,
{
    if a.len() < b.len() {
        lemma_longer_is_greater(a, b);
    } else if b.len() < a.len() {
        lemma_longer_is_greater(b, a);
    } else {
        lemma_same_number(a, b);
    }
}

/// A number is written as the numeral that stands for it.
pub proof fn law_decimal_is_the_numeral(n: u64, r: String)
    requires
        call_ensures(decimal, (n,), r),
    ensures
        is_numeral(r@),
        number(r@) == n,
{
    lemma_digits(n as nat, 1);
}

/// The characters of white space are these, and no others.
pub proof fn law_white_space_is_these_characters(c: char)
    ensures
        is_white_space(c) <==> seq![
            0x09u32, 0x0a, 0x0b, 0x0c, 0x0d, 0x20, 0x85, 0xa0, 0x1680, 0x2000, 0x2001, 0x2002, 0x2003,
            0x2004, 0x2005, 0x2006, 0x2007, 0x2008, 0x2009, 0x200a, 0x2028, 0x2029, 0x202f, 0x205f,
            0x3000,
        ].contains(c as u32),
{
    let spaces = seq![
        0x09u32, 0x0a, 0x0b, 0x0c, 0x0d, 0x20, 0x85, 0xa0, 0x1680, 0x2000, 0x2001, 0x2002, 0x2003,
        0x2004, 0x2005, 0x2006, 0x2007, 0x2008, 0x2009, 0x200a, 0x2028, 0x2029, 0x202f, 0x205f,
        0x3000,
    ];
    assert(spaces[0] == 0x09 && spaces[1] == 0x0a && spaces[2] == 0x0b && spaces[3] == 0x0c);
    assert(spaces[4] == 0x0d && spaces[5] == 0x20 && spaces[6] == 0x85 && spaces[7] == 0xa0);
    assert(spaces[8] == 0x1680 && spaces[9] == 0x2000 && spaces[10] == 0x2001);
    assert(spaces[11] == 0x2002 && spaces[12] == 0x2003 && spaces[13] == 0x2004);
    assert(spaces[14] == 0x2005 && spaces[15] == 0x2006 && spaces[16] == 0x2007);
    assert(spaces[17] == 0x2008 && spaces[18] == 0x2009 && spaces[19] == 0x200a);
    assert(spaces[20] == 0x2028 && spaces[21] == 0x2029 && spaces[22] == 0x202f);
    assert(spaces[23] == 0x205f && spaces[24] == 0x3000);
}

/// Text is blank where each of its characters is white space: nothing is, and
/// two texts together are blank where both are.
pub proof fn law_blank_text_is_white_space(s: &str, b: bool, rest: &str, c: bool, all: &str, d: bool)
    requires
        call_ensures(blank, (s,), b),
        call_ensures(blank, (rest,), c),
        call_ensures(blank, (all,), d),
        all@ == s@ + rest@,
    ensures
        !b <==> exists|i: int| 0 <= i < s@.len() && !is_white_space(#[trigger] s@[i]),
        s@.len() == 0 ==> b,
        d == (b && c),
{
    assert(forall|i: int| 0 <= i < s@.len() ==> all@[i] == s@[i]);
    assert(forall|i: int| 0 <= i < rest@.len() ==> rest@[i] == #[trigger] all@[s@.len() + i]);
    if b && c {
        assert forall|i: int| 0 <= i < all@.len() implies is_white_space(#[trigger] all@[i]) by {
            if i >= s@.len() {
                assert(all@[i] == rest@[i - s@.len()]);
            }
        }
    }
    if d {
        assert forall|i: int| 0 <= i < s@.len() implies is_white_space(#[trigger] s@[i]) by {
            assert(all@[i] == s@[i]);
        }
        assert forall|i: int| 0 <= i < rest@.len() implies is_white_space(#[trigger] rest@[i]) by {
            assert(rest@[i] == all@[s@.len() + i]);
        }
    }
}

/// `small` is `c`, made small where it is a capital letter of ASCII.
pub open spec fn is_small_of(small: char, c: char) -> bool {
    if 0x41 <= c as int <= 0x5a {
        small as int == c as int + 0x20
    } else {
        small == c
    }
}

/// `a` and `b` are the same character but for the case of an ASCII letter.
pub open spec fn same_letter(a: char, b: char) -> bool {
    ||| a == b
    ||| is_small_of(a, b)
    ||| is_small_of(b, a)
}

/// Two texts are the same but for case where they are equally long and each
/// character of one is that of the other but for its case.
pub proof fn law_same_text_but_for_case(a: &str, b: &str, r: bool)
    requires
        call_ensures(same_ignoring_ascii_case, (a, b), r),
    ensures
        r <==> a@.len() == b@.len() && forall|i: int|
            0 <= i < a@.len() ==> same_letter(#[trigger] a@[i], b@[i]),
{
    let (x, y) = (ascii_lowered(a@), ascii_lowered(b@));
    if r {
        assert(x.len() == y.len());
        assert forall|i: int| 0 <= i < a@.len() implies same_letter(#[trigger] a@[i], b@[i]) by {
            assert(x[i] == y[i]);
        }
    }
    if a@.len() == b@.len() && forall|i: int|
        0 <= i < a@.len() ==> same_letter(#[trigger] a@[i], b@[i]) {
        assert forall|i: int| 0 <= i < x.len() implies x[i] == y[i] by {
            assert(same_letter(a@[i], b@[i]));
        }
        assert(x =~= y);
    }
}

/// `part` can be read in `whole` character by character.
pub open spec fn reads_in(whole: Seq<char>, part: Seq<char>) -> bool {
    exists|at: int| #[trigger] reads_at(whole, part, at)
}

/// `part` can be read in `whole` from `at` on.
pub open spec fn reads_at(whole: Seq<char>, part: Seq<char>, at: int) -> bool {
    &&& 0 <= at
    &&& at + part.len() <= whole.len()
    &&& forall|k: int| 0 <= k < part.len() ==> whole[at + k] == #[trigger] part[k]
}

/// `part` can be read in `whole` from `at` on, with the ASCII letters of
/// `whole` made small.
pub open spec fn reads_small_at(whole: Seq<char>, part: Seq<char>, at: int) -> bool {
    &&& 0 <= at
    &&& at + part.len() <= whole.len()
    &&& forall|k: int| 0 <= k < part.len() ==> is_small_of(#[trigger] part[k], whole[at + k])
}

/// `part` can be read in `whole` with the ASCII letters of `whole` made small.
pub open spec fn reads_small_in(whole: Seq<char>, part: Seq<char>) -> bool {
    exists|at: int| #[trigger] reads_small_at(whole, part, at)
}

/// To occur in a text is to be readable there.
pub proof fn lemma_occurs_is_reads(whole: Seq<char>, part: Seq<char>)
    ensures
        crate::text::occurs_in(whole, part) <==> reads_in(whole, part),
{
    if crate::text::occurs_in(whole, part) {
        let at = choose|at: int| occurs_at(whole, part, at);
        let there = whole.subrange(at, at + part.len());
        assert forall|k: int| 0 <= k < part.len() implies whole[at + k] == #[trigger] part[k] by {
            assert(there[k] == whole[at + k]);
        }
        assert(reads_at(whole, part, at));
    }
    if reads_in(whole, part) {
        let at = choose|at: int| reads_at(whole, part, at);
        assert(whole.subrange(at, at + part.len()) =~= part);
        assert(occurs_at(whole, part, at));
    }
}

/// To occur in a text made small is to be readable there made small.
pub proof fn lemma_lowered_reads_small(whole: Seq<char>, part: Seq<char>)
    ensures
        crate::text::occurs_in(ascii_lowered(whole), part) <==> reads_small_in(whole, part),
{
    let lower = ascii_lowered(whole);
    lemma_occurs_is_reads(lower, part);
    if reads_in(lower, part) {
        let at = choose|at: int| reads_at(lower, part, at);
        assert forall|k: int| 0 <= k < part.len() implies is_small_of(
            #[trigger] part[k],
            whole[at + k],
        ) by {
            assert(lower[at + k] == part[k]);
        }
        assert(reads_small_at(whole, part, at));
    }
    if reads_small_in(whole, part) {
        let at = choose|at: int| reads_small_at(whole, part, at);
        assert forall|k: int| 0 <= k < part.len() implies lower[at + k] == #[trigger] part[k] by {
            assert(is_small_of(part[k], whole[at + k]));
        }
        assert(reads_at(lower, part, at));
    }
}

/// A text is found in another exactly where it can be read there: as it is,
/// with the ASCII letters of the other made small, or in what lower-casing
/// makes of the other.
pub proof fn law_found_where_it_can_be_read(
    whole: &str,
    part: &str,
    as_it_is: bool,
    in_small: bool,
    in_lower: bool,
)
    requires
        call_ensures(contains, (whole, part), as_it_is),
        call_ensures(contains_in_ascii_lowercase, (whole, part), in_small),
        call_ensures(contains_in_lowercase, (whole, part), in_lower),
    ensures
        as_it_is <==> reads_in(whole@, part@),
        in_small <==> reads_small_in(whole@, part@),
        in_lower <==> reads_in(lowercased(whole@), part@),
        whole.is_ascii() ==> in_lower == in_small,
{
    lemma_occurs_is_reads(whole@, part@);
    lemma_lowered_reads_small(whole@, part@);
    lemma_occurs_is_reads(lowercased(whole@), part@);
}

/// The UTF-16 code units of a character.
pub open spec fn units_of(c: char) -> Seq<u16> {
    if (c as int) < 0x1_0000 {
        seq![c as u16]
    } else {
        seq![
            (0xd800 + (c as int - 0x1_0000) / 0x400) as u16,
            (0xdc00 + (c as int - 0x1_0000) % 0x400) as u16,
        ]
    }
}

/// The UTF-16 code units of a text.
pub open spec fn encoded(text: Seq<char>) -> Seq<u16>
    decreases text.len(),
{
    if text.len() == 0 {
        Seq::empty()
    } else {
        units_of(text[0]) + encoded(text.skip(1))
    }
}

/// Code units can be decoded piece by piece, unless the cut goes through a
/// surrogate pair.
pub proof fn law_decoding_goes_piece_by_piece(a: Seq<u16>, b: Seq<u16>)
    requires
        a.len() > 0 && b.len() > 0 ==> !(0xd800 <= a.last() <= 0xdbff && 0xdc00 <= b[0] <= 0xdfff),
    ensures
        utf16_lossy(a + b) == utf16_lossy(a) + utf16_lossy(b),
    decreases a.len(),
{
    let all = a + b;
    if a.len() == 0 {
        assert(all =~= b);
        assert(utf16_lossy(a) + utf16_lossy(b) =~= utf16_lossy(b));
    } else if a.len() >= 2 && 0xd800 <= a[0] <= 0xdbff && 0xdc00 <= a[1] <= 0xdfff {
        assert(all.skip(2) =~= a.skip(2) + b);
        assert(a.skip(2).len() > 0 ==> a.skip(2).last() == a.last());
        law_decoding_goes_piece_by_piece(a.skip(2), b);
        assert(utf16_lossy(all) =~= utf16_lossy(a) + utf16_lossy(b));
    } else {
        assert(all.skip(1) =~= a.skip(1) + b);
        assert(a.skip(1).len() > 0 ==> a.skip(1).last() == a.last());
        law_decoding_goes_piece_by_piece(a.skip(1), b);
        assert(utf16_lossy(all) =~= utf16_lossy(a) + utf16_lossy(b));
    }
}

proof fn lemma_character_is_decoded(c: char)
    ensures
        utf16_lossy(units_of(c)) == seq![c],
{
    let units = units_of(c);
    reveal_with_fuel(utf16_lossy, 2);
    if (c as int) < 0x1_0000 {
        assert(units[0] as int == c as int);
        assert(units.skip(1) =~= Seq::<u16>::empty());
    } else {
        let n = c as int - 0x1_0000;
        assert(0 <= n < 0x10_0000);
        assert(units[0] as int == 0xd800 + n / 0x400);
        assert(units[1] as int == 0xdc00 + n % 0x400);
        assert((units[0] - 0xd800) * 0x400 + (units[1] - 0xdc00) == n);
        assert(units.skip(2) =~= Seq::<u16>::empty());
        assert(crate::text::pair_char(units[0], units[1]) == c);
    }
    assert(utf16_lossy(units) =~= seq![c]);
}

/// Decoding undoes encoding, for every text.
pub proof fn law_decoding_undoes_encoding(text: Seq<char>)
    ensures
        utf16_lossy(encoded(text)) == text,
    decreases text.len(),
{
    if text.len() > 0 {
        let c = text[0];
        let first = units_of(c);
        let rest = encoded(text.skip(1));
        law_decoding_undoes_encoding(text.skip(1));
        lemma_character_is_decoded(c);
        law_decoding_goes_piece_by_piece(first, rest);
        assert(seq![c] + text.skip(1) =~= text);
    } else {
        assert(utf16_lossy(encoded(text)) =~= text);
    }
}

/// Half of a surrogate pair that is without the other half gives the
/// replacement character, and takes nothing else with it.
pub proof fn law_lone_half_is_replaced(before: Seq<u16>, half: u16, after: Seq<u16>)
    requires
        0xd800 <= half <= 0xdfff,
        before.len() > 0 && half >= 0xdc00 ==> !(0xd800 <= before.last() <= 0xdbff),
        after.len() > 0 && half < 0xdc00 ==> !(0xdc00 <= after[0] <= 0xdfff),
    ensures
        utf16_lossy(before + seq![half] + after) == utf16_lossy(before) + seq!['\u{fffd}']
            + utf16_lossy(after),
{
    reveal_with_fuel(utf16_lossy, 2);
    assert(utf16_lossy(seq![half]) =~= seq!['\u{fffd}']);
    law_decoding_goes_piece_by_piece(before, seq![half]);
    assert((before + seq![half]).last() == half);
    law_decoding_goes_piece_by_piece(before + seq![half], after);
}

/// The code units that were written give the text that they encode; what
/// follows them in the buffer does not matter.
pub proof fn law_written_units_give_the_text(
    buf: &[u16],
    other: &[u16],
    written: usize,
    text: Seq<char>,
    r: String,
    q: String,
)
    requires
        written <= buf@.len(),
        written <= other@.len(),
        forall|i: int| 0 <= i < written ==> buf@[i] == #[trigger] other@[i],
        call_ensures(text_of_utf16, (buf, written), r),
        call_ensures(text_of_utf16, (other, written), q),
    ensures
        r@ == q@,
        buf@.take(written as int) == encoded(text) ==> r@ == text,
{
    assert(buf@.take(written as int) =~= other@.take(written as int));
    law_decoding_undoes_encoding(text);
}

/// Any number of the units in a buffer can be read.
pub proof fn law_every_buffer_is_taken(buf: &[u16], written: usize)
    requires
        written <= buf@.len(),
    ensures
        call_requires(text_of_utf16, (buf, written)),
{
}

} // verus!
