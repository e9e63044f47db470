//! Text that the updater renders or compares: numbers, digests, trimmed output.

use vstd::arithmetic::div_mod::lemma_div_denominator;
use vstd::arithmetic::power::{lemma_pow0, lemma_pow1, lemma_pow_adds, lemma_pow_positive, pow};
use vstd::prelude::*;
use vstd::utf8::{decode_utf8, valid_utf8};

verus! {

/// `str` equality, the `==` of `std`: two string slices are equal when they hold
/// the same characters.
pub assume_specification[ <str as PartialEq>::eq ](s: &str, other: &str) -> (res: bool)
    ensures
        res == (s@ == other@),
;

/// `String::push` of `std` appends the character at the end.
pub assume_specification[ String::push ](s: &mut String, c: char)
    ensures
        final(s)@ == old(s)@.push(c),
;

/// `str::trim` of `std` removes the leading and the trailing characters that have
/// the Unicode property `White_Space`.
pub assume_specification[ str::trim ](s: &str) -> (res: &str)
    ensures
        res@ == trimmed(s@),
;

/// What `String::from_utf8_lossy` makes of the bytes.
pub uninterp spec fn utf8_lossy(bytes: Seq<u8>) -> Seq<char>;

/// `String::from_utf8_lossy` of `std`. Valid UTF-8 is decoded as it stands; of
/// other bytes the result is only named.
#[verifier::external_body]
pub(crate) fn lossy_text(bytes: &[u8]) -> (res: String)
    ensures
        res@ == utf8_lossy(bytes@),
        valid_utf8(bytes@) ==> res@ == decode_utf8(bytes@),
{
    String::from_utf8_lossy(bytes).into_owned()
}

/// The characters with the Unicode property `White_Space`.
pub open spec fn white_space(c: char) -> bool {
    let u = c as u32;
    ||| 0x09 <= u <= 0x0d
    ||| u == 0x20
    ||| u == 0x85
    ||| u == 0xa0
    ||| u == 0x1680
    ||| 0x2000 <= u <= 0x200a
    ||| u == 0x2028
    ||| u == 0x2029
    ||| u == 0x202f
    ||| u == 0x205f
    ||| u == 0x3000
}

/// The text without its leading white space.
pub open spec fn trimmed_start(s: Seq<char>) -> Seq<char>
    decreases s.len(),
{
    if s.len() > 0 && white_space(s[0]) {
        trimmed_start(s.drop_first())
    } else {
        s
    }
}

/// The text without its trailing white space.
pub open spec fn trimmed_end(s: Seq<char>) -> Seq<char>
    decreases s.len(),
{
    if s.len() > 0 && white_space(s.last()) {
        trimmed_end(s.drop_last())
    } else {
        s
    }
}

/// The text without white space at either end.
pub open spec fn trimmed(s: Seq<char>) -> Seq<char> {
    trimmed_end(trimmed_start(s))
}

/// The first text followed by the second.
pub(crate) fn joined(first: &str, second: &str) -> (res: String)
    ensures
        res@ == first@ + second@,
{
    let mut text = first.to_owned();
    text.append(second);
    text
}

/// The decimal digit for a value below ten.
pub open spec fn digit_char(d: nat) -> char {
    (48 + d) as char
}

/// The decimal numeral of a number, without leading zeros.
pub open spec fn decimal(n: nat) -> Seq<char>
    decreases n,
{
    if n < 10 {
        seq![digit_char(n)]
    } else {
        decimal(n / 10).push(digit_char(n % 10))
    }
}

fn digit_of(d: u64) -> (c: char)
    requires
        d < 10,
    ensures
        c == digit_char(d as nat),
{
    (48 + d as u8) as char
}

/// The decimal numeral of a number.
pub fn decimal_text(n: u64) -> (res: String)
    ensures
        res@ == decimal(n as nat),
    decreases n,
{
    if n < 10 {
        let mut text = String::new();
        text.push(digit_of(n));
        assert(text@ =~= decimal(n as nat));
        text
    } else {
        let mut text = decimal_text(n / 10);
        text.push(digit_of(n % 10));
        text
    }
}

/// The lower-case hexadecimal digit for a value below sixteen.
pub open spec fn hex_char(d: nat) -> char {
    if d < 10 {
        (48 + d) as char
    } else {
        (87 + d) as char
    }
}

/// Two lower-case hexadecimal digits for each byte, the high half first.
pub open spec fn hex(bytes: Seq<u8>) -> Seq<char>
    decreases bytes.len(),
{
    if bytes.len() == 0 {
        seq![]
    } else {
        hex(bytes.drop_last()) + seq![
            hex_char((bytes.last() / 16) as nat),
            hex_char((bytes.last() % 16) as nat),
        ]
    }
}

fn hex_digit(d: u8) -> (c: char)
    requires
        d < 16,
    ensures
        c == hex_char(d as nat),
{
    if d < 10 {
        (48 + d) as char
    } else {
        (87 + d) as char
    }
}

/// The bytes as lower-case hexadecimal text, two digits for each byte.
pub fn hex_text(bytes: &[u8]) -> (res: String)
    ensures
        res@ == hex(bytes@),
{
    let mut text = String::new();
    let mut i: usize = 0;
    assert(bytes@.take(0) =~= seq![]);
    while i < bytes.len()
        invariant
            i <= bytes.len(),
            text@ == hex(bytes@.take(i as int)),
        decreases bytes.len() - i,
    {
        let byte: u8 = bytes[i];
        let ghost before = text@;
        text.push(hex_digit(byte / 16));
        text.push(hex_digit(byte % 16));
        assert(bytes@.take(i + 1).drop_last() =~= bytes@.take(i as int));
        assert(text@ =~= before + seq![
            hex_char((byte / 16) as nat),
            hex_char((byte % 16) as nat),
        ]);
        i = i + 1;
    }
    assert(bytes@.take(i as int) =~= bytes@);
    text
}

/// A digit is a lower-case hexadecimal one.
pub open spec fn is_hex_char(c: char) -> bool {
    '0' <= c <= '9' || 'a' <= c <= 'f'
}

/// Hexadecimal text holds two characters for each byte, all of them lower-case
/// hexadecimal digits.
pub proof fn law_hex_shape(bytes: Seq<u8>)
    ensures
        hex(bytes).len() == 2 * bytes.len(),
        forall|i: int| 0 <= i < hex(bytes).len() ==> is_hex_char(#[trigger] hex(bytes)[i]),
    decreases bytes.len(),
{
    if bytes.len() > 0 {
        law_hex_shape(bytes.drop_last());
    }
}

/// Two byte strings with the same hexadecimal text are the same.
pub proof fn law_hex_injective(a: Seq<u8>, b: Seq<u8>)
    requires
        hex(a) == hex(b),
    ensures
        a == b,
    decreases a.len(),
{
    law_hex_shape(a);
    law_hex_shape(b);
    if a.len() > 0 {
        let (x, y) = (a.last(), b.last());
        let (ha, hb) = (hex(a.drop_last()), hex(b.drop_last()));
        law_hex_shape(a.drop_last());
        law_hex_shape(b.drop_last());
        assert(ha =~= hex(a).take(ha.len() as int));
        assert(hb =~= hex(b).take(hb.len() as int));
        law_hex_injective(a.drop_last(), b.drop_last());
        assert(hex(a)[hex(a).len() - 2] == hex_char((x / 16) as nat));
        assert(hex(b)[hex(b).len() - 2] == hex_char((y / 16) as nat));
        assert(hex(a)[hex(a).len() - 1] == hex_char((x % 16) as nat));
        assert(hex(b)[hex(b).len() - 1] == hex_char((y % 16) as nat));
        assert(x / 16 == y / 16 && x % 16 == y % 16);
        assert(a =~= a.drop_last().push(x));
        assert(b =~= b.drop_last().push(y));
    } else {
        assert(a =~= b);
    }
}

/// The value of a lower-case hexadecimal digit.
pub open spec fn digit_value(c: char) -> int {
    if '0' <= c <= '9' {
        c as int - '0' as int
    } else {
        c as int - 'a' as int + 10
    }
}

/// Hexadecimal text reads back as the bytes: of the two digits for each byte the
/// first counts sixteen times, the second once.
pub proof fn law_hex_reads_back(bytes: Seq<u8>)
    ensures
        hex(bytes).len() == 2 * bytes.len(),
        forall|i: int|
            0 <= i < bytes.len() ==> digit_value(hex(bytes)[2 * i]) * 16 + digit_value(
                hex(bytes)[2 * i + 1],
            ) == #[trigger] bytes[i],
    decreases bytes.len(),
{
    law_hex_shape(bytes);
    if bytes.len() > 0 {
        let rest = bytes.drop_last();
        law_hex_shape(rest);
        law_hex_reads_back(rest);
        assert forall|i: int| 0 <= i < bytes.len() implies digit_value(hex(bytes)[2 * i]) * 16
            + digit_value(hex(bytes)[2 * i + 1]) == #[trigger] bytes[i] by {
            if i < rest.len() {
                assert(rest[i] == bytes[i]);
                assert(hex(bytes)[2 * i] == hex(rest)[2 * i]);
                assert(hex(bytes)[2 * i + 1] == hex(rest)[2 * i + 1]);
            } else {
                assert(bytes[i] == bytes.last());
            }
        }
    }
}

/// Each character of a decimal numeral is the digit of the number at its place, the
/// numeral has as many characters as the number has places, and it starts with a
/// zero for the number zero alone.
pub proof fn law_decimal_digits(n: nat)
    ensures
        ({
            let text = decimal(n);
            &&& text.len() > 0
            &&& n < pow(10, text.len())
            &&& text[0] == '0' ==> n == 0
            &&& n == 0 ==> text.len() == 1
            &&& forall|i: int|
                0 <= i < text.len() ==> '0' <= #[trigger] text[i] <= '9' && text[i] as int
                    - '0' as int == n as int / pow(10, (text.len() - 1 - i) as nat) % 10
        }),
    decreases n,
{
    let text = decimal(n);
    lemma_pow0(10);
    lemma_pow1(10);
    if n >= 10 {
        let rest = decimal(n / 10);
        law_decimal_digits(n / 10);
        lemma_pow_adds(10, 1, rest.len());
        assert(n < pow(10, text.len()));
        assert(text[0] == rest[0]);
        assert forall|i: int| 0 <= i < text.len() implies '0' <= #[trigger] text[i] <= '9'
            && text[i] as int - '0' as int == n as int / pow(10, (text.len() - 1 - i) as nat)
            % 10 by {
            if i < rest.len() {
                let k = (rest.len() - 1 - i) as nat;
                assert(text[i] == rest[i]);
                lemma_pow_adds(10, 1, k);
                lemma_pow_positive(10, k);
                lemma_div_denominator(n as int, 10, pow(10, k));
            } else {
                assert(text[i] == digit_char(n % 10));
            }
        }
    }
}

/// Trimmed text is what is left of the text once white space is cut off at both
/// ends: only white space is cut off, and none is left at an end.
pub proof fn law_trimmed(s: Seq<char>) -> (cut: (int, int))
    ensures
        ({
            let (from, to) = cut;
            &&& 0 <= from <= to <= s.len()
            &&& trimmed(s) == s.subrange(from, to)
            &&& forall|i: int| 0 <= i < from ==> white_space(#[trigger] s[i])
            &&& forall|i: int| to <= i < s.len() ==> white_space(#[trigger] s[i])
            &&& from < to ==> !white_space(s[from]) && !white_space(s[to - 1])
        }),
{
    let from = lemma_trimmed_start(s);
    let rest = s.subrange(from, s.len() as int);
    let len = lemma_trimmed_end(rest);
    let to = from + len;
    assert(rest.take(len) =~= s.subrange(from, to));
    assert forall|i: int| to <= i < s.len() implies white_space(#[trigger] s[i]) by {
        assert(rest[i - from] == s[i]);
    }
    (from, to)
}

proof fn lemma_trimmed_start(s: Seq<char>) -> (from: int)
    ensures
        0 <= from <= s.len(),
        trimmed_start(s) == s.subrange(from, s.len() as int),
        forall|i: int| 0 <= i < from ==> white_space(#[trigger] s[i]),
        from < s.len() ==> !white_space(s[from]),
    decreases s.len(),
{
    if s.len() > 0 && white_space(s[0]) {
        let rest = s.drop_first();
        let from = lemma_trimmed_start(rest) + 1;
        assert(rest.subrange(from - 1, rest.len() as int) =~= s.subrange(from, s.len() as int));
        assert forall|i: int| 0 <= i < from implies white_space(#[trigger] s[i]) by {
            if i > 0 {
                assert(rest[i - 1] == s[i]);
            }
        }
        from
    } else {
        assert(s =~= s.subrange(0, s.len() as int));
        0
    }
}

proof fn lemma_trimmed_end(s: Seq<char>) -> (len: int)
    ensures
        0 <= len <= s.len(),
        trimmed_end(s) == s.take(len),
        forall|i: int| len <= i < s.len() ==> white_space(#[trigger] s[i]),
        len > 0 ==> !white_space(s[len - 1]),
    decreases s.len(),
{
    if s.len() > 0 && white_space(s.last()) {
        let rest = s.drop_last();
        let len = lemma_trimmed_end(rest);
        assert(rest.take(len) =~= s.take(len));
        assert forall|i: int| len <= i < s.len() implies white_space(#[trigger] s[i]) by {
            if i < rest.len() {
                assert(rest[i] == s[i]);
            }
        }
        len
    } else {
        assert(s =~= s.take(s.len() as int));
        s.len() as int
    }
}

} // verus!
