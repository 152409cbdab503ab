//! Texts: numbers written out, white space, and UTF-8.
use vstd::prelude::*;
use vstd::string::*;
use vstd::utf8::*;

verus! {

/// The digit for a value below 16.
pub open spec fn digit(value: nat) -> char {
    if value < 10 {
        (('0' as nat) + value) as char
    } else {
        (('a' as nat) + (value - 10)) as char
    }
}

/// `value` in the given base: most significant digit first, lower case, no leading zeros.
pub open spec fn digits(value: nat, base: nat) -> Seq<char>
    decreases value,
{
    if base < 2 || value < base {
        seq![digit(value)]
    } else {
        proof {
            vstd::arithmetic::div_mod::lemma_div_decreases(value as int, base as int);
        }
        digits(value / base, base).push(digit(value % base))
    }
}

/// `value` in hexadecimal.
pub open spec fn hex(value: nat) -> Seq<char> {
    digits(value, 16)
}

/// `value` in decimal, with a leading minus where it is negative.
pub open spec fn decimal(value: int) -> Seq<char> {
    if value < 0 {
        seq!['-'] + digits((-value) as nat, 10)
    } else {
        digits(value as nat, 10)
    }
}

/// The characters with the Unicode property `White_Space`.
pub open spec fn is_white_space(c: char) -> bool {
    let code = c as u32;
    ||| 0x9 <= code <= 0xd
    ||| code == 0x20
    ||| code == 0x85
    ||| code == 0xa0
    ||| code == 0x1680
    ||| 0x2000 <= code <= 0x200a
    ||| code == 0x2028
    ||| code == 0x2029
    ||| code == 0x202f
    ||| code == 0x205f
    ||| code == 0x3000
}

/// `text` without the white space at its start.
pub open spec fn trim_start(text: Seq<char>) -> Seq<char>
    decreases text.len(),
{
    if text.len() > 0 && is_white_space(text.first()) {
        trim_start(text.drop_first())
    } else {
        text
    }
}

/// `text` without the white space at its end.
pub open spec fn trim_end(text: Seq<char>) -> Seq<char>
    decreases text.len(),
{
    if text.len() > 0 && is_white_space(text.last()) {
        trim_end(text.drop_last())
    } else {
        text
    }
}

/// `text` without the white space at either end.
pub open spec fn trimmed(text: Seq<char>) -> Seq<char> {
    trim_end(trim_start(text))
}

/// `str::trim`. Claimed: it takes the Unicode white space away at both ends and leaves the rest.
#[verifier::external_body]
pub(crate) fn trim(text: &str) -> (result: &str)
    ensures
        result@ == trimmed(text@),
{
    text.trim()
}

/// `std::str::Utf8Error`.
#[verifier::external_type_specification]
#[verifier::external_body]
pub struct ExUtf8Error(std::str::Utf8Error);

/// `std::str::from_utf8`. Claimed: it succeeds exactly on the bytes that are valid UTF-8, with the
/// text that they encode.
pub assume_specification<'a>[ std::str::from_utf8 ](v: &'a [u8]) -> (result: Result<
    &'a str,
    std::str::Utf8Error,
>)
    ensures
        match result {
            Ok(text) => valid_utf8(v@) && text@ == decode_utf8(v@),
            Err(_) => !valid_utf8(v@),
        },
;

/// The digit of a value below 16, as a text.
fn digit_text(value: u64) -> (result: &'static str)
    requires
        value < 16,
    ensures
        result@ == seq![digit(value as nat)],
{
    proof {
        reveal_strlit("0");
        reveal_strlit("1");
        reveal_strlit("2");
        reveal_strlit("3");
        reveal_strlit("4");
        reveal_strlit("5");
        reveal_strlit("6");
        reveal_strlit("7");
        reveal_strlit("8");
        reveal_strlit("9");
        reveal_strlit("a");
        reveal_strlit("b");
        reveal_strlit("c");
        reveal_strlit("d");
        reveal_strlit("e");
        reveal_strlit("f");
    }
    match value {
        0 => "0",
        1 => "1",
        2 => "2",
        3 => "3",
        4 => "4",
        5 => "5",
        6 => "6",
        7 => "7",
        8 => "8",
        9 => "9",
        10 => "a",
        11 => "b",
        12 => "c",
        13 => "d",
        14 => "e",
        _ => "f",
    }
}

/// Writes `value` in the given base behind what `out` holds.
fn push_digits(out: &mut String, value: u64, base: u64)
    requires
        2 <= base <= 16,
    ensures
        final(out)@ == old(out)@ + digits(value as nat, base as nat),
    decreases value,
{
    proof {
        vstd::arithmetic::div_mod::lemma_mod_bound(value as int, base as int);
    }
    if value >= base {
        proof {
            vstd::arithmetic::div_mod::lemma_div_decreases(value as int, base as int);
        }
        push_digits(out, value / base, base);
        out.append(digit_text(value % base));
    } else {
        out.append(digit_text(value));
    }
    assert(out@ =~= old(out)@ + digits(value as nat, base as nat));
}

/// Two numbers with the same digits are the same number.
pub proof fn lemma_digits_injective(a: nat, b: nat, base: nat)
    requires
        2 <= base <= 16,
        digits(a, base) == digits(b, base),
    ensures
        a == b,
    decreases a,
{
    lemma_digits_len(a, base);
    lemma_digits_len(b, base);
    if a < base {
        assert(digits(a, base)[0] == digit(a));
        assert(digits(b, base)[0] == digit(b));
        lemma_digit_injective(a, b);
    } else {
        let higher_a = digits(a / base, base);
        let higher_b = digits(b / base, base);
        assert(digits(a, base).drop_last() =~= higher_a);
        assert(digits(b, base).drop_last() =~= higher_b);
        assert(digits(a, base).last() == digit(a % base));
        assert(digits(b, base).last() == digit(b % base));
        vstd::arithmetic::div_mod::lemma_div_decreases(a as int, base as int);
        lemma_digits_injective(a / base, b / base, base);
        vstd::arithmetic::div_mod::lemma_mod_bound(a as int, base as int);
        vstd::arithmetic::div_mod::lemma_mod_bound(b as int, base as int);
        vstd::arithmetic::div_mod::lemma_fundamental_div_mod(a as int, base as int);
        vstd::arithmetic::div_mod::lemma_fundamental_div_mod(b as int, base as int);
        lemma_digit_injective(a % base, b % base);
    }
}

/// Two digits that look the same stand for the same value.
proof fn lemma_digit_injective(a: nat, b: nat)
    requires
        a < 16,
        b < 16,
        digit(a) == digit(b),
    ensures
        a == b,
{
    assert(digit(a) as nat == if a < 10 { 48 + a } else { 87 + a });
    assert(digit(b) as nat == if b < 10 { 48 + b } else { 87 + b });
}

/// A number has one digit where it is below the base, and more where it is not.
proof fn lemma_digits_len(value: nat, base: nat)
    requires
        2 <= base,
    ensures
        digits(value, base).len() >= 1,
        digits(value, base).len() == 1 <==> value < base,
    decreases value,
{
    if value >= base {
        vstd::arithmetic::div_mod::lemma_div_decreases(value as int, base as int);
        lemma_digits_len(value / base, base);
    }
}

/// Trimming takes the white space off, and nothing else.
pub proof fn lemma_trimmed(text: Seq<char>)
    ensures
        trimmed(text).len() > 0 ==> !is_white_space(trimmed(text).first()) && !is_white_space(
            trimmed(text).last(),
        ),
        exists|from: int, to: int|
            0 <= from <= to <= text.len() && trimmed(text) == #[trigger] text.subrange(from, to)
                && (forall|i: int|
                0 <= i < from || to <= i < text.len() ==> is_white_space(#[trigger] text[i])),
{
    let from = lemma_trim_start(text);
    let rest = text.skip(from);
    let to = lemma_trim_end(rest);
    assert(rest.take(to) =~= text.subrange(from, from + to));
    assert forall|i: int| 0 <= i < from || from + to <= i < text.len() implies is_white_space(
        #[trigger] text[i],
    ) by {
        if i >= from + to {
            assert(text[i] == rest[i - from]);
        }
    }
}

proof fn lemma_trim_start(text: Seq<char>) -> (from: int)
    ensures
        0 <= from <= text.len(),
        trim_start(text) == text.skip(from),
        from < text.len() ==> !is_white_space(text[from]),
        forall|i: int| 0 <= i < from ==> is_white_space(#[trigger] text[i]),
    decreases text.len(),
{
    if text.len() > 0 && is_white_space(text.first()) {
        let rest = text.drop_first();
        let inner = lemma_trim_start(rest);
        assert(rest.skip(inner) =~= text.skip(inner + 1));
        assert forall|i: int| 0 <= i < inner + 1 implies is_white_space(#[trigger] text[i]) by {
            if i > 0 {
                assert(text[i] == rest[i - 1]);
            }
        }
        inner + 1
    } else {
        assert(text.skip(0) =~= text);
        0
    }
}

proof fn lemma_trim_end(text: Seq<char>) -> (to: int)
    ensures
        0 <= to <= text.len(),
        trim_end(text) == text.take(to),
        to > 0 ==> !is_white_space(text[to - 1]),
        forall|i: int| to <= i < text.len() ==> is_white_space(#[trigger] text[i]),
    decreases text.len(),
{
    if text.len() > 0 && is_white_space(text.last()) {
        let rest = text.drop_last();
        let to = lemma_trim_end(rest);
        assert(rest.take(to) =~= text.take(to));
        assert forall|i: int| to <= i < text.len() implies is_white_space(#[trigger] text[i]) by {
            if i < text.len() - 1 {
                assert(text[i] == rest[i]);
            }
        }
        to
    } else {
        assert(text.take(text.len() as int) =~= text);
        text.len() as int
    }
}

/// Writes a number in hexadecimal.
pub fn to_hex(value: u64) -> (result: String)
    ensures
        result@ == hex(value as nat),
{
    let mut out = String::new();
    push_digits(&mut out, value, 16);
    assert(out@ =~= hex(value as nat));
    out
}

/// Writes a number in decimal.
pub fn to_decimal(value: i64) -> (result: String)
    ensures
        result@ == decimal(value as int),
{
    let mut out = String::new();
    if value < 0 {
        proof {
            reveal_strlit("-");
        }
        out.append("-");
        // The magnitude of the least `i64` does not fit in an `i64`.
        push_digits(&mut out, (-(value + 1)) as u64 + 1, 10);
    } else {
        push_digits(&mut out, value as u64, 10);
    }
    assert(out@ =~= decimal(value as int));
    out
}

} // verus!
