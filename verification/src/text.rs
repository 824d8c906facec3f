//! Text that the tools print and report.

use vstd::prelude::*;
use vstd::string::*;
use vstd::utf8::*;

verus! {

/// How many bytes of an address or a path a transfer line shows.
pub const LABEL_BYTES: usize = 8;

/// The decimal digit `d`, for `d` below ten.
pub open spec fn digit(d: nat) -> char {
    (48 + d) as char
}

/// The decimal numeral of `n`, without leading zeros.
pub open spec fn decimal(n: nat) -> Seq<char>
    decreases n,
{
    if n < 10 {
        seq![digit(n)]
    } else {
        decimal(n / 10).push(digit(n % 10))
    }
}

/// The first `LABEL_BYTES` bytes of `text`, read as text again.
pub open spec fn label(text: Seq<char>) -> Seq<char> {
    decode_utf8(encode_utf8(text).subrange(0, LABEL_BYTES as int))
}

/// Whether `text` can be cut behind its first `LABEL_BYTES` bytes: it has that many, and the cut
/// falls between two characters.
pub open spec fn has_label(text: Seq<char>) -> bool {
    is_char_boundary(encode_utf8(text), LABEL_BYTES as int)
}

/// The digit `d` as a text of one character.
fn digit_text(d: u64) -> (r: &'static str)
    requires
        d < 10,
    ensures
        r@ == seq![digit(d as nat)],
{
    proof {
        reveal_strlit("0");
        reveal_strlit("1");
        reveal_strlit("2");
        reveal_strlit("3");
        reveal_strlit("4");
        reveal_strlit("5");
        reveal_strlit("6");
        reveal_strlit("7");
        reveal_strlit("8");
        reveal_strlit("9");
    }
    match d {
        0 => "0",
        1 => "1",
        2 => "2",
        3 => "3",
        4 => "4",
        5 => "5",
        6 => "6",
        7 => "7",
        8 => "8",
        _ => "9",
    }
}

/// Writes `n` in decimal.
pub fn decimal_text(n: u64) -> (r: String)
    ensures
        r@ == decimal(n as nat),
    decreases n,
{
    if n < 10 {
        String::from_str(digit_text(n))
    } else {
        let head: String = decimal_text(n / 10);
        let tail: &str = digit_text(n % 10);
        proof {
            assert(decimal((n / 10) as nat) + seq![digit((n % 10) as nat)] =~= decimal(n as nat));
        }
        head.concat(tail)
    }
}

/// Cuts `text` behind its first `LABEL_BYTES` bytes.
pub fn label_of(text: &str) -> (r: &str)
    requires
        has_label(text@),
    ensures
        r@ == label(text@),
        encode_utf8(r@) == encode_utf8(text@).subrange(0, 8),
{
    let parts: (&str, &str) = text.split_at(LABEL_BYTES);
    proof {
        encode_utf8_decode_utf8(parts.0@);
    }
    parts.0
}

/// An ASCII text of eight characters or more has a label: its first eight characters.
pub proof fn label_of_ascii(text: Seq<char>)
    requires
        is_ascii_chars(text),
        text.len() >= LABEL_BYTES,
    ensures
        has_label(text),
        label(text) == text.take(LABEL_BYTES as int),
{
    let bytes = encode_utf8(text);
    let head = text.take(LABEL_BYTES as int);
    is_ascii_chars_encode_utf8(text);
    encode_utf8_valid_utf8(text);
    if text.len() == LABEL_BYTES {
        is_char_boundary_start_end_of_seq(bytes);
    } else {
        is_char_boundary_iff_not_is_continuation_byte(bytes, LABEL_BYTES as int);
    }
    assert(is_ascii_chars(head));
    is_ascii_chars_encode_utf8(head);
    assert(encode_utf8(head) =~= bytes.subrange(0, LABEL_BYTES as int));
    encode_utf8_decode_utf8(head);
}

/// The number that a decimal numeral stands for.
pub open spec fn numeral_value(text: Seq<char>) -> int
    decreases text.len(),
{
    if text.len() == 0 {
        0
    } else {
        10 * numeral_value(text.drop_last()) + (text.last() as int - 48)
    }
}

/// A numeral reads back as its number, is made of the digits from 0 to 9, and has no leading zero.
pub proof fn decimal_reads_back(n: nat)
    ensures
        numeral_value(decimal(n)) == n,
        decimal(n).len() > 0,
        forall|i: int| 0 <= i < decimal(n).len() ==> 48 <= (#[trigger] decimal(n)[i]) as int <= 57,
        n > 0 ==> decimal(n)[0] as int != 48,
    decreases n,
{
    reveal_with_fuel(numeral_value, 2);
    let text = decimal(n);
    if n < 10 {
        assert(text.drop_last() =~= Seq::empty());
    } else {
        decimal_reads_back(n / 10);
        assert(text.drop_last() =~= decimal(n / 10));
        assert forall|i: int| 0 <= i < text.len() implies 48 <= (#[trigger] text[i]) as int <= 57 by {
            if i < text.len() - 1 {
                assert(text[i] == decimal(n / 10)[i]);
            }
        }
        assert(text[0] == decimal(n / 10)[0]);
    }
}

/// A numeral is that of the number without its last digit, with the last digit behind it.
pub proof fn decimal_appends_the_last_digit(head: nat, last: nat)
    requires
        last < 10,
    ensures
        decimal(last) == seq![(48 + last) as char],
        head > 0 ==> decimal(10 * head + last) == decimal(head).push((48 + last) as char),
{
    assert((10 * head + last) / 10 == head && (10 * head + last) % 10 == last);
}

/// Different numbers have different numerals.
pub proof fn decimal_is_injective(one: nat, other: nat)
    requires
        decimal(one) == decimal(other),
    ensures
        one == other,
{
    decimal_reads_back(one);
    decimal_reads_back(other);
}

/// A text has a label exactly where it has eight bytes, or more of which the ninth begins a
/// character; the label is made of those eight bytes and begins the text.
pub proof fn label_is_the_first_eight_bytes(text: Seq<char>)
    ensures
        has_label(text) <==> encode_utf8(text).len() == 8 || encode_utf8(text).len() > 8 && !is_continuation_byte(
            encode_utf8(text)[8],
        ),
        has_label(text) ==> encode_utf8(label(text)) == encode_utf8(text).subrange(0, 8),
        has_label(text) ==> label(text).is_prefix_of(text),
{
    let bytes = encode_utf8(text);
    encode_utf8_valid_utf8(text);
    if bytes.len() == 8 {
        is_char_boundary_start_end_of_seq(bytes);
    } else if bytes.len() > 8 {
        is_char_boundary_iff_not_is_continuation_byte(bytes, 8);
    }
    if has_label(text) {
        valid_utf8_split(bytes, 8);
        decode_utf8_encode_utf8(bytes.subrange(0, 8));
        decode_utf8_split(bytes, 8);
        encode_utf8_decode_utf8(text);
    }
}

/// An ASCII text of eight characters or more is cut behind its eighth character.
pub proof fn label_of_ascii_is_eight_characters(text: Seq<char>)
    requires
        is_ascii_chars(text),
        text.len() >= 8,
    ensures
        has_label(text),
        label(text) == text.take(8),
{
    label_of_ascii(text);
}

} // verus!
