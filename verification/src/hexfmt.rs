use vstd::prelude::*;

verus! {

/// The lowercase hex digit for a nibble value.
pub open spec fn hex_digit(n: int) -> char
    recommends
        0 <= n < 16,
{
    seq!['0', '1', '2', '3', '4', '5', '6', '7', '8', '9', 'a', 'b', 'c', 'd', 'e', 'f'][n]
}

/// Lowercase hex rendering of a byte sequence: two digits per byte, high
/// nibble first.
pub open spec fn hex_chars(b: Seq<u8>) -> Seq<char>
    decreases b.len(),
{
    if b.len() == 0 {
        Seq::empty()
    } else {
        seq![hex_digit(b[0] as int / 16), hex_digit(b[0] as int % 16)] + hex_chars(b.drop_first())
    }
}

/// The value of a hex digit character, upper or lower case; -1 for any
/// other character.
pub open spec fn hex_char_val(c: char) -> int {
    if '0' as int <= c as int <= '9' as int {
        c as int - '0' as int
    } else if 'a' as int <= c as int <= 'f' as int {
        c as int - 'a' as int + 10
    } else if 'A' as int <= c as int <= 'F' as int {
        c as int - 'A' as int + 10
    } else {
        -1
    }
}

pub open spec fn is_hex_char(c: char) -> bool {
    hex_char_val(c) >= 0
}

/// Every character of the sequence is a hex digit.
pub open spec fn is_hex_seq(s: Seq<char>) -> bool {
    forall|i: int| 0 <= i < s.len() ==> is_hex_char(#[trigger] s[i])
}

/// The bytes denoted by a hex character sequence, two characters per byte.
/// Meaningful when the sequence has even length and all its characters are
/// hex digits.
pub open spec fn bytes_of_hex(s: Seq<char>) -> Seq<u8>
    decreases s.len(),
{
    if s.len() < 2 {
        Seq::empty()
    } else {
        seq![(hex_char_val(s[0]) * 16 + hex_char_val(s[1])) as u8] + bytes_of_hex(s.skip(2))
    }
}

/// Relies on hex::encode: renders each byte as two lowercase hex digits,
/// high nibble first.
#[verifier::external_body]
pub fn hex_encode(b: &Vec<u8>) -> (r: String)
    ensures
        r@ == hex_chars(b@),
{
    hex::encode(b.as_slice())
}

/// Relies on hex::decode: succeeds exactly on an even-length string of hex
/// digits (either case) and returns the denoted bytes; fails on odd length
/// or on any non-hex character.
#[verifier::external_body]
pub fn hex_decode(s: &str) -> (r: Option<Vec<u8>>)
    ensures
        (r is Some) == (is_hex_seq(s@) && s@.len() % 2 == 0),
        r is Some ==> r->Some_0@ == bytes_of_hex(s@),
{
    match hex::decode(s) {
        Ok(v) => Some(v),
        Err(_) => None,
    }
}

pub proof fn lemma_hex_chars_len(b: Seq<u8>)
    ensures
        hex_chars(b).len() == 2 * b.len(),
    decreases b.len(),
{
    if b.len() > 0 {
        lemma_hex_chars_len(b.drop_first());
    }
}

/// Each digit that `hex_chars` emits reads back as the nibble it encodes.
proof fn lemma_hex_digit_val(n: int)
    requires
        0 <= n < 16,
    ensures
        is_hex_char(hex_digit(n)),
        hex_char_val(hex_digit(n)) == n,
{
}

/// Hex rendering loses nothing: reading the rendered digits back gives the
/// original bytes, so a payload field and its displayed form agree.
pub proof fn lemma_hex_round_trip(b: Seq<u8>)
    ensures
        is_hex_seq(hex_chars(b)),
        hex_chars(b).len() % 2 == 0,
        bytes_of_hex(hex_chars(b)) == b,
    decreases b.len(),
{
    lemma_hex_chars_len(b);
    if b.len() == 0 {
        assert(bytes_of_hex(hex_chars(b)) =~= b);
    } else {
        let hi = b[0] as int / 16;
        let lo = b[0] as int % 16;
        lemma_hex_digit_val(hi);
        lemma_hex_digit_val(lo);
        lemma_hex_round_trip(b.drop_first());
        lemma_hex_chars_len(b.drop_first());
        let s = hex_chars(b);
        assert(s[0] == hex_digit(hi) && s[1] == hex_digit(lo));
        assert(s.skip(2) =~= hex_chars(b.drop_first()));
        assert(is_hex_seq(s)) by {
            assert forall|i: int| 0 <= i < s.len() implies is_hex_char(#[trigger] s[i]) by {
                if i >= 2 {
                    assert(s[i] == hex_chars(b.drop_first())[i - 2]);
                }
            }
        }
        assert((hex_char_val(s[0]) * 16 + hex_char_val(s[1])) as u8 == b[0]);
        assert(bytes_of_hex(s) =~= b);
    }
}

} // verus!
