use vstd::prelude::*;

verus! {

/// The upper-case hexadecimal digit of a value below 16, as an ASCII byte.
pub open spec fn upper_digit(v: u8) -> u8 {
    if v < 10 {
        (48 + v) as u8
    } else {
        (55 + v) as u8
    }
}

/// `data` in upper-case hexadecimal: two ASCII digits for each byte, the
/// high half first.
pub open spec fn hex_upper(data: Seq<u8>) -> Seq<u8> {
    Seq::new(
        2 * data.len(),
        |i: int|
            if i % 2 == 0 {
                upper_digit(data[i / 2] / 16)
            } else {
                upper_digit(data[i / 2] % 16)
            },
    )
}

/// The value of a hexadecimal digit of either case, or nothing for any
/// other byte.
pub open spec fn digit_value(c: u8) -> Option<u8> {
    if 48 <= c <= 57 {
        Some((c - 48) as u8)
    } else if 65 <= c <= 70 {
        Some((c - 55) as u8)
    } else if 97 <= c <= 102 {
        Some((c - 87) as u8)
    } else {
        None
    }
}

/// Whether `text` is hexadecimal: an even number of digits and nothing else.
pub open spec fn is_hex(text: Seq<u8>) -> bool {
    text.len() % 2 == 0 && forall|i: int| 0 <= i < text.len() ==> digit_value(#[trigger] text[i]).is_some()
}

/// The bytes that hexadecimal `text` stands for, one for each pair of digits.
pub open spec fn hex_bytes(text: Seq<u8>) -> Seq<u8> {
    Seq::new(
        text.len() / 2,
        |i: int|
            (digit_value(text[2 * i]).unwrap() * 16 + digit_value(text[2 * i + 1]).unwrap()) as u8,
    )
}

/// What decoding `text` gives: its bytes where it is hexadecimal.
pub open spec fn hex_decoded(text: Seq<u8>) -> Option<Seq<u8>> {
    if is_hex(text) {
        Some(hex_bytes(text))
    } else {
        None
    }
}

/// `hex::encode_upper`: the input in upper-case hexadecimal, two digits from
/// `0123456789ABCDEF` for each byte with the high half first, handed back as
/// the bytes of the ASCII string.
#[verifier::external_body]
pub(crate) fn encode_upper(data: &[u8]) -> (text: Vec<u8>)
    ensures
        text@ == hex_upper(data@),
{
    hex::encode_upper(data).into_bytes()
}

/// `hex::decode`: succeeds exactly on an even number of hexadecimal digits of
/// either case, and then gives for each pair the byte whose high half is the
/// first digit and whose low half is the second.
#[verifier::external_body]
pub(crate) fn decode(text: &[u8]) -> (bytes: Option<Vec<u8>>)
    ensures
        bytes.is_some() == is_hex(text@),
        bytes matches Some(b) ==> b@ == hex_bytes(text@),
{
    hex::decode(text).ok()
}

} // verus!
