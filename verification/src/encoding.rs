//! Byte and text encodings used by the block formats: decimal renderings of
//! integers, UTF-8 bytes of strings and lower-case hexadecimal.
use vstd::prelude::*;
use vstd::string::StringSliceAdditionalSpecFns;
use vstd::utf8::{encode_utf8, is_ascii_chars, is_ascii_chars_encode_utf8};

verus! {

/// The ASCII bytes of the decimal rendering of `n`, as `to_string` gives it.
pub open spec fn decimal(n: nat) -> Seq<u8>
    decreases n,
{
    if n < 10 {
        seq![(48 + n) as u8]
    } else {
        decimal(n / 10).push((48 + n % 10) as u8)
    }
}

/// Appends the decimal rendering of `n` to `out`.
pub fn push_decimal(out: &mut Vec<u8>, n: u64)
    ensures
        final(out)@ == old(out)@ + decimal(n as nat),
    decreases n,
{
    if n >= 10 {
        push_decimal(out, n / 10);
        out.push(48u8 + (n % 10) as u8);
        assert(out@ =~= old(out)@ + decimal(n as nat));
    } else {
        out.push(48u8 + n as u8);
        assert(out@ =~= old(out)@ + decimal(n as nat));
    }
}

/// Appends the bytes of `b` to `out`.
pub fn push_bytes(out: &mut Vec<u8>, b: &[u8])
    ensures
        final(out)@ == old(out)@ + b@,
{
    let mut i: usize = 0;
    while i < b.len()
        invariant
            i <= b@.len(),
            out@ == old(out)@ + b@.take(i as int),
        decreases b@.len() - i,
    {
        out.push(b[i]);
        i = i + 1;
        assert(b@.take(i as int) =~= b@.take(i - 1).push(b@[i - 1]));
        assert(out@ =~= old(out)@ + b@.take(i as int));
    }
    assert(b@.take(i as int) =~= b@);
}

/// Appends the UTF-8 bytes of `s` to `out`.
pub fn push_str(out: &mut Vec<u8>, s: &str)
    ensures
        final(out)@ == old(out)@ + s.spec_bytes(),
{
    push_bytes(out, s.as_bytes());
}


/// The lower-case hexadecimal digit for `v < 16`.
pub open spec fn hex_digit(v: nat) -> char {
    if v < 10 {
        (48 + v) as char
    } else {
        (87 + v) as char
    }
}

/// Lower-case hexadecimal rendering of a byte string, two digits per byte,
/// high nibble first.
pub open spec fn hex_lower(b: Seq<u8>) -> Seq<char>
    decreases b.len(),
{
    if b.len() == 0 {
        seq![]
    } else {
        hex_lower(b.drop_last()) + seq![
            hex_digit(b.last() as nat / 16),
            hex_digit(b.last() as nat % 16),
        ]
    }
}

/// `c` is an ASCII hexadecimal digit of either case.
pub open spec fn is_hex_byte(c: u8) -> bool {
    ||| 48 <= c <= 57
    ||| 65 <= c <= 70
    ||| 97 <= c <= 102
}

/// The value of the hexadecimal digit `c`.
pub open spec fn hex_byte_value(c: u8) -> nat {
    if c <= 57 {
        (c - 48) as nat
    } else if c <= 70 {
        (c - 55) as nat
    } else {
        (c - 87) as nat
    }
}

/// `b` is a well-formed hexadecimal text: an even number of hex digits.
pub open spec fn is_hex(b: Seq<u8>) -> bool {
    &&& b.len() % 2 == 0
    &&& forall|i: int| 0 <= i < b.len() ==> is_hex_byte(#[trigger] b[i])
}

/// The bytes that a well-formed hexadecimal text denotes.
pub open spec fn hex_value(b: Seq<u8>) -> Seq<u8> {
    Seq::new(
        b.len() / 2,
        |i: int| (hex_byte_value(b[2 * i]) * 16 + hex_byte_value(b[2 * i + 1])) as u8,
    )
}

/// What decoding the hexadecimal text `s` yields, with the three bytes
/// `[0, 1, 0]` standing in for a text that does not decode.
pub open spec fn hex_or_placeholder(s: Seq<char>) -> Seq<u8> {
    if is_hex(encode_utf8(s)) {
        hex_value(encode_utf8(s))
    } else {
        seq![0u8, 1u8, 0u8]
    }
}

/// A hex digit is an ASCII character whose byte decodes back to its value.
proof fn lemma_hex_digit(v: nat)
    requires
        v < 16,
    ensures
        '\0' <= hex_digit(v) <= '\u{7f}',
        is_hex_byte(hex_digit(v) as u8),
        hex_byte_value(hex_digit(v) as u8) == v,
{
}

/// The rendering has two digits per byte: the high nibble's at `2 * i` and
/// the low nibble's at `2 * i + 1`.
proof fn lemma_hex_lower_index(b: Seq<u8>)
    ensures
        hex_lower(b).len() == 2 * b.len(),
        forall|i: int|
            0 <= i < b.len() ==> hex_lower(b)[2 * i] == hex_digit(#[trigger] b[i] as nat / 16)
                && hex_lower(b)[2 * i + 1] == hex_digit(b[i] as nat % 16),
    decreases b.len(),
{
    if b.len() > 0 {
        let prefix = b.drop_last();
        lemma_hex_lower_index(prefix);
        assert forall|i: int| 0 <= i < b.len() implies hex_lower(b)[2 * i] == hex_digit(
            #[trigger] b[i] as nat / 16,
        ) && hex_lower(b)[2 * i + 1] == hex_digit(b[i] as nat % 16) by {
            if i < b.len() - 1 {
                assert(prefix[i] == b[i]);
            }
        }
    }
}

/// Decoding the hex rendering of a byte string gives the byte string back.
pub proof fn lemma_hex_roundtrip(b: Seq<u8>)
    ensures
        hex_or_placeholder(hex_lower(b)) == b,
{
    lemma_hex_lower_index(b);
    let h = hex_lower(b);
    assert forall|k: int| 0 <= k < h.len() implies '\0' <= #[trigger] h[k] <= '\u{7f}' && is_hex_byte(
        h[k] as u8,
    ) by {
        let i: int = k / 2;
        assert(0 <= i < b.len());
        if k % 2 == 0 {
            assert(k == 2 * i);
            lemma_hex_digit(b[i] as nat / 16);
        } else {
            assert(k == 2 * i + 1);
            lemma_hex_digit(b[i] as nat % 16);
        }
    }
    assert(is_ascii_chars(h));
    is_ascii_chars_encode_utf8(h);
    let e = encode_utf8(h);
    assert forall|k: int| 0 <= k < e.len() implies is_hex_byte(#[trigger] e[k]) by {
        assert(h[k] as u8 == e[k]);
    }
    assert(is_hex(e));
    assert forall|i: int| 0 <= i < b.len() implies #[trigger] hex_value(e)[i] == b[i] by {
        assert(h[2 * i] as u8 == e[2 * i]);
        assert(h[2 * i + 1] as u8 == e[2 * i + 1]);
        lemma_hex_digit(b[i] as nat / 16);
        lemma_hex_digit(b[i] as nat % 16);
    }
    assert(hex_value(e) =~= b);
}

/// Calls `hex::encode`, which renders every byte as two lower-case
/// hexadecimal digits, high nibble first; the contract states exactly that.
#[verifier::external_body]
pub(crate) fn hex_encode(data: &[u8]) -> (res: String)
    ensures
        res@ == hex_lower(data@),
{
    hex::encode(data)
}

/// Calls `hex::decode` on the UTF-8 bytes of `s`. The crate decodes a text of
/// even length made only of hexadecimal digits (either case) into the bytes it
/// denotes, and rejects every other text; rejection is returned as `None`.
#[verifier::external_body]
pub(crate) fn hex_decode(s: &str) -> (res: Option<Vec<u8>>)
    ensures
        match res {
            Some(v) => is_hex(s.spec_bytes()) && v@ == hex_value(s.spec_bytes()),
            None => !is_hex(s.spec_bytes()),
        },
{
    hex::decode(s).ok()
}

/// Decodes the hexadecimal text `s`, or yields the placeholder `[0, 1, 0]`
/// where `s` is not hexadecimal.
pub fn hex_decode_or_placeholder(s: &str) -> (res: Vec<u8>)
    ensures
        res@ == hex_or_placeholder(s@),
{
    match hex_decode(s) {
        Some(v) => v,
        None => {
            let mut v: Vec<u8> = Vec::new();
            v.push(0u8);
            v.push(1u8);
            v.push(0u8);
            assert(v@ =~= seq![0u8, 1u8, 0u8]);
            v
        },
    }
}

} // verus!
