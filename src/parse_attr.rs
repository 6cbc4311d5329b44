use crate::error::Nl80211Error;
use vstd::prelude::*;

verus! {

/// The unsigned value of a little-endian byte sequence.
pub open spec fn le_value(b: Seq<u8>) -> nat
    decreases b.len(),
{
    if b.len() == 0 {
        0
    } else {
        b[0] as nat + 256 * le_value(b.drop_first())
    }
}

/// 256 to the power `n`.
pub open spec fn pow256(n: nat) -> nat
    decreases n,
{
    if n == 0 {
        1
    } else {
        256 * pow256((n - 1) as nat)
    }
}

/// The two's complement value of a little-endian byte sequence.
pub open spec fn le_signed(b: Seq<u8>) -> int {
    if 2 * le_value(b) >= pow256(b.len()) {
        le_value(b) - pow256(b.len())
    } else {
        le_value(b) as int
    }
}

proof fn lemma_pow256_monotonic(a: nat, b: nat)
    requires
        a <= b,
    ensures
        pow256(a) <= pow256(b),
    decreases b,
{
    if a < b {
        lemma_pow256_monotonic(a, (b - 1) as nat);
    }
}

/// Reads up to eight little-endian bytes as an unsigned integer.
fn le_bytes_value(input: &[u8]) -> (r: u64)
    requires
        input@.len() <= 8,
    ensures
        r == le_value(input@),
        r < pow256(input@.len()),
{
    let len = input.len();
    let mut acc: u64 = 0;
    let mut i: usize = len;
    proof {
        reveal_with_fuel(pow256, 9);
        assert(input@.subrange(len as int, len as int) =~= Seq::<u8>::empty());
    }
    while i > 0
        invariant
            i <= len,
            len == input@.len(),
            len <= 8,
            acc == le_value(input@.subrange(i as int, len as int)),
            acc < pow256((len - i) as nat),
        decreases i,
    {
        let ghost old_i = i;
        i = i - 1;
        proof {
            lemma_pow256_monotonic((len - old_i + 1) as nat, 8);
            reveal_with_fuel(pow256, 9);
            assert(input@.subrange(i as int, len as int).drop_first() =~= input@.subrange(
                old_i as int,
                len as int,
            ));
        }
        acc = input[i] as u64 + 256 * acc;
    }
    assert(input@.subrange(0, len as int) =~= input@);
    acc
}

/// The error for a payload of `actual` bytes where `expected` were needed.
pub open spec fn length_mismatch(expected: nat, actual: nat) -> Nl80211Error {
    Nl80211Error::LengthMismatch { expected: expected as usize, actual: actual as usize }
}

fn mismatch(expected: usize, actual: usize) -> (r: Nl80211Error)
    ensures
        r == length_mismatch(expected as nat, actual as nat),
{
    Nl80211Error::LengthMismatch { expected, actual }
}

/// Decodes a `u8` payload: exactly one byte, else a length mismatch.
pub fn decode_u8(input: &[u8]) -> (r: Result<u8, Nl80211Error>)
    ensures
        input@.len() == 1 ==> r == Ok::<u8, Nl80211Error>(le_value(input@) as u8),
        input@.len() != 1 ==> r == Err::<u8, Nl80211Error>(length_mismatch(1, input@.len())),
{
    if input.len() != 1 {
        return Err(mismatch(1, input.len()));
    }
    proof {
        reveal_with_fuel(pow256, 2);
    }
    Ok(le_bytes_value(input) as u8)
}

/// Decodes an `i8` payload: exactly one byte, else a length mismatch.
pub fn decode_i8(input: &[u8]) -> (r: Result<i8, Nl80211Error>)
    ensures
        input@.len() == 1 ==> r == Ok::<i8, Nl80211Error>(le_signed(input@) as i8),
        input@.len() != 1 ==> r == Err::<i8, Nl80211Error>(length_mismatch(1, input@.len())),
{
    if input.len() != 1 {
        return Err(mismatch(1, input.len()));
    }
    proof {
        reveal_with_fuel(pow256, 2);
    }
    let v = le_bytes_value(input);
    if v >= 128 {
        Ok((v - 128) as i8 - 64 - 64)
    } else {
        Ok(v as i8)
    }
}

/// Decodes a little-endian `u16` payload: exactly two bytes, else a length mismatch.
pub fn decode_u16(input: &[u8]) -> (r: Result<u16, Nl80211Error>)
    ensures
        input@.len() == 2 ==> r == Ok::<u16, Nl80211Error>(le_value(input@) as u16),
        input@.len() != 2 ==> r == Err::<u16, Nl80211Error>(length_mismatch(2, input@.len())),
{
    if input.len() != 2 {
        return Err(mismatch(2, input.len()));
    }
    proof {
        reveal_with_fuel(pow256, 3);
    }
    Ok(le_bytes_value(input) as u16)
}

/// Decodes a little-endian `u32` payload: exactly four bytes, else a length mismatch.
pub fn decode_u32(input: &[u8]) -> (r: Result<u32, Nl80211Error>)
    ensures
        input@.len() == 4 ==> r == Ok::<u32, Nl80211Error>(le_value(input@) as u32),
        input@.len() != 4 ==> r == Err::<u32, Nl80211Error>(length_mismatch(4, input@.len())),
{
    if input.len() != 4 {
        return Err(mismatch(4, input.len()));
    }
    proof {
        reveal_with_fuel(pow256, 5);
    }
    Ok(le_bytes_value(input) as u32)
}

/// Decodes a little-endian `i32` payload: exactly four bytes, else a length mismatch.
pub fn decode_i32(input: &[u8]) -> (r: Result<i32, Nl80211Error>)
    ensures
        input@.len() == 4 ==> r == Ok::<i32, Nl80211Error>(le_signed(input@) as i32),
        input@.len() != 4 ==> r == Err::<i32, Nl80211Error>(length_mismatch(4, input@.len())),
{
    if input.len() != 4 {
        return Err(mismatch(4, input.len()));
    }
    proof {
        reveal_with_fuel(pow256, 5);
    }
    let v = le_bytes_value(input);
    if v >= 0x8000_0000 {
        Ok((v - 0x8000_0000) as i32 - 0x4000_0000 - 0x4000_0000)
    } else {
        Ok(v as i32)
    }
}

/// Decodes a little-endian `u64` payload: exactly eight bytes, else a length mismatch.
pub fn decode_u64(input: &[u8]) -> (r: Result<u64, Nl80211Error>)
    ensures
        input@.len() == 8 ==> r == Ok::<u64, Nl80211Error>(le_value(input@) as u64),
        input@.len() != 8 ==> r == Err::<u64, Nl80211Error>(length_mismatch(8, input@.len())),
{
    if input.len() != 8 {
        return Err(mismatch(8, input.len()));
    }
    Ok(le_bytes_value(input))
}

/// Decodes a six-byte hardware address: exactly six bytes, else a length mismatch.
pub fn decode_mac(input: &[u8]) -> (r: Result<[u8; 6], Nl80211Error>)
    ensures
        input@.len() == 6 ==> (r matches Ok(a) && a@ == input@),
        input@.len() != 6 ==> r == Err::<[u8; 6], Nl80211Error>(length_mismatch(6, input@.len())),
{
    if input.len() != 6 {
        return Err(mismatch(6, input.len()));
    }
    let a = [input[0], input[1], input[2], input[3], input[4], input[5]];
    assert(a@ =~= input@);
    Ok(a)
}

/// Lossy UTF-8 reading of a byte sequence (invalid sequences become U+FFFD).
pub uninterp spec fn utf8_lossy(b: Seq<u8>) -> Seq<char>;

/// Relies on `String::from_utf8_lossy`: the text it gives depends on the bytes alone.
#[verifier::external_body]
fn lossy_text(b: &[u8]) -> (r: String)
    ensures
        r@ == utf8_lossy(b@),
{
    String::from_utf8_lossy(b).into_owned()
}

/// Reads a payload slice as text; invalid UTF-8 is replaced, never rejected.
pub fn parse_string_slice(input: &[u8]) -> (r: String)
    ensures
        r@ == utf8_lossy(input@),
{
    lossy_text(input)
}

/// Reads a payload as text; invalid UTF-8 is replaced, never rejected.
pub fn parse_string(input: &Vec<u8>) -> (r: String)
    ensures
        r@ == utf8_lossy(input@),
{
    lossy_text(input.as_slice())
}

/// The upper-case hexadecimal digit of `d` (below 16).
pub open spec fn hex_digit(d: nat) -> char {
    if d < 10 {
        (48 + d) as char
    } else {
        (55 + d) as char
    }
}

/// The two upper-case hexadecimal digits of a byte.
pub open spec fn hex_pair(b: u8) -> Seq<char> {
    seq![hex_digit(b as nat / 16), hex_digit(b as nat % 16)]
}

/// Every byte as two upper-case hexadecimal digits, in order.
pub open spec fn hex_upper(b: Seq<u8>) -> Seq<char>
    decreases b.len(),
{
    if b.len() == 0 {
        seq![]
    } else {
        hex_pair(b[0]) + hex_upper(b.drop_first())
    }
}

/// Every byte as two upper-case hexadecimal digits, separated by colons.
pub open spec fn colon_hex(b: Seq<u8>) -> Seq<char>
    decreases b.len(),
{
    if b.len() == 0 {
        seq![]
    } else if b.len() == 1 {
        hex_pair(b[0])
    } else {
        colon_hex(b.drop_last()) + seq![':'] + hex_pair(b.last())
    }
}

/// Relies on `hex::encode_upper`: two upper-case hexadecimal digits per byte,
/// high nibble first.
#[verifier::external_body]
fn hex_upper_text(b: &[u8]) -> (r: String)
    ensures
        r@ == hex_upper(b@),
{
    hex::encode_upper(b)
}

proof fn lemma_hex_upper(b: Seq<u8>)
    ensures
        hex_upper(b).len() == 2 * b.len(),
        forall|i: int|
            0 <= i < b.len() ==> hex_upper(b)[2 * i] == hex_digit(b[i] as nat / 16) && hex_upper(
                b,
            )[2 * i + 1] == hex_digit(b[i] as nat % 16),
    decreases b.len(),
{
    if b.len() > 0 {
        lemma_hex_upper(b.drop_first());
        assert forall|i: int| 0 <= i < b.len() implies hex_upper(b)[2 * i] == hex_digit(
            b[i] as nat / 16,
        ) && hex_upper(b)[2 * i + 1] == hex_digit(b[i] as nat % 16) by {
            if i > 0 {
                assert(b.drop_first()[i - 1] == b[i]);
                assert(hex_upper(b)[2 * i] == hex_upper(b.drop_first())[2 * (i - 1)]);
                assert(hex_upper(b)[2 * i + 1] == hex_upper(b.drop_first())[2 * (i - 1) + 1]);
            }
        }
    }
}

/// The bytes as upper-case hexadecimal pairs separated by colons.
pub fn colon_hex_text(input: &[u8]) -> (r: String)
    ensures
        r@ == colon_hex(input@),
{
    let h = hex_upper_text(input);
    proof {
        lemma_hex_upper(input@);
    }
    let n = input.len();
    let hl = h.as_str().unicode_len();
    let mut s = String::new();
    let mut i: usize = 0;
    assert(input@.subrange(0, 0) =~= Seq::<u8>::empty());
    while i < n
        invariant
            i <= n,
            n == input@.len(),
            h@ == hex_upper(input@),
            h@.len() == 2 * n,
            hl == h@.len(),
            forall|j: int|
                0 <= j < n ==> h@[2 * j] == hex_digit(input@[j] as nat / 16) && h@[2 * j + 1]
                    == hex_digit(input@[j] as nat % 16),
            s@ == colon_hex(input@.subrange(0, i as int)),
        decreases n - i,
    {
        let ghost prev = s@;
        if i > 0 {
            s.push(':');
        }
        let hi = h.as_str().get_char(2 * i);
        let lo = h.as_str().get_char(2 * i + 1);
        s.push(hi);
        s.push(lo);
        proof {
            let b = input@.subrange(0, i + 1);
            assert(b.drop_last() =~= input@.subrange(0, i as int));
            assert(b.last() == input@[i as int]);
            if i > 0 {
                assert(s@ =~= colon_hex(b));
            } else {
                assert(s@ =~= colon_hex(b));
            }
        }
        i = i + 1;
    }
    assert(input@.subrange(0, n as int) =~= input@);
    s
}

/// The bytes as upper-case hexadecimal pairs separated by colons
/// (`[255, 1]` gives `"FF:01"`).
pub fn parse_hex(input: &Vec<u8>) -> (r: String)
    ensures
        r@ == colon_hex(input@),
{
    colon_hex_text(input.as_slice())
}

/// Reads a one-byte payload as `u8`; any other length is a length mismatch.
pub fn parse_u8(input: &Vec<u8>) -> (r: Result<u8, Nl80211Error>)
    ensures
        input@.len() == 1 ==> r == Ok::<u8, Nl80211Error>(le_value(input@) as u8),
        input@.len() != 1 ==> r == Err::<u8, Nl80211Error>(length_mismatch(1, input@.len())),
{
    decode_u8(input.as_slice())
}

/// Reads a one-byte payload as `i8`; any other length is a length mismatch.
pub fn parse_i8(input: &Vec<u8>) -> (r: Result<i8, Nl80211Error>)
    ensures
        input@.len() == 1 ==> r == Ok::<i8, Nl80211Error>(le_signed(input@) as i8),
        input@.len() != 1 ==> r == Err::<i8, Nl80211Error>(length_mismatch(1, input@.len())),
{
    decode_i8(input.as_slice())
}

/// Reads a two-byte little-endian payload as `u16`; any other length is a length mismatch.
pub fn parse_u16(input: &Vec<u8>) -> (r: Result<u16, Nl80211Error>)
    ensures
        input@.len() == 2 ==> r == Ok::<u16, Nl80211Error>(le_value(input@) as u16),
        input@.len() != 2 ==> r == Err::<u16, Nl80211Error>(length_mismatch(2, input@.len())),
{
    decode_u16(input.as_slice())
}

/// Reads a four-byte little-endian payload as `u32`; any other length is a length mismatch.
pub fn parse_u32(input: &Vec<u8>) -> (r: Result<u32, Nl80211Error>)
    ensures
        input@.len() == 4 ==> r == Ok::<u32, Nl80211Error>(le_value(input@) as u32),
        input@.len() != 4 ==> r == Err::<u32, Nl80211Error>(length_mismatch(4, input@.len())),
{
    decode_u32(input.as_slice())
}

/// Reads a four-byte little-endian payload as `i32`; any other length is a length mismatch.
pub fn parse_i32(input: &Vec<u8>) -> (r: Result<i32, Nl80211Error>)
    ensures
        input@.len() == 4 ==> r == Ok::<i32, Nl80211Error>(le_signed(input@) as i32),
        input@.len() != 4 ==> r == Err::<i32, Nl80211Error>(length_mismatch(4, input@.len())),
{
    decode_i32(input.as_slice())
}

/// Reads an eight-byte little-endian payload as `u64`; any other length is a length mismatch.
pub fn parse_u64(input: &Vec<u8>) -> (r: Result<u64, Nl80211Error>)
    ensures
        input@.len() == 8 ==> r == Ok::<u64, Nl80211Error>(le_value(input@) as u64),
        input@.len() != 8 ==> r == Err::<u64, Nl80211Error>(length_mismatch(8, input@.len())),
{
    decode_u64(input.as_slice())
}

} // verus!
