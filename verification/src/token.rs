//! Telling a token apart without showing it.
use sha2::Digest;
use vstd::prelude::*;
use vstd::utf8::encode_utf8;

verus! {

/// The SHA-256 digest of bytes.
pub uninterp spec fn sha256(bytes: Seq<u8>) -> Seq<u8>;

/// Calls sha2's `Sha256::digest`: the digest depends on the bytes alone and is
/// 32 bytes long.
#[verifier::external_body]
fn sha256_digest(bytes: &[u8]) -> (res: Vec<u8>)
    ensures
        res@ == sha256(bytes@),
        res@.len() == 32,
{
    sha2::Sha256::digest(bytes).to_vec()
}

/// The hexadecimal digit for a number below 16, in lower case.
pub open spec fn hex_digit(n: int) -> char {
    if n < 10 {
        (48 + n) as char
    } else {
        (87 + n) as char
    }
}

/// Bytes in hexadecimal, two digits for each.
pub open spec fn hex_text(bytes: Seq<u8>) -> Seq<char>
    decreases bytes.len(),
{
    if bytes.len() == 0 {
        Seq::empty()
    } else {
        hex_text(bytes.drop_last()) + seq![
            hex_digit(bytes.last() as int / 16),
            hex_digit(bytes.last() as int % 16),
        ]
    }
}

/// Calls hex's `encode`: two lower-case hexadecimal digits for each byte, in
/// their order.
#[verifier::external_body]
pub(crate) fn hex_encode(bytes: &[u8]) -> (res: String)
    ensures
        res@ == hex_text(bytes@),
{
    hex::encode(bytes)
}

/// The first four bytes of a digest, in hexadecimal.
pub fn fingerprint(digest: &[u8]) -> (res: String)
    requires
        digest@.len() >= 4,
    ensures
        res@ == hex_text(digest@.take(4)),
        res@.len() == 8,
{
    let start = vstd::slice::slice_subrange(digest, 0, 4);
    assert(start@ =~= digest@.take(4));
    proof {
        hex_text_is_hexadecimal(start@);
    }
    hex_encode(start)
}

/// What stands for a token where it must not be shown: the first four bytes of
/// its SHA-256 digest, in hexadecimal.
pub open spec fn short_form(token: Seq<char>) -> Seq<char> {
    hex_text(sha256(encode_utf8(token)).take(4))
}

/// What stands for a token where it must not be shown.
pub fn short_token(token: &str) -> (res: String)
    ensures
        res@ == short_form(token@),
        res@ == hex_text(sha256(encode_utf8(token@)).take(4)),
        res@.len() == 8,
{
    let digest = sha256_digest(token.as_bytes());
    fingerprint(digest.as_slice())
}

/// Hexadecimal text has two digits for each byte, and every character of it is
/// a lower-case hexadecimal digit.
pub proof fn hex_text_is_hexadecimal(bytes: Seq<u8>)
    ensures
        hex_text(bytes).len() == 2 * bytes.len(),
        forall|i: int|
            0 <= i < hex_text(bytes).len() ==> '0' <= #[trigger] hex_text(bytes)[i] <= '9' || 'a'
                <= hex_text(bytes)[i] <= 'f',
    decreases bytes.len(),
{
    if bytes.len() > 0 {
        hex_text_is_hexadecimal(bytes.drop_last());
        let before = hex_text(bytes.drop_last());
        let high = bytes.last() as int / 16;
        let low = bytes.last() as int % 16;
        assert(0 <= high < 16 && 0 <= low < 16);
        assert forall|i: int| 0 <= i < hex_text(bytes).len() implies '0' <= #[trigger] hex_text(
            bytes,
        )[i] <= '9' || 'a' <= hex_text(bytes)[i] <= 'f' by {
            if i < before.len() {
                assert(hex_text(bytes)[i] == before[i]);
            }
        }
    }
}

/// The number that a hexadecimal digit tells.
pub open spec fn digit_value(c: char) -> int {
    if '0' <= c <= '9' {
        c as int - '0' as int
    } else {
        c as int - 'a' as int + 10
    }
}

/// Hexadecimal text tells its bytes, each by two digits at its place.
pub proof fn hex_text_tells_its_bytes(bytes: Seq<u8>, i: int)
    requires
        0 <= i < bytes.len(),
    ensures
        hex_text(bytes).len() == 2 * bytes.len(),
        16 * digit_value(hex_text(bytes)[2 * i]) + digit_value(hex_text(bytes)[2 * i + 1])
            == bytes[i],
    decreases bytes.len(),
{
    hex_text_is_hexadecimal(bytes);
    hex_text_is_hexadecimal(bytes.drop_last());
    if i < bytes.len() - 1 {
        hex_text_tells_its_bytes(bytes.drop_last(), i);
        assert(hex_text(bytes)[2 * i] == hex_text(bytes.drop_last())[2 * i]);
        assert(hex_text(bytes)[2 * i + 1] == hex_text(bytes.drop_last())[2 * i + 1]);
    } else {
        let last = bytes.last() as int;
        assert(0 <= last / 16 < 16 && 0 <= last % 16 < 16 && 16 * (last / 16) + last % 16 == last);
    }
}

} // verus!
