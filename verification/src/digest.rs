//! Short content digests: the first eight bytes of a SHA-256, as lowercase hex. Cache
//! keys are built from them.

use vstd::prelude::*;
use vstd::string::*;

use crate::text::push_char;

verus! {

/// The SHA-256 digest of a text's UTF-8 bytes, as the sha2 crate computes it.
pub uninterp spec fn sha256_of(text: Seq<char>) -> Seq<u8>;

/// `sha2::Sha256::digest` over the string's bytes. Claimed: the digest is
/// `sha256_of(text)`, a function of the text alone, and it is 32 bytes long.
#[verifier::external_body]
fn sha256(text: &str) -> (r: Vec<u8>)
    ensures
        r@ == sha256_of(text@),
        r@.len() == 32,
{
    <sha2::Sha256 as sha2::Digest>::digest(text.as_bytes()).to_vec()
}

/// Lowercase hex digit of `n < 16`.
pub open spec fn hex_digit(n: nat) -> char {
    if n < 10 {
        (('0' as nat) + n) as char
    } else {
        (('a' as nat) + n - 10) as char
    }
}

/// Two lowercase hex digits of a byte (`{:02x}`).
pub open spec fn hex_byte(b: u8) -> Seq<char> {
    seq![hex_digit(b as nat / 16), hex_digit(b as nat % 16)]
}

/// Hex of the first `n` bytes.
pub open spec fn hex_prefix(bytes: Seq<u8>, n: nat) -> Seq<char>
    decreases n,
{
    if n == 0 || bytes.len() == 0 {
        Seq::empty()
    } else if n > bytes.len() {
        hex_prefix(bytes, bytes.len())
    } else {
        hex_prefix(bytes, (n - 1) as nat) + hex_byte(bytes[n - 1])
    }
}

fn hex_char(n: u8) -> (c: char)
    requires
        n < 16,
    ensures
        c == hex_digit(n as nat),
        is_lower_hex(c),
{
    if n < 10 {
        ((48u8 + n) as char)
    } else {
        ((87u8 + n) as char)
    }
}

/// `c` is a lowercase hex digit.
pub open spec fn is_lower_hex(c: char) -> bool {
    (48 <= c as nat && c as nat <= 57) || (97 <= c as nat && c as nat <= 102)
}

/// First eight bytes of the text's SHA-256, as sixteen lowercase hex digits.
pub open spec fn short_digest(text: Seq<char>) -> Seq<char> {
    hex_prefix(sha256_of(text), 8)
}

/// Sixteen hex digits identifying `text`.
pub fn short_hex_digest(text: &str) -> (s: String)
    ensures
        s@ == short_digest(text@),
        s@.len() == 16,
        forall|k: int| 0 <= k < 16 ==> is_lower_hex(#[trigger] s@[k]),
{
    let bytes = sha256(text);
    let mut s = String::new();
    let mut i: usize = 0;
    while i < 8
        invariant
            bytes@ == sha256_of(text@),
            bytes@.len() == 32,
            i <= 8,
            s@ == hex_prefix(bytes@, i as nat),
            s@.len() == 2 * i,
            forall|k: int| 0 <= k < 2 * i ==> is_lower_hex(#[trigger] s@[k]),
        decreases 8 - i,
    {
        let b = bytes[i];
        let hi = hex_char(b / 16);
        let lo = hex_char(b % 16);
        push_char(&mut s, hi);
        push_char(&mut s, lo);
        assert(s@ =~= hex_prefix(bytes@, (i + 1) as nat));
        i += 1;
    }
    s
}

} // verus!
