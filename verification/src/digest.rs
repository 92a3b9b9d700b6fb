//! The digest of a configuration file.
//!
//! Whoever reads the configuration gets the digest of what was read. A later
//! change may name that digest, and is refused if the file has changed in
//! between. The digest guards against lost updates, not against tampering.

use vstd::prelude::*;
use vstd::string::*;
use crate::text::chars_of;
use crate::ticket::{hex_digit_value, is_hex_digit};

verus! {

/// The SHA-256 hash of a text, as `openssl::sha::sha256` computes it.
pub uninterp spec fn sha256_of(data: Seq<u8>) -> Seq<u8>;

/// `openssl::sha::sha256`: the hash of `data`, which depends on the bytes alone.
#[verifier::external_body]
fn sha256(data: &[u8]) -> (r: [u8; 32])
    ensures
        r@ == sha256_of(data@),
{
    openssl::sha::sha256(data)
}

/// The value of a hexadecimal digit.
fn digit_of(c: char) -> (r: Option<u8>)
    ensures
        r is Some <==> is_hex_digit(c),
        r matches Some(d) ==> d == hex_digit_value(c) && d < 16,
{
    let n: u32 = c as u32;
    if 0x30 <= n && n <= 0x39 {
        Some((n - 0x30) as u8)
    } else if 0x41 <= n && n <= 0x46 {
        Some((n - 0x41 + 10) as u8)
    } else if 0x61 <= n && n <= 0x66 {
        Some((n - 0x61 + 10) as u8)
    } else {
        None
    }
}

/// The sixteen digits, lowest first.
pub open spec fn hex_digits() -> Seq<char> {
    "0123456789abcdef"@
}

/// The lowercase hexadecimal text of a sequence of bytes: two digits for each
/// byte, the high one first.
pub open spec fn hex_text(bytes: Seq<u8>) -> Seq<char>
    decreases bytes.len(),
{
    if bytes.len() == 0 {
        Seq::empty()
    } else {
        hex_text(bytes.drop_last()) + seq![
            hex_digits()[bytes.last() as int / 16],
            hex_digits()[bytes.last() as int % 16],
        ]
    }
}

/// The text has two characters for each byte.
proof fn lemma_hex_text_len(bytes: Seq<u8>)
    ensures
        hex_text(bytes).len() == 2 * bytes.len(),
    decreases bytes.len(),
{
    if bytes.len() > 0 {
        lemma_hex_text_len(bytes.drop_last());
    }
}

/// The digit at position `i` of the text is the high or the low half of byte
/// `i / 2`.
proof fn lemma_hex_text_at(bytes: Seq<u8>, i: int)
    requires
        0 <= i < bytes.len(),
    ensures
        hex_text(bytes).len() == 2 * bytes.len(),
        hex_text(bytes)[2 * i] == hex_digits()[bytes[i] as int / 16],
        hex_text(bytes)[2 * i + 1] == hex_digits()[bytes[i] as int % 16],
    decreases bytes.len(),
{
    lemma_hex_text_len(bytes);
    lemma_hex_text_len(bytes.drop_last());
    if i < bytes.len() - 1 {
        lemma_hex_text_at(bytes.drop_last(), i);
    }
}

/// The bytes that a text of hexadecimal digits writes, two digits for each
/// byte; `None` unless the text is made of 64 such digits.
pub open spec fn hex_decoded(s: Seq<char>) -> Option<Seq<u8>> {
    if s.len() == 64 && forall|i: int| 0 <= i < 64 ==> is_hex_digit(#[trigger] s[i]) {
        Some(
            Seq::new(
                32,
                |i: int| (hex_digit_value(s[2 * i]) * 16 + hex_digit_value(s[2 * i + 1])) as u8,
            ),
        )
    } else {
        None
    }
}

/// The hexadecimal text of a digest reads back as the digest.
pub proof fn lemma_hex_roundtrip(bytes: Seq<u8>)
    requires
        bytes.len() == 32,
    ensures
        hex_decoded(hex_text(bytes)) == Some(bytes),
{
    reveal_strlit("0123456789abcdef");
    let s = hex_text(bytes);
    lemma_hex_text_len(bytes);
    assert forall|d: int| 0 <= d < 16 implies is_hex_digit(#[trigger] hex_digits()[d])
        && hex_digit_value(hex_digits()[d]) == d by {
        assert(hex_digits()[0] == '0' && hex_digits()[1] == '1' && hex_digits()[2] == '2'
            && hex_digits()[3] == '3' && hex_digits()[4] == '4' && hex_digits()[5] == '5'
            && hex_digits()[6] == '6' && hex_digits()[7] == '7' && hex_digits()[8] == '8'
            && hex_digits()[9] == '9' && hex_digits()[10] == 'a' && hex_digits()[11] == 'b'
            && hex_digits()[12] == 'c' && hex_digits()[13] == 'd' && hex_digits()[14] == 'e'
            && hex_digits()[15] == 'f');
    }
    assert forall|i: int| 0 <= i < 64 implies is_hex_digit(#[trigger] s[i]) by {
        lemma_hex_text_at(bytes, i / 2);
        if i % 2 == 0 {
            assert(s[i] == hex_digits()[bytes[i / 2] as int / 16]);
        } else {
            assert(s[i] == hex_digits()[bytes[i / 2] as int % 16]);
        }
    }
    let back = hex_decoded(s)->0;
    assert forall|i: int| 0 <= i < 32 implies back[i] == bytes[i] by {
        lemma_hex_text_at(bytes, i);
    }
    assert(back =~= bytes);
}

/// Why a change to the configuration was refused before it was looked at.
#[derive(Clone, Copy, Debug, PartialEq, Eq, Structural)]
pub enum DigestError {
    /// The file is not what the caller has read: someone else changed it.
    Modified,
}

/// The digest of a configuration file.
#[derive(Clone, Copy, Debug, PartialEq, Eq)]
pub struct ConfigDigest {
    bytes: [u8; 32],
}

impl View for ConfigDigest {
    type V = Seq<u8>;

    closed spec fn view(&self) -> Seq<u8> {
        self.bytes@
    }
}

impl ConfigDigest {
    /// The digest of a file's content.
    pub fn of(content: &[u8]) -> (r: ConfigDigest)
        ensures
            r@ == sha256_of(content@),
            r@.len() == 32,
    {
        ConfigDigest { bytes: sha256(content) }
    }

    /// The digest with these bytes.
    pub fn from_bytes(bytes: [u8; 32]) -> (r: ConfigDigest)
        ensures
            r@ == bytes@,
            r@.len() == 32,
    {
        ConfigDigest { bytes }
    }

    /// The bytes of the digest.
    pub fn to_bytes(&self) -> (r: [u8; 32])
        ensures
            r@ == self@,
    {
        self.bytes
    }

    /// Whether two digests are the same.
    pub fn same_as(&self, other: &ConfigDigest) -> (r: bool)
        ensures
            r == (self@ == other@),
    {
        let mut i: usize = 0;
        while i < 32
            invariant
                i <= 32,
                forall|j: int| 0 <= j < i ==> self.bytes@[j] == other.bytes@[j],
            decreases 32 - i,
        {
            if self.bytes[i] != other.bytes[i] {
                return false;
            }
            i += 1;
        }
        assert(self.bytes@ =~= other.bytes@);
        true
    }

    /// Reads a digest from its hexadecimal text, in either case; `None` for
    /// anything but 64 hexadecimal digits.
    pub fn from_hex(text: &str) -> (r: Option<ConfigDigest>)
        ensures
            match r {
                Some(d) => hex_decoded(text@) == Some(d@),
                None => hex_decoded(text@) is None,
            },
    {
        let v = chars_of(text);
        if v.len() != 64 {
            return None;
        }
        let mut bytes: [u8; 32] = [0u8; 32];
        let mut i: usize = 0;
        while i < 32
            invariant
                i <= 32,
                v@.len() == 64,
                v@ == text@,
                forall|j: int| 0 <= j < 2 * i ==> is_hex_digit(#[trigger] v@[j]),
                forall|j: int|
                    0 <= j < i ==> bytes@[j] == (hex_digit_value(v@[2 * j]) * 16 + hex_digit_value(
                        v@[2 * j + 1],
                    )) as u8,
            decreases 32 - i,
        {
            let hi = match digit_of(v[2 * i]) {
                Some(d) => d,
                None => {
                    return None;
                },
            };
            let lo = match digit_of(v[2 * i + 1]) {
                Some(d) => d,
                None => {
                    return None;
                },
            };
            bytes.set(i, hi * 16 + lo);
            i += 1;
        }
        let d = ConfigDigest { bytes };
        assert(d@ =~= hex_decoded(text@)->0);
        Some(d)
    }

    /// The digest as callers see it: 64 lowercase hexadecimal digits, which
    /// `from_hex` reads back as this digest.
    pub fn to_hex(&self) -> (r: String)
        ensures
            r@ == hex_text(self@),
            r@.len() == 64,
            hex_decoded(r@) == Some(self@),
    {
        proof {
            lemma_hex_roundtrip(self.bytes@);
            lemma_hex_text_len(self.bytes@);
        }
        let digits = "0123456789abcdef";
        proof {
            reveal_strlit("0123456789abcdef");
        }
        let mut out = String::new();
        let mut i: usize = 0;
        assert(self.bytes@.take(0) =~= Seq::<u8>::empty());
        while i < 32
            invariant
                i <= 32,
                digits@ == hex_digits(),
                digits@.len() == 16,
                out@ == hex_text(self.bytes@.take(i as int)),
            decreases 32 - i,
        {
            let b = self.bytes[i];
            let hi: usize = (b / 16) as usize;
            let lo: usize = (b % 16) as usize;
            let ghost before = out@;
            out.append(digits.substring_char(hi, hi + 1));
            out.append(digits.substring_char(lo, lo + 1));
            proof {
                let next = self.bytes@.take(i + 1);
                assert(next.drop_last() =~= self.bytes@.take(i as int));
                assert(next.last() == b);
                assert(out@ =~= before + seq![hex_digits()[hi as int], hex_digits()[lo as int]]);
            }
            i += 1;
        }
        assert(self.bytes@.take(32) =~= self.bytes@);
        out
    }

    /// Compares the digest of the file as it is now with the digest that a
    /// caller has read. A caller that names no digest is not held to one.
    pub fn detect_modification(&self, user_digest: Option<&ConfigDigest>) -> (r: Result<
        (),
        DigestError,
    >)
        ensures
            r is Err <==> (user_digest matches Some(d) && d@ != self@),
    {
        match user_digest {
            Some(d) => {
                if d.same_as(self) {
                    Ok(())
                } else {
                    Err(DigestError::Modified)
                }
            },
            None => Ok(()),
        }
    }
}

} // verus!
