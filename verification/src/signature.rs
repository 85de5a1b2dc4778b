//! Signatures of webhook bodies: HMAC-SHA256 in hexadecimal.

use crate::text::{
    cat2, chars_of, is_white, strip_prefix, trimmed, trimmed_end, trimmed_start,
};
use hmac::Mac;
use vstd::prelude::*;
use vstd::string::*;

verus! {

/// The HMAC-SHA256 of `data` under `key`.
pub uninterp spec fn hmac_sha256(key: Seq<u8>, data: Seq<u8>) -> Seq<u8>;

/// `hmac::Hmac<Sha256>`: the tag of `data` under `key`, 32 bytes. Keys of any
/// length are taken.
#[verifier::external_body]
fn mac_tag(key: &[u8], data: &[u8]) -> (r: Vec<u8>)
    ensures
        r@ == hmac_sha256(key@, data@),
        r@.len() == 32,
{
    let mut mac = hmac::Hmac::<sha2::Sha256>::new_from_slice(key).expect("any key length is taken");
    mac.update(data);
    mac.finalize().into_bytes().to_vec()
}

/// `digest::Mac::verify_slice` of `hmac::Hmac<Sha256>`: true when `tag` is the
/// whole tag of `data` under `key`.
#[verifier::external_body]
fn mac_verify(key: &[u8], data: &[u8], tag: &[u8]) -> (r: bool)
    ensures
        r == (tag@ == hmac_sha256(key@, data@)),
{
    let mut mac = hmac::Hmac::<sha2::Sha256>::new_from_slice(key).expect("any key length is taken");
    mac.update(data);
    mac.verify_slice(tag).is_ok()
}

/// The value of a hexadecimal digit.
pub open spec fn nibble(c: char) -> Option<u8> {
    if '0' <= c <= '9' {
        Some((c as u32 - '0' as u32) as u8)
    } else if 'a' <= c <= 'f' {
        Some((c as u32 - 'a' as u32 + 10) as u8)
    } else if 'A' <= c <= 'F' {
        Some((c as u32 - 'A' as u32 + 10) as u8)
    } else {
        None
    }
}

/// The value of a hexadecimal digit.
pub fn decode_nibble(value: char) -> (r: Option<u8>)
    ensures
        r == nibble(value),
{
    if '0' <= value && value <= '9' {
        Some((value as u32 - '0' as u32) as u8)
    } else if 'a' <= value && value <= 'f' {
        Some((value as u32 - 'a' as u32 + 10) as u8)
    } else if 'A' <= value && value <= 'F' {
        Some((value as u32 - 'A' as u32 + 10) as u8)
    } else {
        None
    }
}

/// True of an even number of hexadecimal digits.
pub open spec fn is_hex(s: Seq<char>) -> bool {
    s.len() % 2 == 0 && forall|i: int| 0 <= i < s.len() ==> nibble(#[trigger] s[i]) is Some
}

/// The bytes that pairs of hexadecimal digits spell out.
pub open spec fn hex_bytes(s: Seq<char>) -> Seq<u8> {
    Seq::new(
        (s.len() / 2) as nat,
        |i: int| (nibble(s[2 * i])->0 * 16 + nibble(s[2 * i + 1])->0) as u8,
    )
}

/// The bytes that a text spells out in hexadecimal, white space around it
/// aside.
pub fn decode_hex(value: &str) -> (r: Option<Vec<u8>>)
    ensures
        r is Some == is_hex(trimmed(value@)),
        r is Some ==> r->0@ == hex_bytes(trimmed(value@)),
{
    let v = chars_of(value.trim());
    if v.len() % 2 != 0 {
        return None;
    }
    let mut bytes: Vec<u8> = Vec::new();
    let mut i: usize = 0;
    while i < v.len()
        invariant
            v@ == trimmed(value@),
            v@.len() % 2 == 0,
            i <= v@.len(),
            i % 2 == 0,
            forall|k: int| 0 <= k < i ==> nibble(#[trigger] v@[k]) is Some,
            bytes@.len() == i / 2,
            forall|k: int| 0 <= k < bytes@.len() ==> bytes@[k] == hex_bytes(v@)[k],
        decreases v@.len() - i,
    {
        let hi: u8 = match decode_nibble(v[i]) {
            Some(n) => n,
            None => {
                assert(nibble(v@[i as int]) is None);
                return None;
            },
        };
        let lo: u8 = match decode_nibble(v[i + 1]) {
            Some(n) => n,
            None => {
                assert(nibble(v@[i + 1]) is None);
                return None;
            },
        };
        bytes.push(hi * 16 + lo);
        assert(bytes@[i as int / 2] == hex_bytes(v@)[i as int / 2]);
        i = i + 2;
    }
    assert(bytes@ =~= hex_bytes(v@));
    Some(bytes)
}

/// The lower-case hexadecimal digit of a number below sixteen.
pub open spec fn hex_char(d: u8) -> char {
    if d < 10 {
        ('0' as u32 + d) as char
    } else {
        ('a' as u32 + d - 10) as char
    }
}

fn hex_digit_of(d: u8) -> (r: char)
    requires
        d < 16,
    ensures
        r == hex_char(d),
{
    if d < 10 {
        (48u8 + d) as char
    } else {
        (97u8 + (d - 10)) as char
    }
}

/// The lower-case hexadecimal notation of some bytes.
pub open spec fn hex_text(bytes: Seq<u8>) -> Seq<char> {
    Seq::new(
        (2 * bytes.len()) as nat,
        |i: int|
            if i % 2 == 0 {
                hex_char(bytes[i / 2] / 16)
            } else {
                hex_char(bytes[i / 2] % 16)
            },
    )
}

/// The lower-case hexadecimal notation of some bytes.
pub fn encode_hex(bytes: &Vec<u8>) -> (r: String)
    ensures
        r@ == hex_text(bytes@),
{
    let mut out = String::new();
    let mut i: usize = 0;
    while i < bytes.len()
        invariant
            i <= bytes@.len(),
            out@ == hex_text(bytes@).take(2 * i),
        decreases bytes@.len() - i,
    {
        out.push(hex_digit_of(bytes[i] / 16));
        out.push(hex_digit_of(bytes[i] % 16));
        proof {
            let whole = hex_text(bytes@);
            assert(whole[2 * i] == hex_char(bytes@[i as int] / 16));
            assert(whole[2 * i + 1] == hex_char(bytes@[i as int] % 16));
            assert(out@ =~= whole.take(2 * (i + 1)));
        }
        i = i + 1;
    }
    assert(hex_text(bytes@).take(2 * i) =~= hex_text(bytes@));
    out
}

proof fn lemma_hex_char(d: u8)
    requires
        d < 16,
    ensures
        nibble(hex_char(d)) == Some(d),
        !is_white(hex_char(d)),
{
}

/// Decoding gives back the bytes that were encoded.
pub proof fn law_hex_round_trip(bytes: Seq<u8>)
    ensures
        trimmed(hex_text(bytes)) == hex_text(bytes),
        is_hex(hex_text(bytes)),
        hex_bytes(hex_text(bytes)) == bytes,
{
    let s = hex_text(bytes);
    assert forall|i: int| 0 <= i < s.len() implies nibble(#[trigger] s[i]) is Some && !is_white(
        s[i],
    ) by {
        lemma_hex_char(bytes[i / 2] / 16);
        lemma_hex_char(bytes[i / 2] % 16);
    }
    if s.len() > 0 {
        assert(!is_white(s[0]));
        assert(!is_white(s[s.len() - 1]));
        assert(trimmed_start(s) == s);
        assert(trimmed_end(s) == s);
    }
    assert forall|i: int| 0 <= i < bytes.len() implies hex_bytes(s)[i] == bytes[i] by {
        lemma_hex_char(bytes[i] / 16);
        lemma_hex_char(bytes[i] % 16);
        assert(s[2 * i] == hex_char(bytes[i] / 16));
        assert(s[2 * i + 1] == hex_char(bytes[i] % 16));
    }
    assert(hex_bytes(s) =~= bytes);
}

/// The signature header for a body: `sha256=` and the tag in hexadecimal.
pub open spec fn signature_text(secret: Seq<char>, body: Seq<u8>) -> Seq<char> {
    "sha256="@ + hex_text(hmac_sha256(vstd::utf8::encode_utf8(secret), body))
}

/// The signature header for a body: `sha256=` and the 64 digits of the tag.
pub fn encode_signature(secret: &str, body: &[u8]) -> (r: String)
    ensures
        r@ == signature_text(secret@, body@),
        r@.len() == 71,
{
    proof {
        reveal_strlit("sha256=");
    }
    let tag = mac_tag(secret.as_bytes(), body);
    cat2("sha256=", encode_hex(&tag).as_str())
}

/// The hexadecimal part of a signature header: what follows `sha256=`, or all
/// of it.
pub open spec fn signature_digits(header: Seq<char>) -> Seq<char> {
    if "sha256="@.is_prefix_of(header) {
        header.skip("sha256="@.len() as int)
    } else {
        header
    }
}

/// The bytes that a signature header claims as the tag, if it is well-formed.
pub open spec fn claimed_tag(header: Seq<char>) -> Option<Seq<u8>> {
    let digits = trimmed(signature_digits(header));
    if is_hex(digits) {
        Some(hex_bytes(digits))
    } else {
        None
    }
}

/// True when a signature header holds for a body.
pub open spec fn signature_holds(secret: Seq<char>, body: Seq<u8>, header: Seq<char>) -> bool {
    claimed_tag(header) == Some(hmac_sha256(vstd::utf8::encode_utf8(secret), body))
}

/// True when a signature header holds for a body.
pub fn signature_matches(secret: &str, body: &[u8], header: &str) -> (r: bool)
    ensures
        r == signature_holds(secret@, body@, header@),
{
    let digits = match strip_prefix(header, "sha256=") {
        Some(rest) => {
            assert(rest@ =~= header@.skip("sha256="@.len() as int));
            rest
        },
        None => header,
    };
    match decode_hex(digits) {
        Some(tag) => mac_verify(secret.as_bytes(), body, tag.as_slice()),
        None => false,
    }
}

/// The signature that is made for a body holds for it.
pub proof fn law_signature_holds(secret: Seq<char>, body: Seq<u8>)
    ensures
        signature_holds(secret, body, signature_text(secret, body)),
{
    let tag = hmac_sha256(vstd::utf8::encode_utf8(secret), body);
    let header = signature_text(secret, body);
    assert("sha256="@.is_prefix_of(header));
    assert(signature_digits(header) =~= hex_text(tag));
    law_hex_round_trip(tag);
}

} // verus!
