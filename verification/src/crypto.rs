//! Signing primitives: HMAC-SHA256, standard Base64 and form-urlencoding.

use hmac::{Hmac, Mac};
use sha2::Sha256;
use vstd::prelude::*;

verus! {

/// The HMAC-SHA256 tag of `msg` under `key`.
pub uninterp spec fn hmac_sha256_tag(key: Seq<u8>, msg: Seq<u8>) -> Seq<u8>;

/// Calls `Hmac::<Sha256>::new_from_slice`, `Mac::update` and `Mac::finalize` of the
/// `hmac` crate. Claimed: the tag is the HMAC-SHA256 tag of `msg` under `key`, 32
/// bytes long, and the key is never refused (`new_from_slice` of `HmacCore` returns
/// `Ok` for keys of every length in hmac 0.12).
#[verifier::external_body]
pub fn hmac_sha256(key: &[u8], msg: &[u8]) -> (r: Option<Vec<u8>>)
    ensures
        r is Some,
        r matches Some(t) ==> t@ == hmac_sha256_tag(key@, msg@) && t@.len() == 32,
{
    match <Hmac<Sha256> as Mac>::new_from_slice(key) {
        Ok(mut mac) => {
            mac.update(msg);
            Some(mac.finalize().into_bytes().to_vec())
        },
        Err(_) => None,
    }
}

/// The character of the standard Base64 alphabet for the 6-bit value `v`.
pub open spec fn b64_sym(v: int) -> char {
    if v < 26 {
        (65 + v) as char
    } else if v < 52 {
        (97 + v - 26) as char
    } else if v < 62 {
        (48 + v - 52) as char
    } else if v == 62 {
        '+'
    } else {
        '/'
    }
}

/// Standard Base64 (RFC 4648, with `=` padding) of `d`.
pub open spec fn base64_std(d: Seq<u8>) -> Seq<char>
    decreases d.len(),
{
    if d.len() == 0 {
        Seq::empty()
    } else if d.len() == 1 {
        seq![b64_sym((d[0] as int) / 4), b64_sym(((d[0] as int) % 4) * 16), '=', '=']
    } else if d.len() == 2 {
        seq![b64_sym((d[0] as int) / 4), b64_sym(((d[0] as int) % 4) * 16 + (d[1] as int) / 16), b64_sym(((d[1] as int) % 16) * 4), '=']
    } else {
        seq![
            b64_sym((d[0] as int) / 4),
            b64_sym(((d[0] as int) % 4) * 16 + (d[1] as int) / 16),
            b64_sym(((d[1] as int) % 16) * 4 + (d[2] as int) / 64),
            b64_sym((d[2] as int) % 64),
        ] + base64_std(d.skip(3))
    }
}

/// Calls `Engine::encode` of the `base64` crate with `general_purpose::STANDARD`.
/// Claimed: the result is the padded standard Base64 text of `data`.
#[verifier::external_body]
pub fn base64_standard(data: &[u8]) -> (r: String)
    ensures
        r@ == base64_std(data@),
{
    base64::Engine::encode(&base64::engine::general_purpose::STANDARD, data)
}

/// The bytes that `application/x-www-form-urlencoded` leaves as they are.
pub open spec fn form_unchanged(b: u8) -> bool {
    b == 42 || b == 45 || b == 46 || (48 <= b <= 57) || (65 <= b <= 90) || b == 95 || (97 <= b
        <= 122)
}

pub open spec fn hex_upper(v: int) -> char {
    if v < 10 {
        (48 + v) as char
    } else {
        (55 + v) as char
    }
}

/// How one byte is written.
pub open spec fn form_byte(b: u8) -> Seq<char> {
    if form_unchanged(b) {
        seq![b as char]
    } else if b == 32 {
        seq!['+']
    } else {
        seq!['%', hex_upper((b as int) / 16), hex_upper((b as int) % 16)]
    }
}

/// The form-urlencoding of `d`.
pub open spec fn form_urlencode(d: Seq<u8>) -> Seq<char>
    decreases d.len(),
{
    if d.len() == 0 {
        Seq::empty()
    } else {
        form_byte(d[0]) + form_urlencode(d.skip(1))
    }
}

/// Calls `url::form_urlencoded::byte_serialize` on the UTF-8 bytes of `s`. Claimed:
/// bytes in `*-._`, digits and ASCII letters stay, a space becomes `+`, every other
/// byte becomes `%` and two upper-case hex digits (as the crate's source does it).
#[verifier::external_body]
pub fn form_urlencode_str(s: &str) -> (r: String)
    ensures
        r@ == form_urlencode(vstd::utf8::encode_utf8(s@)),
{
    url::form_urlencoded::byte_serialize(s.as_bytes()).collect::<String>()
}

} // verus!
