//! Request signatures: the MD5 of the token, the time, the app key and the
//! data, in lower-case hex.
use vstd::prelude::*;
use vstd::utf8::encode_utf8;
use crate::text::{hex_lower, hex_byte, decimal, decimal_string, push_char, chars_of};

verus! {

/// The application key the calls are made with.
pub open spec fn app_key() -> Seq<char> {
    "12574478"@
}

/// The MD5 digest of a byte string.
pub uninterp spec fn md5_digest(data: Seq<u8>) -> Seq<u8>;

/// Calls `md5::compute` on a byte slice and takes the 16 digest bytes.
/// The contract claims only that the digest is the MD5 of the input bytes
/// (named, not stated).
#[verifier::external_body]
fn md5_compute(data: &[u8]) -> (r: [u8; 16])
    ensures
        r@ == md5_digest(data@),
{
    md5::compute(data).0
}

/// The time in milliseconds since the Unix epoch.
/// Reads `std::time::SystemTime::now()` and its distance from `UNIX_EPOCH`;
/// nothing is promised of the value, and the reading fails when the clock is
/// before the epoch.
#[verifier::external_body]
pub(crate) fn unix_time_millis() -> Option<u128> {
    match std::time::SystemTime::now().duration_since(std::time::UNIX_EPOCH) {
        Ok(d) => Some(d.as_millis()),
        Err(_) => None,
    }
}

/// A lower-case hexadecimal digit.
pub open spec fn is_lower_hex_digit(c: char) -> bool {
    ('0' <= c && c <= '9') || ('a' <= c && c <= 'f')
}

/// Lower-case hex of a byte string, two digits per byte (`{:x}` of a digest).
pub fn hex_string(bytes: &[u8]) -> (r: String)
    ensures
        r@ == hex_lower(bytes@),
        r@.len() == 2 * bytes@.len(),
        forall|k: int| 0 <= k < r@.len() ==> is_lower_hex_digit(#[trigger] r@[k]),
{
    let digits: [char; 16] = [
        '0', '1', '2', '3', '4', '5', '6', '7', '8', '9', 'a', 'b', 'c', 'd', 'e', 'f',
    ];
    assert(forall|d: int|
        0 <= d < 16 ==> #[trigger] digits@[d] == crate::text::hex_digit(d as nat)
            && is_lower_hex_digit(digits@[d]));
    let mut r = String::new();
    let mut i: usize = 0;
    let ghost parts = bytes@.map_values(|b: u8| hex_byte(b));
    while i < bytes.len()
        invariant
            i <= bytes@.len(),
            parts == bytes@.map_values(|b: u8| hex_byte(b)),
            forall|d: int|
                0 <= d < 16 ==> #[trigger] digits@[d] == crate::text::hex_digit(d as nat)
                    && is_lower_hex_digit(digits@[d]),
            r@ == parts.take(i as int).flatten(),
            r@.len() == 2 * i,
            forall|k: int| 0 <= k < r@.len() ==> is_lower_hex_digit(#[trigger] r@[k]),
        decreases bytes@.len() - i,
    {
        let b = bytes[i];
        let hi: usize = (b / 16) as usize;
        let lo: usize = (b % 16) as usize;
        let ghost before = r@;
        push_char(&mut r, digits[hi]);
        push_char(&mut r, digits[lo]);
        proof {
            assert(r@ =~= before.push(digits@[hi as int]).push(digits@[lo as int]));
            assert(parts.take(i + 1) =~= parts.take(i as int).push(hex_byte(b)));
            parts.take(i as int).lemma_flatten_push(hex_byte(b));
            assert(r@ =~= parts.take(i as int).flatten() + hex_byte(b));
        }
        i = i + 1;
    }
    assert(parts.take(bytes@.len() as int) =~= parts);
    r
}

/// The token part of the `_m_h5_tk` cookie: everything before its first `_`.
pub open spec fn token_of(s: Seq<char>) -> Seq<char>
    decreases s.len(),
{
    if s.len() == 0 || s[0] == '_' {
        Seq::empty()
    } else {
        seq![s[0]] + token_of(s.drop_first())
    }
}

proof fn lemma_token_prefix(s: Seq<char>, i: int)
    requires
        0 <= i <= s.len(),
        forall|k: int| 0 <= k < i ==> s[k] != '_',
    ensures
        token_of(s) == s.take(i) + token_of(s.skip(i)),
    decreases i,
{
    if i > 0 {
        lemma_token_prefix(s.drop_first(), i - 1);
        assert(s.drop_first().skip(i - 1) =~= s.skip(i));
        assert(s.take(i) =~= seq![s[0]] + s.drop_first().take(i - 1));
    } else {
        assert(s.skip(0) =~= s);
    }
}

/// The part of the cookie value before its first `_`.
pub fn token(m_h5_tk: &str) -> (r: String)
    ensures
        r@ == token_of(m_h5_tk@),
{
    let cs = chars_of(m_h5_tk);
    let mut r = String::new();
    let mut i: usize = 0;
    while i < cs.len() && cs[i] != '_'
        invariant
            i <= cs@.len(),
            cs@ == m_h5_tk@,
            forall|k: int| 0 <= k < i ==> cs@[k] != '_',
            r@ == cs@.take(i as int),
        decreases cs@.len() - i,
    {
        push_char(&mut r, cs[i]);
        assert(cs@.take(i + 1) =~= cs@.take(i as int).push(cs@[i as int]));
        i = i + 1;
    }
    proof {
        lemma_token_prefix(cs@, i as int);
        if i < cs@.len() {
            assert(cs@.skip(i as int)[0] == '_');
        }
        assert(token_of(cs@.skip(i as int)) =~= Seq::<char>::empty());
    }
    r
}

/// The text that is signed: token, time, app key and data joined with `&`.
pub open spec fn sign_input(data: Seq<char>, m_h5_tk: Seq<char>, t: Seq<char>) -> Seq<char> {
    token_of(m_h5_tk) + "&"@ + t + "&"@ + app_key() + "&"@ + data
}

/// The signature: lower-case hex of the MD5 of the signed text's UTF-8 bytes.
pub open spec fn sign_of(data: Seq<char>, m_h5_tk: Seq<char>, t: Seq<char>) -> Seq<char> {
    hex_lower(md5_digest(encode_utf8(sign_input(data, m_h5_tk, t))))
}

/// The signature of `data` at time `t` with the cookie value `m_h5_tk`:
/// 32 lower-case hex digits.
pub fn sign_with_time(data: &str, m_h5_tk: &str, t: &str) -> (r: String)
    ensures
        r@ == sign_of(data@, m_h5_tk@, t@),
        r@.len() == 32,
        forall|k: int| 0 <= k < r@.len() ==> is_lower_hex_digit(#[trigger] r@[k]),
{
    let mut s = token(m_h5_tk);
    s.append("&");
    s.append(t);
    s.append("&");
    s.append("12574478");
    s.append("&");
    s.append(data);
    let bytes = s.as_str().as_bytes();
    let digest = md5_compute(bytes);
    hex_string(vstd::array::array_as_slice(&digest))
}

/// The signature of `data` and the time it was made at (milliseconds since
/// the Unix epoch, in decimal). Nothing when the clock reads before the epoch.
pub fn get_sign_val(d: &str, m_h5_tk: &str) -> (r: Option<(String, String)>)
    ensures
        r matches Some(p) ==> (exists|ms: nat| p.1@ == decimal(ms)) && p.0@ == sign_of(
            d@,
            m_h5_tk@,
            p.1@,
        ) && p.0@.len() == 32 && forall|k: int|
            0 <= k < p.0@.len() ==> is_lower_hex_digit(#[trigger] p.0@[k]),
{
    match unix_time_millis() {
        Some(ms) => {
            let t = decimal_string(ms);
            let sign = sign_with_time(d, m_h5_tk, t.as_str());
            Some((sign, t))
        },
        None => None,
    }
}

} // verus!
