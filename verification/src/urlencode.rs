//! `application/x-www-form-urlencoded` text of name/value pairs.
use vstd::prelude::*;
use vstd::utf8::encode_utf8;
use crate::text::join;

verus! {

/// Upper-case hexadecimal digit for `d < 16`.
pub open spec fn hex_upper_digit(d: nat) -> char {
    if d < 10 {
        (d + 48) as char
    } else {
        (d + 55) as char
    }
}

/// Bytes written unchanged: `*`, `-`, `.`, `_`, ASCII digits and letters.
pub open spec fn byte_unchanged(b: u8) -> bool {
    b == 0x2a || b == 0x2d || b == 0x2e || (0x30 <= b <= 0x39) || (0x41 <= b <= 0x5a) || b == 0x5f
        || (0x61 <= b <= 0x7a)
}

/// How one byte is written: unchanged, a space as `+`, any other byte as
/// `%XX` with upper-case hex digits.
pub open spec fn form_byte(b: u8) -> Seq<char> {
    if byte_unchanged(b) {
        seq![b as char]
    } else if b == 0x20 {
        seq!['+']
    } else {
        seq!['%', hex_upper_digit((b / 16) as nat), hex_upper_digit((b % 16) as nat)]
    }
}

/// The encoded form of a string: its UTF-8 bytes written one by one.
pub open spec fn form_encode(s: Seq<char>) -> Seq<char> {
    encode_utf8(s).map_values(|b: u8| form_byte(b)).flatten()
}

/// One pair as `name=value`.
pub open spec fn form_pair(p: (Seq<char>, Seq<char>)) -> Seq<char> {
    form_encode(p.0) + seq!['='] + form_encode(p.1)
}

/// The pairs as `name=value` joined with `&`.
pub open spec fn form_urlencoded(pairs: Seq<(Seq<char>, Seq<char>)>) -> Seq<char> {
    join(pairs.map_values(|p: (Seq<char>, Seq<char>)| form_pair(p)), seq!['&'])
}

/// The views of a list of string pairs.
pub open spec fn pair_views(pairs: Seq<(String, String)>) -> Seq<(Seq<char>, Seq<char>)> {
    pairs.map_values(|p: (String, String)| (p.0@, p.1@))
}

#[verifier::external_type_specification]
#[verifier::external_body]
pub struct ExUrlEncodeError(serde_urlencoded::ser::Error);

/// Calls `serde_urlencoded::to_string` on a slice of string pairs. The
/// contract claims that the call succeeds (a sequence of two-string tuples is
/// always accepted) and yields the pairs as form_urlencoded's serializer
/// writes them: `name=value` joined with `&`, each byte of the UTF-8 form kept
/// when it is `*-._`, an ASCII digit or letter, a space as `+`, any other byte
/// as `%XX` in upper-case hex.
#[verifier::external_body]
fn serde_urlencode_pairs(pairs: &[(String, String)]) -> (r: Result<
    String,
    serde_urlencoded::ser::Error,
>)
    ensures
        r is Ok,
        r->Ok_0@ == form_urlencoded(pair_views(pairs@)),
{
    serde_urlencoded::to_string(pairs)
}

/// The urlencoded text of name/value pairs.
pub fn encode_pairs(pairs: &Vec<(String, String)>) -> (r: String)
    ensures
        r@ == form_urlencoded(pair_views(pairs@)),
{
    match serde_urlencode_pairs(pairs.as_slice()) {
        Ok(t) => t,
        Err(_) => {
            proof {
                assert(false);
            }
            String::new()
        },
    }
}

/// Appends the pair `(name, value)`.
pub fn push_pair(pairs: &mut Vec<(String, String)>, name: &str, value: &str)
    ensures
        pair_views(final(pairs)@) == pair_views(old(pairs)@).push((name@, value@)),
{
    pairs.push((String::from_str(name), String::from_str(value)));
    assert(pair_views(pairs@) =~= pair_views(old(pairs)@).push((name@, value@)));
}

/// A value sent as `application/x-www-form-urlencoded` text.
pub trait UrlParams {
    /// The name/value pairs that are sent, in order.
    spec fn url_pairs(&self) -> Seq<(Seq<char>, Seq<char>)>;

    /// The urlencoded text of the pairs.
    fn to_url_params(&self) -> (r: String)
        ensures
            r@ == form_urlencoded(self.url_pairs()),
    ;
}

} // verus!
