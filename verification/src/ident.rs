//! Identifiers: fixed-length random strings over `[A-Za-z0-9]`.

use rand::distributions::Alphanumeric;
use rand::Rng;
use vstd::prelude::*;

verus! {

/// The length of every identifier that the service hands out.
pub const ID_LEN: usize = 30;

/// `c` is an ASCII letter or digit.
pub open spec fn is_alphanumeric(c: char) -> bool {
    ||| 'A' <= c <= 'Z'
    ||| 'a' <= c <= 'z'
    ||| '0' <= c <= '9'
}

/// `s` is made of ASCII letters and digits only.
pub open spec fn all_alphanumeric(s: Seq<char>) -> bool {
    forall|i: int| 0 <= i < s.len() ==> is_alphanumeric(#[trigger] s[i])
}

/// `s` has the shape of an identifier of this service.
pub open spec fn is_id(s: Seq<char>) -> bool {
    s.len() == ID_LEN && all_alphanumeric(s)
}

/// `String::push` appends one character to the string.
pub assume_specification[ String::push ](s: &mut String, ch: char)
    ensures
        final(s)@ == old(s)@.push(ch),
;

/// One draw of `rand::Rng::sample` with the `Alphanumeric` distribution on the
/// thread-local generator. The distribution picks a byte out of a fixed table
/// of the 62 ASCII letters and digits; which one is up to chance.
#[verifier::external_body]
fn sample_alphanumeric() -> (b: u8)
    ensures
        is_alphanumeric(b as char),
{
    rand::thread_rng().sample(Alphanumeric)
}

/// A random string of `len` letters and digits.
pub fn gen_id(len: usize) -> (key: String)
    ensures
        key@.len() == len,
        all_alphanumeric(key@),
{
    let mut key = String::new();
    let mut i: usize = 0;
    while i < len
        invariant
            i <= len,
            key@.len() == i,
            all_alphanumeric(key@),
        decreases len - i,
    {
        let b = sample_alphanumeric();
        key.push(b as char);
        i += 1;
    }
    key
}

/// A fresh identifier: `ID_LEN` random letters and digits.
pub fn fresh_id() -> (id: String)
    ensures
        is_id(id@),
{
    gen_id(ID_LEN)
}

} // verus!
