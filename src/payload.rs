//! Random alphanumeric payloads.
use vstd::prelude::*;

verus! {

/// The characters a payload may hold: ASCII digits and ASCII letters of
/// either case.
pub open spec fn is_alphanumeric(c: char) -> bool {
    ||| ('0' <= c && c <= '9')
    ||| ('A' <= c && c <= 'Z')
    ||| ('a' <= c && c <= 'z')
}

/// Every character of `s` is alphanumeric.
pub open spec fn all_alphanumeric(s: Seq<char>) -> bool {
    forall|i: int| 0 <= i < s.len() ==> is_alphanumeric(#[trigger] s[i])
}

#[verifier::external_type_specification]
#[verifier::external_body]
pub struct ExThreadRng(rand::rngs::ThreadRng);

/// Relies on rand::thread_rng: a handle to the lazily seeded generator of
/// the current thread.
pub assume_specification[ rand::thread_rng ]() -> rand::rngs::ThreadRng;

/// Relies on String::push: the character is appended at the end.
pub assume_specification[ String::push ](s: &mut String, ch: char)
    ensures
        final(s)@ == old(s)@.push(ch),
;

/// Relies on rand's `Alphanumeric` distribution, which picks one of the 62
/// characters `A-Z`, `a-z`, `0-9`.
#[verifier::external_body]
fn draw_alphanumeric(rng: &mut rand::rngs::ThreadRng) -> (c: char)
    ensures
        is_alphanumeric(c),
{
    rand::Rng::sample(rng, rand::distributions::Alphanumeric)
}

/// A fresh random string of `len` alphanumeric characters, drawn from the
/// thread's generator with no fixed seed.
pub fn random_string(len: usize) -> (s: String)
    ensures
        s@.len() == len,
        all_alphanumeric(s@),
{
    let mut rng = rand::thread_rng();
    let mut s = String::new();
    let mut i: usize = 0;
    while i < len
        invariant
            i <= len,
            s@.len() == i,
            all_alphanumeric(s@),
        decreases len - i,
    {
        let c = draw_alphanumeric(&mut rng);
        s.push(c);
        i = i + 1;
    }
    s
}

} // verus!
