//! The anti-forgery state generator.
//!
//! Every sign-in link carries an opaque value that the provider hands back
//! on the redirect. The value is drawn from the thread-local random
//! generator of `rand`, one alphanumeric character at a time.

use rand::Rng;
use vstd::prelude::*;

verus! {

/// The number of characters in an anti-forgery state.
pub const STATE_LENGTH: usize = 32;

/// Whether `c` is one of `A`-`Z`, `a`-`z`, `0`-`9`.
pub open spec fn is_alphanumeric(c: char) -> bool {
    ||| 'A' <= c <= 'Z'
    ||| 'a' <= c <= 'z'
    ||| '0' <= c <= '9'
}

/// Whether `s` has the shape of an anti-forgery state: exactly
/// [`STATE_LENGTH`] characters, each of them alphanumeric.
pub open spec fn is_auth_state(s: Seq<char>) -> bool {
    &&& s.len() == STATE_LENGTH
    &&& forall|i: int| 0 <= i < s.len() ==> is_alphanumeric(#[trigger] s[i])
}

/// `String::push` appends the given character to the end of the string.
pub assume_specification[ String::push ](s: &mut String, c: char)
    ensures
        final(s)@ == old(s)@.push(c),
;

/// Draws one character with `rand::thread_rng().sample(Alphanumeric)`.
///
/// `rand` documents `Alphanumeric` as a `u8` spread uniformly over the ASCII
/// letters and digits; the contract claims only that the character is one of
/// those, which holds of every draw.
#[verifier::external_body]
fn sample_alphanumeric() -> (c: char)
    ensures
        is_alphanumeric(c),
{
    char::from(rand::thread_rng().sample(rand::distributions::Alphanumeric))
}

/// A fresh anti-forgery state.
///
/// Which state comes back is up to the random generator; its shape is not.
pub fn generate_state() -> (state: String)
    ensures
        is_auth_state(state@),
{
    let mut state = String::new();
    let mut drawn: usize = 0;
    while drawn < STATE_LENGTH
        invariant
            drawn <= STATE_LENGTH,
            state@.len() == drawn,
            forall|i: int| 0 <= i < state@.len() ==> is_alphanumeric(#[trigger] state@[i]),
        decreases STATE_LENGTH - drawn,
    {
        let c = sample_alphanumeric();
        state.push(c);
        drawn += 1;
    }
    state
}

} // verus!
