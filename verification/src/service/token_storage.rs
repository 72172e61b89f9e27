//! The token store: one slot that remembers the latest access token.

use vstd::prelude::*;

verus! {

/// The slot of a store on which nothing was set yet.
pub open spec fn empty_slot() -> Option<Seq<char>> {
    None
}

/// The slot after `token` was written to it, whatever it held before.
pub open spec fn slot_after_set(slot: Option<Seq<char>>, token: Seq<char>) -> Option<Seq<char>> {
    Some(token)
}

/// A simple in-memory holder of the most recently obtained access token.
///
/// There is no history and no per-user keying: a write replaces whatever was
/// stored. Callers that share a store between tasks guard it with a lock and
/// hold that lock only around `set` and `get`.
#[derive(Debug)]
pub struct TokenStorage {
    pub access_token: Option<String>,
}

impl View for TokenStorage {
    type V = Option<Seq<char>>;

    open spec fn view(&self) -> Option<Seq<char>> {
        match self.access_token {
            Some(token) => Some(token@),
            None => None,
        }
    }
}

impl TokenStorage {
    /// A store that holds no token.
    pub fn new() -> (store: Self)
        ensures
            store@ == empty_slot(),
    {
        TokenStorage { access_token: None }
    }

    /// Replaces the stored token unconditionally.
    pub fn set(&mut self, token: String)
        ensures
            final(self)@ == slot_after_set(old(self)@, token@),
    {
        self.access_token = Some(token);
    }

    /// The current token, or `None` if none was ever set.
    pub fn get(&self) -> (token: Option<String>)
        ensures
            token is Some <==> self@ is Some,
            token matches Some(t) ==> self@ == Some(t@),
    {
        match &self.access_token {
            Some(token) => Some(token.clone()),
            None => None,
        }
    }
}

/// Reading a store right after `token` was set on it yields `token`, whatever
/// the store held before.
pub proof fn lemma_get_after_set(slot: Option<Seq<char>>, token: Seq<char>)
    ensures
        slot_after_set(slot, token) == Some(token),
{
}

/// Of two writes in a row the later one wins: the store holds exactly one
/// value, the second, and nothing of the first.
pub proof fn lemma_last_write_wins(slot: Option<Seq<char>>, first: Seq<char>, second: Seq<char>)
    ensures
        slot_after_set(slot_after_set(slot, first), second) == Some(second),
        slot_after_set(slot_after_set(slot, first), second) == slot_after_set(slot, second),
{
}

/// A store on which nothing was set yields no token.
pub proof fn lemma_new_is_empty()
    ensures
        empty_slot() is None,
{
}

} // verus!
