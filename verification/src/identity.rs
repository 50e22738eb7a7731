//! Identity tokens: a registry from token id to the owner of the token and
//! the time at which it was issued.

use vstd::prelude::*;
use vstd::hash_map::StringHashMap;
use crate::clock::unix_seconds;

verus! {

/// An issued token.
#[derive(Clone)]
pub struct Token {
    /// Who holds the token.
    pub owner: String,
    /// When it was issued, in seconds since the Unix epoch. Set once.
    pub issued: u64,
}

/// What a token is: its owner's name and its stamp.
pub ghost struct TokenView {
    pub owner: Seq<char>,
    pub issued: u64,
}

impl View for Token {
    type V = TokenView;

    open spec fn view(&self) -> TokenView {
        TokenView { owner: self.owner@, issued: self.issued }
    }
}

/// The registry after `id` has been issued to `owner` at time `now`: the new
/// record stands under `id`, in place of any earlier one.
pub open spec fn with_token(
    tokens: Map<Seq<char>, TokenView>,
    id: Seq<char>,
    owner: Seq<char>,
    now: u64,
) -> Map<Seq<char>, TokenView> {
    tokens.insert(id, TokenView { owner, issued: now })
}

/// Maintains issued identity tokens, at most one per id.
pub struct IdentityToken {
    tokens: StringHashMap<Token>,
}

impl View for IdentityToken {
    type V = Map<Seq<char>, TokenView>;

    closed spec fn view(&self) -> Map<Seq<char>, TokenView> {
        self.tokens@.map_values(|t: Token| t@)
    }
}

impl IdentityToken {
    /// Creates an empty registry.
    pub fn new() -> (r: Self)
        ensures
            r@ == Map::<Seq<char>, TokenView>::empty(),
    {
        IdentityToken { tokens: StringHashMap::new() }
    }

    /// Issues the token `id` to `owner`, stamped with the time `now`. A token
    /// already issued under `id` is replaced, stamp included.
    pub fn issue_at(&mut self, id: &str, owner: &str, now: u64)
        ensures
            final(self)@ == with_token(old(self)@, id@, owner@, now),
    {
        let token = Token { owner: owner.to_owned(), issued: now };
        self.tokens.insert(id.to_owned(), token);
    }

    /// Issues the token `id` to `owner`, stamped with the clock's reading at
    /// the moment of the call. The reading is taken once; whatever it is, the
    /// registry is the old one with the new record under `id`.
    pub fn issue(&mut self, id: &str, owner: &str)
        ensures
            exists|now: u64| final(self)@ == #[trigger] with_token(old(self)@, id@, owner@, now),
            final(self)@.dom() == old(self)@.dom().insert(id@),
            final(self)@[id@].owner == owner@,
            final(self)@.remove(id@) == old(self)@.remove(id@),
    {
        let now = unix_seconds();
        self.issue_at(id, owner, now);
    }

    /// Revokes the token `id`. Revoking a token that was never issued, or was
    /// revoked before, changes nothing.
    pub fn revoke(&mut self, id: &str)
        ensures
            final(self)@ == old(self)@.remove(id@),
    {
        self.tokens.remove(id);
    }

    /// The owner of the token `id`, or `None` where no such token stands.
    pub fn owner_of(&self, id: &str) -> (r: Option<&str>)
        ensures
            r.is_some() <==> self@.contains_key(id@),
            r matches Some(owner) ==> owner@ == self@[id@].owner,
    {
        match self.tokens.get(id) {
            Some(token) => Some(token.owner.as_str()),
            None => None,
        }
    }

    /// The record of the token `id`, or `None` where no such token stands.
    pub fn token(&self, id: &str) -> (r: Option<&Token>)
        ensures
            r.is_some() <==> self@.contains_key(id@),
            r matches Some(token) ==> token@ == self@[id@],
    {
        self.tokens.get(id)
    }
}

/// A token that was issued is owned by whom it was issued to, and a token
/// that was revoked is gone, whoever owned it. Neither reaches another id.
pub proof fn lemma_issued_then_revoked(
    tokens: Map<Seq<char>, TokenView>,
    id: Seq<char>,
    owner: Seq<char>,
    now: u64,
    other: Seq<char>,
)
    requires
        other != id,
    ensures
        with_token(tokens, id, owner, now).contains_key(id),
        with_token(tokens, id, owner, now)[id].owner == owner,
        with_token(tokens, id, owner, now)[id].issued == now,
        !with_token(tokens, id, owner, now).remove(id).contains_key(id),
        with_token(tokens, id, owner, now).contains_key(other) == tokens.contains_key(other),
        tokens.contains_key(other) ==> with_token(tokens, id, owner, now).remove(id)[other]
            == tokens[other],
{
}

} // verus!
