//! The asset registry: one class of non-fungible tokens, each with an owner and
//! a kitty as its data, numbered by a counter that never wraps.
use crate::kitty::Kitty;
use std::collections::HashMap;
use vstd::prelude::*;

verus! {

broadcast use vstd::std_specs::hash::group_hash_axioms;

#[derive(Clone, Copy, Debug, PartialEq, Eq)]
pub struct TokenInfo {
    pub owner: u64,
    pub data: Kitty,
}

#[derive(Clone, Copy, Debug, PartialEq, Eq, Structural)]
pub enum NftError {
    /// No token has this index.
    TokenNotFound,
    /// The token belongs to someone else.
    NoPermission,
    /// The token index counter is exhausted.
    NoAvailableTokenId,
}

/// What the registry holds: its tokens by index, and the index that the next
/// minted token gets.
pub struct RegistryView {
    pub tokens: Map<u32, TokenInfo>,
    pub next_token_id: u32,
}

impl RegistryView {
    /// Every token's index was handed out by the counter.
    pub open spec fn wf(self) -> bool {
        forall|id: u32| #[trigger] self.tokens.contains_key(id) ==> id < self.next_token_id
    }

    /// The data of token `id` if `owner` holds it.
    pub open spec fn owned_by(self, owner: u64, id: u32) -> Option<Kitty> {
        if self.tokens.contains_key(id) && self.tokens[id].owner == owner {
            Some(self.tokens[id].data)
        } else {
            None
        }
    }

    /// Why `from` cannot transfer token `id`, if it cannot.
    pub open spec fn transfer_error(self, from: u64, id: u32) -> Option<NftError> {
        if !self.tokens.contains_key(id) {
            Some(NftError::TokenNotFound)
        } else if self.tokens[id].owner != from {
            Some(NftError::NoPermission)
        } else {
            None
        }
    }

    /// The registry once token `id` belongs to `to`.
    pub open spec fn transferred(self, to: u64, id: u32) -> RegistryView {
        RegistryView {
            tokens: self.tokens.insert(id, TokenInfo { owner: to, data: self.tokens[id].data }),
            next_token_id: self.next_token_id,
        }
    }

    /// The registry once a token for `owner` with `data` is minted under the
    /// next index.
    pub open spec fn minted(self, owner: u64, data: Kitty) -> RegistryView {
        RegistryView {
            tokens: self.tokens.insert(self.next_token_id, TokenInfo { owner, data }),
            next_token_id: (self.next_token_id + 1) as u32,
        }
    }
}

pub struct Registry {
    tokens: HashMap<u32, TokenInfo>,
    next_token_id: u32,
}

impl View for Registry {
    type V = RegistryView;

    closed spec fn view(&self) -> RegistryView {
        RegistryView { tokens: self.tokens@, next_token_id: self.next_token_id }
    }
}

impl Registry {
    #[verifier::type_invariant]
    spec fn inv(self) -> bool {
        self@.wf()
    }

    /// The registry is well formed at every moment.
    pub fn ensure_wf(&self)
        ensures
            self@.wf(),
    {
        proof {
            use_type_invariant(self);
        }
    }

    /// Takes the token map out of the registry, leaving it empty, so that the
    /// map can change while the registry stays well formed.
    fn take_tokens(&mut self) -> (r: HashMap<u32, TokenInfo>)
        ensures
            r@ == old(self)@.tokens,
            final(self)@.tokens.is_empty(),
            final(self)@.next_token_id == old(self)@.next_token_id,
    {
        let mut tokens = HashMap::new();
        std::mem::swap(&mut self.tokens, &mut tokens);
        tokens
    }

    pub fn new() -> (r: Registry)
        ensures
            r@.tokens.is_empty(),
            r@.next_token_id == 0,
            r@.wf(),
    {
        Registry { tokens: HashMap::new(), next_token_id: 0 }
    }

    /// A registry whose next minted token gets the index `next_token_id`.
    pub fn with_next_token_id(next_token_id: u32) -> (r: Registry)
        ensures
            r@.tokens.is_empty(),
            r@.next_token_id == next_token_id,
            r@.wf(),
    {
        Registry { tokens: HashMap::new(), next_token_id }
    }

    pub fn next_token_id(&self) -> (r: u32)
        ensures
            r == self@.next_token_id,
    {
        self.next_token_id
    }

    pub fn token(&self, id: u32) -> (r: Option<TokenInfo>)
        ensures
            r == (if self@.tokens.contains_key(id) {
                Some(self@.tokens[id])
            } else {
                None
            }),
    {
        match self.tokens.get(&id) {
            Some(info) => Some(*info),
            None => None,
        }
    }

    /// The data of token `id` if `owner` holds it.
    pub fn owned_by(&self, owner: u64, id: u32) -> (r: Option<Kitty>)
        ensures
            r == self@.owned_by(owner, id),
    {
        match self.tokens.get(&id) {
            Some(info) => {
                if info.owner == owner {
                    Some(info.data)
                } else {
                    None
                }
            },
            None => None,
        }
    }

    /// Mints a token for `owner` under the next index and returns that index;
    /// fails, changing nothing, when the counter cannot move past it.
    pub fn mint(&mut self, owner: u64, data: Kitty) -> (r: Result<u32, NftError>)
        ensures
            final(self)@.wf(),
            old(self)@.next_token_id == u32::MAX ==> r == Err::<u32, NftError>(
                NftError::NoAvailableTokenId,
            ) && final(self)@ == old(self)@,
            old(self)@.next_token_id < u32::MAX ==> r == Ok::<u32, NftError>(
                old(self)@.next_token_id,
            ) && final(self)@ == old(self)@.minted(owner, data),
    {
        proof {
            use_type_invariant(&*self);
        }
        if self.next_token_id == u32::MAX {
            return Err(NftError::NoAvailableTokenId);
        }
        let id = self.next_token_id;
        let mut tokens = self.take_tokens();
        tokens.insert(id, TokenInfo { owner, data });
        self.next_token_id = id + 1;
        proof {
            assert forall|k: u32| #[trigger] tokens@.contains_key(k) implies k
                < self.next_token_id by {
                if k != id {
                    assert(old(self)@.tokens.contains_key(k));
                }
            }
        }
        std::mem::swap(&mut self.tokens, &mut tokens);
        Ok(id)
    }

    /// Moves token `id` from `from` to `to`; fails, changing nothing, when the
    /// token does not exist or `from` does not hold it.
    pub fn transfer(&mut self, from: u64, to: u64, id: u32) -> (r: Result<(), NftError>)
        ensures
            final(self)@.wf(),
            r == (match old(self)@.transfer_error(from, id) {
                Some(e) => Err(e),
                None => Ok(()),
            }),
            r is Err || from == to ==> final(self)@ == old(self)@,
            r is Ok && from != to ==> final(self)@ == old(self)@.transferred(to, id),
    {
        proof {
            use_type_invariant(&*self);
        }
        let info = match self.tokens.get(&id) {
            Some(info) => *info,
            None => return Err(NftError::TokenNotFound),
        };
        if info.owner != from {
            return Err(NftError::NoPermission);
        }
        if from == to {
            return Ok(());
        }
        let mut tokens = self.take_tokens();
        tokens.insert(id, TokenInfo { owner: to, data: info.data });
        proof {
            assert forall|k: u32| #[trigger] tokens@.contains_key(k) implies k
                < self.next_token_id by {
                assert(old(self)@.tokens.contains_key(k));
            }
        }
        std::mem::swap(&mut self.tokens, &mut tokens);
        Ok(())
    }
}

} // verus!
