//! What an operation asks of the token program, and what it is told of
//! token accounts.

use vstd::prelude::*;
use crate::identity::Identity;

verus! {

/// A movement of tokens that an operation requests. The host carries it
/// out together with the operation or not at all.
#[derive(Clone, Copy, Debug, PartialEq, Eq)]
pub enum TokenInstruction {
    /// Create `amount` units of `mint` for `to`.
    MintTo { mint: Identity, to: Identity, amount: u64 },
    /// Destroy `amount` units of `mint` held by `from`.
    Burn { mint: Identity, from: Identity, amount: u64 },
    /// Move `amount` units of `mint` from `from` to `to`.
    Transfer { mint: Identity, from: Identity, to: Identity, amount: u64 },
}

/// What an operation is told of a token account: the token type it holds
/// and who owns it.
#[derive(Clone, Copy, Debug, PartialEq, Eq)]
pub struct TokenAccountRef {
    pub mint: Identity,
    pub owner: Identity,
}

/// The record an operation publishes, with the one token movement it
/// requests.
#[derive(Clone, Copy, Debug, PartialEq, Eq)]
pub struct Receipt<E> {
    pub event: E,
    pub token: TokenInstruction,
}

impl TokenAccountRef {
    /// Whether the account holds tokens of `mint` for `owner`.
    pub open spec fn spec_holds(&self, mint: Identity, owner: Identity) -> bool {
        self.mint == mint && self.owner == owner
    }

    /// Whether the account holds tokens of `mint` for `owner`.
    pub fn holds(&self, mint: &Identity, owner: &Identity) -> (held: bool)
        ensures
            held == self.spec_holds(*mint, *owner),
    {
        self.mint == *mint && self.owner == *owner
    }
}

} // verus!
