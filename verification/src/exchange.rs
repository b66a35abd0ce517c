//! The token-registry stub and two read-only token-account projections.
//!
//! The registry persists only a list of tradable token identifiers and a
//! zero-initialized history cursor; it shares no state with the ledger core.
//! The balance and total-supply reads are pure field projections over
//! externally-owned account state, modelled here as plain values.

use vstd::prelude::*;

verus! {

/// The registry stub's persisted state: the token list and an index cursor.
#[derive(Debug)]
pub struct DexAccount {
    pub token_list: Vec<String>,
    pub history_index: u64,
}

/// Creates the registry: stores the given token identifiers and a cursor at
/// zero.
pub fn initialize(tokens: Vec<String>) -> (account: DexAccount)
    ensures
        account.token_list == tokens,
        account.history_index == 0,
{
    DexAccount { token_list: tokens, history_index: 0 }
}

/// A read view over one externally-owned token account.
#[derive(Debug)]
pub struct GetBalance {
    pub token_account: TokenAccountState,
}

/// The externally-owned token-account state the balance read projects from.
#[derive(Clone, Copy, Debug)]
pub struct TokenAccountState {
    pub amount: u64,
}

impl GetBalance {
    /// The balance held by the token account.
    pub fn get_balance(&self) -> (r: u64)
        ensures
            r == self.token_account.amount,
    {
        self.token_account.amount
    }
}

/// A read view over one externally-owned mint.
#[derive(Debug)]
pub struct GetTokenInfo {
    pub mint: MintState,
}

/// The externally-owned mint state the supply read projects from.
#[derive(Clone, Copy, Debug)]
pub struct MintState {
    pub supply: u64,
}

impl GetTokenInfo {
    /// The total minted supply.
    pub fn get_total_supply(&self) -> (r: u64)
        ensures
            r == self.mint.supply,
    {
        self.mint.supply
    }

    /// Token names are not part of the on-chain state; the read says so.
    pub fn get_name(&self) -> (r: String)
        ensures
            r@ == "Token name not available on-chain"@,
    {
        "Token name not available on-chain".to_owned()
    }
}

} // verus!
