//! A fungible-token ledger with optional, independently togglable extensions:
//! pausability, owner-gated minting, owner-gated burning, and a time-boxed
//! public sale. Balances, total supply and all state transitions are verified;
//! the host environment (caller identity, wall-clock time, attached payment,
//! native transfers) supplies plain values and performs the queued actions.

use vstd::prelude::*;

pub mod ledger;
pub mod token;

verus! {

/// An account on the host ledger, identified by a plain number.
pub type AccountId = u64;

/// A token or native-currency amount.
pub type Balance = u128;

/// A block timestamp supplied by the host.
pub type Timestamp = u64;

/// Every recoverable, user-visible failure of the token's operations.
#[derive(Clone, Copy, Debug, PartialEq, Eq)]
pub enum Error {
    /// The feature flag that gates the requested operation is off.
    FeatureNotEnabled,
    /// The caller is not the owner of an owner-gated operation.
    NotOwner,
    /// The purchase came strictly before the sale opens or strictly after it closes.
    NotOnSale,
    /// The attached payment does not cover the price of the requested amount.
    InsufficientFunds,
    /// The purchase would push total supply above the sale's maximum supply.
    InsufficientSupply,
    /// A burn asked for more than the caller's balance.
    InsufficientBalance,
    /// An operation needs configuration that was never made: the sale
    /// parameters before `set_sale_options`, or an owner that was never
    /// assigned at construction.
    NotConfigured,
}

} // verus!
