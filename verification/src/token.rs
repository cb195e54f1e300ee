//! The token contract: feature flags fixed at construction, owner-gated
//! operations, and the time-boxed public sale.
//!
//! The host supplies the caller identity, the current block time and the
//! attached native payment as plain arguments, and performs the actions the
//! contract queues: `events` are the events to emit and `transfers` the
//! native-currency transfers to carry out, in order.

use vstd::prelude::*;

use crate::AccountId;
use crate::Balance;
use crate::Error;
use crate::Timestamp;
use crate::ledger::Ledger;

verus! {

/// The optional behaviours selected at construction, the owner that gates
/// them, and the sale parameters the owner may set later.
pub struct EnabledFeatures {
    /// Whether the pause switch may be toggled.
    pub is_pausable: bool,
    /// Whether the owner may mint.
    pub is_mintable: bool,
    /// Whether holders may burn their own tokens.
    pub is_burnable: bool,
    /// The single privileged account; present exactly when minting or pausing
    /// was enabled at construction.
    pub owner: Option<AccountId>,
    /// Whether the public sale may accept purchases.
    pub is_sale: bool,
    /// Price of one unit, in native currency; set by `set_sale_options`.
    pub sale_price: Option<Balance>,
    /// Upper bound on total supply that a purchase may not push past.
    pub max_supply: Option<Balance>,
    /// First timestamp (inclusive) at which purchases are accepted.
    pub start_at: Option<Timestamp>,
    /// Last timestamp (inclusive) at which purchases are accepted.
    pub end_at: Option<Timestamp>,
}

impl EnabledFeatures {
    /// The owner exists exactly when an owner-gated flag was enabled, and the
    /// four sale parameters are set all together or not at all.
    pub open spec fn wf(self) -> bool {
        &&& (self.owner is Some <==> (self.is_mintable || self.is_pausable))
        &&& self.max_supply is Some == self.sale_price is Some
        &&& self.start_at is Some == self.sale_price is Some
        &&& self.end_at is Some == self.sale_price is Some
    }
}

/// Token name, symbol and decimal count, set verbatim at construction.
pub struct Metadata {
    /// Human-readable token name, if any.
    pub name: Option<String>,
    /// Ticker symbol, if any.
    pub symbol: Option<String>,
    /// Number of decimals the token is displayed with.
    pub decimals: u8,
}

/// Event recorded when the owner replaces the sale parameters.
#[derive(Clone, Copy, Debug, PartialEq, Eq)]
pub struct SetSaleOptions {
    /// The new price of one unit.
    pub sale_price: Balance,
    /// The new upper bound on total supply.
    pub max_supply: Balance,
    /// The new opening timestamp.
    pub start_at: Timestamp,
    /// The new closing timestamp.
    pub end_at: Timestamp,
}

/// Event recorded when a purchase succeeds.
#[derive(Clone, Copy, Debug, PartialEq, Eq)]
pub struct TokenBought {
    /// The buyer, who received the minted tokens.
    pub receiver_address: AccountId,
    /// How many units were bought.
    pub amount: Balance,
}

/// An event the host is to emit.
#[derive(Clone, Copy, Debug, PartialEq, Eq)]
pub enum Event {
    /// The sale parameters were replaced.
    SetSaleOptions(SetSaleOptions),
    /// A purchase succeeded.
    TokenBought(TokenBought),
}

/// A native-currency transfer the host is to carry out.
#[derive(Clone, Copy, Debug, PartialEq, Eq)]
pub struct NativeTransfer {
    /// The receiving account.
    pub to: AccountId,
    /// The amount of native currency.
    pub value: Balance,
}

/// The contract's whole state: the ledger, the metadata, the feature flags
/// with the sale parameters, the pause switch, and the actions queued for the
/// host.
pub struct Contract {
    /// Balances and total supply.
    pub ledger: Ledger,
    /// Name, symbol and decimals.
    pub metadata: Metadata,
    /// Feature flags, owner and sale parameters.
    pub features: EnabledFeatures,
    /// The pause switch the standard transfer path consults.
    pub paused: bool,
    /// Events for the host to emit, oldest first.
    pub events: Vec<Event>,
    /// Native transfers for the host to carry out, oldest first.
    pub transfers: Vec<NativeTransfer>,
}

/// The marker every token honouring the standard call surface carries.
pub trait Psp22Token {

}

impl Psp22Token for Contract {

}

impl Contract {
    /// Well-formedness: the ledger's accounting and the flag discipline hold.
    pub open spec fn wf(self) -> bool {
        &&& self.ledger.wf()
        &&& self.features.wf()
    }

    /// Whether `caller` is the owner.
    pub open spec fn is_owner(self, caller: AccountId) -> bool {
        self.features.owner == Some(caller)
    }

    /// The first reason a purchase of `amount` units at time `now` with
    /// attached payment `transferred_value` is rejected, if any; checked in
    /// order: sale feature, time window, payment, supply cap, then the owner
    /// the payment is forwarded to.
    pub open spec fn buy_error(
        self,
        now: Timestamp,
        transferred_value: Balance,
        amount: Balance,
    ) -> Option<Error> {
        if !self.features.is_sale || self.features.sale_price is None {
            Some(Error::FeatureNotEnabled)
        } else if now < self.features.start_at->0 || now > self.features.end_at->0 {
            Some(Error::NotOnSale)
        } else if (transferred_value as int) < self.features.sale_price->0 * amount {
            Some(Error::InsufficientFunds)
        } else if self.ledger.total + amount > self.features.max_supply->0 {
            Some(Error::InsufficientSupply)
        } else if self.features.owner is None {
            Some(Error::NotConfigured)
        } else {
            None
        }
    }

    /// Constructs the token: mints `initial_supply` to the deploying caller
    /// (not gated by `is_mintable`), stores the metadata verbatim, fixes the
    /// feature flags, and assigns the owner exactly when minting or pausing
    /// is enabled. The sale parameters start unset and the token unpaused.
    pub fn new(
        initial_supply: Balance,
        name: Option<String>,
        symbol: Option<String>,
        decimals: u8,
        is_pausable: bool,
        is_mintable: bool,
        is_burnable: bool,
        is_sale: bool,
        caller: AccountId,
    ) -> (r: Contract)
        ensures
            r.wf(),
            r.ledger.total == initial_supply,
            r.ledger.bal(caller) == initial_supply,
            forall|b: AccountId| b != caller ==> r.ledger.bal(b) == 0,
            r.metadata.name == name,
            r.metadata.symbol == symbol,
            r.metadata.decimals == decimals,
            r.features.is_pausable == is_pausable,
            r.features.is_mintable == is_mintable,
            r.features.is_burnable == is_burnable,
            r.features.is_sale == is_sale,
            r.features.owner == (if is_mintable || is_pausable {
                Some(caller)
            } else {
                None::<AccountId>
            }),
            r.features.sale_price is None,
            r.features.max_supply is None,
            r.features.start_at is None,
            r.features.end_at is None,
            !r.paused,
            r.events@.len() == 0,
            r.transfers@.len() == 0,
    {
        let mut ledger = Ledger::new();
        ledger.mint(caller, initial_supply);
        let owner: Option<AccountId> = if is_mintable || is_pausable {
            Some(caller)
        } else {
            None
        };
        Contract {
            ledger,
            metadata: Metadata { name, symbol, decimals },
            features: EnabledFeatures {
                is_pausable,
                is_mintable,
                is_burnable,
                owner,
                is_sale,
                sale_price: None,
                max_supply: None,
                start_at: None,
                end_at: None,
            },
            paused: false,
            events: Vec::new(),
            transfers: Vec::new(),
        }
    }

    /// Whether the public sale feature is enabled.
    pub fn get_is_sale(&self) -> (r: Result<bool, Error>)
        ensures
            r == Ok::<bool, Error>(self.features.is_sale),
    {
        Ok(self.features.is_sale)
    }

    /// Whether the pause feature is enabled.
    pub fn get_is_pausable(&self) -> (r: Result<bool, Error>)
        ensures
            r == Ok::<bool, Error>(self.features.is_pausable),
    {
        Ok(self.features.is_pausable)
    }

    /// Whether the mint feature is enabled.
    pub fn get_is_mintable(&self) -> (r: Result<bool, Error>)
        ensures
            r == Ok::<bool, Error>(self.features.is_mintable),
    {
        Ok(self.features.is_mintable)
    }

    /// Whether the burn feature is enabled.
    pub fn get_is_burnable(&self) -> (r: Result<bool, Error>)
        ensures
            r == Ok::<bool, Error>(self.features.is_burnable),
    {
        Ok(self.features.is_burnable)
    }

    /// The sale price per unit; `NotConfigured` before `set_sale_options`.
    pub fn get_sale_price(&self) -> (r: Result<Balance, Error>)
        ensures
            self.features.sale_price is Some ==> r == Ok::<Balance, Error>(
                self.features.sale_price->0,
            ),
            self.features.sale_price is None ==> r == Err::<Balance, Error>(Error::NotConfigured),
    {
        match self.features.sale_price {
            Some(p) => Ok(p),
            None => Err(Error::NotConfigured),
        }
    }

    /// The opening timestamp of the sale window; `NotConfigured` before
    /// `set_sale_options`.
    pub fn get_start_at(&self) -> (r: Result<Timestamp, Error>)
        ensures
            self.features.start_at is Some ==> r == Ok::<Timestamp, Error>(
                self.features.start_at->0,
            ),
            self.features.start_at is None ==> r == Err::<Timestamp, Error>(Error::NotConfigured),
    {
        match self.features.start_at {
            Some(t) => Ok(t),
            None => Err(Error::NotConfigured),
        }
    }

    /// The closing timestamp of the sale window; `NotConfigured` before
    /// `set_sale_options`.
    pub fn get_end_at(&self) -> (r: Result<Timestamp, Error>)
        ensures
            self.features.end_at is Some ==> r == Ok::<Timestamp, Error>(self.features.end_at->0),
            self.features.end_at is None ==> r == Err::<Timestamp, Error>(Error::NotConfigured),
    {
        match self.features.end_at {
            Some(t) => Ok(t),
            None => Err(Error::NotConfigured),
        }
    }

    /// The maximum total supply the sale may mint up to; `NotConfigured`
    /// before `set_sale_options`.
    pub fn get_max_supply(&self) -> (r: Result<Balance, Error>)
        ensures
            self.features.max_supply is Some ==> r == Ok::<Balance, Error>(
                self.features.max_supply->0,
            ),
            self.features.max_supply is None ==> r == Err::<Balance, Error>(Error::NotConfigured),
    {
        match self.features.max_supply {
            Some(m) => Ok(m),
            None => Err(Error::NotConfigured),
        }
    }

    /// The total supply recorded by the ledger.
    pub fn total_supply(&self) -> (r: Balance)
        ensures
            r == self.ledger.total,
    {
        self.ledger.total_supply()
    }

    /// The balance of `account`.
    pub fn balance_of(&self, account: AccountId) -> (r: Balance)
        requires
            self.wf(),
        ensures
            r == self.ledger.bal(account),
    {
        self.ledger.balance_of(account)
    }

    /// Records a `SetSaleOptions` event for the host to emit.
    fn emit_set_sale_options_event(
        &mut self,
        sale_price: Balance,
        max_supply: Balance,
        start_at: Timestamp,
        end_at: Timestamp,
    )
        ensures
            final(self).events@ == old(self).events@.push(
                Event::SetSaleOptions(SetSaleOptions { sale_price, max_supply, start_at, end_at }),
            ),
            final(self).ledger == old(self).ledger,
            final(self).metadata == old(self).metadata,
            final(self).features == old(self).features,
            final(self).paused == old(self).paused,
            final(self).transfers == old(self).transfers,
    {
        self.events.push(
            Event::SetSaleOptions(SetSaleOptions { sale_price, max_supply, start_at, end_at }),
        );
    }

    /// Records a `TokenBought` event for the host to emit.
    fn emit_token_bought_event(&mut self, receiver_address: AccountId, amount: Balance)
        ensures
            final(self).events@ == old(self).events@.push(
                Event::TokenBought(TokenBought { receiver_address, amount }),
            ),
            final(self).ledger == old(self).ledger,
            final(self).metadata == old(self).metadata,
            final(self).features == old(self).features,
            final(self).paused == old(self).paused,
            final(self).transfers == old(self).transfers,
    {
        self.events.push(Event::TokenBought(TokenBought { receiver_address, amount }));
    }

    /// Replaces all four sale parameters at once — an overwrite is
    /// all-or-nothing — and records a `SetSaleOptions` event. Only the owner
    /// may call it; when no owner was ever assigned it fails with
    /// `NotConfigured`. The sale flag is not consulted, so the sale may be
    /// configured before (or without) being enabled.
    pub fn set_sale_options(
        &mut self,
        caller: AccountId,
        sale_price: Balance,
        max_supply: Balance,
        start_at: Timestamp,
        end_at: Timestamp,
    ) -> (r: Result<(), Error>)
        requires
            old(self).wf(),
        ensures
            final(self).wf(),
            r is Ok <==> old(self).is_owner(caller),
            r is Ok ==> {
                &&& final(self).features.sale_price == Some(sale_price)
                &&& final(self).features.max_supply == Some(max_supply)
                &&& final(self).features.start_at == Some(start_at)
                &&& final(self).features.end_at == Some(end_at)
                &&& final(self).features.is_pausable == old(self).features.is_pausable
                &&& final(self).features.is_mintable == old(self).features.is_mintable
                &&& final(self).features.is_burnable == old(self).features.is_burnable
                &&& final(self).features.is_sale == old(self).features.is_sale
                &&& final(self).features.owner == old(self).features.owner
                &&& final(self).events@ == old(self).events@.push(
                    Event::SetSaleOptions(
                        SetSaleOptions { sale_price, max_supply, start_at, end_at },
                    ),
                )
                &&& final(self).ledger == old(self).ledger
                &&& final(self).metadata == old(self).metadata
                &&& final(self).paused == old(self).paused
                &&& final(self).transfers == old(self).transfers
            },
            r is Err ==> *final(self) == *old(self),
            r == Err::<(), Error>(Error::NotConfigured) <==> old(self).features.owner is None,
            r == Err::<(), Error>(Error::NotOwner) <==> (old(self).features.owner is Some
                && !old(self).is_owner(caller)),
    {
        let owner = match self.features.owner {
            Some(o) => o,
            None => {
                return Err(Error::NotConfigured);
            },
        };
        if caller != owner {
            return Err(Error::NotOwner);
        }
        self.features.sale_price = Some(sale_price);
        self.features.max_supply = Some(max_supply);
        self.features.start_at = Some(start_at);
        self.features.end_at = Some(end_at);
        self.emit_set_sale_options_event(sale_price, max_supply, start_at, end_at);
        Ok(())
    }

    /// A purchase during the public sale. The gates are checked in order —
    /// sale enabled and configured; `now` within the inclusive window;
    /// payment covering `price * amount`; total supply staying within
    /// `max_supply` — and the first failing gate rejects the call with its
    /// own error, changing nothing. On success exactly `amount` is minted to
    /// `caller`, the full attached payment (not just the price owed) is
    /// queued for transfer to the owner, a `TokenBought` event is recorded,
    /// and `amount` is returned.
    pub fn buy(
        &mut self,
        caller: AccountId,
        now: Timestamp,
        transferred_value: Balance,
        amount: Balance,
    ) -> (r: Result<Balance, Error>)
        requires
            old(self).wf(),
        ensures
            final(self).wf(),
            match r {
                Ok(a) => {
                    &&& old(self).buy_error(now, transferred_value, amount) is None
                    &&& a == amount
                    &&& final(self).ledger.total == old(self).ledger.total + amount
                    &&& final(self).ledger.bal(caller) == old(self).ledger.bal(caller) + amount
                    &&& (forall|b: AccountId|
                        b != caller ==> final(self).ledger.bal(b) == old(self).ledger.bal(b))
                    &&& final(self).transfers@ == old(self).transfers@.push(
                        (NativeTransfer {
                            to: old(self).features.owner->0,
                            value: transferred_value,
                        }),
                    )
                    &&& final(self).events@ == old(self).events@.push(
                        Event::TokenBought(
                            (TokenBought { receiver_address: caller, amount }),
                        ),
                    )
                    &&& final(self).features == old(self).features
                    &&& final(self).metadata == old(self).metadata
                    &&& final(self).paused == old(self).paused
                },
                Err(e) => {
                    &&& old(self).buy_error(now, transferred_value, amount) == Some(e)
                    &&& *final(self) == *old(self)
                },
            },
    {
        if !self.features.is_sale || self.features.sale_price.is_none() {
            return Err(Error::FeatureNotEnabled);
        }
        let sale_price = self.features.sale_price.unwrap();
        let start_at = self.features.start_at.unwrap();
        let end_at = self.features.end_at.unwrap();
        let max_supply = self.features.max_supply.unwrap();
        if now < start_at || now > end_at {
            return Err(Error::NotOnSale);
        }
        match sale_price.checked_mul(amount) {
            None => {
                return Err(Error::InsufficientFunds);
            },
            Some(cost) => {
                if transferred_value < cost {
                    return Err(Error::InsufficientFunds);
                }
            },
        }
        let total_supply = self.ledger.total_supply();
        match total_supply.checked_add(amount) {
            None => {
                return Err(Error::InsufficientSupply);
            },
            Some(new_total) => {
                if new_total > max_supply {
                    return Err(Error::InsufficientSupply);
                }
            },
        }
        let owner = match self.features.owner {
            Some(o) => o,
            None => {
                return Err(Error::NotConfigured);
            },
        };
        self.ledger.mint(caller, amount);
        self.transfers.push(NativeTransfer { to: owner, value: transferred_value });
        self.emit_token_bought_event(caller, amount);
        Ok(amount)
    }

    /// Flips the pause switch. Only the owner may call it, and only when the
    /// pause feature is enabled; the feature check comes first.
    pub fn change_state(&mut self, caller: AccountId) -> (r: Result<(), Error>)
        requires
            old(self).wf(),
        ensures
            final(self).wf(),
            r is Ok <==> (old(self).features.is_pausable && old(self).is_owner(caller)),
            r is Ok ==> change_state_transition(*old(self), *final(self)),
            r is Err ==> *final(self) == *old(self),
            r == Err::<(), Error>(Error::FeatureNotEnabled) <==> !old(self).features.is_pausable,
            r == Err::<(), Error>(Error::NotOwner) <==> (old(self).features.is_pausable && !old(
                self,
            ).is_owner(caller)),
    {
        if !self.features.is_pausable {
            return Err(Error::FeatureNotEnabled);
        }
        let owner = self.features.owner.unwrap();
        if caller != owner {
            return Err(Error::NotOwner);
        }
        self.paused = !self.paused;
        Ok(())
    }

    /// Mints `amount` to `account`. Only the owner may call it, and only when
    /// the mint feature is enabled; the feature check comes first. The sale's
    /// `max_supply` does not bound owner-initiated minting.
    pub fn mint_to(&mut self, caller: AccountId, account: AccountId, amount: Balance) -> (r: Result<
        (),
        Error,
    >)
        requires
            old(self).wf(),
            (old(self).features.is_mintable && old(self).is_owner(caller)) ==> old(
                self,
            ).ledger.total + amount <= Balance::MAX,
        ensures
            final(self).wf(),
            r is Ok <==> (old(self).features.is_mintable && old(self).is_owner(caller)),
            r is Ok ==> {
                &&& final(self).ledger.total == old(self).ledger.total + amount
                &&& final(self).ledger.bal(account) == old(self).ledger.bal(account) + amount
                &&& (forall|b: AccountId|
                    b != account ==> final(self).ledger.bal(b) == old(self).ledger.bal(b))
                &&& final(self).metadata == old(self).metadata
                &&& final(self).features == old(self).features
                &&& final(self).paused == old(self).paused
                &&& final(self).events == old(self).events
                &&& final(self).transfers == old(self).transfers
            },
            r is Err ==> *final(self) == *old(self),
            r == Err::<(), Error>(Error::FeatureNotEnabled) <==> !old(self).features.is_mintable,
            r == Err::<(), Error>(Error::NotOwner) <==> (old(self).features.is_mintable && !old(
                self,
            ).is_owner(caller)),
    {
        if !self.features.is_mintable {
            return Err(Error::FeatureNotEnabled);
        }
        let owner = self.features.owner.unwrap();
        if caller != owner {
            return Err(Error::NotOwner);
        }
        self.ledger.mint(account, amount);
        Ok(())
    }

    /// Burns `amount` from the caller's own balance. Any holder may burn when
    /// the burn feature is enabled — there is no owner gate. Fails with
    /// `InsufficientBalance`, changing nothing, when the balance is short.
    pub fn burn(&mut self, caller: AccountId, amount: Balance) -> (r: Result<(), Error>)
        requires
            old(self).wf(),
        ensures
            final(self).wf(),
            r is Ok <==> (old(self).features.is_burnable && old(self).ledger.bal(caller)
                >= amount),
            r is Ok ==> {
                &&& final(self).ledger.total == old(self).ledger.total - amount
                &&& final(self).ledger.bal(caller) == old(self).ledger.bal(caller) - amount
                &&& (forall|b: AccountId|
                    b != caller ==> final(self).ledger.bal(b) == old(self).ledger.bal(b))
                &&& final(self).metadata == old(self).metadata
                &&& final(self).features == old(self).features
                &&& final(self).paused == old(self).paused
                &&& final(self).events == old(self).events
                &&& final(self).transfers == old(self).transfers
            },
            r is Err ==> *final(self) == *old(self),
            r == Err::<(), Error>(Error::FeatureNotEnabled) <==> !old(self).features.is_burnable,
            r == Err::<(), Error>(Error::InsufficientBalance) <==> (old(self).features.is_burnable
                && old(self).ledger.bal(caller) < amount),
    {
        if !self.features.is_burnable {
            return Err(Error::FeatureNotEnabled);
        }
        self.ledger.burn(caller, amount)
    }
}

/// What a successful `change_state` does: it flips the pause switch and
/// changes nothing else.
pub open spec fn change_state_transition(pre: Contract, post: Contract) -> bool {
    &&& post.paused == !pre.paused
    &&& post.ledger == pre.ledger
    &&& post.metadata == pre.metadata
    &&& post.features == pre.features
    &&& post.events == pre.events
    &&& post.transfers == pre.transfers
}

/// Toggling the pause switch is an involution: two successful `change_state`
/// calls leave the contract — the pause state included — exactly as it was.
pub proof fn lemma_change_state_twice(s0: Contract, s1: Contract, s2: Contract)
    requires
        change_state_transition(s0, s1),
        change_state_transition(s1, s2),
    ensures
        s2 == s0,
{
}

} // verus!
