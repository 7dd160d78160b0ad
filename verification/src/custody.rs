//! Containers of fungible value.
//!
//! A bucket carries an amount of one resource from one holder to the next;
//! a vault keeps the amounts that were put into it. Both count in attos and
//! neither rounds.

use crate::address::same_resource;
use crate::decimal::at_least;
use crate::decimal::attos;
use crate::decimal::checked_difference;
use crate::decimal::checked_sum;
use crate::decimal::from_attos;
use crate::decimal::representable;
use crate::error::Error;
use scrypto::math::Decimal;
use scrypto::types::ResourceAddress;
use vstd::pervasive::unreached;
use vstd::prelude::*;

verus! {

/// An amount of one resource on its way between holders.
#[derive(Debug)]
pub struct Bucket {
    resource: ResourceAddress,
    amount: Decimal,
}

/// The amounts of one resource that a component keeps.
#[derive(Debug)]
pub struct Vault {
    resource: ResourceAddress,
    balance: Decimal,
}

impl Bucket {
    /// The resource that the bucket carries.
    pub closed spec fn spec_resource_address(&self) -> ResourceAddress {
        self.resource
    }

    /// The amount that the bucket carries.
    pub closed spec fn spec_amount(&self) -> Decimal {
        self.amount
    }

    /// The amount that the bucket carries, in attos.
    pub open spec fn value(self) -> int {
        attos(self.spec_amount())
    }

    /// A bucket of `amount` of `resource`.
    pub fn new(resource: ResourceAddress, amount: Decimal) -> (bucket: Bucket)
        ensures
            bucket.spec_resource_address() == resource,
            bucket.spec_amount() == amount,
    {
        Bucket { resource, amount }
    }

    /// The resource that the bucket carries.
    #[verifier::when_used_as_spec(spec_resource_address)]
    pub fn resource_address(&self) -> (r: ResourceAddress)
        ensures
            r == self.spec_resource_address(),
    {
        self.resource
    }

    /// The amount that the bucket carries.
    #[verifier::when_used_as_spec(spec_amount)]
    pub fn amount(&self) -> (r: Decimal)
        ensures
            r == self.spec_amount(),
    {
        self.amount
    }

    /// What a payee that asks for `price` in `currency` makes of the bucket:
    /// it wants the currency first, and then the price in full.
    pub open spec fn spec_validate(&self, currency: &ResourceAddress, price: &Decimal) -> Result<
        (),
        Error,
    > {
        if self.spec_resource_address() != *currency {
            Err(Error::InvalidCurrency)
        } else if self.value() < attos(*price) {
            Err(Error::InsufficientPayment)
        } else {
            Ok(())
        }
    }

    /// Holds the bucket against the `price` that is asked for in `currency`.
    #[verifier::when_used_as_spec(spec_validate)]
    pub fn validate(&self, currency: &ResourceAddress, price: &Decimal) -> (r: Result<(), Error>)
        ensures
            r == self.spec_validate(currency, price),
    {
        if !same_resource(&self.resource, currency) {
            Err(Error::InvalidCurrency)
        } else if !at_least(&self.amount, price) {
            Err(Error::InsufficientPayment)
        } else {
            Ok(())
        }
    }

    /// Whether `amount` can be taken out: whether what stays is representable.
    pub open spec fn spec_can_give(&self, amount: &Decimal) -> bool {
        representable(self.value() - attos(*amount))
    }

    /// Whether `amount` can be taken out.
    #[verifier::when_used_as_spec(spec_can_give)]
    pub fn can_give(&self, amount: &Decimal) -> (r: bool)
        ensures
            r == self.spec_can_give(amount),
    {
        checked_difference(self.amount, *amount).is_some()
    }

    /// Splits `amount` off into a bucket of its own. What stays is the old
    /// amount less `amount`, to the atto.
    pub fn take(&mut self, amount: Decimal) -> (taken: Bucket)
        requires
            old(self).spec_can_give(&amount),
        ensures
            taken.spec_resource_address() == old(self).spec_resource_address(),
            taken.spec_amount() == amount,
            final(self).spec_resource_address() == old(self).spec_resource_address(),
            final(self).value() == old(self).value() - attos(amount),
    {
        match checked_difference(self.amount, amount) {
            Some(rest) => {
                self.amount = rest;
            },
            None => {
                unreached::<()>();
            },
        }
        Bucket { resource: self.resource, amount }
    }
}

impl Vault {
    /// The resource that the vault keeps.
    pub closed spec fn spec_resource_address(&self) -> ResourceAddress {
        self.resource
    }

    /// The balance of the vault.
    pub closed spec fn spec_amount(&self) -> Decimal {
        self.balance
    }

    /// The balance of the vault, in attos.
    pub open spec fn value(self) -> int {
        attos(self.spec_amount())
    }

    /// An empty vault for `resource`.
    pub fn new(resource: ResourceAddress) -> (vault: Vault)
        ensures
            vault.spec_resource_address() == resource,
            vault.value() == 0,
    {
        Vault { resource, balance: from_attos(0i128) }
    }

    /// The resource that the vault keeps.
    #[verifier::when_used_as_spec(spec_resource_address)]
    pub fn resource_address(&self) -> (r: ResourceAddress)
        ensures
            r == self.spec_resource_address(),
    {
        self.resource
    }

    /// The balance of the vault.
    #[verifier::when_used_as_spec(spec_amount)]
    pub fn amount(&self) -> (r: Decimal)
        ensures
            r == self.spec_amount(),
    {
        self.balance
    }

    /// Whether the vault can take `amount` more: whether the new balance is
    /// representable.
    pub open spec fn spec_has_room(&self, amount: &Decimal) -> bool {
        representable(self.value() + attos(*amount))
    }

    /// Whether the vault can take `amount` more.
    #[verifier::when_used_as_spec(spec_has_room)]
    pub fn has_room(&self, amount: &Decimal) -> (r: bool)
        ensures
            r == self.spec_has_room(amount),
    {
        checked_sum(self.balance, *amount).is_some()
    }

    /// Moves the whole bucket into the vault.
    pub fn put(&mut self, bucket: Bucket)
        requires
            bucket.spec_resource_address() == old(self).spec_resource_address(),
            old(self).spec_has_room(&bucket.spec_amount()),
        ensures
            final(self).spec_resource_address() == old(self).spec_resource_address(),
            final(self).value() == old(self).value() + bucket.value(),
    {
        match checked_sum(self.balance, bucket.amount) {
            Some(sum) => {
                self.balance = sum;
            },
            None => {
                unreached::<()>();
            },
        }
    }

    /// Empties the vault into a bucket. The bucket carries the balance as it
    /// was; the vault keeps nothing.
    pub fn take_all(&mut self) -> (bucket: Bucket)
        ensures
            bucket.spec_resource_address() == old(self).spec_resource_address(),
            bucket.spec_amount() == old(self).spec_amount(),
            final(self).spec_resource_address() == old(self).spec_resource_address(),
            final(self).value() == 0,
    {
        let all = self.balance;
        self.balance = from_attos(0i128);
        Bucket { resource: self.resource, amount: all }
    }
}

} // verus!
