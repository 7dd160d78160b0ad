//! The registry: it sells polls, keeps their directory and gathers the fees.

use crate::address::native_token;
use crate::address::settlement_currency;
use crate::auth::AccessRule;
use crate::auth::Credential;
use crate::auth::OwnerRole;
use crate::custody::Bucket;
use crate::custody::Vault;
use crate::decimal::attos;
use crate::decimal::attos_per_unit;
use crate::decimal::from_attos;
use crate::decimal::representable;
use crate::error::Error;
use crate::metadata::DappDefinition;
use crate::metadata::Metadata;
use crate::metadata::ICON_URL;
use crate::vote::Aye;
use scrypto::math::Decimal;
use scrypto::types::ComponentAddress;
use scrypto::types::ResourceAddress;
use std::collections::HashMap;
use vstd::prelude::*;

verus! {

/// The price of a poll at the start, in attos: 69 units.
pub const DEFAULT_COST: i128 = 69_000_000_000_000_000_000;

/// The fee of a vote, in attos: 6.9 units.
pub const DEFAULT_VOTE_COST: i128 = 6_900_000_000_000_000_000;

/// The announcement of a new poll.
#[derive(Debug)]
pub struct VoteCreated {
    pub vote_id: i64,
    pub creator: ComponentAddress,
    pub statement: String,
    pub end_time: i64,
}

/// What the directory holds of one poll.
#[derive(Debug)]
pub struct PollRecord {
    pub statement: String,
    /// The asset that marks who is meant to vote. It is kept on record; no
    /// vote is refused for want of it.
    pub resource: ResourceAddress,
    pub end_time: i64,
    /// Where the poll lives.
    pub component: ComponentAddress,
}

/// What the sale of a poll brings forth.
#[derive(Debug)]
pub struct Creation {
    /// What is left of the payment.
    pub change: Bucket,
    /// The id under which the directory holds the poll.
    pub vote_id: i64,
    /// The poll.
    pub vote: Aye,
    /// The account that lists the poll.
    pub dapp_definition: DappDefinition,
}

/// The registry.
#[derive(Debug)]
pub struct Here {
    votes: HashMap<i64, PollRecord>,
    votes_id: i64,
    here_component: ComponentAddress,
    rev: Vault,
    owner: ResourceAddress,
    cost: Decimal,
    vote_cost: Decimal,
    metadata: Metadata,
}

/// The registry as a mathematical value. Amounts are in attos.
pub struct RegistryView {
    /// The directory, by poll id.
    pub votes: Map<i64, PollRecord>,
    /// The id of the newest poll; 0 before the first.
    pub votes_id: i64,
    /// The registry's own address.
    pub here_component: ComponentAddress,
    /// The resource in which every fee is paid.
    pub currency: ResourceAddress,
    /// What the registry has gathered and not yet handed out.
    pub custody: int,
    /// The badge of the registry's owner.
    pub owner: ResourceAddress,
    /// The price of a poll.
    pub cost: int,
    /// The fee of a vote.
    pub vote_cost: int,
    pub metadata: Metadata,
}

impl View for Here {
    type V = RegistryView;

    closed spec fn view(&self) -> RegistryView {
        RegistryView {
            votes: self.votes@,
            votes_id: self.votes_id,
            here_component: self.here_component,
            currency: self.rev.spec_resource_address(),
            custody: self.rev.value(),
            owner: self.owner,
            cost: attos(self.cost),
            vote_cost: attos(self.vote_cost),
            metadata: self.metadata,
        }
    }
}

impl RegistryView {
    /// The directory holds the polls 1 to `votes_id` and no other, and the
    /// fees are gathered in the settlement currency.
    pub open spec fn wf(self) -> bool {
        &&& self.votes_id >= 0
        &&& forall|id: i64| #[trigger] self.votes.contains_key(id) <==> 1 <= id <= self.votes_id
        &&& self.currency == settlement_currency()
    }

    /// The registry after it has taken `amount` attos more into its vault.
    pub open spec fn with_deposit(self, amount: int) -> RegistryView {
        RegistryView { custody: self.custody + amount, ..self }
    }

    /// The registry after its vault has been emptied.
    pub open spec fn emptied(self) -> RegistryView {
        RegistryView { custody: 0, ..self }
    }

    /// The registry after the price of a poll has been set to `cost` attos.
    pub open spec fn with_cost(self, cost: int) -> RegistryView {
        RegistryView { cost, ..self }
    }

    /// The registry after it has sold one poll more: the price is in the
    /// vault and the directory holds `record` under the next id.
    pub open spec fn with_poll(self, record: PollRecord) -> RegistryView {
        RegistryView {
            votes: self.votes.insert((self.votes_id + 1) as i64, record),
            votes_id: (self.votes_id + 1) as i64,
            custody: self.custody + self.cost,
            ..self
        }
    }

    /// What the registry makes of a bucket offered as the price of a poll.
    pub open spec fn price_verdict(self, payment: Bucket) -> Result<(), Error> {
        if payment.spec_resource_address() != self.currency {
            Err(Error::InvalidCurrency)
        } else if payment.value() < self.cost {
            Err(Error::InsufficientPayment)
        } else {
            Ok(())
        }
    }

    /// What the registry makes of a bucket offered as the fee of one vote.
    pub open spec fn fee_verdict(self, fee: Bucket) -> Result<(), Error> {
        if fee.spec_resource_address() != self.currency {
            Err(Error::InvalidCurrency)
        } else if fee.value() < self.vote_cost {
            Err(Error::InsufficientPayment)
        } else {
            Ok(())
        }
    }
}

impl Here {
    /// Whether the registry is in a state that its operations leave it in.
    pub open spec fn wf(&self) -> bool {
        self@.wf()
    }

    /// A new registry at `address`, owned by the holder of the badge `owner`
    /// and listed under `dapp_deff`. It has sold nothing and holds nothing;
    /// a poll costs 69 units and a vote 6.9.
    pub fn instantiate_here(
        owner: ResourceAddress,
        dapp_deff: ComponentAddress,
        address: ComponentAddress,
    ) -> (here: Here)
        ensures
            here.wf(),
            here@.votes == Map::<i64, PollRecord>::empty(),
            here@.votes_id == 0,
            here@.here_component == address,
            here@.custody == 0,
            here@.owner == owner,
            here@.cost == 69 * attos_per_unit(),
            10 * here@.vote_cost == 69 * attos_per_unit(),
            here@.metadata.is_sealed_entry(dapp_deff, ICON_URL@),
    {
        Here {
            votes: HashMap::new(),
            votes_id: 0,
            here_component: address,
            rev: Vault::new(native_token()),
            owner,
            cost: from_attos(DEFAULT_COST),
            vote_cost: from_attos(DEFAULT_VOTE_COST),
            metadata: Metadata::sealed_entry(dapp_deff, ICON_URL),
        }
    }

    /// The id of the newest poll; 0 before the first.
    pub fn votes_id(&self) -> (r: i64)
        ensures
            r == self@.votes_id,
    {
        self.votes_id
    }

    /// What the directory holds under `id`, if anything.
    pub fn get_vote(&self, id: i64) -> (r: Option<&PollRecord>)
        ensures
            r is Some <==> self@.votes.contains_key(id),
            r matches Some(record) ==> *record == self@.votes[id],
    {
        self.votes.get(&id)
    }

    /// The registry's own address.
    pub fn here_component(&self) -> (r: ComponentAddress)
        ensures
            r == self@.here_component,
    {
        self.here_component
    }

    /// The resource in which every fee is paid.
    pub fn currency(&self) -> (r: ResourceAddress)
        ensures
            r == self@.currency,
    {
        self.rev.resource_address()
    }

    /// What the registry has gathered and not yet handed out.
    pub fn custody(&self) -> (r: Decimal)
        ensures
            attos(r) == self@.custody,
    {
        self.rev.amount()
    }

    /// The badge of the registry's owner.
    pub fn owner(&self) -> (r: ResourceAddress)
        ensures
            r == self@.owner,
    {
        self.owner
    }

    /// Who owns the registry: the holder of the owner's badge, for good.
    pub fn owner_role(&self) -> (r: OwnerRole)
        ensures
            r == OwnerRole::Fixed(AccessRule::Require(self@.owner)),
    {
        OwnerRole::Fixed(AccessRule::Require(self.owner))
    }

    /// The price of a poll.
    pub fn cost(&self) -> (r: Decimal)
        ensures
            attos(r) == self@.cost,
    {
        self.cost
    }

    /// The fee of a vote.
    pub fn vote_cost(&self) -> (r: Decimal)
        ensures
            attos(r) == self@.vote_cost,
    {
        self.vote_cost
    }

    /// The metadata that the registry is published with.
    pub fn metadata(&self) -> (r: &Metadata)
        ensures
            *r == self@.metadata,
    {
        &self.metadata
    }

    /// Hands everything that the registry has gathered to its owner. A
    /// caller without the owner's badge gets nothing.
    pub fn withdraw_fee(&mut self, credential: Credential) -> (r: Result<Bucket, Error>)
        requires
            old(self).wf(),
        ensures
            final(self).wf(),
            r is Ok <==> credential.proves(old(self)@.owner),
            r matches Ok(bucket) ==> {
                &&& bucket.spec_resource_address() == old(self)@.currency
                &&& bucket.value() == old(self)@.custody
                &&& final(self)@ == old(self)@.emptied()
            },
            r matches Err(e) ==> e == Error::Unauthorized && *final(self) == *old(self),
    {
        match credential.check(&self.owner) {
            Ok(()) => Ok(self.rev.take_all()),
            Err(e) => Err(e),
        }
    }

    /// Sets the price of a poll. Only the owner may. No bound is placed on
    /// the price: it may be nothing, or less.
    pub fn update_cost(&mut self, credential: Credential, new_cost: Decimal) -> (r: Result<
        (),
        Error,
    >)
        requires
            old(self).wf(),
        ensures
            final(self).wf(),
            r is Ok <==> credential.proves(old(self)@.owner),
            r is Ok ==> final(self)@ == old(self)@.with_cost(attos(new_cost)),
            r matches Err(e) ==> e == Error::Unauthorized && *final(self) == *old(self),
    {
        match credential.check(&self.owner) {
            Ok(()) => {
                self.cost = new_cost;
                Ok(())
            },
            Err(e) => Err(e),
        }
    }

    /// Whether the vault can take the whole of `fee`.
    pub open spec fn spec_has_room(&self, fee: &Bucket) -> bool {
        representable(self@.custody + fee.value())
    }

    /// Whether the vault can take the whole of `fee`.
    #[verifier::when_used_as_spec(spec_has_room)]
    pub fn has_room(&self, fee: &Bucket) -> (r: bool)
        ensures
            r == self.spec_has_room(fee),
    {
        let amount = fee.amount();
        self.rev.has_room(&amount)
    }

    /// Holds a bucket against the fee of one vote, and keeps nothing.
    pub fn check_fee(&self, fee: &Bucket) -> (r: Result<(), Error>)
        ensures
            r == self@.fee_verdict(*fee),
    {
        let currency = self.rev.resource_address();
        fee.validate(&currency, &self.vote_cost)
    }

    /// Takes the fee of one vote. The bucket must be in the settlement
    /// currency and hold the fee at least; all of it is kept.
    pub fn vote_fee(&mut self, fee: Bucket) -> (r: Result<(), Error>)
        requires
            old(self).wf(),
            old(self)@.fee_verdict(fee) is Ok ==> old(self).spec_has_room(&fee),
        ensures
            final(self).wf(),
            r == old(self)@.fee_verdict(fee),
            r is Ok ==> final(self)@ == old(self)@.with_deposit(fee.value()),
            r is Err ==> *final(self) == *old(self),
    {
        let currency = self.rev.resource_address();
        match fee.validate(&currency, &self.vote_cost) {
            Ok(()) => {
                self.rev.put(fee);
                Ok(())
            },
            Err(e) => Err(e),
        }
    }

    /// Whether the price of a poll can be moved from `payment` to the vault
    /// and one more poll can be numbered.
    pub open spec fn spec_can_create(&self, payment: &Bucket) -> bool {
        &&& representable(payment.value() - self@.cost)
        &&& representable(self@.custody + self@.cost)
        &&& self@.votes_id < i64::MAX
    }

    /// Whether the price of a poll can be moved from `payment` to the vault
    /// and one more poll can be numbered.
    #[verifier::when_used_as_spec(spec_can_create)]
    pub fn can_create(&self, payment: &Bucket) -> (r: bool)
        ensures
            r == self.spec_can_create(payment),
    {
        payment.can_give(&self.cost) && self.rev.has_room(&self.cost) && self.votes_id < i64::MAX
    }

    /// Sells a poll on `statement` that is open until `end`.
    ///
    /// The payment must be in the settlement currency and hold the price at
    /// least. Then the price, no more and no less, goes to the vault and the
    /// rest comes back as change; the poll gets the next id, lives at
    /// `vote_address` and is entered in the directory; the account at
    /// `dapp_def_address` lists it and belongs to the registry's owner.
    /// Else nothing changes.
    pub fn create_vote(
        &mut self,
        creator: ComponentAddress,
        statement: String,
        end: i64,
        resource: ResourceAddress,
        payment: Bucket,
        vote_address: ComponentAddress,
        dapp_def_address: ComponentAddress,
    ) -> (r: Result<Creation, Error>)
        requires
            old(self).wf(),
            old(self)@.price_verdict(payment) is Ok ==> old(self).spec_can_create(&payment),
        ensures
            final(self).wf(),
            r is Ok <==> old(self)@.price_verdict(payment) is Ok,
            r matches Err(e) ==> old(self)@.price_verdict(payment) == Err::<(), Error>(e)
                && *final(self) == *old(self),
            r matches Ok(created) ==> {
                &&& created.change.spec_resource_address() == payment.spec_resource_address()
                &&& created.change.value() == payment.value() - old(self)@.cost
                &&& created.vote_id == old(self)@.votes_id + 1
                &&& created.vote.wf()
                &&& created.vote@.is_new(
                    end,
                    creator,
                    resource,
                    statement@,
                    old(self)@.here_component,
                    dapp_def_address,
                    vote_address,
                )
                &&& created.dapp_definition.lists(dapp_def_address, vote_address, old(self)@.owner)
                &&& final(self)@ == old(self)@.with_poll(
                    PollRecord { statement, resource, end_time: end, component: vote_address },
                )
            },
    {
        let currency = self.rev.resource_address();
        match payment.validate(&currency, &self.cost) {
            Ok(()) => {},
            Err(e) => {
                return Err(e);
            },
        }
        let mut payment = payment;
        let fee = payment.take(self.cost);
        self.rev.put(fee);
        let dapp_definition = DappDefinition::listing(dapp_def_address, vote_address, self.owner);
        self.votes_id += 1;
        let vote = Aye::instantiate_vote(
            end,
            creator,
            resource,
            statement.clone(),
            self.here_component,
            dapp_def_address,
            vote_address,
        );
        self.votes.insert(
            self.votes_id,
            PollRecord { statement, resource, end_time: end, component: vote_address },
        );
        Ok(Creation { change: payment, vote_id: self.votes_id, vote, dapp_definition })
    }
}

} // verus!
