//! The poll: one statement, put to the vote until a deadline.

use crate::address::same_component;
use crate::auth::Account;
use crate::auth::Credential;
use crate::auth::OwnerRole;
use crate::custody::Bucket;
use crate::error::Error;
use crate::here::Here;
use crate::here::RegistryView;
use crate::metadata::Metadata;
use crate::metadata::NO_ICON_URL;
use scrypto::types::ComponentAddress;
use scrypto::types::ResourceAddress;
use vstd::pervasive::unreached;
use vstd::prelude::*;

verus! {

/// One vote as it is kept: who cast it, and when.
#[derive(Clone, Copy, Debug)]
pub struct Ballot {
    pub voter: ComponentAddress,
    /// Seconds since the Unix epoch.
    pub time: i64,
}

/// The poll.
#[derive(Debug)]
pub struct Aye {
    statement: String,
    ayes: Vec<Ballot>,
    noes: Vec<Ballot>,
    aye_votes: i64,
    no_votes: i64,
    end_time: i64,
    resource: ResourceAddress,
    creator: ComponentAddress,
    this_component: ComponentAddress,
    home_component: ComponentAddress,
    metadata: Metadata,
}

/// The poll as a mathematical value.
pub struct PollView {
    pub statement: Seq<char>,
    /// Who voted aye, and when.
    pub ayes: Map<ComponentAddress, i64>,
    /// Who voted no, and when.
    pub noes: Map<ComponentAddress, i64>,
    pub aye_votes: i64,
    pub no_votes: i64,
    /// The deadline: the first second at which no vote is taken.
    pub end_time: i64,
    /// The asset that marks who is meant to vote. It is kept on record; no
    /// vote is refused for want of it.
    pub resource: ResourceAddress,
    pub creator: ComponentAddress,
    /// The poll's own address.
    pub this_component: ComponentAddress,
    /// The registry that the fees go to.
    pub home_component: ComponentAddress,
    pub metadata: Metadata,
}

/// The voters of a list of ballots, each with the time of its ballot.
spec fn ledger(ballots: Seq<Ballot>) -> Map<ComponentAddress, i64>
    decreases ballots.len(),
{
    if ballots.len() == 0 {
        Map::empty()
    } else {
        ledger(ballots.drop_last()).insert(ballots.last().voter, ballots.last().time)
    }
}

/// The time of the ballot of `voter`, if the list holds one.
fn recorded_time(ballots: &Vec<Ballot>, voter: &ComponentAddress) -> (time: Option<i64>)
    ensures
        time is Some <==> ledger(ballots@).contains_key(*voter),
        time matches Some(t) ==> ledger(ballots@)[*voter] == t,
{
    let mut i: usize = ballots.len();
    proof {
        assert(ballots@.take(i as int) == ballots@);
    }
    while i > 0
        invariant
            i <= ballots.len(),
            ledger(ballots@).contains_key(*voter) <==> ledger(ballots@.take(i as int)).contains_key(
                *voter,
            ),
            ledger(ballots@).contains_key(*voter) ==> ledger(ballots@)[*voter] == ledger(
                ballots@.take(i as int),
            )[*voter],
        decreases i,
    {
        proof {
            assert(ballots@.take(i as int).drop_last() == ballots@.take(i - 1));
        }
        i -= 1;
        if same_component(&ballots[i].voter, voter) {
            return Some(ballots[i].time);
        }
    }
    None
}

/// What a poll with the deadline `end_time` makes of a vote that arrives at
/// `now`: too late from the deadline on, else refused if the voter has voted,
/// else taken.
pub open spec fn spec_ballot_verdict(end_time: i64, now: i64, has_voted: bool) -> Result<(), Error> {
    if now >= end_time {
        Err(Error::VotingClosed)
    } else if has_voted {
        Err(Error::AlreadyVoted)
    } else {
        Ok(())
    }
}

/// Decides whether a poll with the deadline `end_time` takes a vote that
/// arrives at `now` from a voter who has, or has not, voted before.
#[verifier::when_used_as_spec(spec_ballot_verdict)]
pub fn ballot_verdict(end_time: i64, now: i64, has_voted: bool) -> (r: Result<(), Error>)
    ensures
        r == spec_ballot_verdict(end_time, now, has_voted),
{
    if now >= end_time {
        Err(Error::VotingClosed)
    } else if has_voted {
        Err(Error::AlreadyVoted)
    } else {
        Ok(())
    }
}

impl View for Aye {
    type V = PollView;

    closed spec fn view(&self) -> PollView {
        PollView {
            statement: self.statement@,
            ayes: ledger(self.ayes@),
            noes: ledger(self.noes@),
            aye_votes: self.aye_votes,
            no_votes: self.no_votes,
            end_time: self.end_time,
            resource: self.resource,
            creator: self.creator,
            this_component: self.this_component,
            home_component: self.home_component,
            metadata: self.metadata,
        }
    }
}

impl PollView {
    /// Nobody is on both sides, and each count is the number of voters on
    /// its side.
    pub open spec fn wf(self) -> bool {
        &&& self.ayes.dom().finite()
        &&& self.noes.dom().finite()
        &&& self.ayes.dom().disjoint(self.noes.dom())
        &&& self.aye_votes == self.ayes.dom().len()
        &&& self.no_votes == self.noes.dom().len()
    }

    /// Whether this is a poll on which nobody has voted, with the given
    /// statement, deadline, asset and creator, living at `address`, paying
    /// its fees to `home_component` and listed, sealed, under `dapp_deff`.
    pub open spec fn is_new(
        self,
        end_time: i64,
        creator: ComponentAddress,
        resource: ResourceAddress,
        statement: Seq<char>,
        home_component: ComponentAddress,
        dapp_deff: ComponentAddress,
        address: ComponentAddress,
    ) -> bool {
        &&& self.statement == statement
        &&& self.ayes == Map::<ComponentAddress, i64>::empty()
        &&& self.noes == Map::<ComponentAddress, i64>::empty()
        &&& self.aye_votes == 0
        &&& self.no_votes == 0
        &&& self.end_time == end_time
        &&& self.resource == resource
        &&& self.creator == creator
        &&& self.this_component == address
        &&& self.home_component == home_component
        &&& self.metadata.is_sealed_entry(dapp_deff, NO_ICON_URL@)
    }

    /// Whether the poll takes votes at the time `now`.
    pub open spec fn is_open(self, now: i64) -> bool {
        now < self.end_time
    }

    /// Whether `voter` has voted, either way.
    pub open spec fn has_voted(self, voter: ComponentAddress) -> bool {
        self.ayes.contains_key(voter) || self.noes.contains_key(voter)
    }

    /// What becomes of a vote that `voter` casts at `now`, paying `bucket` to
    /// the registry `home`, when the caller presents `caller`. The first
    /// objection in this order decides.
    pub open spec fn verdict(
        self,
        home: RegistryView,
        voter: Account,
        bucket: Bucket,
        caller: Credential,
        now: i64,
    ) -> Result<(), Error> {
        if !voter.controlled_by(caller) {
            Err(Error::Unauthorized)
        } else if home.fee_verdict(bucket) is Err {
            home.fee_verdict(bucket)
        } else {
            spec_ballot_verdict(self.end_time, now, self.has_voted(voter.address))
        }
    }

    /// The poll with one vote more: that of `voter`, cast at `now`.
    pub open spec fn with_vote(self, voter: ComponentAddress, vote: bool, now: i64) -> PollView {
        if vote {
            PollView {
                ayes: self.ayes.insert(voter, now),
                aye_votes: (self.aye_votes + 1) as i64,
                ..self
            }
        } else {
            PollView {
                noes: self.noes.insert(voter, now),
                no_votes: (self.no_votes + 1) as i64,
                ..self
            }
        }
    }
}

impl Aye {
    /// Whether the poll is in a state that its operations leave it in.
    pub open spec fn wf(&self) -> bool {
        self@.wf()
    }

    /// A new poll at `address` on `statement`, open until `end_time`, that
    /// pays its fees to the registry at `home_component` and is listed under
    /// `dapp_deff`. Nobody has voted.
    pub fn instantiate_vote(
        end_time: i64,
        creator: ComponentAddress,
        resource: ResourceAddress,
        statement: String,
        home_component: ComponentAddress,
        dapp_deff: ComponentAddress,
        address: ComponentAddress,
    ) -> (poll: Aye)
        ensures
            poll.wf(),
            poll@.is_new(
                end_time,
                creator,
                resource,
                statement@,
                home_component,
                dapp_deff,
                address,
            ),
    {
        Aye {
            statement,
            ayes: Vec::new(),
            noes: Vec::new(),
            aye_votes: 0,
            no_votes: 0,
            end_time,
            resource,
            creator,
            this_component: address,
            home_component,
            metadata: Metadata::sealed_entry(dapp_deff, NO_ICON_URL),
        }
    }

    /// The statement that is put to the vote.
    pub fn statement(&self) -> (r: &String)
        ensures
            r@ == self@.statement,
    {
        &self.statement
    }

    /// The deadline.
    pub fn end_time(&self) -> (r: i64)
        ensures
            r == self@.end_time,
    {
        self.end_time
    }

    /// The number of ayes.
    pub fn aye_votes(&self) -> (r: i64)
        ensures
            r == self@.aye_votes,
    {
        self.aye_votes
    }

    /// The number of noes.
    pub fn no_votes(&self) -> (r: i64)
        ensures
            r == self@.no_votes,
    {
        self.no_votes
    }

    /// The asset that marks who is meant to vote.
    pub fn resource(&self) -> (r: ResourceAddress)
        ensures
            r == self@.resource,
    {
        self.resource
    }

    /// The identity that had the poll made.
    pub fn creator(&self) -> (r: ComponentAddress)
        ensures
            r == self@.creator,
    {
        self.creator
    }

    /// The poll's own address.
    pub fn this_component(&self) -> (r: ComponentAddress)
        ensures
            r == self@.this_component,
    {
        self.this_component
    }

    /// The registry that the fees go to.
    pub fn home_component(&self) -> (r: ComponentAddress)
        ensures
            r == self@.home_component,
    {
        self.home_component
    }

    /// The metadata that the poll is published with.
    pub fn metadata(&self) -> (r: &Metadata)
        ensures
            *r == self@.metadata,
    {
        &self.metadata
    }

    /// Who owns the poll: nobody. Every caller may vote.
    pub fn owner_role(&self) -> (r: OwnerRole)
        ensures
            r is Unowned,
    {
        OwnerRole::Unowned
    }

    /// When `voter` voted aye, if it did.
    pub fn aye_time(&self, voter: &ComponentAddress) -> (time: Option<i64>)
        ensures
            time is Some <==> self@.ayes.contains_key(*voter),
            time matches Some(t) ==> self@.ayes[*voter] == t,
    {
        recorded_time(&self.ayes, voter)
    }

    /// When `voter` voted no, if it did.
    pub fn no_time(&self, voter: &ComponentAddress) -> (time: Option<i64>)
        ensures
            time is Some <==> self@.noes.contains_key(*voter),
            time matches Some(t) ==> self@.noes[*voter] == t,
    {
        recorded_time(&self.noes, voter)
    }

    /// Whether `voter` has voted, either way.
    pub fn has_voted(&self, voter: &ComponentAddress) -> (r: bool)
        ensures
            r == self@.has_voted(*voter),
    {
        self.aye_time(voter).is_some() || self.no_time(voter).is_some()
    }

    /// Whether the poll takes votes at the time `now`.
    pub fn is_open(&self, now: i64) -> (r: bool)
        ensures
            r == self@.is_open(now),
    {
        now < self.end_time
    }

    /// Whether `home` is the registry that this poll pays its fees to.
    pub fn belongs_to(&self, home: &Here) -> (r: bool)
        ensures
            r == (home@.here_component == self@.home_component),
    {
        let address = home.here_component();
        same_component(&address, &self.home_component)
    }

    /// Whether one more vote on the side `vote` can be counted.
    pub open spec fn spec_has_room(&self, vote: bool) -> bool {
        if vote {
            self@.aye_votes < i64::MAX
        } else {
            self@.no_votes < i64::MAX
        }
    }

    /// Whether one more vote on the side `vote` can be counted.
    #[verifier::when_used_as_spec(spec_has_room)]
    pub fn has_room(&self, vote: bool) -> (r: bool)
        ensures
            r == self.spec_has_room(vote),
    {
        if vote {
            self.aye_votes < i64::MAX
        } else {
            self.no_votes < i64::MAX
        }
    }

    /// Casts the vote of `voter` at the time `now`: aye if `vote`, else no.
    ///
    /// The caller must control `voter`, the bucket must satisfy the registry
    /// `home`, the deadline must lie ahead and `voter` must not have voted.
    /// Then the bucket goes to the registry and the vote is recorded with its
    /// time. Else nothing changes.
    pub fn vote(
        &mut self,
        home: &mut Here,
        voter: Account,
        vote: bool,
        bucket: Bucket,
        caller: &Credential,
        now: i64,
    ) -> (r: Result<(), Error>)
        requires
            old(self).wf(),
            old(home).wf(),
            old(home)@.here_component == old(self)@.home_component,
            old(self)@.verdict(old(home)@, voter, bucket, *caller, now) is Ok ==> old(
                home,
            ).spec_has_room(&bucket) && old(self).spec_has_room(vote),
        ensures
            final(self).wf(),
            final(home).wf(),
            r == old(self)@.verdict(old(home)@, voter, bucket, *caller, now),
            r is Ok ==> final(self)@ == old(self)@.with_vote(voter.address, vote, now),
            r is Ok ==> final(home)@ == old(home)@.with_deposit(bucket.value()),
            r is Err ==> *final(self) == *old(self) && *final(home) == *old(home),
    {
        match voter.authorize(caller) {
            Ok(()) => {},
            Err(e) => {
                return Err(e);
            },
        }
        match home.check_fee(&bucket) {
            Ok(()) => {},
            Err(e) => {
                return Err(e);
            },
        }
        match ballot_verdict(self.end_time, now, self.has_voted(&voter.address)) {
            Ok(()) => {},
            Err(e) => {
                return Err(e);
            },
        }
        match home.vote_fee(bucket) {
            Ok(()) => {},
            Err(_) => {
                unreached::<()>();
            },
        }
        let ballot = Ballot { voter: voter.address, time: now };
        if vote {
            self.ayes.push(ballot);
            self.aye_votes += 1;
            assert(self.ayes@.drop_last() == old(self).ayes@);
        } else {
            self.noes.push(ballot);
            self.no_votes += 1;
            assert(self.noes@.drop_last() == old(self).noes@);
        }
        Ok(())
    }
}

} // verus!
