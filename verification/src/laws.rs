//! What holds of every registry and of every poll, whatever was done to them.

use crate::auth::Account;
use crate::auth::Credential;
use crate::custody::Bucket;
use crate::error::Error;
use crate::here::RegistryView;
use crate::here::PollRecord;
use crate::vote::PollView;
use scrypto::types::ComponentAddress;
use vstd::prelude::*;
use vstd::set_lib::lemma_set_disjoint_lens;

verus! {

impl RegistryView {
    /// The registry after it has sold the polls of `records`, one after the
    /// other.
    pub open spec fn with_polls(self, records: Seq<PollRecord>) -> RegistryView
        decreases records.len(),
    {
        if records.len() == 0 {
            self
        } else {
            self.with_polls(records.drop_last()).with_poll(records.last())
        }
    }
}

/// Poll ids count up by one. After a run of sales the newest id is the old
/// one plus the number of sales; the sale number `k` of the run, counted
/// from 0, is entered under the old id plus `k + 1`; and what the directory
/// held before, it still holds unchanged. For a new registry, whose newest
/// id is 0, the ids are therefore 1, 2, 3 and so on, without gap or reuse.
pub proof fn law_poll_ids_count_up(start: RegistryView, records: Seq<PollRecord>)
    requires
        start.wf(),
        start.votes_id + records.len() <= i64::MAX,
    ensures
        start.with_polls(records).wf(),
        start.with_polls(records).votes_id == start.votes_id + records.len(),
        forall|k: int|
            0 <= k < records.len() ==> {
                &&& #[trigger] start.with_polls(records).votes.contains_key(
                    (start.votes_id + 1 + k) as i64,
                )
                &&& start.with_polls(records).votes[(start.votes_id + 1 + k) as i64] == records[k]
            },
        forall|id: i64| #[trigger]
            start.votes.contains_key(id) ==> {
                &&& start.with_polls(records).votes.contains_key(id)
                &&& start.with_polls(records).votes[id] == start.votes[id]
            },
    decreases records.len(),
{
    if records.len() > 0 {
        let front = records.drop_last();
        law_poll_ids_count_up(start, front);
        let before = start.with_polls(front);
        let after = start.with_polls(records);
        assert(after == before.with_poll(records.last()));
        assert forall|k: int| 0 <= k < records.len() implies {
            &&& #[trigger] after.votes.contains_key((start.votes_id + 1 + k) as i64)
            &&& after.votes[(start.votes_id + 1 + k) as i64] == records[k]
        } by {
            if k < front.len() {
                assert(before.votes.contains_key((start.votes_id + 1 + k) as i64));
                assert(front[k] == records[k]);
            }
        }
    }
}

/// Nobody votes twice. Once `voter` has voted on a poll, whichever way and
/// whenever, no later vote of `voter` on that poll is taken, whatever its
/// side, time, fee or credential; and where nothing else is objected to
/// first (the caller controls the identity, the fee satisfies the registry,
/// the deadline lies ahead) the objection is that `voter` has voted.
pub proof fn law_no_second_vote(
    poll: PollView,
    voter: ComponentAddress,
    first_vote: bool,
    first_time: i64,
    home: RegistryView,
    again: Account,
    bucket: Bucket,
    caller: Credential,
    now: i64,
)
    requires
        again.address == voter,
    ensures
        poll.with_vote(voter, first_vote, first_time).has_voted(voter),
        poll.with_vote(voter, first_vote, first_time).verdict(home, again, bucket, caller, now)
            is Err,
        again.controlled_by(caller) && home.fee_verdict(bucket) is Ok && now < poll.end_time
            ==> poll.with_vote(voter, first_vote, first_time).verdict(
            home,
            again,
            bucket,
            caller,
            now,
        ) == Err::<(), Error>(Error::AlreadyVoted),
{
}

/// A vote stays. Whoever has voted on a poll is still recorded on the same
/// side, with the same time, after any later vote.
pub proof fn law_votes_stay(
    poll: PollView,
    earlier: ComponentAddress,
    voter: ComponentAddress,
    vote: bool,
    now: i64,
)
    requires
        poll.has_voted(earlier),
        !poll.has_voted(voter),
    ensures
        poll.ayes.contains_key(earlier) ==> {
            &&& poll.with_vote(voter, vote, now).ayes.contains_key(earlier)
            &&& poll.with_vote(voter, vote, now).ayes[earlier] == poll.ayes[earlier]
        },
        poll.noes.contains_key(earlier) ==> {
            &&& poll.with_vote(voter, vote, now).noes.contains_key(earlier)
            &&& poll.with_vote(voter, vote, now).noes[earlier] == poll.noes[earlier]
        },
{
}

/// A poll is open exactly until its deadline. For a caller that controls
/// the identity and pays a fee that satisfies the registry: from the
/// deadline on the vote is refused as too late, whoever votes; before the
/// deadline it is taken, unless the identity has voted already.
pub proof fn law_open_until_deadline(
    poll: PollView,
    home: RegistryView,
    voter: Account,
    bucket: Bucket,
    caller: Credential,
    now: i64,
)
    requires
        voter.controlled_by(caller),
        home.fee_verdict(bucket) is Ok,
    ensures
        now >= poll.end_time ==> poll.verdict(home, voter, bucket, caller, now) == Err::<
            (),
            Error,
        >(Error::VotingClosed),
        now < poll.end_time && !poll.has_voted(voter.address) ==> poll.verdict(
            home,
            voter,
            bucket,
            caller,
            now,
        ) is Ok,
        poll.verdict(home, voter, bucket, caller, now) is Ok ==> now < poll.end_time,
{
}

/// The counts match the voters. In every state that a poll can reach, the
/// ayes and the noes counted together are as many as the identities that
/// have voted, each identity counted once.
pub proof fn law_counts_match_voters(poll: PollView)
    requires
        poll.wf(),
    ensures
        poll.aye_votes + poll.no_votes == (poll.ayes.dom() + poll.noes.dom()).len(),
        forall|voter: ComponentAddress|
            poll.has_voted(voter) <==> (poll.ayes.dom() + poll.noes.dom()).contains(voter),
{
    lemma_set_disjoint_lens(poll.ayes.dom(), poll.noes.dom());
}

/// A vote keeps the poll well formed and adds one to the identities that
/// have voted: the counts never fall.
pub proof fn law_vote_counts_once(poll: PollView, voter: ComponentAddress, vote: bool, now: i64)
    requires
        poll.wf(),
        !poll.has_voted(voter),
        poll.aye_votes + poll.no_votes < i64::MAX,
    ensures
        poll.with_vote(voter, vote, now).wf(),
        poll.with_vote(voter, vote, now).aye_votes + poll.with_vote(voter, vote, now).no_votes
            == poll.aye_votes + poll.no_votes + 1,
{
    let after = poll.with_vote(voter, vote, now);
    if vote {
        assert(after.ayes.dom() == poll.ayes.dom().insert(voter));
    } else {
        assert(after.noes.dom() == poll.noes.dom().insert(voter));
    }
}

} // verus!
