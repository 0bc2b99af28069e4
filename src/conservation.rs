//! The ledger's conservation laws, stated over a collection of records.
//!
//! A faction is balanced when its unallocated power and its members' granted
//! power add up to its maximum; a proposal is tallied when its vote count is
//! the sum of the votes cast on it. Each law shows that one operation, as its
//! contract describes it, keeps the property.
use vstd::prelude::*;

use crate::account::{refers_to, same_ref, Citizen, Faction, Key, Proposal, ProposalStatus, ProposalVote};
use crate::ledger::{
    after_vote, faction_updated, founded, joined, left_faction, with_delegated, with_granted,
    with_pledged, with_unallocated, with_vote_amount, with_votes,
};

verus! {

/// What `c` contributes to the granted power of the faction at `fk`.
pub open spec fn member_granted(c: Citizen, fk: Key) -> int {
    if refers_to(c.faction, fk) {
        c.granted_voting_power as int
    } else {
        0
    }
}

/// Granted power held by the members of the faction at `fk` among `cs`.
pub open spec fn granted_in(cs: Seq<Citizen>, fk: Key) -> int
    decreases cs.len(),
{
    if cs.len() == 0 {
        0
    } else {
        granted_in(cs.drop_last(), fk) + member_granted(cs.last(), fk)
    }
}

/// Unallocated power plus the members' granted power is the maximum.
pub open spec fn faction_balanced(f: Faction, fk: Key, cs: Seq<Citizen>) -> bool {
    f.unallocated_voting_power + granted_in(cs, fk) == f.max_voting_power
}

/// Sum of the votes in `vs`.
pub open spec fn votes_sum(vs: Seq<ProposalVote>) -> int
    decreases vs.len(),
{
    if vs.len() == 0 {
        0
    } else {
        votes_sum(vs.drop_last()) + vs.last().vote_amt
    }
}

/// The proposal's tally is the sum of the votes cast on it.
pub open spec fn tallied(p: Proposal, vs: Seq<ProposalVote>) -> bool {
    p.vote_amt == votes_sum(vs)
}

proof fn lemma_granted_in_update(cs: Seq<Citizen>, i: int, c: Citizen, fk: Key)
    requires
        0 <= i < cs.len(),
    ensures
        granted_in(cs.update(i, c), fk) == granted_in(cs, fk) - member_granted(cs[i], fk)
            + member_granted(c, fk),
    decreases cs.len(),
{
    if i == cs.len() - 1 {
        assert(cs.update(i, c).drop_last() =~= cs.drop_last());
    } else {
        lemma_granted_in_update(cs.drop_last(), i, c, fk);
        assert(cs.update(i, c).drop_last() =~= cs.drop_last().update(i, c));
    }
}

proof fn lemma_granted_in_nonneg(cs: Seq<Citizen>, fk: Key)
    ensures
        granted_in(cs, fk) >= 0,
    decreases cs.len(),
{
    if cs.len() > 0 {
        lemma_granted_in_nonneg(cs.drop_last(), fk);
    }
}

proof fn lemma_member_within(cs: Seq<Citizen>, i: int, fk: Key)
    requires
        0 <= i < cs.len(),
    ensures
        member_granted(cs[i], fk) <= granted_in(cs, fk),
{
    let z = Citizen { faction: None, ..cs[i] };
    lemma_granted_in_update(cs, i, z, fk);
    lemma_granted_in_nonneg(cs.update(i, z), fk);
}

/// Replacing `cs[i]` by a record with the same membership and granted power
/// leaves every faction's granted power as it was. Votes, vote updates,
/// closing a vote and all delegation operations change only pledged or
/// delegated power, so they keep every faction balanced.
pub proof fn lemma_granted_unchanged(cs: Seq<Citizen>, i: int, c: Citizen)
    requires
        0 <= i < cs.len(),
        same_ref(c.faction, cs[i].faction),
        c.granted_voting_power == cs[i].granted_voting_power,
    ensures
        forall|k: Key| #[trigger] granted_in(cs.update(i, c), k) == granted_in(cs, k),
{
    assert forall|k: Key| #[trigger] granted_in(cs.update(i, c), k) == granted_in(cs, k) by {
        lemma_granted_in_update(cs, i, c, k);
    }
}

/// Pledging power (a vote, a raised or lowered vote, a closed vote, a loan
/// from the lender's side) or borrowing it (a loan from the delegate's side)
/// leaves every faction's granted power as it was.
pub proof fn lemma_pledges_and_loans_keep_balance(cs: Seq<Citizen>, i: int, amount: int)
    requires
        0 <= i < cs.len(),
    ensures
        forall|k: Key| #[trigger] granted_in(cs.update(i, with_pledged(cs[i], amount)), k) == granted_in(cs, k),
        forall|k: Key| #[trigger] granted_in(cs.update(i, with_delegated(cs[i], amount)), k) == granted_in(cs, k),
{
    lemma_granted_unchanged(cs, i, with_pledged(cs[i], amount));
    lemma_granted_unchanged(cs, i, with_delegated(cs[i], amount));
}

proof fn lemma_others_unchanged(cs: Seq<Citizen>, i: int, c: Citizen, fk: Key)
    requires
        0 <= i < cs.len(),
        forall|k: Key| k.bytes@ != fk.bytes@ ==> member_granted(c, k) == member_granted(cs[i], k),
    ensures
        forall|k: Key|
            k.bytes@ != fk.bytes@ ==> #[trigger] granted_in(cs.update(i, c), k) == granted_in(cs, k),
{
    assert forall|k: Key| k.bytes@ != fk.bytes@ implies #[trigger] granted_in(cs.update(i, c), k)
        == granted_in(cs, k) by {
        lemma_granted_in_update(cs, i, c, k);
    }
}

/// A faction founded at `fk` with maximum `f.max_voting_power`, all of it
/// granted to a founder who belonged to no faction, is balanced when no
/// citizen held power in it before; no other faction changes.
pub proof fn lemma_create_faction_balanced(f: Faction, fk: Key, cs: Seq<Citizen>, i: int)
    requires
        0 <= i < cs.len(),
        cs[i].faction is None,
        granted_in(cs, fk) == 0,
        f.unallocated_voting_power == 0,
    ensures
        faction_balanced(f, fk, cs.update(i, founded(cs[i], fk, f.max_voting_power))),
        forall|k: Key|
            k.bytes@ != fk.bytes@ ==> #[trigger] granted_in(
                cs.update(i, founded(cs[i], fk, f.max_voting_power)),
                k,
            ) == granted_in(cs, k),
{
    let c = founded(cs[i], fk, f.max_voting_power);
    lemma_granted_in_update(cs, i, c, fk);
    lemma_others_unchanged(cs, i, c, fk);
}

/// Raising a balanced faction's maximum keeps it balanced.
pub proof fn lemma_update_faction_balanced(
    f: Faction,
    fk: Key,
    cs: Seq<Citizen>,
    new_max: u64,
    threshold: u64,
)
    requires
        faction_balanced(f, fk, cs),
        new_max >= f.max_voting_power,
    ensures
        faction_balanced(faction_updated(f, new_max, threshold), fk, cs),
{
    lemma_granted_in_nonneg(cs, fk);
}

/// Granting a member `amount` of what is unallocated keeps its faction
/// balanced; no other faction changes.
pub proof fn lemma_transfer_from_faction_balanced(
    f: Faction,
    fk: Key,
    cs: Seq<Citizen>,
    i: int,
    amount: u64,
)
    requires
        faction_balanced(f, fk, cs),
        0 <= i < cs.len(),
        refers_to(cs[i].faction, fk),
        amount <= f.unallocated_voting_power,
    ensures
        faction_balanced(
            with_unallocated(f, -amount),
            fk,
            cs.update(i, with_granted(cs[i], amount as int)),
        ),
        forall|k: Key|
            k.bytes@ != fk.bytes@ ==> #[trigger] granted_in(
                cs.update(i, with_granted(cs[i], amount as int)),
                k,
            ) == granted_in(cs, k),
{
    let c = with_granted(cs[i], amount as int);
    lemma_member_within(cs, i, fk);
    lemma_granted_in_update(cs, i, c, fk);
    lemma_others_unchanged(cs, i, c, fk);
}

/// A citizen outside every faction holds nothing, so its joining keeps the
/// faction balanced; no other faction changes.
pub proof fn lemma_join_faction_balanced(f: Faction, fk: Key, cs: Seq<Citizen>, i: int)
    requires
        faction_balanced(f, fk, cs),
        0 <= i < cs.len(),
        cs[i].wf(),
        cs[i].faction is None,
    ensures
        faction_balanced(f, fk, cs.update(i, joined(cs[i], fk))),
        forall|k: Key| #[trigger] granted_in(cs.update(i, joined(cs[i], fk)), k) == granted_in(cs, k),
{
    let c = joined(cs[i], fk);
    assert forall|k: Key| #[trigger] granted_in(cs.update(i, c), k) == granted_in(cs, k) by {
        lemma_granted_in_update(cs, i, c, k);
    }
}

/// A member who leaves returns its granted power to the unallocated pool,
/// which keeps the faction balanced; no other faction changes.
pub proof fn lemma_leave_faction_balanced(f: Faction, fk: Key, cs: Seq<Citizen>, i: int)
    requires
        faction_balanced(f, fk, cs),
        0 <= i < cs.len(),
        refers_to(cs[i].faction, fk),
    ensures
        faction_balanced(
            with_unallocated(f, cs[i].granted_voting_power as int),
            fk,
            cs.update(i, left_faction(cs[i])),
        ),
        forall|k: Key|
            k.bytes@ != fk.bytes@ ==> #[trigger] granted_in(cs.update(i, left_faction(cs[i])), k)
                == granted_in(cs, k),
{
    let c = left_faction(cs[i]);
    lemma_member_within(cs, i, fk);
    lemma_granted_in_update(cs, i, c, fk);
    lemma_others_unchanged(cs, i, c, fk);
}

/// Moving `amount` of granted power between two citizens of one faction
/// leaves every faction's granted power as it was.
pub proof fn lemma_transfer_votes_balanced(cs: Seq<Citizen>, i: int, j: int, amount: u64)
    requires
        0 <= i < cs.len(),
        0 <= j < cs.len(),
        i != j,
        same_ref(cs[i].faction, cs[j].faction),
        amount <= cs[i].granted_voting_power,
        cs[j].granted_voting_power + amount <= u64::MAX,
    ensures
        forall|k: Key|
            #[trigger] granted_in(
                cs.update(i, with_granted(cs[i], -amount)).update(
                    j,
                    with_granted(cs[j], amount as int),
                ),
                k,
            ) == granted_in(cs, k),
{
    let from = with_granted(cs[i], -amount);
    let to = with_granted(cs[j], amount as int);
    let mid = cs.update(i, from);
    assert forall|k: Key| #[trigger] granted_in(mid.update(j, to), k) == granted_in(cs, k) by {
        lemma_granted_in_update(cs, i, from, k);
        lemma_granted_in_update(mid, j, to, k);
    }
}

proof fn lemma_votes_sum_update(vs: Seq<ProposalVote>, i: int, v: ProposalVote)
    requires
        0 <= i < vs.len(),
    ensures
        votes_sum(vs.update(i, v)) == votes_sum(vs) - vs[i].vote_amt + v.vote_amt,
    decreases vs.len(),
{
    if i == vs.len() - 1 {
        assert(vs.update(i, v).drop_last() =~= vs.drop_last());
    } else {
        lemma_votes_sum_update(vs.drop_last(), i, v);
        assert(vs.update(i, v).drop_last() =~= vs.drop_last().update(i, v));
    }
}

proof fn lemma_votes_sum_remove(vs: Seq<ProposalVote>, i: int)
    requires
        0 <= i < vs.len(),
    ensures
        votes_sum(vs.remove(i)) == votes_sum(vs) - vs[i].vote_amt,
    decreases vs.len(),
{
    if i == vs.len() - 1 {
        assert(vs.remove(i) =~= vs.drop_last());
    } else {
        lemma_votes_sum_remove(vs.drop_last(), i);
        assert(vs.remove(i).drop_last() =~= vs.drop_last().remove(i));
    }
}

/// A new proposal, with no votes, is tallied.
pub proof fn lemma_new_proposal_tallied(p: Proposal)
    requires
        p.vote_amt == 0,
    ensures
        tallied(p, Seq::<ProposalVote>::empty()),
{
}

/// Casting a vote adds it to the tally.
pub proof fn lemma_vote_tallied(p: Proposal, vs: Seq<ProposalVote>, v: ProposalVote, threshold: u64)
    requires
        tallied(p, vs),
        p.vote_amt + v.vote_amt <= u64::MAX,
    ensures
        tallied(after_vote(p, v.vote_amt, threshold), vs.push(v)),
{
    assert(vs.push(v).drop_last() =~= vs);
}

/// Raising the `i`-th vote by `amount` raises the tally by as much.
pub proof fn lemma_raise_vote_tallied(
    p: Proposal,
    vs: Seq<ProposalVote>,
    i: int,
    amount: u64,
    threshold: u64,
)
    requires
        tallied(p, vs),
        0 <= i < vs.len(),
        p.vote_amt + amount <= u64::MAX,
    ensures
        tallied(
            after_vote(p, amount, threshold),
            vs.update(i, with_vote_amount(vs[i], amount as int)),
        ),
{
    lemma_vote_within(vs, i);
    lemma_votes_sum_update(vs, i, with_vote_amount(vs[i], amount as int));
}

/// Lowering the `i`-th vote by `amount`, no more than it holds, lowers the
/// tally by as much.
pub proof fn lemma_lower_vote_tallied(p: Proposal, vs: Seq<ProposalVote>, i: int, amount: u64)
    requires
        tallied(p, vs),
        0 <= i < vs.len(),
        amount <= vs[i].vote_amt,
    ensures
        tallied(with_votes(p, -amount), vs.update(i, with_vote_amount(vs[i], -amount))),
{
    lemma_vote_within(vs, i);
    lemma_votes_sum_update(vs, i, with_vote_amount(vs[i], -amount));
}

/// Closing the `i`-th vote removes it from the tally.
pub proof fn lemma_close_vote_tallied(p: Proposal, vs: Seq<ProposalVote>, i: int)
    requires
        tallied(p, vs),
        0 <= i < vs.len(),
    ensures
        tallied(with_votes(p, -vs[i].vote_amt), vs.remove(i)),
{
    lemma_vote_within(vs, i);
    lemma_votes_sum_remove(vs, i);
}

proof fn lemma_votes_sum_nonneg(vs: Seq<ProposalVote>)
    ensures
        votes_sum(vs) >= 0,
    decreases vs.len(),
{
    if vs.len() > 0 {
        lemma_votes_sum_nonneg(vs.drop_last());
    }
}

proof fn lemma_vote_within(vs: Seq<ProposalVote>, i: int)
    requires
        0 <= i < vs.len(),
    ensures
        vs[i].vote_amt <= votes_sum(vs),
{
    lemma_votes_sum_remove(vs, i);
    lemma_votes_sum_nonneg(vs.remove(i));
}

/// A proposal that a vote turns to passed has reached the threshold at that
/// moment.
pub proof fn lemma_passes_at_threshold(p: Proposal, amount: u64, threshold: u64)
    requires
        p.vote_amt + amount <= u64::MAX,
    ensures
        after_vote(p, amount, threshold).status == ProposalStatus::PASSED && p.status
            != ProposalStatus::PASSED ==> after_vote(p, amount, threshold).vote_amt >= threshold,
{
}


/// Votes never reopen a proposal: a passed proposal stays passed when votes
/// are added, and taking votes away leaves its status alone.
pub proof fn lemma_votes_never_reopen(p: Proposal, amount: u64, threshold: u64, cut: int)
    requires
        p.vote_amt + amount <= u64::MAX,
    ensures
        p.status == ProposalStatus::PASSED ==> after_vote(p, amount, threshold).status
            == ProposalStatus::PASSED,
        with_votes(p, cut).status == p.status,
{
}

} // verus!
