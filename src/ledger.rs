use vstd::prelude::*;

use crate::account::{
    refers_to, same_ref, Citizen, Faction, Key, Proposal, ProposalStatus, ProposalVote,
    VoteDelegation,
};
use crate::error::PocketErrors;

verus! {

/// `f` with `amount` added to its unallocated power.
pub open spec fn with_unallocated(f: Faction, amount: int) -> Faction {
    Faction { unallocated_voting_power: (f.unallocated_voting_power + amount) as u64, ..f }
}

/// `c` with `amount` added to its granted and total power.
pub open spec fn with_granted(c: Citizen, amount: int) -> Citizen {
    Citizen {
        granted_voting_power: (c.granted_voting_power + amount) as u64,
        total_voting_power: (c.total_voting_power + amount) as u64,
        ..c
    }
}

/// `c` with `amount` added to its delegated and total power.
pub open spec fn with_delegated(c: Citizen, amount: int) -> Citizen {
    Citizen {
        delegated_voting_power: (c.delegated_voting_power + amount) as u64,
        total_voting_power: (c.total_voting_power + amount) as u64,
        ..c
    }
}

/// `c` with `amount` added to its pledged power.
pub open spec fn with_pledged(c: Citizen, amount: int) -> Citizen {
    Citizen { max_pledged_voting_power: (c.max_pledged_voting_power + amount) as u64, ..c }
}

/// `p` with `amount` added to its tally.
pub open spec fn with_votes(p: Proposal, amount: int) -> Proposal {
    Proposal { vote_amt: (p.vote_amt + amount) as u64, ..p }
}

/// `p` after `amount` more votes: it passes once the tally reaches `threshold`.
pub open spec fn after_vote(p: Proposal, amount: u64, threshold: u64) -> Proposal {
    let q = with_votes(p, amount as int);
    if q.vote_amt >= threshold {
        Proposal { status: ProposalStatus::PASSED, ..q }
    } else {
        q
    }
}

/// Power that raising a faction's maximum to `new_max` adds to its
/// unallocated pool: the increase, or nothing when the maximum does not grow.
pub open spec fn minted(f: Faction, new_max: u64) -> int {
    if new_max > f.max_voting_power {
        new_max - f.max_voting_power
    } else {
        0
    }
}

/// `f` after its maximum is set to `new_max` and its threshold to `threshold`.
pub open spec fn faction_updated(f: Faction, new_max: u64, threshold: u64) -> Faction {
    Faction {
        max_voting_power: new_max,
        threshold_to_pass: threshold,
        ..with_unallocated(f, minted(f, new_max))
    }
}

/// `c` as the founder of the faction at `fk`, granted all of its `power`.
pub open spec fn founded(c: Citizen, fk: Key, power: u64) -> Citizen {
    Citizen {
        faction: Some(fk),
        granted_voting_power: power,
        total_voting_power: power,
        ..c
    }
}

/// `c` as a member of the faction at `fk`, its counters untouched.
pub open spec fn joined(c: Citizen, fk: Key) -> Citizen {
    Citizen { faction: Some(fk), ..c }
}

/// `c` outside every faction, holding nothing.
pub open spec fn left_faction(c: Citizen) -> Citizen {
    Citizen {
        faction: None,
        delegated_voting_power: 0,
        granted_voting_power: 0,
        total_voting_power: 0,
        max_pledged_voting_power: 0,
        ..c
    }
}

/// `v` with `amount` added to it.
pub open spec fn with_vote_amount(v: ProposalVote, amount: int) -> ProposalVote {
    ProposalVote { vote_amt: (v.vote_amt + amount) as u64, ..v }
}

/// Whether `c` may pledge `amount` more: at least that much is unpledged.
pub open spec fn can_pledge(c: Citizen, amount: u64) -> bool {
    c.unpledged() >= amount
}

/// Whether `c` may give away or lend `amount` of its own power: that much is
/// unpledged, and it owns at least that much outright.
pub open spec fn can_part_with(c: Citizen, amount: u64) -> bool {
    c.unpledged() >= amount && c.granted_voting_power >= amount
}

/// Whether a delegate `c` can give back `amount` of borrowed power: it holds
/// at least that much delegated power, and that much is unpledged.
pub open spec fn can_return(c: Citizen, amount: u64) -> bool {
    c.unpledged() >= amount && c.delegated_voting_power >= amount
}

/// `d` with `amount` added to the power it carries.
pub open spec fn with_edge_amount(d: VoteDelegation, amount: int) -> VoteDelegation {
    VoteDelegation { vote_amt: (d.vote_amt + amount) as u64, ..d }
}

/// Whether `c` may vote on `p`: the proposal is open and belongs to the
/// citizen's faction.
pub open spec fn may_vote_on(c: Citizen, p: Proposal) -> bool {
    p.status == ProposalStatus::VOTING && refers_to(c.faction, p.faction)
}

/// A citizen record for the owner `mint`, outside every faction and holding
/// no power.
pub fn create_citizen(mint: Key) -> (c: Citizen)
    ensures
        c.mint == mint,
        c.faction is None,
        c.delegated_voting_power == 0,
        c.granted_voting_power == 0,
        c.total_voting_power == 0,
        c.max_pledged_voting_power == 0,
        c.wf(),
{
    Citizen {
        mint,
        faction: None,
        delegated_voting_power: 0,
        granted_voting_power: 0,
        total_voting_power: 0,
        max_pledged_voting_power: 0,
    }
}


/// Founds a faction at address `faction_key` with `starting_voting_power`, all
/// of it granted to `first_citizen`, who becomes its first member. Refused if
/// that citizen already belongs to a faction.
pub fn create_faction(
    faction_key: Key,
    first_citizen: &mut Citizen,
    id: String,
    starting_voting_power: u64,
    threshold: u64,
) -> (r: Result<Faction, PocketErrors>)
    requires
        old(first_citizen).wf(),
    ensures
        r is Err <==> old(first_citizen).faction is Some,
        r is Err ==> r == Err::<Faction, PocketErrors>(PocketErrors::CitizenAlreadyInFaction)
            && *final(first_citizen) == *old(first_citizen),
        r is Ok ==> ({
            let f = r->Ok_0;
            &&& f.id == id
            &&& f.max_voting_power == starting_voting_power
            &&& f.threshold_to_pass == threshold
            &&& f.unallocated_voting_power == 0
            &&& *final(first_citizen) == founded(*old(first_citizen), faction_key, starting_voting_power)
        }),
        final(first_citizen).wf(),
{
    if first_citizen.faction.is_some() {
        return Err(PocketErrors::CitizenAlreadyInFaction);
    }
    first_citizen.faction = Some(faction_key);
    first_citizen.granted_voting_power = starting_voting_power;
    first_citizen.total_voting_power = starting_voting_power;
    Ok(
        Faction {
            id,
            max_voting_power: starting_voting_power,
            threshold_to_pass: threshold,
            unallocated_voting_power: 0,
        },
    )
}

/// Sets a faction's maximum power and pass threshold. Raising the maximum
/// adds the difference to the unallocated power; lowering it takes back
/// nothing.
pub fn update_faction(faction: &mut Faction, max_voting_power: u64, threshold: u64)
    requires
        max_voting_power > old(faction).max_voting_power ==> old(faction).unallocated_voting_power + (max_voting_power - old(faction).max_voting_power)
            <= u64::MAX,
    ensures
        *final(faction) == faction_updated(*old(faction), max_voting_power, threshold),
{
    if max_voting_power > faction.max_voting_power {
        faction.unallocated_voting_power = faction.unallocated_voting_power + (max_voting_power
            - faction.max_voting_power);
    }
    faction.max_voting_power = max_voting_power;
    faction.threshold_to_pass = threshold;
}

/// Grants `amount` of the faction's unallocated power to a member. Refused
/// if `amount` exceeds the faction's maximum or what is still unallocated.
pub fn transfer_votes_from_faction(faction: &mut Faction, citizen: &mut Citizen, amount: u64) -> (r:
    Result<(), PocketErrors>)
    requires
        old(citizen).wf(),
        old(citizen).faction is Some,
        amount <= old(faction).unallocated_voting_power ==> old(citizen).total_voting_power + amount
            <= u64::MAX,
    ensures
        r is Err <==> (amount > old(faction).max_voting_power || amount > old(faction).unallocated_voting_power),
        r is Err ==> r == Err::<(), PocketErrors>(PocketErrors::TransferFromFactionError)
            && *final(faction) == *old(faction) && *final(citizen) == *old(citizen),
        r is Ok ==> *final(faction) == with_unallocated(*old(faction), -amount) && *final(citizen)
            == with_granted(*old(citizen), amount as int),
        final(citizen).wf(),
{
    if amount > faction.max_voting_power || amount > faction.unallocated_voting_power {
        return Err(PocketErrors::TransferFromFactionError);
    }
    faction.unallocated_voting_power = faction.unallocated_voting_power - amount;
    citizen.granted_voting_power = citizen.granted_voting_power + amount;
    citizen.total_voting_power = citizen.total_voting_power + amount;
    Ok(())
}

/// Makes the citizen a member of the faction at `faction_key`; no power moves.
pub fn join_faction(citizen: &mut Citizen, faction_key: Key)
    requires
        old(citizen).wf(),
    ensures
        *final(citizen) == joined(*old(citizen), faction_key),
        final(citizen).wf(),
{
    citizen.faction = Some(faction_key);
}

/// Takes a citizen out of its faction, returning its granted power to the
/// faction's unallocated pool. Refused while the citizen has pledged power or
/// holds power lent by others.
pub fn leave_faction(citizen: &mut Citizen, faction: &mut Faction) -> (r: Result<(), PocketErrors>)
    requires
        old(citizen).wf(),
        old(faction).unallocated_voting_power + old(citizen).granted_voting_power <= u64::MAX,
    ensures
        r is Err <==> (old(citizen).max_pledged_voting_power != 0 || old(citizen).delegated_voting_power != 0),
        r is Err ==> r == Err::<(), PocketErrors>(PocketErrors::CitizenHasOutstandingVotes)
            && *final(faction) == *old(faction) && *final(citizen) == *old(citizen),
        r is Ok ==> *final(faction) == with_unallocated(
            *old(faction),
            old(citizen).granted_voting_power as int,
        ) && *final(citizen) == left_faction(*old(citizen)),
        final(citizen).wf(),
{
    if citizen.max_pledged_voting_power != 0 || citizen.delegated_voting_power != 0 {
        return Err(PocketErrors::CitizenHasOutstandingVotes);
    }
    faction.unallocated_voting_power = faction.unallocated_voting_power
        + citizen.granted_voting_power;
    citizen.faction = None;
    citizen.delegated_voting_power = 0;
    citizen.granted_voting_power = 0;
    citizen.total_voting_power = 0;
    citizen.max_pledged_voting_power = 0;
    Ok(())
}

/// A proposal for the faction at `faction_key`, open for voting, with no votes.
pub fn create_proposal(faction_key: Key, id: String) -> (p: Proposal)
    ensures
        p.id == id,
        p.faction == faction_key,
        p.vote_amt == 0,
        p.status == ProposalStatus::VOTING,
{
    Proposal { id, faction: faction_key, vote_amt: 0, status: ProposalStatus::VOTING }
}

/// Overwrites a proposal's status.
pub fn update_proposal(proposal: &mut Proposal, new_status: ProposalStatus)
    ensures
        *final(proposal) == (Proposal { status: new_status, ..*old(proposal) }),
{
    proposal.status = new_status;
}


/// Casts `vote_amt` of the citizen's unpledged power on a proposal of its
/// faction, `faction` being that proposal's faction. The power is pledged, the
/// tally grows, and the proposal passes once the tally reaches the faction's
/// threshold. Refused unless the proposal is open, belongs to the citizen's
/// faction, and the citizen has that much unpledged power.
pub fn vote_on_proposal(
    citizen: &mut Citizen,
    proposal: &mut Proposal,
    faction: &Faction,
    vote_amt: u64,
) -> (r: Result<ProposalVote, PocketErrors>)
    requires
        old(citizen).wf(),
        may_vote_on(*old(citizen), *old(proposal)) && can_pledge(*old(citizen), vote_amt)
            ==> old(proposal).vote_amt + vote_amt <= u64::MAX,
    ensures
        r is Err <==> !(may_vote_on(*old(citizen), *old(proposal)) && can_pledge(
            *old(citizen),
            vote_amt,
        )),
        r is Err ==> r == Err::<ProposalVote, PocketErrors>(PocketErrors::CitizenLacksVotingPower)
            && *final(citizen) == *old(citizen) && *final(proposal) == *old(proposal),
        r is Ok ==> r->Ok_0.citizen == old(citizen).mint && r->Ok_0.vote_amt == vote_amt,
        r is Ok ==> *final(citizen) == with_pledged(*old(citizen), vote_amt as int),
        r is Ok ==> *final(proposal) == after_vote(
            *old(proposal),
            vote_amt,
            faction.threshold_to_pass,
        ),
        final(citizen).wf(),
{
    let open = match proposal.status {
        ProposalStatus::VOTING => true,
        _ => false,
    };
    let member = match &citizen.faction {
        Some(k) => k.same(&proposal.faction),
        None => false,
    };
    if !open || !member || citizen.total_voting_power - citizen.max_pledged_voting_power < vote_amt {
        return Err(PocketErrors::CitizenLacksVotingPower);
    }
    citizen.max_pledged_voting_power = citizen.max_pledged_voting_power + vote_amt;
    proposal.vote_amt = proposal.vote_amt + vote_amt;
    if proposal.vote_amt >= faction.threshold_to_pass {
        proposal.status = ProposalStatus::PASSED;
    }
    Ok(ProposalVote { citizen: citizen.mint, vote_amt })
}

/// Raises (`is_increment`) or lowers the citizen's vote on a proposal by
/// `vote_amt`, moving the citizen's pledge and the tally with it. A raise is
/// refused as a new vote would be, and may pass the proposal; a cut larger
/// than the vote is refused.
pub fn update_vote(
    citizen: &mut Citizen,
    vote: &mut ProposalVote,
    proposal: &mut Proposal,
    faction: &Faction,
    vote_amt: u64,
    is_increment: bool,
) -> (r: Result<(), PocketErrors>)
    requires
        old(citizen).wf(),
        old(vote).citizen == old(citizen).mint,
        old(vote).vote_amt <= old(citizen).max_pledged_voting_power,
        old(vote).vote_amt <= old(proposal).vote_amt,
        is_increment && may_vote_on(*old(citizen), *old(proposal)) && can_pledge(*old(citizen), vote_amt)
            ==> old(proposal).vote_amt + vote_amt <= u64::MAX,
    ensures
        is_increment ==> (r is Err <==> !(may_vote_on(*old(citizen), *old(proposal)) && can_pledge(
            *old(citizen),
            vote_amt,
        ))),
        is_increment && r is Err ==> r == Err::<(), PocketErrors>(
            PocketErrors::CitizenLacksVotingPower,
        ),
        !is_increment ==> (r is Err <==> vote_amt > old(vote).vote_amt),
        !is_increment && r is Err ==> r == Err::<(), PocketErrors>(
            PocketErrors::InvalidVotingPowerDecrement,
        ),
        r is Err ==> *final(citizen) == *old(citizen) && *final(vote) == *old(vote) && *final(proposal) == *old(proposal),
        r is Ok && is_increment ==> *final(citizen) == with_pledged(*old(citizen), vote_amt as int)
            && *final(vote) == with_vote_amount(*old(vote), vote_amt as int) && *final(proposal)
            == after_vote(*old(proposal), vote_amt, faction.threshold_to_pass),
        r is Ok && !is_increment ==> *final(citizen) == with_pledged(*old(citizen), -vote_amt)
            && *final(vote) == with_vote_amount(*old(vote), -vote_amt) && *final(proposal)
            == with_votes(*old(proposal), -vote_amt),
        final(citizen).wf(),
{
    if is_increment {
        let open = match proposal.status {
            ProposalStatus::VOTING => true,
            _ => false,
        };
        let member = match &citizen.faction {
            Some(k) => k.same(&proposal.faction),
            None => false,
        };
        if !open || !member || citizen.total_voting_power - citizen.max_pledged_voting_power
            < vote_amt {
            return Err(PocketErrors::CitizenLacksVotingPower);
        }
        citizen.max_pledged_voting_power = citizen.max_pledged_voting_power + vote_amt;
        proposal.vote_amt = proposal.vote_amt + vote_amt;
        vote.vote_amt = vote.vote_amt + vote_amt;
        if proposal.vote_amt >= faction.threshold_to_pass {
            proposal.status = ProposalStatus::PASSED;
        }
    } else {
        if vote_amt > vote.vote_amt {
            return Err(PocketErrors::InvalidVotingPowerDecrement);
        }
        citizen.max_pledged_voting_power = citizen.max_pledged_voting_power - vote_amt;
        proposal.vote_amt = proposal.vote_amt - vote_amt;
        vote.vote_amt = vote.vote_amt - vote_amt;
    }
    Ok(())
}

/// Closes a vote, releasing all of it from the citizen's pledge and from the
/// tally; the vote record is consumed.
pub fn close_vote_account(citizen: &mut Citizen, vote: ProposalVote, proposal: &mut Proposal)
    requires
        old(citizen).wf(),
        vote.citizen == old(citizen).mint,
        vote.vote_amt <= old(citizen).max_pledged_voting_power,
        vote.vote_amt <= old(proposal).vote_amt,
    ensures
        *final(citizen) == with_pledged(*old(citizen), -vote.vote_amt),
        *final(proposal) == with_votes(*old(proposal), -vote.vote_amt),
        final(citizen).wf(),
{
    citizen.max_pledged_voting_power = citizen.max_pledged_voting_power - vote.vote_amt;
    proposal.vote_amt = proposal.vote_amt - vote.vote_amt;
}

/// Gives `vote_amt` of the citizen's own power to another member of its
/// faction for good. Refused unless the citizen owns that much and has it
/// unpledged.
pub fn transfer_votes(citizen: &mut Citizen, vote_recepient: &mut Citizen, vote_amt: u64) -> (r:
    Result<(), PocketErrors>)
    requires
        old(citizen).wf(),
        old(vote_recepient).wf(),
        same_ref(old(citizen).faction, old(vote_recepient).faction),
        can_part_with(*old(citizen), vote_amt) ==> old(vote_recepient).total_voting_power + vote_amt
            <= u64::MAX,
    ensures
        r is Err <==> !can_part_with(*old(citizen), vote_amt),
        r is Err ==> r == Err::<(), PocketErrors>(PocketErrors::InvalidVotingPowerDecrement)
            && *final(citizen) == *old(citizen) && *final(vote_recepient) == *old(vote_recepient),
        r is Ok ==> *final(citizen) == with_granted(*old(citizen), -vote_amt) && *final(vote_recepient) == with_granted(*old(vote_recepient), vote_amt as int),
        final(citizen).wf(),
        final(vote_recepient).wf(),
{
    if citizen.total_voting_power - citizen.max_pledged_voting_power < vote_amt
        || citizen.granted_voting_power < vote_amt {
        return Err(PocketErrors::InvalidVotingPowerDecrement);
    }
    citizen.total_voting_power = citizen.total_voting_power - vote_amt;
    citizen.granted_voting_power = citizen.granted_voting_power - vote_amt;
    vote_recepient.granted_voting_power = vote_recepient.granted_voting_power + vote_amt;
    vote_recepient.total_voting_power = vote_recepient.total_voting_power + vote_amt;
    Ok(())
}


/// Whether `d` is the delegation edge from `from` to `to`, and the power it
/// carries is pledged by `from` and held by `to` as delegated power.
pub open spec fn edge_between(d: VoteDelegation, from: Citizen, to: Citizen) -> bool {
    &&& d.citizen == from.mint
    &&& d.delegate == to.mint
    &&& d.vote_amt <= from.max_pledged_voting_power
    &&& d.vote_amt <= to.delegated_voting_power
}

/// Lends `vote_amt` of the citizen's own power to another member of its
/// faction: the lender pledges it, the delegate may vote with it. Refused
/// unless the lender owns that much and has it unpledged.
pub fn delegate_votes(citizen: &mut Citizen, vote_recepient: &mut Citizen, vote_amt: u64) -> (r:
    Result<VoteDelegation, PocketErrors>)
    requires
        old(citizen).wf(),
        old(vote_recepient).wf(),
        same_ref(old(citizen).faction, old(vote_recepient).faction),
        can_part_with(*old(citizen), vote_amt) ==> old(vote_recepient).total_voting_power + vote_amt
            <= u64::MAX,
    ensures
        r is Err <==> !can_part_with(*old(citizen), vote_amt),
        r is Err ==> r == Err::<VoteDelegation, PocketErrors>(
            PocketErrors::InvalidVotingPowerDecrement,
        ) && *final(citizen) == *old(citizen) && *final(vote_recepient) == *old(vote_recepient),
        r is Ok ==> r->Ok_0.citizen == old(citizen).mint && r->Ok_0.delegate == old(
            vote_recepient
        ).mint && r->Ok_0.vote_amt == vote_amt,
        r is Ok ==> *final(citizen) == with_pledged(*old(citizen), vote_amt as int),
        r is Ok ==> *final(vote_recepient) == with_delegated(*old(vote_recepient), vote_amt as int),
        final(citizen).wf(),
        final(vote_recepient).wf(),
{
    if citizen.total_voting_power - citizen.max_pledged_voting_power < vote_amt
        || citizen.granted_voting_power < vote_amt {
        return Err(PocketErrors::InvalidVotingPowerDecrement);
    }
    citizen.max_pledged_voting_power = citizen.max_pledged_voting_power + vote_amt;
    vote_recepient.delegated_voting_power = vote_recepient.delegated_voting_power + vote_amt;
    vote_recepient.total_voting_power = vote_recepient.total_voting_power + vote_amt;
    Ok(VoteDelegation { citizen: citizen.mint, delegate: vote_recepient.mint, vote_amt })
}

/// Raises or lowers an existing delegation by `vote_amt`, at the lender's
/// request. A raise is refused as a new delegation would be. A cut the
/// delegate cannot give back from its unpledged, borrowed power is refused as
/// pending; otherwise a cut larger than the delegation is refused as an
/// invalid decrement.
pub fn adjust_vote_delegation(
    citizen: &mut Citizen,
    vote_recepient: &mut Citizen,
    delegation_record: &mut VoteDelegation,
    vote_amt: u64,
    is_increment: bool,
) -> (r: Result<(), PocketErrors>)
    requires
        old(citizen).wf(),
        old(vote_recepient).wf(),
        same_ref(old(citizen).faction, old(vote_recepient).faction),
        edge_between(*old(delegation_record), *old(citizen), *old(vote_recepient)),
        is_increment && can_part_with(*old(citizen), vote_amt) ==> old(vote_recepient).total_voting_power
            + vote_amt <= u64::MAX,
    ensures
        is_increment ==> (r is Err <==> !can_part_with(*old(citizen), vote_amt)),
        is_increment && r is Err ==> r == Err::<(), PocketErrors>(
            PocketErrors::InvalidVotingPowerDecrement,
        ),
        !is_increment ==> (r is Err <==> (!can_return(*old(vote_recepient), vote_amt) || vote_amt
            > old(delegation_record).vote_amt)),
        !is_increment && !can_return(*old(vote_recepient), vote_amt) ==> r == Err::<
            (),
            PocketErrors,
        >(PocketErrors::DelegatePendingVotes),
        !is_increment && can_return(*old(vote_recepient), vote_amt) && vote_amt > old(
            delegation_record
        ).vote_amt ==> r == Err::<(), PocketErrors>(PocketErrors::InvalidVotingPowerDecrement),
        r is Err ==> *final(citizen) == *old(citizen) && *final(vote_recepient) == *old(
            vote_recepient
        ) && *final(delegation_record) == *old(delegation_record),
        r is Ok ==> *final(citizen) == with_pledged(
            *old(citizen),
            if is_increment { vote_amt as int } else { -vote_amt },
        ) && *final(vote_recepient) == with_delegated(
            *old(vote_recepient),
            if is_increment { vote_amt as int } else { -vote_amt },
        ) && *final(delegation_record) == with_edge_amount(
            *old(delegation_record),
            if is_increment { vote_amt as int } else { -vote_amt },
        ),
        final(citizen).wf(),
        final(vote_recepient).wf(),
        r is Ok ==> edge_between(*final(delegation_record), *final(citizen), *final(vote_recepient)),
{
    if is_increment {
        if citizen.total_voting_power - citizen.max_pledged_voting_power < vote_amt
            || citizen.granted_voting_power < vote_amt {
            return Err(PocketErrors::InvalidVotingPowerDecrement);
        }
        citizen.max_pledged_voting_power = citizen.max_pledged_voting_power + vote_amt;
        vote_recepient.delegated_voting_power = vote_recepient.delegated_voting_power + vote_amt;
        vote_recepient.total_voting_power = vote_recepient.total_voting_power + vote_amt;
        delegation_record.vote_amt = delegation_record.vote_amt + vote_amt;
    } else {
        if vote_recepient.total_voting_power - vote_recepient.max_pledged_voting_power < vote_amt
            || vote_recepient.delegated_voting_power < vote_amt {
            return Err(PocketErrors::DelegatePendingVotes);
        }
        if vote_amt > delegation_record.vote_amt {
            return Err(PocketErrors::InvalidVotingPowerDecrement);
        }
        citizen.max_pledged_voting_power = citizen.max_pledged_voting_power - vote_amt;
        vote_recepient.delegated_voting_power = vote_recepient.delegated_voting_power - vote_amt;
        vote_recepient.total_voting_power = vote_recepient.total_voting_power - vote_amt;
        delegation_record.vote_amt = delegation_record.vote_amt - vote_amt;
    }
    Ok(())
}

/// Gives back `vote_amt` of a delegation, at the delegate's request: the
/// delegate loses that much borrowed power and the lender's pledge is
/// released. Refused unless the delegation carries that much and the delegate
/// holds it as borrowed, unpledged power.
pub fn return_vote_delegation(
    citizen: &mut Citizen,
    vote_recepient: &mut Citizen,
    delegation_record: &mut VoteDelegation,
    vote_amt: u64,
) -> (r: Result<(), PocketErrors>)
    requires
        old(citizen).wf(),
        old(vote_recepient).wf(),
        same_ref(old(citizen).faction, old(vote_recepient).faction),
        edge_between(*old(delegation_record), *old(citizen), *old(vote_recepient)),
    ensures
        r is Err <==> (vote_amt > old(delegation_record).vote_amt || !can_return(
            *old(vote_recepient),
            vote_amt,
        )),
        r is Err ==> r == Err::<(), PocketErrors>(PocketErrors::InvalidVotingPowerDecrement)
            && *final(citizen) == *old(citizen) && *final(vote_recepient) == *old(vote_recepient)
            && *final(delegation_record) == *old(delegation_record),
        r is Ok ==> *final(citizen) == with_pledged(*old(citizen), -vote_amt) && *final(
            vote_recepient
        ) == with_delegated(*old(vote_recepient), -vote_amt) && *final(delegation_record)
            == with_edge_amount(*old(delegation_record), -vote_amt),
        final(citizen).wf(),
        final(vote_recepient).wf(),
        r is Ok ==> edge_between(*final(delegation_record), *final(citizen), *final(vote_recepient)),
{
    if vote_amt > delegation_record.vote_amt || vote_recepient.total_voting_power
        - vote_recepient.max_pledged_voting_power < vote_amt
        || vote_recepient.delegated_voting_power < vote_amt {
        return Err(PocketErrors::InvalidVotingPowerDecrement);
    }
    vote_recepient.total_voting_power = vote_recepient.total_voting_power - vote_amt;
    vote_recepient.delegated_voting_power = vote_recepient.delegated_voting_power - vote_amt;
    citizen.max_pledged_voting_power = citizen.max_pledged_voting_power - vote_amt;
    delegation_record.vote_amt = delegation_record.vote_amt - vote_amt;
    Ok(())
}


/// Decides whether a faction, which `members` citizens still belong to, may
/// be deleted: refused while it has members. The record is left in place
/// either way; the store removes it only on `Ok`.
pub fn delete_faction(faction: &Faction, members: u64) -> (r: Result<(), PocketErrors>)
    ensures
        r is Err <==> members != 0,
        r is Err ==> r == Err::<(), PocketErrors>(PocketErrors::RecordInUse),
{
    if members != 0 {
        return Err(PocketErrors::RecordInUse);
    }
    Ok(())
}

/// Decides whether a citizen that `open_votes` votes and `open_delegations`
/// delegation edges (either way) still refer to may be deleted: refused while
/// any does, or while the citizen still has pledged or borrowed power. The
/// record is left in place either way; the store removes it only on `Ok`.
pub fn delete_citizen(citizen: &Citizen, open_votes: u64, open_delegations: u64) -> (r: Result<
    (),
    PocketErrors,
>)
    ensures
        r is Err <==> (open_votes != 0 || open_delegations != 0
            || citizen.max_pledged_voting_power != 0 || citizen.delegated_voting_power != 0),
        r is Err ==> r == Err::<(), PocketErrors>(PocketErrors::RecordInUse),
{
    if open_votes != 0 || open_delegations != 0 || citizen.max_pledged_voting_power != 0
        || citizen.delegated_voting_power != 0 {
        return Err(PocketErrors::RecordInUse);
    }
    Ok(())
}

/// Decides whether a proposal that `open_votes` votes still refer to may be
/// deleted: refused while any does, or while its tally is not zero. The
/// record is left in place either way; the store removes it only on `Ok`.
pub fn delete_proposal(proposal: &Proposal, open_votes: u64) -> (r: Result<(), PocketErrors>)
    ensures
        r is Err <==> (open_votes != 0 || proposal.vote_amt != 0),
        r is Err ==> r == Err::<(), PocketErrors>(PocketErrors::RecordInUse),
{
    if open_votes != 0 || proposal.vote_amt != 0 {
        return Err(PocketErrors::RecordInUse);
    }
    Ok(())
}

/// Decides whether a delegation edge may be deleted: refused while it still
/// carries power. The record is left in place either way; the store removes
/// it only on `Ok`.
pub fn delete_vote_delegation(delegation: &VoteDelegation) -> (r: Result<(), PocketErrors>)
    ensures
        r is Err <==> delegation.vote_amt != 0,
        r is Err ==> r == Err::<(), PocketErrors>(PocketErrors::RecordInUse),
{
    if delegation.vote_amt != 0 {
        return Err(PocketErrors::RecordInUse);
    }
    Ok(())
}

} // verus!
