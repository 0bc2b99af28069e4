use pockets_program::account::{Citizen, Faction, Key, Proposal, ProposalStatus};
use pockets_program::error::PocketErrors;
use pockets_program::ledger::{
    adjust_vote_delegation, close_vote_account, create_citizen, create_faction, create_proposal,
    delegate_votes, delete_citizen, delete_faction, delete_proposal, delete_vote_delegation,
    join_faction, leave_faction, return_vote_delegation, transfer_votes,
    transfer_votes_from_faction, update_faction, update_proposal, update_vote, vote_on_proposal,
};

fn key(b: u8) -> Key {
    Key { bytes: [b; 32] }
}

fn counters(c: &Citizen) -> (u64, u64, u64, u64) {
    (
        c.delegated_voting_power,
        c.granted_voting_power,
        c.total_voting_power,
        c.max_pledged_voting_power,
    )
}

fn citizen_ok(c: &Citizen) -> bool {
    c.total_voting_power == c.granted_voting_power + c.delegated_voting_power
        && c.max_pledged_voting_power <= c.total_voting_power
}

fn balanced(f: &Faction, fk: &Key, cs: &[&Citizen]) -> bool {
    let granted: u64 = cs
        .iter()
        .filter(|c| c.faction == Some(*fk))
        .map(|c| c.granted_voting_power)
        .sum();
    f.unallocated_voting_power + granted == f.max_voting_power
}

/// A faction "f1" at key 9, founded by a citizen at key 1 with 1000 power and
/// threshold 600.
fn founded() -> (Faction, Key, Citizen) {
    let fk = key(9);
    let mut c1 = create_citizen(key(1));
    let f = create_faction(fk, &mut c1, "f1".to_string(), 1000, 600).unwrap();
    (f, fk, c1)
}

#[test]
fn scenario_create_faction() {
    let (f, fk, c1) = founded();
    assert_eq!(f.id, "f1");
    assert_eq!(f.unallocated_voting_power, 0);
    assert_eq!(f.max_voting_power, 1000);
    assert_eq!(f.threshold_to_pass, 600);
    assert_eq!(c1.granted_voting_power, 1000);
    assert_eq!(c1.total_voting_power, 1000);
    assert_eq!(c1.faction, Some(fk));
}

#[test]
fn scenario_vote_passes_proposal() {
    let (f, fk, mut c1) = founded();
    let mut first = create_proposal(fk, "first".to_string());
    let v = vote_on_proposal(&mut c1, &mut first, &f, 700).unwrap();
    assert_eq!(first.status, ProposalStatus::PASSED);
    assert_eq!(first.vote_amt, 700);
    assert_eq!(c1.max_pledged_voting_power, 700);
    assert_eq!(v.vote_amt, 700);
    assert_eq!(v.citizen, key(1));
}

#[test]
fn scenario_vote_beyond_unpledged_power() {
    let (f, fk, mut c1) = founded();
    let mut first = create_proposal(fk, "first".to_string());
    vote_on_proposal(&mut c1, &mut first, &f, 700).unwrap();
    let mut second = create_proposal(fk, "second".to_string());
    let r = vote_on_proposal(&mut c1, &mut second, &f, 400);
    assert_eq!(r.unwrap_err(), PocketErrors::CitizenLacksVotingPower);
    assert_eq!(c1.max_pledged_voting_power, 700);
    assert_eq!(second.vote_amt, 0);
    assert_eq!(second.status, ProposalStatus::VOTING);
}

#[test]
fn scenario_delegate_then_return_restores() {
    let (_f, fk, mut c1) = founded();
    let mut c2 = create_citizen(key(2));
    join_faction(&mut c2, fk);
    let before1 = counters(&c1);
    let before2 = counters(&c2);
    let mut edge = delegate_votes(&mut c1, &mut c2, 200).unwrap();
    assert_eq!(c1.max_pledged_voting_power, 200);
    assert_eq!(c2.delegated_voting_power, 200);
    assert_eq!(c2.total_voting_power, 200);
    assert_eq!(edge.citizen, key(1));
    assert_eq!(edge.delegate, key(2));
    return_vote_delegation(&mut c1, &mut c2, &mut edge, 200).unwrap();
    assert_eq!(counters(&c1), before1);
    assert_eq!(counters(&c2), before2);
    assert_eq!(edge.vote_amt, 0);
}

#[test]
fn create_faction_refuses_a_member() {
    let (_f, _fk, mut c1) = founded();
    let r = create_faction(key(8), &mut c1, "f2".to_string(), 50, 10);
    assert_eq!(r.unwrap_err(), PocketErrors::CitizenAlreadyInFaction);
    assert_eq!(c1.faction, Some(key(9)));
    assert_eq!(c1.granted_voting_power, 1000);
}

#[test]
fn update_faction_mints_only_on_raise() {
    let (mut f, _fk, _c1) = founded();
    update_faction(&mut f, 1500, 700);
    assert_eq!(f.max_voting_power, 1500);
    assert_eq!(f.threshold_to_pass, 700);
    assert_eq!(f.unallocated_voting_power, 500);
    update_faction(&mut f, 1200, 700);
    assert_eq!(f.max_voting_power, 1200);
    assert_eq!(f.unallocated_voting_power, 500);
}

#[test]
fn transfer_from_faction_grants_power() {
    let (mut f, fk, _c1) = founded();
    update_faction(&mut f, 1500, 600);
    let mut c2 = create_citizen(key(2));
    join_faction(&mut c2, fk);
    transfer_votes_from_faction(&mut f, &mut c2, 300).unwrap();
    assert_eq!(f.unallocated_voting_power, 200);
    assert_eq!(c2.granted_voting_power, 300);
    assert_eq!(c2.total_voting_power, 300);
}

#[test]
fn transfer_from_faction_refuses_beyond_bounds() {
    let (mut f, fk, _c1) = founded();
    update_faction(&mut f, 1500, 600);
    let mut c2 = create_citizen(key(2));
    join_faction(&mut c2, fk);
    let r = transfer_votes_from_faction(&mut f, &mut c2, 501);
    assert_eq!(r.unwrap_err(), PocketErrors::TransferFromFactionError);
    let r = transfer_votes_from_faction(&mut f, &mut c2, 1501);
    assert_eq!(r.unwrap_err(), PocketErrors::TransferFromFactionError);
    assert_eq!(f.unallocated_voting_power, 500);
    assert_eq!(c2.granted_voting_power, 0);
}

#[test]
fn leave_faction_returns_granted_power() {
    let (mut f, _fk, mut c1) = founded();
    leave_faction(&mut c1, &mut f).unwrap();
    assert_eq!(f.unallocated_voting_power, 1000);
    assert_eq!(c1.faction, None);
    assert_eq!(counters(&c1), (0, 0, 0, 0));
}

#[test]
fn leave_faction_refused_with_pledges() {
    let (mut f, fk, mut c1) = founded();
    let mut p = create_proposal(fk, "p".to_string());
    vote_on_proposal(&mut c1, &mut p, &f, 10).unwrap();
    let r = leave_faction(&mut c1, &mut f);
    assert_eq!(r.unwrap_err(), PocketErrors::CitizenHasOutstandingVotes);
    assert_eq!(f.unallocated_voting_power, 0);
    assert_eq!(c1.granted_voting_power, 1000);
}

#[test]
fn leave_faction_refused_with_borrowed_power() {
    let (mut f, fk, mut c1) = founded();
    let mut c2 = create_citizen(key(2));
    join_faction(&mut c2, fk);
    delegate_votes(&mut c1, &mut c2, 5).unwrap();
    let r = leave_faction(&mut c2, &mut f);
    assert_eq!(r.unwrap_err(), PocketErrors::CitizenHasOutstandingVotes);
}

#[test]
fn vote_refused_outside_faction_or_after_voting() {
    let (f, _fk, mut c1) = founded();
    let mut other = create_proposal(key(7), "q".to_string());
    let r = vote_on_proposal(&mut c1, &mut other, &f, 1);
    assert_eq!(r.unwrap_err(), PocketErrors::CitizenLacksVotingPower);
    let mut closed = create_proposal(key(9), "c".to_string());
    update_proposal(&mut closed, ProposalStatus::CLOSED);
    let r = vote_on_proposal(&mut c1, &mut closed, &f, 1);
    assert_eq!(r.unwrap_err(), PocketErrors::CitizenLacksVotingPower);
    assert_eq!(c1.max_pledged_voting_power, 0);
}

#[test]
fn vote_below_threshold_keeps_voting() {
    let (f, fk, mut c1) = founded();
    let mut p = create_proposal(fk, "p".to_string());
    vote_on_proposal(&mut c1, &mut p, &f, 599).unwrap();
    assert_eq!(p.status, ProposalStatus::VOTING);
    assert_eq!(p.vote_amt, 599);
}

#[test]
fn update_vote_raise_passes_proposal() {
    let (f, fk, mut c1) = founded();
    let mut p = create_proposal(fk, "p".to_string());
    let mut v = vote_on_proposal(&mut c1, &mut p, &f, 500).unwrap();
    update_vote(&mut c1, &mut v, &mut p, &f, 100, true).unwrap();
    assert_eq!(v.vote_amt, 600);
    assert_eq!(p.vote_amt, 600);
    assert_eq!(p.status, ProposalStatus::PASSED);
    assert_eq!(c1.max_pledged_voting_power, 600);
}

#[test]
fn update_vote_raise_beyond_power() {
    let (f, fk, mut c1) = founded();
    let mut p = create_proposal(fk, "p".to_string());
    let mut v = vote_on_proposal(&mut c1, &mut p, &f, 500).unwrap();
    let r = update_vote(&mut c1, &mut v, &mut p, &f, 501, true);
    assert_eq!(r.unwrap_err(), PocketErrors::CitizenLacksVotingPower);
    assert_eq!(v.vote_amt, 500);
    assert_eq!(p.vote_amt, 500);
}

#[test]
fn update_vote_lower() {
    let (f, fk, mut c1) = founded();
    let mut p = create_proposal(fk, "p".to_string());
    let mut v = vote_on_proposal(&mut c1, &mut p, &f, 500).unwrap();
    update_vote(&mut c1, &mut v, &mut p, &f, 200, false).unwrap();
    assert_eq!(v.vote_amt, 300);
    assert_eq!(p.vote_amt, 300);
    assert_eq!(c1.max_pledged_voting_power, 300);
    let r = update_vote(&mut c1, &mut v, &mut p, &f, 301, false);
    assert_eq!(r.unwrap_err(), PocketErrors::InvalidVotingPowerDecrement);
    assert_eq!(v.vote_amt, 300);
}

#[test]
fn close_vote_releases_pledge_and_tally() {
    let (mut f, fk, mut c1) = founded();
    let mut p = create_proposal(fk, "p".to_string());
    let v = vote_on_proposal(&mut c1, &mut p, &f, 700).unwrap();
    update_proposal(&mut p, ProposalStatus::PROCESSING);
    update_proposal(&mut p, ProposalStatus::CLOSED);
    close_vote_account(&mut c1, v, &mut p);
    assert_eq!(c1.max_pledged_voting_power, 0);
    assert_eq!(p.vote_amt, 0);
    assert_eq!(p.status, ProposalStatus::CLOSED);
    leave_faction(&mut c1, &mut f).unwrap();
    assert_eq!(f.unallocated_voting_power, 1000);
}

#[test]
fn transfer_votes_moves_granted_power() {
    let (_f, fk, mut c1) = founded();
    let mut c2 = create_citizen(key(2));
    join_faction(&mut c2, fk);
    transfer_votes(&mut c1, &mut c2, 250).unwrap();
    assert_eq!(counters(&c1), (0, 750, 750, 0));
    assert_eq!(counters(&c2), (0, 250, 250, 0));
}

#[test]
fn transfer_votes_refuses_pledged_power() {
    let (f, fk, mut c1) = founded();
    let mut c2 = create_citizen(key(2));
    join_faction(&mut c2, fk);
    let mut p = create_proposal(fk, "p".to_string());
    vote_on_proposal(&mut c1, &mut p, &f, 900).unwrap();
    let r = transfer_votes(&mut c1, &mut c2, 101);
    assert_eq!(r.unwrap_err(), PocketErrors::InvalidVotingPowerDecrement);
    assert_eq!(counters(&c1), (0, 1000, 1000, 900));
    assert_eq!(counters(&c2), (0, 0, 0, 0));
}

#[test]
fn borrowed_power_cannot_be_given_away() {
    let (_f, fk, mut c1) = founded();
    let mut c2 = create_citizen(key(2));
    let mut c3 = create_citizen(key(3));
    join_faction(&mut c2, fk);
    join_faction(&mut c3, fk);
    delegate_votes(&mut c1, &mut c2, 100).unwrap();
    let r = transfer_votes(&mut c2, &mut c3, 1);
    assert_eq!(r.unwrap_err(), PocketErrors::InvalidVotingPowerDecrement);
    let r = delegate_votes(&mut c2, &mut c3, 1);
    assert_eq!(r.unwrap_err(), PocketErrors::InvalidVotingPowerDecrement);
}

#[test]
fn adjust_delegation_up_and_down() {
    let (_f, fk, mut c1) = founded();
    let mut c2 = create_citizen(key(2));
    join_faction(&mut c2, fk);
    let mut edge = delegate_votes(&mut c1, &mut c2, 100).unwrap();
    adjust_vote_delegation(&mut c1, &mut c2, &mut edge, 50, true).unwrap();
    assert_eq!(edge.vote_amt, 150);
    assert_eq!(c1.max_pledged_voting_power, 150);
    assert_eq!(counters(&c2), (150, 0, 150, 0));
    adjust_vote_delegation(&mut c1, &mut c2, &mut edge, 120, false).unwrap();
    assert_eq!(edge.vote_amt, 30);
    assert_eq!(c1.max_pledged_voting_power, 30);
    assert_eq!(counters(&c2), (30, 0, 30, 0));
}

#[test]
fn adjust_delegation_refusals() {
    let (f, fk, mut c1) = founded();
    let mut c2 = create_citizen(key(2));
    join_faction(&mut c2, fk);
    let mut edge = delegate_votes(&mut c1, &mut c2, 100).unwrap();
    let r = adjust_vote_delegation(&mut c1, &mut c2, &mut edge, 901, true);
    assert_eq!(r.unwrap_err(), PocketErrors::InvalidVotingPowerDecrement);
    let r = adjust_vote_delegation(&mut c1, &mut c2, &mut edge, 101, false);
    assert_eq!(r.unwrap_err(), PocketErrors::DelegatePendingVotes);
    let mut p = create_proposal(fk, "p".to_string());
    vote_on_proposal(&mut c2, &mut p, &f, 80).unwrap();
    let r = adjust_vote_delegation(&mut c1, &mut c2, &mut edge, 21, false);
    assert_eq!(r.unwrap_err(), PocketErrors::DelegatePendingVotes);
    assert_eq!(edge.vote_amt, 100);
    assert_eq!(counters(&c2), (100, 0, 100, 80));
    adjust_vote_delegation(&mut c1, &mut c2, &mut edge, 20, false).unwrap();
    assert_eq!(counters(&c2), (80, 0, 80, 80));
}

#[test]
fn adjust_delegation_cut_beyond_edge() {
    let (_f, fk, mut c1) = founded();
    let mut c2 = create_citizen(key(2));
    let mut c3 = create_citizen(key(3));
    join_faction(&mut c2, fk);
    join_faction(&mut c3, fk);
    transfer_votes(&mut c1, &mut c3, 50).unwrap();
    let mut edge = delegate_votes(&mut c1, &mut c2, 100).unwrap();
    delegate_votes(&mut c3, &mut c2, 50).unwrap();
    let r = adjust_vote_delegation(&mut c1, &mut c2, &mut edge, 120, false);
    assert_eq!(r.unwrap_err(), PocketErrors::InvalidVotingPowerDecrement);
    assert_eq!(edge.vote_amt, 100);
    assert_eq!(counters(&c2), (150, 0, 150, 0));
    assert_eq!(c1.max_pledged_voting_power, 100);
}

#[test]
fn oversized_requests_are_refused() {
    let (f, fk, mut c1) = founded();
    let mut c2 = create_citizen(key(2));
    join_faction(&mut c2, fk);
    let mut p = create_proposal(fk, "p".to_string());
    let r = vote_on_proposal(&mut c1, &mut p, &f, u64::MAX);
    assert_eq!(r.unwrap_err(), PocketErrors::CitizenLacksVotingPower);
    let r = transfer_votes(&mut c1, &mut c2, u64::MAX);
    assert_eq!(r.unwrap_err(), PocketErrors::InvalidVotingPowerDecrement);
    let r = delegate_votes(&mut c1, &mut c2, u64::MAX);
    assert_eq!(r.unwrap_err(), PocketErrors::InvalidVotingPowerDecrement);
    assert_eq!(counters(&c1), (0, 1000, 1000, 0));
    assert_eq!(p.vote_amt, 0);
}

#[test]
fn return_delegation_refusals() {
    let (f, fk, mut c1) = founded();
    let mut c2 = create_citizen(key(2));
    join_faction(&mut c2, fk);
    let mut edge = delegate_votes(&mut c1, &mut c2, 100).unwrap();
    let r = return_vote_delegation(&mut c1, &mut c2, &mut edge, 101);
    assert_eq!(r.unwrap_err(), PocketErrors::InvalidVotingPowerDecrement);
    let mut p = create_proposal(fk, "p".to_string());
    vote_on_proposal(&mut c2, &mut p, &f, 60).unwrap();
    let r = return_vote_delegation(&mut c1, &mut c2, &mut edge, 41);
    assert_eq!(r.unwrap_err(), PocketErrors::InvalidVotingPowerDecrement);
    return_vote_delegation(&mut c1, &mut c2, &mut edge, 40).unwrap();
    assert_eq!(edge.vote_amt, 60);
    assert_eq!(c1.max_pledged_voting_power, 60);
    assert_eq!(counters(&c2), (60, 0, 60, 60));
}

#[test]
fn faction_stays_balanced_through_operations() {
    let (mut f, fk, mut c1) = founded();
    let mut c2 = create_citizen(key(2));
    let mut c3 = create_citizen(key(3));
    assert!(balanced(&f, &fk, &[&c1, &c2, &c3]));
    join_faction(&mut c2, fk);
    join_faction(&mut c3, fk);
    assert!(balanced(&f, &fk, &[&c1, &c2, &c3]));
    update_faction(&mut f, 2000, 900);
    assert!(balanced(&f, &fk, &[&c1, &c2, &c3]));
    transfer_votes_from_faction(&mut f, &mut c2, 400).unwrap();
    assert!(balanced(&f, &fk, &[&c1, &c2, &c3]));
    transfer_votes(&mut c1, &mut c3, 300).unwrap();
    assert!(balanced(&f, &fk, &[&c1, &c2, &c3]));
    let mut edge = delegate_votes(&mut c2, &mut c3, 150).unwrap();
    assert!(balanced(&f, &fk, &[&c1, &c2, &c3]));
    return_vote_delegation(&mut c2, &mut c3, &mut edge, 150).unwrap();
    leave_faction(&mut c3, &mut f).unwrap();
    assert!(balanced(&f, &fk, &[&c1, &c2, &c3]));
    assert_eq!(f.unallocated_voting_power, 900);
    for c in [&c1, &c2, &c3] {
        assert!(citizen_ok(c));
    }
}

#[test]
fn citizens_stay_consistent_through_operations() {
    let (f, fk, mut c1) = founded();
    let mut c2 = create_citizen(key(2));
    join_faction(&mut c2, fk);
    let mut edge = delegate_votes(&mut c1, &mut c2, 300).unwrap();
    assert!(citizen_ok(&c1) && citizen_ok(&c2));
    let mut p = create_proposal(fk, "p".to_string());
    let mut v = vote_on_proposal(&mut c2, &mut p, &f, 250).unwrap();
    assert!(citizen_ok(&c1) && citizen_ok(&c2));
    update_vote(&mut c2, &mut v, &mut p, &f, 50, true).unwrap();
    assert!(citizen_ok(&c1) && citizen_ok(&c2));
    assert_eq!(counters(&c2), (300, 0, 300, 300));
    let r = return_vote_delegation(&mut c1, &mut c2, &mut edge, 1);
    assert!(r.is_err());
    close_vote_account(&mut c2, v, &mut p);
    adjust_vote_delegation(&mut c1, &mut c2, &mut edge, 300, false).unwrap();
    assert!(citizen_ok(&c1) && citizen_ok(&c2));
    assert_eq!(counters(&c1), (0, 1000, 1000, 0));
    assert_eq!(counters(&c2), (0, 0, 0, 0));
}

#[test]
fn tally_is_sum_of_votes() {
    let (mut f, fk, mut c1) = founded();
    let mut c2 = create_citizen(key(2));
    join_faction(&mut c2, fk);
    update_faction(&mut f, 1000, 2000);
    transfer_votes(&mut c1, &mut c2, 400).unwrap();
    let mut p = create_proposal(fk, "p".to_string());
    let mut v1 = vote_on_proposal(&mut c1, &mut p, &f, 300).unwrap();
    let v2 = vote_on_proposal(&mut c2, &mut p, &f, 200).unwrap();
    assert_eq!(p.vote_amt, v1.vote_amt + v2.vote_amt);
    update_vote(&mut c1, &mut v1, &mut p, &f, 100, false).unwrap();
    assert_eq!(p.vote_amt, v1.vote_amt + v2.vote_amt);
    close_vote_account(&mut c2, v2, &mut p);
    assert_eq!(p.vote_amt, v1.vote_amt);
    assert_eq!(p.vote_amt, 200);
    assert_eq!(p.status, ProposalStatus::VOTING);
}

#[test]
fn passed_only_at_threshold() {
    let (f, fk, mut c1) = founded();
    let mut p = create_proposal(fk, "p".to_string());
    let mut v = vote_on_proposal(&mut c1, &mut p, &f, 600).unwrap();
    assert_eq!(p.status, ProposalStatus::PASSED);
    update_vote(&mut c1, &mut v, &mut p, &f, 100, false).unwrap();
    assert_eq!(p.status, ProposalStatus::PASSED);
    assert_eq!(p.vote_amt, 500);
}

#[test]
fn deletions_need_no_dependents() {
    let (f, fk, c1) = founded();
    assert_eq!(delete_faction(&f, 1).unwrap_err(), PocketErrors::RecordInUse);
    let f = Faction {
        id: "g".to_string(),
        max_voting_power: 0,
        threshold_to_pass: 0,
        unallocated_voting_power: 0,
    };
    assert!(delete_faction(&f, 0).is_ok());
    assert_eq!(delete_citizen(&c1, 1, 0).unwrap_err(), PocketErrors::RecordInUse);
    assert_eq!(c1.granted_voting_power, 1000);
    let c = create_citizen(key(4));
    assert!(delete_citizen(&c, 0, 0).is_ok());
    let mut busy = create_citizen(key(5));
    busy.max_pledged_voting_power = 1;
    busy.total_voting_power = 1;
    busy.granted_voting_power = 1;
    busy.faction = Some(fk);
    assert_eq!(delete_citizen(&busy, 0, 0).unwrap_err(), PocketErrors::RecordInUse);
    let p = create_proposal(fk, "p".to_string());
    assert_eq!(delete_proposal(&p, 2).unwrap_err(), PocketErrors::RecordInUse);
    assert_eq!(p.id, "p");
    let p = Proposal { id: "p".to_string(), faction: fk, vote_amt: 3, status: ProposalStatus::CLOSED };
    assert_eq!(delete_proposal(&p, 0).unwrap_err(), PocketErrors::RecordInUse);
    assert!(delete_proposal(&create_proposal(fk, "q".to_string()), 0).is_ok());
    let mut c1 = create_citizen(key(1));
    let mut c2 = create_citizen(key(2));
    join_faction(&mut c1, fk);
    join_faction(&mut c2, fk);
    let edge = delegate_votes(&mut c1, &mut c2, 0).unwrap();
    assert!(delete_vote_delegation(&edge).is_ok());
    let edge = delegate_votes(&mut c1, &mut c2, 0).unwrap();
    let held = pockets_program::account::VoteDelegation { vote_amt: 1, ..edge };
    assert_eq!(delete_vote_delegation(&held).unwrap_err(), PocketErrors::RecordInUse);
}
