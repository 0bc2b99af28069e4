use vstd::prelude::*;

verus! {

/// A 32-byte address: the identity of an owner or the address of a record.
#[derive(Clone, Copy, Debug, PartialEq, Eq)]
pub struct Key {
    pub bytes: [u8; 32],
}

impl Key {
    /// Whether two keys are the same address.
    pub fn same(&self, other: &Key) -> (r: bool)
        ensures
            r == (self.bytes@ == other.bytes@),
    {
        let mut i: usize = 0;
        while i < 32
            invariant
                0 <= i <= 32,
                forall|j: int| 0 <= j < i ==> self.bytes@[j] == other.bytes@[j],
            decreases 32 - i,
        {
            if self.bytes[i] != other.bytes[i] {
                return false;
            }
            i += 1;
        }
        assert(self.bytes@ =~= other.bytes@);
        true
    }
}

/// Whether an optional reference names the address `k`.
pub open spec fn refers_to(r: Option<Key>, k: Key) -> bool {
    r is Some && r->0.bytes@ == k.bytes@
}

/// Whether two optional references name the same address (or both none).
pub open spec fn same_ref(a: Option<Key>, b: Option<Key>) -> bool {
    match (a, b) {
        (Some(x), Some(y)) => x.bytes@ == y.bytes@,
        (None, None) => true,
        _ => false,
    }
}

/// A faction: a pool of voting power that its members draw from.
#[derive(Debug)]
pub struct Faction {
    pub id: String,
    pub max_voting_power: u64,
    pub threshold_to_pass: u64,
    pub unallocated_voting_power: u64,
}

/// A citizen's voting-power counters.
#[derive(Debug)]
pub struct Citizen {
    /// The owner's identity.
    pub mint: Key,
    /// The address of the faction the citizen belongs to, if any.
    pub faction: Option<Key>,
    /// Power other citizens currently lend to this one.
    pub delegated_voting_power: u64,
    /// Power this citizen owns outright.
    pub granted_voting_power: u64,
    /// Granted plus delegated power.
    pub total_voting_power: u64,
    /// Power locked in votes and outgoing delegations.
    pub max_pledged_voting_power: u64,
}

impl Citizen {
    /// The counters agree: total is granted plus delegated, no more than the
    /// total is pledged, and a citizen outside every faction holds nothing.
    pub open spec fn wf(&self) -> bool {
        &&& self.total_voting_power == self.granted_voting_power + self.delegated_voting_power
        &&& self.max_pledged_voting_power <= self.total_voting_power
        &&& self.faction is None ==> {
            &&& self.delegated_voting_power == 0
            &&& self.granted_voting_power == 0
            &&& self.total_voting_power == 0
            &&& self.max_pledged_voting_power == 0
        }
    }

    /// Power that is neither voted nor lent out.
    pub open spec fn unpledged(&self) -> int {
        self.total_voting_power - self.max_pledged_voting_power
    }
}

/// Where a proposal stands.
#[derive(Clone, Copy, Debug, PartialEq, Eq, Structural)]
pub enum ProposalStatus {
    VOTING,
    PASSED,
    PROCESSING,
    CLOSED,
}

/// A proposal put to the members of one faction.
#[derive(Debug)]
pub struct Proposal {
    pub id: String,
    /// The address of the faction that votes on it.
    pub faction: Key,
    /// Sum of the votes cast on it.
    pub vote_amt: u64,
    pub status: ProposalStatus,
}

/// One citizen's vote on one proposal.
#[derive(Debug)]
pub struct ProposalVote {
    /// The voter's identity.
    pub citizen: Key,
    pub vote_amt: u64,
}

/// Power lent by `citizen` to `delegate`.
#[derive(Debug)]
pub struct VoteDelegation {
    pub citizen: Key,
    pub delegate: Key,
    pub vote_amt: u64,
}

/// What a developed resource field yields.
#[derive(Debug)]
pub struct Harvest {
    /// Index of the resource kind, below `RESOURCE_COUNT`.
    pub resource_type: u64,
    /// Amount yielded per harvest.
    pub harvest: u64,
}

/// A site that becomes harvestable once a development roll succeeds.
#[derive(Debug)]
pub struct ResourceField {
    pub id: String,
    pub harvest: Option<Harvest>,
    /// Refresh interval, in milliseconds.
    pub refresh_seconds: Option<u64>,
    pub is_harvestable: bool,
    pub initial_claimant: Option<Key>,
    /// Failed and successful attempts so far; each one raises the next roll.
    pub times_developed: u64,
}

} // verus!
