use vstd::prelude::*;

verus! {

/// Why an operation was refused. Every refusal leaves all records unchanged.
#[derive(Clone, Copy, Debug, PartialEq, Eq, Structural)]
pub enum PocketErrors {
    /// A citizen tried to leave its faction with pledged or borrowed power.
    CitizenHasOutstandingVotes,
    /// A vote (or an increase of one) needs more unpledged power than the
    /// citizen has, or the proposal is not open to this citizen.
    CitizenLacksVotingPower,
    /// A decrease exceeds the balance it would be taken from.
    InvalidVotingPowerDecrement,
    /// The delegate cannot give back that much borrowed power right now.
    DelegatePendingVotes,
    /// The resource field has already been developed.
    ResourceFieldAlreadyDeveloped,
    /// The faction cannot hand out that much power.
    TransferFromFactionError,
    /// The founding citizen of a new faction already belongs to one.
    CitizenAlreadyInFaction,
    /// A record cannot be deleted while other records still refer to it.
    RecordInUse,
}

} // verus!
