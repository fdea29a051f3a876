use vstd::prelude::*;

verus! {

/// One contract action observed on chain.
#[derive(Debug, Clone)]
pub struct ContractEvent {
    /// Tag of the action kind as the indexer reports it (deploy, call, update, ...).
    pub typename: String,
    /// Hex-encoded ledger state, or its rendering once decoded.
    pub state: String,
    pub address: String,
    /// Chain position marker, carried through uninterpreted.
    pub chain_state: String,
}

/// Everything a subscription session hands to its consumer.
#[derive(Debug, Clone)]
pub enum Event {
    ContractEvent(ContractEvent),
    /// The session's time budget ran out.
    Disconnect,
    /// Seconds left in the session's time budget.
    TimeLeft(u64),
}

impl ContractEvent {
    /// The same event with its state replaced by `state`.
    pub fn with_state(self, state: String) -> (r: ContractEvent)
        ensures
            r == (ContractEvent { state, ..self }),
    {
        ContractEvent { state, ..self }
    }
}

} // verus!
