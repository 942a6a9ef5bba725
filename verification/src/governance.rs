//! The governance proxy: what a registered agent may ask of the voting
//! contract, and what is made of the answer.

use crate::errors::AccessError;
use crate::registry::{access_of, Contract};
use vstd::prelude::*;

verus! {

/// The number of a proposal.
pub type ProposalId = u32;

/// The gas for the call of the voting contract, in units of 10^12.
pub const GAS_FOR_GOVERNANCE: u64 = 50;

/// The gas for the callback, in units of 10^12.
pub const GAS_FOR_CALLBACK: u64 = 30;

/// The deposit that goes with the call, in the smallest unit of the currency.
pub const YOCTO_DEPOSIT: u128 = 1;

/// The account of the voting contract.
pub const VOTING_CONTRACT: &'static str = "shade.ballotbox.testnet";

/// A call of `approve_proposal` on the voting contract, to be followed by a
/// callback with the same proposal.
#[derive(Clone, Copy, Debug, PartialEq, Eq)]
pub struct ProposalCall {
    /// The account that is called.
    pub voting_contract: &'static str,
    pub proposal_id: ProposalId,
    pub voting_start_time_sec: Option<u32>,
    /// Paid by the registry itself, not by the caller.
    pub deposit: u128,
    pub gas: u64,
    pub callback_gas: u64,
}

/// What became of a call of the voting contract.
#[derive(Debug)]
pub enum CallbackOutcome {
    /// The voting contract approved the proposal.
    Approved { proposal_id: ProposalId },
    /// The call failed; `detail` says how.
    Failed { proposal_id: ProposalId, detail: String },
}

/// The call for a proposal.
pub open spec fn proposal_call(
    proposal_id: ProposalId,
    voting_start_time_sec: Option<u32>,
) -> ProposalCall {
    ProposalCall {
        voting_contract: VOTING_CONTRACT,
        proposal_id,
        voting_start_time_sec,
        deposit: YOCTO_DEPOSIT,
        gas: GAS_FOR_GOVERNANCE,
        callback_gas: GAS_FOR_CALLBACK,
    }
}

impl Contract {
    /// The call of the voting contract that `caller` may make for a proposal:
    /// for a registered caller whose code hash is on the allow-list. The
    /// registry does not change.
    pub fn approve_proposal(
        &self,
        caller: &str,
        proposal_id: ProposalId,
        voting_start_time_sec: Option<u32>,
    ) -> (r: Result<ProposalCall, AccessError>)
        requires
            self.well_formed(),
        ensures
            r == match access_of(self@, caller@) {
                Ok(_) => Ok::<ProposalCall, AccessError>(
                    proposal_call(proposal_id, voting_start_time_sec),
                ),
                Err(e) => Err(e),
            },
    {
        match self.require_approved_codehash(caller) {
            Err(e) => Err(e),
            Ok(_) => Ok(
                ProposalCall {
                    voting_contract: VOTING_CONTRACT,
                    proposal_id,
                    voting_start_time_sec,
                    deposit: YOCTO_DEPOSIT,
                    gas: GAS_FOR_GOVERNANCE,
                    callback_gas: GAS_FOR_CALLBACK,
                },
            ),
        }
    }

    /// What is to be reported of the answer to a call for `proposal_id`: the
    /// approval, or the failure with its detail. The registry does not change.
    pub fn governance_callback(&self, proposal_id: ProposalId, result: Result<(), String>) -> (r:
        CallbackOutcome)
        ensures
            match result {
                Ok(_) => r matches CallbackOutcome::Approved { proposal_id: p } && p == proposal_id,
                Err(e) => r matches CallbackOutcome::Failed { proposal_id: p, detail: d } && p
                    == proposal_id && d@ == e@,
            },
    {
        match result {
            Ok(_) => CallbackOutcome::Approved { proposal_id },
            Err(detail) => CallbackOutcome::Failed { proposal_id, detail },
        }
    }
}

} // verus!
