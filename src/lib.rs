//! A small governance ledger: accounts submit proposals, cast one vote each
//! per proposal, and proposals are finalized by simple majority.

pub mod governance;
pub mod laws;

pub use governance::{
    GovernanceConfig, GovernanceError, GovernancePallet, Proposal, ProposalStatus, Runtime,
    VoteRecord,
};
