//! A registry of agents that run approved code in a trust domain.
//!
//! An agent sends a quote, the collateral to verify it against, and a TCB
//! info that leads from the measurement in the quote to the images that the
//! agent runs. Where the quote verifies, was made for the caller, and both
//! images are on the owner's allow-list, the caller is registered. A
//! registered agent whose image is still on the allow-list may have the
//! registry call the voting contract.
//!
//! - [`registry`]: the state, the owner check and the access gate.
//! - [`registration`]: the steps of a registration.
//! - [`attestation`]: collateral, verification of a quote, the report.
//! - [`tcb`]: the event log and the images of a TCB info.
//! - [`governance`]: the call of the voting contract and its answer.
//! - [`hexcode`], [`digest`], [`json`], [`text`]: hexadecimal text, SHA-2,
//!   JSON documents, comparison.
//! - [`errors`]: the failures.
//! - [`laws`]: what holds for all inputs.

pub mod attestation;
pub mod digest;
pub mod errors;
pub mod governance;
pub mod hexcode;
pub mod json;
pub mod laws;
pub mod registration;
pub mod registry;
pub mod tcb;
pub mod text;
