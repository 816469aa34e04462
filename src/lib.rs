//! A verified core for an unattended mining agent of a space-trading game:
//! cargo accounting, the reserved-goods sell policy, decoding of extraction
//! outcomes, and the extraction/sell loop as a state machine.

pub mod cargo;
pub mod extraction;
pub mod json;
pub mod mining;
pub mod nav;
pub mod agent;
pub mod contracts;
pub mod models;
