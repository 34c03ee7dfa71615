//! Soulbound credential issuance, modelled as a verified state transition.
//!
//! A contributor who has accumulated at least one contribution may claim a
//! single non-transferable credential token. The claim is one atomic step:
//! it bumps the contributor's reward counter, creates a uniquely derived
//! mint configured as non-transferable, deposits exactly one unit into the
//! contributor's holding account, and binds an immutable metadata record
//! to the mint. Either every effect lands or none does.

pub mod addresses;
pub mod builders;
pub mod errors;
pub mod issuance;
pub mod laws;
pub mod ledger;
pub mod state;
pub mod text;
