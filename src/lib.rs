//! Governance and treasury rules of a contributor organisation: a registry,
//! a contributor directory, a proposal ledger with weighted voting, and the
//! gate in front of compensation payouts.

pub mod types;
pub mod dao;
pub mod laws;
