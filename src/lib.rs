//! Wallet provisioning, funding and transaction reconciliation for a
//! regtest node, as pure decision and computation steps. Every remote call is
//! made by the caller, which hands the node's answers back as plain values.

pub mod text;
pub mod provision;
pub mod funding;
pub mod reconcile;
