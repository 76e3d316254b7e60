//! Leases of names under top level accounts: the registry that keeps the ledger, the deployer that
//! publishes the wallet code, and the small contracts that stand in for the accounts around them.
//!
//! Every call of a contract is a function from the contract's state and its surroundings to the
//! next state, the events that it logs and the calls that it asks for.
pub mod account;
pub mod text;
pub mod ordered;
pub mod totals;
pub mod common;
pub mod error;
pub mod types;
pub mod events;
pub mod host;
pub mod pricing;
pub mod fees;
pub mod indexes;
pub mod activity;
pub mod lifecycle;
pub mod asset_gate;
pub mod registry;
pub mod nft;
pub mod admin;
pub mod rental;
pub mod callbacks;
pub mod business;
pub mod reclaim;
pub mod marketplace;
pub mod views;
pub mod laws;
pub mod legacy;
pub mod deployer;
pub mod test_ft;
pub mod test_dapp;
pub mod test_staking_pool;
pub mod price_laws;
pub mod standing_laws;
pub mod leasing_laws;
pub mod settling_laws;
pub mod reclaim_laws;
pub mod transfer_laws;
pub mod governing_laws;
pub mod reading_laws;
pub mod deployer_laws;
pub mod trial_laws;
pub mod migration_laws;
pub mod store_laws;
pub mod record_laws;
pub mod order_laws;
pub mod sending_laws;
