//! Decentralised price-oracle engine for insurance contracts, together with the
//! shared validation helpers and small state rules of the surrounding contracts.
//!
//! Every item here is plain verified Rust: the host environment (storage,
//! signatures, ledger time) is represented by explicit arguments and fields.

pub mod aggregation;
pub mod median;
pub mod oracle_types;
pub mod identity;
pub mod reputation;
pub mod oracle_network;
pub mod oracle_registry;
pub mod oracle_rounds;
pub mod oracle_queries;

pub mod common;
pub mod validation;
pub mod claims;
pub mod dao;
pub mod upgrade;
pub mod policy;
pub mod product_template;
