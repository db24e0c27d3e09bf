//! Core library for a non-custodial cross-chain asset-migration service.
//!
//! An *intent* is a user's declared request to move assets between an EVM
//! chain and Sui through a burn-and-mint bridge. This crate holds the parts
//! with real protocol logic: the intent lifecycle state machine, the bridge
//! protocol client that builds unsigned transfer parameter records and
//! resolves attestations, and the source-chain event ingestion that decodes
//! intent-creation logs. Transport (HTTP, RPC) lives outside; every on-chain
//! step is expressed here as a plain parameter record for an external wallet
//! to sign.

pub mod agent_config;
pub mod api;
pub mod cctp;
pub mod chain;
pub mod decimal;
pub mod error;
pub mod event;
pub mod hexstr;
pub mod ingest;
pub mod intent;
pub mod lifi;
pub mod orchestrator;
pub mod strategy;

