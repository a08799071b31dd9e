//! Resolution of on-chain packages.
//!
//! A package is a bundle of compiled modules held by an object of the chain.
//! This library turns such objects into structured packages
//! ([`package::make_package`]), keeps them in a bounded cache that knows that
//! system packages change under their address ([`cache`]), says what the
//! stores behind the cache make of what they read ([`store`]), and resolves
//! type tags to layouts against the packages gathered for them
//! ([`resolve`]).
//!
//! The library reads no database and no network. Where a step needs one, the
//! caller performs it and hands in what came back.

pub mod address;
pub mod bytecode;
pub mod cache;
pub mod cache_laws;
pub mod error;
pub mod layout;
pub mod object;
pub mod package;
pub mod recency;
pub mod resolve;
pub mod resolve_laws;
pub mod store;
