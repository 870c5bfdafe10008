//! Referral-aware user registration with a live fan-out of registration events.
//!
//! The crate holds the rules of the service as verified code: how a referral
//! code is formed, how a registration proceeds against a record store, how
//! events reach the observers that are connected, and which response each
//! request receives. Transport and persistence stay with the caller.

pub mod codegen;
pub mod handler;
pub mod hub;
pub mod laws;
pub mod live;
pub mod model;
pub mod referral;
pub mod registration;
pub mod response;
pub mod schema;
pub mod store;
pub mod table;
pub mod text;
pub mod trusted;
