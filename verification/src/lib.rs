//! State-transition core of a risk-reporting registry: reporters that belong to
//! a network file cases, each stored under an address derived from the network
//! and a sequential case id.

pub mod address;
pub mod auth;
pub mod category;
pub mod error;
pub mod laws;
pub mod processor;
pub mod rent;
pub mod state;
pub mod storage;
