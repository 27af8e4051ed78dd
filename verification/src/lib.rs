//! Typed building blocks for talking to the SteamGridDB web API.
//!
//! The crate renders image filters into canonical query strings, assembles
//! request URLs and turns the service's response envelopes into plain
//! `Result` values. Every function carries a contract that Verus proves.

pub mod author;
pub mod client;
pub mod dimensions;
pub mod games;
pub mod grids;
pub mod images;
pub mod platforms;
pub mod queries;
pub mod query_parameters;
pub mod response;
pub mod result;
pub mod search;
pub mod shared_settings;
pub mod steam_static;
pub mod styles;
pub mod text;
