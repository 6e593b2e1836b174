use vstd::prelude::*;

pub mod text;
pub mod domain;
pub mod provider;
pub mod store;
pub mod github;
pub mod timefmt;
pub mod gh_payload;
pub mod snapshot;
pub mod error;
pub mod syncset;
pub mod auth;
pub mod tokens;
pub mod oauth;
pub mod dto;
pub mod ids;
pub mod json;
pub mod service;
pub mod api;
pub mod login;
pub mod rows;
pub mod requests;
pub mod jsonobj;
pub mod changes;
pub mod schema;
pub mod session;

verus! {

} // verus!
