//! Credential and session model for a multi-region account service:
//! region selection, bearer-token claim extraction, request headers,
//! endpoint failover, usage normalisation and the account collection.
//! Contracts are stated over byte sequences, character sequences and the
//! views of the records defined here.

pub mod octets;
pub mod text;
pub mod region;
pub mod entitlement;
pub mod usage;
pub mod failover;
pub mod json;
pub mod claims;
pub mod token;
pub mod headers;
pub mod cookie;
pub mod reply;
pub mod profile;
pub mod request;
pub mod client;
pub mod account;
pub mod message;
