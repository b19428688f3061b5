//! Core library of a cocktail-recipe catalog service.
//!
//! The heart of the crate is the access-token lifecycle: generation of client
//! identities, issuance of opaque bearer credentials, their salted hashing and
//! verification, their storage with an expiry, and the registration workflow
//! (request, email confirmation, approval, enablement) that produces them.
//! Every restricted operation of the surrounding service is guarded by
//! [`gate::check_access`], which validates a presented `client:secret` bearer
//! string against the credential store and the account state.

pub mod author;
pub mod client_id;
pub mod config;
pub mod errors;
pub mod gate;
pub mod ident;
pub mod ingredient;
pub mod mailing;
pub mod query;
pub mod recipe;
pub mod secret;
pub mod store;
pub mod strutil;
pub mod tag;
pub mod token_request;
pub mod validate;
pub mod workflow;
