//! The core of authentication and realm configuration for the management of
//! several clusters.
//!
//! - [`ticket`], [`tfa`], [`api`], [`error`] and [`login`]: session tickets, and
//!   the exchange with the ticket endpoint that ends in a session or in a
//!   challenge for a second factor.
//! - [`section_map`], [`section_config`] and [`section_entry`]: section data with
//!   typed records, which keeps the order of the file.
//! - [`realm`], [`realm_codec`], [`digest`] and [`domains`]: the realms, their
//!   JSON form, the digest of the file that holds them, and the rules of the
//!   realm store.
//! - [`dashboard`] and [`pbs`]: what the dashboard panels show, and how the
//!   client for backup servers reads an answer.
//! - [`json`], [`json_fields`] and [`text`]: JSON values as `serde_json` holds
//!   them, and helpers on them and on strings.
//!
//! Nothing here reads a file or talks to a server. Callers hand over what they
//! have read and carry out what is decided.

pub mod api;
pub mod dashboard;
pub mod digest;
pub mod domains;
pub mod error;
pub mod json;
pub mod json_fields;
pub mod login;
pub mod pbs;
pub mod realm;
pub mod realm_codec;
pub mod section_config;
pub mod section_entry;
pub mod section_map;
pub mod text;
pub mod tfa;
pub mod ticket;
