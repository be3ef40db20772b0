//! The verified core of a storefront API.
//!
//! The heart of it is OAuth2 token introspection with a cache in front:
//! [`header`] finds the bearer token in a request, [`claims`] decodes the
//! identity provider's response into an authorization record, and
//! [`zitadel`] decides, step by step, when to read the cache, when to ask the
//! provider and what to store. [`json`] is the boundary to `serde_json`, and
//! [`credentials`] computes what the service presents to the provider.
//! [`env`] and [`graphql_api`] hold the configuration and the sample data
//! that the storefront answers with.
//!
//! Nothing here performs I/O. Whoever drives the protocol reads the cache
//! store, calls the provider, and hands the answers back.

pub mod claims;
pub mod context;
pub mod credentials;
pub mod env;
pub mod graphql_api;
pub mod header;
pub mod json;
pub mod zitadel;
