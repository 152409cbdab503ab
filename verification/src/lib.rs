//! Enriches the authentication of a request with the attributes that the Salesforce UserInfo
//! endpoint knows of its user.
//!
//! `enrich` takes a request from its `Authorization` header to a verdict, one step at a time;
//! `auth` writes the verdict into the authentication. The steps build on `token` (finding the
//! bearer token, its cache key and its expiry), `cache` (entries, how long they are good and how
//! many there are), `attributes` (the answer of the endpoint) and `config`. `json`, `text` and
//! `clock` hold what these need of documents, texts and the clock. `outcomes` and
//! `requests` state what each call gives for what goes into it, `laws` what holds of the policy as
//! a whole.
pub mod attributes;
pub mod auth;
pub mod cache;
pub mod clock;
pub mod config;
pub mod enrich;
pub mod json;
pub mod laws;
pub mod outcomes;
pub mod requests;
pub mod text;
pub mod token;
