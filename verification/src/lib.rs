//! The verified core of a desktop application: an OAuth2 Authorization Code login with
//! PKCE against an identity provider, and the rules by which the application tells
//! test files from source files and lists directories.
//!
//! The library performs no I/O. Where a step of the login calls for the browser or the
//! network, [`service::AuthService`] returns what is to be opened or sent and takes the
//! answer in its next step. Every function states its result over the mathematical
//! values of its arguments; what is taken on trust from other crates is named in the
//! documentation of the function that calls them.

pub mod analysis;
pub mod callback;
pub mod codec;
pub mod config;
pub mod error;
pub mod events;
pub mod files;
pub mod json;
pub mod laws;
pub mod listing;
pub mod paths;
pub mod pkce;
pub mod prompts;
pub mod request;
pub mod service;
pub mod session;
pub mod sorting;
pub mod text;
pub mod token;
pub mod tools;
pub mod watch;
