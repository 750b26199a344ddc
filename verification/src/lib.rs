//! A multi-tenant authentication engine.
//!
//! Services register with the engine, hold opaque keys, and delegate to it
//! the login of their users, registration, password reset, the change of
//! email address and password, and federated login. Every operation is a
//! function of the credential store, the request, and a [`context::Context`]
//! that holds the time and the fresh secrets the request may use up; what it
//! returns and how it changes the store is stated over the model in
//! [`store::Store`] and proved.
//!
//! - [`store`], [`driver`], [`memory`]: the model of the credential store,
//!   the interface to it, and a store kept in memory.
//! - [`csrf`]: single-use entries, read at most once.
//! - [`auth`]: from a key value to the service and user it stands for.
//! - [`jwt`], [`password`]: signed tokens and password hashes.
//! - [`audit`], [`audit_type`], [`trail`]: the audit trail.
//! - [`method`]: what all operations share.
//! - [`local`], [`token`], [`verify`], [`oauth2`]: the operations on
//!   accounts, tokens, second factors and federated logins.
//! - [`service`], [`user`], [`key`]: the administration of services, users
//!   and keys.
//! - [`client`], [`common`]: the client side and the bodies of the HTTP
//!   interface.

pub mod audit;
pub mod audit_type;
pub mod auth;
pub mod client;
pub mod common;
pub mod context;
pub mod csrf;
pub mod driver;
pub mod error;
pub mod jwt;
pub mod key;
pub mod listing;
pub mod local;
pub mod memory;
pub mod method;
pub mod model;
pub mod oauth2;
pub mod password;
pub mod service;
pub mod store;
pub mod text;
pub mod token;
pub mod trail;
pub mod user;
pub mod verify;
