//! Authentication, session, invitation and administration logic of the `auth`
//! module, with the storage and transport edges left to the caller.
//!
//! - Values: [`datetime`], [`decimal`], [`model`], [`store`], [`messages`],
//!   [`cache`], [`config`], [`roles`].
//! - Computations on them: [`text`], [`crypto`], [`json`], [`password`],
//!   [`totp`], [`api_key`], [`identity`], [`events`].
//! - Services, as state machines or decisions over what the store returned:
//!   [`login`], [`mfa`], [`account`], [`invitation`], [`session`], [`admin`],
//!   [`admin_flow`], [`profile`], [`hooks`].
//! - Replies on the wire: [`wire`].

pub mod datetime;
pub mod roles;
pub mod decimal;
pub mod model;
pub mod store;
pub mod text;
pub mod crypto;
pub mod cache;
pub mod events;
pub mod config;
pub mod api_key;
pub mod identity;
pub mod totp;
pub mod password;
pub mod session;
pub mod messages;
pub mod login;
pub mod mfa;
pub mod account;
pub mod invitation;
pub mod json;
pub mod admin;
pub mod admin_flow;
pub mod profile;
pub mod hooks;
pub mod wire;
