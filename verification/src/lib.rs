//! Request dispatch and authorization for a small administration endpoint
//! that mints bearer tokens and controls the power state of one EC2 instance.
//!
//! A request comes as a JSON event. [`lambda_http`] reads the token, the
//! command and the payload out of it; [`router`] checks them in a fixed order
//! and asks one of the [`capability`] traits; [`lambda_http`] wraps the result
//! or the error into the response. [`laws`] holds what is proved of the
//! pipeline as a whole.
//!
//! JSON values, token signing and the clock belong to `serde_json` and
//! `jsonwebtoken`. The calls into them stand in [`json`], [`jwt_auth`] and
//! [`strings`], each behind a function whose contract is believed, not
//! proved; everything else is verified against those contracts.

pub mod capability;
pub mod command;
pub mod command_runners;
pub mod config;
pub mod ec2;
pub mod errors;
pub mod json;
pub mod jwt_auth;
pub mod lambda_http;
pub mod laws;
pub mod router;
pub mod services;
pub mod strings;
