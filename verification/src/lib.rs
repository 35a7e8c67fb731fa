//! A client for a multi-tenant provisioning API, without its transport.
//!
//! The library knows the records of the API and their form on the wire,
//! makes the request that each call sends, reads the result of a call from
//! the status and the body of the reply, and decides how a run of the
//! command-line client comes by its token. Sending requests, asking at the
//! terminal and printing are left to the program that uses it.
//!
//! - [`provisioning`]: the records, the wire form, the failures, the client
//!   and the paging through all customers
//! - [`credentials`]: the token in the platform's secret store
//! - [`cmd`]: the commands of the command-line client, the resolution of
//!   the token and the lines that are printed
//! - [`json`], [`text`], [`time`]: documents, text and points in time

pub mod cmd;
pub mod credentials;
pub mod json;
pub mod provisioning;
pub mod text;
pub mod time;
