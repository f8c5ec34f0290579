//! Dynamic DNS for Cloudflare: keeps DNS records pointed at the caller's
//! current public address.
//!
//! The crate holds the decisions only. Every network exchange is made by the
//! caller, who hands the replies in as plain values and receives the next
//! request to make.

pub mod cloudflare;
pub mod config;
pub mod ip_utils;
pub mod reconciler;
pub mod scheduler;
pub mod trace;
