//! The decision core of a small HTTP gateway in front of an activity-tracking
//! service.
//!
//! The gateway signs in once, keeps the session token, and answers each
//! inbound request with the help of exactly one upstream call. This crate holds everything
//! the gateway decides: which upstream request an operation needs, how an
//! upstream outcome becomes a reply, and how credentials are resolved at
//! startup. It performs no I/O itself; the program around it sends the
//! requests it describes and hands back what came of them.

pub mod body;
pub mod config;
pub mod data;
pub mod external;
pub mod handlers;
