//! An in-process harness for exercising HTTP-style request handling from
//! ordinary blocking test code.
//!
//! The harness pairs a server-side handler with a client that issues one
//! request at a time and waits for the outcome: a finished response, or a
//! failure such as a timeout. This crate holds the verified core of that
//! harness: the data the harness carries (addresses, requests, responses,
//! headers and errors), the rule that resolves the race between a request
//! and the configured timeout, the behaviour of the handlers the harness is
//! exercised with, and the deferred reading of a response body, including
//! its decoding as UTF-8 text.
//!
//! The pieces that talk to the operating system — binding a listening
//! socket, driving an asynchronous execution engine, moving bytes over a
//! real connection — live with an unverified runner that consults the
//! functions of this crate for every decision it takes.

pub mod addr;
pub mod decimal;
pub mod error;
pub mod harness;
pub mod http;
pub mod laws;
