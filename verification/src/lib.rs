//! Client-side logic for a remote key-value store spoken to over HTTP.
//!
//! The store offers four operations: set, get, list-by-prefix and delete.
//! Each is one HTTP exchange. This crate holds the verified half of the
//! client: building the request URLs, reading the store's answers, and
//! classifying failures into a small typed error model. The unverified
//! half, which performs the network exchange itself, hands every outcome
//! to this crate as plain values.

pub mod db_error;
pub mod lines;
pub mod protocol;
pub mod store_model;

use vstd::prelude::*;

verus! {

} // verus!
