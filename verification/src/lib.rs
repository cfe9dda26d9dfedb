//! Shipping-preparation back office: product nomenclature and serial numbers,
//! shipments imported from invoices, and orders pushed to a carrier platform
//! for human review.  This crate holds the decisions; storage and HTTP live
//! in the application around it.
use vstd::prelude::*;

pub mod auth;
pub mod config;
pub mod error;
pub mod ident;
pub mod nomenclature;
pub mod pattern;
pub mod pennylane;
pub mod sendcloud;
pub mod shipping;
pub mod sync;
pub mod text;

verus! {
} // verus!
