//! Discovery and control of cast-capable media receivers on the local network.
//!
//! The library holds the decisions: which devices a discovery scan reports,
//! how device-reported status is normalised, and which transport operation a
//! control session performs next. Performing those operations is left to the
//! caller, which feeds each outcome back in.

pub mod app_ids;
pub mod config;
pub mod discovery;
pub mod errors;
pub mod session;
pub mod status;
pub mod text;
