//! Core types and rules of a small trading-analytics service.
//!
//! The verified part of the service: configuration and model types, the
//! input-domain rules of the statistics engine, the health and placeholder
//! replies of the HTTP surface, and the clock utility. The engine's
//! floating-point arithmetic, the HTTP plumbing and the configuration-file
//! reading live with the callers.

pub mod api;
pub mod calculations;
pub mod config;
pub mod market_data;
pub mod models;
pub mod utils;
