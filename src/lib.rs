//! Client-side state and event fan-out for a service-discovery and
//! dynamic-configuration registry.
//!
//! The registry's wire protocol is handled by `nacos_sdk`; this crate holds
//! what sits between that transport and the application: the record of what
//! this process registered, the connection settings handed to the transport,
//! the decisions taken after each transport call, and the event hub that keeps
//! the last pushed instance lists and configuration entries and fans them out
//! to consumers.

pub mod model;
pub mod state;
pub mod settings;
pub mod facade;
pub mod hub;
