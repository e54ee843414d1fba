//! Core of a minimal clear-screen renderer.
//!
//! The library holds the decisions a windowed GPU application makes:
//! which pixel format to configure a surface with, how a context reacts
//! to window resizes, what one rendered frame consists of, and how the
//! driving loop must answer each acquisition error. The platform glue
//! (window creation, driver negotiation, command submission) lives
//! outside and hands the library plain values.

pub mod config;
pub mod context;
pub mod event;
pub mod laws;
pub mod render;
