//! Glue layer between a host plugin runtime and a hardware-emulation engine:
//! firmware discovery and validation for a loaded media image, and the
//! lifecycle state machine that sequences render-context construction and
//! per-frame dispatch under host-driven callbacks.

pub mod firmware;
pub mod lifecycle;
pub mod locator;
