//! Platform capability detection and bootstrap sequencing for a desktop
//! application launcher.
//!
//! The launcher has to bring a GUI runtime online on hosts that differ in
//! display protocol, GPU vendor, virtualization layer and build mode. This
//! crate holds the decisions of that startup path: which host signals are
//! derived from which observations, which compensating overrides follow from
//! them, who gets to own the process-wide logging facade, and in which order
//! the steps run. Every side effect (reading files, writing environment
//! variables, creating windows) is left to the caller.

pub mod features;
pub mod logging;
pub mod policy;
pub mod sequencer;
pub mod signals;
pub mod text;
