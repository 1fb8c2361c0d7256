//! Supervision core of a TCP tunnel utility.
//!
//! The crate models the control-flow layer of a tunnel client and server:
//! how many connection attempts the client makes, in what order, against
//! which targets, and the pre-flight validation a server performs on its
//! configured port range.  The wire protocol, proxying and authentication
//! are an external collaborator's business; the supervision decisions made
//! here are verified.

pub mod bootstrap;
pub mod config;
pub mod orchestrator;
