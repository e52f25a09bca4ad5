//! Coordination core of a network-attached relay controller.
//!
//! The crate holds the decisions of the device: what the bounded activity
//! log keeps, which answer each request gets, how a relay pulse proceeds step
//! by step, what the status display shows, and when the display is redrawn.
//! Hardware, network and display drivers stay with the caller, which feeds
//! their outcomes back as plain values.

pub mod activity_log;
pub mod actuator;
pub mod clock;
pub mod connectivity;
pub mod control;
pub mod entry;
pub mod render;
pub mod ring;
pub mod router;
pub mod text;
