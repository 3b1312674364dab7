//! Host-side protocol layer for gs_usb-class USB CAN adapters.
//!
//! The crate holds the parts of a CAN driver that can be reasoned about without a
//! device attached: the wire records, the bit-timing search, the frame codec and the
//! interface state machine. Every operation that would touch the adapter is returned
//! as a [`wire::Command`] for the caller's transport to carry out.

pub mod channel;
pub mod error;
pub mod frame;
pub mod interface;
pub mod options;
pub mod receive;
pub mod timing;
pub mod wire;
