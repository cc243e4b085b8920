//! Host side of the serial protocol spoken by the K128 / K149 / K150 family
//! of PIC programmers.
//!
//! The crate performs no input or output of its own. A session hands the host
//! one [`message::Action`] at a time (drive the reset line, write these
//! bytes, read that many bytes within a deadline) and is told what happened
//! through a [`message::Event`]. Everything the protocol decides is decided
//! here and proved against the models in each module.

pub mod chipinfo;
pub mod exchange;
pub mod frame;
pub mod machine;
pub mod message;
pub mod plan;
pub mod protocol;
pub mod utils;
pub mod wire;
