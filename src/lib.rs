//! Command framing and acknowledgement parsing for a serial fingerprint-sensor module.

pub mod ack;
pub mod command;
pub mod driver;
pub mod error;

pub use ack::Ack;
pub use command::{build_command, get_check_sum, send_command, CommandBuffer};
pub use driver::{Delay, SfmUart};
pub use error::SfmError;
