//! Serial-line message broker: a mode-driven actor around a UART/RS-485 port.
//!
//! The crate holds the verified core of the broker: the mode state machine,
//! the command intake that classifies inbound messages, the framing engine
//! that assembles frames by size, inter-byte silence or CRC screening, and
//! the Modbus CRC-16 itself.  The port, the channels and the scheduler are
//! collaborators that live outside the core; the loops that drive them feed
//! their outcomes into the step functions defined here.

pub mod messages;
pub mod interface;
pub mod crc;
pub mod intake;
pub mod engine;
pub mod behavior;
pub mod laws;

pub use crate::messages::{
    BaudRate, CharSize, FlowControl, Mode, Parity, SerialInterfaceError, SerialMessage, Status,
    StopBits,
};
pub use crate::interface::SerialInterface;
pub use crate::intake::{Intake, IntakeModel};
pub use crate::engine::{ReadStep, StreamStep, TimeoutStep};
pub use crate::behavior::{MasterDispatch, SlaveDecision, SniffDecision, WaitDecision};
