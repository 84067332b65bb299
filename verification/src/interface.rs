//! The actor state: one `SerialInterface` per port.
//!
//! The struct holds the plain state the decisions read: the configured line
//! settings, the operating mode, the advisory status, and whether the port
//! is currently open.  The port handle itself, the two channels and the
//! clock belong to the runtime around the core; the runtime reports their
//! outcomes to the step functions, which do all the deciding.

use vstd::prelude::*;

use crate::messages::{
    BaudRate, CharSize, FlowControl, Mode, Parity, SerialInterfaceError, Status, StopBits,
};

verus! {

/// Default inter-byte silence, in nanoseconds.
pub const DEFAULT_SILENCE_NS: u64 = 800;

/// Default response timeout, in nanoseconds.
pub const DEFAULT_TIMEOUT_NS: u64 = 10000;

/// A serial interface with its modes and line settings.
///
/// It mediates reading, writing and port settings, and operates in the
/// roles Master, MasterStream, Slave and Sniff, or stands in Stop.
pub struct SerialInterface {
    /// Device path used by `Connect`; changeable in `Stop` only.
    pub path: Option<String>,
    /// Current operating mode.
    pub mode: Mode,
    /// Advisory micro-state.
    pub status: Status,
    /// Optional slave address; `Slave` mode requires it.
    pub modbus_id: Option<u8>,
    /// Line speed.
    pub baud_rate: BaudRate,
    /// Data bits per character.
    pub char_size: CharSize,
    /// Parity of the link.
    pub parity: Parity,
    /// Stop bits per character.
    pub stop_bits: StopBits,
    /// Flow control of the link.
    pub flow_control: FlowControl,
    /// Whether the port is open; the port handle itself lives with the
    /// runtime that owns the interface.
    pub port_open: bool,
    /// Inter-byte gap that ends a frame, in nanoseconds.
    pub silence: Option<u64>,
    /// Response deadline for a master request, in nanoseconds.
    pub timeout: u64,
}

impl SerialInterface {
    /// The state a fresh interface starts in.
    pub open spec fn initial() -> SerialInterface {
        SerialInterface {
            path: None,
            mode: Mode::Stop,
            status: Status::Idle,
            modbus_id: None,
            baud_rate: BaudRate::Baud115200,
            char_size: CharSize::Bits8,
            parity: Parity::ParityNone,
            stop_bits: StopBits::Stop2,
            flow_control: FlowControl::FlowNone,
            port_open: false,
            silence: Some(DEFAULT_SILENCE_NS),
            timeout: DEFAULT_TIMEOUT_NS,
        }
    }

    /// Creates an interface with the default settings.
    pub fn new() -> (r: Result<SerialInterface, SerialInterfaceError>)
        ensures
            r == Ok::<SerialInterface, SerialInterfaceError>(SerialInterface::initial()),
    {
        Ok(SerialInterface {
            path: None,
            mode: Mode::Stop,
            status: Status::Idle,
            modbus_id: None,
            baud_rate: BaudRate::Baud115200,
            char_size: CharSize::Bits8,
            parity: Parity::ParityNone,
            stop_bits: StopBits::Stop2,
            flow_control: FlowControl::FlowNone,
            port_open: false,
            silence: Some(DEFAULT_SILENCE_NS),
            timeout: DEFAULT_TIMEOUT_NS,
        })
    }

    /// Sets the device path; for method chaining.
    pub fn path(self, path: String) -> (r: SerialInterface)
        ensures
            r == (SerialInterface { path: Some(path), ..self }),
    {
        SerialInterface { path: Some(path), ..self }
    }

    /// Sets the baud rate; for method chaining.
    pub fn bauds(self, bauds: BaudRate) -> (r: SerialInterface)
        ensures
            r == (SerialInterface { baud_rate: bauds, ..self }),
    {
        SerialInterface { baud_rate: bauds, ..self }
    }

    /// Sets the character size; for method chaining.
    pub fn char_size(self, size: CharSize) -> (r: SerialInterface)
        ensures
            r == (SerialInterface { char_size: size, ..self }),
    {
        SerialInterface { char_size: size, ..self }
    }

    /// Sets the parity; for method chaining.
    pub fn parity(self, parity: Parity) -> (r: SerialInterface)
        ensures
            r == (SerialInterface { parity: parity, ..self }),
    {
        SerialInterface { parity: parity, ..self }
    }

    /// Sets the stop bits; for method chaining.
    pub fn stop_bits(self, stop_bits: StopBits) -> (r: SerialInterface)
        ensures
            r == (SerialInterface { stop_bits: stop_bits, ..self }),
    {
        SerialInterface { stop_bits: stop_bits, ..self }
    }

    /// Sets the flow control; for method chaining.
    pub fn flow_control(self, flow_control: FlowControl) -> (r: SerialInterface)
        ensures
            r == (SerialInterface { flow_control: flow_control, ..self }),
    {
        SerialInterface { flow_control: flow_control, ..self }
    }

    /// Sets the Modbus slave address; for method chaining.
    pub fn modbus_id(self, modbus_id: u8) -> (r: SerialInterface)
        ensures
            r == (SerialInterface { modbus_id: Some(modbus_id), ..self }),
    {
        SerialInterface { modbus_id: Some(modbus_id), ..self }
    }

    /// Sets the inter-byte silence that ends a frame; for method chaining.
    pub fn silence(self, silence: u64) -> (r: SerialInterface)
        ensures
            r == (SerialInterface { silence: Some(silence), ..self }),
    {
        SerialInterface { silence: Some(silence), ..self }
    }

    /// Switches the operating mode.
    ///
    /// Only allowed while the current mode is `Stop`.  `Slave` additionally
    /// requires a configured Modbus address; with an address configured the
    /// port must be closed first.
    pub fn set_mode(&mut self, m: Mode) -> (r: Result<(), SerialInterfaceError>)
        ensures
            old(self).mode != Mode::Stop ==> {
                &&& r == Err::<(), SerialInterfaceError>(SerialInterfaceError::StopToChangeSettings)
                &&& *final(self) == *old(self)
            },
            old(self).mode == Mode::Stop && old(self).modbus_id is None && m == Mode::Slave ==> {
                &&& r == Err::<(), SerialInterfaceError>(SerialInterfaceError::SlaveModeNeedModbusID)
                &&& *final(self) == *old(self)
            },
            old(self).mode == Mode::Stop && old(self).modbus_id is Some && old(self).port_open
                ==> {
                &&& r == Err::<(), SerialInterfaceError>(
                    SerialInterfaceError::DisconnectToChangeSettings,
                )
                &&& *final(self) == *old(self)
            },
            old(self).mode == Mode::Stop && (old(self).modbus_id is None ==> m != Mode::Slave)
                && (old(self).modbus_id is Some ==> !old(self).port_open) ==> {
                &&& r == Ok::<(), SerialInterfaceError>(())
                &&& *final(self) == (SerialInterface { mode: m, ..*old(self) })
            },
    {
        if let Mode::Stop = self.mode {
            if self.modbus_id.is_none() {
                if let Mode::Slave = m {
                    return Err(SerialInterfaceError::SlaveModeNeedModbusID);
                }
            } else if self.port_open {
                return Err(SerialInterfaceError::DisconnectToChangeSettings);
            }
            self.mode = m;
            Ok(())
        } else {
            Err(SerialInterfaceError::StopToChangeSettings)
        }
    }

    /// The current operating mode.
    pub fn get_mode(&self) -> (r: &Mode)
        ensures
            *r == self.mode,
    {
        &self.mode
    }

    /// The current micro-state.
    pub fn get_state(&self) -> (r: &Status)
        ensures
            *r == self.status,
    {
        &self.status
    }

    /// Whether a fresh open of the port is allowed in this state, and the
    /// error reported when it is not.
    pub open spec fn open_precondition(self) -> Result<(), SerialInterfaceError> {
        if self.port_open || self.mode != Mode::Stop {
            Err(SerialInterfaceError::PortAlreadyOpen)
        } else if self.path is None {
            Err(SerialInterfaceError::PathMissing)
        } else {
            Ok(())
        }
    }

    /// Accounts the port as open.
    ///
    /// This is the state transition of a successful connect: the
    /// operating-system open of the configured device happens in the runtime
    /// around the core, and a failure there is reported through
    /// `finish_connect` instead.
    pub fn open(&mut self) -> (r: Result<(), SerialInterfaceError>)
        ensures
            old(self).open_precondition() is Err ==> {
                &&& r == old(self).open_precondition()
                &&& *final(self) == *old(self)
            },
            old(self).open_precondition() is Ok ==> {
                &&& r == Ok::<(), SerialInterfaceError>(())
                &&& *final(self) == (SerialInterface { port_open: true, ..*old(self) })
            },
    {
        if self.port_open || !matches!(self.mode, Mode::Stop) {
            Err(SerialInterfaceError::PortAlreadyOpen)
        } else if self.path.is_none() {
            Err(SerialInterfaceError::PathMissing)
        } else {
            self.port_open = true;
            Ok(())
        }
    }

    /// Closes the port.  After the call the port is closed whether or not
    /// there was one to close.
    pub fn close(&mut self) -> (r: Result<(), SerialInterfaceError>)
        ensures
            *final(self) == (SerialInterface { port_open: false, ..*old(self) }),
            old(self).port_open ==> r == Ok::<(), SerialInterfaceError>(()),
            !old(self).port_open ==> r == Err::<(), SerialInterfaceError>(
                SerialInterfaceError::NoPortToClose,
            ),
    {
        if self.port_open {
            self.port_open = false;
            Ok(())
        } else {
            Err(SerialInterfaceError::NoPortToClose)
        }
    }
}

} // verus!
