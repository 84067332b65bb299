//! The command/event protocol and the plain value types it carries.
//!
//! Commands arrive on the inbound channel, events leave on the outbound one;
//! both are `SerialMessage` values.  Durations (the response timeout and the
//! inter-byte silence) are carried as whole nanoseconds.

use vstd::prelude::*;

verus! {

/// Every way an operation of the broker can fail.
#[derive(Debug, Clone, PartialEq)]
pub enum SerialInterfaceError {
    CannotListPorts,
    StopToChangeSettings,
    DisconnectToChangeSettings,
    CannotReadPort(Option<String>),
    WrongReadArguments,
    CannotOpenPort(String),
    PortNotOpened,
    SlaveModeNeedModbusID,
    PortAlreadyOpen,
    PortNeededToOpenPort,
    SilenceMissing,
    PathMissing,
    NoPortToClose,
    CannotSendMessage,
    WrongMode,
    CannotWritePort,
    StopModeBeforeChange,
    WaitingForResponse,
    CannotSetTimeout,
}

/// The advisory micro-state of the interface, emitted on demand.
#[derive(Debug, Clone, Copy, PartialEq, Eq, Structural)]
pub enum Status {
    Idle,
    Reading,
    Receiving,
    Writing,
    WaitingResponse,
}

/// The operating role of the interface.
#[derive(Debug, Clone, Copy, PartialEq, Eq, Structural)]
pub enum Mode {
    /// Request initiator on a master/slave bus.
    Master,
    /// Master whose reads are screened for CRC-valid frames instead of
    /// being bounded by silence.
    MasterStream,
    /// Request responder on a master/slave bus.
    Slave,
    /// Passive observer of the line.
    Sniff,
    /// Stopped: the only mode in which settings may change.
    Stop,
}

/// Line speed of the serial link.
#[derive(Debug, Clone, Copy, PartialEq, Eq, Structural)]
pub enum BaudRate {
    Baud110,
    Baud300,
    Baud600,
    Baud1200,
    Baud2400,
    Baud4800,
    Baud9600,
    Baud19200,
    Baud38400,
    Baud57600,
    Baud115200,
    BaudOther(u32),
}

/// Number of data bits per character.
#[derive(Debug, Clone, Copy, PartialEq, Eq, Structural)]
pub enum CharSize {
    Bits5,
    Bits6,
    Bits7,
    Bits8,
}

/// Parity of the serial link.
#[derive(Debug, Clone, Copy, PartialEq, Eq, Structural)]
pub enum Parity {
    ParityNone,
    ParityOdd,
    ParityEven,
}

/// Number of stop bits per character.
#[derive(Debug, Clone, Copy, PartialEq, Eq, Structural)]
pub enum StopBits {
    Stop1,
    Stop2,
}

/// Flow control of the serial link.
#[derive(Debug, Clone, Copy, PartialEq, Eq, Structural)]
pub enum FlowControl {
    FlowNone,
    FlowSoftware,
    FlowHardware,
}

/// A message of the command/event protocol.
///
/// Requests flow from the consumer to the broker; responses flow back.
/// Settings requests are honoured only while the mode is `Stop`; `SetMode`
/// and (outside `Stop`) `Send` are escalated to the running behavior.
#[derive(Debug, Clone, PartialEq)]
pub enum SerialMessage {
    /// Request: list the available serial ports.  Answered, in `Stop` mode,
    /// by `AvailablePorts`.
    ListPorts,
    /// Response: the available serial ports.
    AvailablePorts(Vec<String>),
    /// Request: select the device path used by subsequent `Connect`s.
    SetPort(String),
    /// Request: set the baud rate.
    SetBauds(BaudRate),
    /// Request: set the character size.
    SetCharSize(CharSize),
    /// Request: set the parity.
    SetParity(Parity),
    /// Request: set the stop bits.
    SetStopBits(StopBits),
    /// Request: set the flow control.
    SetFlowControl(FlowControl),
    /// Request: set the response timeout, in nanoseconds.  Honoured in every
    /// mode.
    SetTimeout(u64),
    /// Request: open the port with the current settings.  Answered by
    /// `Connected(true)`, or by `Connected(false)` and an `Error`.
    Connect,
    /// Request: close the port.  Answered by `Connected(false)`.
    Disconnect,
    /// Request: send bytes over the line.  Answered by `DataSent` once the
    /// bytes are written.
    Send(Vec<u8>),
    /// Response: the given bytes were written to the line.
    DataSent(Vec<u8>),
    /// Response: a frame was received from the line.
    Receive(Vec<u8>),
    /// Response: a write got no answer before the timeout.
    NoResponse,
    /// Request: report the current micro-state.  Answered by `Status`.
    GetStatus,
    /// Response: the current micro-state.
    Status(Status),
    /// Request: report whether the port is open.  Answered by `Connected`.
    GetConnectionStatus,
    /// Response: whether the port is open.
    Connected(bool),
    /// Request: switch the operating mode.
    SetMode(Mode),
    /// Response: the current operating mode.
    Mode(Mode),
    /// Response: an operation failed.
    Error(SerialInterfaceError),
    /// Request: liveness probe.  Answered by `Pong`.
    Ping,
    /// Response to `Ping`.
    Pong,
}

} // verus!
