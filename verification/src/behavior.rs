//! The per-mode behaviors, reduced to their decisions.
//!
//! Each behavior of the broker is a loop in the runtime: poll the intake,
//! read from the line, write to it.  Everything those loops decide — what
//! an escalated message means in the current situation, which error to
//! emit, when to hand control back to the mode driver — lives here, one
//! function per decision point, so the loops themselves only carry out
//! directives.

use vstd::prelude::*;

use crate::interface::SerialInterface;
use crate::messages::{Mode, SerialInterfaceError, SerialMessage, Status};

verus! {

/// What an escalated message means while a master waits for the response.
#[derive(Debug, PartialEq)]
pub enum WaitDecision {
    /// Keep waiting for the response.
    KeepWaiting,
    /// Emit this error, then keep waiting.
    EmitAndWait(SerialInterfaceError),
    /// A stop was requested: leave the behavior.
    ReturnStop,
}

/// What an escalated message means while a slave waits for a request.
#[derive(Debug, PartialEq)]
pub enum SlaveDecision {
    /// Keep listening for a request.
    KeepListening,
    /// Hand these bytes to the caller, which transmits the response.
    ReturnSend(Vec<u8>),
    /// A stop was requested: leave the behavior.
    ReturnStop,
    /// Emit this error, then keep listening.
    EmitAndListen(SerialInterfaceError),
}

/// What an escalated message means while the sniffer listens.
#[derive(Debug, PartialEq)]
pub enum SniffDecision {
    /// Keep listening.
    KeepListening,
    /// Write these bytes to the line, then resume listening.
    WriteData(Vec<u8>),
    /// A stop was requested: leave the behavior.
    ReturnStop,
    /// Emit this error, then keep listening.
    EmitAndListen(SerialInterfaceError),
}

/// What an escalated message means at the top of a master loop, between
/// requests.
#[derive(Debug, PartialEq)]
pub enum MasterDispatch {
    /// Nothing to do; poll the intake again.
    Poll,
    /// Write these bytes as a request and wait for the response.
    DoSend(Vec<u8>),
    /// A stop was requested: leave the behavior.
    ReturnStop,
    /// Emit this error, then poll again.
    EmitError(SerialInterfaceError),
}

impl SerialInterface {
    /// Classifies a message escalated at the top of the Master or
    /// MasterStream loop.  Only a stop leaves the behavior; another mode
    /// requires stopping first; a send starts a request.
    pub fn master_dispatch(msg: SerialMessage) -> (r: MasterDispatch)
        ensures
            r == (match msg {
                SerialMessage::SetMode(Mode::Stop) => MasterDispatch::ReturnStop,
                SerialMessage::SetMode(Mode::Slave) => MasterDispatch::EmitError(
                    SerialInterfaceError::StopModeBeforeChange,
                ),
                SerialMessage::SetMode(Mode::Sniff) => MasterDispatch::EmitError(
                    SerialInterfaceError::StopModeBeforeChange,
                ),
                SerialMessage::Send(data) => MasterDispatch::DoSend(data),
                _ => MasterDispatch::Poll,
            }),
    {
        match msg {
            SerialMessage::SetMode(Mode::Stop) => MasterDispatch::ReturnStop,
            SerialMessage::SetMode(Mode::Slave) => MasterDispatch::EmitError(
                SerialInterfaceError::StopModeBeforeChange,
            ),
            SerialMessage::SetMode(Mode::Sniff) => MasterDispatch::EmitError(
                SerialInterfaceError::StopModeBeforeChange,
            ),
            SerialMessage::Send(data) => MasterDispatch::DoSend(data),
            _ => MasterDispatch::Poll,
        }
    }

    /// Begins a master request: the silence boundary must be configured
    /// before anything is written.
    pub fn master_send_begin(&mut self) -> (r: Result<u64, SerialInterfaceError>)
        ensures
            old(self).silence matches Some(ns) ==> {
                &&& r == Ok::<u64, SerialInterfaceError>(ns)
                &&& *final(self) == (SerialInterface { status: Status::Writing, ..*old(self) })
            },
            old(self).silence is None ==> {
                &&& r == Err::<u64, SerialInterfaceError>(SerialInterfaceError::SilenceMissing)
                &&& *final(self) == *old(self)
            },
    {
        match self.silence {
            Some(ns) => {
                self.status = Status::Writing;
                Ok(ns)
            },
            None => Err(SerialInterfaceError::SilenceMissing),
        }
    }

    /// Begins a stream-mode request, which needs no silence boundary.
    pub fn stream_send_begin(&mut self)
        ensures
            *final(self) == (SerialInterface { status: Status::Writing, ..*old(self) }),
    {
        self.status = Status::Writing;
    }

    /// Records the outcome of writing the request bytes: a written request
    /// puts the master into the response wait, a failed one ends it.
    pub fn master_send_written(&mut self, write_ok: bool)
        ensures
            write_ok ==> *final(self) == (SerialInterface {
                status: Status::WaitingResponse,
                ..*old(self)
            }),
            !write_ok ==> *final(self) == (SerialInterface { status: Status::Idle, ..*old(self) }),
    {
        if write_ok {
            self.status = Status::WaitingResponse;
        } else {
            self.status = Status::Idle;
        }
    }

    /// Classifies a message escalated while the master waits for the
    /// response: a send cannot be honoured now, another mode requires
    /// stopping first, and only a stop interrupts the wait.
    pub fn master_wait_decision(&mut self, msg: SerialMessage) -> (r: WaitDecision)
        ensures
            r == (match msg {
                SerialMessage::Send(_) => WaitDecision::EmitAndWait(
                    SerialInterfaceError::WaitingForResponse,
                ),
                SerialMessage::SetMode(Mode::Stop) => WaitDecision::ReturnStop,
                SerialMessage::SetMode(Mode::Slave) => WaitDecision::EmitAndWait(
                    SerialInterfaceError::StopModeBeforeChange,
                ),
                SerialMessage::SetMode(Mode::Sniff) => WaitDecision::EmitAndWait(
                    SerialInterfaceError::StopModeBeforeChange,
                ),
                _ => WaitDecision::KeepWaiting,
            }),
            msg == SerialMessage::SetMode(Mode::Stop) ==> *final(self) == (SerialInterface {
                status: Status::Idle,
                ..*old(self)
            }),
            msg != SerialMessage::SetMode(Mode::Stop) ==> *final(self) == *old(self),
    {
        match msg {
            SerialMessage::Send(_) => WaitDecision::EmitAndWait(
                SerialInterfaceError::WaitingForResponse,
            ),
            SerialMessage::SetMode(Mode::Stop) => {
                self.status = Status::Idle;
                WaitDecision::ReturnStop
            },
            SerialMessage::SetMode(Mode::Slave) => WaitDecision::EmitAndWait(
                SerialInterfaceError::StopModeBeforeChange,
            ),
            SerialMessage::SetMode(Mode::Sniff) => WaitDecision::EmitAndWait(
                SerialInterfaceError::StopModeBeforeChange,
            ),
            _ => WaitDecision::KeepWaiting,
        }
    }

    /// Ends a stream-mode request once its frame or `NoResponse` has been
    /// emitted.
    pub fn stream_finish(&mut self)
        ensures
            *final(self) == (SerialInterface { status: Status::Idle, ..*old(self) }),
    {
        self.status = Status::Idle;
    }

    /// Prepares one slave listen: the silence boundary must be configured,
    /// and the interface shows it is reading.  Returns the silence to gate
    /// the read with.
    pub fn begin_listen_read(&mut self) -> (r: Result<u64, SerialInterfaceError>)
        ensures
            old(self).silence matches Some(ns) ==> {
                &&& r == Ok::<u64, SerialInterfaceError>(ns)
                &&& *final(self) == (SerialInterface { status: Status::Reading, ..*old(self) })
            },
            old(self).silence is None ==> {
                &&& r == Err::<u64, SerialInterfaceError>(SerialInterfaceError::SilenceMissing)
                &&& *final(self) == *old(self)
            },
    {
        match self.silence {
            Some(ns) => {
                self.status = Status::Reading;
                Ok(ns)
            },
            None => Err(SerialInterfaceError::SilenceMissing),
        }
    }

    /// Classifies a message escalated while the slave waits for a request.
    /// The read is over either way, so the interface goes back to idle.
    pub fn slave_request_decision(&mut self, msg: SerialMessage) -> (r: SlaveDecision)
        ensures
            *final(self) == (SerialInterface { status: Status::Idle, ..*old(self) }),
            r == (match msg {
                SerialMessage::Send(data) => SlaveDecision::ReturnSend(data),
                SerialMessage::SetMode(Mode::Stop) => SlaveDecision::ReturnStop,
                SerialMessage::SetMode(_) => SlaveDecision::EmitAndListen(
                    SerialInterfaceError::StopModeBeforeChange,
                ),
                _ => SlaveDecision::KeepListening,
            }),
    {
        self.status = Status::Idle;
        match msg {
            SerialMessage::Send(data) => SlaveDecision::ReturnSend(data),
            SerialMessage::SetMode(Mode::Stop) => SlaveDecision::ReturnStop,
            SerialMessage::SetMode(_) => SlaveDecision::EmitAndListen(
                SerialInterfaceError::StopModeBeforeChange,
            ),
            _ => SlaveDecision::KeepListening,
        }
    }

    /// Classifies a message escalated while the sniffer listens.  The
    /// sniffer may inject traffic, so a send is honoured; only a stop (or
    /// a redundant switch to Sniff) is a lawful mode request.
    pub fn sniff_decision(&mut self, msg: SerialMessage) -> (r: SniffDecision)
        ensures
            r == (match msg {
                SerialMessage::Send(data) => SniffDecision::WriteData(data),
                SerialMessage::SetMode(Mode::Stop) => SniffDecision::ReturnStop,
                SerialMessage::SetMode(Mode::Sniff) => SniffDecision::KeepListening,
                SerialMessage::SetMode(_) => SniffDecision::EmitAndListen(
                    SerialInterfaceError::StopModeBeforeChange,
                ),
                _ => SniffDecision::KeepListening,
            }),
            msg matches SerialMessage::Send(_) ==> *final(self) == (SerialInterface {
                status: Status::Writing,
                ..*old(self)
            }),
            msg == SerialMessage::SetMode(Mode::Stop) ==> *final(self) == (SerialInterface {
                status: Status::Idle,
                ..*old(self)
            }),
            !(msg matches SerialMessage::Send(_)) && msg != SerialMessage::SetMode(Mode::Stop)
                ==> *final(self) == *old(self),
    {
        match msg {
            SerialMessage::Send(data) => {
                self.status = Status::Writing;
                SniffDecision::WriteData(data)
            },
            SerialMessage::SetMode(Mode::Stop) => {
                self.status = Status::Idle;
                SniffDecision::ReturnStop
            },
            SerialMessage::SetMode(Mode::Sniff) => SniffDecision::KeepListening,
            SerialMessage::SetMode(_) => SniffDecision::EmitAndListen(
                SerialInterfaceError::StopModeBeforeChange,
            ),
            _ => SniffDecision::KeepListening,
        }
    }

    /// Ends the sniffer's injected write, successful or not.
    pub fn sniff_write_finish(&mut self)
        ensures
            *final(self) == (SerialInterface { status: Status::Idle, ..*old(self) }),
    {
        self.status = Status::Idle;
    }

    /// Whether the port is open, as the write path requires it.
    pub fn write_precheck(&self) -> (r: Result<(), SerialInterfaceError>)
        ensures
            self.port_open ==> r == Ok::<(), SerialInterfaceError>(()),
            !self.port_open ==> r == Err::<(), SerialInterfaceError>(
                SerialInterfaceError::PortNotOpened,
            ),
    {
        if self.port_open {
            Ok(())
        } else {
            Err(SerialInterfaceError::PortNotOpened)
        }
    }

    /// The event a finished write produces: the data-sent acknowledgement
    /// when every byte went out, the write error otherwise.
    pub fn write_event(data: Vec<u8>, wrote_ok: bool) -> (r: Result<
        SerialMessage,
        SerialInterfaceError,
    >)
        ensures
            wrote_ok ==> r == Ok::<SerialMessage, SerialInterfaceError>(
                SerialMessage::DataSent(data),
            ),
            !wrote_ok ==> r == Err::<SerialMessage, SerialInterfaceError>(
                SerialInterfaceError::CannotWritePort,
            ),
    {
        if wrote_ok {
            Ok(SerialMessage::DataSent(data))
        } else {
            Err(SerialInterfaceError::CannotWritePort)
        }
    }

    /// Applies a mode escalated to the driver while it stands in `Stop`.
    /// An unlawful switch leaves the mode alone and yields the error to
    /// emit; in particular, Slave without a Modbus address is refused.
    pub fn apply_stop_escalation(&mut self, m: Mode) -> (r: Vec<SerialMessage>)
        ensures
            old(self).mode != Mode::Stop ==> {
                &&& *final(self) == *old(self)
                &&& r@ == seq![
                    SerialMessage::Error(SerialInterfaceError::StopToChangeSettings),
                ]
            },
            old(self).mode == Mode::Stop && old(self).modbus_id is None && m == Mode::Slave ==> {
                &&& *final(self) == *old(self)
                &&& r@ == seq![
                    SerialMessage::Error(SerialInterfaceError::SlaveModeNeedModbusID),
                ]
            },
            old(self).mode == Mode::Stop && old(self).modbus_id is Some && old(self).port_open
                ==> {
                &&& *final(self) == *old(self)
                &&& r@ == seq![
                    SerialMessage::Error(SerialInterfaceError::DisconnectToChangeSettings),
                ]
            },
            old(self).mode == Mode::Stop && (old(self).modbus_id is None ==> m != Mode::Slave)
                && (old(self).modbus_id is Some ==> !old(self).port_open) ==> {
                &&& *final(self) == (SerialInterface { mode: m, ..*old(self) })
                &&& r@ == Seq::<SerialMessage>::empty()
            },
    {
        let mut evs: Vec<SerialMessage> = Vec::new();
        match self.set_mode(m) {
            Ok(_) => {},
            Err(e) => {
                evs.push(SerialMessage::Error(e));
                proof {
                    assert(evs@ =~= seq![SerialMessage::Error(evs@[0]->Error_0)]);
                }
            },
        }
        evs
    }

    /// Applies what a behavior came back with: a stop request or a failure
    /// drops the driver back to `Stop`, anything else leaves the mode as
    /// it is.
    pub fn apply_behavior_outcome(&mut self, outcome: Result<Option<Mode>, SerialInterfaceError>)
        ensures
            outcome == Ok::<Option<Mode>, SerialInterfaceError>(Some(Mode::Stop)) || outcome
                is Err ==> *final(self) == (SerialInterface { mode: Mode::Stop, ..*old(self) }),
            !(outcome == Ok::<Option<Mode>, SerialInterfaceError>(Some(Mode::Stop)) || outcome
                is Err) ==> *final(self) == *old(self),
    {
        match outcome {
            Ok(Some(Mode::Stop)) => {
                self.mode = Mode::Stop;
            },
            Ok(_) => {},
            Err(_) => {
                self.mode = Mode::Stop;
            },
        }
    }
}

} // verus!
