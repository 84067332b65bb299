//! Command intake: classifying one inbound message.
//!
//! The runtime polls the inbound channel and hands each message to
//! `handle_message`.  Status queries, the liveness probe and — while the
//! mode is `Stop` — settings, connect and disconnect are absorbed here;
//! `SetMode` and, outside `Stop`, `Send` are escalated to the running
//! behavior.  The two commands that need the operating system (listing
//! ports, opening the port) come back as requests, and the outcome is fed
//! to `supply_port_list` or `finish_connect`.

use vstd::prelude::*;

use crate::interface::SerialInterface;
use crate::messages::{Mode, SerialInterfaceError, SerialMessage};

verus! {

/// What the intake decided for one inbound message.
#[derive(Debug, PartialEq)]
pub enum Intake {
    /// The message was absorbed; emit these events, in order.
    Done(Vec<SerialMessage>),
    /// The message is for the running behavior; hand it over.
    Escalate(SerialMessage),
    /// Enumerate the serial ports, then call `supply_port_list`.
    NeedPortList,
    /// Open the configured device, then call `finish_connect`.
    NeedOpen,
}

/// The intake decision with the emitted events as a sequence; the shape
/// the contracts and laws speak of.
pub enum IntakeModel {
    Done(Seq<SerialMessage>),
    Escalate(SerialMessage),
    NeedPortList,
    NeedOpen,
}

impl View for Intake {
    type V = IntakeModel;

    open spec fn view(&self) -> IntakeModel {
        match self {
            Intake::Done(v) => IntakeModel::Done(v@),
            Intake::Escalate(m) => IntakeModel::Escalate(*m),
            Intake::NeedPortList => IntakeModel::NeedPortList,
            Intake::NeedOpen => IntakeModel::NeedOpen,
        }
    }
}

/// The intake as a transition function: the state after the message and
/// the decision taken.  `handle_message` implements exactly this.
pub open spec fn intake_transition(s: SerialInterface, msg: SerialMessage) -> (
    SerialInterface,
    IntakeModel,
) {
    match msg {
        SerialMessage::GetConnectionStatus => (
            s,
            IntakeModel::Done(seq![SerialMessage::Connected(s.port_open)]),
        ),
        SerialMessage::GetStatus => (s, IntakeModel::Done(seq![SerialMessage::Status(s.status)])),
        SerialMessage::SetMode(m) => (s, IntakeModel::Escalate(SerialMessage::SetMode(m))),
        SerialMessage::SetTimeout(t) => (
            (SerialInterface { timeout: t, ..s }),
            IntakeModel::Done(seq![]),
        ),
        SerialMessage::Ping => (s, IntakeModel::Done(seq![SerialMessage::Pong])),
        SerialMessage::ListPorts => if s.mode == Mode::Stop {
            (s, IntakeModel::NeedPortList)
        } else {
            (s, IntakeModel::Done(seq![]))
        },
        SerialMessage::SetPort(p) => if s.mode == Mode::Stop {
            ((SerialInterface { path: Some(p), ..s }), IntakeModel::Done(seq![]))
        } else {
            (s, IntakeModel::Done(seq![]))
        },
        SerialMessage::SetBauds(b) => if s.mode == Mode::Stop {
            ((SerialInterface { baud_rate: b, ..s }), IntakeModel::Done(seq![]))
        } else {
            (s, IntakeModel::Done(seq![]))
        },
        SerialMessage::SetCharSize(c) => if s.mode == Mode::Stop {
            ((SerialInterface { char_size: c, ..s }), IntakeModel::Done(seq![]))
        } else {
            (s, IntakeModel::Done(seq![]))
        },
        SerialMessage::SetParity(p) => if s.mode == Mode::Stop {
            ((SerialInterface { parity: p, ..s }), IntakeModel::Done(seq![]))
        } else {
            (s, IntakeModel::Done(seq![]))
        },
        SerialMessage::SetStopBits(b) => if s.mode == Mode::Stop {
            ((SerialInterface { stop_bits: b, ..s }), IntakeModel::Done(seq![]))
        } else {
            (s, IntakeModel::Done(seq![]))
        },
        SerialMessage::SetFlowControl(f) => if s.mode == Mode::Stop {
            ((SerialInterface { flow_control: f, ..s }), IntakeModel::Done(seq![]))
        } else {
            (s, IntakeModel::Done(seq![]))
        },
        SerialMessage::Connect => if s.mode == Mode::Stop {
            match s.open_precondition() {
                Ok(_) => (s, IntakeModel::NeedOpen),
                Err(e) => (
                    s,
                    IntakeModel::Done(
                        seq![SerialMessage::Connected(false), SerialMessage::Error(e)],
                    ),
                ),
            }
        } else {
            (s, IntakeModel::Done(seq![]))
        },
        SerialMessage::Disconnect => if s.mode == Mode::Stop {
            if s.port_open {
                (
                    (SerialInterface { port_open: false, ..s }),
                    IntakeModel::Done(seq![SerialMessage::Connected(false)]),
                )
            } else {
                (
                    s,
                    IntakeModel::Done(
                        seq![
                            SerialMessage::Connected(false),
                            SerialMessage::Error(SerialInterfaceError::NoPortToClose),
                        ],
                    ),
                )
            }
        } else {
            (s, IntakeModel::Done(seq![]))
        },
        SerialMessage::Send(data) => if s.mode != Mode::Stop {
            (s, IntakeModel::Escalate(SerialMessage::Send(data)))
        } else {
            (s, IntakeModel::Done(seq![]))
        },
        _ => (s, IntakeModel::Done(seq![])),
    }
}

/// An absorbed message with nothing to emit.
fn done_none() -> (r: Intake)
    ensures
        r@ == IntakeModel::Done(Seq::<SerialMessage>::empty()),
{
    let evs: Vec<SerialMessage> = Vec::new();
    Intake::Done(evs)
}

/// An absorbed message answered by one event.
fn done_one(m: SerialMessage) -> (r: Intake)
    ensures
        r@ == IntakeModel::Done(seq![m]),
{
    let mut evs: Vec<SerialMessage> = Vec::new();
    evs.push(m);
    proof {
        assert(evs@ =~= seq![m]);
    }
    Intake::Done(evs)
}

/// An absorbed message answered by two events.
fn done_two(m1: SerialMessage, m2: SerialMessage) -> (r: Intake)
    ensures
        r@ == IntakeModel::Done(seq![m1, m2]),
{
    let mut evs: Vec<SerialMessage> = Vec::new();
    evs.push(m1);
    evs.push(m2);
    proof {
        assert(evs@ =~= seq![m1, m2]);
    }
    Intake::Done(evs)
}

impl SerialInterface {
    /// Handles one inbound message: absorbs it, escalates it, or asks the
    /// runtime for the operating-system work it needs.
    ///
    /// Settings, connect and disconnect are honoured only while the mode is
    /// `Stop`; elsewhere they are silently ignored.  `SetMode` is escalated
    /// in every mode, `Send` in every mode but `Stop`.
    pub fn handle_message(&mut self, msg: SerialMessage) -> (r: Intake)
        ensures
            ({
                let (s2, out) = intake_transition(*old(self), msg);
                &&& *final(self) == s2
                &&& r@ == out
            }),
    {
        match msg {
            SerialMessage::GetConnectionStatus => done_one(
                SerialMessage::Connected(self.port_open),
            ),
            SerialMessage::GetStatus => done_one(SerialMessage::Status(self.status)),
            SerialMessage::SetMode(m) => Intake::Escalate(SerialMessage::SetMode(m)),
            SerialMessage::SetTimeout(t) => {
                self.timeout = t;
                done_none()
            },
            SerialMessage::Ping => done_one(SerialMessage::Pong),
            SerialMessage::ListPorts => {
                if self.mode == Mode::Stop {
                    Intake::NeedPortList
                } else {
                    done_none()
                }
            },
            SerialMessage::SetPort(p) => {
                if self.mode == Mode::Stop {
                    self.path = Some(p);
                }
                done_none()
            },
            SerialMessage::SetBauds(b) => {
                if self.mode == Mode::Stop {
                    self.baud_rate = b;
                }
                done_none()
            },
            SerialMessage::SetCharSize(c) => {
                if self.mode == Mode::Stop {
                    self.char_size = c;
                }
                done_none()
            },
            SerialMessage::SetParity(p) => {
                if self.mode == Mode::Stop {
                    self.parity = p;
                }
                done_none()
            },
            SerialMessage::SetStopBits(b) => {
                if self.mode == Mode::Stop {
                    self.stop_bits = b;
                }
                done_none()
            },
            SerialMessage::SetFlowControl(f) => {
                if self.mode == Mode::Stop {
                    self.flow_control = f;
                }
                done_none()
            },
            SerialMessage::Connect => {
                if self.mode == Mode::Stop {
                    if self.port_open {
                        done_two(
                            SerialMessage::Connected(false),
                            SerialMessage::Error(SerialInterfaceError::PortAlreadyOpen),
                        )
                    } else if self.path.is_none() {
                        done_two(
                            SerialMessage::Connected(false),
                            SerialMessage::Error(SerialInterfaceError::PathMissing),
                        )
                    } else {
                        Intake::NeedOpen
                    }
                } else {
                    done_none()
                }
            },
            SerialMessage::Disconnect => {
                if self.mode == Mode::Stop {
                    match self.close() {
                        Ok(_) => done_one(SerialMessage::Connected(false)),
                        Err(e) => done_two(
                            SerialMessage::Connected(false),
                            SerialMessage::Error(e),
                        ),
                    }
                } else {
                    done_none()
                }
            },
            SerialMessage::Send(data) => {
                if self.mode == Mode::Stop {
                    done_none()
                } else {
                    Intake::Escalate(SerialMessage::Send(data))
                }
            },
            _ => done_none(),
        }
    }

    /// Records the outcome of the operating-system open that a `NeedOpen`
    /// decision asked for, and the events to emit for it.
    pub fn finish_connect(&mut self, opened: Result<(), SerialInterfaceError>) -> (r: Vec<
        SerialMessage,
    >)
        ensures
            opened is Ok ==> {
                &&& *final(self) == (SerialInterface { port_open: true, ..*old(self) })
                &&& r@ == seq![SerialMessage::Connected(true)]
            },
            opened matches Err(e) ==> {
                &&& *final(self) == *old(self)
                &&& r@ == seq![SerialMessage::Connected(false), SerialMessage::Error(e)]
            },
    {
        let mut evs: Vec<SerialMessage> = Vec::new();
        match opened {
            Ok(_) => {
                self.port_open = true;
                evs.push(SerialMessage::Connected(true));
                proof {
                    assert(evs@ =~= seq![SerialMessage::Connected(true)]);
                }
            },
            Err(e) => {
                evs.push(SerialMessage::Connected(false));
                evs.push(SerialMessage::Error(e));
                proof {
                    assert(evs@ =~= seq![
                        SerialMessage::Connected(false),
                        SerialMessage::Error(evs@[1]->Error_0),
                    ]);
                }
            },
        }
        evs
    }

    /// Turns the outcome of port enumeration, which a `NeedPortList`
    /// decision asked for, into the event to emit; a failed enumeration is
    /// reported as `CannotListPorts`.
    pub fn supply_port_list(ports: Result<Vec<String>, SerialInterfaceError>) -> (r: Result<
        Vec<SerialMessage>,
        SerialInterfaceError,
    >)
        ensures
            ports matches Ok(l) ==> {
                &&& r matches Ok(evs)
                &&& evs@ == seq![SerialMessage::AvailablePorts(l)]
            },
            ports is Err ==> r == Err::<Vec<SerialMessage>, SerialInterfaceError>(
                SerialInterfaceError::CannotListPorts,
            ),
    {
        match ports {
            Ok(l) => {
                let mut evs: Vec<SerialMessage> = Vec::new();
                evs.push(SerialMessage::AvailablePorts(l));
                proof {
                    assert(evs@ =~= seq![SerialMessage::AvailablePorts(evs@[0]->AvailablePorts_0)]);
                }
                Ok(evs)
            },
            Err(_) => Err(SerialInterfaceError::CannotListPorts),
        }
    }
}

} // verus!
