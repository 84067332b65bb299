//! The framing engine, one poll at a time.
//!
//! The runtime loop reads at most one byte per iteration with a very short
//! timeout and reports what happened — a byte, or nothing together with
//! which time gates have expired — to the step functions here, which own
//! the buffer discipline and every decision: when a frame is complete, when
//! the intake may be polled, and when a timed-out read yields a partial
//! frame or `NoResponse`.

use vstd::prelude::*;

use crate::crc::{any_valid_window, frame_crc_ok, has_valid_window, is_window_of};
use crate::interface::SerialInterface;
use crate::messages::{SerialInterfaceError, Status};

verus! {

/// What the gated read does after one poll of the port.
#[derive(Debug, Clone, Copy, PartialEq, Eq, Structural)]
pub enum ReadStep {
    /// Nothing decided; poll the port again.
    Pending,
    /// The line is idle and nothing was received yet: poll the command
    /// intake once, then check the overall timeout.
    PollIntake,
    /// The frame in the buffer is complete: emit `Receive(buffer)` and
    /// finish the read.
    Frame,
}

/// What the overall-timeout check does after the poll step.
#[derive(Debug, Clone, Copy, PartialEq, Eq, Structural)]
pub enum TimeoutStep {
    /// The deadline has not passed; keep reading.
    Pending,
    /// The deadline passed with bytes received: emit `Receive(buffer)` and
    /// finish the read.
    Frame,
    /// The deadline passed with nothing received: emit `NoResponse` and
    /// finish the read.
    NoResponse,
}

/// What the stream read does after one poll of the port.
#[derive(Debug, PartialEq)]
pub enum StreamStep {
    /// No valid frame yet and no timeout; poll the port again.
    Pending,
    /// The scanner found a CRC-valid window: hand it to the caller.
    Frame(Vec<u8>),
    /// The deadline passed without a valid frame.
    NoResponse,
}

/// The gated read as a transition function over one poll outcome: the
/// state and buffer after the poll, and what to do next.
pub open spec fn gated_read_transition(
    s: SerialInterface,
    buffer: Seq<u8>,
    size: Option<usize>,
    has_silence: bool,
    byte: Option<u8>,
    silence_expired: bool,
) -> (SerialInterface, Seq<u8>, ReadStep) {
    match byte {
        Some(b) => {
            let buf2 = buffer.push(b);
            match size {
                Some(n) => if buf2.len() == n {
                    ((SerialInterface { status: Status::Idle, ..s }), buf2, ReadStep::Frame)
                } else {
                    ((SerialInterface { status: Status::Receiving, ..s }), buf2, ReadStep::Pending)
                },
                None => (
                    (SerialInterface { status: Status::Receiving, ..s }),
                    buf2,
                    ReadStep::Pending,
                ),
            }
        },
        None => if has_silence {
            if buffer.len() == 0 {
                (s, buffer, ReadStep::PollIntake)
            } else if silence_expired {
                ((SerialInterface { status: Status::Idle, ..s }), buffer, ReadStep::Frame)
            } else {
                (s, buffer, ReadStep::Pending)
            }
        } else {
            (s, buffer, ReadStep::Pending)
        },
    }
}

/// The overall-timeout check as a transition function: the state after the
/// check and what to do.
pub open spec fn timeout_transition(
    s: SerialInterface,
    buffer: Seq<u8>,
    has_timeout: bool,
    timeout_expired: bool,
) -> (SerialInterface, TimeoutStep) {
    if has_timeout && timeout_expired {
        if buffer.len() > 0 {
            ((SerialInterface { status: Status::Idle, ..s }), TimeoutStep::Frame)
        } else {
            ((SerialInterface { status: Status::Idle, ..s }), TimeoutStep::NoResponse)
        }
    } else {
        (s, TimeoutStep::Pending)
    }
}

impl SerialInterface {
    /// Checks that a gated read has at least one gate: a target size, the
    /// silence boundary, or an overall timeout.
    pub fn check_read_args(size: Option<usize>, has_silence: bool, has_timeout: bool) -> (r:
        Result<(), SerialInterfaceError>)
        ensures
            size is Some || has_silence || has_timeout ==> r == Ok::<
                (),
                SerialInterfaceError,
            >(()),
            !(size is Some || has_silence || has_timeout) ==> r == Err::<
                (),
                SerialInterfaceError,
            >(SerialInterfaceError::WrongReadArguments),
    {
        if size.is_some() || has_silence || has_timeout {
            Ok(())
        } else {
            Err(SerialInterfaceError::WrongReadArguments)
        }
    }

    /// One poll step of the gated read.
    ///
    /// A received byte goes into the buffer and completes the frame when
    /// the size gate is met.  With the silence gate set, an idle line
    /// either makes room for one intake poll (nothing received yet) or
    /// completes the frame (silence after data).
    pub fn read_byte_step(
        &mut self,
        buffer: &mut Vec<u8>,
        size: Option<usize>,
        has_silence: bool,
        byte: Option<u8>,
        silence_expired: bool,
    ) -> (r: ReadStep)
        ensures
            ({
                let (s2, buf2, step) = gated_read_transition(
                    *old(self),
                    old(buffer)@,
                    size,
                    has_silence,
                    byte,
                    silence_expired,
                );
                &&& *final(self) == s2
                &&& final(buffer)@ == buf2
                &&& r == step
            }),
    {
        match byte {
            Some(b) => {
                self.status = Status::Receiving;
                buffer.push(b);
                if let Some(n) = size {
                    if buffer.len() == n {
                        self.status = Status::Idle;
                        return ReadStep::Frame;
                    }
                }
                ReadStep::Pending
            },
            None => {
                if has_silence {
                    if buffer.len() == 0 {
                        ReadStep::PollIntake
                    } else if silence_expired {
                        self.status = Status::Idle;
                        ReadStep::Frame
                    } else {
                        ReadStep::Pending
                    }
                } else {
                    ReadStep::Pending
                }
            },
        }
    }

    /// The overall-timeout check that ends every iteration of the gated
    /// read: once the deadline passes, whatever was received is the frame,
    /// and an empty buffer means the peer never answered.
    pub fn read_timeout_step(
        &mut self,
        buffer: &Vec<u8>,
        has_timeout: bool,
        timeout_expired: bool,
    ) -> (r: TimeoutStep)
        ensures
            ({
                let (s2, step) = timeout_transition(
                    *old(self),
                    buffer@,
                    has_timeout,
                    timeout_expired,
                );
                &&& *final(self) == s2
                &&& r == step
            }),
    {
        if has_timeout && timeout_expired {
            self.status = Status::Idle;
            if buffer.len() > 0 {
                TimeoutStep::Frame
            } else {
                TimeoutStep::NoResponse
            }
        } else {
            TimeoutStep::Pending
        }
    }

    /// One poll step of the stream read used by MasterStream.
    ///
    /// Every received byte is appended and the whole buffer is screened
    /// for the smallest CRC-valid window; the first match is the frame.
    /// The deadline is checked after the screen, so a frame that completes
    /// on the last byte still wins.
    pub fn read_stream_step(
        &mut self,
        buffer: &mut Vec<u8>,
        byte: Option<u8>,
        timeout_expired: bool,
    ) -> (r: StreamStep)
        ensures
            byte matches Some(b) ==> ({
                let buf2 = old(buffer)@.push(b);
                &&& final(buffer)@ == buf2
                &&& *final(self) == (SerialInterface {
                    status: Status::Receiving,
                    ..*old(self)
                })
                &&& (any_valid_window(buf2) ==> (r matches StreamStep::Frame(f) && {
                    &&& frame_crc_ok(f@)
                    &&& 5 <= f@.len() <= buf2.len()
                    &&& is_window_of(buf2, f@)
                    &&& forall|w: int| 5 <= w < f@.len() ==> !has_valid_window(buf2, w)
                }))
                &&& (!any_valid_window(buf2) ==> r == (if timeout_expired {
                    StreamStep::NoResponse
                } else {
                    StreamStep::Pending
                }))
            }),
            byte is None ==> {
                &&& final(buffer)@ == old(buffer)@
                &&& *final(self) == *old(self)
                &&& r == (if timeout_expired {
                    StreamStep::NoResponse
                } else {
                    StreamStep::Pending
                })
            },
    {
        match byte {
            Some(b) => {
                self.status = Status::Receiving;
                buffer.push(b);
                match Self::try_decode_buffer(buffer.as_slice()) {
                    Some(f) => StreamStep::Frame(f),
                    None => if timeout_expired {
                        StreamStep::NoResponse
                    } else {
                        StreamStep::Pending
                    },
                }
            },
            None => {
                if timeout_expired {
                    StreamStep::NoResponse
                } else {
                    StreamStep::Pending
                }
            },
        }
    }
}

} // verus!
