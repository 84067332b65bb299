//! Laws of the broker, stated over the spec-level transitions.
//!
//! Each proof function here pins down a guarantee that spans more than one
//! contract: that settings only move while the interface stands in `Stop`,
//! that the checksum matches its reference value, that status queries and
//! the liveness probe are free of side effects, and that a master request
//! against an echoing peer comes back as exactly the frame that was sent.

use vstd::prelude::*;

use crate::crc::{crc16_spec, crc_accum, crc_fold, frame_crc_ok};
use crate::engine::{gated_read_transition, timeout_transition, ReadStep, TimeoutStep};
use crate::intake::{intake_transition, IntakeModel};
use crate::interface::SerialInterface;
use crate::messages::{
    BaudRate, CharSize, FlowControl, Mode, Parity, SerialMessage, Status, StopBits,
};

verus! {

/// The line configuration: everything that may only change while the mode
/// is `Stop`.
pub open spec fn line_config(s: SerialInterface) -> (
    Option<String>,
    BaudRate,
    CharSize,
    Parity,
    StopBits,
    FlowControl,
    Option<u8>,
    Mode,
) {
    (s.path, s.baud_rate, s.char_size, s.parity, s.stop_bits, s.flow_control, s.modbus_id, s.mode)
}

/// Law: the intake mutates the line configuration only while the mode is
/// `Stop`, and there it honours each settings command exactly; the mode
/// itself is never changed by the intake, only escalated.
pub proof fn lemma_settings_guarded(s: SerialInterface, msg: SerialMessage)
    ensures
        s.mode != Mode::Stop ==> line_config(intake_transition(s, msg).0) == line_config(s),
        s.mode == Mode::Stop ==> (msg matches SerialMessage::SetPort(p) ==> intake_transition(
            s,
            msg,
        ).0 == (SerialInterface { path: Some(p), ..s })),
        s.mode == Mode::Stop ==> (msg matches SerialMessage::SetBauds(b) ==> intake_transition(
            s,
            msg,
        ).0 == (SerialInterface { baud_rate: b, ..s })),
        s.mode == Mode::Stop ==> (msg matches SerialMessage::SetCharSize(c) ==> intake_transition(
            s,
            msg,
        ).0 == (SerialInterface { char_size: c, ..s })),
        s.mode == Mode::Stop ==> (msg matches SerialMessage::SetParity(p) ==> intake_transition(
            s,
            msg,
        ).0 == (SerialInterface { parity: p, ..s })),
        s.mode == Mode::Stop ==> (msg matches SerialMessage::SetStopBits(b) ==> intake_transition(
            s,
            msg,
        ).0 == (SerialInterface { stop_bits: b, ..s })),
        s.mode == Mode::Stop ==> (msg matches SerialMessage::SetFlowControl(f) ==> intake_transition(
            s,
            msg,
        ).0 == (SerialInterface { flow_control: f, ..s })),
        !(msg matches SerialMessage::SetPort(_) || msg matches SerialMessage::SetBauds(_)
            || msg matches SerialMessage::SetCharSize(_) || msg matches SerialMessage::SetParity(_)
            || msg matches SerialMessage::SetStopBits(_) || msg matches SerialMessage::SetFlowControl(
            _,
        )) ==> line_config(intake_transition(s, msg).0) == line_config(s),
        intake_transition(s, msg).0.mode == s.mode,
{
}

/// Law: the checksum of the reference request, byte-swapped for the wire,
/// is the reference value.
pub proof fn lemma_crc16_reference_value()
    ensures
        crc16_spec(seq![0x01u8, 0x03u8, 0x00u8, 0x00u8, 0x00u8, 0x01u8]) == 0x840A,
{
    let s1 = seq![0x01u8];
    let s2 = seq![0x01u8, 0x03u8];
    let s3 = seq![0x01u8, 0x03u8, 0x00u8];
    let s4 = seq![0x01u8, 0x03u8, 0x00u8, 0x00u8];
    let s5 = seq![0x01u8, 0x03u8, 0x00u8, 0x00u8, 0x00u8];
    let s6 = seq![0x01u8, 0x03u8, 0x00u8, 0x00u8, 0x00u8, 0x01u8];
    assert(s1.drop_last() =~= Seq::<u8>::empty());
    assert(s2.drop_last() =~= s1);
    assert(s3.drop_last() =~= s2);
    assert(s4.drop_last() =~= s3);
    assert(s5.drop_last() =~= s4);
    assert(s6.drop_last() =~= s5);
    assert(crc_accum(0xFFFF, 0x01) == 0x807E) by (bit_vector);
    assert(crc_accum(0x807E, 0x03) == 0x2140) by (bit_vector);
    assert(crc_accum(0x2140, 0x00) == 0xF020) by (bit_vector);
    assert(crc_accum(0xF020, 0x00) == 0xD8F1) by (bit_vector);
    assert(crc_accum(0xD8F1, 0x00) == 0x8419) by (bit_vector);
    assert(crc_accum(0x8419, 0x01) == 0x0A84) by (bit_vector);
    assert(crc_fold(Seq::<u8>::empty()) == 0xFFFF);
    assert(crc_fold(s1) == 0x807E);
    assert(crc_fold(s2) == 0x2140);
    assert(crc_fold(s3) == 0xF020);
    assert(crc_fold(s4) == 0xD8F1);
    assert(crc_fold(s5) == 0x8419);
    assert(crc_fold(s6) == 0x0A84);
    assert(0x0A84u16 << 8 | 0x0A84u16 >> 8 == 0x840A) by (bit_vector);
}

/// Law: a status query answers with the current status and changes
/// nothing, so repeating it gives the same answer both times.
pub proof fn lemma_get_status_idempotent(s: SerialInterface)
    ensures
        ({
            let (s1, out1) = intake_transition(s, SerialMessage::GetStatus);
            let (s2, out2) = intake_transition(s1, SerialMessage::GetStatus);
            &&& s1 == s
            &&& s2 == s
            &&& out1 == IntakeModel::Done(seq![SerialMessage::Status(s.status)])
            &&& out2 == out1
        }),
{
}

/// Law: the liveness probe answers `Pong` and changes nothing, in every
/// mode.
pub proof fn lemma_ping_pong(s: SerialInterface)
    ensures
        intake_transition(s, SerialMessage::Ping) == (
            s,
            IntakeModel::Done(seq![SerialMessage::Pong]),
        ),
{
}

/// Law: no sequence shorter than five bytes is ever a valid frame.
pub proof fn lemma_short_frames_rejected(f: Seq<u8>)
    ensures
        f.len() < 5 ==> !frame_crc_ok(f),
{
}

/// Law: when the overall deadline of a read passes, an empty buffer means
/// the peer never answered, and anything received is reported as the
/// frame.
pub proof fn lemma_timeout_outcome(s: SerialInterface, buffer: Seq<u8>)
    ensures
        timeout_transition(s, buffer, true, true).1 == (if buffer.len() == 0 {
            TimeoutStep::NoResponse
        } else {
            TimeoutStep::Frame
        }),
        timeout_transition(s, buffer, true, false).1 == TimeoutStep::Pending,
{
}

/// The gated read fed one byte per poll, with the silence gate set and no
/// size gate: the state, the buffer and the step directives it went
/// through.
pub open spec fn feed_read_events(s: SerialInterface, buffer: Seq<u8>, bytes: Seq<u8>) -> (
    SerialInterface,
    Seq<u8>,
    Seq<ReadStep>,
)
    decreases bytes.len(),
{
    if bytes.len() == 0 {
        (s, buffer, seq![])
    } else {
        let (s2, buf2, st) = gated_read_transition(s, buffer, None, true, Some(bytes.first()), false);
        let (s3, buf3, steps) = feed_read_events(s2, buf2, bytes.drop_first());
        (s3, buf3, seq![st] + steps)
    }
}

/// Feeding bytes into the gated read appends exactly those bytes, keeps
/// every step pending, and touches nothing but the status.
pub proof fn lemma_feed_read_events(s: SerialInterface, buffer: Seq<u8>, bytes: Seq<u8>)
    ensures
        ({
            let (s3, buf3, steps) = feed_read_events(s, buffer, bytes);
            &&& buf3 == buffer + bytes
            &&& steps.len() == bytes.len()
            &&& forall|i: int| 0 <= i < steps.len() ==> steps[i] == ReadStep::Pending
            &&& s3 == (if bytes.len() == 0 {
                s
            } else {
                SerialInterface { status: Status::Receiving, ..s }
            })
        }),
    decreases bytes.len(),
{
    if bytes.len() == 0 {
        assert(buffer + bytes =~= buffer);
    } else {
        let (s2, buf2, st) = gated_read_transition(s, buffer, None, true, Some(bytes.first()), false);
        lemma_feed_read_events(s2, buf2, bytes.drop_first());
        assert(buffer.push(bytes.first()) + bytes.drop_first() =~= buffer + bytes);
        let (s3, buf3, steps) = feed_read_events(s2, buf2, bytes.drop_first());
        assert(feed_read_events(s, buffer, bytes).2 == seq![st] + steps);
        assert(forall|i: int|
            0 <= i < (seq![st] + steps).len() ==> (seq![st] + steps)[i] == ReadStep::Pending);
    }
}

/// Law: a master request against a loopback peer that echoes it comes
/// back round trip.  The response wait stays pending while the echoed
/// bytes arrive — so nothing is emitted in between — and the silence that
/// follows completes the frame with exactly the bytes that were sent,
/// which the engine then emits as `Receive`.  Together with the write
/// acknowledgement this makes the observable order `DataSent(bytes)` then
/// `Receive(bytes)`, with no interleaved events.
pub proof fn lemma_master_loopback_round_trip(s: SerialInterface, bytes: Seq<u8>)
    requires
        bytes.len() > 0,
    ensures
        ({
            let (s2, buf2, steps) = feed_read_events(s, Seq::<u8>::empty(), bytes);
            &&& forall|i: int| 0 <= i < steps.len() ==> steps[i] == ReadStep::Pending
            &&& buf2 == bytes
            &&& ({
                let (s3, buf3, st3) = gated_read_transition(s2, buf2, None, true, None, true);
                &&& st3 == ReadStep::Frame
                &&& buf3 == bytes
                &&& s3.status == Status::Idle
            })
        }),
{
    lemma_feed_read_events(s, Seq::<u8>::empty(), bytes);
    assert(Seq::<u8>::empty() + bytes =~= bytes);
}

} // verus!
