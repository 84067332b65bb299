//! Modbus CRC-16 and the CRC-window frame scanner.
//!
//! The checksum folds each byte into a 16-bit register seeded with `0xFFFF`,
//! shifting eight times per byte and conditionally mixing in the reflected
//! polynomial `0xA001`; the final value is byte-swapped so that the high
//! byte travels first on the wire.  The scanner searches an accumulated
//! buffer for the smallest window that carries a valid checksum, which is
//! how stream mode recovers frames from a noisy capture.

use vstd::prelude::*;
use vstd::slice::{slice_subrange, slice_to_vec};

use crate::interface::SerialInterface;

verus! {

/// One shift round of the checksum register.
pub open spec fn crc_shift(c: u16) -> u16 {
    if c & 1 != 0 {
        (c >> 1) ^ 0xA001
    } else {
        c >> 1
    }
}

/// The checksum register after `n` shift rounds.
pub open spec fn crc_rounds(c: u16, n: nat) -> u16
    decreases n,
{
    if n == 0 {
        c
    } else {
        crc_shift(crc_rounds(c, (n - 1) as nat))
    }
}

/// The checksum register after folding in one byte.
pub open spec fn crc_accum(c: u16, b: u8) -> u16 {
    crc_rounds(c ^ (b as u16), 8)
}

/// The checksum register after folding a whole byte sequence, starting
/// from the seed `0xFFFF`.
pub open spec fn crc_fold(data: Seq<u8>) -> u16
    decreases data.len(),
{
    if data.len() == 0 {
        0xFFFF
    } else {
        crc_accum(crc_fold(data.drop_last()), data.last())
    }
}

/// The Modbus CRC-16 of a byte sequence, byte-swapped for the wire: the
/// high byte of the result is the byte transmitted first.
pub open spec fn crc16_spec(data: Seq<u8>) -> u16 {
    let c = crc_fold(data);
    (c << 8) | (c >> 8)
}

/// The first of the two checksum bytes a frame carries.
pub open spec fn crc_high_byte(c: u16) -> u8 {
    ((c & 0xff00) >> 8) as u8
}

/// The second of the two checksum bytes a frame carries.
pub open spec fn crc_low_byte(c: u16) -> u8 {
    (c & 0x00ff) as u8
}

/// Whether a byte sequence is a valid frame: at least five bytes, and the
/// last two equal to the checksum of the rest, high byte first.
pub open spec fn frame_crc_ok(frame: Seq<u8>) -> bool {
    &&& frame.len() > 4
    &&& frame[frame.len() - 2] == crc_high_byte(crc16_spec(frame.subrange(0, frame.len() - 2)))
    &&& frame[frame.len() - 1] == crc_low_byte(crc16_spec(frame.subrange(0, frame.len() - 2)))
}

/// Whether some window of width `w` inside `buf` is a valid frame.
pub open spec fn has_valid_window(buf: Seq<u8>, w: int) -> bool {
    exists|i: int| 0 <= i && i + w <= buf.len() && frame_crc_ok(#[trigger] buf.subrange(i, i + w))
}

/// Whether any window of `buf` at all is a valid frame.
pub open spec fn any_valid_window(buf: Seq<u8>) -> bool {
    exists|w: int| 5 <= w <= buf.len() && #[trigger] has_valid_window(buf, w)
}

/// Whether `f` occurs in `buf` as a contiguous window.
pub open spec fn is_window_of(buf: Seq<u8>, f: Seq<u8>) -> bool {
    exists|i: int|
        0 <= i && i + f.len() <= buf.len() && f == #[trigger] buf.subrange(i, i + f.len())
}

impl SerialInterface {
    /// The Modbus CRC-16 of `data`, byte-swapped so that the high byte is
    /// transmitted first.
    pub fn crc16(data: &[u8]) -> (r: u16)
        ensures
            r == crc16_spec(data@),
    {
        let mut crc: u16 = 0xFFFF;
        let mut idx: usize = 0;
        while idx < data.len()
            invariant
                idx <= data@.len(),
                crc == crc_fold(data@.subrange(0, idx as int)),
            decreases data@.len() - idx,
        {
            crc = crc ^ (data[idx] as u16);
            let ghost entry = crc;
            let mut j: usize = 0;
            while j < 8
                invariant
                    j <= 8,
                    crc == crc_rounds(entry, j as nat),
                decreases 8 - j,
            {
                if crc & 1 != 0 {
                    crc = (crc >> 1) ^ 0xA001;
                } else {
                    crc = crc >> 1;
                }
                j = j + 1;
            }
            proof {
                assert(data@.subrange(0, idx + 1).drop_last() =~= data@.subrange(0, idx as int));
                assert(data@.subrange(0, idx + 1).last() == data@[idx as int]);
            }
            idx = idx + 1;
        }
        proof {
            assert(data@.subrange(0, data@.len() as int) =~= data@);
        }
        (crc << 8) | (crc >> 8)
    }

    /// Whether `frame` ends in the correct checksum of its first bytes.
    pub fn check_crc(frame: &[u8]) -> (r: bool)
        ensures
            r == frame_crc_ok(frame@),
    {
        if frame.len() > 4 {
            let prefix = slice_subrange(frame, 0, frame.len() - 2);
            let crc = Self::crc16(prefix);
            proof {
                assert((crc & 0xff00) >> 8 < 256) by (bit_vector);
                assert(crc & 0x00ff < 256) by (bit_vector);
            }
            let hi = ((crc & 0xff00) >> 8) as u8;
            let lo = (crc & 0x00ff) as u8;
            hi == frame[frame.len() - 2] && lo == frame[frame.len() - 1]
        } else {
            false
        }
    }

    /// Searches `buffer` for the smallest window that is a valid frame.
    ///
    /// The scan widens the window from five bytes up to the whole buffer,
    /// sweeping each width from both ends, so that a frame surrounded by
    /// noise is still recovered.  When no window at all carries a valid
    /// checksum the scan reports nothing.
    pub fn try_decode_buffer(buffer: &[u8]) -> (r: Option<Vec<u8>>)
        ensures
            match r {
                Some(f) => {
                    &&& frame_crc_ok(f@)
                    &&& 5 <= f@.len() <= buffer@.len()
                    &&& is_window_of(buffer@, f@)
                    &&& any_valid_window(buffer@)
                    &&& forall|w: int| 5 <= w < f@.len() ==> !has_valid_window(buffer@, w)
                },
                None => !any_valid_window(buffer@),
            },
    {
        let len = buffer.len();
        let mut window_size: usize = 5;
        while window_size <= len
            invariant
                5 <= window_size,
                len == buffer@.len(),
                forall|w: int| 5 <= w < window_size ==> !has_valid_window(buffer@, w),
            decreases len - window_size,
        {
            let bound = len - window_size;
            let mut i: usize = 0;
            while i <= bound
                invariant
                    5 <= window_size <= len,
                    bound == len - window_size,
                    len == buffer@.len(),
                    forall|w: int| 5 <= w < window_size ==> !has_valid_window(buffer@, w),
                    forall|o: int|
                        0 <= o < i ==> !frame_crc_ok(
                            #[trigger] buffer@.subrange(o, o + window_size),
                        ),
                    i > 0 ==> window_size < len,
                decreases bound + 1 - i,
            {
                let fwd = slice_subrange(buffer, i, i + window_size);
                if Self::check_crc(fwd) {
                    let f = slice_to_vec(fwd);
                    proof {
                        assert(f@ == buffer@.subrange(i as int, i + window_size));
                        assert(f@.len() == window_size);
                        assert(f@ == buffer@.subrange(i as int, i + f@.len()));
                        assert(has_valid_window(buffer@, window_size as int));
                        assert(any_valid_window(buffer@));
                    }
                    return Some(f);
                }
                if len == window_size {
                    proof {
                        assert(!has_valid_window(buffer@, len as int)) by {
                            if has_valid_window(buffer@, len as int) {
                                let ii = choose|ii: int|
                                    0 <= ii && ii + len <= buffer@.len() && frame_crc_ok(
                                        #[trigger] buffer@.subrange(ii, ii + len as int),
                                    );
                                assert(ii == 0);
                                assert(!frame_crc_ok(buffer@.subrange(0, len as int)));
                            }
                        }
                        assert(!any_valid_window(buffer@)) by {
                            if any_valid_window(buffer@) {
                                let w = choose|w: int|
                                    5 <= w <= buffer@.len() && #[trigger] has_valid_window(
                                        buffer@,
                                        w,
                                    );
                                assert(!has_valid_window(buffer@, w));
                            }
                        }
                    }
                    return None;
                }
                let j = len - i - window_size;
                let rev = slice_subrange(buffer, j, j + window_size);
                if Self::check_crc(rev) {
                    let f = slice_to_vec(rev);
                    proof {
                        assert(f@ == buffer@.subrange(j as int, j + window_size));
                        assert(f@.len() == window_size);
                        assert(f@ == buffer@.subrange(j as int, j + f@.len()));
                        assert(has_valid_window(buffer@, window_size as int));
                        assert(any_valid_window(buffer@));
                    }
                    return Some(f);
                }
                i = i + 1;
            }
            proof {
                assert(!has_valid_window(buffer@, window_size as int)) by {
                    if has_valid_window(buffer@, window_size as int) {
                        let ii = choose|ii: int|
                            0 <= ii && ii + window_size <= buffer@.len() && frame_crc_ok(
                                #[trigger] buffer@.subrange(ii, ii + window_size as int),
                            );
                        assert(!frame_crc_ok(buffer@.subrange(ii, ii + window_size as int)));
                    }
                }
            }
            assert(window_size < len);
            window_size = window_size + 1;
        }
        proof {
            assert(!any_valid_window(buffer@)) by {
                if any_valid_window(buffer@) {
                    let w = choose|w: int|
                        5 <= w <= buffer@.len() && #[trigger] has_valid_window(buffer@, w);
                    assert(!has_valid_window(buffer@, w));
                }
            }
        }
        None
    }
}

} // verus!
