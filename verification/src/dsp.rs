//! The data-path component: per-device configuration decisions.
//!
//! A [`Dsp`] value stands for one open, version-checked data-path node.
//! Several of its settings (channel count, sample format, rate) share one
//! wire operation for both reading and writing: sending the reserved zero
//! sentinel queries the current value, sending anything else asks the
//! kernel to apply it, and the kernel echoes back what it actually applied.
//! The decision rules of that duality live here, verified: an explicit set
//! of the sentinel is rejected before any kernel round-trip, and an echo
//! that differs from the request is reported as an acknowledgment
//! mismatch.  The I/O layer only carries values between these functions
//! and the device node.

use vstd::prelude::*;

use crate::sys::AudioFormats;
use crate::{spec_ver_major, OssError, SUPPORTED_MAJOR};

verus! {

/// An open data-path node that has passed the version fence.
///
/// Holding a value of this type means the node reported major version
/// [`SUPPORTED_MAJOR`] when it was opened.
pub struct Dsp {}

/// The value sent on the wire for an explicit set of `value`: the zero
/// sentinel is reserved for queries and never sent as a set.
pub open spec fn spec_set_request(value: int) -> Result<int, OssError> {
    if value == 0 {
        Err(OssError::InvalidArgument)
    } else {
        Ok(value)
    }
}

/// The verdict on the kernel's echo after a set: anything but the
/// requested value itself signals partial or rejected application.
pub open spec fn spec_set_ack(requested: int, echoed: int) -> Result<(), OssError> {
    if echoed == requested {
        Ok(())
    } else {
        Err(OssError::AckMismatch)
    }
}

/// The outcome of one whole set operation, given the value requested and
/// the value a kernel would echo: the sentinel fails locally, a faithful
/// echo succeeds, any other echo is an acknowledgment mismatch.
pub open spec fn spec_set_outcome(value: int, echoed: int) -> Result<(), OssError> {
    match spec_set_request(value) {
        Err(e) => Err(e),
        Ok(v) => spec_set_ack(v, echoed),
    }
}

impl Dsp {
    /// The version fence at open time, as for the enumeration node: only a
    /// node reporting the supported major version yields a handle.
    pub fn open_check(ver: i32) -> (r: Result<Dsp, OssError>)
        ensures
            r is Ok <==> spec_ver_major(ver as u32) == SUPPORTED_MAJOR,
            r matches Err(e) ==> e == OssError::VersionMismatch,
    {
        let (maj, _min) = crate::decode_version(ver as u32);
        if maj != SUPPORTED_MAJOR {
            return Err(OssError::VersionMismatch);
        }
        Ok(Dsp {  })
    }

    /// Decodes a queried channel count.  The kernel answering the zero
    /// sentinel itself would be meaningless and fails to decode.
    pub fn channels_decode(&self, v: i32) -> (r: Result<u32, OssError>)
        requires
            v >= 0,
        ensures
            v == 0 ==> r == Err::<u32, OssError>(OssError::DecodeFailed),
            v > 0 ==> (r matches Ok(c) && c as int == v as int),
    {
        if v == 0 {
            return Err(OssError::DecodeFailed);
        }
        Ok(crate::count_to_u32(v))
    }

    /// Prepares an explicit channel-count set: rejects the reserved zero
    /// sentinel locally, before any kernel round-trip, and otherwise gives
    /// the wire value to send.
    pub fn channels_set_request(&self, count: u32) -> (r: Result<i32, OssError>)
        requires
            count <= 0x7fff_ffff,
        ensures
            count == 0 ==> r == Err::<i32, OssError>(OssError::InvalidArgument),
            count != 0 ==> (r matches Ok(v) && v as int == count as int),
            r is Ok <==> spec_set_request(count as int) is Ok,
    {
        if count == 0 {
            return Err(OssError::InvalidArgument);
        }
        Ok(crate::index_to_i32(count))
    }

    /// Judges the kernel's echo after a set-style call: the operation
    /// succeeded only if the kernel echoed exactly the requested value.
    pub fn set_ack_check(&self, requested: i32, echoed: i32) -> (r: Result<(), OssError>)
        ensures
            r == spec_set_ack(requested as int, echoed as int),
    {
        if echoed != requested {
            return Err(OssError::AckMismatch);
        }
        Ok(())
    }

    /// Prepares an explicit sample-format set; the all-zero format word is
    /// the query sentinel and is rejected locally.
    pub fn format_set_request(&self, format: AudioFormats) -> (r: Result<i32, OssError>)
        ensures
            format.bits == 0 ==> r == Err::<i32, OssError>(OssError::InvalidArgument),
            format.bits != 0 ==> r == Ok::<i32, OssError>(format.bits),
            r is Ok <==> spec_set_request(format.bits as int) is Ok,
    {
        let bits = format.bits();
        if bits == 0 {
            return Err(OssError::InvalidArgument);
        }
        Ok(bits)
    }

    /// Prepares an explicit sample-rate set; zero is the query sentinel
    /// and is rejected locally.
    pub fn speed_set_request(&self, speed: u32) -> (r: Result<i32, OssError>)
        requires
            speed <= 0x7fff_ffff,
        ensures
            speed == 0 ==> r == Err::<i32, OssError>(OssError::InvalidArgument),
            speed != 0 ==> (r matches Ok(v) && v as int == speed as int),
            r is Ok <==> spec_set_request(speed as int) is Ok,
    {
        if speed == 0 {
            return Err(OssError::InvalidArgument);
        }
        Ok(crate::index_to_i32(speed))
    }

    /// Decodes a queried sample rate.
    pub fn speed_decode(&self, v: i32) -> (r: u32)
        requires
            v >= 0,
        ensures
            r as int == v as int,
    {
        crate::count_to_u32(v)
    }

    /// Decodes a queried playback volume: the percentage sits in the low
    /// byte of the returned integer.
    pub fn volume_play_decode(&self, v: i32) -> (r: u8)
        ensures
            r as int == (v & 0xff) as int,
            r <= 0xff,
    {
        proof {
            let w = v;
            assert(0 <= (w & 0xffi32) < 256 && ((w & 0xffi32) as u8) as int == (w & 0xffi32) as int)
                by (bit_vector);
        }
        (v & 0xff) as u8
    }
}

/// Zero-sentinel rule: an explicit set of the reserved query value — be it
/// a channel count, a format word or a rate — fails locally with the
/// invalid-argument condition; no wire value is ever produced for it, so
/// the underlying call is never reached, whatever a kernel might echo.
pub proof fn lemma_set_zero_sentinel_rejected(echoed: int)
    ensures
        spec_set_request(0) == Err::<int, OssError>(OssError::InvalidArgument),
        spec_set_outcome(0, echoed) == Err::<(), OssError>(OssError::InvalidArgument),
{
}

/// Idempotence of setting: the outcome of a set is a function of the
/// requested value and the kernel's echo alone, so issuing the same valid,
/// non-zero set twice against a kernel that applies it faithfully succeeds
/// both times, each exchange reporting back exactly the requested value.
pub proof fn lemma_set_idempotent(value: int)
    requires
        value != 0,
    ensures
        spec_set_request(value) == Ok::<int, OssError>(value),
        spec_set_outcome(value, value) == Ok::<(), OssError>(()),
{
}

/// Mismatch detection: when the kernel echoes any value other than the one
/// requested, the set fails with the acknowledgment-mismatch condition,
/// distinct from an operating-system error.
pub proof fn lemma_set_echo_mismatch(value: int, echoed: int)
    requires
        value != 0,
        echoed != value,
    ensures
        spec_set_outcome(value, echoed) == Err::<(), OssError>(OssError::AckMismatch),
{
}

} // verus!
