//! The enumeration component: system-wide discovery through the control
//! node.
//!
//! A [`Mixer`] value stands for an open, version-checked control node.  The
//! I/O layer creates one by handing the version word the node reported to
//! [`Mixer::open_check`]; every kernel-filled record then passes through the
//! decoders here, which turn raw bytes and counters into display-friendly
//! values or fail with [`OssError::DecodeFailed`].

use vstd::prelude::*;

use crate::sys;
use crate::sys::AudioCaps;
use crate::{c_chars_to_string, count_to_u32, decode_version, decoded_text, index_to_i32};
use crate::{spec_ver_major, spec_ver_minor, OssError, SUPPORTED_MAJOR};

verus! {

/// An open enumeration node that has passed the version fence.
///
/// Holding a value of this type means the node reported major version
/// [`SUPPORTED_MAJOR`]; a node that reports any other major version never
/// yields one.
pub struct Mixer {
    pub maj: u32,
    pub min: u32,
}

/// System-wide counts and identification, decoded from [`sys::oss_sysinfo`].
#[derive(Debug, Clone, PartialEq, Eq)]
pub struct SysInfo {
    pub product: String,
    pub version: String,
    pub maj: u32,
    pub min: u32,
    pub num_audios: u32,
    pub num_mixers: u32,
    pub num_cards: u32,
    pub num_audio_engines: u32,
    pub licence: String,
}

/// One audio device, decoded from [`sys::oss_audioinfo`].
#[derive(Debug, Clone, PartialEq, Eq)]
pub struct AudioInfo {
    pub dev: u32,
    pub name: String,
    pub card_number: u32,
    pub mixer_dev: u32,
    pub caps_revision: u32,
    pub caps: AudioCaps,
    pub min_rate: u32,
    pub max_rate: u32,
    pub min_channels: u32,
    pub max_channels: u32,
    pub devnode: String,
}

/// One sound card, decoded from [`sys::oss_card_info`].
#[derive(Debug, Clone, PartialEq, Eq)]
pub struct CardInfo {
    pub shortname: String,
    pub longname: String,
    pub hw_info: String,
}

/// One mixer device, decoded from [`sys::oss_mixerinfo`].
#[derive(Debug, Clone, PartialEq, Eq)]
pub struct MixerInfo {
    pub dev: u32,
    pub name: String,
    pub modify_counter: u32,
    pub card_number: u32,
    pub nrext: u32,
    pub priority: i32,
    pub devnode: String,
}

/// True when a kernel-filled system record can be decoded: its three text
/// fields terminate within their bounds in valid UTF-8 and its counts are
/// non-negative.
pub open spec fn sysinfo_decodable(buf: sys::oss_sysinfo) -> bool {
    &&& decoded_text(buf.product@) is Some
    &&& decoded_text(buf.version@) is Some
    &&& decoded_text(buf.license@) is Some
    &&& buf.numaudios >= 0
    &&& buf.nummixers >= 0
    &&& buf.numcards >= 0
    &&& buf.numaudioengines >= 0
}

impl Mixer {
    /// The version fence at open time: the packed version word the node
    /// reported either carries the supported major version, in which case
    /// the opened component is returned, or the open fails and no handle
    /// exists.
    pub fn open_check(ver: i32) -> (r: Result<Mixer, OssError>)
        ensures
            r is Ok <==> spec_ver_major(ver as u32) == SUPPORTED_MAJOR,
            r matches Ok(m) ==> m.maj == SUPPORTED_MAJOR && m.min == spec_ver_minor(ver as u32),
            r matches Err(e) ==> e == OssError::VersionMismatch,
    {
        let (maj, min) = decode_version(ver as u32);
        if maj != SUPPORTED_MAJOR {
            return Err(OssError::VersionMismatch);
        }
        Ok(Mixer { maj, min })
    }

    /// The (major, minor) protocol version negotiated at open time.
    pub fn version(&self) -> (r: (u32, u32))
        ensures
            r == (self.maj, self.min),
    {
        (self.maj, self.min)
    }

    /// Decodes the system-wide record the kernel filled: text fields become
    /// text, the packed version word splits into halves, and each count
    /// carries over exactly.
    pub fn sysinfo_from(&self, buf: &sys::oss_sysinfo) -> (r: Result<SysInfo, OssError>)
        ensures
            r is Ok <==> sysinfo_decodable(*buf),
            r matches Ok(si) ==> {
                &&& Some(si.product@) == decoded_text(buf.product@)
                &&& Some(si.version@) == decoded_text(buf.version@)
                &&& Some(si.licence@) == decoded_text(buf.license@)
                &&& si.maj == spec_ver_major(buf.versionnum as u32)
                &&& si.min == spec_ver_minor(buf.versionnum as u32)
                &&& si.num_audios as int == buf.numaudios as int
                &&& si.num_mixers as int == buf.nummixers as int
                &&& si.num_cards as int == buf.numcards as int
                &&& si.num_audio_engines as int == buf.numaudioengines as int
            },
            r matches Err(e) ==> e == OssError::DecodeFailed,
    {
        let product = match c_chars_to_string(buf.product.as_slice()) {
            Some(s) => s,
            None => {
                return Err(OssError::DecodeFailed);
            },
        };
        let version = match c_chars_to_string(buf.version.as_slice()) {
            Some(s) => s,
            None => {
                return Err(OssError::DecodeFailed);
            },
        };
        let licence = match c_chars_to_string(buf.license.as_slice()) {
            Some(s) => s,
            None => {
                return Err(OssError::DecodeFailed);
            },
        };
        if buf.numaudios < 0 || buf.nummixers < 0 || buf.numcards < 0 || buf.numaudioengines < 0 {
            return Err(OssError::DecodeFailed);
        }
        let (maj, min) = decode_version(buf.versionnum as u32);
        Ok(
            SysInfo {
                product,
                version,
                maj,
                min,
                num_audios: count_to_u32(buf.numaudios),
                num_mixers: count_to_u32(buf.nummixers),
                num_cards: count_to_u32(buf.numcards),
                num_audio_engines: count_to_u32(buf.numaudioengines),
                licence,
            },
        )
    }

    /// Builds the lookup request for audio device `index`: the selector
    /// field holds the index and every other field is zero, as the kernel
    /// expects a fresh request.
    pub fn audioinfo_request(&self, index: u32) -> (r: sys::oss_audioinfo)
        requires
            index <= 0x7fff_ffff,
        ensures
            r.is_query_for(index as int),
    {
        let mut buf = sys::oss_audioinfo::zeroed();
        buf.dev = index_to_i32(index);
        buf
    }

    /// Decodes a kernel-filled audio-device record.  The capability word is
    /// preserved bit-for-bit in `caps`, with its low sub-range also read as
    /// the revision level.
    pub fn audioinfo_from(&self, buf: &sys::oss_audioinfo) -> (r: Result<AudioInfo, OssError>)
        ensures
            r is Ok <==> audioinfo_decodable(*buf),
            r matches Ok(ai) ==> {
                &&& ai.dev as int == buf.dev as int
                &&& Some(ai.name@) == decoded_text(buf.name@)
                &&& ai.card_number as int == buf.card_number as int
                &&& ai.mixer_dev as int == buf.mixer_dev as int
                &&& ai.caps.bits == buf.caps
                &&& ai.caps_revision == (buf.caps & sys::PCM_CAP_REVISION) as u32
                &&& ai.caps_revision <= 0xff
                &&& ai.min_rate as int == buf.min_rate as int
                &&& ai.max_rate as int == buf.max_rate as int
                &&& ai.min_channels as int == buf.min_channels as int
                &&& ai.max_channels as int == buf.max_channels as int
                &&& Some(ai.devnode@) == decoded_text(buf.devnode@)
            },
            r matches Err(e) ==> e == OssError::DecodeFailed,
    {
        let name = match c_chars_to_string(buf.name.as_slice()) {
            Some(s) => s,
            None => {
                return Err(OssError::DecodeFailed);
            },
        };
        let devnode = match c_chars_to_string(buf.devnode.as_slice()) {
            Some(s) => s,
            None => {
                return Err(OssError::DecodeFailed);
            },
        };
        if buf.dev < 0 || buf.card_number < 0 || buf.mixer_dev < 0 || buf.min_rate < 0
            || buf.max_rate < 0 || buf.min_channels < 0 || buf.max_channels < 0 {
            return Err(OssError::DecodeFailed);
        }
        let caps = AudioCaps::from_bits(buf.caps);
        proof {
            let c = buf.caps;
            assert((c & 0xffi32) as u32 <= 0xff) by (bit_vector);
        }
        let caps_revision = (buf.caps & sys::PCM_CAP_REVISION) as u32;
        Ok(
            AudioInfo {
                dev: count_to_u32(buf.dev),
                name,
                card_number: count_to_u32(buf.card_number),
                mixer_dev: count_to_u32(buf.mixer_dev),
                caps,
                caps_revision,
                min_rate: count_to_u32(buf.min_rate),
                max_rate: count_to_u32(buf.max_rate),
                min_channels: count_to_u32(buf.min_channels),
                max_channels: count_to_u32(buf.max_channels),
                devnode,
            },
        )
    }

    /// Builds the lookup request for sound card `index`.
    pub fn cardinfo_request(&self, index: u32) -> (r: sys::oss_card_info)
        requires
            index <= 0x7fff_ffff,
        ensures
            r.is_query_for(index as int),
    {
        let mut buf = sys::oss_card_info::zeroed();
        buf.card = index_to_i32(index);
        buf
    }

    /// Decodes a kernel-filled card record: its three text fields become
    /// text.
    pub fn cardinfo_from(&self, buf: &sys::oss_card_info) -> (r: Result<CardInfo, OssError>)
        ensures
            r is Ok <==> cardinfo_decodable(*buf),
            r matches Ok(ci) ==> {
                &&& Some(ci.shortname@) == decoded_text(buf.shortname@)
                &&& Some(ci.longname@) == decoded_text(buf.longname@)
                &&& Some(ci.hw_info@) == decoded_text(buf.hw_info@)
            },
            r matches Err(e) ==> e == OssError::DecodeFailed,
    {
        let shortname = match c_chars_to_string(buf.shortname.as_slice()) {
            Some(s) => s,
            None => {
                return Err(OssError::DecodeFailed);
            },
        };
        let longname = match c_chars_to_string(buf.longname.as_slice()) {
            Some(s) => s,
            None => {
                return Err(OssError::DecodeFailed);
            },
        };
        let hw_info = match c_chars_to_string(buf.hw_info.as_slice()) {
            Some(s) => s,
            None => {
                return Err(OssError::DecodeFailed);
            },
        };
        Ok(CardInfo { shortname, longname, hw_info })
    }

    /// Builds the lookup request for mixer device `index`.
    pub fn mixerinfo_request(&self, index: u32) -> (r: sys::oss_mixerinfo)
        requires
            index <= 0x7fff_ffff,
        ensures
            r.is_query_for(index as int),
    {
        let mut buf = sys::oss_mixerinfo::zeroed();
        buf.dev = index_to_i32(index);
        buf
    }

    /// Decodes a kernel-filled mixer record.  `priority` is signed on the
    /// wire and carries over unchanged.
    pub fn mixerinfo_from(&self, buf: &sys::oss_mixerinfo) -> (r: Result<MixerInfo, OssError>)
        ensures
            r is Ok <==> mixerinfo_decodable(*buf),
            r matches Ok(mi) ==> {
                &&& mi.dev as int == buf.dev as int
                &&& Some(mi.name@) == decoded_text(buf.name@)
                &&& mi.modify_counter as int == buf.modify_counter as int
                &&& mi.card_number as int == buf.card_number as int
                &&& mi.nrext as int == buf.nrext as int
                &&& mi.priority == buf.priority
                &&& Some(mi.devnode@) == decoded_text(buf.devnode@)
            },
            r matches Err(e) ==> e == OssError::DecodeFailed,
    {
        let name = match c_chars_to_string(buf.name.as_slice()) {
            Some(s) => s,
            None => {
                return Err(OssError::DecodeFailed);
            },
        };
        let devnode = match c_chars_to_string(buf.devnode.as_slice()) {
            Some(s) => s,
            None => {
                return Err(OssError::DecodeFailed);
            },
        };
        if buf.dev < 0 || buf.modify_counter < 0 || buf.card_number < 0 || buf.nrext < 0 {
            return Err(OssError::DecodeFailed);
        }
        Ok(
            MixerInfo {
                dev: count_to_u32(buf.dev),
                name,
                modify_counter: count_to_u32(buf.modify_counter),
                card_number: count_to_u32(buf.card_number),
                nrext: count_to_u32(buf.nrext),
                priority: buf.priority,
                devnode,
            },
        )
    }
}

/// True when a kernel-filled audio-device record can be decoded.
pub open spec fn audioinfo_decodable(buf: sys::oss_audioinfo) -> bool {
    &&& decoded_text(buf.name@) is Some
    &&& decoded_text(buf.devnode@) is Some
    &&& buf.dev >= 0
    &&& buf.card_number >= 0
    &&& buf.mixer_dev >= 0
    &&& buf.min_rate >= 0
    &&& buf.max_rate >= 0
    &&& buf.min_channels >= 0
    &&& buf.max_channels >= 0
}

/// True when a kernel-filled card record can be decoded.
pub open spec fn cardinfo_decodable(buf: sys::oss_card_info) -> bool {
    &&& decoded_text(buf.shortname@) is Some
    &&& decoded_text(buf.longname@) is Some
    &&& decoded_text(buf.hw_info@) is Some
}

/// True when a kernel-filled mixer record can be decoded.
pub open spec fn mixerinfo_decodable(buf: sys::oss_mixerinfo) -> bool {
    &&& decoded_text(buf.name@) is Some
    &&& decoded_text(buf.devnode@) is Some
    &&& buf.dev >= 0
    &&& buf.modify_counter >= 0
    &&& buf.card_number >= 0
    &&& buf.nrext >= 0
}

} // verus!
