//! The wire-level constants of the control protocol: command-code encoding,
//! the fixed-layout records exchanged with the kernel, and the open-ended
//! capability and sample-format bit-sets.
//!
//! A command code is one `u32`: bits 30-29 carry the transfer direction,
//! bits 28-16 the payload size (13 bits), bits 15-8 a one-byte subsystem
//! group tag, and bits 7-0 a sequence number.  The size field of every
//! pre-built code is proved equal to the byte size of the record it
//! accompanies; a mis-sized code would let the kernel read or write past
//! the record.

#![allow(non_camel_case_types)]

use vstd::prelude::*;

verus! {

/// Width mask of the payload-size field: sizes occupy 13 bits.
pub const OSSIOCPARM_MASK: u32 = 0x1fff;

/// Direction: no payload travels with the call.
pub const OSSIOC_VOID: u32 = 0x00000000;

/// Direction: the kernel fills the payload (caller reads it back).
pub const OSSIOC_OUT: u32 = 0x20000000;

/// Direction: the caller supplies the payload.
pub const OSSIOC_IN: u32 = 0x40000000;

/// Direction: the caller supplies the payload and the kernel may rewrite it.
pub const OSSIOC_INOUT: u32 = 0x60000000;

/// The command code assembled from a direction, payload size, group tag and
/// sequence number.  Size, group and sequence are masked to their fields.
pub open spec fn spec_ioc(dir: u32, size: u32, group: u32, seq: u32) -> u32 {
    dir | ((size & OSSIOCPARM_MASK) << 16) | ((group & 0xff) << 8) | (seq & 0xff)
}

/// The direction bits of a command code.
pub open spec fn ioc_dir(code: u32) -> u32 {
    code & OSSIOC_INOUT
}

/// The payload size recorded in a command code.
pub open spec fn ioc_size(code: u32) -> u32 {
    (code >> 16) & OSSIOCPARM_MASK
}

/// The subsystem group tag of a command code.
pub open spec fn ioc_group(code: u32) -> u32 {
    (code >> 8) & 0xff
}

/// The sequence number of a command code.
pub open spec fn ioc_seq(code: u32) -> u32 {
    code & 0xff
}

/// Decoding a built command code gives back exactly the direction, size,
/// group and sequence it was built from.
pub proof fn lemma_ioc_roundtrip(dir: u32, size: u32, group: u32, seq: u32)
    by (bit_vector)
    requires
        dir == OSSIOC_VOID || dir == OSSIOC_OUT || dir == OSSIOC_IN || dir == OSSIOC_INOUT,
        size <= OSSIOCPARM_MASK,
        group <= 0xff,
        seq <= 0xff,
    ensures
        ioc_dir(spec_ioc(dir, size, group, seq)) == dir,
        ioc_size(spec_ioc(dir, size, group, seq)) == size,
        ioc_group(spec_ioc(dir, size, group, seq)) == group,
        ioc_seq(spec_ioc(dir, size, group, seq)) == seq,
{
}

/// Builds the code of a call that carries no payload.
pub fn ioc_void(group: u8, seq: u8) -> (r: u32)
    ensures
        r == spec_ioc(OSSIOC_VOID, 0, group as u32, seq as u32),
{
    proof {
        assert(OSSIOC_VOID | ((0u32 & OSSIOCPARM_MASK) << 16) | (((group as u32) & 0xff) << 8) | (
        (seq as u32) & 0xff) == ((group as u32) << 8) | (seq as u32)) by (bit_vector);
    }
    ((group as u32) << 8) | (seq as u32)
}

/// Builds the code of a call whose payload the kernel fills.
///
/// The size must fit the 13-bit size field; every record this crate defines
/// does, and a size that did not would be a defect in the caller, not a
/// runtime condition.
pub fn ioc_read(group: u8, seq: u8, size: u32) -> (r: u32)
    requires
        size <= OSSIOCPARM_MASK,
    ensures
        r == spec_ioc(OSSIOC_OUT, size, group as u32, seq as u32),
{
    proof {
        assert(size <= 0x1fff ==> (OSSIOC_OUT | ((size & OSSIOCPARM_MASK) << 16) | (((group as u32)
        & 0xff) << 8) | ((seq as u32) & 0xff)) == (OSSIOC_OUT | (size << 16) | ((group as u32) << 8)
        | (seq as u32))) by (bit_vector);
    }
    OSSIOC_OUT | (size << 16) | ((group as u32) << 8) | (seq as u32)
}

/// Builds the code of a call whose payload travels both ways: the caller
/// supplies it and the kernel may rewrite it in place.
pub fn ioc_read_write(group: u8, seq: u8, size: u32) -> (r: u32)
    requires
        size <= OSSIOCPARM_MASK,
    ensures
        r == spec_ioc(OSSIOC_INOUT, size, group as u32, seq as u32),
{
    proof {
        assert(size <= 0x1fff ==> (OSSIOC_INOUT | ((size & OSSIOCPARM_MASK) << 16) | (((group
        as u32) & 0xff) << 8) | ((seq as u32) & 0xff)) == (OSSIOC_INOUT | (size << 16) | ((group
        as u32) << 8) | (seq as u32))) by (bit_vector);
    }
    OSSIOC_INOUT | (size << 16) | ((group as u32) << 8) | (seq as u32)
}

/// Reads the direction bits back out of a command code.
pub fn code_dir(code: u32) -> (r: u32)
    ensures
        r == ioc_dir(code),
{
    code & OSSIOC_INOUT
}

/// Reads the payload size back out of a command code.
pub fn code_size(code: u32) -> (r: u32)
    ensures
        r == ioc_size(code),
{
    (code >> 16) & OSSIOCPARM_MASK
}

/// Reads the group tag back out of a command code.
pub fn code_group(code: u32) -> (r: u32)
    ensures
        r == ioc_group(code),
{
    (code >> 8) & 0xff
}

/// Reads the sequence number back out of a command code.
pub fn code_seq(code: u32) -> (r: u32)
    ensures
        r == ioc_seq(code),
{
    code & 0xff
}

/// Group tag of the system-wide enumeration commands (the letter `X`).
pub const GROUP_SYSTEM: u32 = 0x58;

/// Group tag of the per-device data-path commands (the letter `P`).
pub const GROUP_DSP: u32 = 0x50;

/// Group tag of the mixer commands (the letter `M`); only the version query
/// of that group is used here.
pub const GROUP_MIXER: u32 = 0x4d;

/// Documented byte size of [`oss_sysinfo`].
pub const SYSINFO_SIZE: u32 = 0x4e0;

/// Documented byte size of [`oss_audioinfo`].
pub const AUDIOINFO_SIZE: u32 = 0x49c;

/// Documented byte size of [`oss_card_info`].
pub const CARDINFO_SIZE: u32 = 0x498;

/// Documented byte size of [`oss_mixerinfo`].
pub const MIXERINFO_SIZE: u32 = 0x470;

/// Documented byte size of [`audio_errinfo`].
pub const ERRINFO_SIZE: u32 = 0x68;

/// Documented byte size of [`audio_buf_info`].
pub const BUFINFO_SIZE: u32 = 0x10;

/// Byte size of one C `int`, the payload of the plain value-carrying calls.
pub const CINT_SIZE: u32 = 4;

pub const SNDCTL_SYSINFO: u32 = OSSIOC_OUT | ((SYSINFO_SIZE & OSSIOCPARM_MASK) << 16) | (
GROUP_SYSTEM << 8) | 1;

pub const SNDCTL_AUDIOINFO: u32 = OSSIOC_INOUT | ((AUDIOINFO_SIZE & OSSIOCPARM_MASK) << 16) | (
GROUP_SYSTEM << 8) | 7;

pub const SNDCTL_MIXERINFO: u32 = OSSIOC_INOUT | ((MIXERINFO_SIZE & OSSIOCPARM_MASK) << 16) | (
GROUP_SYSTEM << 8) | 10;

pub const SNDCTL_CARDINFO: u32 = OSSIOC_INOUT | ((CARDINFO_SIZE & OSSIOCPARM_MASK) << 16) | (
GROUP_SYSTEM << 8) | 11;

pub const SNDCTL_DSP_HALT: u32 = OSSIOC_VOID | (GROUP_DSP << 8) | 0;

pub const SNDCTL_DSP_SYNC: u32 = OSSIOC_VOID | (GROUP_DSP << 8) | 1;

pub const SNDCTL_DSP_SPEED: u32 = OSSIOC_INOUT | ((CINT_SIZE & OSSIOCPARM_MASK) << 16) | (GROUP_DSP
<< 8) | 2;

pub const SNDCTL_DSP_SETFMT: u32 = OSSIOC_INOUT | ((CINT_SIZE & OSSIOCPARM_MASK) << 16) | (
GROUP_DSP << 8) | 5;

pub const SNDCTL_DSP_CHANNELS: u32 = OSSIOC_INOUT | ((CINT_SIZE & OSSIOCPARM_MASK) << 16) | (
GROUP_DSP << 8) | 6;

pub const SNDCTL_DSP_GETFMTS: u32 = OSSIOC_OUT | ((CINT_SIZE & OSSIOCPARM_MASK) << 16) | (GROUP_DSP
<< 8) | 11;

pub const SNDCTL_DSP_GETOSPACE: u32 = OSSIOC_OUT | ((BUFINFO_SIZE & OSSIOCPARM_MASK) << 16) | (
GROUP_DSP << 8) | 12;

pub const SNDCTL_DSP_GETISPACE: u32 = OSSIOC_OUT | ((BUFINFO_SIZE & OSSIOCPARM_MASK) << 16) | (
GROUP_DSP << 8) | 13;

pub const SNDCTL_DSP_GETODELAY: u32 = OSSIOC_OUT | ((CINT_SIZE & OSSIOCPARM_MASK) << 16) | (
GROUP_DSP << 8) | 23;

pub const SNDCTL_DSP_GETPLAYVOL: u32 = OSSIOC_OUT | ((CINT_SIZE & OSSIOCPARM_MASK) << 16) | (
GROUP_DSP << 8) | 24;

pub const SNDCTL_DSP_SETPLAYVOL: u32 = OSSIOC_INOUT | ((CINT_SIZE & OSSIOCPARM_MASK) << 16) | (
GROUP_DSP << 8) | 24;

pub const SNDCTL_DSP_GETERROR: u32 = OSSIOC_OUT | ((ERRINFO_SIZE & OSSIOCPARM_MASK) << 16) | (
GROUP_DSP << 8) | 25;

pub const SNDCTL_DSP_HALT_INPUT: u32 = OSSIOC_VOID | (GROUP_DSP << 8) | 33;

pub const SNDCTL_DSP_HALT_OUTPUT: u32 = OSSIOC_VOID | (GROUP_DSP << 8) | 34;

pub const OSS_GETVERSION: u32 = OSSIOC_OUT | ((CINT_SIZE & OSSIOCPARM_MASK) << 16) | (GROUP_MIXER
<< 8) | 118;

/// Every pre-built command code decomposes into exactly the direction,
/// payload size, group tag and sequence number it stands for.
pub proof fn lemma_command_codes_decompose()
    ensures
        SNDCTL_SYSINFO == spec_ioc(OSSIOC_OUT, SYSINFO_SIZE, GROUP_SYSTEM, 1),
        SNDCTL_AUDIOINFO == spec_ioc(OSSIOC_INOUT, AUDIOINFO_SIZE, GROUP_SYSTEM, 7),
        SNDCTL_MIXERINFO == spec_ioc(OSSIOC_INOUT, MIXERINFO_SIZE, GROUP_SYSTEM, 10),
        SNDCTL_CARDINFO == spec_ioc(OSSIOC_INOUT, CARDINFO_SIZE, GROUP_SYSTEM, 11),
        SNDCTL_DSP_HALT == spec_ioc(OSSIOC_VOID, 0, GROUP_DSP, 0),
        SNDCTL_DSP_SYNC == spec_ioc(OSSIOC_VOID, 0, GROUP_DSP, 1),
        SNDCTL_DSP_SPEED == spec_ioc(OSSIOC_INOUT, CINT_SIZE, GROUP_DSP, 2),
        SNDCTL_DSP_SETFMT == spec_ioc(OSSIOC_INOUT, CINT_SIZE, GROUP_DSP, 5),
        SNDCTL_DSP_CHANNELS == spec_ioc(OSSIOC_INOUT, CINT_SIZE, GROUP_DSP, 6),
        SNDCTL_DSP_GETFMTS == spec_ioc(OSSIOC_OUT, CINT_SIZE, GROUP_DSP, 11),
        SNDCTL_DSP_GETOSPACE == spec_ioc(OSSIOC_OUT, BUFINFO_SIZE, GROUP_DSP, 12),
        SNDCTL_DSP_GETISPACE == spec_ioc(OSSIOC_OUT, BUFINFO_SIZE, GROUP_DSP, 13),
        SNDCTL_DSP_GETODELAY == spec_ioc(OSSIOC_OUT, CINT_SIZE, GROUP_DSP, 23),
        SNDCTL_DSP_GETPLAYVOL == spec_ioc(OSSIOC_OUT, CINT_SIZE, GROUP_DSP, 24),
        SNDCTL_DSP_SETPLAYVOL == spec_ioc(OSSIOC_INOUT, CINT_SIZE, GROUP_DSP, 24),
        SNDCTL_DSP_GETERROR == spec_ioc(OSSIOC_OUT, ERRINFO_SIZE, GROUP_DSP, 25),
        SNDCTL_DSP_HALT_INPUT == spec_ioc(OSSIOC_VOID, 0, GROUP_DSP, 33),
        SNDCTL_DSP_HALT_OUTPUT == spec_ioc(OSSIOC_VOID, 0, GROUP_DSP, 34),
        OSS_GETVERSION == spec_ioc(OSSIOC_OUT, CINT_SIZE, GROUP_MIXER, 118),
{
    assert(SNDCTL_SYSINFO == spec_ioc(OSSIOC_OUT, SYSINFO_SIZE, GROUP_SYSTEM, 1)) by (bit_vector);
    assert(SNDCTL_AUDIOINFO == spec_ioc(OSSIOC_INOUT, AUDIOINFO_SIZE, GROUP_SYSTEM, 7))
        by (bit_vector);
    assert(SNDCTL_MIXERINFO == spec_ioc(OSSIOC_INOUT, MIXERINFO_SIZE, GROUP_SYSTEM, 10))
        by (bit_vector);
    assert(SNDCTL_CARDINFO == spec_ioc(OSSIOC_INOUT, CARDINFO_SIZE, GROUP_SYSTEM, 11))
        by (bit_vector);
    assert(SNDCTL_DSP_HALT == spec_ioc(OSSIOC_VOID, 0, GROUP_DSP, 0)) by (bit_vector);
    assert(SNDCTL_DSP_SYNC == spec_ioc(OSSIOC_VOID, 0, GROUP_DSP, 1)) by (bit_vector);
    assert(SNDCTL_DSP_SPEED == spec_ioc(OSSIOC_INOUT, CINT_SIZE, GROUP_DSP, 2)) by (bit_vector);
    assert(SNDCTL_DSP_SETFMT == spec_ioc(OSSIOC_INOUT, CINT_SIZE, GROUP_DSP, 5)) by (bit_vector);
    assert(SNDCTL_DSP_CHANNELS == spec_ioc(OSSIOC_INOUT, CINT_SIZE, GROUP_DSP, 6)) by (bit_vector);
    assert(SNDCTL_DSP_GETFMTS == spec_ioc(OSSIOC_OUT, CINT_SIZE, GROUP_DSP, 11)) by (bit_vector);
    assert(SNDCTL_DSP_GETOSPACE == spec_ioc(OSSIOC_OUT, BUFINFO_SIZE, GROUP_DSP, 12))
        by (bit_vector);
    assert(SNDCTL_DSP_GETISPACE == spec_ioc(OSSIOC_OUT, BUFINFO_SIZE, GROUP_DSP, 13))
        by (bit_vector);
    assert(SNDCTL_DSP_GETODELAY == spec_ioc(OSSIOC_OUT, CINT_SIZE, GROUP_DSP, 23)) by (bit_vector);
    assert(SNDCTL_DSP_GETPLAYVOL == spec_ioc(OSSIOC_OUT, CINT_SIZE, GROUP_DSP, 24))
        by (bit_vector);
    assert(SNDCTL_DSP_SETPLAYVOL == spec_ioc(OSSIOC_INOUT, CINT_SIZE, GROUP_DSP, 24))
        by (bit_vector);
    assert(SNDCTL_DSP_GETERROR == spec_ioc(OSSIOC_OUT, ERRINFO_SIZE, GROUP_DSP, 25))
        by (bit_vector);
    assert(SNDCTL_DSP_HALT_INPUT == spec_ioc(OSSIOC_VOID, 0, GROUP_DSP, 33)) by (bit_vector);
    assert(SNDCTL_DSP_HALT_OUTPUT == spec_ioc(OSSIOC_VOID, 0, GROUP_DSP, 34)) by (bit_vector);
    assert(OSS_GETVERSION == spec_ioc(OSSIOC_OUT, CINT_SIZE, GROUP_MIXER, 118)) by (bit_vector);
}

/// True when every byte of the sequence is zero.
pub open spec fn all_zero_bytes(s: Seq<u8>) -> bool {
    forall|i: int| 0 <= i < s.len() ==> s[i] == 0
}

/// True when every element of the sequence of C `int`s is zero.
pub open spec fn all_zero_ints(s: Seq<i32>) -> bool {
    forall|i: int| 0 <= i < s.len() ==> s[i] == 0
}

/// True when every element of the sequence of C `unsigned int`s is zero.
pub open spec fn all_zero_uints(s: Seq<u32>) -> bool {
    forall|i: int| 0 <= i < s.len() ==> s[i] == 0
}

/// Longest name field of the per-device record, in bytes.
pub const OSS_LONGNAME_SIZE: usize = 64;

/// Label field width, in bytes.
pub const OSS_LABEL_SIZE: usize = 16;

/// Device-node path field width, in bytes.
pub const OSS_DEVNODE_SIZE: usize = 32;

/// Capacity of the sample-rate list in the per-device record.
pub const OSS_MAX_SAMPLE_RATES: usize = 20;

/// System-wide counts and identification, filled by the kernel.
///
/// Field order and widths mirror the kernel's structure exactly, including
/// the trailing filler the kernel assumes when computing offsets.  Text
/// fields are fixed-length byte arrays, NUL-terminated within their bound
/// when valid.
pub struct oss_sysinfo {
    pub product: [u8; 32],
    pub version: [u8; 32],
    pub versionnum: i32,
    pub options: [u8; 128],
    pub numaudios: i32,
    pub openedaudio: [i32; 8],
    pub numsynths: i32,
    pub nummidis: i32,
    pub numtimers: i32,
    pub nummixers: i32,
    pub openedmidi: [i32; 8],
    pub numcards: i32,
    pub numaudioengines: i32,
    pub license: [u8; 16],
    pub revision_info: [u8; 256],
    pub filler: [i32; 172],
}

/// Byte count of [`oss_sysinfo`] as declared: each field's width in
/// declaration order, C `int` fields four bytes wide.
pub open spec fn sysinfo_declared_bytes() -> nat {
    32 + 32 + 4 + 128 + 4 + (8 * 4) + 4 + 4 + 4 + 4 + (8 * 4) + 4 + 4 + 16 + 256 + (172 * 4)
}

impl oss_sysinfo {
    /// True of the all-zero record.
    pub open spec fn is_zeroed(self) -> bool {
        &&& all_zero_bytes(self.product@)
        &&& all_zero_bytes(self.version@)
        &&& self.versionnum == 0
        &&& all_zero_bytes(self.options@)
        &&& self.numaudios == 0
        &&& all_zero_ints(self.openedaudio@)
        &&& self.numsynths == 0
        &&& self.nummidis == 0
        &&& self.numtimers == 0
        &&& self.nummixers == 0
        &&& all_zero_ints(self.openedmidi@)
        &&& self.numcards == 0
        &&& self.numaudioengines == 0
        &&& all_zero_bytes(self.license@)
        &&& all_zero_bytes(self.revision_info@)
        &&& all_zero_ints(self.filler@)
    }

    /// The all-zero record, as the output call hands it to the kernel.
    pub fn zeroed() -> (r: Self)
        ensures
            r.is_zeroed(),
    {
        oss_sysinfo {
            product: [0u8; 32],
            version: [0u8; 32],
            versionnum: 0,
            options: [0u8; 128],
            numaudios: 0,
            openedaudio: [0i32; 8],
            numsynths: 0,
            nummidis: 0,
            numtimers: 0,
            nummixers: 0,
            openedmidi: [0i32; 8],
            numcards: 0,
            numaudioengines: 0,
            license: [0u8; 16],
            revision_info: [0u8; 256],
            filler: [0i32; 172],
        }
    }
}

/// Description of one audio device, filled by the kernel; on input only the
/// `dev` selector is meaningful.
pub struct oss_audioinfo {
    pub dev: i32,
    pub name: [u8; 64],
    pub busy: i32,
    pub pid: i32,
    pub caps: i32,
    pub iformats: i32,
    pub oformats: i32,
    pub magic: i32,
    pub cmd: [u8; 64],
    pub card_number: i32,
    pub port_number: i32,
    pub mixer_dev: i32,
    pub legacy_device: i32,
    pub enabled: i32,
    pub flags: i32,
    pub min_rate: i32,
    pub max_rate: i32,
    pub min_channels: i32,
    pub max_channels: i32,
    pub binding: i32,
    pub rate_source: i32,
    pub handle: [u8; 32],
    pub nrates: u32,
    pub rates: [u32; OSS_MAX_SAMPLE_RATES],
    pub song_name: [u8; OSS_LONGNAME_SIZE],
    pub label: [u8; OSS_LABEL_SIZE],
    pub latency: i32,
    pub devnode: [u8; OSS_DEVNODE_SIZE],
    pub next_play_engine: i32,
    pub next_rec_engine: i32,
    pub filler: [i32; 184],
}

/// Byte count of [`oss_audioinfo`] as declared.
pub open spec fn audioinfo_declared_bytes() -> nat {
    4 + 64 + 4 + 4 + 4 + 4 + 4 + 4 + 64 + 4 + 4 + 4 + 4 + 4 + 4 + 4 + 4 + 4 + 4 + 4 + 4 + 32 + 4
        + (20 * 4) + 64 + 16 + 4 + 32 + 4 + 4 + (184 * 4)
}

impl oss_audioinfo {
    /// True of every field but the `dev` selector being zero.
    pub open spec fn rest_is_zero(self) -> bool {
        &&& all_zero_bytes(self.name@)
        &&& self.busy == 0
        &&& self.pid == 0
        &&& self.caps == 0
        &&& self.iformats == 0
        &&& self.oformats == 0
        &&& self.magic == 0
        &&& all_zero_bytes(self.cmd@)
        &&& self.card_number == 0
        &&& self.port_number == 0
        &&& self.mixer_dev == 0
        &&& self.legacy_device == 0
        &&& self.enabled == 0
        &&& self.flags == 0
        &&& self.min_rate == 0
        &&& self.max_rate == 0
        &&& self.min_channels == 0
        &&& self.max_channels == 0
        &&& self.binding == 0
        &&& self.rate_source == 0
        &&& all_zero_bytes(self.handle@)
        &&& self.nrates == 0
        &&& all_zero_uints(self.rates@)
        &&& all_zero_bytes(self.song_name@)
        &&& all_zero_bytes(self.label@)
        &&& self.latency == 0
        &&& all_zero_bytes(self.devnode@)
        &&& self.next_play_engine == 0
        &&& self.next_rec_engine == 0
        &&& all_zero_ints(self.filler@)
    }

    /// True of the all-zero record.
    pub open spec fn is_zeroed(self) -> bool {
        self.dev == 0 && self.rest_is_zero()
    }

    /// True of a lookup request for device index `dev`: the selector holds
    /// the index and every other field is zero.
    pub open spec fn is_query_for(self, dev: int) -> bool {
        self.dev == dev && self.rest_is_zero()
    }

    /// The all-zero record.
    pub fn zeroed() -> (r: Self)
        ensures
            r.is_zeroed(),
    {
        oss_audioinfo {
            dev: 0,
            name: [0u8; 64],
            busy: 0,
            pid: 0,
            caps: 0,
            iformats: 0,
            oformats: 0,
            magic: 0,
            cmd: [0u8; 64],
            card_number: 0,
            port_number: 0,
            mixer_dev: 0,
            legacy_device: 0,
            enabled: 0,
            flags: 0,
            min_rate: 0,
            max_rate: 0,
            min_channels: 0,
            max_channels: 0,
            binding: 0,
            rate_source: 0,
            handle: [0u8; 32],
            nrates: 0,
            rates: [0u32; 20],
            song_name: [0u8; 64],
            label: [0u8; 16],
            latency: 0,
            devnode: [0u8; 32],
            next_play_engine: 0,
            next_rec_engine: 0,
            filler: [0i32; 184],
        }
    }
}

impl Default for oss_audioinfo {
    /// The all-zero record, as the kernel expects a fresh request.
    fn default() -> (r: Self)
        ensures
            r.is_zeroed(),
    {
        Self::zeroed()
    }
}

/// Description of one sound card, filled by the kernel; on input only the
/// `card` selector is meaningful.
pub struct oss_card_info {
    pub card: i32,
    pub shortname: [u8; 16],
    pub longname: [u8; 128],
    pub flags: i32,
    pub hw_info: [u8; 400],
    pub intr_count: i32,
    pub ack_count: i32,
    pub filler: [i32; 154],
}

/// Byte count of [`oss_card_info`] as declared.
pub open spec fn cardinfo_declared_bytes() -> nat {
    4 + 16 + 128 + 4 + 400 + 4 + 4 + (154 * 4)
}

impl oss_card_info {
    /// True of every field but the `card` selector being zero.
    pub open spec fn rest_is_zero(self) -> bool {
        &&& all_zero_bytes(self.shortname@)
        &&& all_zero_bytes(self.longname@)
        &&& self.flags == 0
        &&& all_zero_bytes(self.hw_info@)
        &&& self.intr_count == 0
        &&& self.ack_count == 0
        &&& all_zero_ints(self.filler@)
    }

    /// True of the all-zero record.
    pub open spec fn is_zeroed(self) -> bool {
        self.card == 0 && self.rest_is_zero()
    }

    /// True of a lookup request for card index `card`.
    pub open spec fn is_query_for(self, card: int) -> bool {
        self.card == card && self.rest_is_zero()
    }

    /// The all-zero record.
    pub fn zeroed() -> (r: Self)
        ensures
            r.is_zeroed(),
    {
        oss_card_info {
            card: 0,
            shortname: [0u8; 16],
            longname: [0u8; 128],
            flags: 0,
            hw_info: [0u8; 400],
            intr_count: 0,
            ack_count: 0,
            filler: [0i32; 154],
        }
    }
}

impl Default for oss_card_info {
    /// The all-zero record, as the kernel expects a fresh request.
    fn default() -> (r: Self)
        ensures
            r.is_zeroed(),
    {
        Self::zeroed()
    }
}

/// Description of one mixer device, filled by the kernel; on input only the
/// `dev` selector is meaningful.
pub struct oss_mixerinfo {
    pub dev: i32,
    pub id: [u8; 16],
    pub name: [u8; 32],
    pub modify_counter: i32,
    pub card_number: i32,
    pub port_number: i32,
    pub handle: [u8; 32],
    pub magic: i32,
    pub enabled: i32,
    pub caps: i32,
    pub flags: i32,
    pub nrext: i32,
    pub priority: i32,
    pub devnode: [u8; OSS_DEVNODE_SIZE],
    pub legacy_device: i32,
    pub filler: [i32; 245],
}

/// Byte count of [`oss_mixerinfo`] as declared.
pub open spec fn mixerinfo_declared_bytes() -> nat {
    4 + 16 + 32 + 4 + 4 + 4 + 32 + 4 + 4 + 4 + 4 + 4 + 4 + 32 + 4 + (245 * 4)
}

impl oss_mixerinfo {
    /// True of every field but the `dev` selector being zero.
    pub open spec fn rest_is_zero(self) -> bool {
        &&& all_zero_bytes(self.id@)
        &&& all_zero_bytes(self.name@)
        &&& self.modify_counter == 0
        &&& self.card_number == 0
        &&& self.port_number == 0
        &&& all_zero_bytes(self.handle@)
        &&& self.magic == 0
        &&& self.enabled == 0
        &&& self.caps == 0
        &&& self.flags == 0
        &&& self.nrext == 0
        &&& self.priority == 0
        &&& all_zero_bytes(self.devnode@)
        &&& self.legacy_device == 0
        &&& all_zero_ints(self.filler@)
    }

    /// True of the all-zero record.
    pub open spec fn is_zeroed(self) -> bool {
        self.dev == 0 && self.rest_is_zero()
    }

    /// True of a lookup request for mixer index `dev`.
    pub open spec fn is_query_for(self, dev: int) -> bool {
        self.dev == dev && self.rest_is_zero()
    }

    /// The all-zero record.
    pub fn zeroed() -> (r: Self)
        ensures
            r.is_zeroed(),
    {
        oss_mixerinfo {
            dev: 0,
            id: [0u8; 16],
            name: [0u8; 32],
            modify_counter: 0,
            card_number: 0,
            port_number: 0,
            handle: [0u8; 32],
            magic: 0,
            enabled: 0,
            caps: 0,
            flags: 0,
            nrext: 0,
            priority: 0,
            devnode: [0u8; 32],
            legacy_device: 0,
            filler: [0i32; 245],
        }
    }
}

impl Default for oss_mixerinfo {
    /// The all-zero record, as the kernel expects a fresh request.
    fn default() -> (r: Self)
        ensures
            r.is_zeroed(),
    {
        Self::zeroed()
    }
}

/// Error counters of one data path, filled by the kernel.
#[derive(Debug)]
pub struct audio_errinfo {
    pub play_underruns: i32,
    pub rec_overruns: i32,
    pub play_ptradjust: u32,
    pub rec_ptradjust: u32,
    pub play_errorcount: i32,
    pub rec_errorcount: i32,
    pub play_lasterror: i32,
    pub rec_lasterror: i32,
    pub play_errorparm: i32,
    pub rec_errorparm: i32,
    pub filler: [i32; 16],
}

/// Byte count of [`audio_errinfo`] as declared.
pub open spec fn errinfo_declared_bytes() -> nat {
    4 + 4 + 4 + 4 + 4 + 4 + 4 + 4 + 4 + 4 + (16 * 4)
}

/// Buffer occupancy of one direction of a data path, filled by the kernel.
#[derive(Debug, Clone, Copy, PartialEq, Eq, Structural)]
pub struct audio_buf_info {
    pub fragments: i32,
    pub fragstotal: i32,
    pub fragsize: i32,
    pub bytes: i32,
}

/// Byte count of [`audio_buf_info`] as declared.
pub open spec fn bufinfo_declared_bytes() -> nat {
    4 + 4 + 4 + 4
}

/// Every record's declared byte count (the sum of its field widths in
/// declaration order) equals the documented fixed size, which in turn is
/// the payload size carried by the record's command codes
/// ([`lemma_command_codes_decompose`]).
pub proof fn lemma_record_sizes_documented()
    ensures
        sysinfo_declared_bytes() == SYSINFO_SIZE as int == 1248,
        audioinfo_declared_bytes() == AUDIOINFO_SIZE as int == 1180,
        cardinfo_declared_bytes() == CARDINFO_SIZE as int == 1176,
        mixerinfo_declared_bytes() == MIXERINFO_SIZE as int == 1136,
        errinfo_declared_bytes() == ERRINFO_SIZE as int == 104,
        bufinfo_declared_bytes() == BUFINFO_SIZE as int == 16,
{
}

pub const PCM_CAP_DUPLEX: i32 = 0x00000100;

pub const PCM_CAP_REALTIME: i32 = 0x00000200;

pub const PCM_CAP_BATCH: i32 = 0x00000400;

pub const PCM_CAP_COPROC: i32 = 0x00000800;

pub const PCM_CAP_TRIGGER: i32 = 0x00001000;

pub const PCM_CAP_MMAP: i32 = 0x00002000;

pub const PCM_CAP_MULTI: i32 = 0x00004000;

pub const PCM_CAP_BIND: i32 = 0x00008000;

pub const PCM_CAP_INPUT: i32 = 0x00010000;

pub const PCM_CAP_OUTPUT: i32 = 0x00020000;

pub const PCM_CAP_VIRTUAL: i32 = 0x00040000;

pub const PCM_CAP_SHADOW: i32 = 0x01000000;

pub const PCM_CAP_FREERATE: i32 = 0x10000000;

pub const PCM_CAP_DEFAULT: i32 = 0x40000000;

/// Low sub-range of the capability word reinterpreted as a revision level
/// (0 to 255) rather than independent flags.
pub const PCM_CAP_REVISION: i32 = 0x000000ff;

pub const PCM_CAP_CH_MASK: i32 = 0x06000000;

/// The capability bits one audio device reports.
///
/// The set of valid bits can grow over time, so any combination of bits the
/// kernel reports — named here or not — is representable and round-trips
/// without loss.
#[derive(Debug, Clone, Copy, PartialEq, Eq, Structural)]
pub struct AudioCaps {
    pub bits: i32,
}

impl AudioCaps {
    /// Wraps a raw capability word.  Every bit pattern is accepted: bits
    /// without an assigned name must be preserved, not masked away.
    pub fn from_bits(bits: i32) -> (r: AudioCaps)
        ensures
            r.bits == bits,
    {
        AudioCaps { bits }
    }

    /// The raw capability word, every original bit intact.
    pub fn bits(&self) -> (r: i32)
        ensures
            r == self.bits,
    {
        self.bits
    }

    /// True when every bit of `flag` is set in this word.
    pub fn contains(&self, flag: i32) -> (r: bool)
        ensures
            r == (self.bits & flag == flag),
    {
        self.bits & flag == flag
    }
}

/// Wrapping a capability word and reading it back reproduces every bit,
/// named or unknown.
pub proof fn lemma_caps_roundtrip(bits: i32)
    ensures
        (AudioCaps { bits }).bits == bits,
{
}

pub const AFMT_MU_LAW: i32 = 0x00000001;

pub const AFMT_A_LAW: i32 = 0x00000002;

pub const AFMT_IMA_ADPCM: i32 = 0x00000004;

pub const AFMT_U8: i32 = 0x00000008;

pub const AFMT_S16_LE: i32 = 0x00000010;

pub const AFMT_S16_BE: i32 = 0x00000020;

pub const AFMT_S8: i32 = 0x00000040;

pub const AFMT_U16_LE: i32 = 0x00000080;

pub const AFMT_U16_BE: i32 = 0x00000100;

pub const AFMT_MPEG: i32 = 0x00000200;

pub const AFMT_AC3: i32 = 0x00000400;

pub const AFMT_VORBIS: i32 = 0x00000800;

pub const AFMT_S32_LE: i32 = 0x00001000;

pub const AFMT_S32_BE: i32 = 0x00002000;

pub const AFMT_FLOAT: i32 = 0x00004000;

pub const AFMT_S24_LE: i32 = 0x00008000;

pub const AFMT_S24_BE: i32 = 0x00010000;

pub const AFMT_SPDIF_RAW: i32 = 0x00020000;

pub const AFMT_S24_PACKED: i32 = 0x00040000;

pub const AFMT_U16_NE: i32 = AFMT_U16_LE;

pub const AFMT_S16_NE: i32 = AFMT_S16_LE;

pub const AFMT_S24_NE: i32 = AFMT_S24_LE;

pub const AFMT_S32_NE: i32 = AFMT_S32_LE;

/// The sample-format bits a data path supports or is configured to.
///
/// As with [`AudioCaps`], bits the kernel sets beyond the named ones are
/// preserved exactly.
#[derive(Debug, Clone, Copy, PartialEq, Eq, Structural)]
pub struct AudioFormats {
    pub bits: i32,
}

impl AudioFormats {
    /// Wraps a raw format word; every bit pattern is accepted and kept.
    pub fn from_bits(bits: i32) -> (r: AudioFormats)
        ensures
            r.bits == bits,
    {
        AudioFormats { bits }
    }

    /// The raw format word, every original bit intact.
    pub fn bits(&self) -> (r: i32)
        ensures
            r == self.bits,
    {
        self.bits
    }

    /// True when every bit of `flag` is set in this word.
    pub fn contains(&self, flag: i32) -> (r: bool)
        ensures
            r == (self.bits & flag == flag),
    {
        self.bits & flag == flag
    }
}

/// Wrapping a format word and reading it back reproduces every bit,
/// named or unknown.
pub proof fn lemma_formats_roundtrip(bits: i32)
    ensures
        (AudioFormats { bits }).bits == bits,
{
}

} // verus!
