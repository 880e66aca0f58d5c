//! Capability and format bit-sets: known and unknown bits round-trip
//! without loss.

use ossaudio::sys;
use ossaudio::sys::{AudioCaps, AudioFormats};

#[test]
fn caps_roundtrip_with_unknown_bits() {
    // Two named bits, one bit with no assigned name, and a revision level.
    let raw = sys::PCM_CAP_DUPLEX | sys::PCM_CAP_OUTPUT | 0x0080_0000 | 0x2a;
    let caps = AudioCaps::from_bits(raw);
    assert_eq!(caps.bits(), raw);
}

#[test]
fn caps_roundtrip_all_bits() {
    let caps = AudioCaps::from_bits(-1);
    assert_eq!(caps.bits(), -1);
    let none = AudioCaps::from_bits(0);
    assert_eq!(none.bits(), 0);
}

#[test]
fn caps_contains_named_bits() {
    let caps = AudioCaps::from_bits(sys::PCM_CAP_INPUT | sys::PCM_CAP_OUTPUT);
    assert!(caps.contains(sys::PCM_CAP_INPUT));
    assert!(caps.contains(sys::PCM_CAP_OUTPUT));
    assert!(!caps.contains(sys::PCM_CAP_MMAP));
}

#[test]
fn formats_roundtrip_with_unknown_bits() {
    let raw = sys::AFMT_S16_LE | sys::AFMT_S32_LE | 0x0100_0000;
    let formats = AudioFormats::from_bits(raw);
    assert_eq!(formats.bits(), raw);
    assert!(formats.contains(sys::AFMT_S16_LE));
    assert!(!formats.contains(sys::AFMT_AC3));
}

#[test]
fn native_endian_aliases() {
    assert_eq!(sys::AFMT_S16_NE, sys::AFMT_S16_LE);
    assert_eq!(sys::AFMT_U16_NE, sys::AFMT_U16_LE);
    assert_eq!(sys::AFMT_S24_NE, sys::AFMT_S24_LE);
    assert_eq!(sys::AFMT_S32_NE, sys::AFMT_S32_LE);
}
