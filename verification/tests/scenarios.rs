//! The components driven against a simulated kernel: version negotiation,
//! enumeration decoding, and the query-or-set duality of the data path.

use ossaudio::dsp::Dsp;
use ossaudio::mixer::Mixer;
use ossaudio::{sys, OssError};

fn put(dst: &mut [u8], s: &str) {
    for (i, b) in s.bytes().enumerate() {
        dst[i] = b;
    }
}

/// Packs (major, minor) as the kernel reports its version.
fn version_word(maj: i32, min: i32) -> i32 {
    (maj << 16) | min
}

fn open_mixer_v4_2() -> Mixer {
    Mixer::open_check(version_word(4, 2)).unwrap()
}

#[test]
fn enumeration_on_version_4_2() {
    // Scenario: the control node reports version 4.2 and two audio devices.
    let m = open_mixer_v4_2();
    assert_eq!(m.version(), (4, 2));

    let mut raw = sys::oss_sysinfo::zeroed();
    put(&mut raw.product, "OSS");
    put(&mut raw.version, "4.2");
    put(&mut raw.license, "GPL");
    raw.versionnum = version_word(4, 2);
    raw.numaudios = 2;
    raw.nummixers = 1;
    raw.numcards = 1;
    raw.numaudioengines = 2;
    let si = m.sysinfo_from(&raw).unwrap();
    assert_eq!(si.product, "OSS");
    assert_eq!(si.version, "4.2");
    assert_eq!(si.licence, "GPL");
    assert_eq!((si.maj, si.min), (4, 2));
    assert_eq!(si.num_audios, 2);

    // Each per-device lookup echoes the requested index back in its record.
    let mut infos = Vec::new();
    for index in 0..si.num_audios {
        let req = m.audioinfo_request(index);
        assert_eq!(req.dev, index as i32);
        assert_eq!(req.busy, 0);

        // The simulated kernel fills the record for that device.
        let mut filled = req;
        put(&mut filled.name, if index == 0 { "first out" } else { "second out" });
        put(&mut filled.devnode, if index == 0 { "/dev/dsp0" } else { "/dev/dsp1" });
        filled.caps = sys::PCM_CAP_OUTPUT | 0x05;
        filled.min_channels = 1;
        filled.max_channels = 2;
        filled.min_rate = 8000;
        filled.max_rate = 48000;
        infos.push(m.audioinfo_from(&filled).unwrap());
    }
    assert_eq!(infos.len(), 2);
    assert_eq!(infos[0].dev, 0);
    assert_eq!(infos[1].dev, 1);
    assert_ne!(infos[0], infos[1]);
    assert_eq!(infos[0].devnode, "/dev/dsp0");
    assert_eq!(infos[1].devnode, "/dev/dsp1");
    assert_eq!(infos[0].caps_revision, 5);
    assert!(infos[0].caps.contains(sys::PCM_CAP_OUTPUT));
}

#[test]
fn major_version_3_fails_to_open() {
    // Scenario: a node reporting major version 3 never yields a handle.
    assert_eq!(
        Mixer::open_check(version_word(3, 11)).err(),
        Some(OssError::VersionMismatch)
    );
    assert!(Dsp::open_check(version_word(3, 0)).is_err());
    assert!(Dsp::open_check(version_word(4, 9)).is_ok());
}

#[test]
fn set_channels_against_faithful_and_unfaithful_kernels() {
    // Scenario: set_channels(1) against a kernel echoing 1 succeeds;
    // against one echoing 2 it fails with an acknowledgment mismatch.
    let d = Dsp::open_check(version_word(4, 0)).unwrap();
    let wire = d.channels_set_request(1).unwrap();
    assert_eq!(wire, 1);
    assert_eq!(d.set_ack_check(wire, 1), Ok(()));
    assert_eq!(d.set_ack_check(wire, 2), Err(OssError::AckMismatch));
}

#[test]
fn set_twice_with_same_value_succeeds_twice() {
    let d = Dsp::open_check(version_word(4, 0)).unwrap();
    for _ in 0..2 {
        let wire = d.speed_set_request(44100).unwrap();
        assert_eq!(wire, 44100);
        assert_eq!(d.set_ack_check(wire, 44100), Ok(()));
    }
    for _ in 0..2 {
        let wire = d
            .format_set_request(sys::AudioFormats::from_bits(sys::AFMT_S16_LE))
            .unwrap();
        assert_eq!(d.set_ack_check(wire, sys::AFMT_S16_LE), Ok(()));
    }
}

#[test]
fn zero_sentinel_rejected_locally() {
    let d = Dsp::open_check(version_word(4, 0)).unwrap();
    assert_eq!(d.channels_set_request(0), Err(OssError::InvalidArgument));
    assert_eq!(d.speed_set_request(0), Err(OssError::InvalidArgument));
    assert_eq!(
        d.format_set_request(sys::AudioFormats::from_bits(0)),
        Err(OssError::InvalidArgument)
    );
}

#[test]
fn query_decodes() {
    let d = Dsp::open_check(version_word(4, 0)).unwrap();
    assert_eq!(d.channels_decode(2), Ok(2));
    assert_eq!(d.channels_decode(0), Err(OssError::DecodeFailed));
    assert_eq!(d.speed_decode(48000), 48000);
    assert_eq!(d.volume_play_decode(0x1234), 0x34);
    assert_eq!(d.volume_play_decode(75), 75);
}

#[test]
fn sysinfo_decode_failures() {
    let m = open_mixer_v4_2();
    // A product field with no NUL inside its bound fails to decode.
    let mut raw = sys::oss_sysinfo::zeroed();
    raw.product = [b'x'; 32];
    put(&mut raw.version, "4.2");
    put(&mut raw.license, "GPL");
    assert_eq!(m.sysinfo_from(&raw).err(), Some(OssError::DecodeFailed));
    // A negative count fails to decode.
    let mut raw = sys::oss_sysinfo::zeroed();
    put(&mut raw.product, "OSS");
    put(&mut raw.version, "4.2");
    put(&mut raw.license, "GPL");
    raw.numaudios = -1;
    assert_eq!(m.sysinfo_from(&raw).err(), Some(OssError::DecodeFailed));
}

#[test]
fn cardinfo_roundtrip() {
    let m = open_mixer_v4_2();
    let req = m.cardinfo_request(3);
    assert_eq!(req.card, 3);
    let mut filled = req;
    put(&mut filled.shortname, "snd0");
    put(&mut filled.longname, "Example Audio Controller");
    put(&mut filled.hw_info, "pci0:1:2");
    let ci = m.cardinfo_from(&filled).unwrap();
    assert_eq!(ci.shortname, "snd0");
    assert_eq!(ci.longname, "Example Audio Controller");
    assert_eq!(ci.hw_info, "pci0:1:2");
}

#[test]
fn mixerinfo_roundtrip() {
    let m = open_mixer_v4_2();
    let req = m.mixerinfo_request(0);
    assert_eq!(req.dev, 0);
    let mut filled = req;
    put(&mut filled.name, "mix0");
    put(&mut filled.devnode, "/dev/mixer0");
    filled.modify_counter = 7;
    filled.nrext = 4;
    filled.priority = -2;
    let mi = m.mixerinfo_from(&filled).unwrap();
    assert_eq!(mi.name, "mix0");
    assert_eq!(mi.devnode, "/dev/mixer0");
    assert_eq!(mi.modify_counter, 7);
    assert_eq!(mi.nrext, 4);
    assert_eq!(mi.priority, -2);
    assert_eq!(mi.dev, 0);
}

#[test]
fn audioinfo_decode_failure_without_devnode_nul() {
    let m = open_mixer_v4_2();
    let mut filled = m.audioinfo_request(0);
    put(&mut filled.name, "out");
    filled.devnode = [b'z'; 32];
    assert_eq!(m.audioinfo_from(&filled).err(), Some(OssError::DecodeFailed));
}
