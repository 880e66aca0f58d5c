//! Command-code encoding: building and decoding codes, and the values of
//! the pre-built constants.

use ossaudio::sys;

fn parts(code: u32) -> (u32, u32, u32, u32) {
    (
        sys::code_dir(code),
        sys::code_size(code),
        sys::code_group(code),
        sys::code_seq(code),
    )
}

#[test]
fn roundtrip_void() {
    let c = sys::ioc_void(0x50, 7);
    assert_eq!(parts(c), (sys::OSSIOC_VOID, 0, 0x50, 7));
}

#[test]
fn roundtrip_read() {
    let c = sys::ioc_read(0x58, 1, 1248);
    assert_eq!(parts(c), (sys::OSSIOC_OUT, 1248, 0x58, 1));
}

#[test]
fn roundtrip_read_write() {
    let c = sys::ioc_read_write(0x50, 6, 4);
    assert_eq!(parts(c), (sys::OSSIOC_INOUT, 4, 0x50, 6));
}

#[test]
fn roundtrip_extreme_fields() {
    let c = sys::ioc_read_write(0xff, 0xff, 0x1fff);
    assert_eq!(parts(c), (sys::OSSIOC_INOUT, 0x1fff, 0xff, 0xff));
}

#[test]
fn command_code_values() {
    assert_eq!(sys::SNDCTL_SYSINFO, 0x24E0_5801);
    assert_eq!(sys::SNDCTL_AUDIOINFO, 0x649C_5807);
    assert_eq!(sys::SNDCTL_MIXERINFO, 0x6470_580A);
    assert_eq!(sys::SNDCTL_CARDINFO, 0x6498_580B);
    assert_eq!(sys::SNDCTL_DSP_HALT, 0x0000_5000);
    assert_eq!(sys::SNDCTL_DSP_SYNC, 0x0000_5001);
    assert_eq!(sys::SNDCTL_DSP_SPEED, 0x6004_5002);
    assert_eq!(sys::SNDCTL_DSP_SETFMT, 0x6004_5005);
    assert_eq!(sys::SNDCTL_DSP_CHANNELS, 0x6004_5006);
    assert_eq!(sys::SNDCTL_DSP_GETFMTS, 0x2004_500B);
    assert_eq!(sys::SNDCTL_DSP_GETOSPACE, 0x2010_500C);
    assert_eq!(sys::SNDCTL_DSP_GETISPACE, 0x2010_500D);
    assert_eq!(sys::SNDCTL_DSP_GETODELAY, 0x2004_5017);
    assert_eq!(sys::SNDCTL_DSP_GETPLAYVOL, 0x2004_5018);
    assert_eq!(sys::SNDCTL_DSP_SETPLAYVOL, 0x6004_5018);
    assert_eq!(sys::SNDCTL_DSP_GETERROR, 0x2068_5019);
    assert_eq!(sys::SNDCTL_DSP_HALT_INPUT, 0x0000_5021);
    assert_eq!(sys::SNDCTL_DSP_HALT_OUTPUT, 0x0000_5022);
    assert_eq!(sys::OSS_GETVERSION, 0x2004_4D76);
}

#[test]
fn command_code_directions() {
    assert_eq!(sys::code_dir(sys::SNDCTL_SYSINFO), sys::OSSIOC_OUT);
    assert_eq!(sys::code_dir(sys::SNDCTL_AUDIOINFO), sys::OSSIOC_INOUT);
    assert_eq!(sys::code_dir(sys::SNDCTL_DSP_HALT), sys::OSSIOC_VOID);
    assert_eq!(sys::code_dir(sys::SNDCTL_DSP_SPEED), sys::OSSIOC_INOUT);
    assert_eq!(sys::code_dir(sys::OSS_GETVERSION), sys::OSSIOC_OUT);
}

#[test]
fn command_code_groups_and_sequences() {
    assert_eq!(sys::code_group(sys::SNDCTL_SYSINFO), sys::GROUP_SYSTEM);
    assert_eq!(sys::code_seq(sys::SNDCTL_SYSINFO), 1);
    assert_eq!(sys::code_group(sys::SNDCTL_DSP_CHANNELS), sys::GROUP_DSP);
    assert_eq!(sys::code_seq(sys::SNDCTL_DSP_CHANNELS), 6);
    assert_eq!(sys::code_group(sys::OSS_GETVERSION), sys::GROUP_MIXER);
    assert_eq!(sys::code_seq(sys::OSS_GETVERSION), 118);
}
