//! Mode-switch readback: after programming a mode, every register in
//! its table reads back as written, whatever state the adapter was in.

use vga::configurations::get_configuration;
use vga::registers::EmulationMode;
use vga::vga::{Vga, VideoMode};

fn emulation_mode(vga: &mut Vga) -> EmulationMode {
    vga.get_emulation_mode()
}

fn check_registers(vga: &mut Vga, mode: VideoMode) {
    let configuration = get_configuration(mode);
    let em = emulation_mode(vga);
    assert_eq!(vga.general_registers.read_msr(), configuration.miscellaneous_output);
    for k in 0..configuration.sequencer_registers.len() {
        let (index, value) = configuration.sequencer_registers[k];
        assert_eq!(vga.sequencer_registers.read_at(index), value);
    }
    for k in 0..configuration.crtc_controller_registers.len() {
        let (index, value) = configuration.crtc_controller_registers[k];
        assert_eq!(vga.crtc_controller_registers.read_at(em, index), value);
    }
    for k in 0..configuration.graphics_controller_registers.len() {
        let (index, value) = configuration.graphics_controller_registers[k];
        assert_eq!(vga.graphics_controller_registers.read_at(index), value);
    }
    for k in 0..configuration.attribute_controller_registers.len() {
        let (index, value) = configuration.attribute_controller_registers[k];
        assert_eq!(vga.attribute_controller_registers.read_at(em, index), value);
    }
}

#[test]
fn set_mode_40x25() {
    let mut vga = Vga::new();
    vga.set_video_mode(VideoMode::Mode40x25);
    check_registers(&mut vga, VideoMode::Mode40x25);
}

#[test]
fn set_mode_40x50() {
    let mut vga = Vga::new();
    vga.set_video_mode(VideoMode::Mode40x50);
    check_registers(&mut vga, VideoMode::Mode40x50);
}

#[test]
fn set_mode_80x25() {
    let mut vga = Vga::new();
    vga.set_video_mode(VideoMode::Mode80x25);
    check_registers(&mut vga, VideoMode::Mode80x25);
}

#[test]
fn set_mode_640x480x16() {
    let mut vga = Vga::new();
    vga.set_video_mode(VideoMode::Mode640x480x16);
    check_registers(&mut vga, VideoMode::Mode640x480x16);
}

#[test]
fn set_mode_from_dirty_state() {
    // Programming a mode must work from any prior state, including one
    // left by another mode with CRTC protection re-enabled.
    let mut vga = Vga::new();
    vga.set_video_mode(VideoMode::Mode320x240x256);
    vga.set_video_mode(VideoMode::Mode80x25);
    check_registers(&mut vga, VideoMode::Mode80x25);
}

#[test]
fn emulation_mode_follows_miscellaneous_output() {
    let mut vga = Vga::new();
    vga.set_video_mode(VideoMode::Mode80x25);
    // 0x67 has bit 0 set: color emulation.
    assert_eq!(vga.get_emulation_mode(), EmulationMode::Cga);
    vga.general_registers.write_msr(0x66);
    assert_eq!(vga.get_emulation_mode(), EmulationMode::Mda);
}

#[test]
fn most_recent_video_mode_is_recorded() {
    let mut vga = Vga::new();
    assert_eq!(vga.get_most_recent_video_mode(), None);
    vga.set_video_mode(VideoMode::Mode320x200x256);
    assert_eq!(vga.get_most_recent_video_mode(), Some(VideoMode::Mode320x200x256));
}
