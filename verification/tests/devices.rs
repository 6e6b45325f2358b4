//! The PCI scan and the Bochs adapter.

use vga::devices::pci::{find_pci_device, read_device, read_offset, PciEntry, BOCHS_ID};
use vga::devices::{BochsDevice, PciConfigSpace, Resolution};
use vga::drawing::Rectangle;

fn bochs_entry(bus: u32, slot: u32, function: u32, bar0: u32) -> PciEntry {
    let mut config = vec![0u32; 16];
    config[0] = BOCHS_ID;
    config[1] = 0x0010_0003;
    config[2] = 0x0300_0000;
    config[4] = bar0;
    PciEntry { bus, slot, function, config }
}

#[test]
fn absent_function_reads_all_ones() {
    let space = PciConfigSpace::new();
    let address = (3u32 << 16) | (4 << 11) | (5 << 8) | 0x8000_0000;
    assert_eq!(read_offset(&space, address, 0x10), 0xFFFF_FFFF);
}

#[test]
fn find_pci_device_returns_first_match() {
    let mut space = PciConfigSpace::new();
    space.push_device(bochs_entry(1, 2, 0, 0xFD00_0008));
    space.push_device(bochs_entry(0, 3, 1, 0xFE00_0000));
    let found = find_pci_device(&space, BOCHS_ID).unwrap();
    // Scan order is bus-major: (0, 3, 1) comes before (1, 2, 0).
    assert_eq!(found.base_addresses[0], 0xFE00_0000);
    assert_eq!(found.vendor_id, 0x1234);
    assert_eq!(found.device_id, 0x1111);
    assert_eq!(found.base_class, 0x03);
}

#[test]
fn find_pci_device_reports_absence() {
    let mut space = PciConfigSpace::new();
    space.push_device(bochs_entry(0, 0, 0, 0));
    assert!(find_pci_device(&space, 0xDEAD_BEEF).is_none());
}

#[test]
fn read_device_decodes_the_header() {
    let mut space = PciConfigSpace::new();
    let mut entry = bochs_entry(0, 2, 0, 0xFD00_0000);
    entry.config[3] = 0x0080_4010;
    entry.config[15] = 0x0102_030A;
    space.push_device(entry);
    let address = (2u32 << 11) | 0x8000_0000;
    let d = read_device(&space, address);
    assert_eq!(d.cache_line_size, 0x10);
    assert_eq!(d.latency_timer, 0x40);
    assert_eq!(d.header_type, 0x80);
    assert_eq!(d.bist, 0x00);
    assert_eq!(d.interrupt_line, 0x0A);
    assert_eq!(d.interrupt_pin, 0x03);
    assert_eq!(d.minimum_grant, 0x02);
    assert_eq!(d.maximum_latency, 0x01);
}

#[test]
fn bochs_masks_bar0_for_the_frame_buffer_base() {
    let mut space = PciConfigSpace::new();
    space.push_device(bochs_entry(0, 2, 0, 0xFD00_000C));
    let device = BochsDevice::new(&space, Resolution::new(2560, 1600));
    assert_eq!(device.physical_address(), 0xFD00_0000);
    assert_eq!(device.virtual_address(), 0xFD00_0000);
}

#[test]
fn bochs_capabilities_preserves_the_enable_register() {
    let mut space = PciConfigSpace::new();
    space.push_device(bochs_entry(0, 2, 0, 0xFD00_0000));
    let mut device = BochsDevice::new(&space, Resolution::new(2560, 1600));
    device.set_resolution(Resolution::new(640, 400));
    let caps = device.capabilities();
    assert_eq!(caps, Resolution::new(2560, 1600));
    // The enable register still holds enable-with-linear-frame-buffer.
    assert_eq!(device.enable, 0x41);
    assert_eq!(device.current_resolution(), Resolution::new(640, 400));
}

#[test]
fn bochs_set_resolution_programs_the_registers() {
    let mut space = PciConfigSpace::new();
    space.push_device(bochs_entry(0, 2, 0, 0xFD00_0000));
    let mut device = BochsDevice::new(&space, Resolution::new(2560, 1600));
    device.set_resolution(Resolution::new(800, 600));
    assert_eq!(device.xres, 800);
    assert_eq!(device.yres, 600);
    assert_eq!(device.bpp, 0x20);
    assert_eq!(device.enable, 0x41);
    assert_eq!(device.get_frame_buffer().len(), 800 * 600);
}

#[test]
fn bochs_drawing() {
    let mut space = PciConfigSpace::new();
    space.push_device(bochs_entry(0, 2, 0, 0xFD00_0000));
    let mut device = BochsDevice::new(&space, Resolution::new(2560, 1600));
    device.set_resolution(Resolution::new(320, 200));
    device.clear_screen(0x0000_FF00);
    assert_eq!(device.get_frame_buffer()[0], 0x0000_FF00);
    device.set_pixel(10, 3, 0x00AB_CDEF);
    assert_eq!(device.get_frame_buffer()[3 * 320 + 10], 0x00AB_CDEF);
    device.draw_line((0, 0), (5, 3), 7);
    assert_eq!(device.get_frame_buffer()[1], 7);
    assert_eq!(device.get_frame_buffer()[320 + 2], 7);
    device.fill_rectangle(&Rectangle::new(100, 100, 4, 2), 9);
    assert_eq!(device.get_frame_buffer()[101 * 320 + 103], 9);
    assert_eq!(device.get_frame_buffer()[101 * 320 + 104], 0x0000_FF00);
    device.draw_rectangle(&Rectangle::new(10, 10, 5, 5), 3);
    assert_eq!(device.get_frame_buffer()[10 * 320 + 10], 3);
    assert_eq!(device.get_frame_buffer()[15 * 320 + 15], 3);
}

#[test]
fn bochs_rectangle_paints_outline_only() {
    let mut space = PciConfigSpace::new();
    space.push_device(bochs_entry(0, 2, 0, 0xFD00_0000));
    let mut device = BochsDevice::new(&space, Resolution::new(2560, 1600));
    device.set_resolution(Resolution::new(320, 200));
    device.clear_screen(1);
    // Corners (10, 10) and (15, 15): edges on columns 10 and 15, rows 10 and 15.
    device.draw_rectangle(&Rectangle::new(10, 10, 5, 5), 3);
    // One point in the middle of each edge.
    assert_eq!(device.get_frame_buffer()[12 * 320 + 10], 3);
    assert_eq!(device.get_frame_buffer()[12 * 320 + 15], 3);
    assert_eq!(device.get_frame_buffer()[10 * 320 + 12], 3);
    assert_eq!(device.get_frame_buffer()[15 * 320 + 12], 3);
    // The interior and the surroundings keep the cleared color.
    assert_eq!(device.get_frame_buffer()[12 * 320 + 12], 1);
    assert_eq!(device.get_frame_buffer()[14 * 320 + 11], 1);
    assert_eq!(device.get_frame_buffer()[12 * 320 + 16], 1);
    assert_eq!(device.get_frame_buffer()[9 * 320 + 10], 1);
}
