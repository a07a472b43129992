use il0373::interface::SimBusyPin;
use il0373::interface::SimPin;
use il0373::interface::SimSpi;
use il0373::Builder;
use il0373::Color;
use il0373::Dimensions;
use il0373::Display;
use il0373::NoDelay;
use il0373::SimInterface;
use il0373::SpiBus;
use il0373::SramDisplayInterface;
use il0373::SramGraphicDisplay;

fn sim_display(rows: u16, cols: u8, sram_size: u16) -> SramGraphicDisplay<SimInterface> {
    let config = Builder::new()
        .dimensions(Dimensions { rows, cols })
        .build()
        .expect("invalid configuration");
    SramGraphicDisplay::new(Display::new(SimInterface::new(sram_size), config))
}

#[test]
fn sram_regions_are_fixed_and_disjoint() {
    let display = sim_display(212, 104, 8192);
    // One plane of a 104x212 panel is 104 / 8 * 212 bytes.
    assert_eq!(display.buffer_size, 2756);
    assert_eq!(display.black_address, 0);
    assert_eq!(display.red_address, 2756);
}

#[test]
fn sram_clear_fills_both_regions() {
    let mut display = sim_display(3, 8, 16);
    display.clear(Color::Red).unwrap();
    let mem = display.display.interface.memory().clone();
    assert_eq!(
        mem,
        vec![
            0xFF, 0xFF, 0xFF, // black plane: bit set for red
            0x00, 0x00, 0x00, // red plane: bit clear for red
            0, 0, 0, 0, 0, 0, 0, 0, 0, 0, // memory beyond the planes
        ]
    );
}

#[test]
fn sram_set_pixel_read_modify_writes_both_planes() {
    let mut display = sim_display(3, 8, 16);
    display.set_pixel(0, 0, Color::White).unwrap();
    display.set_pixel(2, 1, Color::Red).unwrap();
    let mem = display.display.interface.memory().clone();
    // White at (0,0): bit 0x80 of byte 0 in both planes. Red at (2,1):
    // bit 0x20 of byte 1 set in the black plane, clear in the red plane.
    assert_eq!(mem[0], 0x80);
    assert_eq!(mem[1], 0x20);
    assert_eq!(mem[3], 0x80);
    assert_eq!(mem[4], 0x00);
}

#[test]
fn sram_set_pixel_out_of_bounds_is_ignored() {
    let mut display = sim_display(3, 8, 16);
    display.set_pixel(8, 0, Color::White).unwrap();
    display.set_pixel(0, 3, Color::White).unwrap();
    assert_eq!(display.display.interface.memory().clone(), vec![0u8; 16]);
}

#[test]
fn sram_update_streams_stored_planes() {
    let mut display = sim_display(3, 8, 16);
    display.clear(Color::Black).unwrap();
    display.update().unwrap();
    let sent = display.display.interface.sent().clone();
    let expected: Vec<u8> = vec![
        0x10, 0x00, 0x00, 0x00, // write-black opcode and the stored black plane
        0x13, 0xFF, 0xFF, 0xFF, // write-red opcode and the stored red plane
        0x12, // display refresh
    ];
    assert_eq!(sent, expected);
}

fn sim_bus() -> SpiBus<SimSpi, SimPin, SimPin> {
    SpiBus::new(
        SimSpi::new(),
        (SimPin { low: false }, SimPin { low: false }),
    )
}

#[test]
fn spi_bus_sram_init_clocks_wake_pattern() {
    let mut bus = sim_bus();
    bus.sram_init().unwrap();
    assert_eq!(bus.spi.bytes().as_slice(), &[0xFF, 0xFF, 0xFF]);
}

#[test]
fn spi_bus_sram_seq_writes_status_register() {
    let mut bus = sim_bus();
    bus.sram_seq().unwrap();
    assert_eq!(bus.spi.bytes().as_slice(), &[0x01, 0x40]);
}

#[test]
fn spi_bus_sram_write_sends_header_then_payload() {
    let mut bus = sim_bus();
    bus.sram_write(0x1234, &[0xAA, 0xBB]).unwrap();
    assert_eq!(bus.spi.bytes().as_slice(), &[0x02, 0x12, 0x34, 0xAA, 0xBB]);
}

#[test]
fn spi_bus_sram_read_sends_header_then_clocks() {
    let mut bus = sim_bus();
    let data = bus.sram_read(0x0102, 2).unwrap();
    assert_eq!(data, vec![0x00, 0x00]);
    assert_eq!(bus.spi.bytes().as_slice(), &[0x03, 0x01, 0x02, 0x00, 0x00]);
}

#[test]
fn spi_bus_sram_erase_repeats_value() {
    let mut bus = sim_bus();
    bus.sram_erase(0x0010, 3, 0xAB).unwrap();
    assert_eq!(
        bus.spi.bytes().as_slice(),
        &[0x02, 0x00, 0x10, 0xAB, 0xAB, 0xAB]
    );
}

#[test]
fn spi_bus_device_to_device_move() {
    let mut bus = sim_bus();
    let first = bus.sram_epd_move_header(0x0005, 0x10).unwrap();
    // The simulated bus shifts zeroes back, so the primed byte is zero and
    // both chip selects are now held.
    assert_eq!(first, 0x00);
    assert!(bus.epd_cs.low);
    assert!(bus.sram_cs.low);
    assert_eq!(bus.spi.bytes().as_slice(), &[0x03, 0x00, 0x05, 0x10]);

    bus.sram_epd_move_body(first, 3).unwrap();
    assert!(!bus.epd_cs.low);
    assert!(!bus.sram_cs.low);
    // The body clocks exactly three more bytes, starting with the primed
    // byte.
    assert_eq!(
        bus.spi.bytes().as_slice(),
        &[0x03, 0x00, 0x05, 0x10, 0x00, 0x00, 0x00]
    );
}

#[test]
fn spi_bus_epd_write_targets_controller() {
    let mut bus = sim_bus();
    bus.epd_write(&[0x12]).unwrap();
    assert!(!bus.epd_cs.low);
    assert_eq!(bus.spi.bytes().as_slice(), &[0x12]);
}

#[test]
fn sram_display_interface_reset_wakes_memory_chip() {
    let interface = SramDisplayInterface::new(
        sim_bus(),
        (SimBusyPin, SimPin { low: false }, SimPin { low: false }),
    );
    let config = Builder::new()
        .dimensions(Dimensions { rows: 3, cols: 8 })
        .build()
        .expect("invalid configuration");
    let mut display = Display::new(interface, config);
    let mut delay = NoDelay;
    display.reset(&mut delay).unwrap();

    let bytes = display.interface.spi_bus.spi.bytes().clone();
    // The memory wake pattern and the sequential-mode status write come
    // first, then the initialization sequence for the controller.
    assert_eq!(&bytes[..5], &[0xFF, 0xFF, 0xFF, 0x01, 0x40]);
    assert_eq!(
        &bytes[5..],
        &[
            0x01, 0x03, 0x00, 0x2B, 0x2B, 0x09, // power setting
            0x06, 0x17, 0x17, 0x17, // booster soft start
            0x04, // power on
            0x00, 0xCF, // panel setting
            0x50, 0x37, // VCOM and data interval
            0x30, 0x29, // PLL
            0x82, 0x0A, // VCOM DC
            0x61, 8, 0, 3, // resolution: 8 columns, 3 rows
        ]
    );
}

#[test]
fn sram_display_interface_streams_plane_from_memory() {
    let interface = SramDisplayInterface::new(
        sim_bus(),
        (SimBusyPin, SimPin { low: false }, SimPin { low: false }),
    );
    let config = Builder::new()
        .dimensions(Dimensions { rows: 3, cols: 8 })
        .build()
        .expect("invalid configuration");
    let mut display = SramGraphicDisplay::new(Display::new(interface, config));
    display.update().unwrap();

    let bytes = display.display.interface.spi_bus.spi.bytes().clone();
    let expected: Vec<u8> = vec![
        0x03, 0x00, 0x00, // read header for the black plane at address 0
        0x10, // write-black opcode clocked to the controller
        0x00, 0x00, 0x00, // three plane bytes, device to device
        0x03, 0x00, 0x03, // read header for the red plane at address 3
        0x13, // write-red opcode
        0x00, 0x00, 0x00, // three plane bytes
        0x12, // display refresh
    ];
    assert_eq!(bytes, expected);
}

#[test]
fn sram_display_interface_pixel_read_modify_write_on_the_bus() {
    let interface = SramDisplayInterface::new(
        sim_bus(),
        (SimBusyPin, SimPin { low: false }, SimPin { low: false }),
    );
    let config = Builder::new()
        .dimensions(Dimensions { rows: 3, cols: 8 })
        .build()
        .expect("invalid configuration");
    let mut display = SramGraphicDisplay::new(Display::new(interface, config));
    display.set_pixel(0, 0, Color::White).unwrap();

    let bytes = display.display.interface.spi_bus.spi.bytes().clone();
    let expected: Vec<u8> = vec![
        0x03, 0x00, 0x00, 0x00, // read one black-plane byte at address 0
        0x03, 0x00, 0x03, 0x00, // read one red-plane byte at address 3
        0x02, 0x00, 0x00, 0x80, // write the black byte back with bit 7 set
        0x02, 0x00, 0x03, 0x80, // write the red byte back with bit 7 set
    ];
    assert_eq!(bytes, expected);
}

#[test]
fn sram_display_interface_clear_erases_both_regions() {
    let interface = SramDisplayInterface::new(
        sim_bus(),
        (SimBusyPin, SimPin { low: false }, SimPin { low: false }),
    );
    let config = Builder::new()
        .dimensions(Dimensions { rows: 3, cols: 8 })
        .build()
        .expect("invalid configuration");
    let mut display = SramGraphicDisplay::new(Display::new(interface, config));
    display.clear(Color::White).unwrap();

    let bytes = display.display.interface.spi_bus.spi.bytes().clone();
    let expected: Vec<u8> = vec![
        0x02, 0x00, 0x00, 0xFF, 0xFF, 0xFF, // fill the black plane
        0x02, 0x00, 0x03, 0xFF, 0xFF, 0xFF, // fill the red plane
    ];
    assert_eq!(bytes, expected);
}
