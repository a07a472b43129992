use il0373::interface::SimBusyPin;
use il0373::interface::SimPin;
use il0373::interface::SimSpi;
use il0373::Builder;
use il0373::Dimensions;
use il0373::Display;
use il0373::Interface;
use il0373::NoDelay;
use il0373::Rotation;
use il0373::SimInterface;

fn full_panel_display() -> Display<SimInterface> {
    let config = Builder::new()
        .dimensions(Dimensions { rows: 296, cols: 160 })
        .build()
        .expect("invalid configuration");
    Display::new(SimInterface::new(0), config)
}

fn init_sequence_bytes() -> Vec<u8> {
    vec![
        0x01, 0x03, 0x00, 0x2B, 0x2B, 0x09, // power setting
        0x06, 0x17, 0x17, 0x17, // booster soft start
        0x04, // power on
        0x00, 0xCF, // panel setting
        0x50, 0x37, // VCOM and data interval: border 0, both planes, V10
        0x30, 0x29, // PLL
        0x82, 0x0A, // VCOM DC
        0x61, 160, 1, 40, // resolution: 160 columns, 296 rows split high/low
    ]
}

#[test]
fn reset_transmits_exact_init_sequence() {
    let mut display = full_panel_display();
    let mut delay = NoDelay;
    display.reset(&mut delay).unwrap();
    assert_eq!(display.interface.sent().clone(), init_sequence_bytes());
}

#[test]
fn deep_sleep_appends_power_down_then_sleep() {
    let mut display = full_panel_display();
    let mut delay = NoDelay;
    display.reset(&mut delay).unwrap();
    let before = display.interface.sent().len();
    display.deep_sleep().unwrap();
    let sent = display.interface.sent().clone();
    let suffix: Vec<u8> = vec![
        0x50, 0x17, // VCOM and data interval: black/white only, V10
        0x82, 0x00, // VCOM DC zero
        0x03, // power off
        0x08, 0xA5, // deep sleep with its fixed check byte
    ];
    assert_eq!(&sent[before..], suffix.as_slice());
}

#[test]
fn signal_update_sends_refresh() {
    let mut display = full_panel_display();
    let mut delay = NoDelay;
    display.reset(&mut delay).unwrap();
    let before = display.interface.sent().len();
    display.signal_update().unwrap();
    let sent = display.interface.sent().clone();
    assert_eq!(&sent[before..], &[0x12]);
}

#[test]
fn dimension_getters_follow_config() {
    let config = Builder::new()
        .dimensions(Dimensions { rows: 212, cols: 104 })
        .rotation(Rotation::Rotate90)
        .build()
        .expect("invalid configuration");
    let display = Display::new(SimInterface::new(0), config);
    assert_eq!(display.rows(), 212);
    assert_eq!(display.cols(), 104);
    assert_eq!(display.rotation(), Rotation::Rotate90);
}

#[test]
fn hardware_interface_clocks_init_sequence_on_the_bus() {
    let spi = SimSpi::new();
    let cs = SimPin { low: false };
    let busy = SimBusyPin;
    let dc = SimPin { low: false };
    let reset = SimPin { low: false };
    let interface = Interface::new(spi, (cs, busy, dc, reset));

    let config = Builder::new()
        .dimensions(Dimensions { rows: 296, cols: 160 })
        .build()
        .expect("invalid configuration");
    let mut display = Display::new(interface, config);
    let mut delay = NoDelay;
    display.reset(&mut delay).unwrap();

    assert_eq!(display.interface.spi.bytes().clone(), init_sequence_bytes());

    let interface = display.interface;
    let (spi, _pins) = interface.release();
    assert_eq!(spi.bytes().clone(), init_sequence_bytes());
}

struct RecordingRawPin;

impl il0373::interface::RawOutPin for RecordingRawPin {
    fn set_low(&mut self) {}

    fn set_high(&mut self) {}
}

struct RecordingRawSpi(Vec<u8>);

impl il0373::interface::RawSpiWrite for RecordingRawSpi {
    type Error = ();

    fn write(&mut self, data: &[u8]) -> Result<(), ()> {
        self.0.extend_from_slice(data);
        Ok(())
    }
}

#[test]
fn tracked_platform_parts_drive_the_interface() {
    let spi = il0373::TrackedSpiWrite::new(RecordingRawSpi(Vec::new()));
    let cs = il0373::TrackedOutPin::new(RecordingRawPin, false);
    let dc = il0373::TrackedOutPin::new(RecordingRawPin, false);
    let reset = il0373::TrackedOutPin::new(RecordingRawPin, false);
    let interface = Interface::new(spi, (cs, SimBusyPin, dc, reset));

    let config = Builder::new()
        .dimensions(Dimensions { rows: 296, cols: 160 })
        .build()
        .expect("invalid configuration");
    let mut display = Display::new(interface, config);
    let mut delay = NoDelay;
    display.reset(&mut delay).unwrap();

    assert_eq!(display.interface.spi.bus.0, init_sequence_bytes());
}

struct FailingRawSpi {
    budget: usize,
}

impl il0373::interface::RawSpiWrite for FailingRawSpi {
    type Error = ();

    fn write(&mut self, data: &[u8]) -> Result<(), ()> {
        if data.len() > self.budget {
            self.budget = 0;
            return Err(());
        }
        self.budget -= data.len();
        Ok(())
    }
}

#[test]
fn transport_failure_is_propagated_verbatim() {
    // Enough budget for the first command byte, not for its arguments.
    let spi = il0373::TrackedSpiWrite::new(FailingRawSpi { budget: 1 });
    let cs = il0373::TrackedOutPin::new(RecordingRawPin, false);
    let dc = il0373::TrackedOutPin::new(RecordingRawPin, false);
    let reset = il0373::TrackedOutPin::new(RecordingRawPin, false);
    let interface = Interface::new(spi, (cs, SimBusyPin, dc, reset));

    let config = Builder::new()
        .dimensions(Dimensions { rows: 296, cols: 160 })
        .build()
        .expect("invalid configuration");
    let mut display = Display::new(interface, config);
    let mut delay = NoDelay;
    assert_eq!(display.reset(&mut delay), Err(()));
}

#[test]
fn hardware_interface_update_writes_planes_on_the_bus() {
    let spi = SimSpi::new();
    let interface = Interface::new(
        spi,
        (
            SimPin { low: false },
            SimBusyPin,
            SimPin { low: false },
            SimPin { low: false },
        ),
    );
    let config = Builder::new()
        .dimensions(Dimensions { rows: 3, cols: 8 })
        .build()
        .expect("invalid configuration");
    let display = Display::new(interface, config);
    let mut graphic =
        il0373::GraphicDisplay::new(display, vec![0x0Fu8; 3], vec![0xF0u8; 3]);
    graphic.update().unwrap();
    assert_eq!(
        graphic.display.interface.spi.bytes().as_slice(),
        &[0x10, 0x0F, 0x0F, 0x0F, 0x13, 0xF0, 0xF0, 0xF0, 0x12]
    );
}
