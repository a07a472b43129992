use il0373::Builder;
use il0373::Color;
use il0373::Dimensions;
use il0373::Display;
use il0373::GraphicDisplay;
use il0373::Rotation;
use il0373::SimInterface;

const ROWS: u16 = 3;
const COLS: u8 = 8;
const BUFFER_SIZE: usize = (ROWS * COLS as u16) as usize / 8;

fn build_mock_display() -> Display<SimInterface> {
    build_rotated_display(ROWS, COLS, Rotation::Rotate0)
}

fn build_rotated_display(rows: u16, cols: u8, rotation: Rotation) -> Display<SimInterface> {
    let interface = SimInterface::new(0);
    let dimensions = Dimensions { rows, cols };

    let config = Builder::new()
        .dimensions(dimensions)
        .rotation(rotation)
        .build()
        .expect("invalid config");
    Display::new(interface, config)
}

fn plane_bytes(rows: u16, cols: u8) -> Vec<u8> {
    vec![0u8; (rows as usize * cols as usize) / 8]
}

#[test]
fn rotation_0() {
    let rotation_data: [(u32, u32, u32, u8); 8] = [
        (0, 0, 0, 0x80),
        (103, 0, 12, 0x1),
        (103, 211, 2755, 0x1),
        (0, 211, 2743, 0x80),
        (1, 0, 0, 0x40),
        (2, 0, 0, 0x20),
        (3, 0, 0, 0x10),
        (4, 0, 0, 0x8),
    ];
    for (x, y, index, bit) in rotation_data.iter() {
        assert_eq!(
            (*index, *bit),
            il0373::rotation(*x, *y, 104, 212, Rotation::Rotate0)
        );
    }
}

#[test]
fn rotation_270() {
    let rotation_data: [(u32, u32, u32, u8); 8] = [
        (0, 0, 2743, 0x80),
        (211, 0, 0, 0x80),
        (211, 103, 12, 0x1),
        (0, 103, 2755, 0x1),
        (7, 0, 2652, 0x80),
        (0, 1, 2743, 0x40),
        (0, 2, 2743, 0x20),
        (1, 8, 2731, 0x80),
    ];
    for (x, y, index, bit) in rotation_data.iter() {
        assert_eq!(
            (*index, *bit),
            il0373::rotation(*x, *y, 104, 212, Rotation::Rotate270)
        );
    }
}

#[test]
fn clear_white() {
    let black_buffer = [0u8; BUFFER_SIZE];
    let red_buffer = [0u8; BUFFER_SIZE];

    let mut display = GraphicDisplay::new(
        build_mock_display(),
        black_buffer.to_vec(),
        red_buffer.to_vec(),
    );
    display.clear(Color::White);

    assert_eq!(display.black_buffer.as_slice(), &[0xFF, 0xFF, 0xFF]);
    assert_eq!(display.red_buffer.as_slice(), &[0xFF, 0xFF, 0xFF]);
}

#[test]
fn clear_black() {
    let black_buffer = [0u8; BUFFER_SIZE];
    let red_buffer = [0u8; BUFFER_SIZE];

    let mut display = GraphicDisplay::new(
        build_mock_display(),
        black_buffer.to_vec(),
        red_buffer.to_vec(),
    );
    display.clear(Color::Black);

    assert_eq!(display.black_buffer.as_slice(), &[0x00, 0x00, 0x00]);
    assert_eq!(display.red_buffer.as_slice(), &[0xFF, 0xFF, 0xFF]);
}

#[test]
fn clear_red() {
    let black_buffer = [0u8; BUFFER_SIZE];
    let red_buffer = [0u8; BUFFER_SIZE];

    let mut display = GraphicDisplay::new(
        build_mock_display(),
        black_buffer.to_vec(),
        red_buffer.to_vec(),
    );
    display.clear(Color::Red);

    assert_eq!(display.black_buffer.as_slice(), &[0xFF, 0xFF, 0xFF]);
    assert_eq!(display.red_buffer.as_slice(), &[0x00, 0x00, 0x00]);
}

/// A pixel color for the embedded-graphics primitives used below; the
/// library's own `Color` cannot implement the foreign `PixelColor` trait
/// from this test crate.
#[derive(Clone, Copy, PartialEq, Debug)]
enum TestColor {
    Black,
    White,
    Red,
}

impl embedded_graphics::pixelcolor::PixelColor for TestColor {
    type Raw = ();
}

fn to_color(c: TestColor) -> Color {
    match c {
        TestColor::Black => Color::Black,
        TestColor::White => Color::White,
        TestColor::Red => Color::Red,
    }
}

/// Adapts a `GraphicDisplay` to the embedded-graphics `DrawTarget` trait,
/// forwarding each pixel to `set_pixel`.
struct Canvas<'a>(&'a mut GraphicDisplay<SimInterface>);

impl embedded_graphics::geometry::OriginDimensions for Canvas<'_> {
    fn size(&self) -> embedded_graphics::geometry::Size {
        let (width, height) = self.0.size();
        embedded_graphics::geometry::Size::new(width, height)
    }
}

impl embedded_graphics::draw_target::DrawTarget for Canvas<'_> {
    type Color = TestColor;
    type Error = core::convert::Infallible;

    fn draw_iter<I>(&mut self, pixels: I) -> Result<(), Self::Error>
    where
        I: IntoIterator<Item = embedded_graphics::Pixel<Self::Color>>,
    {
        for embedded_graphics::Pixel(point, color) in pixels {
            self.0.set_pixel(point.x as u32, point.y as u32, to_color(color));
        }
        Ok(())
    }
}

fn draw_stroked_rect_3x3(display: &mut GraphicDisplay<SimInterface>) {
    let style = embedded_graphics::primitives::PrimitiveStyleBuilder::new()
        .stroke_color(TestColor::White)
        .stroke_width(1)
        .build();
    let rect = embedded_graphics::primitives::Rectangle::new(
        embedded_graphics::geometry::Point::new(0, 0),
        embedded_graphics::geometry::Size::new(3, 3),
    );
    embedded_graphics::primitives::StyledDrawable::draw_styled(
        &rect,
        &style,
        &mut Canvas(display),
    )
    .unwrap();
}

#[test]
fn draw_rect_white() {
    let mut display = GraphicDisplay::new(
        build_mock_display(),
        vec![0u8; BUFFER_SIZE],
        vec![0u8; BUFFER_SIZE],
    );
    draw_stroked_rect_3x3(&mut display);

    assert_eq!(
        display.black_buffer.as_slice(),
        &[0b11100000, 0b10100000, 0b11100000]
    );

    assert_eq!(
        display.red_buffer.as_slice(),
        &[0b11100000, 0b10100000, 0b11100000]
    );
}

#[test]
fn draw_rect_red() {
    let mut display = GraphicDisplay::new(
        build_mock_display(),
        vec![0u8; BUFFER_SIZE],
        vec![0u8; BUFFER_SIZE],
    );
    draw_stroked_rect_3x3(&mut display);

    assert_eq!(
        display.black_buffer.as_slice(),
        &[0b11100000, 0b10100000, 0b11100000]
    );

    assert_eq!(
        display.red_buffer.as_slice(),
        &[0b11100000, 0b10100000, 0b11100000]
    );
}

#[test]
fn draw_rect_redraw_is_idempotent() {
    let mut display = GraphicDisplay::new(
        build_mock_display(),
        vec![0u8; BUFFER_SIZE],
        vec![0u8; BUFFER_SIZE],
    );
    draw_stroked_rect_3x3(&mut display);
    let black_once = display.black_buffer.clone();
    let red_once = display.red_buffer.clone();

    draw_stroked_rect_3x3(&mut display);
    assert_eq!(display.black_buffer, black_once);
    assert_eq!(display.red_buffer, red_once);
}

#[test]
fn set_pixel_get_pixel_round_trip() {
    let rotations = [
        Rotation::Rotate0,
        Rotation::Rotate90,
        Rotation::Rotate180,
        Rotation::Rotate270,
    ];
    let colors = [Color::Black, Color::White, Color::Red];
    for rotation in rotations {
        for color in colors {
            let mut display = GraphicDisplay::new(
                build_rotated_display(16, 24, rotation),
                plane_bytes(16, 24),
                plane_bytes(16, 24),
            );
            display.set_pixel(3, 5, color);
            assert_eq!(display.get_pixel(3, 5), Some(color));
        }
    }
}

#[test]
fn set_pixel_out_of_bounds_is_ignored() {
    let mut display = GraphicDisplay::new(
        build_mock_display(),
        vec![0u8; BUFFER_SIZE],
        vec![0u8; BUFFER_SIZE],
    );
    display.set_pixel(8, 0, Color::White);
    display.set_pixel(0, 3, Color::White);
    assert_eq!(display.black_buffer.as_slice(), &[0x00, 0x00, 0x00]);
    assert_eq!(display.red_buffer.as_slice(), &[0x00, 0x00, 0x00]);
    assert_eq!(display.get_pixel(8, 0), None);
}

#[test]
fn size_swaps_for_quarter_turns() {
    let display = |rotation| {
        GraphicDisplay::new(
            build_rotated_display(ROWS, COLS, rotation),
            vec![0u8; BUFFER_SIZE],
            vec![0u8; BUFFER_SIZE],
        )
    };
    assert_eq!(display(Rotation::Rotate0).size(), (8, 3));
    assert_eq!(display(Rotation::Rotate180).size(), (8, 3));
    assert_eq!(display(Rotation::Rotate90).size(), (3, 8));
    assert_eq!(display(Rotation::Rotate270).size(), (3, 8));
}

#[test]
fn update_transmits_both_planes_then_refresh() {
    let mut display = GraphicDisplay::new(
        build_mock_display(),
        vec![0u8; BUFFER_SIZE],
        vec![0u8; BUFFER_SIZE],
    );
    display.clear(Color::Black);
    display.update().unwrap();

    let sent = display.display.interface.sent().clone();
    let expected: Vec<u8> = vec![
        0x10, 0x00, 0x00, 0x00, // write-black opcode and the black plane
        0x13, 0xFF, 0xFF, 0xFF, // write-red opcode and the red plane
        0x12, // display refresh
    ];
    assert_eq!(sent, expected);
}
