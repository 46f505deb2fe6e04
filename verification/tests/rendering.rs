use embedded_graphics::draw_target::DrawTarget;
use embedded_graphics::geometry::{OriginDimensions, Point, Size};
use embedded_graphics::mono_font::ascii::FONT_10X20;
use embedded_graphics::mono_font::MonoTextStyle;
use embedded_graphics::pixelcolor::{IntoStorage, Rgb565, RgbColor};
use embedded_graphics::text::Text;
use embedded_graphics::Drawable;
use st7789v_driver::graphics::{Display2in14, Pixel};

/// Takes down what a renderer draws, point by point.
struct Sketch {
    points: Vec<Pixel>,
}

impl OriginDimensions for Sketch {
    fn size(&self) -> Size {
        Size::new(240, 320)
    }
}

impl DrawTarget for Sketch {
    type Color = Rgb565;
    type Error = core::convert::Infallible;

    fn draw_iter<I>(&mut self, pixels: I) -> Result<(), Self::Error>
    where
        I: IntoIterator<Item = embedded_graphics::Pixel<Rgb565>>,
    {
        for embedded_graphics::Pixel(point, color) in pixels {
            self.points.push(Pixel { x: point.x, y: point.y, color: color.into_storage() });
        }
        Ok(())
    }
}

#[test]
fn the_packed_colours_of_the_renderer() {
    assert_eq!(Rgb565::RED.into_storage(), 0xF800);
    assert_eq!(Rgb565::GREEN.into_storage(), 0x07E0);
    assert_eq!(Rgb565::BLUE.into_storage(), 0x001F);
    assert_eq!(Rgb565::BLACK.into_storage(), 0x0000);
    assert_eq!(Rgb565::WHITE.into_storage(), 0xFFFF);
}

#[test]
fn a_frame_in_the_renderers_red() {
    let display = Display2in14::new(Rgb565::RED.into_storage());
    assert_eq!(&display.buffer()[..4], &[0xF8, 0x00, 0xF8, 0x00]);
}

#[test]
fn rendered_text_lands_in_the_buffer() {
    let mut sketch = Sketch { points: Vec::new() };
    let style = MonoTextStyle::new(&FONT_10X20, Rgb565::RED);
    Text::new("Hi", Point::new(30, 40), style).draw(&mut sketch).unwrap();
    assert!(!sketch.points.is_empty());
    assert!(sketch.points.iter().all(|p| p.in_frame()));

    let mut display = Display2in14::new(0xFFFF);
    assert_eq!(display.draw_iter(&sketch.points), Ok(()));
    for point in &sketch.points {
        let at = (point.y as usize * 240 + point.x as usize) * 2;
        assert_eq!(&display.buffer()[at..at + 2], &[0xF8, 0x00]);
    }
    let red = display.buffer().chunks(2).filter(|p| *p == [0xF8, 0x00]).count();
    let white = display.buffer().chunks(2).filter(|p| *p == [0xFF, 0xFF]).count();
    assert!(red > 0);
    assert_eq!(red + white, 240 * 320);
}

#[test]
fn text_stays_in_its_cells() {
    let mut sketch = Sketch { points: Vec::new() };
    let style = MonoTextStyle::new(&FONT_10X20, Rgb565::BLACK);
    Text::new("AB", Point::new(0, 20), style).draw(&mut sketch).unwrap();
    let mut display = Display2in14::new(0xFFFF);
    assert_eq!(display.draw_iter(&sketch.points), Ok(()));
    for y in 0..320usize {
        for x in 0..240usize {
            let at = (y * 240 + x) * 2;
            if x >= 20 || y >= 40 {
                assert_eq!(&display.buffer()[at..at + 2], &[0xFF, 0xFF]);
            }
        }
    }
}

#[test]
fn a_point_off_the_buffer_is_told_apart() {
    assert!(Pixel { x: 239, y: 319, color: 0 }.in_frame());
    assert!(Pixel { x: 0, y: 0, color: 0 }.in_frame());
    assert!(!Pixel { x: 0, y: 320, color: 0 }.in_frame());
    assert!(!Pixel { x: -1, y: 319, color: 0 }.in_frame());
    assert!(Pixel { x: 240, y: 0, color: 0 }.in_frame());
    assert!(!Pixel { x: 240, y: 319, color: 0 }.in_frame());
}
