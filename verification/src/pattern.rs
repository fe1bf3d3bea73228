//! The test patterns that a panel shows before the first frame is rendered.
use embedded_graphics_core::pixelcolor::{IntoStorage, Rgb565};
use vstd::prelude::*;

verus! {

/// Red at full intensity, as RGB565: five bits red, six green, five blue.
pub const RED: u16 = 0xF800;

/// Green at full intensity, as RGB565.
pub const GREEN: u16 = 0x07E0;

/// Blue at full intensity, as RGB565.
pub const BLUE: u16 = 0x001F;

/// Pixels of the 480x480 panel.
pub const QUADRANT_PIXELS: usize = 480 * 480;

/// Pixels of the 320x240 panel.
pub const GRADIENT_PIXELS: usize = 320 * 240;

/// The RGB565 value of a color: the low five bits of red, the low six of green and the low
/// five of blue, from the most significant bit down.
pub open spec fn rgb565_value(r: u8, g: u8, b: u8) -> int {
    (r % 32) * 2048 + (g % 64) * 32 + b % 32
}

/// The storage value of the color that `embedded_graphics_core::pixelcolor::Rgb565::new`
/// makes of three channels, as `IntoStorage::into_storage` gives it. What is trusted: a
/// channel that is too large loses its most significant bits, and the storage value holds
/// red in its upper five bits, green in the six below and blue in the lowest five.
#[verifier::external_body]
fn rgb565(r: u8, g: u8, b: u8) -> (value: u16)
    ensures
        value == rgb565_value(r, g, b),
{
    Rgb565::new(r, g, b).into_storage()
}

/// The color of the quadrant pattern at column `x` of row `y`: red in the upper left
/// quarter, green in the upper right, blue in the lower half.
pub open spec fn quadrant_color(x: int, y: int) -> u16 {
    if y >= 240 {
        BLUE
    } else if x < 240 {
        RED
    } else {
        GREEN
    }
}

/// The color of the gradient pattern at column `x` of row `y`: green grows from left to
/// right, blue from top to bottom.
pub open spec fn gradient_color(x: int, y: int) -> int {
    (x * 63 / 320) * 32 + y * 31 / 240
}

/// The pixel at column `x` of row `y` in a picture of this width, row by row.
pub open spec fn pixel(pixels: Seq<u16>, width: int, x: int, y: int) -> u16 {
    pixels[y * width + x]
}

/// The 480x480 quadrant pattern, row by row.
pub fn quadrant_pattern() -> (pixels: Vec<u16>)
    ensures
        pixels@.len() == 480 * 480,
        forall|i: int|
            0 <= i < 480 * 480 ==> #[trigger] pixels@[i] == quadrant_color(i % 480, i / 480),
        forall|x: int, y: int|
            0 <= x < 480 && 0 <= y < 480 ==> #[trigger] pixel(pixels@, 480, x, y)
                == quadrant_color(x, y),
{
    let mut pixels: Vec<u16> = Vec::with_capacity(QUADRANT_PIXELS);
    let mut i: usize = 0;
    while i < QUADRANT_PIXELS
        invariant
            i <= 480 * 480,
            pixels@.len() == i,
            forall|k: int|
                0 <= k < i ==> #[trigger] pixels@[k] == quadrant_color(k % 480, k / 480),
        decreases 480 * 480 - i,
    {
        let x: usize = i % 480;
        let y: usize = i / 480;
        let color: u16 = if x < 480 / 2 && y < 480 / 2 {
            RED
        } else if x >= 480 / 2 && y < 480 / 2 {
            GREEN
        } else {
            BLUE
        };
        pixels.push(color);
        i = i + 1;
    }
    assert forall|x: int, y: int| 0 <= x < 480 && 0 <= y < 480 implies #[trigger] pixel(
        pixels@,
        480,
        x,
        y,
    ) == quadrant_color(x, y) by {
        let at: int = y * 480 + x;
        assert(at % 480 == x && at / 480 == y);
        assert(pixels@[at] == quadrant_color(at % 480, at / 480));
    }
    pixels
}

/// The 320x240 gradient pattern, row by row.
pub fn gradient_pattern() -> (pixels: Vec<u16>)
    ensures
        pixels@.len() == 320 * 240,
        forall|i: int|
            0 <= i < 320 * 240 ==> #[trigger] pixels@[i] == gradient_color(i % 320, i / 320),
        forall|x: int, y: int|
            0 <= x < 320 && 0 <= y < 240 ==> #[trigger] pixel(pixels@, 320, x, y)
                == gradient_color(x, y),
{
    let mut pixels: Vec<u16> = Vec::with_capacity(GRADIENT_PIXELS);
    let mut i: usize = 0;
    while i < GRADIENT_PIXELS
        invariant
            i <= 320 * 240,
            pixels@.len() == i,
            forall|k: int|
                0 <= k < i ==> #[trigger] pixels@[k] == gradient_color(k % 320, k / 320),
        decreases 320 * 240 - i,
    {
        let x: usize = i % 320;
        let y: usize = i / 320;
        let g: u8 = (x * 63 / 320) as u8;
        let b: u8 = (y * 31 / 240) as u8;
        pixels.push(rgb565(0, g, b));
        i = i + 1;
    }
    assert forall|x: int, y: int| 0 <= x < 320 && 0 <= y < 240 implies #[trigger] pixel(
        pixels@,
        320,
        x,
        y,
    ) == gradient_color(x, y) by {
        let at: int = y * 320 + x;
        assert(at % 320 == x && at / 320 == y);
        assert(pixels@[at] == gradient_color(at % 320, at / 320));
    }
    pixels
}

/// The gradient has no red, and neither of its channels runs over: the top left pixel is
/// black, and green and blue never fall along a row and a column.
pub proof fn law_gradient_grows(x1: int, y1: int, x2: int, y2: int)
    requires
        0 <= x1 <= x2 < 320,
        0 <= y1 <= y2 < 240,
    ensures
        gradient_color(0, 0) == 0,
        0 <= gradient_color(x1, y1) < 2048,
        gradient_color(x1, y1) / 32 <= gradient_color(x2, y2) / 32,
        gradient_color(x1, y1) % 32 <= gradient_color(x2, y2) % 32,
{
    lemma_gradient_channels(x1, y1);
    lemma_gradient_channels(x2, y2);
    assert(x1 * 63 / 320 <= x2 * 63 / 320);
    assert(y1 * 31 / 240 <= y2 * 31 / 240);
}

/// The channels of the gradient.
proof fn lemma_gradient_channels(x: int, y: int)
    requires
        0 <= x < 320,
        0 <= y < 240,
    ensures
        0 <= gradient_color(x, y) < 2048,
        gradient_color(x, y) / 32 == x * 63 / 320,
        gradient_color(x, y) % 32 == y * 31 / 240,
{
    let g = x * 63 / 320;
    let b = y * 31 / 240;
    assert(0 <= g < 63 && 0 <= b < 31);
    assert(gradient_color(x, y) == g * 32 + b);
}

/// The picture of the quadrant pattern: full red above and left of the middle, full green
/// above and right of it, full blue below.
pub proof fn law_quadrants(x: int, y: int)
    requires
        0 <= x < 480,
        0 <= y < 480,
    ensures
        x < 240 && y < 240 ==> quadrant_color(x, y) == 0xF800,
        x >= 240 && y < 240 ==> quadrant_color(x, y) == 0x07E0,
        y >= 240 ==> quadrant_color(x, y) == 0x001F,
{
}

/// The picture of the gradient pattern: no red; green is the column's share of 63 over the
/// width, blue the row's share of 31 over the height, each rounded down.
pub proof fn law_gradient_is_proportional(x: int, y: int)
    requires
        0 <= x < 320,
        0 <= y < 240,
    ensures
        ({
            let color = gradient_color(x, y);
            let red = color / 2048;
            let green = (color / 32) % 64;
            let blue = color % 32;
            &&& red == 0
            &&& green * 320 <= x * 63 < (green + 1) * 320
            &&& blue * 240 <= y * 31 < (blue + 1) * 240
        }),
{
    lemma_gradient_channels(x, y);
}

/// A picture is stored row by row: the next pixel of a row is the next one stored, and the
/// pixel below is one row further.
pub proof fn law_rows_follow_each_other(pixels: Seq<u16>, width: int, x: int, y: int)
    requires
        width > 0,
    ensures
        pixel(pixels, width, 0, 0) == pixels[0],
        pixel(pixels, width, x + 1, y) == pixels[(y * width + x) + 1],
        pixel(pixels, width, x, y + 1) == pixels[(y * width + x) + width],
{
    assert((y + 1) * width == y * width + width) by (nonlinear_arith);
    assert(0 * width == 0) by (nonlinear_arith);
}

} // verus!
