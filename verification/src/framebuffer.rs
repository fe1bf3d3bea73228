//! The 320x240 frame buffer in PSRAM.
use embedded_graphics_core::pixelcolor::Rgb565;
use vstd::prelude::*;

verus! {

/// Pixels of the 320x240 frame buffer.
pub const LCD_BUFFER_SIZE: usize = 320 * 240;

/// `embedded_graphics_core::pixelcolor::Rgb565`, a pixel color. Nothing is claimed of it:
/// the frame buffer stores colors and hands them back.
#[verifier::external_type_specification]
#[verifier::external_body]
pub struct ExRgb565(Rgb565);

/// A frame buffer over borrowed pixels.
pub struct PSRAMFrameBuffer<'a> {
    pub buf: &'a mut [Rgb565; LCD_BUFFER_SIZE],
}

impl<'a> PSRAMFrameBuffer<'a> {
    /// The pixels, row by row.
    pub open spec fn view(&self) -> Seq<Rgb565> {
        self.buf@
    }

    /// A frame buffer over `buf`: it shows what `buf` holds, and what it shows in the end
    /// is what `buf` holds afterwards.
    pub fn new(buf: &'a mut [Rgb565; LCD_BUFFER_SIZE]) -> (fb: Self)
        ensures
            fb@ == old(buf)@,
            fb@.len() == LCD_BUFFER_SIZE,
            *final(buf) == *final(fb.buf),
    {
        Self { buf }
    }

    /// Sets one pixel.
    pub fn set(&mut self, index: usize, color: Rgb565)
        requires
            index < LCD_BUFFER_SIZE,
        ensures
            final(self)@ == old(self)@.update(index as int, color),
            *final(final(self).buf) == *final(old(self).buf),
    {
        self.buf[index] = color;
    }

    /// Returns one pixel.
    pub fn get(&self, index: usize) -> (color: Rgb565)
        requires
            index < LCD_BUFFER_SIZE,
        ensures
            color == self@[index as int],
    {
        self.buf[index]
    }

    /// Number of pixels.
    pub fn nr_elements(&self) -> (n: usize)
        ensures
            n == LCD_BUFFER_SIZE,
            n == self@.len(),
    {
        LCD_BUFFER_SIZE
    }
}

/// A pixel reads back the color it was last set to, and setting it changes no other pixel.
pub proof fn law_set_then_get(before: Seq<Rgb565>, index: int, color: Rgb565, other: int)
    requires
        before.len() == LCD_BUFFER_SIZE,
        0 <= index < LCD_BUFFER_SIZE,
        0 <= other < LCD_BUFFER_SIZE,
    ensures
        before.update(index, color)[index] == color,
        other != index ==> before.update(index, color)[other] == before[other],
{
}

} // verus!
