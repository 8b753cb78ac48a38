use vstd::prelude::*;

verus! {

/// Device type of the RetroPad.
pub const DEVICE_JOYPAD: u32 = 1;

/// Device type of the analog RetroPad.
pub const DEVICE_ANALOG: u32 = 5;

/// Analog index of the left stick.
pub const DEVICE_INDEX_ANALOG_LEFT: u32 = 0;

/// Analog index of the right stick.
pub const DEVICE_INDEX_ANALOG_RIGHT: u32 = 1;

/// Id of a stick's horizontal axis.
pub const DEVICE_ID_ANALOG_X: u32 = 0;

/// Id of a stick's vertical axis.
pub const DEVICE_ID_ANALOG_Y: u32 = 1;

/// Id that asks the RetroPad for the bit mask of all pressed buttons.
pub const DEVICE_ID_JOYPAD_MASK: u32 = 256;

/// The pixel formats a core may render in.
#[derive(Clone, Copy, Debug, PartialEq, Eq, Structural)]
pub enum PixelFormat {
    ARGB1555,
    ARGB8888,
    RGB565,
}

/// Bytes per pixel of a core's pixel format.
pub fn bytes_per_pixel_from_libretro(pf: PixelFormat) -> (r: u32)
    ensures
        pf == PixelFormat::ARGB8888 ==> r == 4,
        pf != PixelFormat::ARGB8888 ==> r == 2,
{
    match pf {
        PixelFormat::ARGB1555 | PixelFormat::RGB565 => 2,
        PixelFormat::ARGB8888 => 4,
    }
}

} // verus!
