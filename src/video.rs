use vstd::prelude::*;

use crate::libretro::{bytes_per_pixel_from_libretro, PixelFormat};

verus! {

/// Packs three 8-bit channels into an opaque 32-bit pixel: alpha 0xFF, then
/// `hi`, `mid` and `lo` from the high byte down.
pub open spec fn pack(hi: int, mid: int, lo: int) -> int {
    0xFF00_0000 + hi * 0x1_0000 + mid * 0x100 + lo
}

/// A 5-6-5 pixel widened to 8 bits per channel, red in the low byte and blue
/// in the third.
pub open spec fn rgb565_spec(p: u16) -> u32 {
    pack((p as int % 32) * 255 / 31, ((p as int / 32) % 64) * 255 / 63, (p as int / 2048) * 255 / 31) as u32
}

/// A 1-5-5-5 pixel as this frontend converts it: the low five bits land
/// unscaled in the third byte, bits 8 and 9 in the second, and the five bits
/// at the top of the pixel are not carried over.
pub open spec fn argb1555_spec(p: u16) -> u32 {
    pack(p as int % 32, (p as int / 256) % 4, 0) as u32
}

/// An 8-8-8-8 pixel with its three colour bytes in reverse order and the
/// alpha byte forced opaque.
pub open spec fn argb8888_spec(p: u32) -> u32 {
    pack(p as int % 256, (p as int / 256) % 256, (p as int / 0x1_0000) % 256) as u32
}

/// Converts one `RGB565` pixel.
pub fn convert_rgb565(p: u16) -> (r: u32)
    ensures
        r == rgb565_spec(p),
{
    let red: u32 = (p / 2048) as u32 * 255 / 31;
    let green: u32 = ((p / 32) % 64) as u32 * 255 / 63;
    let blue: u32 = (p % 32) as u32 * 255 / 31;
    0xFF00_0000u32 + blue * 0x1_0000 + green * 0x100 + red
}

/// Converts one `ARGB1555` pixel.
pub fn convert_argb1555(p: u16) -> (r: u32)
    ensures
        r == argb1555_spec(p),
{
    let high: u32 = ((p / 256) % 4) as u32;
    let low: u32 = (p % 32) as u32;
    0xFF00_0000u32 + low * 0x1_0000 + high * 0x100
}

/// Converts one `ARGB8888` pixel.
pub fn convert_argb8888(p: u32) -> (r: u32)
    ensures
        r == argb8888_spec(p),
{
    let red: u32 = (p / 0x1_0000) % 256;
    let green: u32 = (p / 256) % 256;
    let blue: u32 = p % 256;
    0xFF00_0000u32 + blue * 0x1_0000 + green * 0x100 + red
}

/// Row pitch in pixels, from a pitch in bytes.
pub fn pitch_in_pixels(pitch_bytes: u32, format: PixelFormat) -> (r: u32)
    ensures
        format == PixelFormat::ARGB8888 ==> r == pitch_bytes / 4,
        format != PixelFormat::ARGB8888 ==> r == pitch_bytes / 2,
{
    pitch_bytes / bytes_per_pixel_from_libretro(format)
}

/// Converts a frame of 16-bit pixels (`ARGB1555` or `RGB565`) to opaque
/// 32-bit pixels, one for one. For `ARGB8888` use `convert_frame32`; given
/// that format here, every pixel is converted as `RGB565`.
pub fn convert_frame16(format: PixelFormat, src: &Vec<u16>) -> (r: Vec<u32>)
    ensures
        r.len() == src.len(),
        forall|i: int|
            0 <= i < src.len() ==> #[trigger] r@[i] == if format == PixelFormat::ARGB1555 {
                argb1555_spec(src@[i])
            } else {
                rgb565_spec(src@[i])
            },
{
    let mut r: Vec<u32> = Vec::new();
    let mut i: usize = 0;
    while i < src.len()
        invariant
            i <= src.len(),
            r.len() == i,
            forall|j: int|
                0 <= j < i ==> #[trigger] r@[j] == if format == PixelFormat::ARGB1555 {
                    argb1555_spec(src@[j])
                } else {
                    rgb565_spec(src@[j])
                },
        decreases src.len() - i,
    {
        let p = src[i];
        let q = if format == PixelFormat::ARGB1555 {
            convert_argb1555(p)
        } else {
            convert_rgb565(p)
        };
        r.push(q);
        i = i + 1;
    }
    r
}

/// Converts a frame of `ARGB8888` pixels to opaque 32-bit pixels with the
/// colour bytes reversed, one for one.
pub fn convert_frame32(src: &Vec<u32>) -> (r: Vec<u32>)
    ensures
        r.len() == src.len(),
        forall|i: int| 0 <= i < src.len() ==> #[trigger] r@[i] == argb8888_spec(src@[i]),
{
    let mut r: Vec<u32> = Vec::new();
    let mut i: usize = 0;
    while i < src.len()
        invariant
            i <= src.len(),
            r.len() == i,
            forall|j: int| 0 <= j < i ==> #[trigger] r@[j] == argb8888_spec(src@[j]),
        decreases src.len() - i,
    {
        r.push(convert_argb8888(src[i]));
        i = i + 1;
    }
    r
}

} // verus!
