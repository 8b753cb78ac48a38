use vstd::prelude::*;

verus! {

/// Name under which the flip kernel's module is loaded.
pub const FLIP_MODULE_NAME: &'static str = "module";

/// Name of the flip kernel function inside its module.
pub const FLIP_FUNCTION_NAME: &'static str = "flip_opengl";

/// Threads per block along x.
pub const FLIP_BLOCK_X: u32 = 16;

/// Threads per block along y.
pub const FLIP_BLOCK_Y: u32 = 2;

/// Grid and block dimensions of a kernel launch.
#[derive(Clone, Copy, Debug)]
pub struct LaunchGeometry {
    pub grid_dim: (u32, u32, u32),
    pub block_dim: (u32, u32, u32),
}

/// The launch geometry of the flip kernel over a `width` by `height` frame:
/// 16 by 2 thread blocks, with one block more than the whole number of blocks
/// on each axis so that the remainders are covered.
pub fn flip_launch_config(width: u32, height: u32) -> (r: LaunchGeometry)
    ensures
        r.grid_dim == ((width / 16 + 1) as u32, (height / 2 + 1) as u32, 1u32),
        r.block_dim == (16u32, 2u32, 1u32),
        r.grid_dim.0 * r.block_dim.0 > width,
        r.grid_dim.1 * r.block_dim.1 > height,
{
    LaunchGeometry {
        grid_dim: (width / FLIP_BLOCK_X + 1, height / FLIP_BLOCK_Y + 1, 1),
        block_dim: (FLIP_BLOCK_X, FLIP_BLOCK_Y, 1),
    }
}

/// The device-to-device 2-D copy from the mapped texture into the staging
/// buffer: bytes per destination row, bytes copied per row, and row count.
#[derive(Clone, Copy, Debug, PartialEq, Eq, Structural)]
pub struct CopyRegion {
    pub dst_pitch: usize,
    pub width_in_bytes: u64,
    pub height: usize,
}

/// The copy region for a frame of `width` by `height` packed 32-bit pixels
/// whose rows are `line_size` bytes apart.
pub fn copy_region(width: u32, height: u32, line_size: u32) -> (r: CopyRegion)
    ensures
        r.dst_pitch == line_size,
        r.width_in_bytes == 4 * width,
        r.height == height,
{
    CopyRegion {
        dst_pitch: line_size as usize,
        width_in_bytes: (width as u64) * 4,
        height: height as usize,
    }
}

/// Index of pixel (x, y) in a row-major buffer `width` pixels wide.
pub open spec fn pixel_index(width: int, x: int, y: int) -> int {
    y * width + x
}

proof fn lemma_index_bounds(width: int, height: int, x: int, y: int)
    requires
        0 <= x <= width,
        0 <= y < height,
    ensures
        0 <= pixel_index(width, x, y),
        x < width ==> pixel_index(width, x, y) < width * height,
        pixel_index(width, 0, y) + width <= width * height,
        pixel_index(width, 0, y) + width == pixel_index(width, 0, y + 1),
{
    assert(0 <= y * width + x) by (nonlinear_arith)
        requires
            0 <= x <= width,
            0 <= y,
    ;
    assert(y * width + width <= width * height) by (nonlinear_arith)
        requires
            0 <= width,
            0 <= y < height,
    ;
    assert((y + 1) * width == y * width + width) by (nonlinear_arith);
}

/// Reverses the row order of a `width` by `height` buffer of packed 32-bit
/// pixels: row `y` of the result is row `height - 1 - y` of `src`, and pixel
/// values are copied unchanged. This is what the flip kernel computes on the
/// device.
pub fn flip_vertical(src: &Vec<u32>, width: u32, height: u32) -> (r: Vec<u32>)
    requires
        src.len() == width * height,
    ensures
        r.len() == src.len(),
        forall|x: int, y: int|
            0 <= x < width && 0 <= y < height ==> r@[#[trigger] pixel_index(width as int, x, y)]
                == src@[pixel_index(width as int, x, height - 1 - y)],
{
    let mut r: Vec<u32> = Vec::new();
    let mut y: u32 = 0;
    while y < height
        invariant
            y <= height,
            src.len() == width * height,
            r.len() == y * width,
            forall|xx: int, yy: int|
                0 <= xx < width && 0 <= yy < y ==> r@[#[trigger] pixel_index(width as int, xx, yy)]
                    == src@[pixel_index(width as int, xx, height - 1 - yy)],
        decreases height - y,
    {
        let src_row: u32 = height - 1 - y;
        proof {
            lemma_index_bounds(width as int, height as int, 0, src_row as int);
            lemma_index_bounds(width as int, height as int, 0, y as int);
        }
        let row_start: usize = (src_row as usize) * (width as usize);
        let ghost before = r@;
        let mut x: u32 = 0;
        while x < width
            invariant
                x <= width,
                y < height,
                src_row == height - 1 - y,
                row_start == pixel_index(width as int, 0, src_row as int),
                row_start + width <= src.len(),
                src.len() == width * height,
                r.len() == y * width + x,
                r@.subrange(0, y * width) == before,
                before.len() == y * width,
                forall|xx: int| 0 <= xx < x ==> r@[pixel_index(width as int, xx, y as int)]
                    == src@[pixel_index(width as int, xx, src_row as int)],
            decreases width - x,
        {
            r.push(src[row_start + x as usize]);
            proof {
                assert(r@.subrange(0, y * width) =~= before);
            }
            x = x + 1;
        }
        proof {
            assert forall|xx: int, yy: int|
                0 <= xx < width && 0 <= yy < y + 1 implies r@[#[trigger] pixel_index(
                    width as int,
                    xx,
                    yy,
                )] == src@[pixel_index(width as int, xx, height - 1 - yy)] by {
                if yy < y {
                    lemma_index_bounds(width as int, y as int, xx, yy);
                    assert(r@[pixel_index(width as int, xx, yy)] == r@.subrange(0, y * width)[pixel_index(width as int, xx, yy)]);
                }
            }
            assert((y + 1) * width == y * width + width) by (nonlinear_arith);
        }
        y = y + 1;
    }
    proof {
        assert(height * width == width * height) by (nonlinear_arith);
    }
    r
}

} // verus!
