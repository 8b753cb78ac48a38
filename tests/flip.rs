use letsplay_av::flip::{copy_region, flip_launch_config, flip_vertical, CopyRegion, FLIP_FUNCTION_NAME, FLIP_MODULE_NAME};

#[test]
fn flip_reverses_rows_of_four_by_four() {
    let mut src = Vec::new();
    for row in 0u32..4 {
        for _ in 0..4 {
            src.push(row);
        }
    }
    let dst = flip_vertical(&src, 4, 4);
    assert_eq!(dst.len(), 16);
    assert_eq!(&dst[0..4], &src[12..16]);
    assert_eq!(&dst[4..8], &src[8..12]);
    assert_eq!(&dst[8..12], &src[4..8]);
    assert_eq!(&dst[12..16], &src[0..4]);
    assert_eq!(dst, vec![3, 3, 3, 3, 2, 2, 2, 2, 1, 1, 1, 1, 0, 0, 0, 0]);
}

#[test]
fn flip_keeps_pixel_values_and_columns() {
    let src: Vec<u32> = (0..6).map(|i| 0xAA00_0000 | i).collect();
    let dst = flip_vertical(&src, 3, 2);
    assert_eq!(dst, vec![0xAA00_0003, 0xAA00_0004, 0xAA00_0005, 0xAA00_0000, 0xAA00_0001, 0xAA00_0002]);
}

#[test]
fn flip_of_empty_frame() {
    assert_eq!(flip_vertical(&Vec::new(), 0, 5), Vec::<u32>::new());
    assert_eq!(flip_vertical(&Vec::new(), 7, 0), Vec::<u32>::new());
}

#[test]
fn launch_config_covers_remainders() {
    let g = flip_launch_config(1280, 720);
    assert_eq!(g.grid_dim, (81, 361, 1));
    assert_eq!(g.block_dim, (16, 2, 1));
    let g = flip_launch_config(17, 3);
    assert_eq!(g.grid_dim, (2, 2, 1));
}

#[test]
fn copy_region_of_frame() {
    assert_eq!(copy_region(640, 480, 2560), CopyRegion { dst_pitch: 2560, width_in_bytes: 2560, height: 480 });
    assert_eq!(copy_region(10, 2, 64), CopyRegion { dst_pitch: 64, width_in_bytes: 40, height: 2 });
}

#[test]
fn kernel_names() {
    assert_eq!(FLIP_MODULE_NAME, "module");
    assert_eq!(FLIP_FUNCTION_NAME, "flip_opengl");
}
