use letsplay_av::codec::{CodecError, PixelFormat};
use letsplay_av::hwcontext::{
    gpu_frames_config, hw_frame_line_size, AllocError, CudaDeviceContextBuilder, HwFrameContextBuilder,
    HwFramesConfig,
};

#[test]
fn null_allocation_fails() {
    assert!(matches!(CudaDeviceContextBuilder::new(0), Err(AllocError)));
}

#[test]
fn successful_build_hands_off_the_buffer() {
    let mut b = CudaDeviceContextBuilder::new(0x1000).ok().unwrap();
    assert_eq!(b.as_device_mut(), 0x1000);
    let mut ctx = b.build(0).ok().unwrap();
    assert_eq!(ctx.as_raw_mut(), 0x1000);
    assert_eq!(b.release(), None);
    assert_eq!(ctx.release(), Some(0x1000));
    assert_eq!(ctx.release(), None);
}

#[test]
fn failed_build_keeps_the_buffer_for_release() {
    let mut b = CudaDeviceContextBuilder::new(0x2000).ok().unwrap();
    match b.build(-22) {
        Err(e) => assert_eq!(e, CodecError { code: -22 }),
        Ok(_) => panic!("build should fail"),
    }
    assert_eq!(b.release(), Some(0x2000));
    assert_eq!(b.release(), None);
}

#[test]
fn frame_context_builder_records_configuration() {
    let mut dev_builder = CudaDeviceContextBuilder::new(0x10).ok().unwrap();
    let dev = dev_builder.build(0).ok().unwrap();
    let b = HwFrameContextBuilder::new(dev, 0x20).ok().unwrap();
    let b = b.set_width(64).set_height(48).set_sw_format(PixelFormat::ZBGR32).set_format(PixelFormat::CUDA);
    assert_eq!(b.as_frame_mut(), gpu_frames_config(64, 48));
    assert_eq!(b.as_raw(), 0x20);
    let mut ctx = b.build(0).ok().unwrap();
    assert_eq!(ctx.as_raw_mut(), 0x20);
    assert_eq!(ctx.as_device_context_mut(), 0x10);
    assert_eq!(
        ctx.frames_config(),
        HwFramesConfig { width: 64, height: 48, sw_format: Some(PixelFormat::ZBGR32), format: Some(PixelFormat::CUDA) }
    );
    assert_eq!(ctx.get_buffer(0), Ok(()));
    assert_eq!(ctx.get_buffer(-12), Err(CodecError { code: -12 }));
    assert_eq!(ctx.release(), vec![0x20, 0x10]);
    assert_eq!(ctx.release(), Vec::<u64>::new());
}

#[test]
fn frame_context_null_pool_returns_device() {
    let mut dev_builder = CudaDeviceContextBuilder::new(0x10).ok().unwrap();
    let dev = dev_builder.build(0).ok().unwrap();
    match HwFrameContextBuilder::new(dev, 0) {
        Err((AllocError, mut dev)) => assert_eq!(dev.release(), Some(0x10)),
        Ok(_) => panic!("a null pool must fail"),
    }
}

#[test]
fn failed_frame_context_build_releases_both() {
    let mut dev_builder = CudaDeviceContextBuilder::new(0x10).ok().unwrap();
    let dev = dev_builder.build(0).ok().unwrap();
    let b = HwFrameContextBuilder::new(dev, 0x20).ok().unwrap();
    match b.build(-1) {
        Err((e, mut b)) => {
            assert_eq!(e, CodecError { code: -1 });
            assert_eq!(b.release(), vec![0x20, 0x10]);
        }
        Ok(_) => panic!("build should fail"),
    }
}

#[test]
fn hw_frame_stride_is_four_bytes_per_pixel() {
    assert_eq!(hw_frame_line_size(1920), 7680);
    assert_eq!(hw_frame_line_size(0), 0);
}
