use letsplay_av::codec::{
    check_ret, codec_options, encoder_settings, receive_outcome, CodecError, EncoderBackend,
    PixelFormat, Rational, AVERROR_EAGAIN, INFINITE_GOP,
};
use letsplay_av::types::{Rect, Size};

#[test]
fn check_ret_zero_is_ok() {
    assert_eq!(check_ret(0), Ok(()));
}

#[test]
fn check_ret_nonzero_is_error_with_code() {
    assert_eq!(check_ret(-22), Err(CodecError { code: -22 }));
    assert_eq!(check_ret(5), Err(CodecError { code: 5 }));
}

#[test]
fn receive_packet_ready() {
    assert_eq!(receive_outcome(0), Ok(true));
}

#[test]
fn receive_no_output_yet_is_not_an_error() {
    assert_eq!(receive_outcome(AVERROR_EAGAIN), Ok(false));
    assert_eq!(receive_outcome(-11), Ok(false));
}

#[test]
fn receive_genuine_fault_is_reported_with_its_code() {
    // AVERROR_EOF
    assert_eq!(receive_outcome(-541478725), Err(CodecError { code: -541478725 }));
    // AVERROR(EINVAL)
    assert_eq!(receive_outcome(-22), Err(CodecError { code: -22 }));
}

#[test]
fn backends_report_hardware() {
    assert!(!EncoderBackend::Software.is_hardware());
    assert!(EncoderBackend::NvencSWFrame.is_hardware());
    assert!(EncoderBackend::NvencHWFrame.is_hardware());
}

#[test]
fn backend_codec_names() {
    assert_eq!(EncoderBackend::Software.codec_name(), "libx264");
    assert_eq!(EncoderBackend::NvencSWFrame.codec_name(), "h264_nvenc");
    assert_eq!(EncoderBackend::NvencHWFrame.codec_name(), "h264_nvenc");
}

#[test]
fn software_settings_for_small_frame() {
    let s = encoder_settings(EncoderBackend::Software, Size { width: 64, height: 64 }, 60, 1_000_000, 16);
    assert_eq!(s.width, 64);
    assert_eq!(s.height, 64);
    assert_eq!(s.frame_rate, Rational { num: 1, den: 60 });
    assert_eq!(s.time_base, Rational { num: 60, den: 1 });
    assert_eq!(s.bit_rate, 250_000);
    assert_eq!(s.max_bit_rate, 1_000_000);
    assert_eq!(s.gop, INFINITE_GOP);
    assert_eq!(s.gop, i32::MAX as u32);
    assert_eq!(s.max_b_frames, 0);
    assert_eq!(s.format, PixelFormat::YUV420P);
    assert_eq!(s.qmin, None);
    assert_eq!(s.qmax, None);
    assert_eq!(s.slice_threads, Some(2));
}

#[test]
fn hardware_settings() {
    let size = Size { width: 1280, height: 720 };
    let sw = encoder_settings(EncoderBackend::NvencSWFrame, size, 60, 2 * 1024 * 1024, 8);
    assert_eq!(sw.format, PixelFormat::ZRGB32);
    assert_eq!(sw.qmin, Some(37));
    assert_eq!(sw.qmax, Some(33));
    assert_eq!(sw.slice_threads, None);
    assert_eq!(sw.bit_rate, 524_288);
    let hw = encoder_settings(EncoderBackend::NvencHWFrame, size, 30, 4_000_003, 8);
    assert_eq!(hw.format, PixelFormat::CUDA);
    assert_eq!(hw.qmin, Some(35));
    assert_eq!(hw.qmax, Some(38));
    assert_eq!(hw.bit_rate, 1_000_000);
    assert_eq!(hw.time_base, Rational { num: 30, den: 1 });
}

#[test]
fn software_options_favour_latency() {
    let o = codec_options(EncoderBackend::Software);
    assert_eq!(
        o,
        vec![
            ("tune", "zerolatency"),
            ("preset", "veryfast"),
            ("profile", "main"),
            ("crf", "43"),
            ("crf_max", "48"),
            ("forced-idr", "1"),
        ]
    );
}

#[test]
fn gpu_resident_options_leave_out_forced_idr() {
    let o = codec_options(EncoderBackend::NvencHWFrame);
    assert_eq!(o.len(), 7);
    assert!(!o.contains(&("forced-idr", "1")));
    assert!(o.contains(&("zerolatency", "1")));
    let s = codec_options(EncoderBackend::NvencSWFrame);
    assert_eq!(s.len(), 8);
    assert!(s.contains(&("forced-idr", "1")));
}

#[test]
fn size_linear_and_conversions() {
    let s = Size::from((640u32, 480u32));
    assert_eq!(s, Size { width: 640, height: 480 });
    assert_eq!(s.linear(), 307_200);
    assert_eq!(s.into_pair(), (640, 480));
    assert_eq!(Size { width: 0, height: 9 }.linear(), 0);
    let r = Rect { x: 1, y: 2, width: 3, height: 4 };
    assert_eq!(r.width * r.height, 12);
}
