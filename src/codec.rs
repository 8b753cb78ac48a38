use vstd::prelude::*;

use crate::types::Size;

verus! {

/// The POSIX `EAGAIN` error number on Linux.
pub const EAGAIN: i32 = 11;

/// What the codec returns, negated (`AVERROR(EAGAIN)`), when it needs more
/// input before it can emit a packet.
pub const AVERROR_EAGAIN: i32 = -11;

/// A failure reported by the codec, carrying its raw (negative) return code.
#[derive(Clone, Copy, Debug, PartialEq, Eq, Structural)]
pub struct CodecError {
    pub code: i32,
}

/// Maps a raw codec return code to a `Result`: zero is success, anything else
/// is an error carrying that code.
pub fn check_ret(error_code: i32) -> (r: Result<(), CodecError>)
    ensures
        error_code == 0 ==> r == Ok::<(), CodecError>(()),
        error_code != 0 ==> r == Err::<(), CodecError>(CodecError { code: error_code }),
{
    if error_code != 0 {
        return Err(CodecError { code: error_code });
    }
    Ok(())
}

/// The outcome of one `receive_packet` poll, given the codec's return code.
pub open spec fn receive_outcome_spec(code: i32) -> Result<bool, CodecError> {
    if code == 0 {
        Ok(true)
    } else if code == AVERROR_EAGAIN {
        Ok(false)
    } else {
        Err(CodecError { code })
    }
}

/// Decides what a poll of the codec for a packet means: `Ok(true)` when a
/// packet was written, `Ok(false)` when the codec has no output yet (which is
/// not an error), and the codec's fault otherwise.
pub fn receive_outcome(code: i32) -> (r: Result<bool, CodecError>)
    ensures
        r == receive_outcome_spec(code),
        r == Ok::<bool, CodecError>(true) <==> code == 0,
        r == Ok::<bool, CodecError>(false) <==> code == AVERROR_EAGAIN,
        r is Err <==> (code != 0 && code != AVERROR_EAGAIN),
{
    if code == 0 {
        Ok(true)
    } else if code == AVERROR_EAGAIN {
        Ok(false)
    } else {
        Err(CodecError { code })
    }
}

} // verus!

verus! {

/// The three encoder backends; the set is closed.
#[derive(Clone, Copy, Debug, PartialEq, Eq, Structural)]
pub enum EncoderBackend {
    /// The software H.264 encoder, fed planar YUV frames from host memory.
    Software,
    /// The hardware encoder, fed packed RGB frames that the codec uploads itself.
    NvencSWFrame,
    /// The hardware encoder, fed frames that already live in device memory.
    NvencHWFrame,
}

/// The pixel formats this pipeline hands to the codec.
#[derive(Clone, Copy, Debug, PartialEq, Eq, Structural)]
pub enum PixelFormat {
    /// Planar 4:2:0 YUV.
    YUV420P,
    /// Packed 32-bit RGB, padding byte first.
    ZRGB32,
    /// Packed 32-bit BGR, padding byte first.
    ZBGR32,
    /// Marker format for frames that live in device memory.
    CUDA,
}

/// A rational number `num / den`, as the codec takes rates and time bases.
#[derive(Clone, Copy, Debug, PartialEq, Eq, Structural)]
pub struct Rational {
    pub num: i32,
    pub den: i32,
}

/// Every numeric parameter an encoder session is opened with.
#[derive(Clone, Copy, Debug, PartialEq, Eq, Structural)]
pub struct EncoderSettings {
    pub backend: EncoderBackend,
    pub width: u32,
    pub height: u32,
    pub frame_rate: Rational,
    pub time_base: Rational,
    /// Average bitrate target.
    pub bit_rate: usize,
    /// Peak bitrate ceiling.
    pub max_bit_rate: usize,
    /// Keyframe interval; effectively infinite, so only forced keyframes occur.
    pub gop: u32,
    pub max_b_frames: i32,
    pub delay: i32,
    pub refs: i32,
    pub format: PixelFormat,
    pub qmin: Option<i32>,
    pub qmax: Option<i32>,
    /// Slice-level thread count, where the backend uses internal threading.
    pub slice_threads: Option<usize>,
}

/// The keyframe interval used by every backend (`i32::MAX`).
pub const INFINITE_GOP: u32 = 2147483647;

pub open spec fn is_hardware_spec(backend: EncoderBackend) -> bool {
    backend != EncoderBackend::Software
}

pub open spec fn codec_format_spec(backend: EncoderBackend) -> PixelFormat {
    match backend {
        EncoderBackend::Software => PixelFormat::YUV420P,
        EncoderBackend::NvencSWFrame => PixelFormat::ZRGB32,
        EncoderBackend::NvencHWFrame => PixelFormat::CUDA,
    }
}

pub open spec fn qmin_spec(backend: EncoderBackend) -> Option<i32> {
    match backend {
        EncoderBackend::Software => None,
        EncoderBackend::NvencSWFrame => Some(37i32),
        EncoderBackend::NvencHWFrame => Some(35i32),
    }
}

pub open spec fn qmax_spec(backend: EncoderBackend) -> Option<i32> {
    match backend {
        EncoderBackend::Software => None,
        EncoderBackend::NvencSWFrame => Some(33i32),
        EncoderBackend::NvencHWFrame => Some(38i32),
    }
}

/// The settings a backend's encoder is opened with, for a frame size, a frame
/// rate, a peak bitrate and the machine's available parallelism.
pub open spec fn settings_spec(
    backend: EncoderBackend,
    size: Size,
    max_framerate: u32,
    bitrate: usize,
    parallelism: usize,
) -> EncoderSettings {
    EncoderSettings {
        backend,
        width: size.width,
        height: size.height,
        frame_rate: Rational { num: 1, den: max_framerate as i32 },
        time_base: Rational { num: max_framerate as i32, den: 1 },
        bit_rate: (bitrate / 4) as usize,
        max_bit_rate: bitrate,
        gop: INFINITE_GOP,
        max_b_frames: 0,
        delay: 0,
        refs: 0,
        format: codec_format_spec(backend),
        qmin: qmin_spec(backend),
        qmax: qmax_spec(backend),
        slice_threads: if backend == EncoderBackend::Software {
            Some((parallelism / 8) as usize)
        } else {
            None
        },
    }
}

impl EncoderBackend {
    /// True for the two hardware backends.
    pub fn is_hardware(&self) -> (r: bool)
        ensures
            r == is_hardware_spec(*self),
    {
        match self {
            EncoderBackend::Software => false,
            EncoderBackend::NvencSWFrame => true,
            EncoderBackend::NvencHWFrame => true,
        }
    }

    /// Name of the codec implementation the backend opens.
    pub fn codec_name(&self) -> (r: &'static str)
        ensures
            *self == EncoderBackend::Software ==> r == "libx264",
            *self != EncoderBackend::Software ==> r == "h264_nvenc",
    {
        match self {
            EncoderBackend::Software => "libx264",
            _ => "h264_nvenc",
        }
    }
}

/// Computes the settings the encoder for `backend` is opened with: the frame
/// size, a frame rate of `max_framerate`, an average bitrate of a quarter of
/// the peak `bitrate`, no B-frames, an effectively infinite keyframe interval,
/// the backend's pixel format and quantizer bounds, and for the software
/// backend slice threading over an eighth of `parallelism`.
pub fn encoder_settings(
    backend: EncoderBackend,
    size: Size,
    max_framerate: u32,
    bitrate: usize,
    parallelism: usize,
) -> (r: EncoderSettings)
    requires
        max_framerate <= i32::MAX,
    ensures
        r == settings_spec(backend, size, max_framerate, bitrate, parallelism),
{
    let rate = max_framerate as i32;
    let (format, qmin, qmax, slice_threads) = match backend {
        EncoderBackend::Software => (PixelFormat::YUV420P, None, None, Some(parallelism / 8)),
        EncoderBackend::NvencSWFrame => (PixelFormat::ZRGB32, Some(37i32), Some(33i32), None),
        EncoderBackend::NvencHWFrame => (PixelFormat::CUDA, Some(35i32), Some(38i32), None),
    };
    EncoderSettings {
        backend,
        width: size.width,
        height: size.height,
        frame_rate: Rational { num: 1, den: rate },
        time_base: Rational { num: rate, den: 1 },
        bit_rate: bitrate / 4,
        max_bit_rate: bitrate,
        gop: INFINITE_GOP,
        max_b_frames: 0,
        delay: 0,
        refs: 0,
        format,
        qmin,
        qmax,
        slice_threads,
    }
}

/// The codec private options for a backend, as (key, value) pairs.
pub open spec fn codec_options_spec(backend: EncoderBackend) -> Seq<(&'static str, &'static str)> {
    match backend {
        EncoderBackend::Software => seq![
            ("tune", "zerolatency"),
            ("preset", "veryfast"),
            ("profile", "main"),
            ("crf", "43"),
            ("crf_max", "48"),
            ("forced-idr", "1"),
        ],
        EncoderBackend::NvencSWFrame => seq![
            ("tune", "ull"),
            ("preset", "p1"),
            ("profile", "main"),
            ("rc", "vbr"),
            ("qp", "35"),
            ("forced-idr", "1"),
            ("delay", "0"),
            ("zerolatency", "1"),
        ],
        EncoderBackend::NvencHWFrame => seq![
            ("tune", "ull"),
            ("preset", "p1"),
            ("profile", "main"),
            ("rc", "vbr"),
            ("qp", "35"),
            ("delay", "0"),
            ("zerolatency", "1"),
        ],
    }
}

/// Returns the codec private options for a backend: low-latency tuning, the
/// fastest preset, the main profile, the rate control targets and, where the
/// backend honours it, IDR frames on forced keyframes.
pub fn codec_options(backend: EncoderBackend) -> (r: Vec<(&'static str, &'static str)>)
    ensures
        r@ == codec_options_spec(backend),
{
    let mut r: Vec<(&'static str, &'static str)> = Vec::new();
    match backend {
        EncoderBackend::Software => {
            r.push(("tune", "zerolatency"));
            r.push(("preset", "veryfast"));
        },
        _ => {
            r.push(("tune", "ull"));
            r.push(("preset", "p1"));
        },
    }
    r.push(("profile", "main"));
    match backend {
        EncoderBackend::Software => {
            r.push(("crf", "43"));
            r.push(("crf_max", "48"));
            r.push(("forced-idr", "1"));
        },
        EncoderBackend::NvencSWFrame => {
            r.push(("rc", "vbr"));
            r.push(("qp", "35"));
            r.push(("forced-idr", "1"));
            r.push(("delay", "0"));
            r.push(("zerolatency", "1"));
        },
        EncoderBackend::NvencHWFrame => {
            r.push(("rc", "vbr"));
            r.push(("qp", "35"));
            r.push(("delay", "0"));
            r.push(("zerolatency", "1"));
        },
    }
    proof {
        assert(r@ =~= codec_options_spec(backend));
    }
    r
}

} // verus!
