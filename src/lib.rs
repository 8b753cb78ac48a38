//! The decisions of a low-latency H.264 encode pipeline and its emulator
//! frontend: encoder settings per backend, the encode-thread session, the
//! orientation flip, interop-resource and native-context ownership, pixel
//! conversion and the libretro pads. Native calls are made by the caller,
//! which hands the results back.

pub mod analog_retropad;
pub mod codec;
pub mod flip;
pub mod framebuffer;
pub mod hwcontext;
pub mod interop;
pub mod libretro;
pub mod retropad;
pub mod session;
pub mod types;
pub mod video;
