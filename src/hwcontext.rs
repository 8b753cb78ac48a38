use vstd::prelude::*;

use crate::codec::{check_ret, CodecError, PixelFormat};

verus! {

/// A native allocation that came back null.
#[derive(Clone, Copy, Debug, PartialEq, Eq, Structural)]
pub struct AllocError;

/// Owns one reference to the codec SDK's device context buffer, bound to a
/// compute-driver context. The handle is zero once released, so it is
/// released at most once.
pub struct CudaDeviceContext {
    buffer: u64,
}

impl CudaDeviceContext {
    /// The owned buffer handle; zero once released.
    pub closed spec fn buffer(self) -> u64 {
        self.buffer
    }

    fn new(buffer: u64) -> (r: CudaDeviceContext)
        ensures
            r.buffer() == buffer,
    {
        CudaDeviceContext { buffer }
    }

    /// The buffer handle, for the native calls that take it.
    pub fn as_raw_mut(&self) -> (r: u64)
        ensures
            r == self.buffer(),
    {
        self.buffer
    }

    /// The handle to release when the context goes away, if it still holds
    /// one; afterwards it holds none.
    pub fn release(&mut self) -> (r: Option<u64>)
        ensures
            old(self).buffer() != 0 ==> r == Some(old(self).buffer()),
            old(self).buffer() == 0 ==> r is None,
            final(self).buffer() == 0,
    {
        let b = self.buffer;
        self.buffer = 0;
        if b != 0 {
            Some(b)
        } else {
            None
        }
    }
}

/// The allocation phase of a device context: it owns the freshly allocated
/// buffer until `build` hands it to the context.
pub struct CudaDeviceContextBuilder {
    buffer: u64,
}

impl CudaDeviceContextBuilder {
    pub closed spec fn buffer(self) -> u64 {
        self.buffer
    }

    /// Takes ownership of a freshly allocated buffer; a null one means the
    /// allocation failed.
    pub fn new(buffer: u64) -> (r: Result<CudaDeviceContextBuilder, AllocError>)
        ensures
            buffer == 0 <==> r is Err,
            r is Ok ==> r->Ok_0.buffer() == buffer,
    {
        if buffer == 0 {
            Err(AllocError)
        } else {
            Ok(CudaDeviceContextBuilder { buffer })
        }
    }

    /// The buffer handle, for the native calls that configure it.
    pub fn as_device_mut(&self) -> (r: u64)
        ensures
            r == self.buffer(),
    {
        self.buffer
    }

    /// Commits the configuration, given the return code of the native
    /// initialization. On success the buffer moves to the new context and the
    /// builder keeps nothing; on failure the builder keeps it, to release it.
    pub fn build(&mut self, init_code: i32) -> (r: Result<CudaDeviceContext, CodecError>)
        ensures
            init_code == 0 ==> r is Ok && r->Ok_0.buffer() == old(self).buffer()
                && final(self).buffer() == 0,
            init_code != 0 ==> r == Err::<CudaDeviceContext, CodecError>(
                CodecError { code: init_code },
            ) && final(self).buffer() == old(self).buffer(),
    {
        match check_ret(init_code) {
            Ok(()) => {
                let result = CudaDeviceContext::new(self.buffer);
                self.buffer = 0;
                Ok(result)
            },
            Err(e) => Err(e),
        }
    }

    /// The handle to release when the builder goes away, if it still owns
    /// one; afterwards it owns none.
    pub fn release(&mut self) -> (r: Option<u64>)
        ensures
            old(self).buffer() != 0 ==> r == Some(old(self).buffer()),
            old(self).buffer() == 0 ==> r is None,
            final(self).buffer() == 0,
    {
        let b = self.buffer;
        self.buffer = 0;
        if b != 0 {
            Some(b)
        } else {
            None
        }
    }
}

/// The configuration a hardware frame pool is initialized with.
#[derive(Clone, Copy, Debug, PartialEq, Eq, Structural)]
pub struct HwFramesConfig {
    pub width: u32,
    pub height: u32,
    /// Storage format of the pooled frames.
    pub sw_format: Option<PixelFormat>,
    /// Format the frames present to the codec.
    pub format: Option<PixelFormat>,
}

/// Owns one reference to a hardware frame pool and the device context it
/// depends on; the device context outlives the pool, so it is released after.
pub struct HwFrameContext {
    device: CudaDeviceContext,
    buffer: u64,
    config: HwFramesConfig,
}

impl HwFrameContext {
    pub closed spec fn buffer(self) -> u64 {
        self.buffer
    }

    pub closed spec fn device_buffer(self) -> u64 {
        self.device.buffer()
    }

    pub closed spec fn config(self) -> HwFramesConfig {
        self.config
    }

    /// The pool's buffer handle.
    pub fn as_raw_mut(&self) -> (r: u64)
        ensures
            r == self.buffer(),
    {
        self.buffer
    }

    /// The device context's buffer handle.
    pub fn as_device_context_mut(&self) -> (r: u64)
        ensures
            r == self.device_buffer(),
    {
        self.device.as_raw_mut()
    }

    /// The configuration the pool was initialized with.
    pub fn frames_config(&self) -> (r: HwFramesConfig)
        ensures
            r == self.config(),
    {
        self.config
    }

    /// Maps the return code of the pool's frame allocation to a result.
    pub fn get_buffer(&self, alloc_code: i32) -> (r: Result<(), CodecError>)
        ensures
            alloc_code == 0 <==> r is Ok,
            alloc_code != 0 ==> r == Err::<(), CodecError>(CodecError { code: alloc_code }),
    {
        check_ret(alloc_code)
    }

    /// The handles to release when the context goes away, pool first and then
    /// device context, each only if still held; afterwards it holds none.
    pub fn release(&mut self) -> (r: Vec<u64>)
        ensures
            r@ == (if old(self).buffer() != 0 {
                seq![old(self).buffer()]
            } else {
                Seq::<u64>::empty()
            }) + (if old(self).device_buffer() != 0 {
                seq![old(self).device_buffer()]
            } else {
                Seq::<u64>::empty()
            }),
            final(self).buffer() == 0,
            final(self).device_buffer() == 0,
    {
        let mut r: Vec<u64> = Vec::new();
        if self.buffer != 0 {
            r.push(self.buffer);
            self.buffer = 0;
        }
        match self.device.release() {
            Some(b) => r.push(b),
            None => {},
        }
        proof {
            assert(r@ =~= (if old(self).buffer() != 0 {
                seq![old(self).buffer()]
            } else {
                Seq::<u64>::empty()
            }) + (if old(self).device_buffer() != 0 {
                seq![old(self).device_buffer()]
            } else {
                Seq::<u64>::empty()
            }));
        }
        r
    }
}

/// The allocation phase of a hardware frame pool: it owns the device context
/// and the freshly allocated pool buffer, and records the configuration until
/// `build` commits it.
pub struct HwFrameContextBuilder {
    device: CudaDeviceContext,
    buffer: u64,
    config: HwFramesConfig,
}

impl HwFrameContextBuilder {
    pub closed spec fn buffer(self) -> u64 {
        self.buffer
    }

    pub closed spec fn device_buffer(self) -> u64 {
        self.device.buffer()
    }

    pub closed spec fn config(self) -> HwFramesConfig {
        self.config
    }

    /// Takes ownership of a device context and of a pool buffer freshly
    /// allocated on it; a null buffer means the allocation failed, and the
    /// device context is handed back.
    pub fn new(device: CudaDeviceContext, buffer: u64) -> (r: Result<
        HwFrameContextBuilder,
        (AllocError, CudaDeviceContext),
    >)
        ensures
            buffer == 0 <==> r is Err,
            r is Err ==> r->Err_0.1.buffer() == device.buffer(),
            r is Ok ==> r->Ok_0.buffer() == buffer && r->Ok_0.device_buffer() == device.buffer()
                && r->Ok_0.config() == (HwFramesConfig {
                width: 0,
                height: 0,
                sw_format: None,
                format: None,
            }),
    {
        if buffer == 0 {
            Err((AllocError, device))
        } else {
            Ok(
                HwFrameContextBuilder {
                    device,
                    buffer,
                    config: HwFramesConfig { width: 0, height: 0, sw_format: None, format: None },
                },
            )
        }
    }

    pub fn set_width(self, width: u32) -> (r: HwFrameContextBuilder)
        ensures
            r.config() == (HwFramesConfig { width, ..self.config() }),
            r.buffer() == self.buffer(),
            r.device_buffer() == self.device_buffer(),
    {
        HwFrameContextBuilder { config: HwFramesConfig { width, ..self.config }, ..self }
    }

    pub fn set_height(self, height: u32) -> (r: HwFrameContextBuilder)
        ensures
            r.config() == (HwFramesConfig { height, ..self.config() }),
            r.buffer() == self.buffer(),
            r.device_buffer() == self.device_buffer(),
    {
        HwFrameContextBuilder { config: HwFramesConfig { height, ..self.config }, ..self }
    }

    pub fn set_sw_format(self, sw_format: PixelFormat) -> (r: HwFrameContextBuilder)
        ensures
            r.config() == (HwFramesConfig { sw_format: Some(sw_format), ..self.config() }),
            r.buffer() == self.buffer(),
            r.device_buffer() == self.device_buffer(),
    {
        HwFrameContextBuilder {
            config: HwFramesConfig { sw_format: Some(sw_format), ..self.config },
            ..self
        }
    }

    pub fn set_format(self, format: PixelFormat) -> (r: HwFrameContextBuilder)
        ensures
            r.config() == (HwFramesConfig { format: Some(format), ..self.config() }),
            r.buffer() == self.buffer(),
            r.device_buffer() == self.device_buffer(),
    {
        HwFrameContextBuilder { config: HwFramesConfig { format: Some(format), ..self.config }, ..self }
    }

    /// The configuration to write into the native pool before it is initialized.
    pub fn as_frame_mut(&self) -> (r: HwFramesConfig)
        ensures
            r == self.config(),
    {
        self.config
    }

    /// The pool's buffer handle, for the native initialization.
    pub fn as_raw(&self) -> (r: u64)
        ensures
            r == self.buffer(),
    {
        self.buffer
    }

    /// Commits the configuration, given the return code of the native
    /// initialization. On success the pool buffer and the device context move
    /// to the new context; on failure the builder is handed back with both, to
    /// release them.
    pub fn build(self, init_code: i32) -> (r: Result<
        HwFrameContext,
        (CodecError, HwFrameContextBuilder),
    >)
        ensures
            init_code == 0 <==> r is Ok,
            r is Ok ==> r->Ok_0.buffer() == self.buffer() && r->Ok_0.device_buffer()
                == self.device_buffer() && r->Ok_0.config() == self.config(),
            r is Err ==> r->Err_0.0 == (CodecError { code: init_code }) && r->Err_0.1.buffer()
                == self.buffer() && r->Err_0.1.device_buffer() == self.device_buffer(),
    {
        match check_ret(init_code) {
            Ok(()) => Ok(HwFrameContext { device: self.device, buffer: self.buffer, config: self.config }),
            Err(e) => Err((e, self)),
        }
    }

    /// The handles to release when a builder that was not built goes away,
    /// pool first and then device context; afterwards it holds none.
    pub fn release(&mut self) -> (r: Vec<u64>)
        ensures
            r@ == (if old(self).buffer() != 0 {
                seq![old(self).buffer()]
            } else {
                Seq::<u64>::empty()
            }) + (if old(self).device_buffer() != 0 {
                seq![old(self).device_buffer()]
            } else {
                Seq::<u64>::empty()
            }),
            final(self).buffer() == 0,
            final(self).device_buffer() == 0,
    {
        let mut r: Vec<u64> = Vec::new();
        if self.buffer != 0 {
            r.push(self.buffer);
            self.buffer = 0;
        }
        match self.device.release() {
            Some(b) => r.push(b),
            None => {},
        }
        proof {
            assert(r@ =~= (if old(self).buffer() != 0 {
                seq![old(self).buffer()]
            } else {
                Seq::<u64>::empty()
            }) + (if old(self).device_buffer() != 0 {
                seq![old(self).device_buffer()]
            } else {
                Seq::<u64>::empty()
            }));
        }
        r
    }
}

/// The pool configuration of the GPU-resident encoder: frames of the encoder's
/// size, stored as packed BGR and presented to the codec as device frames.
pub fn gpu_frames_config(width: u32, height: u32) -> (r: HwFramesConfig)
    ensures
        r == (HwFramesConfig {
            width,
            height,
            sw_format: Some(PixelFormat::ZBGR32),
            format: Some(PixelFormat::CUDA),
        }),
{
    HwFramesConfig {
        width,
        height,
        sw_format: Some(PixelFormat::ZBGR32),
        format: Some(PixelFormat::CUDA),
    }
}

/// Row stride, in bytes, of a pooled hardware frame of packed 32-bit pixels;
/// the pool's allocation does not set it, so it is set by hand.
pub fn hw_frame_line_size(width: u32) -> (r: i32)
    requires
        4 * width <= i32::MAX,
    ensures
        r == 4 * width,
{
    (width * 4) as i32
}

} // verus!
