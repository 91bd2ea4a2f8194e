//! Decoded frames and the GPU-visible texture resource built from them.
//!
//! A `Frame` is one decoded picture: RGBA8, row-major, no row padding, so its
//! buffer holds exactly `4 * width * height` bytes. Frames are ephemeral —
//! produced by a decoder, consumed by one `TextureResource::upload`, then
//! gone. A `TextureResource` models the GPU-visible image plus its fixed
//! sampling configuration; a new frame always produces a whole new resource
//! (full replace, never a partial in-place update), so a draw call can never
//! observe pixel data whose size disagrees with the declared dimensions.

use vstd::prelude::*;

verus! {

/// Why a pixel buffer was rejected when building a `Frame`.
#[derive(Clone, Copy, PartialEq, Eq, Structural, Debug)]
pub enum FrameError {
    /// The buffer length is not exactly `4 * width * height` bytes.
    BufferSizeMismatch,
}

/// One decoded picture: RGBA8, row-major, tightly packed.
#[derive(Clone, PartialEq, Eq, Debug)]
pub struct Frame {
    pub width: u32,
    pub height: u32,
    pub data: Vec<u8>,
}

/// A frame is well formed when its buffer holds exactly one RGBA byte
/// quadruple per pixel.
pub open spec fn frame_wf(f: Frame) -> bool {
    f.data@.len() == 4 * f.width * f.height
}

impl Frame {
    /// True exactly when the buffer length matches the declared dimensions.
    pub fn is_well_formed(&self) -> (r: bool)
        ensures
            r == frame_wf(*self),
    {
        proof {
            assert((self.width as int) * (self.height as int) <= 0xffff_ffff * 0xffff_ffff)
                by (nonlinear_arith)
                requires
                    self.width as int <= 0xffff_ffff,
                    self.height as int <= 0xffff_ffff,
            ;
        }
        let pixels: u64 = (self.width as u64) * (self.height as u64);
        proof {
            assert(4 * ((self.width as int) * (self.height as int))
                == 4 * (self.width as int) * (self.height as int)) by (nonlinear_arith);
        }
        let len: usize = self.data.len();
        if pixels > u64::MAX / 4 {
            // No addressable buffer can hold 4 bytes per pixel at this size.
            assert(self.data@.len() < 4 * self.width * self.height);
            false
        } else {
            (len as u64) == 4 * pixels
        }
    }

    /// Builds a frame from decoded output, accepting the buffer if and only
    /// if its length matches the declared dimensions exactly.
    pub fn new(width: u32, height: u32, data: Vec<u8>) -> (r: Result<Frame, FrameError>)
        ensures
            r is Ok <==> data@.len() == 4 * width * height,
            r matches Ok(f) ==> f == (Frame { width, height, data }) && frame_wf(f),
            r is Err ==> r == Result::<Frame, FrameError>::Err(FrameError::BufferSizeMismatch),
    {
        let f = Frame { width, height, data };
        if f.is_well_formed() {
            Result::Ok(f)
        } else {
            Result::Err(FrameError::BufferSizeMismatch)
        }
    }
}

/// Texture addressing outside the sampled image.
#[derive(Clone, Copy, PartialEq, Eq, Structural, Debug)]
pub enum AddressMode {
    ClampToEdge,
    Repeat,
}

/// Texture sampling filter.
#[derive(Clone, Copy, PartialEq, Eq, Structural, Debug)]
pub enum FilterMode {
    Linear,
    Nearest,
}

/// Sampling configuration bound alongside the image.
#[derive(Clone, Copy, PartialEq, Eq, Structural, Debug)]
pub struct SamplerSpec {
    pub address_mode: AddressMode,
    pub mag_filter: FilterMode,
    pub min_filter: FilterMode,
}

/// The fixed sampling configuration every video texture uses: edge-clamped
/// addressing, linear magnification, nearest minification — speed over
/// quality, since frames are replaced frequently.
pub open spec fn video_sampler() -> SamplerSpec {
    SamplerSpec {
        address_mode: AddressMode::ClampToEdge,
        mag_filter: FilterMode::Linear,
        min_filter: FilterMode::Nearest,
    }
}

/// The GPU-visible image for one instance: pixel data sized exactly to its
/// declared dimensions, plus the sampling state a draw call binds with it.
#[derive(Clone, PartialEq, Eq, Debug)]
pub struct TextureResource {
    pub width: u32,
    pub height: u32,
    pub pixels: Vec<u8>,
    pub sampler: SamplerSpec,
}

/// A texture resource is well formed when its pixel data matches its
/// declared dimensions; every resource the library builds satisfies this, so
/// a draw can never bind a half-updated image.
pub open spec fn texture_wf(t: TextureResource) -> bool {
    &&& t.pixels@.len() == 4 * t.width * t.height
    &&& t.sampler == video_sampler()
}

impl TextureResource {
    /// Turns an admitted frame into a fresh texture resource sized exactly
    /// to the frame, with the fixed video sampling configuration. The caller
    /// replaces its previous resource with the result in one assignment, so
    /// the swap is atomic with respect to any single draw.
    pub fn upload(frame: Frame) -> (t: TextureResource)
        requires
            frame_wf(frame),
        ensures
            t.width == frame.width,
            t.height == frame.height,
            t.pixels@ == frame.data@,
            t.sampler == video_sampler(),
            texture_wf(t),
    {
        TextureResource {
            width: frame.width,
            height: frame.height,
            pixels: frame.data,
            sampler: SamplerSpec {
                address_mode: AddressMode::ClampToEdge,
                mag_filter: FilterMode::Linear,
                min_filter: FilterMode::Nearest,
            },
        }
    }
}

} // verus!
