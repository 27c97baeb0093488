//! The geometry of a bitmap of the pipeline.
//!
//! The pixel memory itself stays with the pipeline's allocator. The adapters only
//! need to know how it is laid out, to tell libwebp where it may read and write.

use vstd::prelude::*;
use crate::records::PixelFormat;

verus! {

/// Width, height, row stride and pixel layout of an allocated bitmap.
///
/// Every value describes memory that can exist: the sizes are positive and fit a
/// C `int`, a row holds at least `width` pixels, and the byte length fits `usize`.
#[derive(Clone, Copy, Debug, PartialEq, Eq)]
pub struct BitmapBgra {
    w: u32,
    h: u32,
    stride: u32,
    fmt: PixelFormat,
}

impl BitmapBgra {
    /// Whether a bitmap can have this geometry.
    pub open spec fn valid_geometry(w: u32, h: u32, stride: u32, fmt: PixelFormat) -> bool {
        &&& 0 < w <= i32::MAX
        &&& 0 < h <= i32::MAX
        &&& w * fmt.pixel_bytes() <= stride <= i32::MAX
        &&& stride * h <= usize::MAX
    }

    #[verifier::type_invariant]
    spec fn inv(self) -> bool {
        Self::valid_geometry(self.w, self.h, self.stride, self.fmt)
    }

    /// The width in pixels.
    pub closed spec fn w(self) -> u32 {
        self.w
    }

    /// The height in pixels.
    pub closed spec fn h(self) -> u32 {
        self.h
    }

    /// The distance in bytes from one row to the next.
    pub closed spec fn row_stride(self) -> u32 {
        self.stride
    }

    /// The pixel layout.
    pub closed spec fn fmt(self) -> PixelFormat {
        self.fmt
    }

    /// Whether the geometry is one that [`BitmapBgra::new`] accepts. It holds of every
    /// bitmap that a program can hold.
    pub open spec fn wf(self) -> bool {
        Self::valid_geometry(self.w(), self.h(), self.row_stride(), self.fmt())
    }

    /// Describes a bitmap, if one can have this geometry.
    pub fn new(w: u32, h: u32, stride: u32, fmt: PixelFormat) -> (r: Option<BitmapBgra>)
        ensures
            r is Some <==> Self::valid_geometry(w, h, stride, fmt),
            r matches Some(b) ==> b.w() == w && b.h() == h && b.row_stride() == stride && b.fmt() == fmt,
    {
        let limit: u64 = 0x7fff_ffff;
        if w == 0 || h == 0 || w as u64 > limit || h as u64 > limit || stride as u64 > limit {
            return None;
        }
        let pixel: u32 = fmt.bytes_per_pixel();
        assert(w * pixel <= 0x7fff_ffff * 4) by (nonlinear_arith)
            requires
                w <= 0x7fff_ffff,
                pixel <= 4,
        ;
        let row: u64 = w as u64 * pixel as u64;
        if row > stride as u64 {
            return None;
        }
        assert(stride * h <= 0x7fff_ffff * 0x7fff_ffff) by (nonlinear_arith)
            requires
                stride <= 0x7fff_ffff,
                h <= 0x7fff_ffff,
        ;
        let bytes: u64 = stride as u64 * h as u64;
        if bytes > usize::MAX as u64 {
            return None;
        }
        Some(BitmapBgra { w, h, stride, fmt })
    }

    /// The width in pixels.
    pub fn width(&self) -> (r: u32)
        ensures
            r == self.w(),
            self.wf(),
    {
        proof {
            use_type_invariant(self);
        }
        self.w
    }

    /// The height in pixels.
    pub fn height(&self) -> (r: u32)
        ensures
            r == self.h(),
            self.wf(),
    {
        proof {
            use_type_invariant(self);
        }
        self.h
    }

    /// The distance in bytes from one row to the next.
    pub fn stride(&self) -> (r: u32)
        ensures
            r == self.row_stride(),
            self.wf(),
    {
        proof {
            use_type_invariant(self);
        }
        self.stride
    }

    /// The pixel layout.
    pub fn format(&self) -> (r: PixelFormat)
        ensures
            r == self.fmt(),
            self.wf(),
    {
        proof {
            use_type_invariant(self);
        }
        self.fmt
    }

    /// The length in bytes of the pixel memory: one stride for each row.
    pub fn byte_len(&self) -> (r: usize)
        ensures
            r == self.row_stride() * self.h(),
            self.wf(),
    {
        proof {
            use_type_invariant(self);
        }
        self.stride as usize * self.h as usize
    }
}

} // verus!
