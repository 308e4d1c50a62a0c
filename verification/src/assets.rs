//! Decoded image assets as the renderer consumes them: plain dimensions and
//! a row-major RGBA byte buffer. Decoding a file into these bytes is the
//! caller's business; this module fixes what a well-formed asset is.

use vstd::prelude::*;

verus! {

/// A decoded image: `data` holds `width * height` RGBA quadruples, or
/// nothing at all for the blank fallback asset.
pub struct ImageAsset {
    pub width: usize,
    pub height: usize,
    pub data: Vec<u8>,
}

impl ImageAsset {
    /// Either a full RGBA buffer for the stated size, or the empty fallback.
    pub open spec fn wf(self) -> bool {
        self.data@.len() == 4 * self.width * self.height || self.data@.len() == 0
    }

    /// Take a decoded RGBA buffer in, if it matches the stated dimensions.
    pub fn from_rgba(width: usize, height: usize, data: Vec<u8>) -> (r: Option<ImageAsset>)
        ensures
            match r {
                Some(a) => a.wf() && a.width == width && a.height == height && a.data@ == data@,
                None => data@.len() != 4 * width * height,
            },
    {
        let n = data.len();
        if width == 0 || height == 0 {
            proof {
                assert(4 * width * height == 0) by (nonlinear_arith)
                    requires
                        width == 0 || height == 0;
            }
            if n == 0 {
                return Some(ImageAsset { width, height, data });
            } else {
                return None;
            }
        }
        let quads = match 4usize.checked_mul(width) {
            Some(q) => q,
            None => {
                // A row of the stated width alone overflows, so no buffer
                // can match the stated size.
                proof {
                    assert(4 * width * height > usize::MAX) by (nonlinear_arith)
                        requires
                            4 * width > usize::MAX,
                            height >= 1;
                }
                return None;
            },
        };
        let expected = match quads.checked_mul(height) {
            Some(e) => e,
            None => {
                proof {
                    assert(4 * width * height == quads * height) by (nonlinear_arith)
                        requires
                            quads == 4 * width;
                }
                return None;
            },
        };
        if n == expected {
            Some(ImageAsset { width, height, data })
        } else {
            None
        }
    }

    /// The blank asset used when an image cannot be read: the stated size
    /// with no pixel data.
    pub fn fallback(width: usize, height: usize) -> (r: ImageAsset)
        ensures
            r.wf(),
            r.width == width,
            r.height == height,
            r.data@.len() == 0,
    {
        ImageAsset { width, height, data: Vec::new() }
    }
}

} // verus!
