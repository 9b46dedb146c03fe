//! Image metadata: dimensionality, extent, layer and mip-level counts,
//! and the compatibility rule between an image's kind and a view's kind.
//!
//! The scheduler consumes this metadata to detect whole-image
//! replacement; the resource layer supplies it alongside the raw handle.

use vstd::prelude::*;
use vstd::arithmetic::power2::{lemma2_to64, pow2};
use crate::batch::Extent;

verus! {

/// View capability flag: a three-dimensional image may be viewed as a
/// two-dimensional array.
pub const VIEW_CAPS_KIND_2D_ARRAY: u32 = 0x2;

/// Dimensionality and size of an image: width, height and depth in
/// texels, array layer count, and sample count where it applies.
#[derive(Clone, Copy, Debug, PartialEq, Eq, Structural)]
pub enum Kind {
    /// One-dimensional: width and layer count.
    D1(u32, u16),
    /// Two-dimensional: width, height, layer count and sample count.
    D2(u32, u32, u16, u8),
    /// Three-dimensional: width, height and depth.
    D3(u32, u32, u32),
}

/// The kind of image view requested.
#[derive(Clone, Copy, Debug, PartialEq, Eq, Structural)]
pub enum ViewKind {
    D1,
    D1Array,
    D2,
    D2Array,
    Cube,
    CubeArray,
    D3,
}

/// Memory tiling mode of an image.
#[derive(Clone, Copy, Debug, PartialEq, Eq, Structural)]
pub enum Tiling {
    Optimal,
    Linear,
}

/// Full extent of an image of kind `k`: missing dimensions are one.
pub open spec fn spec_extent(k: Kind) -> Extent {
    match k {
        Kind::D1(w, _) => Extent { width: w, height: 1, depth: 1 },
        Kind::D2(w, h, _, _) => Extent { width: w, height: h, depth: 1 },
        Kind::D3(w, h, d) => Extent { width: w, height: h, depth: d },
    }
}

/// Number of array layers of an image of kind `k`; a three-dimensional
/// image has exactly one.
pub open spec fn spec_num_layers(k: Kind) -> u16 {
    match k {
        Kind::D1(_, layers) => layers,
        Kind::D2(_, _, layers, _) => layers,
        Kind::D3(_, _, _) => 1,
    }
}

/// Number of halvings until `d` reaches zero: the mip chain length of a
/// dominant dimension `d`, which is one more than the floor of its
/// base-two logarithm (and zero for zero).
pub open spec fn levels_of(d: int) -> int
    decreases d,
{
    if d <= 0 {
        0
    } else {
        1 + levels_of(d / 2)
    }
}

/// A mip chain length is never negative.
proof fn lemma_levels_of_nonneg(d: int)
    ensures
        levels_of(d) >= 0,
    decreases d,
{
    if d > 0 {
        lemma_levels_of_nonneg(d / 2);
    }
}

/// The mip chain of a dimension below `pow2(k)` has at most `k` levels.
proof fn lemma_levels_of_pow2(d: int, k: nat)
    requires
        0 <= d < pow2(k),
    ensures
        levels_of(d) <= k,
    decreases k,
{
    if d > 0 {
        assert(k > 0) by {
            if k == 0 {
                assert(pow2(0) == 1) by {
                    lemma2_to64();
                }
            }
        }
        assert(pow2(k) == 2 * pow2((k - 1) as nat)) by {
            vstd::arithmetic::power2::lemma_pow2_unfold(k);
        }
        lemma_levels_of_pow2(d / 2, (k - 1) as nat);
    }
}

/// Mip chain length of the dominant dimension of `k`: the greatest of
/// width, height and depth, halved to zero.
pub open spec fn spec_num_levels(k: Kind) -> int {
    let e = spec_extent(k);
    let wh = if e.width >= e.height {
        e.width
    } else {
        e.height
    };
    let dom = if wh >= e.depth {
        wh
    } else {
        e.depth
    };
    levels_of(dom as int)
}

impl Kind {
    /// Full extent of the image; missing dimensions are one.
    pub fn extent(&self) -> (r: Extent)
        ensures
            r == spec_extent(*self),
    {
        match *self {
            Kind::D1(w, _) => Extent { width: w, height: 1, depth: 1 },
            Kind::D2(w, h, _, _) => Extent { width: w, height: h, depth: 1 },
            Kind::D3(w, h, d) => Extent { width: w, height: h, depth: d },
        }
    }

    /// Number of array layers; a three-dimensional image has one.
    pub fn num_layers(&self) -> (r: u16)
        ensures
            r == spec_num_layers(*self),
    {
        match *self {
            Kind::D1(_, layers) => layers,
            Kind::D2(_, _, layers, _) => layers,
            Kind::D3(_, _, _) => 1,
        }
    }

    /// Greatest meaningful mip-level count: one more than the floor of
    /// the base-two logarithm of the dominant dimension.
    pub fn num_levels(&self) -> (r: u32)
        ensures
            r == spec_num_levels(*self),
    {
        let e = self.extent();
        let wh: u32 = if e.width >= e.height {
            e.width
        } else {
            e.height
        };
        let dominant: u32 = if wh >= e.depth {
            wh
        } else {
            e.depth
        };
        proof {
            assert(dominant < pow2(32)) by {
                lemma2_to64();
            }
            lemma_levels_of_pow2(dominant as int, 32);
        }
        let mut v: u32 = dominant;
        let mut n: u32 = 0;
        while v > 0
            invariant
                n + levels_of(v as int) == levels_of(dominant as int),
                levels_of(dominant as int) <= 32,
                n <= 32,
        decreases v,
        {
            proof {
                lemma_levels_of_nonneg(v as int / 2);
            }
            v = v / 2;
            n = n + 1;
        }
        n
    }
}

/// Image metadata: kind, mip-level count, format code, tiling, view
/// capabilities and usage flags.
#[derive(Clone, Copy, Debug, PartialEq, Eq, Structural)]
pub struct ImageInfo {
    /// Kind of the image.
    pub kind: Kind,
    /// Image mip-level count.
    pub levels: u8,
    /// Image format code.
    pub format: u32,
    /// Image tiling mode.
    pub tiling: Tiling,
    /// Image view capability flags.
    pub view_caps: u32,
    /// Image usage flags.
    pub usage: u32,
}

impl ImageInfo {
    /// An image may not carry more mip levels than its dominant
    /// dimension admits.
    pub fn levels_fit(&self) -> (r: bool)
        ensures
            r == (self.levels as int <= spec_num_levels(self.kind)),
    {
        let max = self.kind.num_levels();
        (self.levels as u32) <= max
    }
}

/// An image as the scheduler sees it: the raw handle the caller knows
/// it by, and the metadata needed to detect whole-image replacement.
#[derive(Clone, Copy, Debug, PartialEq, Eq, Structural)]
pub struct Image {
    /// Caller-side handle of the raw image resource.
    pub id: u64,
    /// Metadata of the image.
    pub info: ImageInfo,
}

impl Image {
    /// Get the raw image handle.
    pub fn raw(&self) -> (r: u64)
        ensures
            r == self.id,
    {
        self.id
    }

    /// Get the image metadata.
    pub fn info(&self) -> (r: &ImageInfo)
        ensures
            r == self.info,
    {
        &self.info
    }

    /// Get the kind of the image.
    pub fn kind(&self) -> (r: Kind)
        ensures
            r == self.info.kind,
    {
        self.info.kind
    }

    /// Get the format code of the image.
    pub fn format(&self) -> (r: u32)
        ensures
            r == self.info.format,
    {
        self.info.format
    }

    /// Get the mip-level count of the image.
    pub fn levels(&self) -> (r: u8)
        ensures
            r == self.info.levels,
    {
        self.info.levels
    }

    /// Get the array layer count of the image.
    pub fn layers(&self) -> (r: u16)
        ensures
            r == spec_num_layers(self.info.kind),
    {
        self.info.kind.num_layers()
    }
}

/// What an image view asks of its image: the view's kind, format code,
/// component swizzle code, and the subresource range it covers.
#[derive(Clone, Copy, Debug, PartialEq, Eq, Structural)]
pub struct ImageViewInfo {
    /// Kind of the view.
    pub view_kind: ViewKind,
    /// Format code of the view.
    pub format: u32,
    /// Component swizzle code of the view.
    pub swizzle: u32,
    /// Subresource range the view covers.
    pub range: crate::batch::SubresourceRange,
}

impl ImageViewInfo {
    /// A view of this kind may be made of `image`: the precondition a
    /// view constructor must check before it touches the device.
    pub fn compatible_with(&self, image: &Image) -> (r: bool)
        ensures
            r == spec_match_kind(image.info.kind, self.view_kind, image.info.view_caps),
    {
        match_kind(image.info.kind, self.view_kind, image.info.view_caps)
    }
}

/// An image of kind `kind` may be viewed with `view_kind`: the
/// dimensionalities must agree, arrays of the same dimensionality are
/// allowed, and a three-dimensional image admits two-dimensional views
/// exactly when its capabilities say so.
pub open spec fn spec_match_kind(kind: Kind, view_kind: ViewKind, view_caps: u32) -> bool {
    match kind {
        Kind::D1(_, _) => view_kind == ViewKind::D1 || view_kind == ViewKind::D1Array,
        Kind::D2(_, _, _, _) => view_kind == ViewKind::D2 || view_kind == ViewKind::D2Array,
        Kind::D3(_, _, _) => if view_caps == VIEW_CAPS_KIND_2D_ARRAY {
            view_kind == ViewKind::D2 || view_kind == ViewKind::D2Array
        } else {
            view_kind == ViewKind::D3
        },
    }
}

/// Decide [`spec_match_kind`].
pub fn match_kind(kind: Kind, view_kind: ViewKind, view_caps: u32) -> (r: bool)
    ensures
        r == spec_match_kind(kind, view_kind, view_caps),
{
    match kind {
        Kind::D1(_, _) => match view_kind {
            ViewKind::D1 | ViewKind::D1Array => true,
            _ => false,
        },
        Kind::D2(_, _, _, _) => match view_kind {
            ViewKind::D2 | ViewKind::D2Array => true,
            _ => false,
        },
        Kind::D3(_, _, _) => {
            if view_caps == VIEW_CAPS_KIND_2D_ARRAY {
                match view_kind {
                    ViewKind::D2 | ViewKind::D2Array => true,
                    _ => false,
                }
            } else {
                match view_kind {
                    ViewKind::D3 => true,
                    _ => false,
                }
            }
        },
    }
}

} // verus!
