//! What a surface offers and how it is configured, as plain values.

use vstd::prelude::*;

use crate::formats::TextureFormat;

verus! {

/// Timing with which frames are shown to the user.
#[derive(Clone, Copy, Debug, PartialEq, Eq, Structural)]
pub enum PresentMode {
    AutoVsync,
    AutoNoVsync,
    Fifo,
    FifoRelaxed,
    Immediate,
    Mailbox,
}

/// How the alpha channel of the surface's textures is composited.
#[derive(Clone, Copy, Debug, PartialEq, Eq, Structural)]
pub enum CompositeAlphaMode {
    Auto,
    Opaque,
    PreMultiplied,
    PostMultiplied,
    Inherit,
}

/// The color space in which the presentation engine reads a surface texture.
#[derive(Clone, Copy, Debug, PartialEq, Eq, Structural)]
pub enum SurfaceColorSpace {
    Auto,
    Srgb,
    ExtendedSrgbLinear,
    DisplayP3,
    Bt2100Pq,
    Bt2100Hlg,
    ExtendedSrgb,
    ExtendedDisplayP3,
}

/// A set of color spaces, one bit per color space other than `Auto`.
#[derive(Clone, Copy, Debug, PartialEq, Eq, Structural)]
pub struct SurfaceColorSpaces {
    pub bits: u32,
}

/// One format a surface can present, with the color spaces it can present it in.
#[derive(Clone, Copy, Debug, PartialEq, Eq, Structural)]
pub struct SurfaceFormatCapabilities {
    pub format: TextureFormat,
    pub color_spaces: SurfaceColorSpaces,
}

/// What a surface supports together with a given adapter.
#[derive(Debug)]
pub struct SurfaceCapabilities {
    /// Supported formats, the preferred one first.
    pub formats: Vec<TextureFormat>,
    /// Supported formats with their color spaces, in the same order.
    pub format_capabilities: Vec<SurfaceFormatCapabilities>,
    /// Supported presentation modes.
    pub present_modes: Vec<PresentMode>,
    /// Supported alpha modes.
    pub alpha_modes: Vec<CompositeAlphaMode>,
}

/// The size of a window's drawable area, in physical pixels.
#[derive(Clone, Copy, Debug, PartialEq, Eq, Structural)]
pub struct PhysicalSize {
    pub width: u32,
    pub height: u32,
}

/// A set of texture usages, one bit per usage.
#[derive(Clone, Copy, Debug, PartialEq, Eq, Structural)]
pub struct TextureUsages {
    pub bits: u32,
}

/// How a surface is configured for presentation.
#[derive(Debug)]
pub struct SurfaceConfiguration {
    pub usage: TextureUsages,
    pub format: TextureFormat,
    pub color_space: SurfaceColorSpace,
    pub width: u32,
    pub height: u32,
    pub present_mode: PresentMode,
    pub desired_maximum_frame_latency: u32,
    pub alpha_mode: CompositeAlphaMode,
    pub view_formats: Vec<TextureFormat>,
}

impl SurfaceColorSpace {
    /// The bit that stands for this color space in a `SurfaceColorSpaces`;
    /// `Auto` has none.
    pub open spec fn spec_flag(self) -> Option<u32> {
        match self {
            SurfaceColorSpace::Auto => None,
            SurfaceColorSpace::Srgb => Some(1u32),
            SurfaceColorSpace::ExtendedSrgbLinear => Some(2u32),
            SurfaceColorSpace::DisplayP3 => Some(4u32),
            SurfaceColorSpace::Bt2100Pq => Some(8u32),
            SurfaceColorSpace::Bt2100Hlg => Some(16u32),
            SurfaceColorSpace::ExtendedSrgb => Some(32u32),
            SurfaceColorSpace::ExtendedDisplayP3 => Some(64u32),
        }
    }

    /// The set that holds just this color space, or `None` for `Auto`.
    pub fn to_color_spaces(self) -> (r: Option<SurfaceColorSpaces>)
        ensures
            r == (match self.spec_flag() {
                Some(b) => Some(SurfaceColorSpaces { bits: b }),
                None => None,
            }),
    {
        match self {
            SurfaceColorSpace::Auto => None,
            SurfaceColorSpace::Srgb => Some(SurfaceColorSpaces { bits: 1 }),
            SurfaceColorSpace::ExtendedSrgbLinear => Some(SurfaceColorSpaces { bits: 2 }),
            SurfaceColorSpace::DisplayP3 => Some(SurfaceColorSpaces { bits: 4 }),
            SurfaceColorSpace::Bt2100Pq => Some(SurfaceColorSpaces { bits: 8 }),
            SurfaceColorSpace::Bt2100Hlg => Some(SurfaceColorSpaces { bits: 16 }),
            SurfaceColorSpace::ExtendedSrgb => Some(SurfaceColorSpaces { bits: 32 }),
            SurfaceColorSpace::ExtendedDisplayP3 => Some(SurfaceColorSpaces { bits: 64 }),
        }
    }
}

impl SurfaceColorSpaces {
    /// Whether the two sets share a color space.
    pub open spec fn spec_intersects(self, other: SurfaceColorSpaces) -> bool {
        self.bits & other.bits != 0
    }

    /// Whether this set holds the given color space (never true for `Auto`).
    pub open spec fn has(self, cs: SurfaceColorSpace) -> bool {
        match cs.spec_flag() {
            Some(b) => self.bits & b != 0,
            None => false,
        }
    }

    pub fn intersects(&self, other: &SurfaceColorSpaces) -> (r: bool)
        ensures
            r == self.spec_intersects(*other),
    {
        self.bits & other.bits != 0
    }
}

/// The union of the color-space sets of the entries that describe `format`.
pub open spec fn color_spaces_for(
    caps: Seq<SurfaceFormatCapabilities>,
    format: TextureFormat,
) -> u32
    decreases caps.len(),
{
    if caps.len() == 0 {
        0u32
    } else {
        let last = caps.last();
        let rest = color_spaces_for(caps.drop_last(), format);
        if last.format == format {
            rest | last.color_spaces.bits
        } else {
            rest
        }
    }
}

impl SurfaceCapabilities {
    /// The color spaces the surface supports for `format`: empty when the
    /// format is not supported.
    pub open spec fn spec_color_spaces(&self, format: TextureFormat) -> SurfaceColorSpaces {
        SurfaceColorSpaces { bits: color_spaces_for(self.format_capabilities@, format) }
    }

    /// Whether the surface can present `format` in color space `cs`.
    pub open spec fn supports(&self, format: TextureFormat, cs: SurfaceColorSpace) -> bool {
        self.spec_color_spaces(format).has(cs)
    }

    /// The union of the color spaces listed for `format`.
    pub fn color_spaces(&self, format: TextureFormat) -> (r: SurfaceColorSpaces)
        ensures
            r == self.spec_color_spaces(format),
    {
        let n = self.format_capabilities.len();
        let mut acc: u32 = 0;
        let mut i: usize = 0;
        while i < n
            invariant
                n == self.format_capabilities@.len(),
                i <= n,
                acc == color_spaces_for(self.format_capabilities@.subrange(0, i as int), format),
            decreases n - i,
        {
            let fc = self.format_capabilities[i];
            proof {
                let s = self.format_capabilities@.subrange(0, i + 1);
                assert(s.drop_last() =~= self.format_capabilities@.subrange(0, i as int));
            }
            if fc.format == format {
                acc = acc | fc.color_spaces.bits;
            }
            i = i + 1;
        }
        proof {
            assert(self.format_capabilities@.subrange(0, n as int) =~= self.format_capabilities@);
        }
        SurfaceColorSpaces { bits: acc }
    }
}

impl TextureUsages {
    /// The bit of the render-attachment usage.
    pub open spec fn spec_render_attachment() -> TextureUsages {
        TextureUsages { bits: 16u32 }
    }

    /// The texture can be the output of a render pass.
    pub fn render_attachment() -> (r: TextureUsages)
        ensures
            r == Self::spec_render_attachment(),
    {
        TextureUsages { bits: 16 }
    }
}

/// Whether `v` holds `m`.
pub fn present_modes_contain(v: &Vec<PresentMode>, m: PresentMode) -> (r: bool)
    ensures
        r == v@.contains(m),
{
    let mut i: usize = 0;
    while i < v.len()
        invariant
            i <= v@.len(),
            forall|j: int| 0 <= j < i ==> v@[j] != m,
        decreases v@.len() - i,
    {
        if v[i] == m {
            return true;
        }
        i = i + 1;
    }
    false
}

/// Whether `v` holds `m`.
pub fn alpha_modes_contain(v: &Vec<CompositeAlphaMode>, m: CompositeAlphaMode) -> (r: bool)
    ensures
        r == v@.contains(m),
{
    let mut i: usize = 0;
    while i < v.len()
        invariant
            i <= v@.len(),
            forall|j: int| 0 <= j < i ==> v@[j] != m,
        decreases v@.len() - i,
    {
        if v[i] == m {
            return true;
        }
        i = i + 1;
    }
    false
}

} // verus!
