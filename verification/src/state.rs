//! The renderer's surface state: preferences, the choice of a surface
//! configuration from what the surface supports, and when the surface is
//! (re)configured and drawn to.

use vstd::prelude::*;

use crate::adapter::{device_rank, is_chosen_adapter, spec_device_rank, AdapterCandidate};
use crate::formats::TextureFormat;
use crate::surface::{
    alpha_modes_contain, present_modes_contain, CompositeAlphaMode, PhysicalSize, PresentMode,
    SurfaceCapabilities, SurfaceColorSpace, SurfaceConfiguration, TextureUsages,
};

verus! {

/// Which kind of adapter to ask for.
#[derive(Clone, Copy, Debug, PartialEq, Eq, Structural)]
pub enum PowerPreference {
    /// No preference; the GPU layer picks.
    NoPreference,
    /// An adapter that saves power, such as an integrated GPU.
    LowPower,
    /// The fastest adapter, such as a discrete GPU.
    HighPerformance,
}

/// What the renderer prefers when it sets up the GPU and the surface.
#[derive(Clone, Copy, Debug, PartialEq, Eq, Structural)]
pub struct GraphicsPreferences {
    hdr: bool,
    power_preference: PowerPreference,
}

impl GraphicsPreferences {
    pub closed spec fn spec_hdr(self) -> bool {
        self.hdr
    }

    pub closed spec fn spec_power_preference(self) -> PowerPreference {
        self.power_preference
    }

    /// Whether an HDR surface is wanted.
    pub fn hdr(&self) -> (r: bool)
        ensures
            r == self.spec_hdr(),
    {
        self.hdr
    }

    /// The kind of adapter wanted.
    pub fn power_preference(&self) -> (r: PowerPreference)
        ensures
            r == self.spec_power_preference(),
    {
        self.power_preference
    }
}

impl Default for GraphicsPreferences {
    /// No HDR, and a low-power adapter.
    fn default() -> (r: Self)
        ensures
            !r.spec_hdr(),
            r.spec_power_preference() == PowerPreference::LowPower,
    {
        GraphicsPreferences { hdr: false, power_preference: PowerPreference::LowPower }
    }
}

/// The first sRGB format of `formats`, if there is one.
pub open spec fn first_srgb(formats: Seq<TextureFormat>) -> Option<TextureFormat>
    decreases formats.len(),
{
    if formats.len() == 0 {
        None
    } else if formats[0].spec_is_srgb() {
        Some(formats[0])
    } else {
        first_srgb(formats.drop_first())
    }
}

/// The surface format chosen from the supported `formats`: the HDR format
/// `Rgba16Float` when HDR is preferred and offered; else the first sRGB
/// format; else the first format; else `Bgra8UnormSrgb`.
pub open spec fn spec_pick_surface_format(formats: Seq<TextureFormat>, prefer_hdr: bool) -> TextureFormat {
    if prefer_hdr && formats.contains(TextureFormat::Rgba16Float) {
        TextureFormat::Rgba16Float
    } else {
        match first_srgb(formats) {
            Some(f) => f,
            None => if formats.len() > 0 {
                formats[0]
            } else {
                TextureFormat::Bgra8UnormSrgb
            },
        }
    }
}

/// The alpha mode chosen: the preference if supported, else `Opaque`, else
/// `Auto`, else the first supported mode.
pub open spec fn spec_pick_alpha_mode(
    modes: Seq<CompositeAlphaMode>,
    preference: Option<CompositeAlphaMode>,
) -> CompositeAlphaMode {
    if preference is Some && modes.contains(preference->0) {
        preference->0
    } else if modes.contains(CompositeAlphaMode::Opaque) {
        CompositeAlphaMode::Opaque
    } else if modes.contains(CompositeAlphaMode::Auto) {
        CompositeAlphaMode::Auto
    } else {
        modes[0]
    }
}

/// The present mode chosen: the preference if supported, else `Mailbox` if
/// supported, else `AutoVsync`.
pub open spec fn spec_pick_present_mode(
    modes: Seq<PresentMode>,
    preference: Option<PresentMode>,
) -> PresentMode {
    if preference is Some && modes.contains(preference->0) {
        preference->0
    } else if modes.contains(PresentMode::Mailbox) {
        PresentMode::Mailbox
    } else {
        PresentMode::AutoVsync
    }
}

/// The HDR color space asked for: extended sRGB (encoded) on the web, whose
/// canvases have no linear-transfer color space, and extended linear sRGB on
/// native targets.
pub open spec fn spec_hdr_color_space(web: bool) -> SurfaceColorSpace {
    if web {
        SurfaceColorSpace::ExtendedSrgb
    } else {
        SurfaceColorSpace::ExtendedSrgbLinear
    }
}

/// The color space chosen: the target's HDR color space when HDR is preferred
/// and the surface supports it for `format`, else `Auto`.
pub open spec fn spec_pick_color_space(
    prefer_hdr: bool,
    format: TextureFormat,
    caps: SurfaceCapabilities,
    web: bool,
) -> SurfaceColorSpace {
    if prefer_hdr && caps.supports(format, spec_hdr_color_space(web)) {
        spec_hdr_color_space(web)
    } else {
        SurfaceColorSpace::Auto
    }
}

/// The configuration built for a window of `size` on a surface with `caps`,
/// on the web (`web`) or a native target.
pub open spec fn spec_surface_config_is(
    config: SurfaceConfiguration,
    prefer_hdr: bool,
    caps: SurfaceCapabilities,
    size: PhysicalSize,
    web: bool,
) -> bool {
    let format = spec_pick_surface_format(caps.formats@, prefer_hdr);
    &&& config.usage == TextureUsages::spec_render_attachment()
    &&& config.width == size.width
    &&& config.height == size.height
    &&& config.alpha_mode == spec_pick_alpha_mode(caps.alpha_modes@, None)
    &&& config.present_mode == spec_pick_present_mode(caps.present_modes@, None)
    &&& config.color_space == spec_pick_color_space(prefer_hdr, format, caps, web)
    &&& config.desired_maximum_frame_latency == 2
    &&& config.format == format
    &&& config.view_formats@.len() == 0
}

/// A configuration that the surface with `caps` can take: a supported format
/// (or `Bgra8UnormSrgb` where the surface lists none), a supported alpha mode,
/// a supported or automatic present mode, and `Auto` or a color space that the
/// surface supports for the format.
pub open spec fn config_fits(caps: SurfaceCapabilities, config: SurfaceConfiguration) -> bool {
    &&& (caps.formats@.len() > 0 ==> caps.formats@.contains(config.format))
    &&& (caps.formats@.len() == 0 ==> config.format == TextureFormat::Bgra8UnormSrgb)
    &&& caps.alpha_modes@.contains(config.alpha_mode)
    &&& (caps.present_modes@.contains(config.present_mode) || config.present_mode
        == PresentMode::AutoVsync)
    &&& (config.color_space == SurfaceColorSpace::Auto || caps.supports(
        config.format,
        config.color_space,
    ))
}

/// Whether a surface of this configuration can be configured at all.
pub open spec fn has_area(config: SurfaceConfiguration) -> bool {
    config.width > 0 && config.height > 0
}

/// `first_srgb` finds an sRGB member of the sequence, or there is none.
pub proof fn lemma_first_srgb(formats: Seq<TextureFormat>)
    ensures
        first_srgb(formats) matches Some(f) ==> formats.contains(f) && f.spec_is_srgb(),
        first_srgb(formats) is None ==> forall|i: int|
            0 <= i < formats.len() ==> !(#[trigger] formats[i]).spec_is_srgb(),
    decreases formats.len(),
{
    if formats.len() > 0 && !formats[0].spec_is_srgb() {
        lemma_first_srgb(formats.drop_first());
        if let Some(f) = first_srgb(formats) {
            let k = choose|k: int| 0 <= k < formats.drop_first().len() && formats.drop_first()[k] == f;
            assert(formats[k + 1] == f);
        } else {
            assert forall|i: int| 0 <= i < formats.len() implies !(#[trigger] formats[i]).spec_is_srgb() by {
                if i > 0 {
                    assert(formats[i] == formats.drop_first()[i - 1]);
                }
            }
        }
    } else if formats.len() > 0 {
        assert(formats.contains(formats[0]));
    }
}

/// The chosen surface format is one the surface offers, or `Bgra8UnormSrgb`
/// where it offers none.
pub proof fn lemma_surface_format_offered(formats: Seq<TextureFormat>, prefer_hdr: bool)
    ensures
        formats.len() > 0 ==> formats.contains(spec_pick_surface_format(formats, prefer_hdr)),
        formats.len() == 0 ==> spec_pick_surface_format(formats, prefer_hdr)
            == TextureFormat::Bgra8UnormSrgb,
{
    lemma_first_srgb(formats);
    if formats.len() > 0 {
        assert(formats.contains(formats[0]));
    }
}

/// The chosen alpha mode is always one the surface supports.
pub proof fn lemma_alpha_mode_supported(
    modes: Seq<CompositeAlphaMode>,
    preference: Option<CompositeAlphaMode>,
)
    requires
        modes.len() > 0,
    ensures
        modes.contains(spec_pick_alpha_mode(modes, preference)),
{
    assert(modes.contains(modes[0]));
}

/// The chosen present mode is one the surface supports, or `AutoVsync`,
/// which every surface supports.
pub proof fn lemma_present_mode_supported(modes: Seq<PresentMode>, preference: Option<PresentMode>)
    ensures
        modes.contains(spec_pick_present_mode(modes, preference)) || spec_pick_present_mode(
            modes,
            preference,
        ) == PresentMode::AutoVsync,
{
}

/// The chosen color space is `Auto` or the target's HDR color space, and the
/// latter only when HDR is preferred and the surface supports it for the
/// format.
pub proof fn lemma_color_space_supported(
    prefer_hdr: bool,
    format: TextureFormat,
    caps: SurfaceCapabilities,
    web: bool,
)
    ensures
        spec_pick_color_space(prefer_hdr, format, caps, web) == SurfaceColorSpace::Auto || (
        prefer_hdr && spec_pick_color_space(prefer_hdr, format, caps, web) == spec_hdr_color_space(
            web,
        ) && caps.supports(format, spec_hdr_color_space(web))),
        !prefer_hdr ==> spec_pick_color_space(prefer_hdr, format, caps, web)
            == SurfaceColorSpace::Auto,
{
}

/// Every configuration built from a surface's capabilities fits that surface.
pub proof fn lemma_surface_config_fits(
    config: SurfaceConfiguration,
    prefer_hdr: bool,
    caps: SurfaceCapabilities,
    size: PhysicalSize,
    web: bool,
)
    requires
        caps.alpha_modes@.len() > 0,
        spec_surface_config_is(config, prefer_hdr, caps, size, web),
    ensures
        config_fits(caps, config),
{
    lemma_surface_format_offered(caps.formats@, prefer_hdr);
    lemma_alpha_mode_supported(caps.alpha_modes@, None);
    lemma_present_mode_supported(caps.present_modes@, None);
    lemma_color_space_supported(prefer_hdr, config.format, caps, web);
}

/// The first sRGB format sits at an index before which no format is sRGB.
pub proof fn lemma_first_srgb_index(formats: Seq<TextureFormat>) -> (i: int)
    requires
        first_srgb(formats) is Some,
    ensures
        0 <= i < formats.len(),
        formats[i] == first_srgb(formats)->0,
        formats[i].spec_is_srgb(),
        forall|j: int| 0 <= j < i ==> !(#[trigger] formats[j]).spec_is_srgb(),
    decreases formats.len(),
{
    if formats[0].spec_is_srgb() {
        0
    } else {
        let k = lemma_first_srgb_index(formats.drop_first());
        assert forall|j: int| 0 <= j < k + 1 implies !(#[trigger] formats[j]).spec_is_srgb() by {
            if j > 0 {
                assert(formats[j] == formats.drop_first()[j - 1]);
            }
        }
        k + 1
    }
}

/// How the surface format is chosen, over all offered format lists:
/// with HDR preferred and `Rgba16Float` offered, `Rgba16Float`; otherwise, if
/// any offered format is sRGB, the earliest sRGB format; otherwise the first
/// offered format; and `Bgra8UnormSrgb` when nothing is offered. In
/// particular `Rgba16Float` is chosen without an HDR preference only when it
/// is the first offered format.
pub proof fn lemma_surface_format_choice(formats: Seq<TextureFormat>, prefer_hdr: bool)
    ensures
        ({
            let r = spec_pick_surface_format(formats, prefer_hdr);
            let hdr_taken = prefer_hdr && formats.contains(TextureFormat::Rgba16Float);
            &&& hdr_taken ==> r == TextureFormat::Rgba16Float
            &&& (!hdr_taken && exists|i: int|
                0 <= i < formats.len() && (#[trigger] formats[i]).spec_is_srgb()) ==> exists|i: int|
                0 <= i < formats.len() && formats[i] == r && r.spec_is_srgb() && forall|j: int|
                    0 <= j < i ==> !(#[trigger] formats[j]).spec_is_srgb()
            &&& (!hdr_taken && formats.len() > 0 && forall|i: int|
                0 <= i < formats.len() ==> !(#[trigger] formats[i]).spec_is_srgb()) ==> r
                == formats[0]
            &&& formats.len() == 0 ==> r == TextureFormat::Bgra8UnormSrgb
            &&& (r == TextureFormat::Rgba16Float && !prefer_hdr) ==> (formats.len() > 0
                && formats[0] == TextureFormat::Rgba16Float)
        }),
{
    lemma_first_srgb(formats);
    if first_srgb(formats) is Some {
        let i = lemma_first_srgb_index(formats);
        assert(formats[i].spec_is_srgb());
    }
}

/// How the alpha mode is chosen, over all supported lists: a supported
/// preference wherever it is listed; without one, `Opaque` if supported, else
/// `Auto` if supported, else the first supported mode; always a supported mode.
pub proof fn lemma_alpha_mode_choice(
    modes: Seq<CompositeAlphaMode>,
    preference: Option<CompositeAlphaMode>,
)
    requires
        modes.len() > 0,
    ensures
        ({
            let r = spec_pick_alpha_mode(modes, preference);
            let pref_taken = preference is Some && modes.contains(preference->0);
            &&& modes.contains(r)
            &&& pref_taken ==> r == preference->0
            &&& (!pref_taken && modes.contains(CompositeAlphaMode::Opaque)) ==> r
                == CompositeAlphaMode::Opaque
            &&& (!pref_taken && !modes.contains(CompositeAlphaMode::Opaque) && modes.contains(
                CompositeAlphaMode::Auto,
            )) ==> r == CompositeAlphaMode::Auto
            &&& (!pref_taken && !modes.contains(CompositeAlphaMode::Opaque) && !modes.contains(
                CompositeAlphaMode::Auto,
            )) ==> r == modes[0]
            &&& (r != modes[0] && r != CompositeAlphaMode::Opaque && r
                != CompositeAlphaMode::Auto) ==> preference == Some(r)
        }),
{
    assert(modes.contains(modes[0]));
}

/// How the present mode is chosen, over all supported lists: a supported
/// preference; without one, `Mailbox` if supported, else `AutoVsync`. No other
/// supported mode is ever chosen.
pub proof fn lemma_present_mode_choice(modes: Seq<PresentMode>, preference: Option<PresentMode>)
    ensures
        ({
            let r = spec_pick_present_mode(modes, preference);
            let pref_taken = preference is Some && modes.contains(preference->0);
            &&& pref_taken ==> r == preference->0
            &&& (!pref_taken && modes.contains(PresentMode::Mailbox)) ==> r == PresentMode::Mailbox
            &&& (!pref_taken && !modes.contains(PresentMode::Mailbox)) ==> r
                == PresentMode::AutoVsync
            &&& r == PresentMode::AutoVsync || r == PresentMode::Mailbox || preference == Some(r)
            &&& r != PresentMode::AutoVsync ==> modes.contains(r)
        }),
{
}

/// What a built configuration holds, in terms of the window and the surface:
/// the window's size; `Opaque` alpha whenever the surface supports it, else
/// `Auto` if supported, else the first supported alpha mode; `Mailbox` when
/// supported, else `AutoVsync`; a frame latency of 2; render-attachment usage;
/// no extra view formats; and without an HDR preference the `Auto` color
/// space and a format that is the first offered one when that one is sRGB.
pub proof fn lemma_surface_config_choices(
    config: SurfaceConfiguration,
    prefer_hdr: bool,
    caps: SurfaceCapabilities,
    size: PhysicalSize,
    web: bool,
)
    requires
        caps.alpha_modes@.len() > 0,
        spec_surface_config_is(config, prefer_hdr, caps, size, web),
    ensures
        config.width == size.width,
        config.height == size.height,
        caps.alpha_modes@.contains(CompositeAlphaMode::Opaque) ==> config.alpha_mode
            == CompositeAlphaMode::Opaque,
        (!caps.alpha_modes@.contains(CompositeAlphaMode::Opaque) && caps.alpha_modes@.contains(
            CompositeAlphaMode::Auto,
        )) ==> config.alpha_mode == CompositeAlphaMode::Auto,
        (!caps.alpha_modes@.contains(CompositeAlphaMode::Opaque) && !caps.alpha_modes@.contains(
            CompositeAlphaMode::Auto,
        )) ==> config.alpha_mode == caps.alpha_modes@[0],
        caps.present_modes@.contains(PresentMode::Mailbox) ==> config.present_mode
            == PresentMode::Mailbox,
        !caps.present_modes@.contains(PresentMode::Mailbox) ==> config.present_mode
            == PresentMode::AutoVsync,
        config.desired_maximum_frame_latency == 2,
        config.usage.bits == 16,
        config.view_formats@.len() == 0,
        !prefer_hdr ==> config.color_space == SurfaceColorSpace::Auto,
        (!prefer_hdr && caps.formats@.len() > 0 && caps.formats@[0].spec_is_srgb()) ==> config.format
            == caps.formats@[0],
{
    lemma_alpha_mode_choice(caps.alpha_modes@, None);
    lemma_present_mode_choice(caps.present_modes@, None);
    lemma_surface_format_choice(caps.formats@, prefer_hdr);
    if !prefer_hdr && caps.formats@.len() > 0 && caps.formats@[0].spec_is_srgb() {
        assert(first_srgb(caps.formats@) == Some(caps.formats@[0]));
    }
}

/// Resizing twice is resizing once to the second size.
pub proof fn lemma_resize_last_wins(
    a: GraphicsState,
    b: GraphicsState,
    c: GraphicsState,
    w1: u32,
    h1: u32,
    w2: u32,
    h2: u32,
)
    requires
        b.is_resized_from(a, w1, h1),
        c.is_resized_from(b, w2, h2),
    ensures
        c.is_resized_from(a, w2, h2),
{
}

/// The renderer's surface state: its preferences, the surface configuration
/// in use, and whether the surface has been configured with it.
pub struct GraphicsState {
    config: SurfaceConfiguration,
    pref: GraphicsPreferences,
    is_surface_configured: bool,
}

impl GraphicsState {
    /// A surface counts as configured only with a configuration that has area.
    #[verifier::type_invariant]
    spec fn inv(self) -> bool {
        self.is_surface_configured ==> has_area(self.config)
    }

    pub closed spec fn spec_config(self) -> SurfaceConfiguration {
        self.config
    }

    pub closed spec fn spec_pref(self) -> GraphicsPreferences {
        self.pref
    }

    pub closed spec fn spec_is_surface_configured(self) -> bool {
        self.is_surface_configured
    }

    /// `self` is `before` after a resize to `width` by `height`: the
    /// configuration takes the size, all else is kept, and the surface is
    /// configured exactly when the new size has area.
    pub open spec fn is_resized_from(self, before: GraphicsState, width: u32, height: u32) -> bool {
        &&& self.spec_config() == (SurfaceConfiguration {
            width: width,
            height: height,
            ..before.spec_config()
        })
        &&& self.spec_pref() == before.spec_pref()
        &&& self.spec_is_surface_configured() == (width > 0 && height > 0)
    }

    /// Sets up the state for a window of `window_size` on a surface with
    /// `surface_caps`, on the web (`web`) or a native target, with the default
    /// preferences. The surface counts as configured exactly when the window
    /// has area; the caller then configures the surface with `config()`.
    pub fn new(window_size: PhysicalSize, surface_caps: &SurfaceCapabilities, web: bool) -> (r:
        GraphicsState)
        requires
            surface_caps.alpha_modes@.len() > 0,
        ensures
            !r.spec_pref().spec_hdr(),
            r.spec_pref().spec_power_preference() == PowerPreference::LowPower,
            spec_surface_config_is(r.spec_config(), false, *surface_caps, window_size, web),
            config_fits(*surface_caps, r.spec_config()),
            r.spec_is_surface_configured() == has_area(r.spec_config()),
    {
        let pref = GraphicsPreferences::default();
        let config = Self::create_surface_config(pref.hdr, surface_caps, &window_size, web);
        let is_surface_configured = Self::configure_surface_impl(&config);
        GraphicsState { config, pref, is_surface_configured }
    }

    /// The configuration in use.
    pub fn config(&self) -> (r: &SurfaceConfiguration)
        ensures
            *r == self.spec_config(),
    {
        &self.config
    }

    /// The preferences in use.
    pub fn preferences(&self) -> (r: GraphicsPreferences)
        ensures
            r == self.spec_pref(),
    {
        self.pref
    }

    /// Whether the surface is configured; it is only with a configuration that
    /// has area.
    pub fn is_surface_configured(&self) -> (r: bool)
        ensures
            r == self.spec_is_surface_configured(),
            r ==> has_area(self.spec_config()),
    {
        proof {
            use_type_invariant(self);
        }
        self.is_surface_configured
    }

    /// Whether a frame is drawn: only to a configured surface, which then has
    /// area.
    pub fn render(&self) -> (r: bool)
        ensures
            r == self.spec_is_surface_configured(),
            r ==> has_area(self.spec_config()),
    {
        proof {
            use_type_invariant(self);
        }
        if !self.is_surface_configured {
            return false;
        }
        true
    }

    /// Whether the surface is to be configured with `config`: exactly when the
    /// configuration has area.
    pub fn configure_surface_impl(config: &SurfaceConfiguration) -> (r: bool)
        ensures
            r == has_area(*config),
    {
        if config.width > 0 && config.height > 0 {
            return true;
        }
        false
    }

    /// Configures the surface again with the configuration in use; returns
    /// whether the caller is to configure the surface, which is then marked
    /// configured.
    pub fn configure_surface(&mut self) -> (r: bool)
        ensures
            r == has_area(old(self).spec_config()),
            final(self).spec_config() == old(self).spec_config(),
            final(self).spec_pref() == old(self).spec_pref(),
            final(self).spec_is_surface_configured() == r,
    {
        self.is_surface_configured = Self::configure_surface_impl(&self.config);
        self.is_surface_configured
    }

    /// Follows the window to a new size: the configuration takes the size and
    /// the surface is configured again; returns whether the caller is to
    /// configure the surface.
    pub fn resize(&mut self, width: u32, height: u32) -> (r: bool)
        ensures
            final(self).is_resized_from(*old(self), width, height),
            r == (width > 0 && height > 0),
    {
        self.is_surface_configured = false;
        self.config.width = width;
        self.config.height = height;
        self.configure_surface()
    }

    /// Builds the configuration for a window of `window_size` on a surface with
    /// `surface_caps`, on the web (`web`) or a native target: render-attachment
    /// usage, the window's size, the chosen format, color space, alpha mode and
    /// present mode, a frame latency of 2 and no extra view formats.
    pub fn create_surface_config(
        prefer_hdr: bool,
        surface_caps: &SurfaceCapabilities,
        window_size: &PhysicalSize,
        web: bool,
    ) -> (r: SurfaceConfiguration)
        requires
            surface_caps.alpha_modes@.len() > 0,
        ensures
            spec_surface_config_is(r, prefer_hdr, *surface_caps, *window_size, web),
            config_fits(*surface_caps, r),
            surface_caps.alpha_modes@.contains(CompositeAlphaMode::Opaque) ==> r.alpha_mode
                == CompositeAlphaMode::Opaque,
            surface_caps.present_modes@.contains(PresentMode::Mailbox) ==> r.present_mode
                == PresentMode::Mailbox,
            !surface_caps.present_modes@.contains(PresentMode::Mailbox) ==> r.present_mode
                == PresentMode::AutoVsync,
    {
        let format = Self::pick_surface_format(surface_caps, prefer_hdr);
        let r = SurfaceConfiguration {
            usage: TextureUsages::render_attachment(),
            width: window_size.width,
            height: window_size.height,
            alpha_mode: Self::pick_alpha_mode(surface_caps, None),
            present_mode: Self::pick_present_mode(surface_caps, None),
            color_space: Self::pick_color_space(prefer_hdr, format, surface_caps, web),
            desired_maximum_frame_latency: 2,
            format,
            view_formats: Vec::new(),
        };
        proof {
            lemma_surface_config_fits(r, prefer_hdr, *surface_caps, *window_size, web);
            lemma_surface_config_choices(r, prefer_hdr, *surface_caps, *window_size, web);
        }
        r
    }

    /// When HDR is preferred, the target's HDR color space (extended sRGB on
    /// the web, extended linear sRGB on native targets) if the surface
    /// supports it for `format`; `Auto` otherwise.
    pub fn pick_color_space(
        prefer_hdr: bool,
        format: TextureFormat,
        surface_caps: &SurfaceCapabilities,
        web: bool,
    ) -> (r: SurfaceColorSpace)
        ensures
            r == spec_pick_color_space(prefer_hdr, format, *surface_caps, web),
    {
        if prefer_hdr {
            let pref = if web {
                SurfaceColorSpace::ExtendedSrgb
            } else {
                SurfaceColorSpace::ExtendedSrgbLinear
            };
            if let Some(color_spaces) = pref.to_color_spaces() {
                if surface_caps.color_spaces(format).intersects(&color_spaces) {
                    return pref;
                }
            }
        }
        SurfaceColorSpace::Auto
    }

    /// `Rgba16Float` when HDR is preferred and offered; else the first sRGB
    /// format offered; else the first format offered; else `Bgra8UnormSrgb`.
    pub fn pick_surface_format(surface_caps: &SurfaceCapabilities, prefer_hdr: bool) -> (r: TextureFormat)
        ensures
            r == spec_pick_surface_format(surface_caps.formats@, prefer_hdr),
            surface_caps.formats@.len() > 0 ==> surface_caps.formats@.contains(r),
            surface_caps.formats@.len() == 0 ==> r == TextureFormat::Bgra8UnormSrgb,
            (!prefer_hdr && surface_caps.formats@.len() > 0 && forall|i: int|
                0 <= i < surface_caps.formats@.len() ==> !(
                #[trigger] surface_caps.formats@[i]).spec_is_srgb()) ==> r
                == surface_caps.formats@[0],
            (r == TextureFormat::Rgba16Float && !prefer_hdr) ==> surface_caps.formats@[0]
                == TextureFormat::Rgba16Float,
    {
        proof {
            lemma_surface_format_choice(surface_caps.formats@, prefer_hdr);
            lemma_surface_format_offered(surface_caps.formats@, prefer_hdr);
        }
        let formats = &surface_caps.formats;
        let n = formats.len();
        if prefer_hdr {
            let mut i: usize = 0;
            while i < n
                invariant
                    n == formats@.len(),
                    formats@ == surface_caps.formats@,
                    prefer_hdr,
                    i <= n,
                    forall|j: int| 0 <= j < i ==> formats@[j] != TextureFormat::Rgba16Float,
                decreases n - i,
            {
                if formats[i] == TextureFormat::Rgba16Float {
                    proof {
                        assert(formats@[i as int] == TextureFormat::Rgba16Float);
                    }
                    return formats[i];
                }
                i = i + 1;
            }
        }
        let mut i: usize = 0;
        proof {
            assert(formats@.subrange(0, n as int) =~= formats@);
        }
        while i < n
            invariant
                n == formats@.len(),
                formats@ == surface_caps.formats@,
                i <= n,
                first_srgb(formats@) == first_srgb(formats@.subrange(i as int, n as int)),
                prefer_hdr ==> !formats@.contains(TextureFormat::Rgba16Float),
            decreases n - i,
        {
            let f = formats[i];
            proof {
                let rest = formats@.subrange(i as int, n as int);
                assert(rest[0] == f);
                assert(rest.drop_first() =~= formats@.subrange(i + 1, n as int));
            }
            if f.is_srgb() {
                proof {
                    assert(formats@[i as int] == f);
                }
                return f;
            }
            i = i + 1;
        }
        if n > 0 {
            formats[0]
        } else {
            TextureFormat::Bgra8UnormSrgb
        }
    }

    /// The preference if the surface supports it, else `Opaque`, else `Auto`,
    /// else the first supported alpha mode.
    pub fn pick_alpha_mode(
        surface_caps: &SurfaceCapabilities,
        preference: Option<CompositeAlphaMode>,
    ) -> (r: CompositeAlphaMode)
        requires
            surface_caps.alpha_modes@.len() > 0,
        ensures
            r == spec_pick_alpha_mode(surface_caps.alpha_modes@, preference),
            surface_caps.alpha_modes@.contains(r),
            (preference is Some && surface_caps.alpha_modes@.contains(preference->0)) ==> r
                == preference->0,
    {
        proof {
            lemma_alpha_mode_choice(surface_caps.alpha_modes@, preference);
            lemma_alpha_mode_supported(surface_caps.alpha_modes@, preference);
        }
        let modes = &surface_caps.alpha_modes;
        let fallback = modes[0];
        if let Some(p) = preference {
            if alpha_modes_contain(modes, p) {
                return p;
            }
        }
        if alpha_modes_contain(modes, CompositeAlphaMode::Opaque) {
            return CompositeAlphaMode::Opaque;
        }
        if alpha_modes_contain(modes, CompositeAlphaMode::Auto) {
            return CompositeAlphaMode::Auto;
        }
        fallback
    }

    /// The preference if the surface supports it, else `Mailbox` if supported,
    /// else `AutoVsync`.
    pub fn pick_present_mode(
        surface_caps: &SurfaceCapabilities,
        preference: Option<PresentMode>,
    ) -> (r: PresentMode)
        ensures
            r == spec_pick_present_mode(surface_caps.present_modes@, preference),
            surface_caps.present_modes@.contains(r) || r == PresentMode::AutoVsync,
            r == PresentMode::AutoVsync || r == PresentMode::Mailbox || preference == Some(r),
            (preference is None || !surface_caps.present_modes@.contains(preference->0))
                && !surface_caps.present_modes@.contains(PresentMode::Mailbox) ==> r
                == PresentMode::AutoVsync,
    {
        proof {
            lemma_present_mode_choice(surface_caps.present_modes@, preference);
        }
        let modes = &surface_caps.present_modes;
        if let Some(p) = preference {
            if present_modes_contain(modes, p) {
                return p;
            }
        }
        if present_modes_contain(modes, PresentMode::Mailbox) {
            return PresentMode::Mailbox;
        }
        PresentMode::AutoVsync
    }

    /// Of the adapters of one backend, the one to use: among those that can
    /// present to the surface, the best ranked (integrated, then discrete,
    /// then any other), the last of equals; `None` when none can present.
    pub fn pick_adapter_from_backend(candidates: &Vec<AdapterCandidate>) -> (r: Option<usize>)
        ensures
            r is None <==> forall|j: int|
                0 <= j < candidates@.len() ==> !(#[trigger] candidates@[j]).surface_supported,
            r matches Some(i) ==> is_chosen_adapter(candidates@, i as int),
    {
        let n = candidates.len();
        let mut best: Option<usize> = None;
        let mut best_rank: u8 = 0;
        let mut i: usize = 0;
        while i < n
            invariant
                n == candidates@.len(),
                i <= n,
                best is None <==> forall|j: int|
                    0 <= j < i ==> !(#[trigger] candidates@[j]).surface_supported,
                best matches Some(b) ==> {
                    &&& b < i
                    &&& candidates@[b as int].surface_supported
                    &&& best_rank == spec_device_rank(candidates@[b as int].device_type)
                    &&& forall|j: int|
                        0 <= j < i && (#[trigger] candidates@[j]).surface_supported
                            ==> spec_device_rank(candidates@[j].device_type) <= best_rank
                    &&& forall|j: int|
                        b < j < i && (#[trigger] candidates@[j]).surface_supported
                            ==> spec_device_rank(candidates@[j].device_type) < best_rank
                },
            decreases n - i,
        {
            let c = candidates[i];
            if c.surface_supported {
                let rank = device_rank(c.device_type);
                if best.is_none() || rank >= best_rank {
                    best = Some(i);
                    best_rank = rank;
                }
            }
            i = i + 1;
        }
        best
    }
}

} // verus!
