use msdftext::formats::{AstcBlock, AstcChannel, TextureFormat};
use msdftext::state::{GraphicsPreferences, GraphicsState, PowerPreference};
use msdftext::surface::{
    CompositeAlphaMode, PhysicalSize, PresentMode, SurfaceCapabilities, SurfaceColorSpace,
    SurfaceColorSpaces, SurfaceFormatCapabilities, TextureUsages,
};

fn caps(
    formats: Vec<TextureFormat>,
    format_capabilities: Vec<SurfaceFormatCapabilities>,
    present_modes: Vec<PresentMode>,
    alpha_modes: Vec<CompositeAlphaMode>,
) -> SurfaceCapabilities {
    SurfaceCapabilities { formats, format_capabilities, present_modes, alpha_modes }
}

fn fc(format: TextureFormat, bits: u32) -> SurfaceFormatCapabilities {
    SurfaceFormatCapabilities { format, color_spaces: SurfaceColorSpaces { bits } }
}

#[test]
fn srgb_formats_are_recognised() {
    assert!(TextureFormat::Bgra8UnormSrgb.is_srgb());
    assert!(TextureFormat::Rgba8UnormSrgb.is_srgb());
    assert!(TextureFormat::Bc7RgbaUnormSrgb.is_srgb());
    assert!(TextureFormat::Etc2Rgba8UnormSrgb.is_srgb());
    assert!(TextureFormat::Astc { block: AstcBlock::B8x8, channel: AstcChannel::UnormSrgb }.is_srgb());
    assert!(!TextureFormat::Astc { block: AstcBlock::B8x8, channel: AstcChannel::Unorm }.is_srgb());
    assert!(!TextureFormat::Bgra8Unorm.is_srgb());
    assert!(!TextureFormat::Rgba16Float.is_srgb());
    assert!(!TextureFormat::Bc6hRgbUfloat.is_srgb());
}

#[test]
fn color_space_flags() {
    assert_eq!(SurfaceColorSpace::Auto.to_color_spaces(), None);
    assert_eq!(SurfaceColorSpace::Srgb.to_color_spaces(), Some(SurfaceColorSpaces { bits: 1 }));
    assert_eq!(
        SurfaceColorSpace::ExtendedSrgbLinear.to_color_spaces(),
        Some(SurfaceColorSpaces { bits: 2 })
    );
    assert_eq!(
        SurfaceColorSpace::ExtendedDisplayP3.to_color_spaces(),
        Some(SurfaceColorSpaces { bits: 64 })
    );
    assert!(SurfaceColorSpaces { bits: 3 }.intersects(&SurfaceColorSpaces { bits: 2 }));
    assert!(!SurfaceColorSpaces { bits: 1 }.intersects(&SurfaceColorSpaces { bits: 2 }));
}

#[test]
fn color_spaces_are_the_union_over_the_format() {
    let c = caps(
        vec![],
        vec![
            fc(TextureFormat::Rgba16Float, 1),
            fc(TextureFormat::Bgra8Unorm, 4),
            fc(TextureFormat::Rgba16Float, 2),
        ],
        vec![],
        vec![CompositeAlphaMode::Opaque],
    );
    assert_eq!(c.color_spaces(TextureFormat::Rgba16Float), SurfaceColorSpaces { bits: 3 });
    assert_eq!(c.color_spaces(TextureFormat::Bgra8Unorm), SurfaceColorSpaces { bits: 4 });
    assert_eq!(c.color_spaces(TextureFormat::R8Unorm), SurfaceColorSpaces { bits: 0 });
}

#[test]
fn hdr_format_is_taken_when_preferred_and_offered() {
    let c = caps(
        vec![TextureFormat::Bgra8UnormSrgb, TextureFormat::Rgba16Float],
        vec![],
        vec![],
        vec![CompositeAlphaMode::Opaque],
    );
    assert_eq!(GraphicsState::pick_surface_format(&c, true), TextureFormat::Rgba16Float);
    assert_eq!(GraphicsState::pick_surface_format(&c, false), TextureFormat::Bgra8UnormSrgb);
}

#[test]
fn first_srgb_format_is_taken() {
    let c = caps(
        vec![TextureFormat::Bgra8Unorm, TextureFormat::Rgba8UnormSrgb, TextureFormat::Bgra8UnormSrgb],
        vec![],
        vec![],
        vec![CompositeAlphaMode::Opaque],
    );
    assert_eq!(GraphicsState::pick_surface_format(&c, true), TextureFormat::Rgba8UnormSrgb);
    assert_eq!(GraphicsState::pick_surface_format(&c, false), TextureFormat::Rgba8UnormSrgb);
}

#[test]
fn first_format_when_none_is_srgb() {
    let c = caps(
        vec![TextureFormat::Rgb10a2Unorm, TextureFormat::Bgra8Unorm],
        vec![],
        vec![],
        vec![CompositeAlphaMode::Opaque],
    );
    assert_eq!(GraphicsState::pick_surface_format(&c, false), TextureFormat::Rgb10a2Unorm);
}

#[test]
fn default_format_when_none_is_offered() {
    let c = caps(vec![], vec![], vec![], vec![CompositeAlphaMode::Opaque]);
    assert_eq!(GraphicsState::pick_surface_format(&c, true), TextureFormat::Bgra8UnormSrgb);
    assert_eq!(GraphicsState::pick_surface_format(&c, false), TextureFormat::Bgra8UnormSrgb);
}

#[test]
fn alpha_mode_choice() {
    let c = caps(
        vec![],
        vec![],
        vec![],
        vec![CompositeAlphaMode::PreMultiplied, CompositeAlphaMode::Auto, CompositeAlphaMode::Opaque],
    );
    assert_eq!(
        GraphicsState::pick_alpha_mode(&c, Some(CompositeAlphaMode::PreMultiplied)),
        CompositeAlphaMode::PreMultiplied
    );
    assert_eq!(
        GraphicsState::pick_alpha_mode(&c, Some(CompositeAlphaMode::Inherit)),
        CompositeAlphaMode::Opaque
    );
    assert_eq!(GraphicsState::pick_alpha_mode(&c, None), CompositeAlphaMode::Opaque);
    let c = caps(vec![], vec![], vec![], vec![CompositeAlphaMode::Inherit, CompositeAlphaMode::Auto]);
    assert_eq!(GraphicsState::pick_alpha_mode(&c, None), CompositeAlphaMode::Auto);
    let c = caps(vec![], vec![], vec![], vec![CompositeAlphaMode::Inherit, CompositeAlphaMode::PostMultiplied]);
    assert_eq!(GraphicsState::pick_alpha_mode(&c, None), CompositeAlphaMode::Inherit);
}

#[test]
fn present_mode_choice() {
    let c = caps(vec![], vec![], vec![PresentMode::Fifo, PresentMode::Mailbox], vec![]);
    assert_eq!(GraphicsState::pick_present_mode(&c, Some(PresentMode::Fifo)), PresentMode::Fifo);
    assert_eq!(GraphicsState::pick_present_mode(&c, Some(PresentMode::Immediate)), PresentMode::Mailbox);
    assert_eq!(GraphicsState::pick_present_mode(&c, None), PresentMode::Mailbox);
    let c = caps(vec![], vec![], vec![PresentMode::Fifo], vec![]);
    assert_eq!(GraphicsState::pick_present_mode(&c, None), PresentMode::AutoVsync);
    let c = caps(vec![], vec![], vec![], vec![]);
    assert_eq!(GraphicsState::pick_present_mode(&c, None), PresentMode::AutoVsync);
}

#[test]
fn color_space_choice() {
    let c = caps(
        vec![TextureFormat::Rgba16Float],
        vec![fc(TextureFormat::Rgba16Float, 3), fc(TextureFormat::Bgra8UnormSrgb, 2)],
        vec![],
        vec![CompositeAlphaMode::Opaque],
    );
    assert_eq!(
        GraphicsState::pick_color_space(true, TextureFormat::Rgba16Float, &c, false),
        SurfaceColorSpace::ExtendedSrgbLinear
    );
    assert_eq!(
        GraphicsState::pick_color_space(false, TextureFormat::Rgba16Float, &c, false),
        SurfaceColorSpace::Auto
    );
    assert_eq!(
        GraphicsState::pick_color_space(true, TextureFormat::Bgra8UnormSrgb, &c, false),
        SurfaceColorSpace::ExtendedSrgbLinear
    );
    let c = caps(
        vec![TextureFormat::Rgba16Float],
        vec![fc(TextureFormat::Rgba16Float, 1), fc(TextureFormat::Bgra8Unorm, 2)],
        vec![],
        vec![CompositeAlphaMode::Opaque],
    );
    assert_eq!(
        GraphicsState::pick_color_space(true, TextureFormat::Rgba16Float, &c, false),
        SurfaceColorSpace::Auto
    );
}

#[test]
fn surface_config_is_built_from_the_choices() {
    let c = caps(
        vec![TextureFormat::Rgba16Float, TextureFormat::Bgra8UnormSrgb],
        vec![fc(TextureFormat::Rgba16Float, 3), fc(TextureFormat::Bgra8UnormSrgb, 1)],
        vec![PresentMode::Fifo, PresentMode::Mailbox],
        vec![CompositeAlphaMode::Inherit],
    );
    let size = PhysicalSize { width: 1280, height: 720 };
    let config = GraphicsState::create_surface_config(true, &c, &size, false);
    assert_eq!(config.usage, TextureUsages { bits: 16 });
    assert_eq!(config.usage, TextureUsages::render_attachment());
    assert_eq!(config.format, TextureFormat::Rgba16Float);
    assert_eq!(config.color_space, SurfaceColorSpace::ExtendedSrgbLinear);
    assert_eq!(config.width, 1280);
    assert_eq!(config.height, 720);
    assert_eq!(config.present_mode, PresentMode::Mailbox);
    assert_eq!(config.desired_maximum_frame_latency, 2);
    assert_eq!(config.alpha_mode, CompositeAlphaMode::Inherit);
    assert!(config.view_formats.is_empty());

    let config = GraphicsState::create_surface_config(false, &c, &size, false);
    assert_eq!(config.format, TextureFormat::Bgra8UnormSrgb);
    assert_eq!(config.color_space, SurfaceColorSpace::Auto);
}

#[test]
fn default_preferences() {
    let pref = GraphicsPreferences::default();
    assert!(!pref.hdr());
    assert_eq!(pref.power_preference(), PowerPreference::LowPower);
}

#[test]
fn new_state_configures_only_with_area() {
    let c = caps(
        vec![TextureFormat::Bgra8Unorm, TextureFormat::Bgra8UnormSrgb],
        vec![],
        vec![PresentMode::Fifo],
        vec![CompositeAlphaMode::Opaque],
    );
    let state = GraphicsState::new(PhysicalSize { width: 800, height: 600 }, &c, false);
    assert!(state.is_surface_configured());
    assert!(state.render());
    assert_eq!(state.config().format, TextureFormat::Bgra8UnormSrgb);
    assert_eq!(state.config().color_space, SurfaceColorSpace::Auto);
    assert_eq!(state.config().present_mode, PresentMode::AutoVsync);
    assert!(!state.preferences().hdr());

    let state = GraphicsState::new(PhysicalSize { width: 800, height: 0 }, &c, false);
    assert!(!state.is_surface_configured());
    assert!(!state.render());
}

#[test]
fn configure_surface_follows_the_size() {
    assert!(!GraphicsState::configure_surface_impl(
        &GraphicsState::create_surface_config(
            false,
            &caps(vec![], vec![], vec![], vec![CompositeAlphaMode::Opaque]),
            &PhysicalSize { width: 0, height: 10 },
            false,
        )
    ));
    let c = caps(vec![], vec![], vec![], vec![CompositeAlphaMode::Opaque]);
    let mut state = GraphicsState::new(PhysicalSize { width: 10, height: 10 }, &c, false);
    assert!(state.configure_surface());
    assert!(state.is_surface_configured());
}

#[test]
fn resize_reconfigures_and_last_resize_wins() {
    let c = caps(vec![TextureFormat::Rgba8UnormSrgb], vec![], vec![], vec![CompositeAlphaMode::Opaque]);
    let mut state = GraphicsState::new(PhysicalSize { width: 10, height: 10 }, &c, false);
    assert!(!state.resize(0, 300));
    assert!(!state.render());
    assert_eq!(state.config().width, 0);
    assert!(state.resize(640, 480));
    assert!(state.render());
    assert_eq!(state.config().width, 640);
    assert_eq!(state.config().height, 480);
    assert_eq!(state.config().format, TextureFormat::Rgba8UnormSrgb);
}

#[test]
fn web_prefers_encoded_extended_srgb() {
    let c = caps(
        vec![TextureFormat::Rgba16Float],
        vec![fc(TextureFormat::Rgba16Float, 1 | 32)],
        vec![],
        vec![CompositeAlphaMode::Opaque],
    );
    assert_eq!(
        GraphicsState::pick_color_space(true, TextureFormat::Rgba16Float, &c, true),
        SurfaceColorSpace::ExtendedSrgb
    );
    assert_eq!(
        GraphicsState::pick_color_space(true, TextureFormat::Rgba16Float, &c, false),
        SurfaceColorSpace::Auto
    );
    assert_eq!(
        GraphicsState::pick_color_space(false, TextureFormat::Rgba16Float, &c, true),
        SurfaceColorSpace::Auto
    );
    let c = caps(
        vec![TextureFormat::Rgba16Float],
        vec![fc(TextureFormat::Rgba16Float, 2)],
        vec![],
        vec![CompositeAlphaMode::Opaque],
    );
    assert_eq!(
        GraphicsState::pick_color_space(true, TextureFormat::Rgba16Float, &c, true),
        SurfaceColorSpace::Auto
    );
    let config = GraphicsState::create_surface_config(
        true,
        &caps(
            vec![TextureFormat::Rgba16Float],
            vec![fc(TextureFormat::Rgba16Float, 32)],
            vec![],
            vec![CompositeAlphaMode::Opaque],
        ),
        &PhysicalSize { width: 4, height: 4 },
        true,
    );
    assert_eq!(config.format, TextureFormat::Rgba16Float);
    assert_eq!(config.color_space, SurfaceColorSpace::ExtendedSrgb);
}
