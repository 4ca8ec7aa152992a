use hello_triangle::gfx::{App, GfxState};
use hello_triangle::pipeline::{color_targets, BlendState, ColorTargetState, COLOR_WRITES_ALL};
use hello_triangle::surface::{
    CompositeAlphaMode, PhysicalSize, PresentMode, SurfaceCapabilities, SurfaceConfiguration,
    TextureFormat, FRAME_LATENCY, RENDER_ATTACHMENT,
};

#[test]
fn physical_size_keeps_both_dimensions() {
    let size = PhysicalSize::new(800, 600);
    assert_eq!(size.width, 800);
    assert_eq!(size.height, 600);
    assert_eq!(size, PhysicalSize { width: 800, height: 600 });
}

#[test]
fn initial_configuration_takes_the_first_modes() {
    let capabilities = SurfaceCapabilities {
        present_modes: vec![PresentMode::Mailbox, PresentMode::Fifo, PresentMode::Immediate],
        alpha_modes: vec![CompositeAlphaMode::PreMultiplied, CompositeAlphaMode::Opaque],
    };
    let config = SurfaceConfiguration::initial(PhysicalSize::new(450, 400), &capabilities);
    assert_eq!(
        config,
        SurfaceConfiguration {
            usage: 16,
            format: TextureFormat::Bgra8Unorm,
            width: 450,
            height: 400,
            present_mode: PresentMode::Mailbox,
            desired_maximum_frame_latency: 2,
            alpha_mode: CompositeAlphaMode::PreMultiplied,
            view_formats: vec![TextureFormat::Bgra8UnormSrgb],
        }
    );
}

#[test]
fn initial_configuration_with_one_mode_each() {
    let capabilities = SurfaceCapabilities {
        present_modes: vec![PresentMode::AutoVsync],
        alpha_modes: vec![CompositeAlphaMode::Auto],
    };
    let config = SurfaceConfiguration::initial(PhysicalSize::new(1, 1), &capabilities);
    assert_eq!(config.present_mode, PresentMode::AutoVsync);
    assert_eq!(config.alpha_mode, CompositeAlphaMode::Auto);
    assert_eq!((config.width, config.height), (1, 1));
}

#[test]
fn initial_configuration_keeps_a_size_without_area() {
    let capabilities = SurfaceCapabilities {
        present_modes: vec![PresentMode::Fifo],
        alpha_modes: vec![CompositeAlphaMode::Opaque],
    };
    let config = SurfaceConfiguration::initial(PhysicalSize::new(0, 0), &capabilities);
    assert_eq!((config.width, config.height), (0, 0));
}

#[test]
fn constants_have_their_values() {
    assert_eq!(RENDER_ATTACHMENT, 1 << 4);
    assert_eq!(FRAME_LATENCY, 2);
    assert_eq!(COLOR_WRITES_ALL, 0b1111);
}

#[test]
fn new_application_holds_handles_and_initial_configuration() {
    let capabilities = SurfaceCapabilities {
        present_modes: vec![PresentMode::FifoRelaxed, PresentMode::Fifo],
        alpha_modes: vec![CompositeAlphaMode::PostMultiplied],
    };
    let app = App::new(42u8, PhysicalSize::new(1024, 768), &capabilities);
    assert_eq!(app.gfx_state.handles, 42);
    assert_eq!(
        app.gfx_state.surface_config,
        SurfaceConfiguration::initial(PhysicalSize::new(1024, 768), &capabilities)
    );
    assert_eq!(app.gfx_state.surface_config.present_mode, PresentMode::FifoRelaxed);
    assert_eq!(app.gfx_state.surface_config.alpha_mode, CompositeAlphaMode::PostMultiplied);
}

#[test]
fn graphics_state_keeps_what_it_is_given() {
    let capabilities = SurfaceCapabilities {
        present_modes: vec![PresentMode::Immediate],
        alpha_modes: vec![CompositeAlphaMode::Inherit],
    };
    let config = SurfaceConfiguration::initial(PhysicalSize::new(3, 4), &capabilities);
    let state = GfxState::new("handles", config);
    assert_eq!(state.handles, "handles");
    assert_eq!(
        state.surface_config,
        SurfaceConfiguration::initial(PhysicalSize::new(3, 4), &capabilities)
    );
}

#[test]
fn pipeline_has_one_colour_target() {
    assert_eq!(
        color_targets(),
        vec![ColorTargetState {
            format: TextureFormat::Bgra8UnormSrgb,
            blend: Some(BlendState::Replace),
            write_mask: 15,
        }]
    );
}

#[test]
fn pipeline_target_has_the_format_of_the_frame() {
    let capabilities = SurfaceCapabilities {
        present_modes: vec![PresentMode::Fifo],
        alpha_modes: vec![CompositeAlphaMode::Opaque],
    };
    let app = App::new((), PhysicalSize::new(450, 400), &capabilities);
    let frame = app.render(Ok(())).unwrap();
    let targets = color_targets();
    assert_eq!(targets.len(), frame.color_attachments.len());
    for (target, attachment) in targets.iter().zip(frame.color_attachments.iter()) {
        assert_eq!(target.format, attachment.format);
        assert!(app.gfx_state.surface_config.view_formats.contains(&attachment.format));
    }
}
