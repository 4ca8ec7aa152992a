//! The presentable surface: its size, its formats and its configuration.

use vstd::prelude::*;

verus! {

/// A size in physical pixels.
#[derive(Clone, Copy, Debug, PartialEq, Eq, Structural)]
pub struct PhysicalSize {
    pub width: u32,
    pub height: u32,
}

impl PhysicalSize {
    /// Whether both dimensions are positive, which a surface needs in order
    /// to be configured.
    pub open spec fn has_area(self) -> bool {
        self.width > 0 && self.height > 0
    }

    pub fn new(width: u32, height: u32) -> (size: Self)
        ensures
            size == (PhysicalSize { width, height }),
    {
        PhysicalSize { width, height }
    }
}

/// The two pixel formats that every surface supports. They differ in how the
/// colour channels are encoded, not in their layout.
#[derive(Clone, Copy, Debug, PartialEq, Eq, Structural)]
pub enum TextureFormat {
    /// Blue, green, red and alpha, 8 bits each, stored as written.
    Bgra8Unorm,
    /// The same layout, with the colour channels sRGB-encoded.
    Bgra8UnormSrgb,
}

/// How finished frames are handed to the display.
#[derive(Clone, Copy, Debug, PartialEq, Eq, Structural)]
pub enum PresentMode {
    AutoVsync,
    AutoNoVsync,
    Fifo,
    FifoRelaxed,
    Immediate,
    Mailbox,
}

/// How the compositor treats the alpha channel of a frame.
#[derive(Clone, Copy, Debug, PartialEq, Eq, Structural)]
pub enum CompositeAlphaMode {
    Auto,
    Opaque,
    PreMultiplied,
    PostMultiplied,
    Inherit,
}

/// Why the next frame of a surface could not be acquired.
#[derive(Clone, Copy, Debug, PartialEq, Eq, Structural)]
pub enum SurfaceError {
    /// Acquiring the frame took too long.
    Timeout,
    /// The surface has changed and must be configured again.
    Outdated,
    /// The swap chain is lost and must be made again.
    Lost,
    /// No memory is left for a new frame.
    OutOfMemory,
}

/// The usage bit of a texture that a render pass draws into. It is the only
/// usage that a surface supports.
pub const RENDER_ATTACHMENT: u32 = 16;

/// The number of frames that may be queued ahead of the display.
pub const FRAME_LATENCY: u32 = 2;

/// What a surface offers on a given adapter, in the adapter's order of
/// preference. Both lists are empty where the two do not go together.
#[derive(Debug, PartialEq, Eq)]
pub struct SurfaceCapabilities {
    pub present_modes: Vec<PresentMode>,
    pub alpha_modes: Vec<CompositeAlphaMode>,
}

impl SurfaceCapabilities {
    /// Whether a present mode and an alpha mode can be picked at all.
    pub open spec fn usable(self) -> bool {
        self.present_modes@.len() > 0 && self.alpha_modes@.len() > 0
    }
}

/// How a surface is set up for presentation.
#[derive(Debug, PartialEq, Eq)]
pub struct SurfaceConfiguration {
    /// The usage bits of the surface's textures.
    pub usage: u32,
    /// The format in which the surface's textures are stored.
    pub format: TextureFormat,
    pub width: u32,
    pub height: u32,
    pub present_mode: PresentMode,
    pub desired_maximum_frame_latency: u32,
    pub alpha_mode: CompositeAlphaMode,
    /// The formats, besides `format`, in which a view of a surface texture
    /// may read it.
    pub view_formats: Vec<TextureFormat>,
}

impl SurfaceConfiguration {
    pub open spec fn size(self) -> PhysicalSize {
        PhysicalSize { width: self.width, height: self.height }
    }

    /// This configuration with another size and nothing else changed.
    pub open spec fn with_size(self, size: PhysicalSize) -> Self {
        SurfaceConfiguration { width: size.width, height: size.height, ..self }
    }

    /// Whether a view of one of the surface's textures may have this format.
    pub open spec fn allows_view(self, format: TextureFormat) -> bool {
        format == self.format || self.view_formats@.contains(format)
    }

    /// What does not depend on the window or the adapter: textures that a
    /// render pass can draw into, stored as `Bgra8Unorm`, viewable as
    /// `Bgra8UnormSrgb`, at most two frames queued.
    pub open spec fn is_standard(self) -> bool {
        &&& self.usage == RENDER_ATTACHMENT
        &&& self.format == TextureFormat::Bgra8Unorm
        &&& self.desired_maximum_frame_latency == FRAME_LATENCY
        &&& self.view_formats@ =~= seq![TextureFormat::Bgra8UnormSrgb]
    }

    /// Whether this is the configuration of a new surface: the standard one,
    /// with the window's size and the first present mode and alpha mode that
    /// the surface offers.
    pub open spec fn is_initial(self, size: PhysicalSize, capabilities: SurfaceCapabilities) -> bool {
        &&& self.is_standard()
        &&& self.size() == size
        &&& self.present_mode == capabilities.present_modes@[0]
        &&& self.alpha_mode == capabilities.alpha_modes@[0]
    }

    /// The configuration of a new surface in a window of the given size.
    pub fn initial(size: PhysicalSize, capabilities: &SurfaceCapabilities) -> (config: Self)
        requires
            capabilities.usable(),
        ensures
            config.is_initial(size, *capabilities),
    {
        SurfaceConfiguration {
            usage: RENDER_ATTACHMENT,
            format: TextureFormat::Bgra8Unorm,
            width: size.width,
            height: size.height,
            present_mode: capabilities.present_modes[0],
            desired_maximum_frame_latency: FRAME_LATENCY,
            alpha_mode: capabilities.alpha_modes[0],
            view_formats: vec![TextureFormat::Bgra8UnormSrgb],
        }
    }
}

} // verus!
