//! What the render pipeline draws into.

use vstd::prelude::*;
use crate::frame::{ColorAttachment, Frame};
use crate::surface::{SurfaceConfiguration, TextureFormat};

verus! {

/// How what a fragment produces is combined with what the target holds.
#[derive(Clone, Copy, Debug, PartialEq, Eq, Structural)]
pub enum BlendState {
    /// The target takes the new colour.
    Replace,
    /// The new colour is laid over the old one by its alpha.
    AlphaBlending,
    /// The same, for colours that are already multiplied by their alpha.
    PremultipliedAlphaBlending,
}

/// The write mask that lets all four channels through.
pub const COLOR_WRITES_ALL: u32 = 15;

/// One colour target of a pipeline.
#[derive(Clone, Copy, Debug, PartialEq, Eq, Structural)]
pub struct ColorTargetState {
    pub format: TextureFormat,
    pub blend: Option<BlendState>,
    /// The channels that are written, one bit each: red, green, blue, alpha.
    pub write_mask: u32,
}

/// The one colour target of the triangle's pipeline: `Bgra8UnormSrgb`, every
/// channel replaced.
pub open spec fn triangle_target() -> ColorTargetState {
    ColorTargetState {
        format: TextureFormat::Bgra8UnormSrgb,
        blend: Some(BlendState::Replace),
        write_mask: COLOR_WRITES_ALL,
    }
}

/// Whether a pipeline with these targets can draw in a render pass with
/// these attachments: one target for each attachment, of the same format.
pub open spec fn targets_fit(
    targets: Seq<ColorTargetState>,
    attachments: Seq<ColorAttachment>,
) -> bool {
    &&& targets.len() == attachments.len()
    &&& forall|i: int| 0 <= i < targets.len() ==> targets[i].format == attachments[i].format
}

/// The colour targets of the triangle's pipeline.
pub fn color_targets() -> (targets: Vec<ColorTargetState>)
    ensures
        targets@ =~= seq![triangle_target()],
{
    vec![
        ColorTargetState {
            format: TextureFormat::Bgra8UnormSrgb,
            blend: Some(BlendState::Replace),
            write_mask: COLOR_WRITES_ALL,
        },
    ]
}

/// The triangle's pipeline, its frame and a standard surface go together: the
/// pipeline's targets fit the frame's attachments, and the surface allows a
/// view in the format of each attachment.
pub proof fn lemma_triangle_fits(
    targets: Seq<ColorTargetState>,
    frame: Frame,
    config: SurfaceConfiguration,
)
    requires
        targets =~= seq![triangle_target()],
        frame.is_triangle(),
        config.is_standard(),
    ensures
        targets_fit(targets, frame.color_attachments@),
        forall|i: int|
            0 <= i < frame.color_attachments@.len() ==> config.allows_view(
                #[trigger] frame.color_attachments@[i].format,
            ),
{
    assert(config.view_formats@[0] == TextureFormat::Bgra8UnormSrgb);
}

} // verus!
