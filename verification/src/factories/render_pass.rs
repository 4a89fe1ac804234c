//! Render passes: which attachments a pass draws into.

use vstd::prelude::*;
use crate::state::State;

verus! {

/// One colour attachment of a render pass. It is cleared when the pass
/// begins and dropped when it ends.
#[derive(Copy, Clone, Debug, PartialEq, Eq, Structural)]
pub struct ColorAttachment {
    /// Whether the samples are resolved into a second view.
    pub resolve: bool,
}

/// The attachments of a render pass.
#[derive(Clone, Debug)]
pub struct RenderPassDescriptor {
    pub color_attachments: Vec<ColorAttachment>,
    /// Whether the pass tests against the surface's depth buffer, cleared
    /// to the far plane.
    pub depth_stencil_attachment: bool,
}

/// Builder of render passes.
#[derive(Clone, Debug)]
pub struct RenderPassFactory {
    pub color_attachments: Vec<ColorAttachment>,
    pub depth_stencil: bool,
}

impl RenderPassFactory {
    /// A factory without attachments.
    pub fn new() -> (factory: Self)
        ensures
            factory.color_attachments@.len() == 0,
            !factory.depth_stencil,
    {
        Self { color_attachments: Vec::new(), depth_stencil: false }
    }

    /// Adds a colour attachment, resolved into a target or not.
    pub fn add_color_atachment(&mut self, has_target: bool)
        ensures
            final(self).color_attachments@ == old(self).color_attachments@.push(
                ColorAttachment { resolve: has_target },
            ),
            final(self).depth_stencil == old(self).depth_stencil,
    {
        self.color_attachments.push(ColorAttachment { resolve: has_target });
    }

    /// Notes a depth attachment of the factory's own.
    pub fn add_depth_stencil(&mut self)
        ensures
            final(self).depth_stencil,
            final(self).color_attachments == old(self).color_attachments,
    {
        self.depth_stencil = true;
    }

    /// The render pass: the colour attachments in the order in which they
    /// were added, and the depth buffer of the surface where depth is
    /// asked for and the surface has one.
    pub fn get_render_pass(&self, ctx: &State, enable_depth: bool) -> (pass: RenderPassDescriptor)
        ensures
            pass.color_attachments@ == self.color_attachments@,
            pass.depth_stencil_attachment == (enable_depth && ctx.depth_texture is Some),
    {
        let mut color_attachments: Vec<ColorAttachment> = Vec::new();
        let mut index: usize = 0;
        while index < self.color_attachments.len()
            invariant
                index <= self.color_attachments@.len(),
                color_attachments@ == self.color_attachments@.take(index as int),
            decreases self.color_attachments@.len() - index,
        {
            color_attachments.push(self.color_attachments[index]);
            index = index + 1;
        }
        RenderPassDescriptor {
            color_attachments,
            depth_stencil_attachment: enable_depth && ctx.depth_texture.is_some(),
        }
    }
}

} // verus!
