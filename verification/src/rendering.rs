//! The render pass that frames are drawn with, and the vertex shader module.

use vstd::prelude::*;

verus! {

/// Pixel format: four 8-bit channels, red, green, blue and alpha, sRGB encoded.
pub const FORMAT_R8G8B8A8_SRGB: i32 = 43;

/// Sample count bit: one sample per pixel.
pub const SAMPLE_COUNT_1: u32 = 0x1;

/// Load operation: the previous contents of the attachment need not be kept.
pub const LOAD_OP_DONT_CARE: i32 = 2;

/// Store operation: what is rendered is written to memory.
pub const STORE_OP_STORE: i32 = 0;

/// Store operation: what is rendered may be discarded.
pub const STORE_OP_DONT_CARE: i32 = 1;

/// Image layout that supports every kind of access.
pub const IMAGE_LAYOUT_GENERAL: i32 = 1;

/// Bind point of graphics pipelines.
pub const PIPELINE_BIND_POINT_GRAPHICS: i32 = 0;

/// The number of bytes in a word of shader code.
pub const SHADER_WORD_BYTES: usize = 4;

/// One attachment of a render pass, as the raw values of the API.
#[derive(Clone, Copy, Debug, PartialEq, Eq)]
pub struct AttachmentDescription {
    pub flags: u32,
    pub format: i32,
    pub samples: u32,
    pub load_op: i32,
    pub store_op: i32,
    pub stencil_load_op: i32,
    pub stencil_store_op: i32,
    pub initial_layout: i32,
    pub final_layout: i32,
}

/// The use that a subpass makes of one attachment of its render pass.
#[derive(Clone, Copy, Debug, PartialEq, Eq)]
pub struct AttachmentReference {
    /// Position of the attachment in the render pass.
    pub attachment: u32,
    /// Layout of the attachment during the subpass.
    pub layout: i32,
}

/// One subpass of a render pass.
#[derive(Debug, PartialEq, Eq)]
pub struct SubpassDescription {
    pub pipeline_bind_point: i32,
    pub color_attachments: Vec<AttachmentReference>,
}

/// The settings that a render pass is created with.
#[derive(Debug, PartialEq, Eq)]
pub struct RenderPassConfig {
    pub attachments: Vec<AttachmentDescription>,
    pub subpasses: Vec<SubpassDescription>,
}

/// The color attachment of the render pass: sRGB, one sample, contents not
/// loaded, stored after rendering, stencil ignored, in the general layout
/// before and after.
pub open spec fn color_attachment() -> AttachmentDescription {
    AttachmentDescription {
        flags: 0,
        format: FORMAT_R8G8B8A8_SRGB,
        samples: SAMPLE_COUNT_1,
        load_op: LOAD_OP_DONT_CARE,
        store_op: STORE_OP_STORE,
        stencil_load_op: LOAD_OP_DONT_CARE,
        stencil_store_op: STORE_OP_DONT_CARE,
        initial_layout: IMAGE_LAYOUT_GENERAL,
        final_layout: IMAGE_LAYOUT_GENERAL,
    }
}

impl RenderPassConfig {
    /// Every subpass refers to attachments that the render pass has.
    pub open spec fn wf(&self) -> bool {
        forall|s: int, k: int|
            0 <= s < self.subpasses@.len() && 0 <= k < self.subpasses@[s].color_attachments@.len()
                ==> (#[trigger] self.subpasses@[s].color_attachments@[k]).attachment
                < self.attachments@.len()
    }

    /// One color attachment, and one graphics subpass that renders to it in
    /// the general layout.
    pub open spec fn is_single_color_pass(&self) -> bool {
        &&& self.attachments@ == seq![color_attachment()]
        &&& self.subpasses@.len() == 1
        &&& self.subpasses@[0].pipeline_bind_point == PIPELINE_BIND_POINT_GRAPHICS
        &&& self.subpasses@[0].color_attachments@ == seq![
            (AttachmentReference { attachment: 0, layout: IMAGE_LAYOUT_GENERAL }),
        ]
    }

    /// The render pass of the context.
    pub fn new() -> (r: Self)
        ensures
            r.is_single_color_pass(),
            r.wf(),
    {
        let mut attachments: Vec<AttachmentDescription> = Vec::new();
        attachments.push(
            AttachmentDescription {
                flags: 0,
                format: FORMAT_R8G8B8A8_SRGB,
                samples: SAMPLE_COUNT_1,
                load_op: LOAD_OP_DONT_CARE,
                store_op: STORE_OP_STORE,
                stencil_load_op: LOAD_OP_DONT_CARE,
                stencil_store_op: STORE_OP_DONT_CARE,
                initial_layout: IMAGE_LAYOUT_GENERAL,
                final_layout: IMAGE_LAYOUT_GENERAL,
            },
        );
        let mut color_attachments: Vec<AttachmentReference> = Vec::new();
        color_attachments.push(AttachmentReference { attachment: 0, layout: IMAGE_LAYOUT_GENERAL });
        let mut subpasses: Vec<SubpassDescription> = Vec::new();
        subpasses.push(
            SubpassDescription {
                pipeline_bind_point: PIPELINE_BIND_POINT_GRAPHICS,
                color_attachments,
            },
        );
        RenderPassConfig { attachments, subpasses }
    }
}

/// Why no render context could be set up.
#[derive(Clone, Copy, Debug, PartialEq, Eq)]
pub enum RenderError {
    /// The byte size of the shader code does not fit the machine's word.
    ShaderTooLarge,
}

/// What rendering is set up with: the render pass and the size of the vertex
/// shader module.
#[derive(Debug, PartialEq, Eq)]
pub struct RenderCtx {
    pub render_pass: RenderPassConfig,
    /// Size of the vertex shader code in bytes.
    pub vertex_code_size: usize,
}

impl RenderCtx {
    /// Plans the render pass and the vertex shader module for shader code of
    /// `vertex_shader_words` 32-bit words. Fails when the code's size in bytes
    /// is more than `usize` holds.
    pub fn new(vertex_shader_words: usize) -> (r: Result<RenderCtx, RenderError>)
        ensures
            r is Ok <==> vertex_shader_words * SHADER_WORD_BYTES <= usize::MAX,
            r matches Ok(ctx) ==> {
                &&& ctx.vertex_code_size == vertex_shader_words * SHADER_WORD_BYTES
                &&& ctx.render_pass.is_single_color_pass()
                &&& ctx.render_pass.wf()
            },
            r matches Err(e) ==> e == RenderError::ShaderTooLarge,
    {
        match vertex_shader_words.checked_mul(SHADER_WORD_BYTES) {
            Some(vertex_code_size) => Ok(
                RenderCtx { render_pass: RenderPassConfig::new(), vertex_code_size },
            ),
            None => Err(RenderError::ShaderTooLarge),
        }
    }
}

} // verus!
