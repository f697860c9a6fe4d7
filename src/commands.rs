use crate::handles::{FramebufferHandle, ImageHandle, PipelineHandle, RenderPassHandle};
use crate::layout::{
    change_image_layout, layout_barrier, ImageBarrier, ImageLayout, ACCESS_COLOR_ATTACHMENT_READ,
    ACCESS_COLOR_ATTACHMENT_WRITE, ACCESS_SHADER_READ, STAGE_COLOR_ATTACHMENT_OUTPUT,
    STAGE_FRAGMENT_SHADER, STAGE_VERTEX_SHADER,
};
use vstd::prelude::*;

verus! {

/// Width and height of a render area, in pixels.
#[derive(Clone, Copy, PartialEq, Eq, Structural, Debug)]
pub struct Extent2D {
    pub width: u32,
    pub height: u32,
}

/// One command recorded into a primary command buffer.
///
/// The render pass is begun with the fixed clear colour and depth, and the
/// viewport spans the depth range 0 to 1; both are filled in where the
/// command is issued.
#[derive(Clone, Copy, PartialEq, Eq, Structural, Debug)]
pub enum GpuCommand {
    ResetCommandBuffer,
    BeginCommandBuffer,
    PipelineBarrier(ImageBarrier),
    BeginRenderPass {
        render_pass: RenderPassHandle,
        framebuffer: FramebufferHandle,
        render_area: Extent2D,
    },
    SetViewport { extent: Extent2D },
    SetScissor { extent: Extent2D },
    BindPipeline { pipeline: PipelineHandle },
    Draw { vertex_count: u32, instance_count: u32, first_vertex: u32, first_instance: u32 },
    EndRenderPass,
    EndCommandBuffer,
}

/// Access masks of the colour attachment writes done by a render pass.
pub open spec fn attachment_access() -> u32 {
    ACCESS_COLOR_ATTACHMENT_READ | ACCESS_COLOR_ATTACHMENT_WRITE
}

/// The shader stages in which the compositor samples the image.
pub open spec fn sampling_stages() -> u32 {
    STAGE_VERTEX_SHADER | STAGE_FRAGMENT_SHADER
}

/// Transition from the compositor's sampling layout to the render target layout.
pub open spec fn to_attachment_barrier(image: ImageHandle) -> ImageBarrier {
    layout_barrier(
        image,
        ACCESS_SHADER_READ,
        attachment_access(),
        ImageLayout::ShaderReadOnlyOptimal,
        ImageLayout::ColorAttachmentOptimal,
        sampling_stages(),
        STAGE_COLOR_ATTACHMENT_OUTPUT,
    )
}

/// The reverse transition, back to the layout the compositor expects.
pub open spec fn to_shader_read_barrier(image: ImageHandle) -> ImageBarrier {
    layout_barrier(
        image,
        attachment_access(),
        ACCESS_SHADER_READ,
        ImageLayout::ColorAttachmentOptimal,
        ImageLayout::ShaderReadOnlyOptimal,
        STAGE_COLOR_ATTACHMENT_OUTPUT,
        sampling_stages(),
    )
}

/// Wraps `body` between the reset and begin of the command buffer with the
/// transition to the attachment layout, and the transition back with the end.
pub open spec fn record_bracket(image: ImageHandle, body: Seq<GpuCommand>) -> Seq<GpuCommand> {
    seq![
        GpuCommand::ResetCommandBuffer,
        GpuCommand::BeginCommandBuffer,
        GpuCommand::PipelineBarrier(to_attachment_barrier(image)),
    ] + body + seq![
        GpuCommand::PipelineBarrier(to_shader_read_barrier(image)),
        GpuCommand::EndCommandBuffer,
    ]
}

/// The render pass of one eye's frame: one triangle over the whole extent.
pub open spec fn render_pass_body(
    render_pass: RenderPassHandle,
    framebuffer: FramebufferHandle,
    extent: Extent2D,
    pipeline: PipelineHandle,
) -> Seq<GpuCommand> {
    seq![
        GpuCommand::BeginRenderPass { render_pass, framebuffer, render_area: extent },
        GpuCommand::SetViewport { extent },
        GpuCommand::SetScissor { extent },
        GpuCommand::BindPipeline { pipeline },
        GpuCommand::Draw { vertex_count: 3, instance_count: 1, first_vertex: 0, first_instance: 0 },
        GpuCommand::EndRenderPass,
    ]
}

/// Every command recorded for one eye's frame into the image `image`.
pub open spec fn frame_commands(
    image: ImageHandle,
    framebuffer: FramebufferHandle,
    render_pass: RenderPassHandle,
    extent: Extent2D,
    pipeline: PipelineHandle,
) -> Seq<GpuCommand> {
    record_bracket(image, render_pass_body(render_pass, framebuffer, extent, pipeline))
}

/// Whether `cmd` is a barrier that changes the layout of `image`.
pub open spec fn is_barrier_on(cmd: GpuCommand, image: ImageHandle) -> bool {
    match cmd {
        GpuCommand::PipelineBarrier(b) => b.image == image,
        _ => false,
    }
}

/// The layout of `image` after `cmd` runs with the image in `layout`, or
/// `None` where `cmd` expects the image in another layout.
///
/// The render pass declares its colour attachment, bound through
/// `framebuffer`, in the attachment layout at its start and at its end.
pub open spec fn layout_step(
    image: ImageHandle,
    framebuffer: FramebufferHandle,
    layout: ImageLayout,
    cmd: GpuCommand,
) -> Option<ImageLayout> {
    match cmd {
        GpuCommand::PipelineBarrier(b) => {
            if b.image != image {
                Some(layout)
            } else if b.old_layout == layout {
                Some(b.new_layout)
            } else {
                None
            }
        },
        GpuCommand::BeginRenderPass { framebuffer: f, .. } => {
            if f != framebuffer || layout == ImageLayout::ColorAttachmentOptimal {
                Some(layout)
            } else {
                None
            }
        },
        _ => Some(layout),
    }
}

/// The layout of `image` after the commands `cmds` run in order, starting
/// from `layout`; `None` where one of them finds the image in a layout it
/// does not expect.
pub open spec fn layout_after(
    image: ImageHandle,
    framebuffer: FramebufferHandle,
    layout: ImageLayout,
    cmds: Seq<GpuCommand>,
) -> Option<ImageLayout>
    decreases cmds.len(),
{
    if cmds.len() == 0 {
        Some(layout)
    } else {
        match layout_step(image, framebuffer, layout, cmds[0]) {
            Some(next) => layout_after(image, framebuffer, next, cmds.drop_first()),
            None => None,
        }
    }
}

proof fn lemma_layout_after_concat(
    image: ImageHandle,
    framebuffer: FramebufferHandle,
    layout: ImageLayout,
    a: Seq<GpuCommand>,
    b: Seq<GpuCommand>,
)
    ensures
        layout_after(image, framebuffer, layout, a + b) == match layout_after(
            image,
            framebuffer,
            layout,
            a,
        ) {
            Some(mid) => layout_after(image, framebuffer, mid, b),
            None => None,
        },
    decreases a.len(),
{
    if a.len() == 0 {
        assert(a + b =~= b);
    } else {
        assert((a + b).drop_first() =~= a.drop_first() + b);
        assert((a + b)[0] == a[0]);
        match layout_step(image, framebuffer, layout, a[0]) {
            Some(next) => lemma_layout_after_concat(image, framebuffer, next, a.drop_first(), b),
            None => {},
        }
    }
}

proof fn lemma_layout_kept(
    image: ImageHandle,
    framebuffer: FramebufferHandle,
    body: Seq<GpuCommand>,
)
    requires
        forall|i: int| 0 <= i < body.len() ==> !is_barrier_on(#[trigger] body[i], image),
    ensures
        layout_after(image, framebuffer, ImageLayout::ColorAttachmentOptimal, body) == Some(
            ImageLayout::ColorAttachmentOptimal,
        ),
    decreases body.len(),
{
    if body.len() > 0 {
        assert(!is_barrier_on(body[0], image));
        assert forall|i: int| 0 <= i < body.drop_first().len() implies !is_barrier_on(
            #[trigger] body.drop_first()[i],
            image,
        ) by {
            assert(body.drop_first()[i] == body[i + 1]);
        }
        lemma_layout_kept(image, framebuffer, body.drop_first());
    }
}

/// Layout symmetry of a recorded frame: an image that the compositor left in
/// the shader-read-only layout is in that layout again after the recording
/// bracket, whatever commands stand inside it, as long as none of them is a
/// barrier on that image. Every command along the way finds the image in the
/// layout it expects.
pub proof fn lemma_record_bracket_restores_layout(
    image: ImageHandle,
    framebuffer: FramebufferHandle,
    body: Seq<GpuCommand>,
)
    requires
        forall|i: int| 0 <= i < body.len() ==> !is_barrier_on(#[trigger] body[i], image),
    ensures
        layout_after(
            image,
            framebuffer,
            ImageLayout::ShaderReadOnlyOptimal,
            record_bracket(image, body),
        ) == Some(ImageLayout::ShaderReadOnlyOptimal),
{
    let head = seq![
        GpuCommand::ResetCommandBuffer,
        GpuCommand::BeginCommandBuffer,
        GpuCommand::PipelineBarrier(to_attachment_barrier(image)),
    ];
    let tail = seq![
        GpuCommand::PipelineBarrier(to_shader_read_barrier(image)),
        GpuCommand::EndCommandBuffer,
    ];
    let sro = ImageLayout::ShaderReadOnlyOptimal;
    let cao = ImageLayout::ColorAttachmentOptimal;
    lemma_layout_after_concat(image, framebuffer, sro, head + body, tail);
    lemma_layout_after_concat(image, framebuffer, sro, head, body);
    lemma_layout_kept(image, framebuffer, body);
    reveal_with_fuel(layout_after, 4);
    assert(head.drop_first().drop_first().drop_first() =~= Seq::<GpuCommand>::empty());
    assert(layout_after(image, framebuffer, sro, head) == Some(cao));
    assert(tail.drop_first().drop_first() =~= Seq::<GpuCommand>::empty());
    assert(layout_after(image, framebuffer, cao, tail) == Some(sro));
}

/// The commands that render one eye's frame into `image` through
/// `framebuffer`: the image is moved to the attachment layout, the render
/// pass draws, and the image is moved back for the compositor.
pub fn write_command_buffer(
    image: ImageHandle,
    framebuffer: FramebufferHandle,
    render_pass: RenderPassHandle,
    extent: Extent2D,
    pipeline: PipelineHandle,
) -> (r: Vec<GpuCommand>)
    ensures
        r@ == frame_commands(image, framebuffer, render_pass, extent, pipeline),
        layout_after(image, framebuffer, ImageLayout::ShaderReadOnlyOptimal, r@) == Some(
            ImageLayout::ShaderReadOnlyOptimal,
        ),
{
    let begin_access = ACCESS_SHADER_READ;
    let end_access = ACCESS_COLOR_ATTACHMENT_READ | ACCESS_COLOR_ATTACHMENT_WRITE;
    let begin_layout = ImageLayout::ShaderReadOnlyOptimal;
    let end_layout = ImageLayout::ColorAttachmentOptimal;
    let begin_stage = STAGE_VERTEX_SHADER | STAGE_FRAGMENT_SHADER;
    let end_stage = STAGE_COLOR_ATTACHMENT_OUTPUT;

    let mut commands: Vec<GpuCommand> = Vec::new();
    commands.push(GpuCommand::ResetCommandBuffer);
    commands.push(GpuCommand::BeginCommandBuffer);
    commands.push(
        GpuCommand::PipelineBarrier(
            change_image_layout(
                image,
                begin_access,
                end_access,
                begin_layout,
                end_layout,
                begin_stage,
                end_stage,
            ),
        ),
    );
    commands.push(GpuCommand::BeginRenderPass { render_pass, framebuffer, render_area: extent });
    commands.push(GpuCommand::SetViewport { extent });
    commands.push(GpuCommand::SetScissor { extent });
    commands.push(GpuCommand::BindPipeline { pipeline });
    commands.push(
        GpuCommand::Draw { vertex_count: 3, instance_count: 1, first_vertex: 0, first_instance: 0 },
    );
    commands.push(GpuCommand::EndRenderPass);
    commands.push(
        GpuCommand::PipelineBarrier(
            change_image_layout(
                image,
                end_access,
                begin_access,
                end_layout,
                begin_layout,
                end_stage,
                begin_stage,
            ),
        ),
    );
    commands.push(GpuCommand::EndCommandBuffer);
    proof {
        let body = render_pass_body(render_pass, framebuffer, extent, pipeline);
        assert(commands@ =~= frame_commands(image, framebuffer, render_pass, extent, pipeline));
        assert forall|i: int| 0 <= i < body.len() implies !is_barrier_on(#[trigger] body[i], image) by {
        }
        lemma_record_bracket_restores_layout(image, framebuffer, body);
    }
    commands
}

} // verus!
