use quest_renderer::commands::{write_command_buffer, Extent2D, GpuCommand};
use quest_renderer::device_selection::{
    check_device_extension_support, get_memory_type_index, get_physical_device, get_suitability,
    DeviceCandidate,
};
use quest_renderer::extensions::split_extension_names;
use quest_renderer::frame_slots::EyeCommandBuffer;
use quest_renderer::handles::{
    CommandBufferHandle, FenceHandle, FramebufferHandle, ImageHandle, ImageViewHandle,
    PipelineHandle, RenderPassHandle, SamplerHandle, SwapChainHandle,
};
use quest_renderer::layout::{
    change_image_layout, ImageLayout, ACCESS_DEPTH_STENCIL_ATTACHMENT_WRITE, ACCESS_SHADER_READ,
    ASPECT_COLOR, ASPECT_DEPTH, ASPECT_STENCIL, STAGE_ALL_GRAPHICS, STAGE_TOP_OF_PIPE,
};
use quest_renderer::lifecycle::{AndroidEvent, App, AppAction};
use quest_renderer::queue_family::QueueFamilyIndices;
use quest_renderer::render_pass::{LoadOp, RenderPass, StoreOp};
use quest_renderer::render_targets::{
    create_frame_buffer, create_image, DepthBuffer, EyeFrameBuffer, RenderTargetError, Texture,
};
use quest_renderer::swap_chain::{
    swap_chain_create_info, EyeTextureSwapChain, Format, SwapChainError, COLOUR_FORMAT,
};
use quest_renderer::util::log_2;

fn images(n: u64) -> Vec<ImageHandle> {
    (0..n).map(|i| ImageHandle(10 + i)).collect()
}

#[test]
fn swap_chain_with_too_few_images_is_refused() {
    let r = EyeTextureSwapChain::new(SwapChainHandle(5), 3, 3, images(2));
    assert_eq!(
        r.err(),
        Some(SwapChainError::ImageCountMismatch { requested: 3, returned: 2 })
    );
}

#[test]
fn swap_chain_with_short_reported_length_is_refused() {
    let r = EyeTextureSwapChain::new(SwapChainHandle(5), 3, 2, images(2));
    assert_eq!(r.err(), Some(SwapChainError::LengthMismatch { requested: 3, reported: 2 }));
}

#[test]
fn swap_chain_null_handle_is_refused() {
    let r = EyeTextureSwapChain::new(SwapChainHandle(0), 3, 3, images(3));
    assert_eq!(r.err(), Some(SwapChainError::NullHandle));
}

#[test]
fn swap_chain_accepted() {
    let s = EyeTextureSwapChain::new(SwapChainHandle(5), 3, 3, images(3)).unwrap();
    assert_eq!(s.length, 3);
    assert_eq!(s.display_images, images(3));
    assert_eq!(s.handle, SwapChainHandle(5));
}

#[test]
fn swap_chain_request() {
    let info = swap_chain_create_info(1024, 768);
    assert_eq!(info.format, COLOUR_FORMAT);
    assert_eq!(info.format.as_raw(), 37);
    assert_eq!(Format::D24UnormS8Uint.as_raw(), 129);
    assert_eq!((info.width, info.height), (1024, 768));
    assert_eq!(info.buffer_count, 3);
    assert_eq!((info.levels, info.face_count, info.array_size), (1, 1, 1));
    assert_eq!(info.usage_flags, 1);
}

fn textures(chain: &EyeTextureSwapChain, w: i32, h: i32, base: u64) -> Vec<Texture> {
    chain
        .display_images
        .iter()
        .enumerate()
        .map(|(i, img)| Texture::new(w, h, *img, ImageViewHandle(base + i as u64), SamplerHandle(9)))
        .collect()
}

fn fbs(n: u64, base: u64) -> Vec<FramebufferHandle> {
    (0..n).map(|i| FramebufferHandle(base + i)).collect()
}

#[test]
fn render_targets_twice_same_shape() {
    let chain = EyeTextureSwapChain::new(SwapChainHandle(5), 3, 3, images(3)).unwrap();
    let a = EyeFrameBuffer::new(&chain, 100, 50, textures(&chain, 100, 50, 20), fbs(3, 40)).unwrap();
    let b = EyeFrameBuffer::new(&chain, 100, 50, textures(&chain, 100, 50, 60), fbs(3, 80)).unwrap();
    assert_eq!(a.display_textures.len(), 3);
    assert_eq!(a.display_textures.len(), b.display_textures.len());
    assert_eq!(a.frame_buffers.len(), b.frame_buffers.len());
    assert_eq!((a.width, a.height), (b.width, b.height));
    assert_eq!(a.current_buffer_index, 0);
    for (x, y) in a.display_textures.iter().zip(b.display_textures.iter()) {
        assert_eq!((x.width, x.height, x.image), (y.width, y.height, y.image));
    }
}

#[test]
fn render_targets_errors() {
    let chain = EyeTextureSwapChain::new(SwapChainHandle(5), 3, 3, images(3)).unwrap();
    let r = EyeFrameBuffer::new(&chain, 0, 50, textures(&chain, 0, 50, 20), fbs(3, 40));
    assert_eq!(r.err(), Some(RenderTargetError::InvalidExtent));
    let r = EyeFrameBuffer::new(&chain, 100, 50, textures(&chain, 100, 50, 20), fbs(2, 40));
    assert_eq!(r.err(), Some(RenderTargetError::CountMismatch));
    let mut t = textures(&chain, 100, 50, 20);
    t[1].height = 51;
    let r = EyeFrameBuffer::new(&chain, 100, 50, t, fbs(3, 40));
    assert_eq!(r.err(), Some(RenderTargetError::TextureMismatch { slot: 1 }));
    let mut t = textures(&chain, 100, 50, 20);
    t.swap(0, 2);
    let r = EyeFrameBuffer::new(&chain, 100, 50, t, fbs(3, 40));
    assert_eq!(r.err(), Some(RenderTargetError::TextureMismatch { slot: 0 }));
}

#[test]
fn texture_and_depth_setup() {
    let t = Texture::new(8, 4, ImageHandle(3), ImageViewHandle(4), SamplerHandle(5));
    assert_eq!(t.depth, 1);
    assert_eq!(t.image_layout, ImageLayout::ShaderReadOnlyOptimal);
    let b = Texture::initial_barrier(ImageHandle(3));
    assert_eq!(b.old_layout, ImageLayout::Undefined);
    assert_eq!(b.new_layout, ImageLayout::ShaderReadOnlyOptimal);
    assert_eq!((b.src_access_mask, b.dst_access_mask), (0, ACCESS_SHADER_READ));
    assert_eq!((b.src_stage_mask, b.dst_stage_mask), (STAGE_TOP_OF_PIPE, STAGE_ALL_GRAPHICS));
    assert_eq!(b.subresource_range.aspect_mask, ASPECT_COLOR);
    let v = Texture::view_request(ImageHandle(3));
    assert_eq!((v.format, v.aspect_mask, v.level_count, v.layer_count), (COLOUR_FORMAT, 1, 1, 1));
    let d = DepthBuffer::initial_barrier(ImageHandle(6));
    assert_eq!(d.new_layout, ImageLayout::DepthStencilAttachmentOptimal);
    assert_eq!(d.dst_access_mask, ACCESS_DEPTH_STENCIL_ATTACHMENT_WRITE);
    assert_eq!(d.subresource_range.aspect_mask, ASPECT_DEPTH | ASPECT_STENCIL);
    assert_eq!(d.subresource_range.aspect_mask, 6);
    let dv = DepthBuffer::view_request(ImageHandle(6));
    assert_eq!(dv.format, Format::D24UnormS8Uint);
    let db = DepthBuffer::new(ImageHandle(6), ImageViewHandle(7));
    assert_eq!(db.layout, ImageLayout::DepthStencilAttachmentOptimal);
    let fb = create_frame_buffer(&t, ImageViewHandle(7), RenderPassHandle(2));
    assert_eq!((fb.colour_view, fb.depth_view), (ImageViewHandle(4), ImageViewHandle(7)));
    assert_eq!((fb.width, fb.height, fb.layers), (8, 4, 1));
}

#[test]
fn layout_barrier_aspects() {
    let b = change_image_layout(
        ImageHandle(1),
        1,
        2,
        ImageLayout::Undefined,
        ImageLayout::ColorAttachmentOptimal,
        3,
        4,
    );
    assert_eq!(b.subresource_range.aspect_mask, ASPECT_COLOR);
    assert_eq!(b.subresource_range.level_count, 1);
    assert_eq!(b.subresource_range.layer_count, 1);
    assert_eq!(ImageLayout::ShaderReadOnlyOptimal.as_raw(), 5);
    assert_eq!(ImageLayout::ColorAttachmentOptimal.as_raw(), 2);
}

#[test]
fn write_command_buffer_layout_round_trip() {
    let cmds = write_command_buffer(
        ImageHandle(1),
        FramebufferHandle(2),
        RenderPassHandle(3),
        Extent2D { width: 10, height: 20 },
        PipelineHandle(4),
    );
    let mut layout = ImageLayout::ShaderReadOnlyOptimal;
    for c in &cmds {
        if let GpuCommand::PipelineBarrier(b) = c {
            assert_eq!(b.image, ImageHandle(1));
            assert_eq!(b.old_layout, layout);
            layout = b.new_layout;
        }
        if let GpuCommand::BeginRenderPass { .. } = c {
            assert_eq!(layout, ImageLayout::ColorAttachmentOptimal);
        }
    }
    assert_eq!(layout, ImageLayout::ShaderReadOnlyOptimal);
    assert!(cmds.contains(&GpuCommand::Draw {
        vertex_count: 3,
        instance_count: 1,
        first_vertex: 0,
        first_instance: 0
    }));
}

#[test]
fn slot_pool_marks() {
    let mut p = EyeCommandBuffer::new(
        vec![CommandBufferHandle(1), CommandBufferHandle(2)],
        vec![FenceHandle(3), FenceHandle(4)],
    );
    assert_eq!(p.num_buffers, 2);
    assert!(!p.needs_wait(1));
    p.mark_submitted(1);
    assert!(p.needs_wait(1));
    assert!(!p.needs_wait(0));
    assert_eq!(p.fence(1), FenceHandle(4));
    assert_eq!(p.command_buffer(0), CommandBufferHandle(1));
    p.mark_reclaimed(1);
    assert!(!p.needs_wait(1));
    assert_eq!(p.fence(1), FenceHandle(4));
}

#[test]
fn queue_families_first_graphics() {
    let q = QueueFamilyIndices::find_queue_families(&vec![0x4, 0x2, 0x3, 0x1]);
    assert_eq!(q.graphics_family, Some(2));
    assert_eq!(q.present_family, Some(2));
    assert!(q.is_complete());
    assert!(q.are_same());
}

#[test]
fn queue_families_without_graphics() {
    let q = QueueFamilyIndices::find_queue_families(&vec![0x4, 0x2]);
    assert_eq!(q.graphics_family, None);
    assert_eq!(q.present_family, Some(1));
    assert!(!q.is_complete());
    assert!(!q.are_same());
    let e = QueueFamilyIndices::find_queue_families(&vec![]);
    assert_eq!(e.present_family, None);
    let mixed = QueueFamilyIndices { graphics_family: Some(0), present_family: Some(1) };
    assert!(mixed.is_complete());
    assert!(!mixed.are_same());
}

fn names(list: &[&str]) -> Vec<Vec<u8>> {
    list.iter().map(|s| s.as_bytes().to_vec()).collect()
}

#[test]
fn extension_support() {
    let supported = names(&["VK_KHR_a", "VK_KHR_b", "VK_EXT_c"]);
    assert!(check_device_extension_support(&names(&["VK_KHR_b", "VK_EXT_c"]), &supported));
    assert!(check_device_extension_support(&names(&[]), &supported));
    assert!(!check_device_extension_support(&names(&["VK_KHR_b", "VK_KHR_bb"]), &supported));
    assert!(!check_device_extension_support(&names(&["VK_KHR_"]), &supported));
}

fn candidate(is_discrete: bool, has_extension_support: bool, graphics: Option<u32>) -> DeviceCandidate {
    DeviceCandidate {
        is_discrete,
        has_extension_support,
        queue_families: QueueFamilyIndices { graphics_family: graphics, present_family: graphics },
    }
}

#[test]
fn device_ranking() {
    assert_eq!(get_suitability(&candidate(true, true, Some(0))), -6);
    assert_eq!(get_suitability(&candidate(true, false, Some(0))), -5);
    assert_eq!(get_suitability(&candidate(false, true, Some(0))), -1);
    assert_eq!(get_suitability(&candidate(false, true, None)), 0);
}

#[test]
fn device_choice() {
    let list = vec![
        candidate(true, false, Some(0)),
        candidate(false, true, Some(0)),
        candidate(true, true, Some(1)),
        candidate(true, true, Some(2)),
    ];
    assert_eq!(get_physical_device(&list), Some(2));
    let list = vec![candidate(true, false, Some(0)), candidate(false, true, Some(0))];
    assert_eq!(get_physical_device(&list), Some(1));
    let list = vec![candidate(true, false, Some(0)), candidate(false, true, None)];
    assert_eq!(get_physical_device(&list), None);
    assert_eq!(get_physical_device(&vec![]), None);
}

#[test]
fn memory_type_choice() {
    let flags = vec![0x6, 0x1, 0x7, 0x1];
    assert_eq!(get_memory_type_index(0b1111, 0x1, &flags), Some(1));
    assert_eq!(get_memory_type_index(0b1101, 0x1, &flags), Some(2));
    assert_eq!(get_memory_type_index(0b0001, 0x1, &flags), None);
    assert_eq!(get_memory_type_index(0b0001, 0x2, &flags), Some(0));
    assert_eq!(get_memory_type_index(0, 0, &flags), None);
}

#[test]
fn extension_names_split_on_spaces() {
    let r = split_extension_names(&b"VK_KHR_a VK_KHR_b".to_vec());
    assert_eq!(r, names(&["VK_KHR_a", "VK_KHR_b"]));
    let r = split_extension_names(&b"".to_vec());
    assert_eq!(r, names(&[""]));
    let r = split_extension_names(&b"a  b ".to_vec());
    assert_eq!(r, names(&["a", "", "b", ""]));
    let r = split_extension_names(&b"single".to_vec());
    assert_eq!(r, names(&["single"]));
}

#[test]
fn lifecycle_decisions() {
    let mut app = App::new();
    assert_eq!(app.next_state(), AppAction::Idle);
    app.handle_android_event(AndroidEvent::Resume);
    assert_eq!(app.next_state(), AppAction::Idle);
    app.handle_android_event(AndroidEvent::WindowCreated);
    assert!(app.need_to_enter_vr());
    assert_eq!(app.next_state(), AppAction::EnterVr);
    app.set_vr_mode(true);
    assert!(app.should_render());
    assert_eq!(app.next_state(), AppAction::Render);
    app.handle_android_event(AndroidEvent::Pause);
    assert!(app.need_to_exit_vr());
    assert_eq!(app.next_state(), AppAction::ExitVr);
    app.set_vr_mode(false);
    app.handle_android_event(AndroidEvent::Other);
    assert_eq!(app.next_state(), AppAction::Idle);
    app.handle_android_event(AndroidEvent::Destroy);
    assert!(app.destroy_requested);
    assert_eq!(app.next_state(), AppAction::Destroy);
    app.handle_android_event(AndroidEvent::WindowDestroyed);
    assert!(!app.window_created);
}

#[test]
fn log_2_values() {
    assert_eq!(log_2(1), 0);
    assert_eq!(log_2(2), 1);
    assert_eq!(log_2(3), 1);
    assert_eq!(log_2(1024), 10);
    assert_eq!(log_2(1025), 10);
    assert_eq!(log_2(i32::MAX), 30);
}

#[test]
fn render_pass_layouts_match_bracket() {
    let d = RenderPass::description();
    assert_eq!(d.colour.format, Format::R8G8B8A8Unorm);
    assert_eq!(d.depth_stencil.format, Format::D24UnormS8Uint);
    assert_eq!(d.colour.initial_layout, ImageLayout::ColorAttachmentOptimal);
    assert_eq!(d.colour.final_layout, ImageLayout::ColorAttachmentOptimal);
    assert_eq!((d.colour.load_op, d.colour.store_op), (LoadOp::Clear, StoreOp::Store));
    assert_eq!((d.depth_stencil.load_op, d.depth_stencil.store_op), (LoadOp::Clear, StoreOp::DontCare));
    assert_eq!(d.depth_stencil.initial_layout, ImageLayout::DepthStencilAttachmentOptimal);
    let rp = RenderPass::new(RenderPassHandle(4));
    assert_eq!(rp.render_pass, RenderPassHandle(4));
    assert_eq!(rp.colour_format, COLOUR_FORMAT);
}

#[test]
fn image_requests() {
    let r = create_image(640, 480, Format::R8G8B8A8Unorm, 0x10);
    assert_eq!((r.width, r.height, r.depth), (640, 480, 1));
    assert_eq!((r.mip_levels, r.array_layers, r.usage), (1, 1, 0x10));
    assert_eq!(r.initial_layout, ImageLayout::Undefined);
    let d = DepthBuffer::image_request(64, 32);
    assert_eq!(d.format, Format::D24UnormS8Uint);
    assert_eq!(d.usage, 0x60);
    assert_eq!((d.width, d.height), (64, 32));
}
