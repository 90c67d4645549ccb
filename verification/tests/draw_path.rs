//! The geometry cache and the frame draw assembler, end to end on the model
//! GPU context.

use sprite_atlas_draw::DrawError;
use sprite_atlas_draw::atlas::{Atlases, RectRecord, TextureAtlas, Vec2Bits};
use sprite_atlas_draw::bind::{BindGroup, BindingResource, GlobalBindings};
use sprite_atlas_draw::commands::{Draw, IndexRange, RenderCommand};
use sprite_atlas_draw::drawer::{
    Camera, ColorBits, Mat4Bits, SamplerConfig, SpriteAtlasDrawer,
};
use sprite_atlas_draw::geometry::{
    QuadMesh, SPRITE_SHEET_PIPELINE_HANDLE, bind_quad_geometry, ensure_quad_uploaded,
};
use sprite_atlas_draw::gpu::{
    BUFFER_USAGE_INDEX, BUFFER_USAGE_VERTEX, GpuContext, RenderResourceId, SlotTag, init_texture,
};

fn le(words: &[u32]) -> Vec<u8> {
    let mut out = Vec::new();
    for w in words {
        out.extend_from_slice(&w.to_le_bytes());
    }
    out
}

fn quad() -> QuadMesh {
    // 4 vertices of 8 floats each, 6 indices of 32 bits each.
    let vertex_bytes = vec![0u8; 128];
    let index_bytes = le(&[0, 2, 1, 0, 3, 2]);
    QuadMesh::new(vertex_bytes, index_bytes)
}

fn atlas_128x64_3_frames(texture: u64) -> TextureAtlas {
    let frame = |i: f32| RectRecord {
        min: Vec2Bits { x: (i * 32.0).to_bits(), y: 0.0f32.to_bits() },
        max: Vec2Bits { x: (i * 32.0 + 32.0).to_bits(), y: 32.0f32.to_bits() },
    };
    TextureAtlas {
        size: Vec2Bits { x: 128.0f32.to_bits(), y: 64.0f32.to_bits() },
        textures: vec![frame(0.0), frame(1.0), frame(2.0)],
        texture,
    }
}

fn white() -> ColorBits {
    let one = 1.0f32.to_bits();
    ColorBits { r: one, g: one, b: one, a: one }
}

fn sampler() -> SamplerConfig {
    SamplerConfig { nearest_filtering: true }
}

fn camera() -> Camera {
    Camera { projection_matrix: Mat4Bits::identity() }
}

fn translation(x: f32) -> Mat4Bits {
    let mut bits = Mat4Bits::identity().bits;
    bits[12] = x.to_bits();
    Mat4Bits::new(bits)
}

#[test]
fn upload_records_both_quad_buffers() {
    let mut ctx = GpuContext::new();
    ensure_quad_uploaded(&mut ctx, &quad());
    assert_eq!(ctx.buffers.len(), 2);
    assert_eq!(ctx.buffers[0].usage, BUFFER_USAGE_INDEX);
    assert_eq!(ctx.buffers[0].contents, le(&[0, 2, 1, 0, 3, 2]));
    assert_eq!(ctx.buffers[1].usage, BUFFER_USAGE_VERTEX);
    assert_eq!(ctx.buffers[1].contents.len(), 128);
    assert_eq!(
        ctx.get_asset_resource(sprite_atlas_draw::geometry::QUAD_HANDLE, SlotTag::IndexBuffer),
        Some(RenderResourceId::Buffer(0))
    );
    assert_eq!(
        ctx.get_asset_resource(
            sprite_atlas_draw::geometry::QUAD_HANDLE,
            SlotTag::VertexAttributeBuffer
        ),
        Some(RenderResourceId::Buffer(1))
    );
}

#[test]
fn bound_range_is_byte_size_over_four_and_stable() {
    let mut ctx = GpuContext::new();
    ensure_quad_uploaded(&mut ctx, &quad());
    let global = GlobalBindings::new();
    let mut first = Draw::new();
    let r1 = bind_quad_geometry(&mut first, &ctx, &global);
    // a 24-byte index buffer yields the range 0..6
    assert_eq!(r1, Ok(IndexRange { start: 0, end: 6 }));
    for _ in 0..5 {
        let mut draw = Draw::new();
        assert_eq!(
            bind_quad_geometry(&mut draw, &ctx, &global),
            Ok(IndexRange { start: 0, end: 6 })
        );
    }
    match &first.render_commands[0] {
        RenderCommand::SetVertexBuffer { slot, buffer, offset } => {
            assert_eq!((*slot, *buffer, *offset), (0, 1, 0));
        }
        c => panic!("expected a vertex buffer command, got {c:?}"),
    }
    match &first.render_commands[1] {
        RenderCommand::SetIndexBuffer { buffer, offset } => {
            assert_eq!((*buffer, *offset), (0, 0));
        }
        c => panic!("expected an index buffer command, got {c:?}"),
    }
}

#[test]
fn binding_before_upload_fails_and_records_nothing() {
    let ctx = GpuContext::new();
    let global = GlobalBindings::new();
    let mut draw = Draw::new();
    let r = bind_quad_geometry(&mut draw, &ctx, &global);
    assert_eq!(r, Err(DrawError::GeometryUnavailable));
    assert_eq!(draw.render_commands.len(), 0);
}

#[test]
fn resolved_global_bindings_are_applied_in_order() {
    let mut ctx = GpuContext::new();
    ensure_quad_uploaded(&mut ctx, &quad());
    let group = BindGroup::build()
        .add_buffer(0, 0, 0, 24)
        .finish();
    let mut global = GlobalBindings::new();
    global.push_slot(4, Some(group));
    let mut draw = Draw::new();
    assert_eq!(
        bind_quad_geometry(&mut draw, &ctx, &global),
        Ok(IndexRange { start: 0, end: 6 })
    );
    assert_eq!(draw.render_commands.len(), 3);
    match &draw.render_commands[2] {
        RenderCommand::SetBindGroup { index, bind_group } => {
            assert_eq!(*index, 4);
            assert_eq!(bind_group.bindings.len(), 1);
            assert_eq!(
                bind_group.bindings[0].resource,
                BindingResource::Buffer { buffer: 0, start: 0, end: 24 }
            );
        }
        c => panic!("expected a bind group command, got {c:?}"),
    }
}

#[test]
fn unresolved_global_binding_fails_the_bind() {
    let mut ctx = GpuContext::new();
    ensure_quad_uploaded(&mut ctx, &quad());
    let mut global = GlobalBindings::new();
    global.push_slot(0, None);
    let mut draw = Draw::new();
    assert_eq!(
        bind_quad_geometry(&mut draw, &ctx, &global),
        Err(DrawError::AssetBindingFailed)
    );
}

#[test]
fn init_texture_records_texture_and_sampler() {
    let mut ctx = GpuContext::new();
    init_texture(&mut ctx, 7);
    assert_eq!(
        ctx.get_asset_resource(7, SlotTag::Texture),
        Some(RenderResourceId::Texture(0))
    );
    assert_eq!(
        ctx.get_asset_resource(7, SlotTag::Sampler),
        Some(RenderResourceId::Sampler(0))
    );
    assert_eq!(ctx.get_asset_resource(8, SlotTag::Texture), None);
}

#[test]
fn new_drawer_selects_the_sprite_pipeline() {
    let mut ctx = GpuContext::new();
    let drawer = SpriteAtlasDrawer::new(&mut ctx, &quad());
    assert_eq!(drawer.draw.render_commands.len(), 1);
    match &drawer.draw.render_commands[0] {
        RenderCommand::SetPipeline { pipeline, vertex_layout } => {
            assert_eq!(*pipeline, SPRITE_SHEET_PIPELINE_HANDLE);
            assert_eq!(vertex_layout.stride, 32);
            assert_eq!(vertex_layout.attributes.len(), 3);
            assert_eq!(vertex_layout.attributes[1].offset, 12);
            assert_eq!(vertex_layout.attributes[2].offset, 24);
        }
        c => panic!("expected a pipeline command, got {c:?}"),
    }
}

/// Scenario: atlas of size (128, 64) with 3 frames over texture handle 7;
/// drawing frame 1 with a white tint and the identity transform succeeds and
/// records the expected buffers, bind groups and one indexed draw.
#[test]
fn draw_scenario_three_frame_atlas() {
    let mut ctx = GpuContext::new();
    let mut drawer = SpriteAtlasDrawer::new(&mut ctx, &quad());
    init_texture(&mut ctx, 7);
    let mut atlases = Atlases::new();
    atlases.insert(5, atlas_128x64_3_frames(7));
    let global = GlobalBindings::new();

    let r = drawer.draw(
        &mut ctx,
        &atlases,
        &global,
        &Mat4Bits::identity(),
        &Mat4Bits::identity(),
        &camera(),
        5,
        1,
        white(),
        &sampler(),
    );
    assert_eq!(r, Ok(()));

    let commands = &drawer.draw.render_commands;
    // pipeline, vertex buffer, index buffer, three sets, one indexed draw
    assert_eq!(commands.len(), 7);
    match &commands[6] {
        RenderCommand::DrawIndexed { indices, base_vertex, instances } => {
            assert_eq!(*indices, IndexRange { start: 0, end: 6 });
            assert_eq!(*base_vertex, 1);
            assert_eq!(*instances, IndexRange { start: 0, end: 1 });
        }
        c => panic!("expected the indexed draw, got {c:?}"),
    }
    // set 1: size buffer, sub-rectangle table of 3 records, texture, sampler
    match &commands[4] {
        RenderCommand::SetBindGroup { index, bind_group } => {
            assert_eq!(*index, 1);
            assert_eq!(bind_group.bindings.len(), 4);
            let size_buffer = match bind_group.bindings[0].resource {
                BindingResource::Buffer { buffer, start, end } => {
                    assert_eq!((start, end), (0, 8));
                    buffer
                }
                r => panic!("expected the size buffer, got {r:?}"),
            };
            assert_eq!(
                ctx.buffers[size_buffer as usize].contents,
                le(&[128.0f32.to_bits(), 64.0f32.to_bits()])
            );
            let table_buffer = match bind_group.bindings[1].resource {
                BindingResource::Buffer { buffer, start, end } => {
                    assert_eq!((start, end), (0, 48));
                    buffer
                }
                r => panic!("expected the table buffer, got {r:?}"),
            };
            assert_eq!(ctx.buffers[table_buffer as usize].contents.len(), 48);
            assert_eq!(
                bind_group.bindings[2].resource,
                BindingResource::Texture { texture: 0 }
            );
            assert_eq!(
                bind_group.bindings[3].resource,
                BindingResource::Sampler { sampler: 0 }
            );
        }
        c => panic!("expected the atlas bind group, got {c:?}"),
    }
    // set 2: instance data { index: 1, color: (1, 1, 1, 1) }
    match &commands[5] {
        RenderCommand::SetBindGroup { index, bind_group } => {
            assert_eq!(*index, 2);
            assert_eq!(bind_group.bindings.len(), 2);
            let sprite_buffer = match bind_group.bindings[1].resource {
                BindingResource::Buffer { buffer, start, end } => {
                    assert_eq!((start, end), (0, 20));
                    buffer
                }
                r => panic!("expected the sprite buffer, got {r:?}"),
            };
            let one = 1.0f32.to_bits();
            assert_eq!(
                ctx.buffers[sprite_buffer as usize].contents,
                le(&[1, one, one, one, one])
            );
        }
        c => panic!("expected the instance bind group, got {c:?}"),
    }
}

/// Two sequential draws with different transforms but the same atlas produce
/// two independent instance bind groups with distinct transform contents,
/// while the atlas buffers' bytes are identical.
#[test]
fn sequential_draws_share_atlas_data_but_not_instance_data() {
    let mut ctx = GpuContext::new();
    let mut drawer = SpriteAtlasDrawer::new(&mut ctx, &quad());
    init_texture(&mut ctx, 7);
    let mut atlases = Atlases::new();
    atlases.insert(5, atlas_128x64_3_frames(7));
    let global = GlobalBindings::new();

    let transform_buffer_of_last_draw = |drawer: &SpriteAtlasDrawer| {
        let set2 = drawer
            .draw
            .render_commands
            .iter()
            .rev()
            .find_map(|c| match c {
                RenderCommand::SetBindGroup { index: 2, bind_group } => Some(bind_group),
                _ => None,
            })
            .expect("an instance bind group");
        match set2.bindings[0].resource {
            BindingResource::Buffer { buffer, .. } => buffer,
            r => panic!("expected the transform buffer, got {r:?}"),
        }
    };
    let size_buffer_of_last_draw = |drawer: &SpriteAtlasDrawer| {
        let set1 = drawer
            .draw
            .render_commands
            .iter()
            .rev()
            .find_map(|c| match c {
                RenderCommand::SetBindGroup { index: 1, bind_group } => Some(bind_group),
                _ => None,
            })
            .expect("an atlas bind group");
        match set1.bindings[0].resource {
            BindingResource::Buffer { buffer, .. } => buffer,
            r => panic!("expected the size buffer, got {r:?}"),
        }
    };

    let r1 = drawer.draw(
        &mut ctx,
        &atlases,
        &global,
        &translation(1.0),
        &Mat4Bits::identity(),
        &camera(),
        5,
        1,
        white(),
        &sampler(),
    );
    assert_eq!(r1, Ok(()));
    let t1 = transform_buffer_of_last_draw(&drawer);
    let s1 = size_buffer_of_last_draw(&drawer);

    let r2 = drawer.draw(
        &mut ctx,
        &atlases,
        &global,
        &translation(2.0),
        &Mat4Bits::identity(),
        &camera(),
        5,
        1,
        white(),
        &sampler(),
    );
    assert_eq!(r2, Ok(()));
    let t2 = transform_buffer_of_last_draw(&drawer);
    let s2 = size_buffer_of_last_draw(&drawer);

    assert_ne!(t1, t2, "instance bind groups must be independent");
    assert_ne!(
        ctx.buffers[t1 as usize].contents, ctx.buffers[t2 as usize].contents,
        "transform contents must differ"
    );
    assert_ne!(s1, s2, "atlas buffers are rebuilt per draw");
    assert_eq!(
        ctx.buffers[s1 as usize].contents, ctx.buffers[s2 as usize].contents,
        "atlas bytes must be identical for an unchanged atlas"
    );
}

#[test]
fn draw_without_uploaded_geometry_fails() {
    let mut ctx = GpuContext::new();
    let mut drawer = SpriteAtlasDrawer { draw: Draw::new() };
    init_texture(&mut ctx, 7);
    let mut atlases = Atlases::new();
    atlases.insert(5, atlas_128x64_3_frames(7));
    let global = GlobalBindings::new();
    let r = drawer.draw(
        &mut ctx,
        &atlases,
        &global,
        &Mat4Bits::identity(),
        &Mat4Bits::identity(),
        &camera(),
        5,
        1,
        white(),
        &sampler(),
    );
    assert_eq!(r, Err(DrawError::GeometryUnavailable));
    assert_eq!(drawer.draw.render_commands.len(), 0);
}

#[test]
fn draw_with_unresolved_global_binding_fails() {
    let mut ctx = GpuContext::new();
    let mut drawer = SpriteAtlasDrawer::new(&mut ctx, &quad());
    init_texture(&mut ctx, 7);
    let mut atlases = Atlases::new();
    atlases.insert(5, atlas_128x64_3_frames(7));
    let mut global = GlobalBindings::new();
    global.push_slot(0, None);
    let r = drawer.draw(
        &mut ctx,
        &atlases,
        &global,
        &Mat4Bits::identity(),
        &Mat4Bits::identity(),
        &camera(),
        5,
        1,
        white(),
        &sampler(),
    );
    assert_eq!(r, Err(DrawError::AssetBindingFailed));
}

#[test]
fn draw_with_unknown_atlas_fails() {
    let mut ctx = GpuContext::new();
    let mut drawer = SpriteAtlasDrawer::new(&mut ctx, &quad());
    let atlases = Atlases::new();
    let global = GlobalBindings::new();
    let r = drawer.draw(
        &mut ctx,
        &atlases,
        &global,
        &Mat4Bits::identity(),
        &Mat4Bits::identity(),
        &camera(),
        5,
        0,
        white(),
        &sampler(),
    );
    assert_eq!(r, Err(DrawError::AtlasNotFound));
    // no indexed draw was recorded
    assert!(
        !drawer
            .draw
            .render_commands
            .iter()
            .any(|c| matches!(c, RenderCommand::DrawIndexed { .. }))
    );
}

/// A frame index equal to the frame count is out of bounds and is rejected
/// as a defined error, not drawn with undefined GPU-side indexing.
#[test]
fn frame_index_at_frame_count_is_rejected() {
    let mut ctx = GpuContext::new();
    let mut drawer = SpriteAtlasDrawer::new(&mut ctx, &quad());
    init_texture(&mut ctx, 7);
    let mut atlases = Atlases::new();
    atlases.insert(5, atlas_128x64_3_frames(7));
    let global = GlobalBindings::new();
    let r = drawer.draw(
        &mut ctx,
        &atlases,
        &global,
        &Mat4Bits::identity(),
        &Mat4Bits::identity(),
        &camera(),
        5,
        3,
        white(),
        &sampler(),
    );
    assert_eq!(r, Err(DrawError::FrameIndexOutOfRange));
    assert!(
        !drawer
            .draw
            .render_commands
            .iter()
            .any(|c| matches!(c, RenderCommand::DrawIndexed { .. }))
    );
}

#[test]
fn zero_frame_atlas_draw_does_not_crash() {
    let mut ctx = GpuContext::new();
    let mut drawer = SpriteAtlasDrawer::new(&mut ctx, &quad());
    init_texture(&mut ctx, 7);
    let mut atlases = Atlases::new();
    atlases.insert(
        5,
        TextureAtlas {
            size: Vec2Bits { x: 8.0f32.to_bits(), y: 8.0f32.to_bits() },
            textures: Vec::new(),
            texture: 7,
        },
    );
    let global = GlobalBindings::new();
    // every index is out of range for an atlas of no frames
    let r = drawer.draw(
        &mut ctx,
        &atlases,
        &global,
        &Mat4Bits::identity(),
        &Mat4Bits::identity(),
        &camera(),
        5,
        0,
        white(),
        &sampler(),
    );
    assert_eq!(r, Err(DrawError::FrameIndexOutOfRange));
}

#[test]
fn atlases_keep_the_latest_insert() {
    let mut atlases = Atlases::new();
    atlases.insert(5, atlas_128x64_3_frames(7));
    atlases.insert(5, atlas_128x64_3_frames(9));
    assert_eq!(atlases.get(5).expect("stored atlas").texture, 9);
    assert!(atlases.get(6).is_none());
}

#[test]
fn buffer_size_lookup_rejects_unknown_ids() {
    let mut ctx = GpuContext::new();
    assert_eq!(ctx.get_buffer_size(0), None);
    let id = ctx.create_buffer_with_data(BUFFER_USAGE_INDEX, vec![0u8; 24]);
    assert_eq!(ctx.get_buffer_size(id), Some(24));
}
