//! The frame draw assembler: for one sprite instance, select the sprite
//! pipeline, bind the cached quad geometry, derive the three bind-group sets
//! (camera; atlas metadata, texture and sampler; per-instance transform and
//! sprite record) and record one indexed draw command.

use crate::DrawError;
use crate::atlas::{
    Atlases, TextureAtlas, atlas_size_bytes, atlas_size_bytes_spec, atlases_get, rect_table_bytes,
    rect_table_bytes_spec,
};
use crate::bind::{BindGroup, BindingResource, GlobalBindings, IndexedBinding};
use crate::bytes::{lemma_u32s_le_bytes_len, u32s_le_bytes, u32s_to_le_bytes};
use crate::commands::{
    Draw, IndexRange, RenderCommand, VertexAttributeLayout, VertexBufferLayout, VertexFormat,
    VertexSemantic, commands_prefix_preserved, is_set_bind_group,
};
use crate::geometry::{
    QuadMesh, SPRITE_SHEET_PIPELINE_HANDLE, bind_quad_geometry, ensure_quad_uploaded,
    global_bind_group_commands_at, quad_buffer_commands_at, quad_index_count, quad_ready,
    quad_uploaded_in,
};
use crate::gpu::{
    BUFFER_USAGE_COPY_DST, BUFFER_USAGE_STORAGE, BUFFER_USAGE_UNIFORM, GpuContext,
    RenderResourceId, SlotTag, cache_get, cached_sampler_id, cached_texture_id,
    texture_initialized,
};
use vstd::prelude::*;

verus! {

/// The usage flags of the two atlas-metadata buffers.
pub const ATLAS_METADATA_BUFFER_USAGE: u32 = BUFFER_USAGE_STORAGE | BUFFER_USAGE_COPY_DST
    | BUFFER_USAGE_UNIFORM;

/// The usage flags of the per-draw uniform buffers.
pub const UNIFORM_BUFFER_USAGE: u32 = BUFFER_USAGE_UNIFORM | BUFFER_USAGE_COPY_DST;

/// A 4x4 matrix of 32-bit floats, as 16 bit patterns in column order.
#[derive(Debug)]
pub struct Mat4Bits {
    pub bits: Vec<u32>,
}

/// The bit pattern of the 32-bit float one.
pub const F32_ONE_BITS: u32 = 0x3f80_0000;

/// The 16 words of the identity matrix.
pub open spec fn mat4_identity_bits() -> Seq<u32> {
    seq![
        F32_ONE_BITS, 0u32, 0u32, 0u32,
        0u32, F32_ONE_BITS, 0u32, 0u32,
        0u32, 0u32, F32_ONE_BITS, 0u32,
        0u32, 0u32, 0u32, F32_ONE_BITS,
    ]
}

impl Mat4Bits {
    /// A matrix value is sixteen words.
    pub open spec fn wf(self) -> bool {
        self.bits@.len() == 16
    }

    /// Wrap sixteen words as a matrix.
    pub fn new(bits: Vec<u32>) -> (r: Mat4Bits)
        requires
            bits@.len() == 16,
        ensures
            r.bits@ == bits@,
            r.wf(),
    {
        Mat4Bits { bits }
    }

    /// The identity matrix.
    pub fn identity() -> (r: Mat4Bits)
        ensures
            r.wf(),
            r.bits@ == mat4_identity_bits(),
    {
        let mut bits: Vec<u32> = Vec::new();
        let mut i: usize = 0;
        while i < 16
            invariant
                i <= 16,
                bits@.len() == i,
                forall|j: int|
                    0 <= j < i ==> bits@[j] == (if j % 5 == 0 {
                        F32_ONE_BITS
                    } else {
                        0u32
                    }),
            decreases 16 - i,
        {
            if i % 5 == 0 {
                bits.push(F32_ONE_BITS);
            } else {
                bits.push(0);
            }
            i = i + 1;
        }
        proof {
            assert(bits@ =~= mat4_identity_bits());
        }
        Mat4Bits { bits }
    }
}

/// The byte payload of a matrix uniform buffer.
pub open spec fn mat4_bytes(m: Mat4Bits) -> Seq<u8> {
    u32s_le_bytes(m.bits@)
}

/// A camera as the assembler reads it: its projection matrix.
pub struct Camera {
    pub projection_matrix: Mat4Bits,
}

/// An RGBA tint, four 32-bit floats as bit patterns.
#[derive(Clone, Copy, Debug, PartialEq, Eq, Structural)]
pub struct ColorBits {
    pub r: u32,
    pub g: u32,
    pub b: u32,
    pub a: u32,
}

/// The ephemeral per-draw sprite instance record: frame index and tint.
#[derive(Clone, Copy, Debug, PartialEq, Eq, Structural)]
pub struct TextureAtlasSprite {
    pub index: u32,
    pub color: ColorBits,
}

/// A sampler description, part of the draw request; the assembler reuses the
/// atlas texture's cached sampler.
#[derive(Clone, Copy, Debug, PartialEq, Eq, Structural)]
pub struct SamplerConfig {
    pub nearest_filtering: bool,
}

/// The five words of the packed sprite instance record: the frame index as an
/// unsigned 32-bit integer, then the tint as four 32-bit floats.
pub open spec fn sprite_record_words(s: TextureAtlasSprite) -> Seq<u32> {
    seq![s.index, s.color.r, s.color.g, s.color.b, s.color.a]
}

/// The byte payload of the sprite-instance uniform buffer (20 bytes).
pub open spec fn sprite_record_bytes_spec(s: TextureAtlasSprite) -> Seq<u8> {
    u32s_le_bytes(sprite_record_words(s))
}

/// Pack the sprite instance record.
pub fn sprite_record_bytes(s: &TextureAtlasSprite) -> (r: Vec<u8>)
    ensures
        r@ == sprite_record_bytes_spec(*s),
        r@.len() == 20,
{
    let mut words: Vec<u32> = Vec::new();
    words.push(s.index);
    words.push(s.color.r);
    words.push(s.color.g);
    words.push(s.color.b);
    words.push(s.color.a);
    proof {
        assert(words@ =~= sprite_record_words(*s));
        lemma_u32s_le_bytes_len(sprite_record_words(*s));
    }
    u32s_to_le_bytes(&words)
}

/// The three attributes of the sprite pipeline's interleaved vertex buffer:
/// position, normal and UV, three floats each, packed back to back.
pub open spec fn sprite_vertex_attributes() -> Seq<VertexAttributeLayout> {
    seq![
        (VertexAttributeLayout {
            semantic: VertexSemantic::Position,
            offset: 0,
            shader_location: 0,
            format: VertexFormat::Float3,
        }),
        (VertexAttributeLayout {
            semantic: VertexSemantic::Normal,
            offset: 12,
            shader_location: 1,
            format: VertexFormat::Float3,
        }),
        (VertexAttributeLayout {
            semantic: VertexSemantic::Uv,
            offset: 24,
            shader_location: 2,
            format: VertexFormat::Float3,
        }),
    ]
}

/// Build the sprite pipeline's vertex buffer layout: stride of eight floats,
/// with position, normal and UV attributes.
pub fn sprite_vertex_layout() -> (l: VertexBufferLayout)
    ensures
        l.stride == 32,
        l.attributes@ == sprite_vertex_attributes(),
{
    let mut attributes: Vec<VertexAttributeLayout> = Vec::new();
    attributes.push(
        VertexAttributeLayout {
            semantic: VertexSemantic::Position,
            offset: 0,
            shader_location: 0,
            format: VertexFormat::Float3,
        },
    );
    attributes.push(
        VertexAttributeLayout {
            semantic: VertexSemantic::Normal,
            offset: 12,
            shader_location: 1,
            format: VertexFormat::Float3,
        },
    );
    attributes.push(
        VertexAttributeLayout {
            semantic: VertexSemantic::Uv,
            offset: 24,
            shader_location: 2,
            format: VertexFormat::Float3,
        },
    );
    proof {
        assert(attributes@ =~= sprite_vertex_attributes());
    }
    VertexBufferLayout { stride: 32, attributes }
}

/// Whether `c` selects the sprite-sheet pipeline with its vertex layout.
pub open spec fn is_sprite_pipeline_command(c: RenderCommand) -> bool {
    c matches RenderCommand::SetPipeline { pipeline, vertex_layout } && pipeline
        == SPRITE_SHEET_PIPELINE_HANDLE && vertex_layout.stride == 32 && vertex_layout.attributes@
        == sprite_vertex_attributes()
}

/// The single binding of set 0: the camera projection uniform buffer.
pub open spec fn camera_group_entries(cam_buffer: u64) -> Seq<IndexedBinding> {
    seq![
        (IndexedBinding {
            index: 0,
            resource: (BindingResource::Buffer { buffer: cam_buffer, start: 0, end: 64 }),
        }),
    ]
}

/// The four bindings of set 1: the atlas pixel-size buffer, the
/// sub-rectangle table buffer, the atlas texture and its sampler.
pub open spec fn atlas_group_entries(
    size_buffer: u64,
    table_buffer: u64,
    table_size: u64,
    texture: u64,
    sampler: u64,
) -> Seq<IndexedBinding> {
    seq![
        (IndexedBinding {
            index: 0,
            resource: (BindingResource::Buffer { buffer: size_buffer, start: 0, end: 8 }),
        }),
        (IndexedBinding {
            index: 1,
            resource: (BindingResource::Buffer { buffer: table_buffer, start: 0, end: table_size }),
        }),
        (IndexedBinding { index: 2, resource: (BindingResource::Texture { texture }) }),
        (IndexedBinding { index: 3, resource: (BindingResource::Sampler { sampler }) }),
    ]
}

/// The two bindings of set 2: the world-transform uniform buffer and the
/// sprite-record uniform buffer.
pub open spec fn instance_group_entries(transform_buffer: u64, sprite_buffer: u64) -> Seq<
    IndexedBinding,
> {
    seq![
        (IndexedBinding {
            index: 0,
            resource: (BindingResource::Buffer { buffer: transform_buffer, start: 0, end: 64 }),
        }),
        (IndexedBinding {
            index: 1,
            resource: (BindingResource::Buffer { buffer: sprite_buffer, start: 0, end: 20 }),
        }),
    ]
}

/// The context gained exactly `added` buffers; everything else but the
/// bind-group counter is unchanged.
pub open spec fn ctx_buffers_extended(ctx0: GpuContext, ctx: GpuContext, added: int) -> bool {
    &&& ctx.buffers@.len() == ctx0.buffers@.len() + added
    &&& forall|j: int| 0 <= j < ctx0.buffers@.len() ==> ctx.buffers@[j] == ctx0.buffers@[j]
    &&& ctx.cache@ == ctx0.cache@
    &&& ctx.textures == ctx0.textures
    &&& ctx.samplers == ctx0.samplers
}

/// Buffer `id` holds exactly `contents`, tagged `usage`.
pub open spec fn buffer_is(ctx: GpuContext, id: int, usage: u32, contents: Seq<u8>) -> bool {
    &&& 0 <= id < ctx.buffers@.len()
    &&& ctx.buffers@[id].usage == usage
    &&& ctx.buffers@[id].contents@ == contents
}

/// The five buffers one successful draw records, in allocation order:
/// camera projection, atlas pixel size, sub-rectangle table, world
/// transform, sprite record.
pub open spec fn draw_buffers_recorded(
    ctx0: GpuContext,
    ctx: GpuContext,
    cam: Camera,
    a: TextureAtlas,
    transform: Mat4Bits,
    sprite: TextureAtlasSprite,
) -> bool {
    let n = ctx0.buffers@.len() as int;
    &&& buffer_is(ctx, n, UNIFORM_BUFFER_USAGE, mat4_bytes(cam.projection_matrix))
    &&& buffer_is(ctx, n + 1, ATLAS_METADATA_BUFFER_USAGE, atlas_size_bytes_spec(a.size))
    &&& buffer_is(ctx, n + 2, ATLAS_METADATA_BUFFER_USAGE, rect_table_bytes_spec(a.textures@))
    &&& buffer_is(ctx, n + 3, UNIFORM_BUFFER_USAGE, mat4_bytes(transform))
    &&& buffer_is(ctx, n + 4, UNIFORM_BUFFER_USAGE, sprite_record_bytes_spec(sprite))
}

/// The commands one successful draw records after the global bind groups:
/// the three set bindings, then exactly one indexed draw over `0 .. count`
/// with one instance (instance range `0..1`).
pub open spec fn draw_sets_segment_at(
    s: Seq<RenderCommand>,
    at: int,
    n: int,
    table_size: u64,
    texture: u64,
    sampler: u64,
    count: int,
) -> bool {
    &&& s.len() >= at + 4
    &&& is_set_bind_group(s[at], 0, camera_group_entries(n as u64))
    &&& is_set_bind_group(
        s[at + 1],
        1,
        atlas_group_entries((n + 1) as u64, (n + 2) as u64, table_size, texture, sampler),
    )
    &&& is_set_bind_group(s[at + 2], 2, instance_group_entries((n + 3) as u64, (n + 4) as u64))
    &&& s[at + 3] == (RenderCommand::DrawIndexed {
        indices: (IndexRange { start: 0, end: count as u32 }),
        base_vertex: 1,
        instances: (IndexRange { start: 0, end: 1 }),
    })
}

/// All four checks a draw makes, in order: quad geometry cached, global
/// bindings resolved, atlas found, frame index below the frame count.
pub open spec fn draw_checks_pass(
    ctx: GpuContext,
    atlases: Atlases,
    global: GlobalBindings,
    atlas: u64,
    index: u32,
) -> bool {
    &&& quad_ready(ctx)
    &&& global.resolved()
    &&& atlases_get(atlases.entries@, atlas) matches Some(a) && (index as int) < a.textures@.len()
}

/// The frame draw assembler: owns the draw commands it records; the GPU
/// context, atlas storage and global bindings are injected per call.
pub struct SpriteAtlasDrawer {
    pub draw: Draw,
}

impl SpriteAtlasDrawer {
    /// Select the sprite-sheet pipeline and upload the quad geometry, as the
    /// bootstrap step does once at startup.
    pub fn new(ctx: &mut GpuContext, quad: &QuadMesh) -> (r: SpriteAtlasDrawer)
        requires
            old(ctx).wf(),
        ensures
            final(ctx).wf(),
            quad_uploaded_in(*old(ctx), *final(ctx), *quad),
            forall|j: int|
                0 <= j < old(ctx).buffers@.len() ==> final(ctx).buffers@[j] == old(ctx).buffers@[j],
            forall|a: u64, s: SlotTag|
                !(a == crate::geometry::QUAD_HANDLE && (s == SlotTag::IndexBuffer || s
                    == SlotTag::VertexAttributeBuffer)) ==> #[trigger] cache_get(
                    final(ctx).cache@,
                    a,
                    s,
                ) == cache_get(old(ctx).cache@, a, s),
            final(ctx).textures == old(ctx).textures,
            final(ctx).samplers == old(ctx).samplers,
            final(ctx).bind_groups == old(ctx).bind_groups,
            r.draw.render_commands@.len() == 1,
            is_sprite_pipeline_command(r.draw.render_commands@[0]),
    {
        let mut draw = Draw::new();
        draw.set_pipeline(SPRITE_SHEET_PIPELINE_HANDLE, sprite_vertex_layout());
        ensure_quad_uploaded(ctx, quad);
        SpriteAtlasDrawer { draw }
    }

    /// Draw one sprite frame of an atlas: bind the quad geometry, build the
    /// camera, atlas and instance bind-group sets, and record one indexed
    /// draw command with one instance.
    ///
    /// `cam_transform` and `sampler` belong to the draw request; this
    /// assembler derives set 0 from the camera's projection matrix and
    /// reuses the atlas texture's cached sampler, so neither influences the
    /// recorded commands.
    #[allow(unused_variables)]
    pub fn draw(
        &mut self,
        ctx: &mut GpuContext,
        atlases: &Atlases,
        global: &GlobalBindings,
        transform: &Mat4Bits,
        cam_transform: &Mat4Bits,
        cam: &Camera,
        atlas: u64,
        index: u32,
        color: ColorBits,
        sampler: &SamplerConfig,
    ) -> (r: Result<(), DrawError>)
        requires
            old(ctx).wf(),
            transform.wf(),
            cam.projection_matrix.wf(),
            quad_ready(*old(ctx)) ==> quad_index_count(*old(ctx)) <= u32::MAX,
            old(ctx).buffers@.len() + 5 <= u64::MAX,
            old(ctx).bind_groups + 3 <= u64::MAX,
            draw_checks_pass(*old(ctx), *atlases, *global, atlas, index) ==> texture_initialized(
                *old(ctx),
                atlases_get(atlases.entries@, atlas)->Some_0.texture,
            ),
        ensures
            final(ctx).wf(),
            // the quad geometry was never uploaded
            !quad_ready(*old(ctx)) ==> r == Err::<(), DrawError>(DrawError::GeometryUnavailable)
                && *final(ctx) == *old(ctx) && final(self).draw.render_commands@ == old(
                self,
            ).draw.render_commands@,
            // a global binding is unresolved
            quad_ready(*old(ctx)) && !global.resolved() ==> r == Err::<(), DrawError>(
                DrawError::AssetBindingFailed,
            ) && *final(ctx) == *old(ctx) && final(self).draw.render_commands@.len() == old(
                self,
            ).draw.render_commands@.len() + 2 && commands_prefix_preserved(
                old(self).draw.render_commands@,
                final(self).draw.render_commands@,
            ) && quad_buffer_commands_at(
                final(self).draw.render_commands@,
                old(self).draw.render_commands@.len() as int,
                *old(ctx),
            ),
            // no atlas under the handle: set 0 was already built
            quad_ready(*old(ctx)) && global.resolved() && atlases_get(atlases.entries@, atlas)
                is None ==> r == Err::<(), DrawError>(DrawError::AtlasNotFound)
                && draw_failed_after_set0(
                *old(self),
                *final(self),
                *old(ctx),
                *final(ctx),
                *global,
                *cam,
            ),
            // frame index at or past the frame count: set 0 was already built
            quad_ready(*old(ctx)) && global.resolved() && (atlases_get(atlases.entries@, atlas)
                matches Some(a) && (index as int) >= a.textures@.len()) ==> r == Err::<
                (),
                DrawError,
            >(DrawError::FrameIndexOutOfRange) && draw_failed_after_set0(
                *old(self),
                *final(self),
                *old(ctx),
                *final(ctx),
                *global,
                *cam,
            ),
            // every check passed: five buffers, three bind groups, one draw
            draw_checks_pass(*old(ctx), *atlases, *global, atlas, index) ==> r == Ok::<
                (),
                DrawError,
            >(()) && draw_succeeded(
                *old(self),
                *final(self),
                *old(ctx),
                *final(ctx),
                *global,
                *cam,
                atlases_get(atlases.entries@, atlas)->Some_0,
                *transform,
                (TextureAtlasSprite { index, color }),
            ),
    {
        let indices = match bind_quad_geometry(&mut self.draw, ctx, global) {
            Ok(range) => range,
            Err(e) => {
                return Err(e);
            },
        };
        let sprite = TextureAtlasSprite { index, color };

        // Set 0: the camera projection.
        let cam_bytes = u32s_to_le_bytes(&cam.projection_matrix.bits);
        proof {
            lemma_u32s_le_bytes_len(cam.projection_matrix.bits@);
        }
        let cam_buffer = ctx.create_buffer_with_data(UNIFORM_BUFFER_USAGE, cam_bytes);
        let cam_bind_group = BindGroup::build().add_buffer(0, cam_buffer, 0, 64).finish();
        proof {
            assert(cam_bind_group.bindings@ =~= camera_group_entries(cam_buffer));
        }
        match ctx.create_bind_group_resource(0, &cam_bind_group) {
            Ok(()) => {},
            Err(e) => {
                return Err(e);
            },
        }
        self.draw.set_bind_group(0, cam_bind_group);

        // Set 1: atlas pixel size, sub-rectangle table, texture, sampler.
        let a = match atlases.get(atlas) {
            Some(a) => a,
            None => {
                return Err(DrawError::AtlasNotFound);
            },
        };
        if !((index as usize) < a.textures.len()) {
            return Err(DrawError::FrameIndexOutOfRange);
        }
        let size_bytes = atlas_size_bytes(&a.size);
        let size_buffer = ctx.create_buffer_with_data(ATLAS_METADATA_BUFFER_USAGE, size_bytes);
        let table_bytes = rect_table_bytes(&a.textures);
        let table_size = table_bytes.len();
        let table_buffer = ctx.create_buffer_with_data(ATLAS_METADATA_BUFFER_USAGE, table_bytes);
        let texture = match ctx.get_asset_resource(a.texture, SlotTag::Texture) {
            Some(RenderResourceId::Texture(t)) => t,
            _ => vstd::pervasive::unreached(),
        };
        let atlas_sampler = match ctx.get_asset_resource(a.texture, SlotTag::Sampler) {
            Some(RenderResourceId::Sampler(s)) => s,
            _ => vstd::pervasive::unreached(),
        };
        let texture_bind_group = BindGroup::build()
            .add_buffer(0, size_buffer, 0, 8)
            .add_buffer(1, table_buffer, 0, table_size as u64)
            .add_texture(2, texture)
            .add_sampler(3, atlas_sampler)
            .finish();
        proof {
            assert(texture_bind_group.bindings@ =~= atlas_group_entries(
                size_buffer,
                table_buffer,
                table_size as u64,
                texture,
                atlas_sampler,
            ));
        }
        match ctx.create_bind_group_resource(1, &texture_bind_group) {
            Ok(()) => {},
            Err(e) => {
                return Err(e);
            },
        }
        self.draw.set_bind_group(1, texture_bind_group);

        // Set 2: the world transform and the sprite instance record.
        let transform_bytes = u32s_to_le_bytes(&transform.bits);
        proof {
            lemma_u32s_le_bytes_len(transform.bits@);
        }
        let transform_buffer = ctx.create_buffer_with_data(UNIFORM_BUFFER_USAGE, transform_bytes);
        let sprite_bytes = sprite_record_bytes(&sprite);
        let sprite_buffer = ctx.create_buffer_with_data(UNIFORM_BUFFER_USAGE, sprite_bytes);
        let sprite_bind_group = BindGroup::build()
            .add_buffer(0, transform_buffer, 0, 64)
            .add_buffer(1, sprite_buffer, 0, 20)
            .finish();
        proof {
            assert(sprite_bind_group.bindings@ =~= instance_group_entries(
                transform_buffer,
                sprite_buffer,
            ));
        }
        match ctx.create_bind_group_resource(2, &sprite_bind_group) {
            Ok(()) => {},
            Err(e) => {
                return Err(e);
            },
        }
        self.draw.set_bind_group(2, sprite_bind_group);

        self.draw.draw_indexed(indices, 1, IndexRange { start: 0, end: 1 });
        Ok(())
    }
}

/// What a draw that failed after building set 0 (atlas missing, or frame
/// index out of range) did: one camera buffer and one bind-group
/// registration; the geometry, global and set-0 commands recorded, and no
/// indexed draw.
pub open spec fn draw_failed_after_set0(
    d0: SpriteAtlasDrawer,
    d: SpriteAtlasDrawer,
    ctx0: GpuContext,
    ctx: GpuContext,
    global: GlobalBindings,
    cam: Camera,
) -> bool {
    let od = d0.draw.render_commands@;
    let nd = d.draw.render_commands@;
    let n = ctx0.buffers@.len() as int;
    &&& ctx_buffers_extended(ctx0, ctx, 1)
    &&& ctx.bind_groups as int == ctx0.bind_groups as int + 1
    &&& buffer_is(ctx, n, UNIFORM_BUFFER_USAGE, mat4_bytes(cam.projection_matrix))
    &&& nd.len() == od.len() + 2 + global.slots@.len() + 1
    &&& commands_prefix_preserved(od, nd)
    &&& quad_buffer_commands_at(nd, od.len() as int, ctx0)
    &&& global_bind_group_commands_at(nd, od.len() + 2int, global)
    &&& is_set_bind_group(nd[od.len() + 2int + global.slots@.len()], 0, camera_group_entries(n as u64))
}

/// What one successful draw did: the five buffers recorded, three bind
/// groups registered, and the geometry, global, set and indexed-draw
/// commands recorded in order.
pub open spec fn draw_succeeded(
    d0: SpriteAtlasDrawer,
    d: SpriteAtlasDrawer,
    ctx0: GpuContext,
    ctx: GpuContext,
    global: GlobalBindings,
    cam: Camera,
    a: TextureAtlas,
    transform: Mat4Bits,
    sprite: TextureAtlasSprite,
) -> bool {
    let od = d0.draw.render_commands@;
    let nd = d.draw.render_commands@;
    let n = ctx0.buffers@.len() as int;
    &&& ctx_buffers_extended(ctx0, ctx, 5)
    &&& ctx.bind_groups as int == ctx0.bind_groups as int + 3
    &&& draw_buffers_recorded(ctx0, ctx, cam, a, transform, sprite)
    &&& nd.len() == od.len() + 2 + global.slots@.len() + 4
    &&& commands_prefix_preserved(od, nd)
    &&& quad_buffer_commands_at(nd, od.len() as int, ctx0)
    &&& global_bind_group_commands_at(nd, od.len() + 2int, global)
    &&& draw_sets_segment_at(
        nd,
        od.len() + 2int + global.slots@.len(),
        n,
        (16 * a.textures@.len()) as u64,
        cached_texture_id(ctx0, a.texture),
        cached_sampler_id(ctx0, a.texture),
        quad_index_count(ctx0),
    )
}

} // verus!
