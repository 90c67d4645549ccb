//! The static geometry cache: guarantees the shared unit quad's vertex and
//! index buffers exist on the GPU under the fixed quad handle, and binds them
//! for a draw, deriving the drawable index range from the index buffer's byte
//! size (32-bit indices, so size divided by four).

use crate::DrawError;
use crate::bind::{BindGroup, GlobalBindings};
use crate::commands::{Draw, IndexRange, RenderCommand, commands_prefix_preserved, is_set_bind_group};
use crate::gpu::{
    BUFFER_USAGE_INDEX, BUFFER_USAGE_VERTEX, GpuContext, RenderResourceId, SlotTag, cache_get,
};
use vstd::prelude::*;

verus! {

/// The well-known handle of the shared unit-quad mesh asset.
pub const QUAD_HANDLE: u64 = 1;

/// The well-known handle of the sprite-sheet shader pipeline.
pub const SPRITE_SHEET_PIPELINE_HANDLE: u64 = 2;

/// The shared quad mesh as raw GPU payloads: interleaved vertex bytes and
/// 32-bit index bytes, as the host's geometry source hands them out.
pub struct QuadMesh {
    pub vertex_bytes: Vec<u8>,
    pub index_bytes: Vec<u8>,
}

impl QuadMesh {
    /// Wrap the raw payloads a geometry source produced for the quad.
    pub fn new(vertex_bytes: Vec<u8>, index_bytes: Vec<u8>) -> (r: QuadMesh)
        ensures
            r.vertex_bytes@ == vertex_bytes@,
            r.index_bytes@ == index_bytes@,
    {
        QuadMesh { vertex_bytes, index_bytes }
    }
}

/// The cached entry for the quad's vertex-attribute buffer.
pub open spec fn quad_vertex_entry(ctx: GpuContext) -> Option<RenderResourceId> {
    cache_get(ctx.cache@, QUAD_HANDLE, SlotTag::VertexAttributeBuffer)
}

/// The cached entry for the quad's index buffer.
pub open spec fn quad_index_entry(ctx: GpuContext) -> Option<RenderResourceId> {
    cache_get(ctx.cache@, QUAD_HANDLE, SlotTag::IndexBuffer)
}

/// Both quad buffers are cached as buffers: the geometry upload has run.
pub open spec fn quad_ready(ctx: GpuContext) -> bool {
    &&& quad_vertex_entry(ctx) matches Some(RenderResourceId::Buffer(_))
    &&& quad_index_entry(ctx) matches Some(RenderResourceId::Buffer(_))
}

/// The id of the cached quad vertex buffer (meaningful when ready).
pub open spec fn quad_vertex_buffer_id(ctx: GpuContext) -> u64 {
    quad_vertex_entry(ctx)->Some_0->Buffer_0
}

/// The id of the cached quad index buffer (meaningful when ready).
pub open spec fn quad_index_buffer_id(ctx: GpuContext) -> u64 {
    quad_index_entry(ctx)->Some_0->Buffer_0
}

/// The byte size of the cached quad index buffer (meaningful when ready).
pub open spec fn quad_index_size(ctx: GpuContext) -> int {
    ctx.buffers@[quad_index_buffer_id(ctx) as int].contents@.len() as int
}

/// How many 32-bit indices the cached quad index buffer holds: its byte size
/// divided by four.
pub open spec fn quad_index_count(ctx: GpuContext) -> int {
    quad_index_size(ctx) / 4
}

/// What one run of `ensure_quad_uploaded` over `quad` did to the context:
/// both buffers uploaded once more and recorded under the quad handle, the
/// index buffer first.
pub open spec fn quad_uploaded_in(ctx0: GpuContext, ctx: GpuContext, quad: QuadMesh) -> bool {
    let n = ctx0.buffers@.len() as int;
    &&& quad_ready(ctx)
    &&& quad_index_buffer_id(ctx) as int == n
    &&& quad_vertex_buffer_id(ctx) as int == n + 1
    &&& ctx.buffers@.len() == n + 2
    &&& ctx.buffers@[n].usage == BUFFER_USAGE_INDEX
    &&& ctx.buffers@[n].contents@ == quad.index_bytes@
    &&& ctx.buffers@[n + 1].usage == BUFFER_USAGE_VERTEX
    &&& ctx.buffers@[n + 1].contents@ == quad.vertex_bytes@
}

/// Copy a byte payload so it can be handed to a buffer allocation.
pub fn copy_bytes(src: &Vec<u8>) -> (r: Vec<u8>)
    ensures
        r@ == src@,
{
    let mut out: Vec<u8> = Vec::new();
    let mut i: usize = 0;
    while i < src.len()
        invariant
            i <= src.len(),
            out@ == src@.subrange(0, i as int),
        decreases src.len() - i,
    {
        out.push(src[i]);
        proof {
            assert(out@ =~= src@.subrange(0, i as int + 1));
        }
        i = i + 1;
    }
    proof {
        assert(src@.subrange(0, src@.len() as int) =~= src@);
    }
    out
}

/// Upload the quad's index and vertex buffers and record them in the
/// asset-resource cache under the quad handle. Running it again re-uploads
/// and overrides the entries (wasteful, not unsafe); callers run it once, at
/// startup, before any draw.
pub fn ensure_quad_uploaded(ctx: &mut GpuContext, quad: &QuadMesh)
    requires
        old(ctx).wf(),
    ensures
        final(ctx).wf(),
        quad_uploaded_in(*old(ctx), *final(ctx), *quad),
        forall|j: int|
            0 <= j < old(ctx).buffers@.len() ==> final(ctx).buffers@[j] == old(ctx).buffers@[j],
        forall|a: u64, s: SlotTag|
            !(a == QUAD_HANDLE && (s == SlotTag::IndexBuffer || s == SlotTag::VertexAttributeBuffer))
                ==> #[trigger] cache_get(final(ctx).cache@, a, s) == cache_get(old(ctx).cache@, a, s),
        final(ctx).textures == old(ctx).textures,
        final(ctx).samplers == old(ctx).samplers,
        final(ctx).bind_groups == old(ctx).bind_groups,
{
    let index_buffer = ctx.create_buffer_with_data(
        BUFFER_USAGE_INDEX,
        copy_bytes(&quad.index_bytes),
    );
    ctx.set_asset_resource(QUAD_HANDLE, SlotTag::IndexBuffer, RenderResourceId::Buffer(index_buffer));
    let vertex_buffer = ctx.create_buffer_with_data(
        BUFFER_USAGE_VERTEX,
        copy_bytes(&quad.vertex_bytes),
    );
    ctx.set_asset_resource(
        QUAD_HANDLE,
        SlotTag::VertexAttributeBuffer,
        RenderResourceId::Buffer(vertex_buffer),
    );
}

/// The commands `bind_quad_geometry` records before the global bind groups:
/// the quad's vertex buffer at slot 0, then its index buffer, both at offset
/// zero.
pub open spec fn quad_buffer_commands_at(s: Seq<RenderCommand>, at: int, ctx: GpuContext) -> bool {
    &&& s.len() >= at + 2
    &&& s[at] == (RenderCommand::SetVertexBuffer {
        slot: 0,
        buffer: quad_vertex_buffer_id(ctx),
        offset: 0,
    })
    &&& s[at + 1] == (RenderCommand::SetIndexBuffer { buffer: quad_index_buffer_id(ctx), offset: 0 })
}

/// The global bind groups, attached in slot order after position `at`.
pub open spec fn global_bind_group_commands_at(
    s: Seq<RenderCommand>,
    at: int,
    global: GlobalBindings,
) -> bool {
    &&& s.len() >= at + global.slots@.len()
    &&& forall|k: int|
        0 <= k < global.slots@.len() ==> is_set_bind_group(
            s[at + k],
            (#[trigger] global.slots@[k]).index,
            global.slots@[k].bind_group->Some_0.bindings@,
        )
}

/// Bind the cached quad geometry for one draw: vertex buffer at slot 0,
/// index buffer at offset 0, then the globally bound bind groups, and return
/// the drawable index range `0 .. byte_size / 4` (32-bit indices).
///
/// Fails with `GeometryUnavailable`, recording nothing, when either quad
/// buffer is missing from the cache (`ensure_quad_uploaded` never ran), and
/// with `AssetBindingFailed` when a global binding is unresolved.
pub fn bind_quad_geometry(draw: &mut Draw, ctx: &GpuContext, global: &GlobalBindings) -> (r: Result<
    IndexRange,
    DrawError,
>)
    requires
        ctx.wf(),
        quad_ready(*ctx) ==> quad_index_count(*ctx) <= u32::MAX,
    ensures
        !quad_ready(*ctx) ==> r == Err::<IndexRange, DrawError>(DrawError::GeometryUnavailable)
            && final(draw).render_commands@ == old(draw).render_commands@,
        quad_ready(*ctx) && !global.resolved() ==> r == Err::<IndexRange, DrawError>(
            DrawError::AssetBindingFailed,
        ) && final(draw).render_commands@.len() == old(draw).render_commands@.len() + 2
            && commands_prefix_preserved(old(draw).render_commands@, final(draw).render_commands@)
            && quad_buffer_commands_at(
            final(draw).render_commands@,
            old(draw).render_commands@.len() as int,
            *ctx,
        ),
        quad_ready(*ctx) && global.resolved() ==> r == Ok::<IndexRange, DrawError>(
            IndexRange { start: 0, end: quad_index_count(*ctx) as u32 },
        ) && final(draw).render_commands@.len() == old(draw).render_commands@.len() + 2
            + global.slots@.len() && commands_prefix_preserved(
            old(draw).render_commands@,
            final(draw).render_commands@,
        ) && quad_buffer_commands_at(
            final(draw).render_commands@,
            old(draw).render_commands@.len() as int,
            *ctx,
        ) && global_bind_group_commands_at(
            final(draw).render_commands@,
            old(draw).render_commands@.len() + 2int,
            *global,
        ),
{
    let vertex_entry = ctx.get_asset_resource(QUAD_HANDLE, SlotTag::VertexAttributeBuffer);
    let index_entry = ctx.get_asset_resource(QUAD_HANDLE, SlotTag::IndexBuffer);
    let vertex_attribute_buffer_id: u64 = match vertex_entry {
        Some(RenderResourceId::Buffer(b)) => b,
        _ => {
            return Err(DrawError::GeometryUnavailable);
        },
    };
    let quad_index_buffer: u64 = match index_entry {
        Some(RenderResourceId::Buffer(b)) => b,
        _ => {
            return Err(DrawError::GeometryUnavailable);
        },
    };
    if !global.is_resolved() {
        draw.set_vertex_buffer(0, vertex_attribute_buffer_id, 0);
        draw.set_index_buffer(quad_index_buffer, 0);
        return Err(DrawError::AssetBindingFailed);
    }
    draw.set_vertex_buffer(0, vertex_attribute_buffer_id, 0);
    draw.set_index_buffer(quad_index_buffer, 0);
    let indices: IndexRange = match ctx.get_buffer_size(quad_index_buffer) {
        Some(size) => IndexRange { start: 0, end: (size / 4) as u32 },
        None => {
            proof {
                crate::gpu::lemma_cache_get_is_some_entry(
                    ctx.cache@,
                    QUAD_HANDLE,
                    SlotTag::IndexBuffer,
                );
                let i = choose|i: int|
                    0 <= i < ctx.cache@.len() && (#[trigger] ctx.cache@[i]).asset == QUAD_HANDLE
                        && ctx.cache@[i].slot == SlotTag::IndexBuffer && ctx.cache@[i].resource
                        == cache_get(ctx.cache@, QUAD_HANDLE, SlotTag::IndexBuffer)->Some_0;
                assert(ctx.resource_valid(ctx.cache@[i].resource));
            }
            vstd::pervasive::unreached()
        },
    };
    let ghost base = old(draw).render_commands@.len() as int;
    let mut k: usize = 0;
    while k < global.slots.len()
        invariant
            ctx.wf(),
            k <= global.slots@.len(),
            global.resolved(),
            quad_ready(*ctx),
            base == old(draw).render_commands@.len() as int,
            indices == (IndexRange { start: 0, end: quad_index_count(*ctx) as u32 }),
            draw.render_commands@.len() == base + 2 + k,
            commands_prefix_preserved(old(draw).render_commands@, draw.render_commands@),
            quad_buffer_commands_at(draw.render_commands@, base, *ctx),
            forall|j: int|
                0 <= j < k ==> is_set_bind_group(
                    draw.render_commands@[base + 2 + j],
                    (#[trigger] global.slots@[j]).index,
                    global.slots@[j].bind_group->Some_0.bindings@,
                ),
        decreases global.slots@.len() - k,
    {
        let group: BindGroup = match &global.slots[k].bind_group {
            Some(g) => g.duplicate(),
            None => vstd::pervasive::unreached(),
        };
        draw.set_bind_group(global.slots[k].index, group);
        k = k + 1;
    }
    Ok(indices)
}

} // verus!
