//! Laws the draw path obeys across its operations, each proved from the
//! operations' contracts alone.

use crate::atlas::{TextureAtlas, atlas_size_bytes_spec, rect_table_bytes_spec};
use crate::bind::GlobalBindings;
use crate::bytes::lemma_u32s_le_bytes_injective;
use crate::commands::{
    count_draw_indexed, is_draw_indexed, is_set_bind_group, lemma_count_draw_indexed_last_only,
    lemma_count_draw_indexed_zero,
};
use crate::drawer::{
    Camera, Mat4Bits, SpriteAtlasDrawer, TextureAtlasSprite, draw_failed_after_set0, draw_succeeded,
    mat4_bytes,
};
use crate::geometry::{QuadMesh, quad_index_count, quad_ready, quad_uploaded_in};
use crate::gpu::GpuContext;
use vstd::prelude::*;

verus! {

/// Once the quad is uploaded, the geometry is ready and the drawable index
/// count is pinned to the uploaded index payload's byte length divided by
/// four; `bind_quad_geometry` then returns the range `0 .. that count` on
/// every call, however often it is repeated, since it leaves the context
/// untouched.
pub proof fn lemma_quad_range_after_upload(ctx0: GpuContext, ctx: GpuContext, quad: QuadMesh)
    requires
        quad_uploaded_in(ctx0, ctx, quad),
    ensures
        quad_ready(ctx),
        quad_index_count(ctx) == quad.index_bytes@.len() / 4,
{
}

/// A successful draw appends exactly one indexed draw command to the
/// recorded commands, and it is the last one appended.
pub proof fn lemma_successful_draw_appends_one_indexed_draw(
    d0: SpriteAtlasDrawer,
    d: SpriteAtlasDrawer,
    ctx0: GpuContext,
    ctx: GpuContext,
    global: GlobalBindings,
    cam: Camera,
    a: TextureAtlas,
    transform: Mat4Bits,
    sprite: TextureAtlasSprite,
)
    requires
        draw_succeeded(d0, d, ctx0, ctx, global, cam, a, transform, sprite),
    ensures
        count_draw_indexed(
            d.draw.render_commands@.subrange(
                d0.draw.render_commands@.len() as int,
                d.draw.render_commands@.len() as int,
            ),
        ) == 1,
        is_draw_indexed(d.draw.render_commands@.last()),
{
    let od = d0.draw.render_commands@;
    let nd = d.draw.render_commands@;
    let glen = global.slots@.len() as int;
    let seg = nd.subrange(od.len() as int, nd.len() as int);
    assert(seg.len() == 2 + glen + 4);
    assert(is_draw_indexed(seg.last()));
    assert forall|j: int| 0 <= j < seg.len() - 1 implies !is_draw_indexed(seg[j]) by {
        assert(seg[j] == nd[od.len() + j]);
        if j < 2 {
        } else if j < 2 + glen {
            let k = j - 2;
            assert(is_set_bind_group(
                nd[od.len() + 2int + k],
                global.slots@[k].index,
                global.slots@[k].bind_group->Some_0.bindings@,
            ));
        } else {
            let at = od.len() + 2int + glen;
            assert(j - 2 - glen < 3);
        }
    }
    lemma_count_draw_indexed_last_only(seg);
}

/// A draw that failed after building set 0 appended no indexed draw command
/// at all: the draw itself was never emitted.
pub proof fn lemma_failed_draw_appends_no_indexed_draw(
    d0: SpriteAtlasDrawer,
    d: SpriteAtlasDrawer,
    ctx0: GpuContext,
    ctx: GpuContext,
    global: GlobalBindings,
    cam: Camera,
)
    requires
        draw_failed_after_set0(d0, d, ctx0, ctx, global, cam),
    ensures
        count_draw_indexed(
            d.draw.render_commands@.subrange(
                d0.draw.render_commands@.len() as int,
                d.draw.render_commands@.len() as int,
            ),
        ) == 0,
{
    let od = d0.draw.render_commands@;
    let nd = d.draw.render_commands@;
    let glen = global.slots@.len() as int;
    let seg = nd.subrange(od.len() as int, nd.len() as int);
    assert forall|j: int| 0 <= j < seg.len() implies !is_draw_indexed(seg[j]) by {
        assert(seg[j] == nd[od.len() + j]);
        if 2 <= j < 2 + glen {
            let k = j - 2;
            assert(is_set_bind_group(
                nd[od.len() + 2int + k],
                global.slots@[k].index,
                global.slots@[k].bind_group->Some_0.bindings@,
            ));
        }
    }
    lemma_count_draw_indexed_zero(seg);
}

/// Draws with different world transforms record instance (set 2) transform
/// buffers with different contents, while the atlas metadata bytes (set 1)
/// are identical whenever the atlas's size and frames are: the instance data
/// of two sequential draws is independent, the atlas data is shared.
pub proof fn lemma_instance_data_independent(
    t1: Mat4Bits,
    t2: Mat4Bits,
    a1: TextureAtlas,
    a2: TextureAtlas,
)
    requires
        t1.wf(),
        t2.wf(),
        t1.bits@ != t2.bits@,
        a1.size == a2.size,
        a1.textures@ == a2.textures@,
    ensures
        mat4_bytes(t1) != mat4_bytes(t2),
        atlas_size_bytes_spec(a1.size) == atlas_size_bytes_spec(a2.size),
        rect_table_bytes_spec(a1.textures@) == rect_table_bytes_spec(a2.textures@),
{
    if mat4_bytes(t1) == mat4_bytes(t2) {
        lemma_u32s_le_bytes_injective(t1.bits@, t2.bits@);
    }
}

} // verus!
