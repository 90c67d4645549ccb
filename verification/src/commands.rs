//! The draw command recorder: the per-call structure that records pipeline
//! selection, bound buffers, bind groups, and the final indexed draw
//! invocation, in order, before submission to a GPU backend.

use crate::bind::BindGroup;
use vstd::prelude::*;

verus! {

/// A half-open range of 32-bit indices, `start..end`.
#[derive(Clone, Copy, Debug, PartialEq, Eq, Structural)]
pub struct IndexRange {
    pub start: u32,
    pub end: u32,
}

/// What a vertex attribute feeds in the shader.
#[derive(Clone, Copy, Debug, PartialEq, Eq, Structural)]
pub enum VertexSemantic {
    Position,
    Normal,
    Uv,
}

/// The element format of a vertex attribute.
#[derive(Clone, Copy, Debug, PartialEq, Eq, Structural)]
pub enum VertexFormat {
    Float3,
}

/// One attribute of an interleaved vertex buffer.
#[derive(Clone, Copy, Debug, PartialEq, Eq, Structural)]
pub struct VertexAttributeLayout {
    pub semantic: VertexSemantic,
    pub offset: u64,
    pub shader_location: u32,
    pub format: VertexFormat,
}

/// The layout of one interleaved vertex buffer: its stride and attributes.
#[derive(Debug)]
pub struct VertexBufferLayout {
    pub stride: u64,
    pub attributes: Vec<VertexAttributeLayout>,
}

/// One recorded rendering command.
#[derive(Debug)]
pub enum RenderCommand {
    SetPipeline { pipeline: u64, vertex_layout: VertexBufferLayout },
    SetVertexBuffer { slot: u32, buffer: u64, offset: u64 },
    SetIndexBuffer { buffer: u64, offset: u64 },
    SetBindGroup { index: u32, bind_group: BindGroup },
    DrawIndexed { indices: IndexRange, base_vertex: i32, instances: IndexRange },
}

/// Whether a command is the indexed draw invocation itself.
pub open spec fn is_draw_indexed(c: RenderCommand) -> bool {
    c matches RenderCommand::DrawIndexed { .. }
}

/// How many indexed draw invocations a command sequence holds.
pub open spec fn count_draw_indexed(s: Seq<RenderCommand>) -> int
    decreases s.len(),
{
    if s.len() == 0 {
        0
    } else {
        count_draw_indexed(s.drop_last()) + if is_draw_indexed(s.last()) {
            1int
        } else {
            0int
        }
    }
}

pub proof fn lemma_count_draw_indexed_zero(s: Seq<RenderCommand>)
    requires
        forall|j: int| 0 <= j < s.len() ==> !is_draw_indexed(#[trigger] s[j]),
    ensures
        count_draw_indexed(s) == 0,
    decreases s.len(),
{
    if s.len() > 0 {
        lemma_count_draw_indexed_zero(s.drop_last());
    }
}

pub proof fn lemma_count_draw_indexed_last_only(s: Seq<RenderCommand>)
    requires
        s.len() > 0,
        is_draw_indexed(s.last()),
        forall|j: int| 0 <= j < s.len() - 1 ==> !is_draw_indexed(#[trigger] s[j]),
    ensures
        count_draw_indexed(s) == 1,
{
    lemma_count_draw_indexed_zero(s.drop_last());
}

/// Everything already recorded stays in place when commands are appended.
pub open spec fn commands_prefix_preserved(old_s: Seq<RenderCommand>, new_s: Seq<RenderCommand>) -> bool {
    &&& old_s.len() <= new_s.len()
    &&& forall|j: int| 0 <= j < old_s.len() ==> new_s[j] == old_s[j]
}

/// Whether `c` binds the group with the given `entries` at set number `set`.
pub open spec fn is_set_bind_group(c: RenderCommand, set: u32, entries: Seq<crate::bind::IndexedBinding>) -> bool {
    c matches RenderCommand::SetBindGroup { index, bind_group } && index == set
        && bind_group.bindings@ == entries
}

/// The accumulating draw-commands structure.
#[derive(Debug)]
pub struct Draw {
    pub render_commands: Vec<RenderCommand>,
}

impl Draw {
    /// A draw with no commands recorded.
    pub fn new() -> (r: Draw)
        ensures
            r.render_commands@ == Seq::<RenderCommand>::empty(),
    {
        Draw { render_commands: Vec::new() }
    }

    /// Record selection of a specialized pipeline.
    pub fn set_pipeline(&mut self, pipeline: u64, vertex_layout: VertexBufferLayout)
        ensures
            final(self).render_commands@ == old(self).render_commands@.push(
                RenderCommand::SetPipeline { pipeline, vertex_layout },
            ),
    {
        self.render_commands.push(RenderCommand::SetPipeline { pipeline, vertex_layout });
    }

    /// Record binding `buffer` as the vertex buffer at `slot`, from `offset`.
    pub fn set_vertex_buffer(&mut self, slot: u32, buffer: u64, offset: u64)
        ensures
            final(self).render_commands@ == old(self).render_commands@.push(
                RenderCommand::SetVertexBuffer { slot, buffer, offset },
            ),
    {
        self.render_commands.push(RenderCommand::SetVertexBuffer { slot, buffer, offset });
    }

    /// Record binding `buffer` as the index buffer, from `offset`.
    pub fn set_index_buffer(&mut self, buffer: u64, offset: u64)
        ensures
            final(self).render_commands@ == old(self).render_commands@.push(
                RenderCommand::SetIndexBuffer { buffer, offset },
            ),
    {
        self.render_commands.push(RenderCommand::SetIndexBuffer { buffer, offset });
    }

    /// Record attaching `bind_group` at set number `index`.
    pub fn set_bind_group(&mut self, index: u32, bind_group: BindGroup)
        ensures
            final(self).render_commands@ == old(self).render_commands@.push(
                RenderCommand::SetBindGroup { index, bind_group },
            ),
    {
        self.render_commands.push(RenderCommand::SetBindGroup { index, bind_group });
    }

    /// Record the indexed draw invocation itself.
    pub fn draw_indexed(&mut self, indices: IndexRange, base_vertex: i32, instances: IndexRange)
        ensures
            final(self).render_commands@ == old(self).render_commands@.push(
                RenderCommand::DrawIndexed { indices, base_vertex, instances },
            ),
    {
        self.render_commands.push(RenderCommand::DrawIndexed { indices, base_vertex, instances });
    }
}

} // verus!
