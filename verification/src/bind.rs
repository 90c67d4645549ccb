//! Bind groups: named, ordered collections of GPU resource bindings that
//! match one shader-expected layout slot ("set"), and the builder that
//! accumulates numbered bindings before finishing a group.

use vstd::prelude::*;

verus! {

/// One bindable GPU resource: a buffer byte range, a texture, or a sampler.
#[derive(Clone, Copy, Debug, PartialEq, Eq, Structural)]
pub enum BindingResource {
    Buffer { buffer: u64, start: u64, end: u64 },
    Texture { texture: u64 },
    Sampler { sampler: u64 },
}

/// A resource bound at one numbered binding of a bind group.
#[derive(Clone, Copy, Debug, PartialEq, Eq, Structural)]
pub struct IndexedBinding {
    pub index: u32,
    pub resource: BindingResource,
}

/// A finished, ordered collection of numbered bindings.
#[derive(Debug)]
pub struct BindGroup {
    pub bindings: Vec<IndexedBinding>,
}

/// Accumulates numbered bindings until `finish` seals them into a group.
pub struct BindGroupBuilder {
    pub bindings: Vec<IndexedBinding>,
}

impl BindGroup {
    /// Start building a bind group with no bindings yet.
    pub fn build() -> (r: BindGroupBuilder)
        ensures
            r.bindings@ == Seq::<IndexedBinding>::empty(),
    {
        BindGroupBuilder { bindings: Vec::new() }
    }

    /// A copy of this group with the same bindings.
    pub fn duplicate(&self) -> (r: BindGroup)
        ensures
            r.bindings@ == self.bindings@,
    {
        let mut bindings: Vec<IndexedBinding> = Vec::new();
        let mut i: usize = 0;
        while i < self.bindings.len()
            invariant
                i <= self.bindings.len(),
                bindings@ == self.bindings@.subrange(0, i as int),
            decreases self.bindings.len() - i,
        {
            bindings.push(self.bindings[i]);
            proof {
                assert(bindings@ =~= self.bindings@.subrange(0, i as int + 1));
            }
            i = i + 1;
        }
        proof {
            assert(self.bindings@.subrange(0, self.bindings@.len() as int) =~= self.bindings@);
        }
        BindGroup { bindings }
    }
}

impl BindGroupBuilder {
    /// Record `resource` at binding number `index`.
    pub fn add_binding(self, index: u32, resource: BindingResource) -> (r: BindGroupBuilder)
        ensures
            r.bindings@ == self.bindings@.push(IndexedBinding { index, resource }),
    {
        let mut b = self;
        b.bindings.push(IndexedBinding { index, resource });
        b
    }

    /// Record the byte range `start..end` of `buffer` at binding `index`.
    pub fn add_buffer(self, index: u32, buffer: u64, start: u64, end: u64) -> (r: BindGroupBuilder)
        ensures
            r.bindings@ == self.bindings@.push(
                IndexedBinding { index, resource: (BindingResource::Buffer { buffer, start, end }) },
            ),
    {
        self.add_binding(index, BindingResource::Buffer { buffer, start, end })
    }

    /// Record `texture` at binding `index`.
    pub fn add_texture(self, index: u32, texture: u64) -> (r: BindGroupBuilder)
        ensures
            r.bindings@ == self.bindings@.push(
                IndexedBinding { index, resource: (BindingResource::Texture { texture }) },
            ),
    {
        self.add_binding(index, BindingResource::Texture { texture })
    }

    /// Record `sampler` at binding `index`.
    pub fn add_sampler(self, index: u32, sampler: u64) -> (r: BindGroupBuilder)
        ensures
            r.bindings@ == self.bindings@.push(
                IndexedBinding { index, resource: (BindingResource::Sampler { sampler }) },
            ),
    {
        self.add_binding(index, BindingResource::Sampler { sampler })
    }

    /// Seal the accumulated bindings into a bind group.
    pub fn finish(self) -> (r: BindGroup)
        ensures
            r.bindings@ == self.bindings@,
    {
        BindGroup { bindings: self.bindings }
    }
}

/// One globally bound set slot: a set number and, once the host has resolved
/// its bindings, the finished bind group for it.
#[derive(Debug)]
pub struct GlobalBindingSlot {
    pub index: u32,
    pub bind_group: Option<BindGroup>,
}

/// The globally bound render-resource bindings a host supplies (for example
/// scene-wide data); applied to the draw commands when the quad geometry is
/// bound.
#[derive(Debug)]
pub struct GlobalBindings {
    pub slots: Vec<GlobalBindingSlot>,
}

impl GlobalBindings {
    /// Every global slot carries a finished bind group.
    pub open spec fn resolved(self) -> bool {
        forall|i: int| 0 <= i < self.slots@.len() ==> (#[trigger] self.slots@[i]).bind_group is Some
    }

    /// No global bindings at all.
    pub fn new() -> (r: GlobalBindings)
        ensures
            r.slots@ == Seq::<GlobalBindingSlot>::empty(),
            r.resolved(),
    {
        GlobalBindings { slots: Vec::new() }
    }

    /// Append one global slot.
    pub fn push_slot(&mut self, index: u32, bind_group: Option<BindGroup>)
        ensures
            final(self).slots@.len() == old(self).slots@.len() + 1,
            final(self).slots@[old(self).slots@.len() as int].index == index,
            final(self).slots@[old(self).slots@.len() as int].bind_group == bind_group,
            forall|i: int|
                0 <= i < old(self).slots@.len() ==> final(self).slots@[i] == old(self).slots@[i],
    {
        self.slots.push(GlobalBindingSlot { index, bind_group });
    }

    /// Whether every global slot is resolved.
    pub fn is_resolved(&self) -> (b: bool)
        ensures
            b == self.resolved(),
    {
        let mut i: usize = 0;
        while i < self.slots.len()
            invariant
                i <= self.slots.len(),
                forall|j: int| 0 <= j < i ==> (#[trigger] self.slots@[j]).bind_group is Some,
            decreases self.slots.len() - i,
        {
            if self.slots[i].bind_group.is_none() {
                return false;
            }
            i = i + 1;
        }
        true
    }
}

} // verus!
