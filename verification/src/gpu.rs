//! The model GPU resource context: allocated buffers with their byte
//! contents, texture and sampler allocations, registered bind groups, and the
//! asset-resource cache mapping (asset handle, slot tag) to resource ids.
//!
//! A host backend replays allocations recorded here one to one; the model
//! keeps everything a contract needs to speak about.

use crate::DrawError;
use crate::bind::BindGroup;
use vstd::prelude::*;

verus! {

/// The fixed slot tags under which GPU resources are cached per asset.
#[derive(Clone, Copy, Debug, PartialEq, Eq, Structural)]
pub enum SlotTag {
    VertexAttributeBuffer,
    IndexBuffer,
    Texture,
    Sampler,
}

/// An identifier of one allocated GPU resource.
#[derive(Clone, Copy, Debug, PartialEq, Eq, Structural)]
pub enum RenderResourceId {
    Buffer(u64),
    Texture(u64),
    Sampler(u64),
}

pub const BUFFER_USAGE_COPY_DST: u32 = 0x8;

pub const BUFFER_USAGE_INDEX: u32 = 0x10;

pub const BUFFER_USAGE_VERTEX: u32 = 0x20;

pub const BUFFER_USAGE_UNIFORM: u32 = 0x40;

pub const BUFFER_USAGE_STORAGE: u32 = 0x80;

/// One allocated buffer: its usage flags and its byte contents; its size is
/// the length of its contents.
#[derive(Debug)]
pub struct BufferRecord {
    pub usage: u32,
    pub contents: Vec<u8>,
}

/// One asset-resource cache entry, keyed by (asset handle, slot tag).
#[derive(Clone, Copy, Debug, PartialEq, Eq, Structural)]
pub struct CacheEntry {
    pub asset: u64,
    pub slot: SlotTag,
    pub resource: RenderResourceId,
}

/// The cached resource for (asset, slot): the most recently recorded entry.
pub open spec fn cache_get(entries: Seq<CacheEntry>, asset: u64, slot: SlotTag) -> Option<
    RenderResourceId,
>
    decreases entries.len(),
{
    if entries.len() == 0 {
        None
    } else if entries.last().asset == asset && entries.last().slot == slot {
        Some(entries.last().resource)
    } else {
        cache_get(entries.drop_last(), asset, slot)
    }
}

/// A cached resource is always the resource of some recorded entry for the
/// same key.
pub proof fn lemma_cache_get_is_some_entry(entries: Seq<CacheEntry>, asset: u64, slot: SlotTag)
    requires
        cache_get(entries, asset, slot) is Some,
    ensures
        exists|i: int|
            0 <= i < entries.len() && (#[trigger] entries[i]).asset == asset && entries[i].slot
                == slot && entries[i].resource == cache_get(entries, asset, slot)->Some_0,
    decreases entries.len(),
{
    if entries.last().asset == asset && entries.last().slot == slot {
        assert(entries[entries.len() - 1].asset == asset);
    } else {
        lemma_cache_get_is_some_entry(entries.drop_last(), asset, slot);
        let i = choose|i: int|
            0 <= i < entries.drop_last().len() && (#[trigger] entries.drop_last()[i]).asset == asset
                && entries.drop_last()[i].slot == slot && entries.drop_last()[i].resource
                == cache_get(entries.drop_last(), asset, slot)->Some_0;
        assert(entries[i].asset == asset);
    }
}

/// The model GPU context. Buffer ids are indices into `buffers`; texture,
/// sampler and bind-group ids are running counters.
pub struct GpuContext {
    pub buffers: Vec<BufferRecord>,
    pub textures: u64,
    pub samplers: u64,
    pub bind_groups: u64,
    pub cache: Vec<CacheEntry>,
}

impl GpuContext {
    /// Whether a resource id refers to something this context allocated.
    pub open spec fn resource_valid(self, r: RenderResourceId) -> bool {
        match r {
            RenderResourceId::Buffer(b) => b < self.buffers@.len(),
            RenderResourceId::Texture(t) => t < self.textures,
            RenderResourceId::Sampler(s) => s < self.samplers,
        }
    }

    /// Every cached resource id refers to an allocated resource.
    pub open spec fn wf(self) -> bool {
        forall|i: int|
            0 <= i < self.cache@.len() ==> self.resource_valid(
                (#[trigger] self.cache@[i]).resource,
            )
    }

    /// A fresh context with nothing allocated and an empty cache.
    pub fn new() -> (r: GpuContext)
        ensures
            r.wf(),
            r.buffers@.len() == 0,
            r.textures == 0,
            r.samplers == 0,
            r.bind_groups == 0,
            r.cache@ == Seq::<CacheEntry>::empty(),
    {
        GpuContext {
            buffers: Vec::new(),
            textures: 0,
            samplers: 0,
            bind_groups: 0,
            cache: Vec::new(),
        }
    }

    /// Allocate a buffer holding `data`, tagged with `usage`; returns its id.
    pub fn create_buffer_with_data(&mut self, usage: u32, data: Vec<u8>) -> (id: u64)
        ensures
            id as int == old(self).buffers@.len(),
            final(self).buffers@.len() == old(self).buffers@.len() + 1,
            final(self).buffers@[id as int].usage == usage,
            final(self).buffers@[id as int].contents@ == data@,
            forall|j: int|
                0 <= j < old(self).buffers@.len() ==> final(self).buffers@[j] == old(
                    self,
                ).buffers@[j],
            final(self).cache@ == old(self).cache@,
            final(self).textures == old(self).textures,
            final(self).samplers == old(self).samplers,
            final(self).bind_groups == old(self).bind_groups,
            old(self).wf() ==> final(self).wf(),
    {
        let id = self.buffers.len() as u64;
        self.buffers.push(BufferRecord { usage, contents: data });
        proof {
            assert forall|i: int|
                0 <= i < self.cache@.len() && old(self).wf() implies self.resource_valid(
                (#[trigger] self.cache@[i]).resource,
            ) by {
                assert(old(self).resource_valid(old(self).cache@[i].resource));
            }
        }
        id
    }

    /// The byte size of an allocated buffer, if the id is one this context
    /// handed out.
    pub fn get_buffer_size(&self, id: u64) -> (r: Option<usize>)
        ensures
            match r {
                Some(sz) => id < self.buffers@.len() && sz == self.buffers@[id as int].contents@.len(),
                None => id >= self.buffers@.len(),
            },
    {
        if id < self.buffers.len() as u64 {
            Some(self.buffers[id as usize].contents.len())
        } else {
            None
        }
    }

    /// Record `resource` for (asset, slot), overriding any earlier entry.
    pub fn set_asset_resource(&mut self, asset: u64, slot: SlotTag, resource: RenderResourceId)
        requires
            old(self).resource_valid(resource),
        ensures
            final(self).cache@ == old(self).cache@.push(CacheEntry { asset, slot, resource }),
            cache_get(final(self).cache@, asset, slot) == Some(resource),
            forall|a: u64, s: SlotTag|
                !(a == asset && s == slot) ==> #[trigger] cache_get(final(self).cache@, a, s)
                    == cache_get(old(self).cache@, a, s),
            final(self).buffers@ == old(self).buffers@,
            final(self).textures == old(self).textures,
            final(self).samplers == old(self).samplers,
            final(self).bind_groups == old(self).bind_groups,
            old(self).wf() ==> final(self).wf(),
    {
        self.cache.push(CacheEntry { asset, slot, resource });
        proof {
            assert(self.cache@.drop_last() =~= old(self).cache@);
            assert forall|i: int|
                0 <= i < self.cache@.len() && old(self).wf() implies self.resource_valid(
                (#[trigger] self.cache@[i]).resource,
            ) by {
                if i < old(self).cache@.len() {
                    assert(old(self).resource_valid(old(self).cache@[i].resource));
                }
            }
        }
    }

    /// Look up the cached resource for (asset, slot).
    pub fn get_asset_resource(&self, asset: u64, slot: SlotTag) -> (r: Option<RenderResourceId>)
        ensures
            r == cache_get(self.cache@, asset, slot),
    {
        let mut found: Option<RenderResourceId> = None;
        let mut i: usize = 0;
        while i < self.cache.len()
            invariant
                i <= self.cache.len(),
                found == cache_get(self.cache@.subrange(0, i as int), asset, slot),
            decreases self.cache.len() - i,
        {
            let entry = self.cache[i];
            proof {
                assert(self.cache@.subrange(0, i as int + 1).drop_last() =~= self.cache@.subrange(
                    0,
                    i as int,
                ));
                assert(self.cache@.subrange(0, i as int + 1).last() == self.cache@[i as int]);
            }
            if entry.asset == asset && entry.slot == slot {
                found = Some(entry.resource);
            }
            i = i + 1;
        }
        proof {
            assert(self.cache@.subrange(0, self.cache@.len() as int) =~= self.cache@);
        }
        found
    }

    /// Allocate a texture object; returns its id.
    pub fn create_texture(&mut self) -> (id: u64)
        requires
            old(self).textures < u64::MAX,
        ensures
            id == old(self).textures,
            final(self).textures == old(self).textures + 1,
            final(self).buffers@ == old(self).buffers@,
            final(self).cache@ == old(self).cache@,
            final(self).samplers == old(self).samplers,
            final(self).bind_groups == old(self).bind_groups,
            old(self).wf() ==> final(self).wf(),
    {
        let id = self.textures;
        self.textures = self.textures + 1;
        proof {
            assert forall|i: int|
                0 <= i < self.cache@.len() && old(self).wf() implies self.resource_valid(
                (#[trigger] self.cache@[i]).resource,
            ) by {
                assert(old(self).resource_valid(old(self).cache@[i].resource));
            }
        }
        id
    }

    /// Allocate a sampler object; returns its id.
    pub fn create_sampler(&mut self) -> (id: u64)
        requires
            old(self).samplers < u64::MAX,
        ensures
            id == old(self).samplers,
            final(self).samplers == old(self).samplers + 1,
            final(self).buffers@ == old(self).buffers@,
            final(self).cache@ == old(self).cache@,
            final(self).textures == old(self).textures,
            final(self).bind_groups == old(self).bind_groups,
            old(self).wf() ==> final(self).wf(),
    {
        let id = self.samplers;
        self.samplers = self.samplers + 1;
        proof {
            assert forall|i: int|
                0 <= i < self.cache@.len() && old(self).wf() implies self.resource_valid(
                (#[trigger] self.cache@[i]).resource,
            ) by {
                assert(old(self).resource_valid(old(self).cache@[i].resource));
            }
        }
        id
    }

    /// Create the GPU bind-group resource for a finished group descriptor.
    /// The model backend cannot fail; registration is side-effect-free on the
    /// rest of the context.
    pub fn create_bind_group_resource(&mut self, index: u32, bind_group: &BindGroup) -> (r: Result<
        (),
        DrawError,
    >)
        requires
            old(self).bind_groups < u64::MAX,
        ensures
            r is Ok,
            final(self).bind_groups == old(self).bind_groups + 1,
            final(self).buffers@ == old(self).buffers@,
            final(self).cache@ == old(self).cache@,
            final(self).textures == old(self).textures,
            final(self).samplers == old(self).samplers,
            old(self).wf() ==> final(self).wf(),
    {
        self.bind_groups = self.bind_groups + 1;
        proof {
            assert forall|i: int|
                0 <= i < self.cache@.len() && old(self).wf() implies self.resource_valid(
                (#[trigger] self.cache@[i]).resource,
            ) by {
                assert(old(self).resource_valid(old(self).cache@[i].resource));
            }
        }
        Ok(())
    }
}

/// Whether the texture asset `texture` has both its texture and its sampler
/// recorded in the asset-resource cache (the texture-init pass has run).
pub open spec fn texture_initialized(ctx: GpuContext, texture: u64) -> bool {
    &&& cache_get(ctx.cache@, texture, SlotTag::Texture) matches Some(RenderResourceId::Texture(_))
    &&& cache_get(ctx.cache@, texture, SlotTag::Sampler) matches Some(RenderResourceId::Sampler(_))
}

/// The cached texture id of a texture asset (meaningful once initialized).
pub open spec fn cached_texture_id(ctx: GpuContext, texture: u64) -> u64 {
    cache_get(ctx.cache@, texture, SlotTag::Texture)->Some_0->Texture_0
}

/// The cached sampler id of a texture asset (meaningful once initialized).
pub open spec fn cached_sampler_id(ctx: GpuContext, texture: u64) -> u64 {
    cache_get(ctx.cache@, texture, SlotTag::Sampler)->Some_0->Sampler_0
}

/// Allocate texture and sampler objects for the texture asset
/// `texture_handle` and record them under the texture and sampler slots, as
/// the startup texture-init pass does for each texture present.
pub fn init_texture(ctx: &mut GpuContext, texture_handle: u64)
    requires
        old(ctx).wf(),
        old(ctx).textures < u64::MAX,
        old(ctx).samplers < u64::MAX,
    ensures
        final(ctx).wf(),
        texture_initialized(*final(ctx), texture_handle),
        cached_texture_id(*final(ctx), texture_handle) == old(ctx).textures,
        cached_sampler_id(*final(ctx), texture_handle) == old(ctx).samplers,
        final(ctx).buffers@ == old(ctx).buffers@,
        final(ctx).textures == old(ctx).textures + 1,
        final(ctx).samplers == old(ctx).samplers + 1,
        final(ctx).bind_groups == old(ctx).bind_groups,
        forall|a: u64, s: SlotTag|
            !(a == texture_handle && (s == SlotTag::Texture || s == SlotTag::Sampler))
                ==> #[trigger] cache_get(final(ctx).cache@, a, s) == cache_get(old(ctx).cache@, a, s),
{
    let texture_resource = ctx.create_texture();
    ctx.set_asset_resource(
        texture_handle,
        SlotTag::Texture,
        RenderResourceId::Texture(texture_resource),
    );
    let sampler_resource = ctx.create_sampler();
    ctx.set_asset_resource(
        texture_handle,
        SlotTag::Sampler,
        RenderResourceId::Sampler(sampler_resource),
    );
}

} // verus!
