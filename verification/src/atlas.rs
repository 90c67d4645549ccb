//! Texture atlases as the draw path reads them: an overall pixel size, an
//! ordered sequence of sub-rectangles (one per sprite frame) and a backing
//! texture handle, plus the packed byte layouts of the atlas-metadata
//! buffers. Pixel coordinates are 32-bit floats carried as bit patterns.

use crate::bytes::{lemma_u32s_le_bytes_len, u32s_le_bytes, u32s_to_le_bytes};
use vstd::prelude::*;

verus! {

/// Two 32-bit floats, as bit patterns: a point or an extent in pixels.
#[derive(Clone, Copy, Debug, PartialEq, Eq, Structural)]
pub struct Vec2Bits {
    pub x: u32,
    pub y: u32,
}

/// One sub-rectangle of an atlas: min and max corner, in pixels.
#[derive(Clone, Copy, Debug, PartialEq, Eq, Structural)]
pub struct RectRecord {
    pub min: Vec2Bits,
    pub max: Vec2Bits,
}

/// A texture atlas: overall pixel size, one sub-rectangle per sprite frame,
/// and the handle of the backing texture asset. Read-only for the draw path.
#[derive(Debug)]
pub struct TextureAtlas {
    pub size: Vec2Bits,
    pub textures: Vec<RectRecord>,
    pub texture: u64,
}

/// The four 32-bit words of one packed rectangle record.
pub open spec fn rect_words(r: RectRecord) -> Seq<u32> {
    seq![r.min.x, r.min.y, r.max.x, r.max.y]
}

/// The packed words of a whole sub-rectangle table, in frame order.
pub open spec fn rect_table_words(ts: Seq<RectRecord>) -> Seq<u32>
    decreases ts.len(),
{
    if ts.len() == 0 {
        Seq::empty()
    } else {
        rect_table_words(ts.drop_last()) + rect_words(ts.last())
    }
}

/// The bytes of the atlas pixel-size buffer: two 32-bit floats.
pub open spec fn atlas_size_bytes_spec(s: Vec2Bits) -> Seq<u8> {
    u32s_le_bytes(seq![s.x, s.y])
}

/// The bytes of the sub-rectangle table buffer: the packed records,
/// contiguously, in frame order.
pub open spec fn rect_table_bytes_spec(ts: Seq<RectRecord>) -> Seq<u8> {
    u32s_le_bytes(rect_table_words(ts))
}

pub proof fn lemma_rect_table_words_len(ts: Seq<RectRecord>)
    ensures
        rect_table_words(ts).len() == 4 * ts.len(),
    decreases ts.len(),
{
    if ts.len() > 0 {
        lemma_rect_table_words_len(ts.drop_last());
    }
}

/// The atlas pixel-size buffer is always exactly 8 bytes, whatever the atlas
/// holds.
pub proof fn lemma_atlas_size_buffer_len(s: Vec2Bits)
    ensures
        atlas_size_bytes_spec(s).len() == 8,
{
    lemma_u32s_le_bytes_len(seq![s.x, s.y]);
}

/// The sub-rectangle table buffer's size is exactly 16 bytes per frame, for
/// any frame count (an atlas of no frames packs to an empty buffer).
pub proof fn lemma_rect_table_buffer_len(ts: Seq<RectRecord>)
    ensures
        rect_table_bytes_spec(ts).len() == 16 * ts.len(),
{
    lemma_rect_table_words_len(ts);
    lemma_u32s_le_bytes_len(rect_table_words(ts));
}

/// Pack the atlas pixel-size buffer.
pub fn atlas_size_bytes(size: &Vec2Bits) -> (r: Vec<u8>)
    ensures
        r@ == atlas_size_bytes_spec(*size),
        r@.len() == 8,
{
    let mut words: Vec<u32> = Vec::new();
    words.push(size.x);
    words.push(size.y);
    proof {
        assert(words@ =~= seq![size.x, size.y]);
        lemma_atlas_size_buffer_len(*size);
    }
    u32s_to_le_bytes(&words)
}

/// Pack the sub-rectangle table buffer.
pub fn rect_table_bytes(ts: &Vec<RectRecord>) -> (r: Vec<u8>)
    ensures
        r@ == rect_table_bytes_spec(ts@),
        r@.len() == 16 * ts@.len(),
{
    let mut words: Vec<u32> = Vec::new();
    let mut i: usize = 0;
    while i < ts.len()
        invariant
            i <= ts.len(),
            words@ == rect_table_words(ts@.subrange(0, i as int)),
        decreases ts.len() - i,
    {
        let r = ts[i];
        words.push(r.min.x);
        words.push(r.min.y);
        words.push(r.max.x);
        words.push(r.max.y);
        proof {
            let prefix = ts@.subrange(0, i as int + 1);
            assert(prefix.drop_last() =~= ts@.subrange(0, i as int));
            assert(prefix.last() == ts@[i as int]);
            assert(words@ =~= rect_table_words(ts@.subrange(0, i as int)) + rect_words(
                ts@[i as int],
            ));
        }
        i = i + 1;
    }
    proof {
        assert(ts@.subrange(0, ts@.len() as int) =~= ts@);
        lemma_rect_table_buffer_len(ts@);
    }
    u32s_to_le_bytes(&words)
}

/// The asset storage of atlases, keyed by handle; the draw path reads it.
pub struct Atlases {
    pub entries: Vec<(u64, TextureAtlas)>,
}

/// The atlas stored under `handle`: the most recently inserted one.
pub open spec fn atlases_get(entries: Seq<(u64, TextureAtlas)>, handle: u64) -> Option<TextureAtlas>
    decreases entries.len(),
{
    if entries.len() == 0 {
        None
    } else if entries.last().0 == handle {
        Some(entries.last().1)
    } else {
        atlases_get(entries.drop_last(), handle)
    }
}

impl Atlases {
    /// Empty atlas storage.
    pub fn new() -> (r: Atlases)
        ensures
            r.entries@ == Seq::<(u64, TextureAtlas)>::empty(),
    {
        Atlases { entries: Vec::new() }
    }

    /// Store `atlas` under `handle`, overriding any earlier atlas there.
    pub fn insert(&mut self, handle: u64, atlas: TextureAtlas)
        ensures
            atlases_get(final(self).entries@, handle) == Some(atlas),
            forall|h: u64|
                h != handle ==> #[trigger] atlases_get(final(self).entries@, h) == atlases_get(
                    old(self).entries@,
                    h,
                ),
    {
        self.entries.push((handle, atlas));
        proof {
            assert(self.entries@.drop_last() =~= old(self).entries@);
        }
    }

    /// Look up the atlas stored under `handle`.
    pub fn get(&self, handle: u64) -> (r: Option<&TextureAtlas>)
        ensures
            match r {
                Some(a) => atlases_get(self.entries@, handle) == Some(*a),
                None => atlases_get(self.entries@, handle) is None,
            },
    {
        let mut found: Option<usize> = None;
        let mut i: usize = 0;
        while i < self.entries.len()
            invariant
                i <= self.entries.len(),
                match found {
                    Some(j) => j < i && atlases_get(self.entries@.subrange(0, i as int), handle)
                        == Some(self.entries@[j as int].1),
                    None => atlases_get(self.entries@.subrange(0, i as int), handle) is None,
                },
            decreases self.entries.len() - i,
        {
            proof {
                assert(self.entries@.subrange(0, i as int + 1).drop_last() =~= self
                    .entries@
                    .subrange(0, i as int));
                assert(self.entries@.subrange(0, i as int + 1).last() == self.entries@[i as int]);
            }
            if self.entries[i].0 == handle {
                found = Some(i);
            }
            i = i + 1;
        }
        proof {
            assert(self.entries@.subrange(0, self.entries@.len() as int) =~= self.entries@);
        }
        match found {
            Some(j) => Some(&self.entries[j].1),
            None => None,
        }
    }
}

} // verus!
