//! Little-endian byte packing for 32-bit words.
//!
//! Every GPU-visible buffer this crate builds (atlas pixel size, the
//! sub-rectangle table, matrices, the per-instance sprite record) is a
//! sequence of 32-bit words written little-endian; this module gives the
//! packing one spec-level definition and one verified encoder.

use vstd::prelude::*;

verus! {

/// The four little-endian bytes of one 32-bit word.
pub open spec fn u32_le_bytes(x: u32) -> Seq<u8> {
    seq![
        (x & 0xff) as u8,
        ((x >> 8) & 0xff) as u8,
        ((x >> 16) & 0xff) as u8,
        ((x >> 24) & 0xff) as u8,
    ]
}

/// The little-endian bytes of a sequence of 32-bit words, in order.
pub open spec fn u32s_le_bytes(s: Seq<u32>) -> Seq<u8>
    decreases s.len(),
{
    if s.len() == 0 {
        Seq::empty()
    } else {
        u32_le_bytes(s[0]) + u32s_le_bytes(s.drop_first())
    }
}

pub proof fn lemma_u32s_le_bytes_len(s: Seq<u32>)
    ensures
        u32s_le_bytes(s).len() == 4 * s.len(),
    decreases s.len(),
{
    if s.len() > 0 {
        lemma_u32s_le_bytes_len(s.drop_first());
    }
}

/// Packing one more word appends its four bytes.
pub proof fn lemma_u32s_le_bytes_push(s: Seq<u32>, x: u32)
    ensures
        u32s_le_bytes(s.push(x)) == u32s_le_bytes(s) + u32_le_bytes(x),
    decreases s.len(),
{
    if s.len() == 0 {
        assert(s.push(x).drop_first() =~= s);
        assert(u32s_le_bytes(s.push(x)) =~= u32s_le_bytes(s) + u32_le_bytes(x));
    } else {
        assert(s.push(x).drop_first() =~= s.drop_first().push(x));
        lemma_u32s_le_bytes_push(s.drop_first(), x);
        assert(u32s_le_bytes(s.push(x)) =~= u32s_le_bytes(s) + u32_le_bytes(x));
    }
}

/// Word packing is injective: equal bytes mean an equal word.
pub proof fn lemma_u32_le_bytes_injective(a: u32, b: u32)
    requires
        u32_le_bytes(a) == u32_le_bytes(b),
    ensures
        a == b,
{
    assert(u32_le_bytes(a)[0] == u32_le_bytes(b)[0]);
    assert(u32_le_bytes(a)[1] == u32_le_bytes(b)[1]);
    assert(u32_le_bytes(a)[2] == u32_le_bytes(b)[2]);
    assert(u32_le_bytes(a)[3] == u32_le_bytes(b)[3]);
    assert(a == b) by (bit_vector)
        requires
            (a & 0xff) as u8 == (b & 0xff) as u8,
            ((a >> 8) & 0xff) as u8 == ((b >> 8) & 0xff) as u8,
            ((a >> 16) & 0xff) as u8 == ((b >> 16) & 0xff) as u8,
            ((a >> 24) & 0xff) as u8 == ((b >> 24) & 0xff) as u8,
    ;
}

/// Packing whole word sequences of one length is injective too.
pub proof fn lemma_u32s_le_bytes_injective(s1: Seq<u32>, s2: Seq<u32>)
    requires
        s1.len() == s2.len(),
        u32s_le_bytes(s1) == u32s_le_bytes(s2),
    ensures
        s1 == s2,
    decreases s1.len(),
{
    if s1.len() == 0 {
        assert(s1 =~= s2);
    } else {
        let b1 = u32s_le_bytes(s1);
        let b2 = u32s_le_bytes(s2);
        let r1 = u32s_le_bytes(s1.drop_first());
        let r2 = u32s_le_bytes(s2.drop_first());
        lemma_u32s_le_bytes_len(s1.drop_first());
        lemma_u32s_le_bytes_len(s2.drop_first());
        assert(u32_le_bytes(s1[0]) =~= u32_le_bytes(s2[0])) by {
            assert forall|i: int| 0 <= i < 4 implies u32_le_bytes(s1[0])[i] == u32_le_bytes(
                s2[0],
            )[i] by {
                assert(b1[i] == u32_le_bytes(s1[0])[i]);
                assert(b2[i] == u32_le_bytes(s2[0])[i]);
            }
        }
        lemma_u32_le_bytes_injective(s1[0], s2[0]);
        assert(r1 =~= r2) by {
            assert forall|i: int| 0 <= i < r1.len() implies r1[i] == r2[i] by {
                assert(b1[4 + i] == r1[i]);
                assert(b2[4 + i] == r2[i]);
            }
        }
        lemma_u32s_le_bytes_injective(s1.drop_first(), s2.drop_first());
        assert(s1 =~= s2) by {
            assert forall|i: int| 0 <= i < s1.len() implies s1[i] == s2[i] by {
                if i > 0 {
                    assert(s1.drop_first()[i - 1] == s2.drop_first()[i - 1]);
                }
            }
        }
    }
}

/// Append the four little-endian bytes of `x` to `out`.
pub fn push_u32_le(out: &mut Vec<u8>, x: u32)
    ensures
        final(out)@ == old(out)@ + u32_le_bytes(x),
{
    out.push((x & 0xff) as u8);
    out.push(((x >> 8) & 0xff) as u8);
    out.push(((x >> 16) & 0xff) as u8);
    out.push(((x >> 24) & 0xff) as u8);
    assert(out@ =~= old(out)@ + u32_le_bytes(x));
}

/// Encode a sequence of 32-bit words as little-endian bytes.
pub fn u32s_to_le_bytes(words: &Vec<u32>) -> (r: Vec<u8>)
    ensures
        r@ == u32s_le_bytes(words@),
{
    let mut out: Vec<u8> = Vec::new();
    let mut i: usize = 0;
    while i < words.len()
        invariant
            i <= words.len(),
            out@ == u32s_le_bytes(words@.subrange(0, i as int)),
        decreases words.len() - i,
    {
        proof {
            assert(words@.subrange(0, i as int).push(words@[i as int]) =~= words@.subrange(
                0,
                i as int + 1,
            ));
            lemma_u32s_le_bytes_push(words@.subrange(0, i as int), words@[i as int]);
        }
        push_u32_le(&mut out, words[i]);
        i = i + 1;
    }
    proof {
        assert(words@.subrange(0, words@.len() as int) =~= words@);
    }
    out
}

} // verus!
