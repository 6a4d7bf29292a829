//! The driver's binary layout of an instance record.
//!
//! The driver consumes instance records as raw device memory with a fixed
//! 80-byte layout: twelve 4-byte transform words, then the four 4-byte
//! scalar fields, the 8-byte traversable handle, and two reserved 4-byte
//! words. This module states that layout as an exact byte image (words
//! little-endian, as on the supported targets) and produces it, so the
//! record a caller uploads is pinned down to the byte.

use vstd::prelude::*;

use crate::instance::Instance;

verus! {

/// The four bytes of `x`, least-significant first.
pub open spec fn u32_le_bytes(x: u32) -> Seq<u8> {
    seq![
        (x & 0xFF) as u8,
        ((x >> 8) & 0xFF) as u8,
        ((x >> 16) & 0xFF) as u8,
        ((x >> 24) & 0xFF) as u8,
    ]
}

/// The eight bytes of `x`, least-significant first.
pub open spec fn u64_le_bytes(x: u64) -> Seq<u8> {
    seq![
        (x & 0xFF) as u8,
        ((x >> 8) & 0xFF) as u8,
        ((x >> 16) & 0xFF) as u8,
        ((x >> 24) & 0xFF) as u8,
        ((x >> 32) & 0xFF) as u8,
        ((x >> 40) & 0xFF) as u8,
        ((x >> 48) & 0xFF) as u8,
        ((x >> 56) & 0xFF) as u8,
    ]
}

/// The byte image of a sequence of 4-byte words, in order.
pub open spec fn words_le_bytes(ws: Seq<u32>) -> Seq<u8>
    decreases ws.len(),
{
    if ws.len() == 0 {
        Seq::empty()
    } else {
        u32_le_bytes(ws[0]) + words_le_bytes(ws.drop_first())
    }
}

/// The exact 80-byte image of one instance record as the driver reads it:
/// transform at offset 0, identifier at 48, table offset at 52, visibility
/// mask at 56, flags at 60, traversable handle at 64, reserved words at 72.
pub open spec fn instance_bytes(i: Instance) -> Seq<u8> {
    words_le_bytes(i.transform@) + u32_le_bytes(i.instance_id) + u32_le_bytes(i.sbt_offset)
        + u32_le_bytes(i.visibility_mask) + u32_le_bytes(i.flags.bits) + u64_le_bytes(
        i.traversable_handle.value,
    ) + u32_le_bytes(i.pad[0]) + u32_le_bytes(i.pad[1])
}

/// Each byte carved out of a 32-bit word fits in 8 bits.
proof fn lemma_u32_byte_bounds(x: u32)
    by (bit_vector)
    ensures
        x & 0xFF < 256,
        (x >> 8) & 0xFF < 256,
        (x >> 16) & 0xFF < 256,
        (x >> 24) & 0xFF < 256,
{
}

/// Each byte carved out of a 64-bit word fits in 8 bits.
proof fn lemma_u64_byte_bounds(x: u64)
    by (bit_vector)
    ensures
        x & 0xFF < 256,
        (x >> 8) & 0xFF < 256,
        (x >> 16) & 0xFF < 256,
        (x >> 24) & 0xFF < 256,
        (x >> 32) & 0xFF < 256,
        (x >> 40) & 0xFF < 256,
        (x >> 48) & 0xFF < 256,
        (x >> 56) & 0xFF < 256,
{
}

/// Appends the four little-endian bytes of `x`.
fn push_u32_le(out: &mut Vec<u8>, x: u32)
    ensures
        final(out)@ == old(out)@ + u32_le_bytes(x),
{
    proof {
        lemma_u32_byte_bounds(x);
    }
    out.push((x & 0xFF) as u8);
    out.push(((x >> 8) & 0xFF) as u8);
    out.push(((x >> 16) & 0xFF) as u8);
    out.push(((x >> 24) & 0xFF) as u8);
    proof {
        assert(out@ =~= old(out)@ + u32_le_bytes(x));
    }
}

/// Appends the eight little-endian bytes of `x`.
fn push_u64_le(out: &mut Vec<u8>, x: u64)
    ensures
        final(out)@ == old(out)@ + u64_le_bytes(x),
{
    proof {
        lemma_u64_byte_bounds(x);
    }
    out.push((x & 0xFF) as u8);
    out.push(((x >> 8) & 0xFF) as u8);
    out.push(((x >> 16) & 0xFF) as u8);
    out.push(((x >> 24) & 0xFF) as u8);
    out.push(((x >> 32) & 0xFF) as u8);
    out.push(((x >> 40) & 0xFF) as u8);
    out.push(((x >> 48) & 0xFF) as u8);
    out.push(((x >> 56) & 0xFF) as u8);
    proof {
        assert(out@ =~= old(out)@ + u64_le_bytes(x));
    }
}

/// Extending the word prefix by one word extends the byte image by that
/// word's four bytes.
proof fn lemma_words_le_bytes_take_succ(ws: Seq<u32>, k: int)
    requires
        0 <= k < ws.len(),
    ensures
        words_le_bytes(ws.take(k + 1)) == words_le_bytes(ws.take(k)) + u32_le_bytes(ws[k]),
    decreases k,
{
    if k == 0 {
        assert(ws.take(0) =~= Seq::<u32>::empty());
        assert(ws.take(1).drop_first() =~= Seq::<u32>::empty());
        assert(words_le_bytes(ws.take(1)) =~= words_le_bytes(ws.take(0)) + u32_le_bytes(ws[0]));
    } else {
        let tail = ws.drop_first();
        lemma_words_le_bytes_take_succ(tail, k - 1);
        assert(ws.take(k + 1).drop_first() =~= tail.take(k));
        assert(ws.take(k).drop_first() =~= tail.take(k - 1));
        assert(words_le_bytes(ws.take(k + 1)) =~= words_le_bytes(ws.take(k)) + u32_le_bytes(
            ws[k],
        ));
    }
}

/// A sequence of words images to four bytes per word.
pub proof fn lemma_words_le_bytes_len(ws: Seq<u32>)
    ensures
        words_le_bytes(ws).len() == 4 * ws.len(),
    decreases ws.len(),
{
    if ws.len() != 0 {
        lemma_words_le_bytes_len(ws.drop_first());
    }
}

impl<'a> Instance<'a> {
    /// The 80-byte record to upload for this instance, exactly as the
    /// driver will read it back out of device memory.
    pub fn to_driver_bytes(&self) -> (r: Vec<u8>)
        ensures
            r@ == instance_bytes(*self),
            r@.len() == 80,
    {
        let mut out: Vec<u8> = Vec::new();
        let mut k: usize = 0;
        while k < 12
            invariant
                0 <= k <= 12,
                out@ == words_le_bytes(self.transform@.take(k as int)),
            decreases 12 - k,
        {
            push_u32_le(&mut out, self.transform[k]);
            proof {
                lemma_words_le_bytes_take_succ(self.transform@, k as int);
            }
            k += 1;
        }
        proof {
            assert(self.transform@.take(12) =~= self.transform@);
        }
        push_u32_le(&mut out, self.instance_id);
        push_u32_le(&mut out, self.sbt_offset);
        push_u32_le(&mut out, self.visibility_mask);
        push_u32_le(&mut out, self.flags.bits);
        push_u64_le(&mut out, self.traversable_handle.value);
        push_u32_le(&mut out, self.pad[0]);
        push_u32_le(&mut out, self.pad[1]);
        proof {
            lemma_words_le_bytes_len(self.transform@);
        }
        out
    }
}

/// Law: the byte image realizes the driver's record layout — 80 bytes in
/// all, with every field at its driver-defined offset.
pub proof fn lemma_instance_record_layout(i: Instance)
    ensures
        instance_bytes(i).len() == 80,
        instance_bytes(i).subrange(0, 48) == words_le_bytes(i.transform@),
        instance_bytes(i).subrange(48, 52) == u32_le_bytes(i.instance_id),
        instance_bytes(i).subrange(52, 56) == u32_le_bytes(i.sbt_offset),
        instance_bytes(i).subrange(56, 60) == u32_le_bytes(i.visibility_mask),
        instance_bytes(i).subrange(60, 64) == u32_le_bytes(i.flags.bits),
        instance_bytes(i).subrange(64, 72) == u64_le_bytes(i.traversable_handle.value),
        instance_bytes(i).subrange(72, 76) == u32_le_bytes(i.pad[0]),
        instance_bytes(i).subrange(76, 80) == u32_le_bytes(i.pad[1]),
{
    lemma_words_le_bytes_len(i.transform@);
    assert(instance_bytes(i).subrange(0, 48) =~= words_le_bytes(i.transform@));
    assert(instance_bytes(i).subrange(48, 52) =~= u32_le_bytes(i.instance_id));
    assert(instance_bytes(i).subrange(52, 56) =~= u32_le_bytes(i.sbt_offset));
    assert(instance_bytes(i).subrange(56, 60) =~= u32_le_bytes(i.visibility_mask));
    assert(instance_bytes(i).subrange(60, 64) =~= u32_le_bytes(i.flags.bits));
    assert(instance_bytes(i).subrange(64, 72) =~= u64_le_bytes(i.traversable_handle.value));
    assert(instance_bytes(i).subrange(72, 76) =~= u32_le_bytes(i.pad[0]));
    assert(instance_bytes(i).subrange(76, 80) =~= u32_le_bytes(i.pad[1]));
}

/// Law: in the byte image of a well-formed instance, the eight reserved
/// bytes are zero whatever configuration path produced the instance, and
/// the visibility mask occupies its low byte alone — the upper three bytes
/// of the mask field are zero.
pub proof fn lemma_wf_instance_bytes(i: Instance)
    requires
        i.wf(),
    ensures
        forall|j: int| 72 <= j < 80 ==> instance_bytes(i)[j] == 0,
        instance_bytes(i)[56] == i.visibility_mask,
        forall|j: int| 57 <= j < 60 ==> instance_bytes(i)[j] == 0,
{
    lemma_instance_record_layout(i);
    let m = i.visibility_mask;
    assert(m & 0xFF == m && (m >> 8) & 0xFF == 0 && (m >> 16) & 0xFF == 0 && (m >> 24) & 0xFF
        == 0) by (bit_vector)
        requires
            m < 256u32,
    ;
    assert(0u32 & 0xFF == 0 && (0u32 >> 8) & 0xFF == 0 && (0u32 >> 16) & 0xFF == 0 && (0u32 >> 24)
        & 0xFF == 0) by (bit_vector);
    assert forall|j: int| 72 <= j < 80 implies instance_bytes(i)[j] == 0 by {
        if j < 76 {
            assert(instance_bytes(i)[j] == instance_bytes(i).subrange(72, 76)[j - 72]);
        } else {
            assert(instance_bytes(i)[j] == instance_bytes(i).subrange(76, 80)[j - 76]);
        }
    }
    assert forall|j: int| 56 <= j < 60 implies instance_bytes(i)[j] == instance_bytes(i).subrange(
        56,
        60,
    )[j - 56] by {
    }
}

} // verus!
