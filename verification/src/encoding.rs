//! Little-endian numbers in bytes, and the fixed-width copying that the
//! byte formats of keys and ciphertexts are built from.

use vstd::prelude::*;

verus! {

/// The number that `bytes` spell, least significant byte first.
pub open spec fn le_value(bytes: Seq<u8>) -> nat
    decreases bytes.len(),
{
    if bytes.len() == 0 {
        0
    } else {
        bytes[0] as nat + 256 * le_value(bytes.skip(1))
    }
}

/// The `width` least significant bytes of `value`, least significant first.
pub open spec fn le_bytes(value: nat, width: nat) -> Seq<u8>
    decreases width,
{
    if width == 0 {
        Seq::empty()
    } else {
        seq![(value % 256) as u8] + le_bytes(value / 256, (width - 1) as nat)
    }
}

/// 256 to the power `width`: the number of values that `width` bytes can spell.
pub open spec fn byte_range(width: nat) -> nat
    decreases width,
{
    if width == 0 {
        1
    } else {
        256 * byte_range((width - 1) as nat)
    }
}

/// `le_bytes` gives exactly `width` bytes.
pub proof fn lemma_le_bytes_len(value: nat, width: nat)
    ensures
        le_bytes(value, width).len() == width,
    decreases width,
{
    if width > 0 {
        lemma_le_bytes_len(value / 256, (width - 1) as nat);
    }
}

/// Spelling a number that fits the width and reading it back gives the number.
pub proof fn lemma_le_value_of_bytes(value: nat, width: nat)
    requires
        value < byte_range(width),
    ensures
        le_value(le_bytes(value, width)) == value,
    decreases width,
{
    if width > 0 {
        let rest = le_bytes(value / 256, (width - 1) as nat);
        let all = le_bytes(value, width);
        lemma_le_value_of_bytes(value / 256, (width - 1) as nat);
        assert(all.skip(1) =~= rest);
        assert(all[0] == (value % 256) as u8);
    }
}

/// Reading bytes as a number and spelling it in the same width gives the bytes.
pub proof fn lemma_le_bytes_of_value(bytes: Seq<u8>)
    ensures
        le_bytes(le_value(bytes), bytes.len()) == bytes,
    decreases bytes.len(),
{
    if bytes.len() > 0 {
        let tail = bytes.skip(1);
        lemma_le_bytes_of_value(tail);
        let value = le_value(bytes);
        assert(value % 256 == bytes[0] as nat && value / 256 == le_value(tail));
        assert(le_bytes(value, bytes.len()) =~= bytes);
    }
}

/// The 32 bytes of `bytes` that start at `start`.
pub(crate) fn chunk32(bytes: &[u8], start: usize) -> (chunk: [u8; 32])
    requires
        start + 32 <= bytes@.len(),
    ensures
        chunk@ == bytes@.subrange(start as int, start + 32),
{
    let len: usize = bytes.len();
    let mut chunk: [u8; 32] = [0u8; 32];
    let mut i: usize = 0;
    while i < 32
        invariant
            i <= 32,
            start + 32 <= len == bytes@.len(),
            forall|j: int| 0 <= j < i ==> chunk@[j] == bytes@[start + j],
        decreases 32 - i,
    {
        chunk[i] = bytes[start + i];
        i += 1;
    }
    assert(chunk@ =~= bytes@.subrange(start as int, start + 32));
    chunk
}

/// Writes `chunk` over the 32 bytes of `buf` that start at `start`, and
/// leaves the rest of `buf` as it was.
pub(crate) fn put32(buf: &mut [u8], start: usize, chunk: &[u8; 32])
    requires
        start + 32 <= old(buf)@.len(),
    ensures
        final(buf)@ == old(buf)@.subrange(0, start as int) + chunk@ + old(buf)@.subrange(
            start + 32,
            old(buf)@.len() as int,
        ),
{
    let ghost before = buf@;
    let len: usize = buf.len();
    let mut i: usize = 0;
    while i < 32
        invariant
            i <= 32,
            start + 32 <= len == before.len(),
            buf@.len() == before.len(),
            forall|j: int| 0 <= j < start ==> buf@[j] == before[j],
            forall|j: int| 0 <= j < i ==> buf@[start + j] == chunk@[j],
            forall|j: int| start + i <= j < before.len() ==> buf@[j] == before[j],
        decreases 32 - i,
    {
        buf[start + i] = chunk[i];
        i += 1;
    }
    assert(buf@ =~= before.subrange(0, start as int) + chunk@ + before.subrange(
        start + 32,
        before.len() as int,
    ));
}

} // verus!
