//! The memory preparation the boot trampoline performs.
//!
//! At reset, before anything else runs, the trampoline copies each
//! relocatable region out of read-only storage into its place in RAM and
//! zeroes the uninitialized-data region. Both loops work a 4-byte word at a
//! time and stop as soon as fewer than 4 bytes remain, so a region whose
//! byte length is not a multiple of 4 has its trailing partial word silently
//! left alone: exactly `byte_count / 4` words are processed. The layout step
//! must therefore hand over word-aligned region sizes.
//!
//! Memory is modeled here as vectors of 4-byte words; the surrounding
//! unverified binary runs the same fixed word-at-a-time pattern over the
//! real regions the layout step names.

use vstd::prelude::*;

verus! {

/// The word size both boot loops advance by, in bytes.
pub const BYTES_PER_WORD: usize = 4;

/// What one copy pass leaves behind: the first `byte_count / 4` words of
/// the destination now equal the source's, every word at or beyond that
/// point is as it was, and the region kept its length.
pub open spec fn region_copied(
    dest_before: Seq<u32>,
    dest_after: Seq<u32>,
    src: Seq<u32>,
    byte_count: usize,
) -> bool {
    &&& dest_after.len() == dest_before.len()
    &&& forall|i: int| 0 <= i < byte_count / 4 ==> dest_after[i] == src[i]
    &&& forall|i: int|
        byte_count / 4 <= i < dest_before.len() ==> dest_after[i] == dest_before[i]
}

/// What one clear pass leaves behind: the first `byte_count / 4` words of
/// the destination are zero, every word at or beyond that point is as it
/// was, and the region kept its length.
pub open spec fn region_cleared(
    dest_before: Seq<u32>,
    dest_after: Seq<u32>,
    byte_count: usize,
) -> bool {
    &&& dest_after.len() == dest_before.len()
    &&& forall|i: int| 0 <= i < byte_count / 4 ==> dest_after[i] == 0
    &&& forall|i: int|
        byte_count / 4 <= i < dest_before.len() ==> dest_after[i] == dest_before[i]
}

/// Copies `byte_count / 4` words, in ascending order, from the start of
/// `src` to the start of `dest`, stopping once fewer than 4 bytes remain;
/// a trailing partial word is not copied.
pub fn copy_boot_words(dest: &mut Vec<u32>, src: &Vec<u32>, byte_count: usize)
    requires
        byte_count / 4 <= old(dest)@.len(),
        byte_count / 4 <= src@.len(),
    ensures
        region_copied(old(dest)@, final(dest)@, src@, byte_count),
{
    let mut remaining: usize = byte_count;
    let mut index: usize = 0;
    while remaining >= BYTES_PER_WORD
        invariant
            remaining <= byte_count,
            byte_count == 4 * index + remaining,
            index <= byte_count / 4,
            byte_count / 4 <= dest@.len(),
            byte_count / 4 <= src@.len(),
            dest@.len() == old(dest)@.len(),
            forall|i: int| 0 <= i < index ==> dest@[i] == src@[i],
            forall|i: int| index <= i < dest@.len() ==> dest@[i] == old(dest)@[i],
        decreases remaining,
    {
        proof {
            lemma_whole_words_remain(byte_count as int, index as int, remaining as int);
        }
        let w: u32 = src[index];
        dest.set(index, w);
        remaining -= BYTES_PER_WORD;
        index += 1;
    }
    proof {
        lemma_word_loop_done(byte_count as int, index as int, remaining as int);
    }
}

/// Sets `byte_count / 4` words at the start of `dest` to zero, in ascending
/// order, stopping once fewer than 4 bytes remain; a trailing partial word
/// is not cleared.
pub fn clear_boot_words(dest: &mut Vec<u32>, byte_count: usize)
    requires
        byte_count / 4 <= old(dest)@.len(),
    ensures
        region_cleared(old(dest)@, final(dest)@, byte_count),
{
    let mut remaining: usize = byte_count;
    let mut index: usize = 0;
    while remaining >= BYTES_PER_WORD
        invariant
            remaining <= byte_count,
            byte_count == 4 * index + remaining,
            index <= byte_count / 4,
            byte_count / 4 <= dest@.len(),
            dest@.len() == old(dest)@.len(),
            forall|i: int| 0 <= i < index ==> dest@[i] == 0,
            forall|i: int| index <= i < dest@.len() ==> dest@[i] == old(dest)@[i],
        decreases remaining,
    {
        proof {
            lemma_whole_words_remain(byte_count as int, index as int, remaining as int);
        }
        dest.set(index, 0);
        remaining -= BYTES_PER_WORD;
        index += 1;
    }
    proof {
        lemma_word_loop_done(byte_count as int, index as int, remaining as int);
    }
}

/// One boot pass over the three regions, in the order the trampoline runs
/// them: copy the fast internal RAM image out of storage, copy the external
/// RAM image out of storage, then zero the uninitialized-data region. Each
/// region is processed a word at a time with the shared boundary rule:
/// exactly `byte_count / 4` words, a trailing partial word left alone.
pub fn boot_prepare_memory(
    iwram: &mut Vec<u32>,
    iwram_rom: &Vec<u32>,
    iwram_byte_count: usize,
    ewram: &mut Vec<u32>,
    ewram_rom: &Vec<u32>,
    ewram_byte_count: usize,
    bss: &mut Vec<u32>,
    bss_byte_count: usize,
)
    requires
        iwram_byte_count / 4 <= old(iwram)@.len(),
        iwram_byte_count / 4 <= iwram_rom@.len(),
        ewram_byte_count / 4 <= old(ewram)@.len(),
        ewram_byte_count / 4 <= ewram_rom@.len(),
        bss_byte_count / 4 <= old(bss)@.len(),
    ensures
        region_copied(old(iwram)@, final(iwram)@, iwram_rom@, iwram_byte_count),
        region_copied(old(ewram)@, final(ewram)@, ewram_rom@, ewram_byte_count),
        region_cleared(old(bss)@, final(bss)@, bss_byte_count),
{
    copy_boot_words(iwram, iwram_rom, iwram_byte_count);
    copy_boot_words(ewram, ewram_rom, ewram_byte_count);
    clear_boot_words(bss, bss_byte_count);
}

/// The four bytes of one word, least significant first, as the word lies in
/// memory on this little-endian target.
pub open spec fn word_bytes(w: u32) -> Seq<u8> {
    seq![
        (w & 0xFF) as u8,
        ((w >> 8u32) & 0xFF) as u8,
        ((w >> 16u32) & 0xFF) as u8,
        ((w >> 24u32) & 0xFF) as u8,
    ]
}

/// The byte image of a sequence of words, in memory order.
pub open spec fn bytes_of_words(ws: Seq<u32>) -> Seq<u8>
    decreases ws.len(),
{
    if ws.len() == 0 {
        Seq::empty()
    } else {
        word_bytes(ws[0]) + bytes_of_words(ws.drop_first())
    }
}

/// A word sequence's byte image carries four bytes per word.
pub proof fn lemma_bytes_of_words_len(ws: Seq<u32>)
    ensures
        bytes_of_words(ws).len() == 4 * ws.len(),
    decreases ws.len(),
{
    if ws.len() > 0 {
        lemma_bytes_of_words_len(ws.drop_first());
    }
}

/// For a byte count that is a multiple of four, the copy pass leaves the
/// destination byte-identical to the source for exactly `byte_count`
/// bytes.
pub proof fn lemma_copy_region_byte_identical(
    dest_before: Seq<u32>,
    dest_after: Seq<u32>,
    src: Seq<u32>,
    byte_count: usize,
)
    requires
        byte_count % 4 == 0,
        byte_count / 4 <= dest_before.len(),
        byte_count / 4 <= src.len(),
        region_copied(dest_before, dest_after, src, byte_count),
    ensures
        bytes_of_words(dest_after.take((byte_count / 4) as int)) == bytes_of_words(
            src.take((byte_count / 4) as int),
        ),
        bytes_of_words(dest_after.take((byte_count / 4) as int)).len() == byte_count,
{
    assert(dest_after.take((byte_count / 4) as int) =~= src.take((byte_count / 4) as int));
    lemma_bytes_of_words_len(dest_after.take((byte_count / 4) as int));
}

/// While at least one whole word remains, the running index is strictly
/// below the total word count.
proof fn lemma_whole_words_remain(byte_count: int, index: int, remaining: int)
    requires
        byte_count == 4 * index + remaining,
        0 <= index,
        4 <= remaining,
    ensures
        index < byte_count / 4,
{
}

/// When fewer than 4 bytes remain, the loops have processed exactly
/// `byte_count / 4` words.
proof fn lemma_word_loop_done(byte_count: int, index: int, remaining: int)
    requires
        byte_count == 4 * index + remaining,
        0 <= index,
        0 <= remaining < 4,
    ensures
        index == byte_count / 4,
{
}

} // verus!
