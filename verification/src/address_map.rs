//! The fixed hardware address map of the target.
//!
//! Every register and register family below lives at a compile-time-known
//! physical address; the handles are valid from the first instruction after
//! boot and are never allocated or freed. Each function here builds the one
//! handle for its register, with the address, element count and stride
//! pinned by its contract.

use vstd::prelude::*;

use crate::keys::KeyInput;
use crate::mmio::Safe;
use crate::mmio::VolAddress;
use crate::mmio::VolBlock;
use crate::mmio::VolSeries;
use crate::obj::ObjAttr;
use crate::obj::ObjAttr0;
use crate::obj::ObjAttr1;
use crate::obj::ObjAttr2;
use crate::video::Color;
use crate::video::DisplayControl;

verus! {

/// The display control register.
pub const DISPCNT_ADDR: usize = 0x0400_0000;

/// The key input state register.
pub const KEYINPUT_ADDR: usize = 0x0400_0130;

/// The backdrop color register.
pub const BACKDROP_ADDR: usize = 0x0500_0000;

/// The object palette: 256 colors of 2 bytes each.
pub const OBJ_PALETTE_ADDR: usize = 0x0500_0200;

/// The number of colors in the object palette.
pub const OBJ_PALETTE_COUNT: usize = 256;

/// The object tile memory region.
pub const OBJ_TILE_MEM_ADDR: usize = 0x0601_0000;

/// The object attribute table.
pub const OBJ_ATTRS_ADDR: usize = 0x0700_0000;

/// The number of entries in the object attribute table.
pub const OBJ_ATTR_COUNT: usize = 128;

/// The distance in bytes between consecutive object attribute entries:
/// three 16-bit fields and a 2-byte gap that belongs to the hardware.
pub const OBJ_ATTR_STRIDE: usize = 8;

/// The interrupt-vector slot the trampoline stores the interrupt entry
/// stub's address into, one word below the start of the register region.
pub const IRQ_HANDLER_SLOT: usize = 0x0400_0000 - 4;

/// Pixels in one 8-by-8 tile.
pub const PIXELS_PER_TILE: usize = 8 * 8;

/// Bits per byte.
pub const BITS_PER_BYTE: usize = 8;

/// Bytes in one 4-bit-per-pixel tile.
pub const SIZE_OF_TILE4: usize = (PIXELS_PER_TILE * 4) / BITS_PER_BYTE;

/// Bytes in one 8-bit-per-pixel tile.
pub const SIZE_OF_TILE8: usize = (PIXELS_PER_TILE * 8) / BITS_PER_BYTE;

/// Bytes in the object tile memory region.
pub const SIZE_OF_OBJ_TILE_MEM: usize = 32 * 1024;

/// Bytes in one 32-bit word.
pub const SIZE_OF_U32: usize = 4;

/// Words in one 4-bit-per-pixel tile.
pub const TILE4_WORD_COUNT: usize = SIZE_OF_TILE4 / SIZE_OF_U32;

/// Words in one 8-bit-per-pixel tile.
pub const TILE8_WORD_COUNT: usize = SIZE_OF_TILE8 / SIZE_OF_U32;

/// Words in the object tile memory region.
pub const OBJ_TILE_MEM_WORD_COUNT: usize = SIZE_OF_OBJ_TILE_MEM / SIZE_OF_U32;

/// The number of 4-bit-per-pixel tiles in object tile memory.
pub const OBJ_TILE4_COUNT: usize = 1024;

/// The number of addressable 8-bit-per-pixel tile positions: tile indices
/// step by one 4-bit-per-pixel tile (32 bytes), so consecutive positions
/// overlap and the last whole 64-byte tile starts one step early.
pub const OBJ_TILE8_COUNT: usize = 1023;

/// One 4-bit-per-pixel tile, as raw 32-bit words.
pub type Tile4 = [u32; TILE4_WORD_COUNT];

/// One 8-bit-per-pixel tile, as raw 32-bit words.
pub type Tile8 = [u32; TILE8_WORD_COUNT];

/// The display control register: readable and writable.
pub fn dispcnt() -> (a: VolAddress<DisplayControl, Safe, Safe>)
    ensures
        a.spec_addr() == DISPCNT_ADDR,
{
    VolAddress::new(DISPCNT_ADDR)
}

/// The key input state register: read-only, with active-low button bits.
/// Its store capability is absent, so writing through this handle is
/// rejected at compile time.
pub fn keyinput() -> (a: VolAddress<KeyInput, Safe, ()>)
    ensures
        a.spec_addr() == KEYINPUT_ADDR,
{
    VolAddress::new(KEYINPUT_ADDR)
}

/// The backdrop color register: readable and writable.
pub fn backdrop() -> (a: VolAddress<Color, Safe, Safe>)
    ensures
        a.spec_addr() == BACKDROP_ADDR,
{
    VolAddress::new(BACKDROP_ADDR)
}

/// The object palette: 256 colors packed 2 bytes apart.
pub fn obj_palette() -> (b: VolBlock<Color, Safe, Safe>)
    ensures
        b.wf(),
        b.spec_base() == OBJ_PALETTE_ADDR,
        b.spec_count() == OBJ_PALETTE_COUNT,
        b.spec_stride() == 2,
{
    VolBlock::new(OBJ_PALETTE_ADDR, OBJ_PALETTE_COUNT, 2)
}

/// Object tile memory as raw 32-bit words.
pub fn obj_tiles_u32() -> (b: VolBlock<u32, Safe, Safe>)
    ensures
        b.wf(),
        b.spec_base() == OBJ_TILE_MEM_ADDR,
        b.spec_count() == OBJ_TILE_MEM_WORD_COUNT,
        b.spec_stride() == SIZE_OF_U32,
{
    VolBlock::new(OBJ_TILE_MEM_ADDR, OBJ_TILE_MEM_WORD_COUNT, SIZE_OF_U32)
}

/// Object tile memory as 4-bit-per-pixel tiles: 1024 tiles of 32 bytes.
pub fn obj_tile4() -> (b: VolBlock<Tile4, Safe, Safe>)
    ensures
        b.wf(),
        b.spec_base() == OBJ_TILE_MEM_ADDR,
        b.spec_count() == OBJ_TILE4_COUNT,
        b.spec_stride() == SIZE_OF_TILE4,
{
    VolBlock::new(OBJ_TILE_MEM_ADDR, OBJ_TILE4_COUNT, SIZE_OF_TILE4)
}

/// Object tile memory as 8-bit-per-pixel tiles: 64-byte tiles whose
/// positions step by 32 bytes, the tile-index granularity of the hardware.
pub fn obj_tile8() -> (s: VolSeries<Tile8, Safe, Safe>)
    ensures
        s.wf(),
        s.spec_base() == OBJ_TILE_MEM_ADDR,
        s.spec_count() == OBJ_TILE8_COUNT,
        s.spec_stride() == SIZE_OF_TILE4,
{
    VolSeries::new(OBJ_TILE_MEM_ADDR, OBJ_TILE8_COUNT, SIZE_OF_TILE4)
}

/// The first attribute value of each object table entry.
pub fn obj_attrs_0() -> (s: VolSeries<ObjAttr0, Safe, Safe>)
    ensures
        s.wf(),
        s.spec_base() == OBJ_ATTRS_ADDR,
        s.spec_count() == OBJ_ATTR_COUNT,
        s.spec_stride() == OBJ_ATTR_STRIDE,
{
    VolSeries::new(OBJ_ATTRS_ADDR, OBJ_ATTR_COUNT, OBJ_ATTR_STRIDE)
}

/// The second attribute value of each object table entry, 2 bytes into the
/// entry.
pub fn obj_attrs_1() -> (s: VolSeries<ObjAttr1, Safe, Safe>)
    ensures
        s.wf(),
        s.spec_base() == OBJ_ATTRS_ADDR + 2,
        s.spec_count() == OBJ_ATTR_COUNT,
        s.spec_stride() == OBJ_ATTR_STRIDE,
{
    VolSeries::new(OBJ_ATTRS_ADDR + 2, OBJ_ATTR_COUNT, OBJ_ATTR_STRIDE)
}

/// The third attribute value of each object table entry, 4 bytes into the
/// entry.
pub fn obj_attrs_2() -> (s: VolSeries<ObjAttr2, Safe, Safe>)
    ensures
        s.wf(),
        s.spec_base() == OBJ_ATTRS_ADDR + 4,
        s.spec_count() == OBJ_ATTR_COUNT,
        s.spec_stride() == OBJ_ATTR_STRIDE,
{
    VolSeries::new(OBJ_ATTRS_ADDR + 4, OBJ_ATTR_COUNT, OBJ_ATTR_STRIDE)
}

/// Whole object attribute entries, three 16-bit values at a time.
pub fn obj_attrs() -> (s: VolSeries<ObjAttr, Safe, Safe>)
    ensures
        s.wf(),
        s.spec_base() == OBJ_ATTRS_ADDR,
        s.spec_count() == OBJ_ATTR_COUNT,
        s.spec_stride() == OBJ_ATTR_STRIDE,
{
    VolSeries::new(OBJ_ATTRS_ADDR, OBJ_ATTR_COUNT, OBJ_ATTR_STRIDE)
}

} // verus!
