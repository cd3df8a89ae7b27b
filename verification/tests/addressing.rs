use gba_runtime::address_map;

#[test]
fn fixed_register_addresses() {
    assert_eq!(address_map::dispcnt().as_usize(), 0x0400_0000);
    assert_eq!(address_map::keyinput().as_usize(), 0x0400_0130);
    assert_eq!(address_map::backdrop().as_usize(), 0x0500_0000);
    assert_eq!(address_map::IRQ_HANDLER_SLOT, 0x03FF_FFFC);
}

#[test]
fn capability_gated_addresses_agree() {
    // The key input register is read-only: only its load address exists.
    assert_eq!(address_map::keyinput().read_address(), 0x0400_0130);
    // A read-write register hands out the same address for both kinds of
    // access.
    let d = address_map::dispcnt();
    assert_eq!(d.read_address(), d.write_address());
    assert_eq!(d.write_address(), 0x0400_0000);
}

#[test]
fn palette_block_addresses() {
    let pal = address_map::obj_palette();
    assert_eq!(pal.index(0).as_usize(), 0x0500_0200);
    assert_eq!(pal.index(1).as_usize(), 0x0500_0202);
    assert_eq!(pal.index(255).as_usize(), 0x0500_0200 + 255 * 2);
}

#[test]
fn tile_memory_addresses() {
    assert_eq!(address_map::obj_tiles_u32().index(0).as_usize(), 0x0601_0000);
    assert_eq!(address_map::obj_tiles_u32().index(1).as_usize(), 0x0601_0004);
    assert_eq!(address_map::obj_tiles_u32().index(8191).as_usize(), 0x0601_0000 + 8191 * 4);
    // 4-bit-per-pixel tiles are 32 bytes apart.
    assert_eq!(address_map::obj_tile4().index(2).as_usize(), 0x0601_0000 + 64);
    assert_eq!(address_map::obj_tile4().index(1023).as_usize(), 0x0601_0000 + 1023 * 32);
    // 8-bit-per-pixel tile positions also step by 32 bytes, the hardware's
    // tile-index granularity, although a tile is 64 bytes long.
    assert_eq!(address_map::obj_tile8().index(2).as_usize(), 0x0601_0000 + 64);
    assert_eq!(address_map::obj_tile8().index(1022).as_usize(), 0x0601_0000 + 1022 * 32);
}

#[test]
fn obj_attr_series_addresses() {
    assert_eq!(address_map::obj_attrs_0().index(0).as_usize(), 0x0700_0000);
    assert_eq!(address_map::obj_attrs_1().index(0).as_usize(), 0x0700_0002);
    assert_eq!(address_map::obj_attrs_2().index(0).as_usize(), 0x0700_0004);
    assert_eq!(address_map::obj_attrs().index(1).as_usize(), 0x0700_0008);
    assert_eq!(address_map::obj_attrs().index(127).as_usize(), 0x0700_0000 + 127 * 8);
    assert_eq!(address_map::obj_attrs_2().index(127).as_usize(), 0x0700_0004 + 127 * 8);
}

#[test]
fn distinct_indices_give_distinct_addresses() {
    let pal = address_map::obj_palette();
    let mut previous = pal.index(0).as_usize();
    let mut i: usize = 1;
    while i < 256 {
        let next = pal.index(i).as_usize();
        assert!(next > previous);
        previous = next;
        i += 1;
    }
}
