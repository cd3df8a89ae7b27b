use gba_runtime::irq::handled_interrupt_sources;
use gba_runtime::Color;
use gba_runtime::DisplayControl;
use gba_runtime::KeyInput;
use gba_runtime::ObjAttr;
use gba_runtime::ObjAttr0;
use gba_runtime::ObjAttr1;
use gba_runtime::ObjAttr2;

#[test]
fn rgb_round_trip_in_range() {
    let c = Color::rgb(13, 31, 0);
    assert_eq!(c.red(), 13);
    assert_eq!(c.green(), 31);
    assert_eq!(c.blue(), 0);
}

#[test]
fn rgb_round_trip_masks_wide_channels() {
    let c = Color::rgb(32, 500, 7);
    assert_eq!(c.red(), 32 & 31);
    assert_eq!(c.green(), 500 & 31);
    assert_eq!(c.blue(), 7 & 31);
}

#[test]
fn rgb_packs_channels_at_their_offsets() {
    assert_eq!(Color::rgb(31, 0, 0).0, 0x001F);
    assert_eq!(Color::rgb(0, 31, 0).0, 0x03E0);
    assert_eq!(Color::rgb(0, 0, 31).0, 0x7C00);
    assert_eq!(Color::rgb(31, 31, 31).0, 0x7FFF);
    assert_eq!(Color::rgb(0, 0, 0).0, 0x0000);
}

#[test]
fn display_control_objects_and_linear_tiles() {
    let d = DisplayControl::new().with_objects(true).with_linear_obj_tiles(true);
    assert_eq!(d.to_u16(), (1 << 12) | (1 << 6));
    assert_eq!(d.to_u16(), 0x1040);
}

#[test]
fn display_control_builders_are_independent() {
    let d = DisplayControl::new().with_forced_blank(true);
    assert_eq!(d.to_u16(), 0x0080);
    assert!(d.forced_blank());
    assert!(!d.objects());
    assert!(!d.linear_obj_tiles());
    let cleared = d.with_objects(true).with_forced_blank(false);
    assert_eq!(cleared.to_u16(), 0x1000);
}

#[test]
fn key_input_all_bits_set_means_nothing_pressed() {
    let k = KeyInput(0xFFFF);
    assert!(!k.a());
    assert!(!k.b());
    assert!(!k.select());
    assert!(!k.start());
    assert!(!k.right());
    assert!(!k.left());
    assert!(!k.up());
    assert!(!k.down());
    assert!(!k.r());
    assert!(!k.l());
}

#[test]
fn key_input_cleared_bit_means_pressed() {
    assert!(KeyInput(0xFFFF & !(1 << 0)).a());
    assert!(KeyInput(0xFFFF & !(1 << 1)).b());
    assert!(KeyInput(0xFFFF & !(1 << 2)).select());
    assert!(KeyInput(0xFFFF & !(1 << 3)).start());
    assert!(KeyInput(0xFFFF & !(1 << 4)).right());
    assert!(KeyInput(0xFFFF & !(1 << 5)).left());
    assert!(KeyInput(0xFFFF & !(1 << 6)).up());
    assert!(KeyInput(0xFFFF & !(1 << 7)).down());
    assert!(KeyInput(0xFFFF & !(1 << 8)).r());
    assert!(KeyInput(0xFFFF & !(1 << 9)).l());
}

#[test]
fn key_input_report_is_independent_of_other_bits() {
    // Bit 3 clear reports Start pressed whatever the other bits hold.
    assert!(KeyInput(0x0000).start());
    assert!(KeyInput(0xFFF7).start());
    assert!(KeyInput(0xABC5).start());
    // Bit 3 set reports Start not pressed whatever the other bits hold.
    assert!(!KeyInput(0x0008).start());
    assert!(!KeyInput(0xFFFF).start());
    assert!(!KeyInput(0xABCD).start());
}

#[test]
fn obj_attr_scenario_fields_re_extract() {
    let a = ObjAttr::new().with_size(1).with_tile(1).with_x(10).with_y(23);
    assert_eq!(a.size(), 1);
    assert_eq!(a.tile(), 1);
    assert_eq!(a.x(), 10);
    assert_eq!(a.y(), 23);
}

#[test]
fn obj_attr_build_order_does_not_matter() {
    let forward = ObjAttr::new().with_size(1).with_tile(1).with_x(10).with_y(23);
    let backward = ObjAttr::new().with_y(23).with_x(10).with_tile(1).with_size(1);
    let mixed = ObjAttr::new().with_x(10).with_size(1).with_y(23).with_tile(1);
    assert!(forward == backward);
    assert!(forward == mixed);
    assert_eq!(backward.size(), 1);
    assert_eq!(backward.tile(), 1);
    assert_eq!(backward.x(), 10);
    assert_eq!(backward.y(), 23);
}

#[test]
fn obj_attr_wide_and_negative_values_are_masked() {
    // A negative coordinate wraps to its two's-complement bits and keeps
    // only the field's low bits.
    assert_eq!(ObjAttr1::new().with_x(-1).x(), 0x3FF);
    assert_eq!(ObjAttr0::new().with_y(-1).y(), 0xFF);
    // A size wider than two bits is masked down.
    assert_eq!(ObjAttr1::new().with_size(5).size(), 1);
    // A tile index wider than ten bits is masked down.
    assert_eq!(ObjAttr2::new().with_tile(0xFFFF).tile(), 0x3FF);
}

#[test]
fn obj_attr_builders_leave_other_values_alone() {
    let a = ObjAttr::new().with_x(37);
    assert_eq!(a.0.0, 0);
    assert_eq!(a.2.0, 0);
    let b = a.with_tile(9);
    assert_eq!(b.1.0, a.1.0);
    assert_eq!(b.0.0, 0);
}

#[test]
fn handled_interrupt_sources_are_enabled_and_flagged() {
    assert_eq!(handled_interrupt_sources(0b1010, 0b0110), 0b0010);
    assert_eq!(handled_interrupt_sources(0, 0xFFFF), 0);
    assert_eq!(handled_interrupt_sources(0xFFFF, 0x0081), 0x0081);
}
