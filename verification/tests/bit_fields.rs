use gba_runtime::u16_get_bit;
use gba_runtime::u16_get_value;
use gba_runtime::u16_with_bit;
use gba_runtime::u16_with_value;

#[test]
fn with_value_round_trips_masked() {
    // An in-range value comes back exactly.
    assert_eq!(u16_get_value(4, 7, u16_with_value(4, 7, 0xFFFF, 0x5)), 0x5);
    // A wider value is masked down: five bits into a four-bit field keep
    // only the low four bits.
    assert_eq!(u16_get_value(4, 7, u16_with_value(4, 7, 0, 0x1F)), 0xF);
    // A full-width field passes the value through whole.
    assert_eq!(u16_get_value(0, 15, u16_with_value(0, 15, 0xAAAA, 0x1234)), 0x1234);
    // A one-bit field keeps one bit.
    assert_eq!(u16_get_value(9, 9, u16_with_value(9, 9, 0, 3)), 1);
}

#[test]
fn with_value_leaves_outside_bits_unchanged() {
    assert_eq!(u16_with_value(4, 7, 0xFFFF, 0), 0xFF0F);
    assert_eq!(u16_with_value(0, 0, 0x8000, 1), 0x8001);
    assert_eq!(u16_with_value(14, 15, 0x1234, 0), 0x1234);
}

#[test]
fn with_bit_round_trips() {
    let mut pos: u16 = 0;
    while pos < 16 {
        assert!(u16_get_bit(pos, u16_with_bit(pos, 0, true)));
        assert!(!u16_get_bit(pos, u16_with_bit(pos, 0xFFFF, false)));
        pos += 1;
    }
}

#[test]
fn with_bit_leaves_other_bits_unchanged() {
    assert_eq!(u16_with_bit(3, 0xFFFF, false), 0xFFF7);
    assert_eq!(u16_with_bit(3, 0x0000, true), 0x0008);
    assert_eq!(u16_with_bit(15, 0x00FF, true), 0x80FF);
}

#[test]
fn bit_ops_match_bitfrob() {
    let samples: [u16; 6] = [0, 1, 0x00FF, 0x1040, 0xABCD, 0xFFFF];
    for &u in &samples {
        let mut pos: u16 = 0;
        while pos < 16 {
            assert_eq!(u16_get_bit(pos, u), bitfrob::u16_get_bit(pos as u32, u));
            assert_eq!(u16_with_bit(pos, u, true), bitfrob::u16_with_bit(pos as u32, u, true));
            assert_eq!(u16_with_bit(pos, u, false), bitfrob::u16_with_bit(pos as u32, u, false));
            pos += 1;
        }
    }
}

#[test]
fn field_ops_match_bitfrob() {
    let samples: [u16; 6] = [0, 1, 0x00FF, 0x1040, 0xABCD, 0xFFFF];
    let fields: [(u16, u16); 7] = [(0, 7), (0, 9), (14, 15), (0, 15), (5, 9), (10, 14), (3, 3)];
    for &u in &samples {
        for &(low, high) in &fields {
            assert_eq!(
                u16_get_value(low, high, u),
                bitfrob::u16_get_value(low as u32, high as u32, u)
            );
            for &value in &samples {
                assert_eq!(
                    u16_with_value(low, high, u, value),
                    bitfrob::u16_with_value(low as u32, high as u32, u, value)
                );
            }
        }
    }
}
