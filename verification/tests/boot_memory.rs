use gba_runtime::boot::boot_prepare_memory;
use gba_runtime::boot::clear_boot_words;
use gba_runtime::boot::copy_boot_words;

#[test]
fn copy_moves_whole_words_in_order() {
    let src = vec![1u32, 2, 3, 4];
    let mut dest = vec![0u32; 6];
    copy_boot_words(&mut dest, &src, 16);
    assert_eq!(dest, vec![1, 2, 3, 4, 0, 0]);
}

#[test]
fn copy_stops_below_one_whole_word() {
    // 14 bytes: three whole words move, the trailing partial word does not.
    let src = vec![10u32, 20, 30, 40];
    let mut dest = vec![9u32; 4];
    copy_boot_words(&mut dest, &src, 14);
    assert_eq!(dest, vec![10, 20, 30, 9]);
}

#[test]
fn copy_of_less_than_a_word_does_nothing() {
    let src = vec![10u32, 20];
    let mut dest = vec![7u32; 2];
    copy_boot_words(&mut dest, &src, 3);
    assert_eq!(dest, vec![7, 7]);
    copy_boot_words(&mut dest, &src, 0);
    assert_eq!(dest, vec![7, 7]);
}

#[test]
fn clear_zeroes_exactly_the_counted_words() {
    let mut dest = vec![0xFFFF_FFFFu32; 5];
    clear_boot_words(&mut dest, 12);
    assert_eq!(dest, vec![0, 0, 0, 0xFFFF_FFFF, 0xFFFF_FFFF]);
}

#[test]
fn clear_stops_below_one_whole_word() {
    // 7 bytes: one whole word is cleared, the rest is untouched.
    let mut dest = vec![5u32; 3];
    clear_boot_words(&mut dest, 7);
    assert_eq!(dest, vec![0, 5, 5]);
    // Fewer than 4 bytes: nothing is cleared.
    let mut d2 = vec![5u32; 3];
    clear_boot_words(&mut d2, 3);
    assert_eq!(d2, vec![5, 5, 5]);
}

#[test]
fn boot_pass_prepares_all_three_regions() {
    let iwram_rom = vec![0xAAu32, 0xBB];
    let ewram_rom = vec![0x11u32, 0x22, 0x33];
    let mut iwram = vec![0u32; 3];
    let mut ewram = vec![0u32; 3];
    let mut bss = vec![0xDDu32; 4];
    boot_prepare_memory(
        &mut iwram,
        &iwram_rom,
        8,
        &mut ewram,
        &ewram_rom,
        12,
        &mut bss,
        8,
    );
    assert_eq!(iwram, vec![0xAA, 0xBB, 0]);
    assert_eq!(ewram, vec![0x11, 0x22, 0x33]);
    assert_eq!(bss, vec![0, 0, 0xDD, 0xDD]);
}
