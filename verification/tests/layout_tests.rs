use smb_autosplitter::layout::{
    detect_build, BuildVariant, MemoryLayout, PointerWidth, MODULE_SIZE_LINUX_AMD64,
    MODULE_SIZE_WINDOWS_1_2_5, MODULE_SIZE_WINDOWS_OG,
};
use smb_autosplitter::resolve::{
    i32_from_le_bytes, pointer_from_le_4_bytes, pointer_from_le_8_bytes, resolve_begin,
    resolve_feed, u32_from_le_bytes, ResolveState,
};

#[test]
fn module_sizes_identify_the_three_builds() {
    assert_eq!(detect_build(MODULE_SIZE_WINDOWS_OG), Some(BuildVariant::WindowsOg));
    assert_eq!(detect_build(MODULE_SIZE_WINDOWS_1_2_5), Some(BuildVariant::Windows125));
    assert_eq!(detect_build(MODULE_SIZE_LINUX_AMD64), Some(BuildVariant::LinuxAmd64));
    assert_eq!(detect_build(0x34_2000), Some(BuildVariant::WindowsOg));
}

#[test]
fn unknown_module_sizes_refuse_the_attach() {
    assert_eq!(detect_build(0), None);
    assert_eq!(detect_build(0x34_2001), None);
    assert_eq!(detect_build(u64::MAX), None);
}

#[test]
fn windows_og_table_holds_the_documented_chains() {
    let m = MemoryLayout::windows_og();
    assert_eq!(m.pointer_width, PointerWidth::Bits32);
    assert_eq!(m.playing, vec![0x1b_6638]);
    assert_eq!(m.level_time, vec![0x1b_6a88]);
    assert_eq!(m.not_in_cutscene, vec![0x2d_4c6c, 0x3a0]);
    assert_eq!(m.death_count, vec![0x2d_55ac, 0x1c8c]);
    assert_eq!(m.game_state, vec![0x2d_5ea0, 0x8d4]);
    assert_eq!(m.level_type, vec![0x2d_54bc, 0x1ac]);
}

#[test]
fn windows_1_2_5_table_holds_the_documented_chains() {
    let m = MemoryLayout::windows_1_2_5();
    assert_eq!(m.pointer_width, PointerWidth::Bits32);
    assert_eq!(m.playing, vec![0x30_a1c8]);
    assert_eq!(m.level_time, vec![0x2f_6abc]);
    assert_eq!(m.in_special_level, vec![0x30_999c, 0x3a4]);
    assert_eq!(m.characters, vec![0x30_a380, 0x3950]);
    assert_eq!(m.fetus, vec![0x30_b3e4, 0x10c]);
    assert_eq!(m.level_type, vec![0x30_a1a0, 0x3c68]);
}

#[test]
fn linux_amd64_table_holds_the_documented_chains() {
    let m = MemoryLayout::linux_amd64();
    assert_eq!(m.pointer_width, PointerWidth::Bits64);
    assert_eq!(m.playing, vec![0x41_c800]);
    assert_eq!(m.world, vec![0x41_70e0]);
    assert_eq!(m.level_beaten, vec![0x41_c740]);
    assert_eq!(m.level, vec![0x41_bf10, 0xd00]);
    assert_eq!(m.level_transition, vec![0x41_bf00]);
    assert_eq!(m.level_type, vec![0x41_9c40, 0x1ce4]);
}

#[test]
fn for_build_dispatches_to_the_right_table() {
    assert_eq!(MemoryLayout::for_build(BuildVariant::WindowsOg).playing, vec![0x1b_6638]);
    assert_eq!(MemoryLayout::for_build(BuildVariant::Windows125).playing, vec![0x30_a1c8]);
    assert_eq!(MemoryLayout::for_build(BuildVariant::LinuxAmd64).playing, vec![0x41_c800]);
}

#[test]
fn single_hop_chain_asks_for_the_value_at_once() {
    let offsets = vec![0x10u64];
    assert_eq!(
        resolve_begin(0x1000, &offsets),
        ResolveState::NeedValue { address: 0x1010 }
    );
}

#[test]
fn two_hop_chain_follows_one_pointer_then_reads() {
    let offsets = vec![0x10u64, 0x20u64];
    let begun = resolve_begin(0x1000, &offsets);
    assert_eq!(begun, ResolveState::NeedPointer { address: 0x1010, next_hop: 1 });
    let fed = resolve_feed(&offsets, 1, Some(0x2000));
    assert_eq!(fed, ResolveState::NeedValue { address: 0x2020 });
}

#[test]
fn failed_pointer_read_fails_the_chain() {
    let offsets = vec![0x10u64, 0x20u64, 0x30u64];
    assert_eq!(resolve_feed(&offsets, 1, None), ResolveState::Failed);
    let moved = resolve_feed(&offsets, 1, Some(0x4000));
    assert_eq!(moved, ResolveState::NeedPointer { address: 0x4020, next_hop: 2 });
    assert_eq!(resolve_feed(&offsets, 2, None), ResolveState::Failed);
}

#[test]
fn hop_addresses_wrap_instead_of_overflowing() {
    let offsets = vec![2u64];
    assert_eq!(
        resolve_begin(u64::MAX, &offsets),
        ResolveState::NeedValue { address: 1 }
    );
}

#[test]
fn le_bytes_spell_the_sentinel_bits() {
    assert_eq!(u32_from_le_bytes(&[0x20, 0xbc, 0xbe, 0x4c]), 1e8f32.to_bits());
    assert_eq!(u32_from_le_bytes(&[0, 0, 0, 0]), 0);
    assert_eq!(u32_from_le_bytes(&[0xff, 0xff, 0xff, 0xff]), u32::MAX);
}

#[test]
fn signed_words_decode_in_twos_complement() {
    assert_eq!(i32_from_le_bytes(&[0xff, 0xff, 0xff, 0xff]), -1);
    assert_eq!(i32_from_le_bytes(&[0x2a, 0, 0, 0]), 42);
    assert_eq!(i32_from_le_bytes(&[0, 0, 0, 0x80]), i32::MIN);
}

#[test]
fn pointers_decode_by_width() {
    assert_eq!(pointer_from_le_4_bytes(&[0x78, 0x56, 0x34, 0x12]), 0x1234_5678);
    assert_eq!(
        pointer_from_le_8_bytes(&[0xef, 0xcd, 0xab, 0x89, 0x67, 0x45, 0x23, 0x01]),
        0x0123_4567_89ab_cdef
    );
    assert_eq!(pointer_from_le_8_bytes(&[0xff; 8]), u64::MAX);
}
