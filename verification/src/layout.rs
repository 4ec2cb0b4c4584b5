//! Per-build memory layouts: the closed set of recognized builds, selected
//! once at attach time by the loaded module's size, and the ordered pointer
//! chain of every logical field. A chain is a list of byte offsets walked
//! from the module base: all but the last offset locate a pointer to follow,
//! the last locates the field's own bytes.

use vstd::prelude::*;

verus! {

/// Module size of the original Windows build.
pub const MODULE_SIZE_WINDOWS_OG: u64 = 0x34_2000;

/// Module size of the Windows 1.2.5 build.
pub const MODULE_SIZE_WINDOWS_1_2_5: u64 = 0x33_c000;

/// Module size of the 64-bit Linux build.
pub const MODULE_SIZE_LINUX_AMD64: u64 = 0x21_9000;

/// The closed set of recognized builds.
#[derive(Clone, Copy, Debug, PartialEq, Eq, Structural)]
pub enum BuildVariant {
    WindowsOg,
    Windows125,
    LinuxAmd64,
}

/// The size of the pointers a build's chains follow.
#[derive(Clone, Copy, Debug, PartialEq, Eq, Structural)]
pub enum PointerWidth {
    Bits32,
    Bits64,
}

/// The build a module size fingerprint identifies, if any.
pub open spec fn spec_build_of_module_size(module_size: u64) -> Option<BuildVariant> {
    if module_size == MODULE_SIZE_WINDOWS_OG {
        Some(BuildVariant::WindowsOg)
    } else if module_size == MODULE_SIZE_WINDOWS_1_2_5 {
        Some(BuildVariant::Windows125)
    } else if module_size == MODULE_SIZE_LINUX_AMD64 {
        Some(BuildVariant::LinuxAmd64)
    } else {
        None
    }
}

/// Selects the build from the coarse size fingerprint of the loaded game
/// module. An unrecognized fingerprint means the whole attach attempt must
/// be abandoned.
pub fn detect_build(module_size: u64) -> (r: Option<BuildVariant>)
    ensures
        r == spec_build_of_module_size(module_size),
{
    match module_size {
        MODULE_SIZE_WINDOWS_OG => Some(BuildVariant::WindowsOg),
        MODULE_SIZE_WINDOWS_1_2_5 => Some(BuildVariant::Windows125),
        MODULE_SIZE_LINUX_AMD64 => Some(BuildVariant::LinuxAmd64),
        _ => None,
    }
}

/// The pointer chains of one build, one per logical field, in the fixed
/// order the polling pass walks them. All chains of a build follow pointers
/// of the same width.
pub struct MemoryLayout {
    pub pointer_width: PointerWidth,
    pub playing: Vec<u64>,
    pub level_time: Vec<u64>,
    pub world: Vec<u64>,
    pub not_in_cutscene: Vec<u64>,
    pub in_special_level: Vec<u64>,
    pub level_beaten: Vec<u64>,
    pub death_count: Vec<u64>,
    pub characters: Vec<u64>,
    pub level: Vec<u64>,
    pub game_state: Vec<u64>,
    pub level_transition: Vec<u64>,
    pub fetus: Vec<u64>,
    pub level_type: Vec<u64>,
}

/// Every chain of a well-formed layout has at least one offset, so a
/// resolution always has a final read to make.
pub open spec fn spec_layout_well_formed(m: MemoryLayout) -> bool {
    &&& m.playing@.len() >= 1
    &&& m.level_time@.len() >= 1
    &&& m.world@.len() >= 1
    &&& m.not_in_cutscene@.len() >= 1
    &&& m.in_special_level@.len() >= 1
    &&& m.level_beaten@.len() >= 1
    &&& m.death_count@.len() >= 1
    &&& m.characters@.len() >= 1
    &&& m.level@.len() >= 1
    &&& m.game_state@.len() >= 1
    &&& m.level_transition@.len() >= 1
    &&& m.fetus@.len() >= 1
    &&& m.level_type@.len() >= 1
}

/// The whole offset table of the original Windows build.
pub open spec fn spec_is_windows_og_layout(m: MemoryLayout) -> bool {
    &&& m.pointer_width == PointerWidth::Bits32
    &&& m.playing@ =~= seq![0x1b_6638u64]
    &&& m.level_time@ =~= seq![0x1b_6a88u64]
    &&& m.world@ =~= seq![0x1b_7cbcu64]
    &&& m.not_in_cutscene@ =~= seq![0x2d_4c6cu64, 0x3a0u64]
    &&& m.in_special_level@ =~= seq![0x2d_4c6cu64, 0x3a4u64]
    &&& m.level_beaten@ =~= seq![0x2d_54a0u64]
    &&& m.death_count@ =~= seq![0x2d_55acu64, 0x1c8cu64]
    &&& m.characters@ =~= seq![0x2d_55acu64, 0x1d24u64]
    &&& m.level@ =~= seq![0x2d_5ea0u64, 0x8d0u64]
    &&& m.game_state@ =~= seq![0x2d_5ea0u64, 0x8d4u64]
    &&& m.level_transition@ =~= seq![0x2d_5ea8u64]
    &&& m.fetus@ =~= seq![0x2d_64bcu64, 0x10cu64]
    &&& m.level_type@ =~= seq![0x2d_54bcu64, 0x1acu64]
}

/// The whole offset table of the Windows 1.2.5 build.
pub open spec fn spec_is_windows_1_2_5_layout(m: MemoryLayout) -> bool {
    &&& m.pointer_width == PointerWidth::Bits32
    &&& m.playing@ =~= seq![0x30_a1c8u64]
    &&& m.level_time@ =~= seq![0x2f_6abcu64]
    &&& m.world@ =~= seq![0x2f_79acu64]
    &&& m.not_in_cutscene@ =~= seq![0x30_999cu64, 0x3a8u64]
    &&& m.in_special_level@ =~= seq![0x30_999cu64, 0x3a4u64]
    &&& m.level_beaten@ =~= seq![0x30_a1e0u64]
    &&& m.death_count@ =~= seq![0x30_a380u64, 0x38acu64]
    &&& m.characters@ =~= seq![0x30_a380u64, 0x3950u64]
    &&& m.level@ =~= seq![0x30_ac90u64, 0x8dcu64]
    &&& m.game_state@ =~= seq![0x30_ac90u64, 0x8e0u64]
    &&& m.level_transition@ =~= seq![0x30_ad00u64]
    &&& m.fetus@ =~= seq![0x30_b3e4u64, 0x10cu64]
    &&& m.level_type@ =~= seq![0x30_a1a0u64, 0x3c68u64]
}

/// The whole offset table of the 64-bit Linux build.
pub open spec fn spec_is_linux_amd64_layout(m: MemoryLayout) -> bool {
    &&& m.pointer_width == PointerWidth::Bits64
    &&& m.playing@ =~= seq![0x41_c800u64]
    &&& m.level_time@ =~= seq![0x41_9c34u64]
    &&& m.world@ =~= seq![0x41_70e0u64]
    &&& m.not_in_cutscene@ =~= seq![0x41_9de0u64, 0x454u64]
    &&& m.in_special_level@ =~= seq![0x41_9de0u64, 0x460u64]
    &&& m.level_beaten@ =~= seq![0x41_c740u64]
    &&& m.death_count@ =~= seq![0x41_9c40u64, 0x1cd0u64]
    &&& m.characters@ =~= seq![0x41_9c40u64, 0x1d68u64]
    &&& m.level@ =~= seq![0x41_bf10u64, 0xd00u64]
    &&& m.game_state@ =~= seq![0x41_bf10u64, 0xd04u64]
    &&& m.level_transition@ =~= seq![0x41_bf00u64]
    &&& m.fetus@ =~= seq![0x41_98a0u64, 0x170u64]
    &&& m.level_type@ =~= seq![0x41_9c40u64, 0x1ce4u64]
}

/// The table a recognized build resolves its fields through.
pub open spec fn spec_is_layout_of(build: BuildVariant, m: MemoryLayout) -> bool {
    match build {
        BuildVariant::WindowsOg => spec_is_windows_og_layout(m),
        BuildVariant::Windows125 => spec_is_windows_1_2_5_layout(m),
        BuildVariant::LinuxAmd64 => spec_is_linux_amd64_layout(m),
    }
}

impl MemoryLayout {
    /// The hand-verified offset table of the original Windows build.
    pub fn windows_og() -> (r: MemoryLayout)
        ensures
            spec_is_windows_og_layout(r),
            spec_layout_well_formed(r),
    {
        MemoryLayout {
            pointer_width: PointerWidth::Bits32,
            playing: vec![0x1b_6638u64],
            level_time: vec![0x1b_6a88u64],
            world: vec![0x1b_7cbcu64],
            not_in_cutscene: vec![0x2d_4c6cu64, 0x3a0u64],
            in_special_level: vec![0x2d_4c6cu64, 0x3a4u64],
            level_beaten: vec![0x2d_54a0u64],
            death_count: vec![0x2d_55acu64, 0x1c8cu64],
            characters: vec![0x2d_55acu64, 0x1d24u64],
            level: vec![0x2d_5ea0u64, 0x8d0u64],
            game_state: vec![0x2d_5ea0u64, 0x8d4u64],
            level_transition: vec![0x2d_5ea8u64],
            fetus: vec![0x2d_64bcu64, 0x10cu64],
            level_type: vec![0x2d_54bcu64, 0x1acu64],
        }
    }

    /// The hand-verified offset table of the Windows 1.2.5 build.
    pub fn windows_1_2_5() -> (r: MemoryLayout)
        ensures
            spec_is_windows_1_2_5_layout(r),
            spec_layout_well_formed(r),
    {
        MemoryLayout {
            pointer_width: PointerWidth::Bits32,
            playing: vec![0x30_a1c8u64],
            level_time: vec![0x2f_6abcu64],
            world: vec![0x2f_79acu64],
            not_in_cutscene: vec![0x30_999cu64, 0x3a8u64],
            in_special_level: vec![0x30_999cu64, 0x3a4u64],
            level_beaten: vec![0x30_a1e0u64],
            death_count: vec![0x30_a380u64, 0x38acu64],
            characters: vec![0x30_a380u64, 0x3950u64],
            level: vec![0x30_ac90u64, 0x8dcu64],
            game_state: vec![0x30_ac90u64, 0x8e0u64],
            level_transition: vec![0x30_ad00u64],
            fetus: vec![0x30_b3e4u64, 0x10cu64],
            level_type: vec![0x30_a1a0u64, 0x3c68u64],
        }
    }

    /// The hand-verified offset table of the 64-bit Linux build.
    pub fn linux_amd64() -> (r: MemoryLayout)
        ensures
            spec_is_linux_amd64_layout(r),
            spec_layout_well_formed(r),
    {
        MemoryLayout {
            pointer_width: PointerWidth::Bits64,
            playing: vec![0x41_c800u64],
            level_time: vec![0x41_9c34u64],
            world: vec![0x41_70e0u64],
            not_in_cutscene: vec![0x41_9de0u64, 0x454u64],
            in_special_level: vec![0x41_9de0u64, 0x460u64],
            level_beaten: vec![0x41_c740u64],
            death_count: vec![0x41_9c40u64, 0x1cd0u64],
            characters: vec![0x41_9c40u64, 0x1d68u64],
            level: vec![0x41_bf10u64, 0xd00u64],
            game_state: vec![0x41_bf10u64, 0xd04u64],
            level_transition: vec![0x41_bf00u64],
            fetus: vec![0x41_98a0u64, 0x170u64],
            level_type: vec![0x41_9c40u64, 0x1ce4u64],
        }
    }

    /// The offset table of a recognized build.
    pub fn for_build(build: BuildVariant) -> (r: MemoryLayout)
        ensures
            spec_is_layout_of(build, r),
            spec_layout_well_formed(r),
    {
        match build {
            BuildVariant::WindowsOg => MemoryLayout::windows_og(),
            BuildVariant::Windows125 => MemoryLayout::windows_1_2_5(),
            BuildVariant::LinuxAmd64 => MemoryLayout::linux_amd64(),
        }
    }
}

} // verus!
