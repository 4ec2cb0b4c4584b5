//! The configuration snapshot the decision engine reads. It is refreshed by
//! the caller once per tick and never mutated during an evaluation.

use vstd::prelude::*;

verus! {

/// All user-facing options, as one flat snapshot.
#[derive(Clone, Copy, Debug, PartialEq, Eq, Structural)]
pub struct Settings {
    /// Reset on the main menu.
    pub reset_on_main_menu: bool,
    /// Split after every level.
    pub split_after_level: bool,
    /// IW mode.
    pub iw_mode: bool,
    /// IW mode - only start on the first level of a world.
    pub iw_mode_split_on_first_level: bool,
    /// Dark ending mode.
    pub dark_ending: bool,
    /// Split when entering boss 1.
    pub split_before_boss_1: bool,
    /// Split when entering boss 2.
    pub split_before_boss_2: bool,
    /// Split when entering boss 3.
    pub split_before_boss_3: bool,
    /// Split when entering boss 4.
    pub split_before_boss_4: bool,
    /// Split when entering boss 5.
    pub split_before_boss_5: bool,
    /// Split when entering boss 6.
    pub split_before_boss_6: bool,
    /// Death count display.
    pub death_counter: bool,
    /// Freeze the death counter when the run ends.
    pub freeze_death_counter_on_finish: bool,
    /// Last IL time display.
    pub level_time: bool,
}

/// Which worlds ask for a split when their boss level is entered.
pub open spec fn spec_split_before_boss(s: Settings, boss_index: u8) -> bool {
    if boss_index == 1 {
        s.split_before_boss_1
    } else if boss_index == 2 {
        s.split_before_boss_2
    } else if boss_index == 3 {
        s.split_before_boss_3
    } else if boss_index == 4 {
        s.split_before_boss_4
    } else if boss_index == 5 {
        s.split_before_boss_5
    } else if boss_index == 6 {
        s.split_before_boss_6
    } else {
        false
    }
}

impl Settings {
    /// The defaults the options start from before the user changes anything.
    pub fn defaults() -> (r: Settings)
        ensures
            !r.reset_on_main_menu,
            !r.split_after_level,
            !r.iw_mode,
            r.iw_mode_split_on_first_level,
            r.dark_ending,
            !r.split_before_boss_1,
            !r.split_before_boss_2,
            !r.split_before_boss_3,
            !r.split_before_boss_4,
            !r.split_before_boss_5,
            !r.split_before_boss_6,
            !r.death_counter,
            !r.freeze_death_counter_on_finish,
            r.level_time,
    {
        Settings {
            reset_on_main_menu: false,
            split_after_level: false,
            iw_mode: false,
            iw_mode_split_on_first_level: true,
            dark_ending: true,
            split_before_boss_1: false,
            split_before_boss_2: false,
            split_before_boss_3: false,
            split_before_boss_4: false,
            split_before_boss_5: false,
            split_before_boss_6: false,
            death_counter: false,
            freeze_death_counter_on_finish: false,
            level_time: true,
        }
    }

    /// The per-world boss-entrance-split option, indexed by the world the
    /// boss belongs to. Worlds outside 1 to 6 have no such option.
    pub fn split_before_boss(&self, boss_index: u8) -> (r: bool)
        ensures
            r == spec_split_before_boss(*self, boss_index),
    {
        match boss_index {
            1 => self.split_before_boss_1,
            2 => self.split_before_boss_2,
            3 => self.split_before_boss_3,
            4 => self.split_before_boss_4,
            5 => self.split_before_boss_5,
            6 => self.split_before_boss_6,
            _ => false,
        }
    }
}

} // verus!
