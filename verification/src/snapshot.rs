//! The full set of tracked quantities observed in the game process, and the
//! per-tick update that feeds fresh samples into them. A field whose read
//! failed this tick contributes no sample and its tracker stays untouched.

use crate::game::GameState;
use crate::tracker::{spec_updated, TrackedQuantity};
use vstd::prelude::*;

verus! {

/// One tracker per logical field of the game process. The per-level timer
/// and the end-of-run flag field are kept as the raw bit patterns of the
/// observed words, so sentinel comparisons are strictly bitwise.
#[derive(Clone, Copy, Debug, PartialEq, Eq, Structural)]
pub struct GameSnapshot {
    pub playing: TrackedQuantity<u8>,
    pub level_time: TrackedQuantity<u32>,
    pub world: TrackedQuantity<u8>,
    pub not_in_cutscene: TrackedQuantity<u8>,
    pub in_special_level: TrackedQuantity<u8>,
    pub level_beaten: TrackedQuantity<u8>,
    pub death_count: TrackedQuantity<i32>,
    pub characters: TrackedQuantity<i32>,
    pub level: TrackedQuantity<u8>,
    pub game_state: TrackedQuantity<GameState>,
    pub level_transition: TrackedQuantity<u8>,
    pub fetus: TrackedQuantity<u32>,
    pub level_type: TrackedQuantity<i32>,
}

/// The samples one polling pass produced: `None` where the field's chain
/// failed to resolve this tick.
#[derive(Clone, Copy, Debug, PartialEq, Eq, Structural)]
pub struct FieldSamples {
    pub playing: Option<u8>,
    pub level_time: Option<u32>,
    pub world: Option<u8>,
    pub not_in_cutscene: Option<u8>,
    pub in_special_level: Option<u8>,
    pub level_beaten: Option<u8>,
    pub death_count: Option<i32>,
    pub characters: Option<i32>,
    pub level: Option<u8>,
    pub game_state: Option<GameState>,
    pub level_transition: Option<u8>,
    pub fetus: Option<u32>,
    pub level_type: Option<i32>,
}

/// The tracker after one polling pass: updated by the sample if the read
/// succeeded, identical to before if it failed.
pub open spec fn spec_applied<T>(t: TrackedQuantity<T>, sample: Option<T>) -> TrackedQuantity<T> {
    match sample {
        Some(v) => spec_updated(t, v),
        None => t,
    }
}

impl GameSnapshot {
    /// The snapshot right after an attach, before any successful read: the
    /// numeric fields hold zero in both slots and the discrete state holds
    /// the title screen.
    pub fn new() -> (r: GameSnapshot)
        ensures
            r == spec_initial_snapshot(),
    {
        GameSnapshot {
            playing: TrackedQuantity::new(0u8),
            level_time: TrackedQuantity::new(0u32),
            world: TrackedQuantity::new(0u8),
            not_in_cutscene: TrackedQuantity::new(0u8),
            in_special_level: TrackedQuantity::new(0u8),
            level_beaten: TrackedQuantity::new(0u8),
            death_count: TrackedQuantity::new(0i32),
            characters: TrackedQuantity::new(0i32),
            level: TrackedQuantity::new(0u8),
            game_state: TrackedQuantity::new(GameState::TitleScreen),
            level_transition: TrackedQuantity::new(0u8),
            fetus: TrackedQuantity::new(0u32),
            level_type: TrackedQuantity::new(0i32),
        }
    }

    /// Feeds one polling pass into the trackers. Each field with a sample is
    /// shifted; each field without one keeps both of its slots exactly as
    /// they were after the previous tick.
    #[verifier::rlimit(60)]
    pub fn apply_samples(&mut self, samples: &FieldSamples)
        ensures
            final(self).playing == spec_applied(old(self).playing, samples.playing),
            final(self).level_time == spec_applied(old(self).level_time, samples.level_time),
            final(self).world == spec_applied(old(self).world, samples.world),
            final(self).not_in_cutscene == spec_applied(
                old(self).not_in_cutscene,
                samples.not_in_cutscene,
            ),
            final(self).in_special_level == spec_applied(
                old(self).in_special_level,
                samples.in_special_level,
            ),
            final(self).level_beaten == spec_applied(old(self).level_beaten, samples.level_beaten),
            final(self).death_count == spec_applied(old(self).death_count, samples.death_count),
            final(self).characters == spec_applied(old(self).characters, samples.characters),
            final(self).level == spec_applied(old(self).level, samples.level),
            final(self).game_state == spec_applied(old(self).game_state, samples.game_state),
            final(self).level_transition == spec_applied(
                old(self).level_transition,
                samples.level_transition,
            ),
            final(self).fetus == spec_applied(old(self).fetus, samples.fetus),
            final(self).level_type == spec_applied(old(self).level_type, samples.level_type),
    {
        if let Some(v) = samples.playing {
            self.playing.update(v);
        }
        if let Some(v) = samples.level_time {
            self.level_time.update(v);
        }
        if let Some(v) = samples.world {
            self.world.update(v);
        }
        if let Some(v) = samples.not_in_cutscene {
            self.not_in_cutscene.update(v);
        }
        if let Some(v) = samples.in_special_level {
            self.in_special_level.update(v);
        }
        if let Some(v) = samples.level_beaten {
            self.level_beaten.update(v);
        }
        if let Some(v) = samples.death_count {
            self.death_count.update(v);
        }
        if let Some(v) = samples.characters {
            self.characters.update(v);
        }
        if let Some(v) = samples.level {
            self.level.update(v);
        }
        if let Some(v) = samples.game_state {
            self.game_state.update(v);
        }
        if let Some(v) = samples.level_transition {
            self.level_transition.update(v);
        }
        if let Some(v) = samples.fetus {
            self.fetus.update(v);
        }
        if let Some(v) = samples.level_type {
            self.level_type.update(v);
        }
    }
}

/// The snapshot `GameSnapshot::new` returns.
pub open spec fn spec_initial_snapshot() -> GameSnapshot {
    GameSnapshot {
        playing: TrackedQuantity { previous: 0u8, current: 0u8 },
        level_time: TrackedQuantity { previous: 0u32, current: 0u32 },
        world: TrackedQuantity { previous: 0u8, current: 0u8 },
        not_in_cutscene: TrackedQuantity { previous: 0u8, current: 0u8 },
        in_special_level: TrackedQuantity { previous: 0u8, current: 0u8 },
        level_beaten: TrackedQuantity { previous: 0u8, current: 0u8 },
        death_count: TrackedQuantity { previous: 0i32, current: 0i32 },
        characters: TrackedQuantity { previous: 0i32, current: 0i32 },
        level: TrackedQuantity { previous: 0u8, current: 0u8 },
        game_state: TrackedQuantity {
            previous: GameState::TitleScreen,
            current: GameState::TitleScreen,
        },
        level_transition: TrackedQuantity { previous: 0u8, current: 0u8 },
        fetus: TrackedQuantity { previous: 0u32, current: 0u32 },
        level_type: TrackedQuantity { previous: 0i32, current: 0i32 },
    }
}

/// Law of failed reads: a polling pass in which no field produced a sample
/// leaves the whole snapshot exactly as it was.
pub proof fn lemma_failed_reads_leave_snapshot_unchanged(s: GameSnapshot, samples: FieldSamples)
    requires
        samples.playing is None,
        samples.level_time is None,
        samples.world is None,
        samples.not_in_cutscene is None,
        samples.in_special_level is None,
        samples.level_beaten is None,
        samples.death_count is None,
        samples.characters is None,
        samples.level is None,
        samples.game_state is None,
        samples.level_transition is None,
        samples.fetus is None,
        samples.level_type is None,
    ensures
        spec_applied(s.playing, samples.playing) == s.playing,
        spec_applied(s.level_time, samples.level_time) == s.level_time,
        spec_applied(s.world, samples.world) == s.world,
        spec_applied(s.not_in_cutscene, samples.not_in_cutscene) == s.not_in_cutscene,
        spec_applied(s.in_special_level, samples.in_special_level) == s.in_special_level,
        spec_applied(s.level_beaten, samples.level_beaten) == s.level_beaten,
        spec_applied(s.death_count, samples.death_count) == s.death_count,
        spec_applied(s.characters, samples.characters) == s.characters,
        spec_applied(s.level, samples.level) == s.level,
        spec_applied(s.game_state, samples.game_state) == s.game_state,
        spec_applied(s.level_transition, samples.level_transition) == s.level_transition,
        spec_applied(s.fetus, samples.fetus) == s.fetus,
        spec_applied(s.level_type, samples.level_type) == s.level_type,
{
}

} // verus!
