//! The decision engine: a tick-driven rule evaluator over the observed game
//! values, the configuration snapshot and a small piece of carried-forward
//! state. Each tick it produces the commands the timer service should get.
//!
//! The caller drives one tick in two calls: `evaluate` with the timer phase
//! observed at the start of the tick, then — unless `evaluate` reported that
//! the reset rule fired — `observe_phase` with the phase observed after the
//! commands were issued, which catches runs started by rule or by hand.

use crate::game::{GameState, TimerPhase};
use crate::settings::{spec_split_before_boss, Settings};
use crate::snapshot::GameSnapshot;
use crate::tracker::{spec_changed_from_to, spec_changed_to};
use vstd::prelude::*;

verus! {

/// Raw bit pattern of the per-level timer's "no individual level is being
/// timed" sentinel. The game parks the field at this magic value (ten to the
/// eighth) while no level time is available, far above any reachable time.
pub const LEVEL_TIME_SENTINEL_BITS: u32 = 0x4CBE_BC20;

/// Raw value of the end-of-run bit-flag field while the final cutscene runs.
pub const FINAL_CUTSCENE_MARKER: u32 = 0x8000_0000;

/// Index of the last world of the main game.
pub const FINAL_WORLD: u8 = 6;

/// Level index the game reports inside any boss level.
pub const BOSS_LEVEL_INDEX: u8 = 99;

/// A command for the external timer service.
#[derive(Clone, Copy, Debug, PartialEq, Eq, Structural)]
pub enum Command {
    /// Reset the run timer.
    Reset,
    /// Start the run timer.
    Start,
    /// Split the run timer.
    Split,
    /// Publish the rebased death count as the "Deaths" display variable.
    SetDeathsDisplay { value: i32 },
    /// Publish a level time, given as the raw bits of the in-game word, as
    /// the "Last IL Time" display variable.
    SetLevelTimeDisplay { bits: u32 },
}

/// The state the engine carries from tick to tick.
#[derive(Clone, Copy, Debug, PartialEq, Eq, Structural)]
pub struct AutoSplitter {
    /// The timer phase observed at the end of the previous tick; used only
    /// to detect the not-running-to-running edge.
    pub timer_previous_phase: TimerPhase,
    /// The last seen non-sentinel per-level time (raw bits), forced back to
    /// the sentinel when the level timer goes inactive again.
    pub level_time: u32,
    /// Subtracted from the raw in-game death counter so the displayed count
    /// starts at zero for the current attempt.
    pub death_count_offset: i32,
}

/// Whether the timer phase allows the reset rule to be evaluated.
pub open spec fn spec_timer_resettable(phase: TimerPhase) -> bool {
    phase == TimerPhase::Running || phase == TimerPhase::Paused
}

/// Whether the death-counter display is held still: the freeze option is on
/// and the run has ended.
pub open spec fn spec_death_counter_frozen(c: Settings, phase: TimerPhase) -> bool {
    c.freeze_death_counter_on_finish && phase == TimerPhase::Ended
}

/// The value the death-counter display shows: the raw counter rebased by the
/// carried offset (wrapping on out-of-range inputs, which a real counter
/// never produces).
pub open spec fn spec_deaths_display_value(raw: i32, offset: i32) -> i32 {
    vstd::wrapping::i32_specs::wrapping_sub(raw, offset)
}

/// Bookkeeping: whether this tick publishes the death counter — the display
/// is enabled, not frozen, and the raw counter increased.
pub open spec fn spec_deaths_display_fires(s: GameSnapshot, c: Settings, phase: TimerPhase) -> bool {
    c.death_counter && !spec_death_counter_frozen(c, phase) && s.death_count.current
        > s.death_count.previous
}

/// Bookkeeping: whether this tick publishes a last-individual-level time —
/// the display is enabled and the raw field's bits moved off the sentinel.
/// The field can momentarily read as zero right at that transition; the zero
/// is published as-is.
pub open spec fn spec_level_time_display_fires(s: GameSnapshot, c: Settings) -> bool {
    c.level_time && s.level_time.current != LEVEL_TIME_SENTINEL_BITS
}

/// Bookkeeping: the internally carried level time after this tick. It takes
/// the raw field whenever that is off the sentinel, and is forced back to
/// the sentinel when the level is beaten, play stops or a cutscene begins.
pub open spec fn spec_tracked_level_time_after(carried: u32, s: GameSnapshot) -> u32 {
    let seen = if s.level_time.current != LEVEL_TIME_SENTINEL_BITS {
        s.level_time.current
    } else {
        carried
    };
    if spec_changed_from_to(s.level_beaten, 0u8, 1u8) || s.playing.current == 0
        || s.not_in_cutscene.current == 0 {
        LEVEL_TIME_SENTINEL_BITS
    } else {
        seen
    }
}

/// Reset rule: the title screen always resets; the main menu resets when the
/// option asks for it.
pub open spec fn spec_should_reset(s: GameSnapshot, c: Settings) -> bool {
    s.game_state.current == GameState::TitleScreen || (c.reset_on_main_menu
        && s.game_state.current == GameState::MainMenu)
}

/// Split rule: a boss was completed — play continues, the cutscene flag
/// dropped, the level index is the boss sentinel, and this is not the final
/// world (unless every level splits).
pub open spec fn spec_boss_completion_split(s: GameSnapshot, c: Settings) -> bool {
    s.game_state.current == GameState::Playing && spec_changed_from_to(
        s.not_in_cutscene,
        1u8,
        0u8,
    ) && (s.world.current != FINAL_WORLD || c.split_after_level) && s.level.current
        == BOSS_LEVEL_INDEX
}

/// Split rule: the end-of-run bit-flag field just became the final-cutscene
/// marker, and the dark-ending condition does not claim the run instead
/// (unless every level splits).
pub open spec fn spec_final_cutscene_split(s: GameSnapshot, c: Settings) -> bool {
    spec_changed_to(s.fetus, FINAL_CUTSCENE_MARKER) && (!(s.level_type.current == 0
        && c.dark_ending) || c.split_after_level)
}

/// Split rules that exist only when "split after every level" is enabled:
/// the level-beaten flag rose; or a level transition began during play with
/// a level time seen (or play only just begun); or the level-type code moved
/// from an ordinary level into the boss-encounter range; or it returned to
/// an ordinary level from one of two known exits while a level time shows.
pub open spec fn spec_il_split(s: GameSnapshot, c: Settings, tracked_level_time: u32) -> bool {
    c.split_after_level && (spec_changed_from_to(s.level_beaten, 0u8, 1u8) || (
    spec_changed_from_to(s.level_transition, 0u8, 1u8) && s.game_state.current
        == GameState::Playing && (tracked_level_time != LEVEL_TIME_SENTINEL_BITS
        || s.playing.previous == 0)) || (s.game_state.current == GameState::Playing
        && (s.level_type.previous == 0 || s.level_type.previous == 1) && 2 <= s.level_type.current
        <= 5) || ((s.level_type.current == 0 || s.level_type.current == 1) && ((
    s.level_type.previous >= 2 && s.level.previous == 2) || (s.level_type.previous == 6
        && s.level.previous == 0)) && s.level_time.current != LEVEL_TIME_SENTINEL_BITS))
}

/// Split rule: the per-world boss-entrance option is on for the current
/// world, a level is being entered, and the special-level flag rose.
pub open spec fn spec_boss_entrance_split(s: GameSnapshot, c: Settings) -> bool {
    spec_split_before_boss(c, s.world.current) && s.game_state.current == GameState::EnteringLevel
        && spec_changed_from_to(s.in_special_level, 0u8, 1u8)
}

/// Split rule: in IW mode, the run's last level just posted a time — the
/// final world's boss or the fixed end-of-game level, play was on, and the
/// raw level time moved off the sentinel this tick.
pub open spec fn spec_iw_ending_split(s: GameSnapshot, c: Settings) -> bool {
    c.iw_mode && ((s.world.current == FINAL_WORLD && s.level.current == 4) || s.level.current
        == 19) && s.playing.previous == 1 && s.level_time.previous == LEVEL_TIME_SENTINEL_BITS
        && s.level_time.current != LEVEL_TIME_SENTINEL_BITS
}

/// Split rule: with the dark-ending option on (and per-level splits off),
/// play fell back to the boss-unlocking level selection in a non-final world.
pub open spec fn spec_dark_ending_split(s: GameSnapshot, c: Settings) -> bool {
    c.dark_ending && !c.split_after_level && spec_changed_from_to(
        s.game_state,
        GameState::Playing,
        GameState::LevelSelectionWithBossUnlocking,
    ) && 1 <= s.world.current <= 5
}

/// The whole split rule: any one firing condition yields one split command.
pub open spec fn spec_should_split(s: GameSnapshot, c: Settings, tracked_level_time: u32) -> bool {
    ||| spec_boss_completion_split(s, c)
    ||| spec_final_cutscene_split(s, c)
    ||| spec_il_split(s, c, tracked_level_time)
    ||| spec_boss_entrance_split(s, c)
    ||| spec_iw_ending_split(s, c)
    ||| spec_dark_ending_split(s, c)
}

/// Start rule: in normal mode the chapter selection is being entered; in IW
/// mode a character was just picked (with more than one available) or a
/// level entry began (with one character, or in a bonus world), restricted
/// to a world's first level unless that restriction is disabled.
pub open spec fn spec_should_start(s: GameSnapshot, c: Settings) -> bool {
    ||| (!c.iw_mode && s.game_state.current == GameState::EnteringChapterSelection)
    ||| (c.iw_mode && ((s.characters.current != 1 && spec_changed_from_to(
        s.game_state,
        GameState::CharacterSelection,
        GameState::CharacterSelectionWithCharacterSelected,
    )) || ((s.characters.current == 1 || s.world.current == 6 || s.world.current == 7)
        && spec_changed_from_to(s.game_state, GameState::LevelSelection, GameState::EnteringLevel)))
        && (s.level.current == 0 || !c.iw_mode_split_on_first_level))
}

/// The display commands the bookkeeping pass of one tick emits, in order.
pub open spec fn spec_update_commands(
    e: AutoSplitter,
    s: GameSnapshot,
    c: Settings,
    phase: TimerPhase,
) -> Seq<Command> {
    let with_deaths = if spec_deaths_display_fires(s, c, phase) {
        Seq::<Command>::empty().push(
            Command::SetDeathsDisplay {
                value: spec_deaths_display_value(s.death_count.current, e.death_count_offset),
            },
        )
    } else {
        Seq::<Command>::empty()
    };
    if spec_level_time_display_fires(s, c) {
        with_deaths.push(Command::SetLevelTimeDisplay { bits: s.level_time.current })
    } else {
        with_deaths
    }
}

/// All commands one call of `evaluate` emits: the bookkeeping displays, then
/// either a reset alone, or a split and/or a start as the rules ask.
pub open spec fn spec_tick_commands(
    e: AutoSplitter,
    s: GameSnapshot,
    c: Settings,
    phase: TimerPhase,
) -> Seq<Command> {
    let upd = spec_update_commands(e, s, c, phase);
    if spec_timer_resettable(phase) && spec_should_reset(s, c) {
        upd.push(Command::Reset)
    } else {
        let carried = spec_tracked_level_time_after(e.level_time, s);
        let with_split = if spec_should_split(s, c, carried) {
            upd.push(Command::Split)
        } else {
            upd
        };
        if phase == TimerPhase::NotRunning && spec_should_start(s, c) {
            with_split.push(Command::Start)
        } else {
            with_split
        }
    }
}

/// The commands a fresh engine emits right after an attach.
pub open spec fn spec_initial_commands(s: GameSnapshot, c: Settings) -> Seq<Command> {
    let with_deaths = Seq::<Command>::empty().push(
        Command::SetDeathsDisplay { value: s.death_count.current },
    );
    if c.level_time {
        with_deaths.push(Command::SetLevelTimeDisplay { bits: 0u32 })
    } else {
        with_deaths
    }
}

/// Whether the death-counter display is held still this tick.
pub fn is_death_counter_frozen(c: &Settings, phase: TimerPhase) -> (r: bool)
    ensures
        r == spec_death_counter_frozen(*c, phase),
{
    c.freeze_death_counter_on_finish && phase == TimerPhase::Ended
}

/// Whether the last-individual-level-time display is enabled.
pub fn is_level_time_display_active(c: &Settings) -> (r: bool)
    ensures
        r == c.level_time,
{
    c.level_time
}

impl AutoSplitter {
    /// A fresh engine for a newly attached process, together with the
    /// commands that initialize the display variables.
    pub fn new(s: &GameSnapshot, c: &Settings) -> (r: (AutoSplitter, Vec<Command>))
        ensures
            r.0.timer_previous_phase == TimerPhase::Unrecognized,
            r.0.level_time == LEVEL_TIME_SENTINEL_BITS,
            r.0.death_count_offset == 0i32,
            r.1@ == spec_initial_commands(*s, *c),
    {
        let mut commands: Vec<Command> = Vec::new();
        commands.push(Command::SetDeathsDisplay { value: s.death_count.current });
        if c.level_time {
            commands.push(Command::SetLevelTimeDisplay { bits: 0u32 });
        }
        let engine = AutoSplitter {
            timer_previous_phase: TimerPhase::Unrecognized,
            level_time: LEVEL_TIME_SENTINEL_BITS,
            death_count_offset: 0i32,
        };
        (engine, commands)
    }

    /// The bookkeeping pass: publishes the death counter and the last level
    /// time where due, and maintains the internally carried level time,
    /// which the split rules read later in the same tick.
    pub fn update(&mut self, s: &GameSnapshot, c: &Settings, phase: TimerPhase) -> (r: Vec<
        Command,
    >)
        ensures
            r@ == spec_update_commands(*old(self), *s, *c, phase),
            final(self).level_time == spec_tracked_level_time_after(old(self).level_time, *s),
            final(self).death_count_offset == old(self).death_count_offset,
            final(self).timer_previous_phase == old(self).timer_previous_phase,
    {
        let mut commands: Vec<Command> = Vec::new();

        if c.death_counter && !is_death_counter_frozen(c, phase) && s.death_count.increased() {
            commands.push(
                Command::SetDeathsDisplay {
                    value: s.death_count.current.wrapping_sub(self.death_count_offset),
                },
            );
        }

        if is_level_time_display_active(c) && s.level_time.bytes_changed_from(
            LEVEL_TIME_SENTINEL_BITS,
        ) {
            commands.push(Command::SetLevelTimeDisplay { bits: s.level_time.current });
        }

        if s.level_time.bytes_changed_from(LEVEL_TIME_SENTINEL_BITS) {
            self.level_time = s.level_time.current;
        }

        if s.level_beaten.changed_from_to(0u8, 1u8) || s.playing.current == 0
            || s.not_in_cutscene.current == 0 {
            self.level_time = LEVEL_TIME_SENTINEL_BITS;
        }

        commands
    }

    /// Reset rule, as evaluated while the timer runs or is paused.
    pub fn reset(&self, s: &GameSnapshot, c: &Settings) -> (r: bool)
        ensures
            r == spec_should_reset(*s, *c),
    {
        if s.game_state.current == GameState::TitleScreen {
            return true;
        }
        if c.reset_on_main_menu && s.game_state.current == GameState::MainMenu {
            return true;
        }
        false
    }

    /// Split rule over the current snapshot and the carried level time.
    pub fn split(&self, s: &GameSnapshot, c: &Settings) -> (r: bool)
        ensures
            r == spec_should_split(*s, *c, self.level_time),
    {
        // Boss completion splits
        if s.game_state.current == GameState::Playing && s.not_in_cutscene.changed_from_to(1u8, 0u8)
            && (s.world.current != FINAL_WORLD || c.split_after_level) && s.level.current
            == BOSS_LEVEL_INDEX {
            return true;
        }

        // Final cutscene splits
        if s.fetus.changed_to(FINAL_CUTSCENE_MARKER) && (!(s.level_type.current == 0
            && c.dark_ending) || c.split_after_level) {
            return true;
        }

        // Per-level (IL) splits
        if c.split_after_level {
            if s.level_beaten.changed_from_to(0u8, 1u8) {
                return true;
            }

            if s.level_transition.changed_from_to(0u8, 1u8) && s.game_state.current
                == GameState::Playing && (self.level_time != LEVEL_TIME_SENTINEL_BITS
                || s.playing.previous == 0) {
                return true;
            }

            if s.game_state.current == GameState::Playing && (s.level_type.previous == 0
                || s.level_type.previous == 1) && 2 <= s.level_type.current
                && s.level_type.current <= 5 {
                return true;
            }

            if (s.level_type.current == 0 || s.level_type.current == 1) && ((s.level_type.previous
                >= 2 && s.level.previous == 2) || (s.level_type.previous == 6 && s.level.previous
                == 0)) && s.level_time.current != LEVEL_TIME_SENTINEL_BITS {
                return true;
            }
        }

        // Boss entrance split
        if c.split_before_boss(s.world.current) && s.game_state.current == GameState::EnteringLevel
            && s.in_special_level.changed_from_to(0u8, 1u8) {
            return true;
        }

        // IW ending split
        if c.iw_mode && ((s.world.current == FINAL_WORLD && s.level.current == 4) || s.level.current
            == 19) && s.playing.previous == 1 && s.level_time.previous == LEVEL_TIME_SENTINEL_BITS
            && s.level_time.current != LEVEL_TIME_SENTINEL_BITS {
            return true;
        }

        // Dark ending splits
        if c.dark_ending && !c.split_after_level && s.game_state.changed_from_to(
            GameState::Playing,
            GameState::LevelSelectionWithBossUnlocking,
        ) && 1 <= s.world.current && s.world.current <= 5 {
            return true;
        }

        false
    }

    /// Start rule, as evaluated while the timer is not running.
    pub fn start(&self, s: &GameSnapshot, c: &Settings) -> (r: bool)
        ensures
            r == spec_should_start(*s, *c),
    {
        if !c.iw_mode && s.game_state.current == GameState::EnteringChapterSelection {
            return true;
        }

        if c.iw_mode && ((s.characters.current != 1 && s.game_state.changed_from_to(
            GameState::CharacterSelection,
            GameState::CharacterSelectionWithCharacterSelected,
        )) || ((s.characters.current == 1 || s.world.current == 6 || s.world.current == 7)
            && s.game_state.changed_from_to(GameState::LevelSelection, GameState::EnteringLevel)))
            && (s.level.current == 0 || !c.iw_mode_split_on_first_level) {
            return true;
        }

        false
    }

    /// One tick's rule evaluation: runs the bookkeeping pass, then the reset,
    /// split and start rules in that fixed order. Returns the commands to
    /// issue and whether the reset rule fired; when it did, no split or
    /// start was evaluated and the caller must skip `observe_phase` this
    /// tick, exactly as if the tick had ended early.
    pub fn evaluate(&mut self, s: &GameSnapshot, c: &Settings, phase: TimerPhase) -> (r: (
        Vec<Command>,
        bool,
    ))
        ensures
            r.0@ == spec_tick_commands(*old(self), *s, *c, phase),
            r.1 == (spec_timer_resettable(phase) && spec_should_reset(*s, *c)),
            final(self).level_time == spec_tracked_level_time_after(old(self).level_time, *s),
            final(self).death_count_offset == old(self).death_count_offset,
            final(self).timer_previous_phase == old(self).timer_previous_phase,
    {
        let mut commands = self.update(s, c, phase);

        if (phase == TimerPhase::Running || phase == TimerPhase::Paused) && self.reset(s, c) {
            commands.push(Command::Reset);
            return (commands, true);
        }

        if self.split(s, c) {
            commands.push(Command::Split);
        }

        if phase == TimerPhase::NotRunning && self.start(s, c) {
            commands.push(Command::Start);
        }

        (commands, false)
    }

    /// The end of a tick: records the timer phase seen after the commands
    /// were issued, and on the not-running-to-running edge — whether the
    /// start rule or the user started the run — rebases the death-count
    /// offset to the count observed one tick ago and republishes the
    /// display at once.
    pub fn observe_phase(&mut self, s: &GameSnapshot, phase_now: TimerPhase) -> (r: Option<
        Command,
    >)
        ensures
            final(self).timer_previous_phase == phase_now,
            final(self).level_time == old(self).level_time,
            old(self).timer_previous_phase == TimerPhase::NotRunning && phase_now
                == TimerPhase::Running ==> final(self).death_count_offset
                == s.death_count.previous && r == Some(
                Command::SetDeathsDisplay {
                    value: spec_deaths_display_value(
                        s.death_count.current,
                        s.death_count.previous,
                    ),
                },
            ),
            !(old(self).timer_previous_phase == TimerPhase::NotRunning && phase_now
                == TimerPhase::Running) ==> final(self).death_count_offset == old(
                self,
            ).death_count_offset && r is None,
    {
        let mut command: Option<Command> = None;
        if self.timer_previous_phase == TimerPhase::NotRunning && phase_now == TimerPhase::Running {
            self.death_count_offset = s.death_count.previous;
            command = Some(
                Command::SetDeathsDisplay {
                    value: s.death_count.current.wrapping_sub(self.death_count_offset),
                },
            );
        }
        self.timer_previous_phase = phase_now;
        command
    }
}

/// A command that only feeds a display variable, as the bookkeeping pass
/// emits them.
pub open spec fn spec_is_display_command(cmd: Command) -> bool {
    cmd is SetDeathsDisplay || cmd is SetLevelTimeDisplay
}

/// The bookkeeping pass only ever publishes display variables.
pub proof fn lemma_update_commands_are_displays(
    e: AutoSplitter,
    s: GameSnapshot,
    c: Settings,
    phase: TimerPhase,
)
    ensures
        forall|i: int|
            0 <= i < spec_update_commands(e, s, c, phase).len() ==> spec_is_display_command(
                #[trigger] spec_update_commands(e, s, c, phase)[i],
            ),
{
    let upd = spec_update_commands(e, s, c, phase);
    assert forall|i: int| 0 <= i < upd.len() implies spec_is_display_command(upd[i]) by {
        if spec_deaths_display_fires(s, c, phase) {
            assert(upd[0] is SetDeathsDisplay);
        }
    }
}

/// Law of one split per tick: however many of the split conditions hold at
/// once, one tick's commands never hold more than one split.
pub proof fn lemma_one_tick_one_split(
    e: AutoSplitter,
    s: GameSnapshot,
    c: Settings,
    phase: TimerPhase,
)
    ensures
        forall|i: int, j: int|
            0 <= i < spec_tick_commands(e, s, c, phase).len() && 0 <= j < spec_tick_commands(
                e,
                s,
                c,
                phase,
            ).len() && spec_tick_commands(e, s, c, phase)[i] == Command::Split
                && spec_tick_commands(e, s, c, phase)[j] == Command::Split ==> i == j,
{
    lemma_update_commands_are_displays(e, s, c, phase);
    let upd = spec_update_commands(e, s, c, phase);
    let cmds = spec_tick_commands(e, s, c, phase);
    assert forall|i: int, j: int|
        0 <= i < cmds.len() && 0 <= j < cmds.len() && cmds[i] == Command::Split && cmds[j]
            == Command::Split implies i == j by {
        assert(i >= upd.len() && j >= upd.len());
        assert(cmds[i] != Command::Reset && cmds[i] != Command::Start);
        assert(i == upd.len() && j == upd.len());
    }
}

/// Law of the split command: a tick's commands hold a split exactly when the
/// reset rule did not fire and some split rule did, judged over the level
/// time as carried after the tick's own bookkeeping.
pub proof fn lemma_split_command_iff(
    e: AutoSplitter,
    s: GameSnapshot,
    c: Settings,
    phase: TimerPhase,
)
    ensures
        spec_tick_commands(e, s, c, phase).contains(Command::Split) == (!(spec_timer_resettable(
            phase,
        ) && spec_should_reset(s, c)) && spec_should_split(
            s,
            c,
            spec_tracked_level_time_after(e.level_time, s),
        )),
{
    lemma_update_commands_are_displays(e, s, c, phase);
    let upd = spec_update_commands(e, s, c, phase);
    let cmds = spec_tick_commands(e, s, c, phase);
    let fired = !(spec_timer_resettable(phase) && spec_should_reset(s, c)) && spec_should_split(
        s,
        c,
        spec_tracked_level_time_after(e.level_time, s),
    );
    if fired {
        assert(cmds[upd.len() as int] == Command::Split);
        assert(cmds.contains(Command::Split));
    } else {
        assert forall|i: int| 0 <= i < cmds.len() implies cmds[i] != Command::Split by {
            if i < upd.len() {
                assert(spec_is_display_command(cmds[i]));
            }
        }
    }
}

/// Law of the start command: a tick's commands hold a start exactly when the
/// reset rule did not fire, the timer was not running, and the start rule
/// held of the snapshot.
pub proof fn lemma_start_command_iff(
    e: AutoSplitter,
    s: GameSnapshot,
    c: Settings,
    phase: TimerPhase,
)
    ensures
        spec_tick_commands(e, s, c, phase).contains(Command::Start) == (!(spec_timer_resettable(
            phase,
        ) && spec_should_reset(s, c)) && phase == TimerPhase::NotRunning && spec_should_start(
            s,
            c,
        )),
{
    lemma_update_commands_are_displays(e, s, c, phase);
    let upd = spec_update_commands(e, s, c, phase);
    let cmds = spec_tick_commands(e, s, c, phase);
    let fired = !(spec_timer_resettable(phase) && spec_should_reset(s, c)) && phase
        == TimerPhase::NotRunning && spec_should_start(s, c);
    if fired {
        assert(cmds.last() == Command::Start);
        assert(cmds.contains(Command::Start));
    } else {
        assert forall|i: int| 0 <= i < cmds.len() implies cmds[i] != Command::Start by {
            if i < upd.len() {
                assert(spec_is_display_command(cmds[i]));
            }
        }
    }
}

/// Law of reset precedence: on a tick where the timer can be reset and the
/// reset rule fires, the tick's commands end in the reset and hold neither a
/// split nor a start, whatever the rest of the snapshot says.
pub proof fn lemma_reset_precedence(
    e: AutoSplitter,
    s: GameSnapshot,
    c: Settings,
    phase: TimerPhase,
)
    requires
        spec_timer_resettable(phase),
        spec_should_reset(s, c),
    ensures
        spec_tick_commands(e, s, c, phase).last() == Command::Reset,
        !spec_tick_commands(e, s, c, phase).contains(Command::Split),
        !spec_tick_commands(e, s, c, phase).contains(Command::Start),
{
    let upd = spec_update_commands(e, s, c, phase);
    let cmds = spec_tick_commands(e, s, c, phase);
    assert(cmds == upd.push(Command::Reset));
    assert forall|i: int| 0 <= i < cmds.len() implies cmds[i] != Command::Split && cmds[i]
        != Command::Start by {
        if i < upd.len() {
            assert(cmds[i] == upd[i]);
        } else {
            assert(cmds[i] == Command::Reset);
        }
    }
}

/// Law of the per-level gating: with "split after every level" disabled and
/// none of the other five split rules firing, no split fires at all — no
/// level-time or level-type transition can trigger one on its own.
pub proof fn lemma_il_splits_fully_gated(s: GameSnapshot, c: Settings, carried_level_time: u32)
    requires
        !c.split_after_level,
        !spec_boss_completion_split(s, c),
        !spec_final_cutscene_split(s, c),
        !spec_boss_entrance_split(s, c),
        !spec_iw_ending_split(s, c),
        !spec_dark_ending_split(s, c),
    ensures
        !spec_should_split(s, c, carried_level_time),
{
}

/// Law of the death-count rebase: for a raw counter that did not shrink and
/// was never negative, the display published right after a rebase is the
/// exact difference between the raw count at the start tick and the count
/// one tick before it, and never below zero.
pub proof fn lemma_death_rebase_nonnegative(raw_at_start: i32, raw_before_start: i32)
    requires
        0 <= raw_before_start <= raw_at_start,
    ensures
        spec_deaths_display_value(raw_at_start, raw_before_start) == raw_at_start
            - raw_before_start,
        spec_deaths_display_value(raw_at_start, raw_before_start) >= 0,
{
}

} // verus!
