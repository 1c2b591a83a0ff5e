//! The world calendar: minutes, hours, days and the four seasons.

use vstd::prelude::*;
use crate::coord::AtlasCoord;

verus! {

#[derive(Clone, Copy, Debug, PartialEq, Eq, Hash, Structural)]
pub enum SeasonalPhase {
    Spring,
    Summer,
    Autumn,
    Winter,
}

/// Identifier of a seasonal biome state in the surface state tables.
#[derive(Clone, Copy, Debug, PartialEq, Eq, Hash, Structural)]
pub struct SeasonalBiomeStateId(pub u16);

pub const MINUTES_PER_HOUR: u32 = 60;

pub const HOURS_PER_DAY: u32 = 24;

pub const MINUTES_PER_DAY: u32 = MINUTES_PER_HOUR * HOURS_PER_DAY;

/// The fewest days a year may have; shorter years are treated as this long.
pub const MIN_DAYS_PER_YEAR: u32 = 4;

#[derive(Clone, Copy, Debug, PartialEq, Eq, Hash, Structural)]
pub struct WorldCalendar {
    pub absolute_tick: u64,
    pub minute: u32,
    pub hour: u32,
    pub day: u64,
    pub day_of_year: u32,
    pub season_index: u8,
    pub season_phase: SeasonalPhase,
}

/// Year length actually used: at least [`MIN_DAYS_PER_YEAR`].
pub open spec fn safe_days_per_year(days_per_year: u32) -> u32 {
    if days_per_year < 4 { 4 } else { days_per_year }
}

/// Season of a day: the year split into four equal quarters, the last one
/// absorbing any remainder.
pub open spec fn spec_season_index(day_of_year: u32, days_per_year: u32) -> u8 {
    let scaled = if day_of_year * 4 > u32::MAX { u32::MAX as int } else { day_of_year * 4 };
    let quarter = scaled / (safe_days_per_year(days_per_year) as int);
    if quarter > 3 { 3 } else { quarter as u8 }
}

pub open spec fn spec_season_phase(index: u8) -> SeasonalPhase {
    if index == 0 {
        SeasonalPhase::Spring
    } else if index == 1 {
        SeasonalPhase::Summer
    } else if index == 2 {
        SeasonalPhase::Autumn
    } else {
        SeasonalPhase::Winter
    }
}

/// Total minutes since the calendar's origin, saturating at `u64::MAX`.
pub open spec fn spec_absolute_minutes(c: WorldCalendar) -> u64 {
    let days = if c.day * 1440 > u64::MAX { u64::MAX as int } else { c.day * 1440 };
    let total = days + (c.hour * 60 + c.minute);
    if total > u64::MAX { u64::MAX } else { total as u64 }
}

impl WorldCalendar {
    /// A calendar in its normal range for a year of `days_per_year` days:
    /// clock within the day, day within the year, season matching the day.
    pub open spec fn wf(self, days_per_year: u32) -> bool {
        &&& self.minute < 60
        &&& self.hour < 24
        &&& self.day_of_year < safe_days_per_year(days_per_year)
        &&& self.season_index == spec_season_index(self.day_of_year, days_per_year)
        &&& self.season_phase == spec_season_phase(self.season_index)
    }

    /// One more minute moves the calendar to the next day: the hour, after
    /// any minute roll, reaches 24.
    pub open spec fn rolls_day(self) -> bool {
        (if self.minute + 1 >= 60 { self.hour + 1 } else { self.hour as int }) >= 24
    }

    /// The calendar one minute later, as `advanced_minute` computes it.
    pub open spec fn spec_advanced_minute(self, days_per_year: u32) -> WorldCalendar {
        let safe = safe_days_per_year(days_per_year);
        let minute_rolls = self.minute + 1 >= 60;
        let minute: u32 = if minute_rolls { 0 } else { (self.minute + 1) as u32 };
        let hour_raw: int = if minute_rolls { self.hour + 1 } else { self.hour as int };
        let day_rolls = hour_raw >= 24;
        let hour: u32 = if day_rolls { 0 } else { hour_raw as u32 };
        let day: u64 = if day_rolls {
            if self.day == u64::MAX { u64::MAX } else { (self.day + 1) as u64 }
        } else {
            self.day
        };
        let day_of_year: u32 = if day_rolls {
            ((self.day_of_year + 1) % (safe as int)) as u32
        } else {
            self.day_of_year
        };
        let season_index = spec_season_index(day_of_year, safe);
        WorldCalendar {
            absolute_tick: self.absolute_tick,
            minute,
            hour,
            day,
            day_of_year,
            season_index,
            season_phase: spec_season_phase(season_index),
        }
    }

    pub fn new(
        absolute_tick: u64,
        minute: u32,
        hour: u32,
        day: u64,
        day_of_year: u32,
        season_index: u8,
        season_phase: SeasonalPhase,
    ) -> (calendar: Self)
        ensures
            calendar == (WorldCalendar {
                absolute_tick,
                minute,
                hour,
                day,
                day_of_year,
                season_index,
                season_phase,
            }),
    {
        WorldCalendar { absolute_tick, minute, hour, day, day_of_year, season_index, season_phase }
    }

    /// Minutes elapsed since day 0, 00:00, saturating at `u64::MAX`.
    pub fn absolute_minutes(self) -> (minutes: u64)
        requires
            self.hour * 60 + self.minute <= u32::MAX,
        ensures
            minutes == spec_absolute_minutes(self),
    {
        let days = match self.day.checked_mul(MINUTES_PER_DAY as u64) {
            Some(v) => v,
            None => u64::MAX,
        };
        let clock = (self.hour * MINUTES_PER_HOUR + self.minute) as u64;
        days.saturating_add(clock)
    }

    /// The calendar one minute later. A year shorter than four days counts as four days.
    pub fn advanced_minute(self, days_per_year: u32) -> (next: Self)
        requires
            self.minute < u32::MAX,
            self.minute + 1 >= 60 ==> self.hour < u32::MAX,
            self.rolls_day() ==> self.day_of_year < u32::MAX,
        ensures
            next == self.spec_advanced_minute(days_per_year),
    {
        let safe_days_per_year = if days_per_year < MIN_DAYS_PER_YEAR {
            MIN_DAYS_PER_YEAR
        } else {
            days_per_year
        };
        let mut next = self;
        next.minute = next.minute + 1;

        if next.minute >= MINUTES_PER_HOUR {
            next.minute = 0;
            next.hour = next.hour + 1;
        }
        if next.hour >= HOURS_PER_DAY {
            next.hour = 0;
            next.day = next.day.saturating_add(1);
            next.day_of_year = (next.day_of_year + 1) % safe_days_per_year;
        }
        next.season_index = season_index_for_day(next.day_of_year, safe_days_per_year);
        next.season_phase = season_phase_for_index(next.season_index);
        next
    }
}

impl Default for WorldCalendar {
    /// Day 0, 11:00, spring.
    fn default() -> (calendar: Self)
        ensures
            calendar == (WorldCalendar {
                absolute_tick: 0,
                minute: 0,
                hour: 11,
                day: 0,
                day_of_year: 0,
                season_index: 0,
                season_phase: SeasonalPhase::Spring,
            }),
    {
        WorldCalendar {
            absolute_tick: 0,
            minute: 0,
            hour: 11,
            day: 0,
            day_of_year: 0,
            season_index: 0,
            season_phase: SeasonalPhase::Spring,
        }
    }
}

/// Season (0 spring .. 3 winter) of a day of the year.
pub fn season_index_for_day(day_of_year: u32, days_per_year: u32) -> (index: u8)
    ensures
        index == spec_season_index(day_of_year, days_per_year),
        index <= 3,
{
    let safe_days_per_year = if days_per_year < MIN_DAYS_PER_YEAR {
        MIN_DAYS_PER_YEAR
    } else {
        days_per_year
    };
    let scaled = match day_of_year.checked_mul(4) {
        Some(v) => v,
        None => u32::MAX,
    };
    let quarter = scaled / safe_days_per_year;
    if quarter > 3 {
        3
    } else {
        quarter as u8
    }
}

pub fn season_phase_for_index(index: u8) -> (phase: SeasonalPhase)
    ensures
        phase == spec_season_phase(index),
{
    match index {
        0 => SeasonalPhase::Spring,
        1 => SeasonalPhase::Summer,
        2 => SeasonalPhase::Autumn,
        _ => SeasonalPhase::Winter,
    }
}

/// Advancing a well-formed calendar by one minute keeps it well-formed, leaves
/// its tick untouched and moves its absolute minute count on by exactly one,
/// unless the count is already saturated.
pub proof fn lemma_advanced_minute_wf(c: WorldCalendar, days_per_year: u32)
    requires
        c.wf(days_per_year),
    ensures
        c.spec_advanced_minute(days_per_year).wf(days_per_year),
        c.spec_advanced_minute(days_per_year).absolute_tick == c.absolute_tick,
        c.day < u64::MAX && c.day * 1440 + 1440 <= u64::MAX ==> spec_absolute_minutes(
            c.spec_advanced_minute(days_per_year),
        ) == spec_absolute_minutes(c) + 1,
{
    let n = c.spec_advanced_minute(days_per_year);
    let safe = safe_days_per_year(days_per_year);
    assert(safe_days_per_year(safe) == safe);
    if c.day < u64::MAX && c.day * 1440 + 1440 <= u64::MAX {
        if c.minute + 1 >= 60 && c.hour + 1 >= 24 {
            assert(n.day == c.day + 1);
            assert(n.day * 1440 == c.day * 1440 + 1440) by (nonlinear_arith)
                requires n.day == c.day + 1;
        }
    }
}

/// One step of the clock: within an hour the minute goes up by one; at the
/// end of an hour the minute returns to 0 and the hour goes up by one; short
/// of the end of the day, the day and the day of the year stay, and the
/// absolute minute count goes up by exactly one unless it is saturated.
pub proof fn lemma_advanced_minute_step(c: WorldCalendar, days_per_year: u32)
    requires
        c.minute < 60,
        c.hour < 24,
    ensures
        ({
            let n = c.spec_advanced_minute(days_per_year);
            &&& n.absolute_tick == c.absolute_tick
            &&& c.minute < 59 ==> n.minute == c.minute + 1 && n.hour == c.hour
            &&& c.minute == 59 && c.hour < 23 ==> n.minute == 0 && n.hour == c.hour + 1
            &&& !(c.minute == 59 && c.hour == 23) ==> n.day == c.day && n.day_of_year == c.day_of_year
            &&& c.day * 1440 + 1440 <= u64::MAX ==> spec_absolute_minutes(n) == spec_absolute_minutes(c) + 1
        }),
{
    let n = c.spec_advanced_minute(days_per_year);
    if c.day * 1440 + 1440 <= u64::MAX && c.minute == 59 && c.hour == 23 {
        assert(n.day == c.day + 1);
        assert(n.day * 1440 == c.day * 1440 + 1440) by (nonlinear_arith)
            requires n.day == c.day + 1;
    }
}

/// The step from 23:59 rolls over to 00:00 of the next day: the day count goes
/// up by one (held at `u64::MAX`), the day of the year moves to the next day
/// and wraps after the last day of the year (a year shorter than four days
/// counting as four), and the season becomes the quarter of the year that day
/// falls in (0 spring, 1 summer, 2 autumn, 3 winter).
pub proof fn lemma_advanced_minute_day_roll(c: WorldCalendar, days_per_year: u32)
    requires
        c.minute == 59,
        c.hour == 23,
        c.day_of_year < u32::MAX,
    ensures
        ({
            let n = c.spec_advanced_minute(days_per_year);
            let year: int = if days_per_year < 4 { 4 } else { days_per_year as int };
            let quarter: int = (n.day_of_year * 4) / year;
            &&& n.minute == 0 && n.hour == 0
            &&& n.absolute_tick == c.absolute_tick
            &&& n.day == if c.day == u64::MAX { c.day as int } else { c.day + 1 }
            &&& n.day_of_year == (c.day_of_year + 1) % year
            &&& n.day_of_year < year
            &&& n.day_of_year * 4 <= u32::MAX ==> n.season_index == if quarter > 3 { 3 } else { quarter }
            &&& n.season_index == 0 ==> n.season_phase == SeasonalPhase::Spring
            &&& n.season_index == 1 ==> n.season_phase == SeasonalPhase::Summer
            &&& n.season_index == 2 ==> n.season_phase == SeasonalPhase::Autumn
            &&& n.season_index == 3 ==> n.season_phase == SeasonalPhase::Winter
        }),
{
}

/// Seasons never run backwards within a year: a later day of the year is in the
/// same or a later season.
pub proof fn lemma_season_index_monotone(a: u32, b: u32, days_per_year: u32)
    requires
        a <= b,
    ensures
        spec_season_index(a, days_per_year) <= spec_season_index(b, days_per_year),
{
    let d = safe_days_per_year(days_per_year) as int;
    let sa = if a * 4 > u32::MAX { u32::MAX as int } else { a * 4 };
    let sb = if b * 4 > u32::MAX { u32::MAX as int } else { b * 4 };
    assert(sa <= sb);
    vstd::arithmetic::div_mod::lemma_div_is_ordered(sa, sb, d);
}

/// Day 0 of the year is always spring, and the last day of the year is winter
/// (for years short enough that four times their length fits in a `u32`).
pub proof fn lemma_season_year_ends(days_per_year: u32)
    requires
        (safe_days_per_year(days_per_year) - 1) * 4 <= u32::MAX,
    ensures
        spec_season_index(0, days_per_year) == 0,
        spec_season_index((safe_days_per_year(days_per_year) - 1) as u32, days_per_year) == 3,
{
    let d = safe_days_per_year(days_per_year) as int;
    let last = d - 1;
    let s = if last * 4 > u32::MAX { u32::MAX as int } else { last * 4 };
    assert(s / d >= 3) by {
        assert(s == 4 * d - 4);
        assert(s >= 3 * d);
        vstd::arithmetic::div_mod::lemma_div_is_ordered(3 * d, s, d);
        vstd::arithmetic::div_mod::lemma_div_multiples_vanish(3, d);
    }
}

#[derive(Clone, Copy, Debug, PartialEq, Eq, Hash, Structural)]
pub enum LocalWeatherKind {
    Clear,
    Overcast,
    Rain,
    Snow,
    Storm,
}

#[derive(Clone, Copy, Debug, PartialEq, Eq, Hash, Structural)]
pub enum DeferredSeasonPatchTarget {
    AtlasCell(AtlasCoord),
    ChunkColumn { chunk_x: i32, chunk_z: i32 },
}

#[derive(Clone, Copy, Debug, PartialEq, Eq, Hash, Structural)]
pub enum DeferredSeasonPatchKind {
    SetSeasonalState(SeasonalBiomeStateId),
    SnowCover,
    Thaw,
    Bloom,
    LeafTintShift,
    BareBranchConversion,
}

#[derive(Clone, Copy, Debug, PartialEq, Eq, Hash, Structural)]
pub struct DeferredSeasonPatch {
    pub target: DeferredSeasonPatchTarget,
    pub kind: DeferredSeasonPatchKind,
    pub authored_at_tick: u64,
    pub apply_on_realization: bool,
}

#[derive(Clone, Debug)]
pub struct CalendarApplyResult {
    pub changed_atlas_cells: Vec<AtlasCoord>,
    pub weather_changed_cells: Vec<AtlasCoord>,
    pub deferred_patch_count: usize,
}

impl Default for CalendarApplyResult {
    fn default() -> (result: Self)
        ensures
            result.changed_atlas_cells@ == Seq::<AtlasCoord>::empty(),
            result.weather_changed_cells@ == Seq::<AtlasCoord>::empty(),
            result.deferred_patch_count == 0,
    {
        CalendarApplyResult {
            changed_atlas_cells: Vec::new(),
            weather_changed_cells: Vec::new(),
            deferred_patch_count: 0,
        }
    }
}

} // verus!
