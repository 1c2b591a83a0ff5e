use worldgen::calendar::{season_index_for_day, season_phase_for_index, SeasonalPhase, WorldCalendar};
use worldgen::hashing::{
    coord_to_bits, rock_placement_seed, rotate_left_17, seedless_splitmix64, splitmix64,
    stable_str_hash, str_eq,
};

#[test]
fn default_calendar_starts_at_eleven_am() {
    let calendar = WorldCalendar::default();

    assert_eq!(calendar.hour, 11);
    assert_eq!(calendar.minute, 0);
    // Hours of the day as a fraction: the hour plus the minutes over sixty.
    assert_eq!(calendar.hour as f32 + calendar.minute as f32 / 60.0, 11.0);
}

#[test]
fn advancing_a_minute_rolls_the_clock_day_and_year() {
    let calendar = WorldCalendar::new(7, 59, 23, 9, 11, 3, SeasonalPhase::Winter);
    let next = calendar.advanced_minute(12);
    assert_eq!(next.absolute_tick, 7);
    assert_eq!((next.minute, next.hour, next.day, next.day_of_year), (0, 0, 10, 0));
    assert_eq!(next.season_index, 0);
    assert_eq!(next.season_phase, SeasonalPhase::Spring);
    assert_eq!(next.absolute_minutes(), calendar.absolute_minutes() + 1);

    let mid = WorldCalendar::new(0, 30, 5, 0, 2, 2, SeasonalPhase::Autumn).advanced_minute(4);
    assert_eq!((mid.minute, mid.hour, mid.day), (31, 5, 0));
}

#[test]
fn short_years_count_as_four_days() {
    let calendar = WorldCalendar::new(0, 59, 23, 0, 3, 3, SeasonalPhase::Winter);
    let next = calendar.advanced_minute(1);
    assert_eq!(next.day_of_year, 0);
    assert_eq!(season_index_for_day(3, 0), 3);
}

#[test]
fn absolute_minutes_count_days_hours_and_minutes() {
    let calendar = WorldCalendar::new(0, 5, 2, 3, 0, 0, SeasonalPhase::Spring);
    assert_eq!(calendar.absolute_minutes(), 3 * 1440 + 125);
    let far = WorldCalendar::new(0, 0, 0, u64::MAX, 0, 0, SeasonalPhase::Spring);
    assert_eq!(far.absolute_minutes(), u64::MAX);
}

#[test]
fn seasons_split_the_year_in_quarters() {
    assert_eq!(season_index_for_day(0, 100), 0);
    assert_eq!(season_index_for_day(24, 100), 0);
    assert_eq!(season_index_for_day(25, 100), 1);
    assert_eq!(season_index_for_day(74, 100), 2);
    assert_eq!(season_index_for_day(99, 100), 3);
    assert_eq!(season_index_for_day(u32::MAX, 100), 3);
    let mut previous = 0;
    for day in 0..365 {
        let season = season_index_for_day(day, 365);
        assert!(season >= previous);
        previous = season;
    }
    assert_eq!(season_phase_for_index(0), SeasonalPhase::Spring);
    assert_eq!(season_phase_for_index(1), SeasonalPhase::Summer);
    assert_eq!(season_phase_for_index(2), SeasonalPhase::Autumn);
    assert_eq!(season_phase_for_index(3), SeasonalPhase::Winter);
    assert_eq!(season_phase_for_index(200), SeasonalPhase::Winter);
}

#[test]
fn splitmix64_matches_the_reference_sequence() {
    assert_eq!(splitmix64(0), 0xE220_A839_7B1D_CDAF);
    assert_eq!(seedless_splitmix64(0), splitmix64(0));
}

#[test]
fn fnv1a_hashes_utf8_bytes() {
    assert_eq!(stable_str_hash(""), 0xCBF2_9CE4_8422_2325);
    assert_eq!(stable_str_hash("a"), 0xAF63_DC4C_8601_EC8C);
}

#[test]
fn bit_helpers() {
    assert_eq!(rotate_left_17(1), 1 << 17);
    assert_eq!(rotate_left_17(1 << 63), 1 << 16);
    assert_eq!(coord_to_bits(-1), u64::MAX);
    assert_eq!(coord_to_bits(5), 5);
    assert!(str_eq("sand", "sand"));
    assert!(!str_eq("sand", "wet_sand"));
}

#[test]
fn rock_placement_seed_reference_values() {
    assert_eq!(rock_placement_seed(42, 0, 0), 0x8DD2_6EDF_8A3C_96E3);
    assert_eq!(rock_placement_seed(42, 1, 1), 0x90A6_73D5_7C83_6603);
    assert_eq!(rock_placement_seed(0, -1, 5), 0x341D_D02B_BCA5_D806);
}

#[test]
fn advancing_within_a_day_leaves_the_day_of_year_alone() {
    let calendar = WorldCalendar::new(0, 5, 3, 2, u32::MAX, 3, SeasonalPhase::Winter);
    let next = calendar.advanced_minute(365);
    assert_eq!((next.minute, next.hour, next.day, next.day_of_year), (6, 3, 2, u32::MAX));
    assert_eq!(next.absolute_minutes(), calendar.absolute_minutes() + 1);
    let hour_end = WorldCalendar::new(0, 59, 3, 2, 7, 0, SeasonalPhase::Spring).advanced_minute(365);
    assert_eq!((hour_end.minute, hour_end.hour, hour_end.day_of_year), (0, 4, 7));
}
