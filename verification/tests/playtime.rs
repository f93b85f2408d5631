use servercore::playtime::{format_duration, live_playtime};

#[test]
fn live_playtime_adds_elapsed_seconds_to_baseline() {
    assert_eq!(live_playtime(100, 1_000, 1_030), 130);
    assert_eq!(live_playtime(0, 1_700_000_000, 1_700_003_600), 3_600);
}

#[test]
fn live_playtime_at_join_time_is_baseline() {
    assert_eq!(live_playtime(4_321, 1_000, 1_000), 4_321);
}

#[test]
fn live_playtime_clamps_a_clock_that_went_back() {
    assert_eq!(live_playtime(500, 2_000, 1_990), 500);
    assert_eq!(live_playtime(500, 2_000, i64::MIN), 500);
}

#[test]
fn live_playtime_never_below_baseline_on_samples() {
    let baselines = [0_i64, 1, 77, 86_400, i64::MAX - 5];
    let joins = [0_i64, 10, 1_700_000_000];
    let nows = [0_i64, 5, 10, 11, 1_700_000_000, 1_700_000_100, i64::MAX];
    for baseline in baselines {
        for join in joins {
            for now in nows {
                assert!(live_playtime(baseline, join, now) >= baseline);
            }
        }
    }
}

#[test]
fn live_playtime_does_not_decrease_as_the_clock_advances() {
    let mut last = live_playtime(250, 1_000, 990);
    for now in [995_i64, 1_000, 1_001, 1_001, 1_500, 2_000, i64::MAX] {
        let next = live_playtime(250, 1_000, now);
        assert!(next >= last);
        last = next;
    }
    assert_eq!(live_playtime(250, 1_000, 2_000), 1_250);
}

#[test]
fn live_playtime_stays_at_the_largest_value_where_the_sum_does_not_fit() {
    assert_eq!(live_playtime(i64::MAX, 0, 5), i64::MAX);
    assert_eq!(live_playtime(i64::MAX - 10, 100, 120), i64::MAX);
    assert_eq!(live_playtime(i64::MAX - 10, 100, 110), i64::MAX);
    assert_eq!(live_playtime(i64::MAX - 10, 100, 109), i64::MAX - 1);
    assert_eq!(live_playtime(1, i64::MIN, i64::MAX), i64::MAX);
}

#[test]
fn live_playtime_takes_a_negative_baseline_as_it_is() {
    assert_eq!(live_playtime(-50, 10, 40), -20);
    assert_eq!(live_playtime(i64::MIN, i64::MIN, i64::MAX), i64::MAX);
    assert_eq!(live_playtime(i64::MIN, 0, i64::MAX), -1);
}

#[test]
fn format_duration_of_zero() {
    assert_eq!(format_duration(0), "0 days, 0 hours, 0 minutes, 0 seconds");
}

#[test]
fn format_duration_of_one_day_is_singular() {
    assert_eq!(format_duration(86_400), "1 day, 0 hours, 0 minutes, 0 seconds");
}

#[test]
fn format_duration_of_two_days_is_plural() {
    assert_eq!(format_duration(172_800), "2 days, 0 hours, 0 minutes, 0 seconds");
}

#[test]
fn format_duration_pluralizes_each_unit_on_its_own() {
    assert_eq!(format_duration(1), "0 days, 0 hours, 0 minutes, 1 second");
    assert_eq!(format_duration(59), "0 days, 0 hours, 0 minutes, 59 seconds");
    assert_eq!(format_duration(60), "0 days, 0 hours, 1 minute, 0 seconds");
    assert_eq!(format_duration(61), "0 days, 0 hours, 1 minute, 1 second");
    assert_eq!(format_duration(3_600), "0 days, 1 hour, 0 minutes, 0 seconds");
    assert_eq!(format_duration(3_661), "0 days, 1 hour, 1 minute, 1 second");
    assert_eq!(format_duration(90_061), "1 day, 1 hour, 1 minute, 1 second");
}

#[test]
fn format_duration_chains_the_remainders() {
    assert_eq!(format_duration(86_399), "0 days, 23 hours, 59 minutes, 59 seconds");
    assert_eq!(format_duration(1_234_567), "14 days, 6 hours, 56 minutes, 7 seconds");
}

#[test]
fn format_duration_of_the_largest_value() {
    assert_eq!(
        format_duration(i64::MAX),
        "106751991167300 days, 15 hours, 30 minutes, 7 seconds"
    );
}

#[test]
fn format_duration_of_negative_seconds_rounds_toward_zero() {
    assert_eq!(format_duration(-1), "0 days, 0 hours, 0 minutes, -1 seconds");
    assert_eq!(format_duration(-5), "0 days, 0 hours, 0 minutes, -5 seconds");
    assert_eq!(format_duration(-61), "0 days, 0 hours, -1 minutes, -1 seconds");
    assert_eq!(format_duration(-86_401), "-1 days, 0 hours, 0 minutes, -1 seconds");
    assert_eq!(format_duration(-90_061), "-1 days, -1 hours, -1 minutes, -1 seconds");
}

#[test]
fn format_duration_of_the_smallest_value() {
    assert_eq!(
        format_duration(i64::MIN),
        "-106751991167300 days, -15 hours, -30 minutes, -8 seconds"
    );
}

#[test]
fn format_duration_agrees_with_the_components_written_by_hand() {
    for seconds in [0_i64, 7, 60, 119, 3_599, 7_322, 86_401, 604_800, 31_536_000, 999_999_999] {
        let days = seconds / 86_400;
        let hours = (seconds % 86_400) / 3_600;
        let minutes = (seconds % 3_600) / 60;
        let secs = seconds % 60;
        let expected = format!(
            "{} day{}, {} hour{}, {} minute{}, {} second{}",
            days,
            if days == 1 { "" } else { "s" },
            hours,
            if hours == 1 { "" } else { "s" },
            minutes,
            if minutes == 1 { "" } else { "s" },
            secs,
            if secs == 1 { "" } else { "s" }
        );
        assert_eq!(format_duration(seconds), expected);
    }
}
