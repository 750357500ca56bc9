use shotpaste::day::{day_format, day_of, Day, DAY_NANOS};

fn day(year: u16, month: u8, day: u8) -> Day {
    Day { year, month, day }
}

#[test]
fn times_fall_on_their_days() {
    assert_eq!(day_of(0), day(1970, 1, 1));
    assert_eq!(day_of(DAY_NANOS - 1), day(1970, 1, 1));
    assert_eq!(day_of(DAY_NANOS), day(1970, 1, 2));
    assert_eq!(day_of(31 * DAY_NANOS), day(1970, 2, 1));
    assert_eq!(day_of(364 * DAY_NANOS), day(1970, 12, 31));
    assert_eq!(day_of(365 * DAY_NANOS), day(1971, 1, 1));
    assert_eq!(day_of(1_000_000_000 * 1_000_000_000), day(2001, 9, 9));
    assert_eq!(day_of(u64::MAX), day(2554, 7, 21));
}

#[test]
fn leap_years_have_one_day_more() {
    assert_eq!(day_of(11_016 * DAY_NANOS), day(2000, 2, 29));
    assert_eq!(day_of(11_017 * DAY_NANOS), day(2000, 3, 1));
    assert_eq!(day_of(19_782 * DAY_NANOS), day(2024, 2, 29));
    assert_eq!(day_of(47_540 * DAY_NANOS), day(2100, 2, 28));
    assert_eq!(day_of(47_541 * DAY_NANOS), day(2100, 3, 1));
}

#[test]
fn each_day_follows_the_one_before() {
    let mut last = day_of(0);
    for number in 1..60_000u64 {
        let next = day_of(number * DAY_NANOS);
        let in_month = next.month == last.month && next.year == last.year;
        if in_month {
            assert_eq!(next.day, last.day + 1);
        } else {
            assert_eq!(next.day, 1);
            assert!(last.day >= 28);
        }
        last = next;
    }
}

#[test]
fn days_are_written_with_all_their_digits() {
    assert_eq!(day_format(day(2026, 5, 12)), "2026-05-12");
    assert_eq!(day_format(day(1970, 1, 1)), "1970-01-01");
    assert_eq!(day_format(day(987, 12, 3)), "0987-12-03");
}
