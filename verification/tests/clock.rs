use weatherlog::clock::{clock_text, day_second};

#[test]
fn clock_of_a_known_instant() {
    assert_eq!(clock_text(1_600_000_000, 32_400), "21:26:40");
    assert_eq!(clock_text(1_600_000_000, 0), "12:26:40");
    assert_eq!(clock_text(1_600_000_000, -18_000), "07:26:40");
    assert_eq!(clock_text(1_600_000_000, 19_800), "17:56:40");
}

#[test]
fn clock_at_the_ends_of_the_day() {
    assert_eq!(clock_text(0, 0), "00:00:00");
    assert_eq!(clock_text(86_399, 0), "23:59:59");
    assert_eq!(clock_text(86_400, 0), "00:00:00");
    assert_eq!(clock_text(-1, 0), "23:59:59");
    assert_eq!(clock_text(0, -1), "23:59:59");
    assert_eq!(clock_text(0, 86_399), "23:59:59");
    assert_eq!(clock_text(0, -86_399), "00:00:01");
    assert_eq!(clock_text(3_599, 1), "01:00:00");
    assert_eq!(clock_text(59, 1), "00:01:00");
}

#[test]
fn clock_of_the_largest_and_smallest_instant() {
    assert_eq!(clock_text(i64::MAX, 0), "15:30:07");
    assert_eq!(clock_text(i64::MIN, 0), "08:29:52");
    assert_eq!(clock_text(i64::MAX, i32::MAX), "18:44:14");
    assert_eq!(clock_text(i64::MIN, i32::MIN), "05:15:44");
}

#[test]
fn clock_depends_on_instant_and_offset_alone() {
    for (secs, shift) in [(1_599_943_000i64, 32_400i32), (12, -7), (-86_401, 3)] {
        assert_eq!(clock_text(secs, shift), clock_text(secs, shift));
        assert_eq!(clock_text(secs, shift), clock_text(secs + 86_400, shift));
        assert_eq!(clock_text(secs, shift), clock_text(secs + shift as i64, 0));
    }
}

#[test]
fn second_of_day_is_the_remainder_by_a_day() {
    assert_eq!(day_second(1_600_000_000, 32_400), 77_200);
    assert_eq!(day_second(0, 0), 0);
    assert_eq!(day_second(-1, 0), 86_399);
    assert_eq!(day_second(86_400, -86_400), 0);
    assert_eq!(day_second(i64::MAX, 0), 55_807);
}
