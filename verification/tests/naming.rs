use shinydisc::brightwheel::Student;
use shinydisc::naming::{
    destination, format_filename, student_directory, Destination, Instant, FILE_FORMAT,
    MAX_NANOSECOND, MIN_NANOSECOND, MONTH_FORMAT,
};

/// 2024-03-15T10:00:00Z in nanoseconds since the Unix epoch.
const MARCH_15: i128 = 1_710_496_800_000_000_000;

fn place(directory: &str, month: &str, file_name: &str) -> Destination {
    Destination {
        directory: directory.to_string(),
        month: month.to_string(),
        file_name: file_name.to_string(),
    }
}

#[test]
fn formats_are_the_month_and_the_second() {
    assert_eq!(MONTH_FORMAT, "%Y-%m");
    assert_eq!(FILE_FORMAT, "%F-%H%M%S");
}

#[test]
fn format_filename_joins_stamp_identifier_and_extension() {
    assert_eq!(
        format_filename("2024-03-15-100000", "abc123", "jpg"),
        "2024-03-15-100000-abc123.jpg"
    );
    assert_eq!(format_filename("s", "i", "mp4"), "s-i.mp4");
    assert_eq!(format_filename("", "", ""), "-.");
}

#[test]
fn student_directory_is_first_name_space_last_name() {
    let student = Student {
        object_id: "s1".to_string(),
        first_name: "Ada".to_string(),
        last_name: "Lovelace".to_string(),
    };
    assert_eq!(student_directory(&student), "Ada Lovelace");
}

#[test]
fn student_directory_keeps_names_as_they_are() {
    let student = Student {
        object_id: "s1".to_string(),
        first_name: "Mary Ann".to_string(),
        last_name: "O'Neil/Jr.".to_string(),
    };
    assert_eq!(student_directory(&student), "Mary Ann O'Neil/Jr.");
}

#[test]
fn destination_of_a_photo_in_march() {
    let at = Instant { nanosecond: MARCH_15 };
    assert_eq!(
        destination("Ada Lovelace", at, "abc123", "jpg"),
        Some(place("Ada Lovelace", "2024-03", "2024-03-15-100000-abc123.jpg"))
    );
}

#[test]
fn destination_of_a_video_has_the_video_extension() {
    let at = Instant { nanosecond: MARCH_15 };
    assert_eq!(
        destination("Ada Lovelace", at, "abc123", "mp4"),
        Some(place("Ada Lovelace", "2024-03", "2024-03-15-100000-abc123.mp4"))
    );
}

#[test]
fn destination_reads_the_instant_in_utc() {
    assert_eq!(
        destination("c", Instant { nanosecond: 0 }, "x", "jpg"),
        Some(place("c", "1970-01", "1970-01-01-000000-x.jpg"))
    );
    let last_second_of_march = MARCH_15 + (16 * 86_400 + 14 * 3_600 - 1) * 1_000_000_000;
    assert_eq!(
        destination("c", Instant { nanosecond: last_second_of_march }, "x", "jpg"),
        Some(place("c", "2024-03", "2024-03-31-235959-x.jpg"))
    );
    assert_eq!(
        destination("c", Instant { nanosecond: last_second_of_march + 1_000_000_000 }, "x", "jpg"),
        Some(place("c", "2024-04", "2024-04-01-000000-x.jpg"))
    );
}

#[test]
fn destination_drops_the_fraction_of_a_second() {
    let at = Instant { nanosecond: MARCH_15 + 999_999_999 };
    assert_eq!(
        destination("c", at, "x", "jpg"),
        Some(place("c", "2024-03", "2024-03-15-100000-x.jpg"))
    );
}

#[test]
fn destination_before_the_epoch() {
    let at = Instant { nanosecond: -1_000_000_000 };
    assert_eq!(
        destination("c", at, "x", "jpg"),
        Some(place("c", "1969-12", "1969-12-31-235959-x.jpg"))
    );
}

#[test]
fn destination_has_none_for_an_instant_without_a_date() {
    assert_eq!(destination("c", Instant { nanosecond: i128::MAX }, "x", "jpg"), None);
    assert_eq!(destination("c", Instant { nanosecond: i128::MIN }, "x", "jpg"), None);
    assert_eq!(destination("c", Instant { nanosecond: MAX_NANOSECOND + 1 }, "x", "jpg"), None);
    assert_eq!(destination("c", Instant { nanosecond: MIN_NANOSECOND - 1 }, "x", "jpg"), None);
    let far = 1_000_000_000_000_000_000_000_000;
    assert_eq!(destination("c", Instant { nanosecond: far }, "x", "jpg"), None);
    assert_eq!(destination("c", Instant { nanosecond: -far }, "x", "jpg"), None);
}

#[test]
fn the_first_and_the_last_instant_have_a_date() {
    assert_eq!(MIN_NANOSECOND, -377_705_023_201 * 1_000_000_000);
    assert_eq!(MAX_NANOSECOND, 253_402_207_200 * 1_000_000_000 + 999_999_999);
    assert_eq!(
        destination("c", Instant { nanosecond: MIN_NANOSECOND }, "x", "jpg"),
        Some(place("c", "-9999-01", "-9999-01-02-015959-x.jpg"))
    );
    assert_eq!(
        destination("c", Instant { nanosecond: MAX_NANOSECOND }, "x", "jpg"),
        Some(place("c", "9999-12", "9999-12-30-220000-x.jpg"))
    );
}

#[test]
fn parse_reads_a_timestamp() {
    assert_eq!(Instant::parse("2024-03-15T10:00:00Z"), Some(Instant { nanosecond: MARCH_15 }));
    assert_eq!(
        Instant::parse("2024-03-15T12:30:00+02:30"),
        Some(Instant { nanosecond: MARCH_15 })
    );
    assert_eq!(
        Instant::parse("+002024-03-15T10:00:00Z"),
        Some(Instant { nanosecond: MARCH_15 })
    );
    assert_eq!(Instant::parse("1970-01-01T00:00:00Z"), Some(Instant { nanosecond: 0 }));
    assert_eq!(
        Instant::parse("1969-12-31T23:59:59.5Z"),
        Some(Instant { nanosecond: -500_000_000 })
    );
}

#[test]
fn parse_takes_the_first_year_and_the_last() {
    assert_eq!(
        Instant::parse("0000-01-01T00:00:00Z"),
        Some(Instant { nanosecond: -62_167_219_200_000_000_000 })
    );
    assert_eq!(
        Instant::parse("9999-12-30T22:00:00.999999999Z"),
        Some(Instant { nanosecond: MAX_NANOSECOND })
    );
    assert_eq!(Instant::parse("9999-12-30T22:00:01Z"), None);
}

#[test]
fn parse_takes_no_year_before_0() {
    assert_eq!(Instant::parse("-009999-01-02T01:59:58.5Z"), None);
    assert_eq!(Instant::parse("-009999-01-02T01:59:59Z"), None);
    assert_eq!(Instant::parse("-000001-12-31T23:59:59Z"), None);
    assert_eq!(Instant::parse("-2024-03-15T10:00:00Z"), None);
    assert_eq!(Instant::parse("-"), None);
}

#[test]
fn parse_takes_nothing_that_is_no_timestamp() {
    assert_eq!(Instant::parse(""), None);
    assert_eq!(Instant::parse("yesterday"), None);
    assert_eq!(Instant::parse("2024-03-15"), None);
    assert_eq!(Instant::parse("2024-03-15T10:00:00"), None);
    assert_eq!(Instant::parse(" 2024-03-15T10:00:00Z"), None);
}

#[test]
fn is_representable_tells_the_range() {
    assert!(Instant { nanosecond: 0 }.is_representable());
    assert!(Instant { nanosecond: MIN_NANOSECOND }.is_representable());
    assert!(Instant { nanosecond: MAX_NANOSECOND }.is_representable());
    assert!(!Instant { nanosecond: MIN_NANOSECOND - 1 }.is_representable());
    assert!(!Instant { nanosecond: MAX_NANOSECOND + 1 }.is_representable());
}
