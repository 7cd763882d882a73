//! Where a synchronised file goes: one directory per child, one directory
//! per calendar month below it, and a file name made of the activity's
//! instant, its identifier and an extension. Months and instants are read
//! in UTC.

use crate::brightwheel::{Student, StudentView};
use vstd::prelude::*;

verus! {

/// An instant: nanoseconds since the Unix epoch.
#[derive(Clone, Copy, Debug, PartialEq, Eq, Structural)]
pub struct Instant {
    pub nanosecond: i128,
}

/// The first instant that has a date: second -377705023201, the least
/// timestamp of jiff.
pub const MIN_NANOSECOND: i128 = -377_705_023_201_000_000_000;

/// The last instant that has a date: the last nanosecond of second
/// 253402207200, the greatest timestamp of jiff.
pub const MAX_NANOSECOND: i128 = 253_402_207_200_999_999_999;

impl Instant {
    /// Whether this instant has a date, so that it can be formatted.
    pub open spec fn representable(self) -> bool {
        MIN_NANOSECOND <= self.nanosecond <= MAX_NANOSECOND
    }

    /// Whether this instant has a date, so that it can be formatted.
    #[verifier::when_used_as_spec(representable)]
    pub fn is_representable(self) -> (yes: bool)
        ensures
            yes == self.representable(),
    {
        MIN_NANOSECOND <= self.nanosecond && self.nanosecond <= MAX_NANOSECOND
    }
}

/// The format of a month directory's name, as in `2024-03`.
pub const MONTH_FORMAT: &'static str = "%Y-%m";

/// The format of the instant in a file name, as in `2024-03-15-100000`.
pub const FILE_FORMAT: &'static str = "%F-%H%M%S";

/// The instant that jiff's timestamp parser reads out of `text`, in
/// nanoseconds since the Unix epoch; `None` where it reads none. The parser
/// takes an RFC 3339 timestamp such as `2024-03-15T10:00:00Z`, and some
/// more: an offset of hours alone, a time zone in brackets after the offset.
pub uninterp spec fn timestamp_nanosecond(text: Seq<char>) -> Option<i128>;

/// What `format` gives for the instant `nanosecond`, read in UTC.
pub uninterp spec fn strftime_text(nanosecond: i128, format: Seq<char>) -> Seq<char>;

/// Whether `text` begins with a minus sign, which is how a year before 0
/// is written.
pub open spec fn begins_with_minus(text: Seq<char>) -> bool {
    text.len() > 0 && text[0] == '-'
}

/// Calls `jiff::Timestamp`'s `FromStr` and hands back the timestamp's
/// `as_nanosecond`. Trusted: the result is the one that
/// `timestamp_nanosecond` names, so the same text always gives the same
/// instant. A text that begins with a minus sign is not handed in: within
/// the second before the least timestamp the parser may fail an assertion
/// of its own where an error is due, and only a year before 0 gets there.
#[verifier::external_body]
fn parse_timestamp(text: &str) -> (instant: Option<Instant>)
    requires
        !begins_with_minus(text@),
    ensures
        match instant {
            Some(at) => timestamp_nanosecond(text@) == Some(at.nanosecond),
            None => timestamp_nanosecond(text@) is None,
        },
{
    match text.parse::<jiff::Timestamp>() {
        Ok(timestamp) => Some(Instant { nanosecond: timestamp.as_nanosecond() }),
        Err(_) => None,
    }
}

/// Calls `jiff::Timestamp::strftime`, with one of the two formats above, on
/// the timestamp that `jiff::Timestamp::from_nanosecond` makes of `instant`.
/// Trusted: an instant between the least and the greatest timestamp is
/// made into a timestamp, and the text is the one that `strftime_text`
/// names. No other instant is handed in: `from_nanosecond` tests only that
/// the seconds fit in 64 bits.
#[verifier::external_body]
fn strftime(instant: Instant, format: &str) -> (text: Option<String>)
    requires
        instant.representable(),
        format@ == MONTH_FORMAT@ || format@ == FILE_FORMAT@,
    ensures
        match text {
            Some(s) => s@ == strftime_text(instant.nanosecond, format@),
            None => false,
        },
{
    match jiff::Timestamp::from_nanosecond(instant.nanosecond) {
        Ok(timestamp) => Some(timestamp.strftime(format).to_string()),
        Err(_) => None,
    }
}

/// The instant that `text` stands for: the one that the parser reads out
/// of it, where the text does not begin with a minus sign and the instant
/// has a date; `None` for every other text.
pub open spec fn instant_of(text: Seq<char>) -> Option<Instant> {
    if begins_with_minus(text) {
        None
    } else {
        match timestamp_nanosecond(text) {
            Some(nanosecond) => if (Instant { nanosecond }).representable() {
                Some(Instant { nanosecond })
            } else {
                None
            },
            None => None,
        }
    }
}

impl Instant {
    /// Reads a timestamp such as `2024-03-15T10:00:00Z`. A year before 0
    /// is not taken.
    pub fn parse(text: &str) -> (instant: Option<Instant>)
        ensures
            instant == instant_of(text@),
    {
        if !text.is_empty() && text.get_char(0) == '-' {
            return None;
        }
        match parse_timestamp(text) {
            Some(instant) => if instant.is_representable() {
                Some(instant)
            } else {
                None
            },
            None => None,
        }
    }
}

/// The name of a file: the instant's stamp, the activity's identifier, and
/// the extension.
pub open spec fn file_name_of(stamp: Seq<char>, object_id: Seq<char>, extension: Seq<char>) -> Seq<
    char,
> {
    stamp + "-"@ + object_id + "."@ + extension
}

/// The name of a child's directory: first name, a space, last name.
pub open spec fn directory_of(student: StudentView) -> Seq<char> {
    student.first_name + " "@ + student.last_name
}

/// Builds the name of a file from the stamp of its instant.
pub fn format_filename(stamp: &str, object_id: &str, extension: &str) -> (name: String)
    ensures
        name@ == file_name_of(stamp@, object_id@, extension@),
{
    let mut name = String::from_str(stamp);
    name.append("-");
    name.append(object_id);
    name.append(".");
    name.append(extension);
    name
}

/// Builds the name of a child's directory.
pub fn student_directory(student: &Student) -> (name: String)
    ensures
        name@ == directory_of(student@),
{
    let mut name = student.first_name.clone();
    name.append(" ");
    name.append(student.last_name.as_str());
    name
}

/// The place of one file below the working directory.
#[derive(Clone, Debug, PartialEq, Eq, Hash)]
pub struct Destination {
    /// The child's directory.
    pub directory: String,
    /// The month directory below it.
    pub month: String,
    /// The file in the month directory.
    pub file_name: String,
}

/// The mathematical value of a [`Destination`].
pub ghost struct DestinationView {
    pub directory: Seq<char>,
    pub month: Seq<char>,
    pub file_name: Seq<char>,
}

impl View for Destination {
    type V = DestinationView;

    open spec fn view(&self) -> DestinationView {
        DestinationView {
            directory: self.directory@,
            month: self.month@,
            file_name: self.file_name@,
        }
    }
}

/// The destination of the file for an activity that was created at
/// `created_at`, an instant that has a date, for the child whose directory
/// is `directory`.
pub open spec fn place_of(
    directory: Seq<char>,
    created_at: Instant,
    object_id: Seq<char>,
    extension: Seq<char>,
) -> DestinationView {
    DestinationView {
        directory,
        month: strftime_text(created_at.nanosecond, MONTH_FORMAT@),
        file_name: file_name_of(
            strftime_text(created_at.nanosecond, FILE_FORMAT@),
            object_id,
            extension,
        ),
    }
}

/// The destination of the file for an activity; `None` exactly where the
/// instant has no date.
pub open spec fn destination_of(
    directory: Seq<char>,
    created_at: Instant,
    object_id: Seq<char>,
    extension: Seq<char>,
) -> Option<DestinationView> {
    if created_at.representable() {
        Some(place_of(directory, created_at, object_id, extension))
    } else {
        None
    }
}

/// Derives the destination of the file for an activity whose instant has a
/// date.
pub(crate) fn place(directory: &str, created_at: Instant, object_id: &str, extension: &str) -> (found:
    Destination)
    requires
        created_at.representable(),
    ensures
        found@ == place_of(directory@, created_at, object_id@, extension@),
{
    let month = strftime(created_at, MONTH_FORMAT).unwrap();
    let stamp = strftime(created_at, FILE_FORMAT).unwrap();
    let file_name = format_filename(stamp.as_str(), object_id, extension);
    Destination { directory: String::from_str(directory), month, file_name }
}

/// Derives the destination of the file for one activity.
pub fn destination(directory: &str, created_at: Instant, object_id: &str, extension: &str) -> (found:
    Option<Destination>)
    ensures
        match found {
            Some(d) => destination_of(directory@, created_at, object_id@, extension@) == Some(d@),
            None => destination_of(directory@, created_at, object_id@, extension@) is None,
        },
{
    if created_at.is_representable() {
        Some(place(directory, created_at, object_id, extension))
    } else {
        None
    }
}

} // verus!
