//! Fresh identifiers and timestamps for new posts.
use vstd::prelude::*;

verus! {

/// The system clock's time type, carried through as an opaque value.
#[verifier::external_type_specification]
#[verifier::external_body]
pub struct ExSystemTime(std::time::SystemTime);

/// A lower-case hexadecimal digit.
pub open spec fn is_lower_hex_char(c: char) -> bool {
    ('0' <= c <= '9') || ('a' <= c <= 'f')
}

/// `text` is a random (version 4) UUID in hyphenated lower-case form:
/// 36 characters, hyphens at 8, 13, 18 and 23, the version digit `4` at 14,
/// a variant digit `8`, `9`, `a` or `b` at 19, hexadecimal digits elsewhere.
pub open spec fn is_v4_uuid_text(text: Seq<char>) -> bool {
    &&& text.len() == 36
    &&& forall|i: int|
        0 <= i < 36 ==> if i == 8 || i == 13 || i == 18 || i == 23 {
            #[trigger] text[i] == '-'
        } else {
            is_lower_hex_char(text[i])
        }
    &&& text[14] == '4'
    &&& (text[19] == '8' || text[19] == '9' || text[19] == 'a' || text[19] == 'b')
}

/// `uuid::Uuid::new_v4`, written out with `to_string`: random bits with the
/// version and variant set, in hyphenated lower-case form. Which bits come
/// out is left open: they are drawn from the system's random source.
#[verifier::external_body]
pub(crate) fn new_uuid_v4() -> (id: String)
    ensures
        is_v4_uuid_text(id@),
{
    uuid::Uuid::new_v4().to_string()
}

/// A decimal digit.
pub open spec fn is_digit_char(c: char) -> bool {
    '0' <= c <= '9'
}

/// `text` has the shape of `%Y-%m-%d %H:%M:%S`: it ends in `-MM-DD HH:MM:SS`
/// (two digits each), and the year before that is four digits, or, outside
/// the years 0 to 9999, a sign followed by at least four digits.
pub open spec fn is_timestamp_text(text: Seq<char>) -> bool {
    let n = text.len() as int;
    &&& n >= 19
    &&& forall|i: int|
        n - 15 <= i < n ==> if i == n - 15 || i == n - 12 {
            #[trigger] text[i] == '-'
        } else if i == n - 9 {
            text[i] == ' '
        } else if i == n - 6 || i == n - 3 {
            text[i] == ':'
        } else {
            is_digit_char(text[i])
        }
    &&& if n == 19 {
        forall|i: int| 0 <= i < 4 ==> is_digit_char(#[trigger] text[i])
    } else {
        &&& (text[0] == '+' || text[0] == '-')
        &&& forall|i: int| 1 <= i < n - 15 ==> is_digit_char(#[trigger] text[i])
    }
}

/// The largest count of seconds after 1970 that `chrono` represents as a
/// date: the last second of December 31 of the year 262142.
pub const MAX_FORMATTED_SECS: u64 = 8_210_266_876_799;

/// The text that `chrono` writes for the UTC time `secs` seconds and `nanos`
/// nanoseconds after 1970-01-01 00:00:00, in the format `%Y-%m-%d %H:%M:%S`.
pub uninterp spec fn unix_time_text(secs: i64, nanos: u32) -> Seq<char>;

/// `chrono::DateTime::from_timestamp`, formatted as `%Y-%m-%d %H:%M:%S`. The
/// bounds in `requires` keep the time inside the dates that `chrono`
/// represents, where `from_timestamp` returns a value. The text is a function
/// of the time; of it, this states the format's shape, and that the years up
/// to 9999 (times before 253402300800 seconds) take four digits.
#[verifier::external_body]
fn format_unix_time(secs: i64, nanos: u32) -> (text: String)
    requires
        0 <= secs <= MAX_FORMATTED_SECS,
        nanos < 1_000_000_000,
    ensures
        text@ == unix_time_text(secs, nanos),
        is_timestamp_text(text@),
        secs < 253_402_300_800 ==> text@.len() == 19,
{
    chrono::DateTime::from_timestamp(secs, nanos).unwrap().format("%Y-%m-%d %H:%M:%S").to_string()
}

/// `std::time::SystemTime::now`: the system clock's reading, which nothing
/// here can predict.
#[verifier::external_body]
fn system_time_now() -> std::time::SystemTime {
    std::time::SystemTime::now()
}

/// `std::time::SystemTime::duration_since` the Unix epoch, as whole seconds
/// and the nanoseconds beyond them; `None` where `time` lies before 1970.
#[verifier::external_body]
fn duration_since_epoch(time: &std::time::SystemTime) -> (since: Option<(u64, u32)>)
    ensures
        since matches Some((secs, nanos)) ==> nanos < 1_000_000_000,
{
    match time.duration_since(std::time::UNIX_EPOCH) {
        Ok(duration) => Some((duration.as_secs(), duration.subsec_nanos())),
        Err(_) => None,
    }
}

/// A clock reading (seconds and nanoseconds after 1970) that can be written
/// as a date: within the dates that `chrono` represents, nanoseconds below
/// one second.
pub open spec fn is_formattable(secs: u64, nanos: u32) -> bool {
    secs <= MAX_FORMATTED_SECS && nanos < 1_000_000_000
}

/// The date text for a clock reading: `None` where there is no reading (a
/// clock before 1970) or the reading cannot be written as a date.
pub fn since_epoch_text(since: Option<(u64, u32)>) -> (text: Option<String>)
    ensures
        match since {
            Some((secs, nanos)) => if is_formattable(secs, nanos) {
                text matches Some(t) && t@ == unix_time_text(secs as i64, nanos) && is_timestamp_text(
                    t@,
                )
            } else {
                text is None
            },
            None => text is None,
        },
{
    match since {
        Some((secs, nanos)) => {
            if secs <= MAX_FORMATTED_SECS && nanos < 1_000_000_000 {
                Some(format_unix_time(secs as i64, nanos))
            } else {
                None
            }
        },
        None => None,
    }
}

/// The system clock's reading: seconds and nanoseconds after 1970, `None`
/// where the clock stands before 1970.
pub fn clock_reading() -> (since: Option<(u64, u32)>)
    ensures
        since matches Some((secs, nanos)) ==> nanos < 1_000_000_000,
{
    let now = system_time_now();
    duration_since_epoch(&now)
}

} // verus!
