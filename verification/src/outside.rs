//! Calls into other crates and into the parts of `std` that Verus has no
//! specification of. Everything here that is marked `external_body`, and every
//! `assume_specification`, is believed and not proved.

use std::path::PathBuf;
use std::time::{Duration, SystemTime};
use vstd::prelude::*;
use vstd::utf8::encode_utf8;

verus! {

// ---- paths ----

/// `std::path::PathBuf` is carried through as an opaque value.
#[verifier::external_type_specification]
#[verifier::external_body]
pub struct ExPathBuf(PathBuf);

/// The path that a text spells.
pub uninterp spec fn path_of(spelling: Seq<char>) -> PathBuf;

/// The path of the entry `name` in the directory `base`.
pub uninterp spec fn joined_path(base: PathBuf, name: Seq<char>) -> PathBuf;

/// `PathBuf::from` with a string slice gives the path that the text spells, the
/// same path for the same text.
#[verifier::external_body]
pub(crate) fn path_from(spelling: &str) -> (path: PathBuf)
    ensures
        path == path_of(spelling@),
{
    PathBuf::from(spelling)
}

/// `Path::join` adjoins a name to a path. The result depends on the two alone;
/// which separator the platform puts between them is left unsaid.
#[verifier::external_body]
pub(crate) fn path_join(base: &PathBuf, name: &str) -> (path: PathBuf)
    ensures
        path == joined_path(*base, name@),
{
    base.join(name)
}

/// `PathBuf::clone` gives the same path again.
pub assume_specification[ <PathBuf as Clone>::clone ](path: &PathBuf) -> (copy: PathBuf)
    ensures
        copy == *path,
;

// ---- clocks ----

/// The whole milliseconds that a duration contains.
pub uninterp spec fn whole_ms(duration: Duration) -> u128;

/// `Duration::as_millis` gives the number of whole milliseconds that a duration
/// contains.
pub assume_specification[ Duration::as_millis ](duration: &Duration) -> (ms: u128)
    ensures
        ms == whole_ms(*duration),
;

/// `SystemTime::elapsed` of the Unix epoch: the time that has passed since, or
/// nothing where the clock stands before the epoch. What the clock shows is left
/// open.
#[verifier::external_body]
fn unix_elapsed() -> (elapsed: Option<Duration>) {
    SystemTime::UNIX_EPOCH.elapsed().ok()
}

/// The whole milliseconds of a reading of the clock.
pub open spec fn opt_whole_ms(elapsed: Option<Duration>) -> Option<u128> {
    match elapsed {
        Some(elapsed) => Some(whole_ms(elapsed)),
        None => None,
    }
}

/// Milliseconds since the epoch as 64 bits: the low 64 bits of the count, and
/// zero for a clock that stands before the epoch.
pub open spec fn epoch_ms_of(elapsed: Option<u128>) -> int {
    match elapsed {
        Some(elapsed) => elapsed as int % 0x1_0000_0000_0000_0000,
        None => 0,
    }
}

/// Narrows a reading of the clock to 64 bits.
pub fn epoch_ms(elapsed: Option<u128>) -> (now: u64)
    ensures
        now == epoch_ms_of(elapsed),
{
    match elapsed {
        Some(elapsed) => {
            assert(elapsed as u64 == elapsed % 0x1_0000_0000_0000_0000) by (bit_vector);
            #[verifier::truncate]
            (elapsed as u64)
        },
        None => 0,
    }
}

/// The present time in milliseconds since the Unix epoch.
pub(crate) fn now_ms() -> (now: u64)
    ensures
        exists|elapsed: Option<Duration>| now == epoch_ms_of(#[trigger] opt_whole_ms(elapsed)),
{
    let elapsed = unix_elapsed();
    let elapsed_ms = match &elapsed {
        Some(elapsed) => Some(elapsed.as_millis()),
        None => None,
    };
    assert(elapsed_ms == opt_whole_ms(elapsed));
    epoch_ms(elapsed_ms)
}

/// True where every character from `from` up to `to` is a decimal digit.
pub open spec fn digits(text: Seq<char>, from: int, to: int) -> bool {
    forall|i: int| from <= i < to ==> '0' <= #[trigger] text[i] <= '9'
}

/// The number that the decimal digits from `from` up to `to` write.
pub open spec fn number(text: Seq<char>, from: int, to: int) -> int
    decreases to - from,
{
    if from >= to {
        0
    } else {
        10 * number(text, from, to - 1) + (text[to - 1] as int - '0' as int)
    }
}

/// The number of days that a month of the Gregorian calendar has.
pub open spec fn days_in_month(year: int, month: int) -> int {
    if month == 2 {
        if year % 4 == 0 && (year % 100 != 0 || year % 400 == 0) {
            29
        } else {
            28
        }
    } else if month == 4 || month == 6 || month == 9 || month == 11 {
        30
    } else {
        31
    }
}

/// True of a date from 1970 on, written with a year of `width` characters, a month
/// and a day. A year past 9999 is written with a sign.
pub open spec fn is_date(text: Seq<char>, width: int) -> bool {
    let year = number(text, if width == 4 { 0 } else { 1 }, width);
    let month = number(text, width + 1, width + 3);
    let day = number(text, width + 4, width + 6);
    &&& {
        ||| width == 4 && digits(text, 0, 4)
        ||| width >= 6 && text[0] == '+' && digits(text, 1, width) && text[1] != '0'
    }
    &&& text[width] == '-' && digits(text, width + 1, width + 3)
    &&& text[width + 3] == '-' && digits(text, width + 4, width + 6)
    &&& year >= 1970
    &&& 1 <= month <= 12
    &&& 1 <= day <= days_in_month(year, month)
}

/// True of an hour, a minute and a second, written from `from` on.
pub open spec fn is_time_of_day(text: Seq<char>, from: int) -> bool {
    &&& digits(text, from, from + 2) && number(text, from, from + 2) < 24
    &&& text[from + 2] == ':'
    &&& digits(text, from + 3, from + 5) && number(text, from + 3, from + 5) < 60
    &&& text[from + 5] == ':'
    &&& digits(text, from + 6, from + 8) && number(text, from + 6, from + 8) < 60
}

/// True of a fraction of a second that takes up the characters from `from` up to
/// `to`: none, or a point and three, six or nine digits, the last three not all zero.
pub open spec fn is_fraction(text: Seq<char>, from: int, to: int) -> bool {
    ||| from == to
    ||| {
        &&& to == from + 4 || to == from + 7 || to == from + 10
        &&& text[from] == '.'
        &&& digits(text, from + 1, to)
        &&& number(text, to - 3, to) > 0
    }
}

/// True of a date and time in UTC as RFC 3339 writes it, with a year of `width`
/// characters and a fraction of a second that ends before `end`.
pub open spec fn rfc3339_utc_with(text: Seq<char>, width: int, end: int) -> bool {
    &&& width + 15 <= end == text.len() - 6
    &&& is_date(text, width)
    &&& text[width + 6] == 'T'
    &&& is_time_of_day(text, width + 7)
    &&& is_fraction(text, width + 15, end)
    &&& text.skip(end) == "+00:00"@
}

/// True of a date and time in UTC, from 1970 on, as RFC 3339 writes it.
pub open spec fn is_rfc3339_utc(text: Seq<char>) -> bool {
    exists|width: int, end: int| rfc3339_utc_with(text, width, end)
}

/// `chrono::Utc::now`, written by `DateTime::to_rfc3339`: the present date and
/// time in UTC, which the calendar and the clock have, with offset `+00:00` and as
/// many digits of the second as it has, in groups of three. Which instant that is is left open. The call does not
/// return on a machine whose clock stands before the Unix epoch or past the last
/// year that `chrono` counts.
#[verifier::external_body]
pub(crate) fn utc_now_rfc3339() -> (written: String)
    ensures
        is_rfc3339_utc(written@),
{
    chrono::Utc::now().to_rfc3339()
}

// ---- session keys ----

/// A hexadecimal digit in lower case.
pub open spec fn is_lower_hex(c: char) -> bool {
    '0' <= c <= '9' || 'a' <= c <= 'f'
}

/// True of a random UUID (version 4) in its hyphenated form in lower case.
pub open spec fn is_random_uuid(text: Seq<char>) -> bool {
    &&& text.len() == 36
    &&& forall|i: int|
        0 <= i < 36 ==> if i == 8 || i == 13 || i == 18 || i == 23 {
            #[trigger] text[i] == '-'
        } else {
            is_lower_hex(text[i])
        }
    &&& text[14] == '4'
    &&& text[19] == '8' || text[19] == '9' || text[19] == 'a' || text[19] == 'b'
}

/// `uuid::Uuid::new_v4`, written by its `Display`: a random UUID. Which one is
/// left to chance. The call does not return where the operating system gives no
/// random bytes.
#[verifier::external_body]
pub(crate) fn random_uuid() -> (key: String)
    ensures
        is_random_uuid(key@),
{
    uuid::Uuid::new_v4().to_string()
}

// ---- percent encoding ----

/// The bytes that stand for themselves in a URL.
pub open spec fn is_unreserved(byte: u8) -> bool {
    let c = byte as char;
    ||| '0' <= c <= '9'
    ||| 'A' <= c <= 'Z'
    ||| 'a' <= c <= 'z'
    ||| c == '-'
    ||| c == '.'
    ||| c == '_'
    ||| c == '~'
}

/// The hexadecimal digit of a value below 16, in upper case.
pub open spec fn upper_hex(value: u8) -> char {
    if value < 10 {
        (value + 48) as char
    } else {
        (value + 55) as char
    }
}

/// How one byte is written in a URL.
pub open spec fn percent_encoded_byte(byte: u8) -> Seq<char> {
    if is_unreserved(byte) {
        seq![byte as char]
    } else {
        seq!['%', upper_hex(byte / 16), upper_hex(byte % 16)]
    }
}

/// How a sequence of bytes is written in a URL.
pub open spec fn percent_encoded(bytes: Seq<u8>) -> Seq<char>
    decreases bytes.len(),
{
    if bytes.len() == 0 {
        Seq::empty()
    } else {
        percent_encoded_byte(bytes.first()) + percent_encoded(bytes.drop_first())
    }
}

/// `urlencoding::encode` writes every byte of the UTF-8 form of a text as `%` and
/// two hexadecimal digits in upper case, except letters, digits and `-`, `_`, `.`,
/// `~`, which stand for themselves.
#[verifier::external_body]
pub(crate) fn url_encode(text: &str) -> (encoded: String)
    ensures
        encoded@ == percent_encoded(encode_utf8(text@)),
{
    urlencoding::encode(text).into_owned()
}

} // verus!
