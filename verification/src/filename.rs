//! The file name that a capture time gives.

use crate::decimal::{decimal_string, decimal_text};
use crate::epoch::{local_epoch_seconds, parse_local_epoch};
use crate::error::RenameError;
use crate::select::is_media_extension;
use crate::text::{
    chars_of, is_space, leading_fields, optional_text, push_range, skip_spaces, skip_word,
    split_leading_fields, strip_colons, without_colons,
};
use vstd::prelude::*;

verus! {

/// Seconds east of UTC at which every capture time is read: eight hours.
pub const CAPTURE_OFFSET_SECONDS: i32 = 28800;

/// The pattern of a capture date-time, `YYYY:MM:DD HH:MM:SS`.
pub open spec fn capture_format() -> Seq<char> {
    "%Y:%m:%d %H:%M:%S"@
}

/// The ending of every derived name, `.CR3`.
pub open spec fn media_suffix() -> Seq<char> {
    seq!['.', 'C', 'R', '3']
}

/// The leading part of a derived name: the epoch seconds in decimal, the
/// sub-second tag as it stands, and a closing `0`.
pub open spec fn timestamp_text(epoch: int, subsec: Seq<char>) -> Seq<char> {
    decimal_text(epoch) + subsec + seq!['0']
}

/// The name derived from a capture date-time whose epoch seconds are known:
/// the timestamp, the date field without colons, and the first four
/// characters of the time field without colons, joined by `-` and closed by
/// `.CR3`. The date-time must split at white space into a date and a time
/// field, and the time field must keep four characters without its colons.
pub open spec fn file_name_text(epoch: int, date_time: Seq<char>, subsec: Seq<char>) -> Result<
    Seq<char>,
    RenameError,
> {
    match leading_fields(date_time) {
        Some((date, time)) => {
            if without_colons(time).len() >= 4 {
                Ok(
                    timestamp_text(epoch, subsec) + seq!['-'] + without_colons(date) + seq!['-']
                        + without_colons(time).take(4) + media_suffix(),
                )
            } else {
                Err(RenameError::MalformedDateTime)
            }
        },
        None => Err(RenameError::MalformedDateTime),
    }
}

/// The name derived from the two capture tags.
pub open spec fn derived_name(date_time: Seq<char>, subsec: Seq<char>) -> Result<
    Seq<char>,
    RenameError,
> {
    match local_epoch_seconds(date_time, capture_format(), CAPTURE_OFFSET_SECONDS) {
        Some(epoch) => file_name_text(epoch as int, date_time, subsec),
        None => Err(RenameError::MalformedDateTime),
    }
}

/// The name that a file with these tags is to carry. A tag that is absent is
/// `None`.
pub open spec fn target_name_text(date_time: Option<Seq<char>>, subsec: Option<Seq<char>>) -> Result<
    Seq<char>,
    RenameError,
> {
    match (date_time, subsec) {
        (Some(date_time), Some(subsec)) => derived_name(date_time, subsec),
        _ => Err(RenameError::MissingCaptureMetadata),
    }
}

/// Whether `outcome` is the name or the error that `expected` says.
pub open spec fn names_agree(
    outcome: Result<String, RenameError>,
    expected: Result<Seq<char>, RenameError>,
) -> bool {
    match outcome {
        Ok(name) => expected == Ok::<Seq<char>, RenameError>(name@),
        Err(error) => expected == Err::<Seq<char>, RenameError>(error),
    }
}

/// Whether `c` is a decimal digit.
pub open spec fn is_digit(c: char) -> bool {
    '0' <= c <= '9'
}

/// Whether `date_time` is written as `YYYY:MM:DD HH:MM:SS`: nineteen
/// characters, all of them digits but for the four colons and the space.
pub open spec fn is_canonical_date_time(date_time: Seq<char>) -> bool {
    &&& date_time.len() == 19
    &&& date_time[4] == ':'
    &&& date_time[7] == ':'
    &&& date_time[10] == ' '
    &&& date_time[13] == ':'
    &&& date_time[16] == ':'
    &&& forall|i: int|
        0 <= i < 19 && i != 4 && i != 7 && i != 10 && i != 13 && i != 16 ==> is_digit(
            #[trigger] date_time[i],
        )
}

/// Whether the last characters of `name` are `.CR3`.
pub open spec fn has_media_suffix(name: Seq<char>) -> bool {
    name.len() >= 4 && name.subrange(name.len() - 4, name.len() as int) == media_suffix()
}

/// For a date-time written as `YYYY:MM:DD HH:MM:SS` the name is the
/// timestamp, then `-YYYYMMDD-HHMM.CR3`: the seconds do not reach the name but
/// through the timestamp.
pub proof fn lemma_canonical_name(epoch: int, date_time: Seq<char>, subsec: Seq<char>)
    requires
        is_canonical_date_time(date_time),
    ensures
        file_name_text(epoch, date_time, subsec) == Ok::<Seq<char>, RenameError>(
            timestamp_text(epoch, subsec) + seq!['-'] + date_time.subrange(0, 4)
                + date_time.subrange(5, 7) + date_time.subrange(8, 10) + seq!['-']
                + date_time.subrange(11, 13) + date_time.subrange(14, 16) + media_suffix(),
        ),
{
    let s = date_time;
    assert forall|i: int|
        0 <= i < 19 && i != 4 && i != 7 && i != 10 && i != 13 && i != 16 implies !is_space(
        #[trigger] s[i],
    ) && s[i] != ':' by {
        assert(is_digit(s[i]));
    }
    // The fields are the first ten characters and the last eight.
    reveal_with_fuel(skip_spaces, 3);
    reveal_with_fuel(skip_word, 12);
    assert(leading_fields(s) == Some((s.subrange(0, 10), s.subrange(11, 19))));
    reveal_with_fuel(Seq::filter, 12);
    assert(file_name_text(epoch, s, subsec).unwrap() =~= timestamp_text(epoch, subsec) + seq!['-']
        + s.subrange(0, 4) + s.subrange(5, 7) + s.subrange(8, 10) + seq!['-'] + s.subrange(11, 13)
        + s.subrange(14, 16) + media_suffix());
}

/// Every derived name ends in `.CR3`, whatever the file was called before,
/// and `CR3` is a media extension: a file that has been renamed is found
/// again by the next run.
pub proof fn lemma_name_keeps_media_suffix(epoch: int, date_time: Seq<char>, subsec: Seq<char>)
    requires
        file_name_text(epoch, date_time, subsec) is Ok,
    ensures
        has_media_suffix(file_name_text(epoch, date_time, subsec).unwrap()),
        is_media_extension(seq!['C', 'R', '3']),
{
    reveal_strlit("CR3");
    assert("CR3"@ =~= seq!['C', 'R', '3']);
    let name = file_name_text(epoch, date_time, subsec).unwrap();
    assert(name.subrange(name.len() - 4, name.len() as int) =~= media_suffix());
}

/// The name of the tag that holds the capture date-time.
pub fn date_time_tag() -> (name: &'static str)
    ensures
        name@ == "Exif.Photo.DateTimeOriginal"@,
{
    "Exif.Photo.DateTimeOriginal"
}

/// The name of the tag that holds the fraction of the capture second.
pub fn subsec_tag() -> (name: &'static str)
    ensures
        name@ == "Exif.Photo.SubSecTimeOriginal"@,
{
    "Exif.Photo.SubSecTimeOriginal"
}

/// Writes the timestamp that leads a derived name.
pub fn formatted_timestamp(epoch: i64, subsec: &str) -> (text: String)
    ensures
        text@ == timestamp_text(epoch as int, subsec@),
{
    let mut text = decimal_string(epoch);
    text.append(subsec);
    text.push('0');
    text
}

/// Builds the name for a capture date-time whose epoch seconds are `epoch`.
pub fn assemble_file_name(epoch: i64, date_time: &str, subsec: &str) -> (outcome: Result<
    String,
    RenameError,
>)
    ensures
        names_agree(outcome, file_name_text(epoch as int, date_time@, subsec@)),
{
    let chars = chars_of(date_time);
    match split_leading_fields(&chars) {
        Some((date, time)) => {
            let date_digits = strip_colons(&date);
            let time_digits = strip_colons(&time);
            if time_digits.len() < 4 {
                return Err(RenameError::MalformedDateTime);
            }
            let mut name = formatted_timestamp(epoch, subsec);
            name.push('-');
            push_range(&mut name, &date_digits, 0, date_digits.len());
            name.push('-');
            push_range(&mut name, &time_digits, 0, 4);
            name.push('.');
            name.push('C');
            name.push('R');
            name.push('3');
            proof {
                assert(name@ =~= file_name_text(epoch as int, date_time@, subsec@).unwrap());
            }
            Ok(name)
        },
        None => Err(RenameError::MalformedDateTime),
    }
}

/// Derives the name from the two capture tags: the date-time is read as a
/// moment eight hours east of UTC, and the name is built from its epoch
/// seconds.
pub fn derive_file_name(date_time: &str, subsec: &str) -> (outcome: Result<String, RenameError>)
    ensures
        names_agree(outcome, derived_name(date_time@, subsec@)),
{
    match parse_local_epoch(date_time, "%Y:%m:%d %H:%M:%S", CAPTURE_OFFSET_SECONDS) {
        Some(epoch) => assemble_file_name(epoch, date_time, subsec),
        None => Err(RenameError::MalformedDateTime),
    }
}

/// Derives the name for a file from the tags that were found in it. A file
/// that lacks either tag is not renamed.
pub fn target_name(date_time: Option<&str>, subsec: Option<&str>) -> (outcome: Result<
    String,
    RenameError,
>)
    ensures
        names_agree(outcome, target_name_text(optional_text(date_time), optional_text(subsec))),
        date_time is None || subsec is None ==> outcome == Err::<String, RenameError>(
            RenameError::MissingCaptureMetadata,
        ),
{
    match (date_time, subsec) {
        (Some(date_time), Some(subsec)) => derive_file_name(date_time, subsec),
        _ => Err(RenameError::MissingCaptureMetadata),
    }
}

} // verus!
