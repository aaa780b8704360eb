//! Recovering capture times from what a parser found in a media file.
//!
//! The parser itself runs at the caller's, next to the file. The library
//! decides what is asked of it and what its answers mean: a probe of the
//! container says what to parse the file as and which tags to read, and the
//! readings say which times the file gives.

use crate::error::ErrorKind;
use crate::time::resolve;
use crate::time::resolves_to;
use crate::time::Instant;
use crate::time::TagTime;
use vstd::prelude::*;
use vstd::string::StringExecFns;

verus! {

/// What a first look at a file's header says about its container.
#[derive(Debug, Clone, Copy, PartialEq, Eq, Structural)]
pub struct Probe {
    /// The container can carry image tags.
    pub has_exif: bool,
    /// The container can carry track metadata.
    pub has_track: bool,
}

/// The kind of metadata a file offers. Every file falls under exactly one.
#[derive(Debug, Clone, Copy, PartialEq, Eq, Structural)]
pub enum Classification {
    ImageWithExif,
    VideoWithTrackMetadata,
    NoRecognizedMetadata,
}

/// A date tag of a media file.
#[derive(Debug, Clone, Copy, PartialEq, Eq, Structural)]
pub enum Tag {
    /// When the picture or the recording was made.
    CreateDate,
    /// When the file was last changed.
    ModifyDate,
}

/// What a parser found under one tag: a time, or nothing where the tag is
/// missing or holds no time.
#[derive(Debug, Clone, Copy, PartialEq, Eq, Structural)]
pub struct Reading {
    pub tag: Tag,
    pub time: Option<TagTime>,
}

/// Why a parser gave no answer.
#[derive(Debug, Clone, PartialEq, Eq)]
pub enum ParseFailure {
    /// The file could not be opened or read.
    Io(String),
    /// The parser turned the file down: truncated, corrupt, or a format it
    /// does not know.
    Rejected(String),
    /// The parser broke off on data it could not cope with.
    Crashed,
}

/// The two date tags of an image, as found.
#[derive(Debug, Clone, Copy, PartialEq, Eq, Structural)]
pub struct ExifDates {
    pub created: Option<TagTime>,
    pub modified: Option<TagTime>,
}

/// The times recovered from one file. A file counts as read only if at least
/// one of the two is there.
#[derive(Debug, Clone, Copy, PartialEq, Eq, Structural)]
pub struct DateTimes {
    pub created_date: Option<Instant>,
    pub modified_date: Option<Instant>,
}

impl Default for DateTimes {
    fn default() -> (dates: DateTimes)
        ensures
            dates.created_date is None,
            dates.modified_date is None,
    {
        DateTimes { created_date: None, modified_date: None }
    }
}

/// The category of a probed container: image tags win over track metadata,
/// and a container with neither has no recognized metadata.
pub open spec fn classification(probe: Probe) -> Classification {
    if probe.has_exif {
        Classification::ImageWithExif
    } else if probe.has_track {
        Classification::VideoWithTrackMetadata
    } else {
        Classification::NoRecognizedMetadata
    }
}

/// Sorts a probed container into its category.
pub fn classify(probe: Probe) -> (class: Classification)
    ensures
        class == classification(probe),
{
    if probe.has_exif {
        Classification::ImageWithExif
    } else if probe.has_track {
        Classification::VideoWithTrackMetadata
    } else {
        Classification::NoRecognizedMetadata
    }
}

/// The record made of two recovered times, or the failure where both are
/// absent.
pub open spec fn gathered(created: Option<Instant>, modified: Option<Instant>) -> Result<
    DateTimes,
    ErrorKind,
> {
    if created is None && modified is None {
        Err(ErrorKind::MissingDates)
    } else {
        Ok(DateTimes { created_date: created, modified_date: modified })
    }
}

/// Puts two recovered times into a record; with neither there, the file has
/// no dates.
pub fn gather(created: Option<Instant>, modified: Option<Instant>) -> (r: Result<
    DateTimes,
    ErrorKind,
>)
    ensures
        r == gathered(created, modified),
{
    if created.is_none() && modified.is_none() {
        Err(ErrorKind::MissingDates)
    } else {
        Ok(DateTimes { created_date: created, modified_date: modified })
    }
}

/// Whether `r` is a sound reading of the two tags: a record holds for each
/// tag an instant that the tag resolves to, and at least one; the only
/// failure is that of missing dates, and it comes only when neither tag is
/// bound to give an instant.
pub open spec fn read_from_tags(
    created: Option<TagTime>,
    modified: Option<TagTime>,
    r: Result<DateTimes, ErrorKind>,
) -> bool {
    match r {
        Ok(dates) => {
            &&& resolves_to(created, dates.created_date)
            &&& resolves_to(modified, dates.modified_date)
            &&& (dates.created_date is Some || dates.modified_date is Some)
        },
        Err(e) => {
            &&& e is MissingDates
            &&& resolves_to(created, None)
            &&& resolves_to(modified, None)
        },
    }
}

/// Recovers the times of an image from its two date tags, each resolved on
/// its own: one bad tag does not spoil the other.
pub fn image_dates(tags: ExifDates) -> (r: Result<DateTimes, ErrorKind>)
    ensures
        read_from_tags(tags.created, tags.modified, r),
{
    gather(resolve(tags.created), resolve(tags.modified))
}

/// Recovers the time of a video from its creation tag; track metadata gives
/// no modification time.
pub fn video_dates(created: Option<TagTime>) -> (r: Result<DateTimes, ErrorKind>)
    ensures
        read_from_tags(created, None, r),
        r matches Ok(dates) ==> dates.modified_date is None,
{
    gather(resolve(created), None)
}

/// The reason given for a parser that broke off.
pub open spec fn crash_text() -> Seq<char> {
    "the parser broke off on malformed data"@
}

/// Whether `e` is the error that a parser's failure is reported as: a
/// failure to read is an I/O error, and a file that the parser turned down
/// or broke off on is unsupported or unparsable.
pub open spec fn reports(e: ErrorKind, failure: ParseFailure) -> bool {
    match failure {
        ParseFailure::Io(reason) => e matches ErrorKind::Io(text) && text@ == reason@,
        ParseFailure::Rejected(reason) => e matches ErrorKind::UnsupportedOrUnparsable(text)
            && text@ == reason@,
        ParseFailure::Crashed => e matches ErrorKind::UnsupportedOrUnparsable(text) && text@
            == crash_text(),
    }
}

/// Turns a parser's failure into the error it is reported as.
pub fn failure_kind(failure: &ParseFailure) -> (e: ErrorKind)
    ensures
        reports(e, *failure),
{
    match failure {
        ParseFailure::Io(reason) => ErrorKind::Io(reason.clone()),
        ParseFailure::Rejected(reason) => ErrorKind::UnsupportedOrUnparsable(reason.clone()),
        ParseFailure::Crashed => ErrorKind::UnsupportedOrUnparsable(
            String::from_str("the parser broke off on malformed data"),
        ),
    }
}

/// What is to be parsed after a probe: the category of the container, or
/// the error that ends the attempt. A probe that failed is reported as it
/// failed, and a container that offers neither image tags nor track metadata
/// is missing metadata.
pub open spec fn parse_planned(
    probed: Result<Probe, ParseFailure>,
    r: Result<Classification, ErrorKind>,
) -> bool {
    match probed {
        Err(failure) => r matches Err(e) && reports(e, failure),
        Ok(probe) => match classification(probe) {
            Classification::NoRecognizedMetadata => r matches Err(e) && e is MissingMetadata,
            class => r == Ok::<Classification, ErrorKind>(class),
        },
    }
}

/// Decides from the probe of a file what it is to be parsed as.
///
/// The answer is never `NoRecognizedMetadata`: a file of that kind is not
/// parsed at all.
pub fn plan_parse(probed: &Result<Probe, ParseFailure>) -> (r: Result<Classification, ErrorKind>)
    ensures
        parse_planned(*probed, r),
        r matches Ok(class) ==> class != Classification::NoRecognizedMetadata,
{
    match probed {
        Err(failure) => Err(failure_kind(failure)),
        Ok(probe) => match classify(*probe) {
            Classification::NoRecognizedMetadata => Err(ErrorKind::MissingMetadata),
            Classification::ImageWithExif => Ok(Classification::ImageWithExif),
            Classification::VideoWithTrackMetadata => Ok(Classification::VideoWithTrackMetadata),
        },
    }
}

/// The tags that are read from a container of the given category, in the
/// order in which they are asked for: both dates of an image, the creation
/// date alone of a video, as track metadata has no modification date.
pub open spec fn wanted(class: Classification) -> Seq<Tag> {
    match class {
        Classification::ImageWithExif => seq![Tag::CreateDate, Tag::ModifyDate],
        Classification::VideoWithTrackMetadata => seq![Tag::CreateDate],
        Classification::NoRecognizedMetadata => seq![],
    }
}

/// Lists the tags to read from a container of the given category.
pub fn wanted_tags(class: Classification) -> (tags: Vec<Tag>)
    ensures
        tags@ == wanted(class),
{
    let mut tags: Vec<Tag> = Vec::new();
    match class {
        Classification::ImageWithExif => {
            tags.push(Tag::CreateDate);
            tags.push(Tag::ModifyDate);
        },
        Classification::VideoWithTrackMetadata => {
            tags.push(Tag::CreateDate);
        },
        Classification::NoRecognizedMetadata => {},
    }
    tags
}

/// What the readings hold for a tag: the time of the first reading of that
/// tag, and nothing where the tag was not read.
pub open spec fn reading_of(readings: Seq<Reading>, tag: Tag) -> Option<TagTime>
    decreases readings.len(),
{
    if readings.len() == 0 {
        None
    } else if readings.first().tag == tag {
        readings.first().time
    } else {
        reading_of(readings.drop_first(), tag)
    }
}

/// Looks up what was read for a tag.
pub fn find_reading(readings: &Vec<Reading>, tag: Tag) -> (time: Option<TagTime>)
    ensures
        time == reading_of(readings@, tag),
{
    let mut i: usize = 0;
    assert(readings@.skip(0) =~= readings@);
    while i < readings.len()
        invariant
            i <= readings.len(),
            reading_of(readings@, tag) == reading_of(readings@.skip(i as int), tag),
        decreases readings.len() - i,
    {
        assert(readings@.skip(i as int).drop_first() =~= readings@.skip(i + 1));
        if readings[i].tag == tag {
            return readings[i].time;
        }
        i = i + 1;
    }
    None
}

/// Whether `r` is a sound extraction, given what the file was parsed as and
/// what the parser answered.
///
/// Without recognized metadata the file is missing metadata, whatever the
/// parser says. A parser's failure is reported as it failed. Otherwise the
/// outcome is read from the tags: creation and modification date of an
/// image, creation date alone of a video.
pub open spec fn extracted(
    class: Classification,
    parsed: Result<Vec<Reading>, ParseFailure>,
    r: Result<DateTimes, ErrorKind>,
) -> bool {
    match class {
        Classification::NoRecognizedMetadata => r matches Err(e) && e is MissingMetadata,
        Classification::ImageWithExif => match parsed {
            Err(failure) => r matches Err(e) && reports(e, failure),
            Ok(readings) => read_from_tags(
                reading_of(readings@, Tag::CreateDate),
                reading_of(readings@, Tag::ModifyDate),
                r,
            ),
        },
        Classification::VideoWithTrackMetadata => match parsed {
            Err(failure) => r matches Err(e) && reports(e, failure),
            Ok(readings) => {
                &&& read_from_tags(reading_of(readings@, Tag::CreateDate), None, r)
                &&& r matches Ok(dates) ==> dates.modified_date is None
            },
        },
    }
}

/// Recovers the capture times of a file from what the parser read.
///
/// `class` is what the file was parsed as, `parsed` the readings of the tags
/// that were asked for, or the parser's failure. Where a parser turns down a
/// container it knows because it finds no tags in it, that is a failure of
/// the parse like any other and is reported in the parser's words: metadata
/// counts as missing only where the container is of no recognized kind.
pub fn extract(class: Classification, parsed: &Result<Vec<Reading>, ParseFailure>) -> (r: Result<
    DateTimes,
    ErrorKind,
>)
    ensures
        extracted(class, *parsed, r),
{
    match class {
        Classification::NoRecognizedMetadata => Err(ErrorKind::MissingMetadata),
        Classification::ImageWithExif => match parsed {
            Err(failure) => Err(failure_kind(failure)),
            Ok(readings) => image_dates(
                ExifDates {
                    created: find_reading(readings, Tag::CreateDate),
                    modified: find_reading(readings, Tag::ModifyDate),
                },
            ),
        },
        Classification::VideoWithTrackMetadata => match parsed {
            Err(failure) => Err(failure_kind(failure)),
            Ok(readings) => video_dates(find_reading(readings, Tag::CreateDate)),
        },
    }
}

} // verus!
