use chrono::Local;
use chrono::TimeZone;
use chrono::Timelike;
use mfdf::extract;
use mfdf::media::failure_kind;
use mfdf::media::find_reading;
use mfdf::media::image_dates;
use mfdf::media::video_dates;
use mfdf::plan_parse;
use mfdf::plan_writes;
use mfdf::time::at_offset;
use mfdf::time::from_local;
use mfdf::time::resolve;
use mfdf::wanted_tags;
use mfdf::Attribute;
use mfdf::Classification;
use mfdf::DateTimes;
use mfdf::ErrorKind;
use mfdf::ExifDates;
use mfdf::Instant;
use mfdf::LocalTime;
use mfdf::ParseFailure;
use mfdf::Probe;
use mfdf::Reading;
use mfdf::Tag;
use mfdf::TagTime;
use mfdf::Write;
use nom_exif::EntryValue;
use nom_exif::Exif;
use nom_exif::ExifIter;
use nom_exif::ExifTag;
use nom_exif::MediaParser;
use nom_exif::MediaSource;
use nom_exif::TrackInfo;
use nom_exif::TrackInfoTag;
use std::io::Cursor;

fn failure(e: nom_exif::Error) -> ParseFailure {
    match e {
        nom_exif::Error::IOError(e) => ParseFailure::Io(e.to_string()),
        e => ParseFailure::Rejected(e.to_string()),
    }
}

fn tag_time(value: Option<&EntryValue>) -> Option<TagTime> {
    let (reading, zone) = value?.as_time_components()?;
    Some(TagTime {
        wall_seconds: reading.and_utc().timestamp(),
        nanos: reading.and_utc().timestamp_subsec_nanos(),
        offset: zone.map(|z| z.local_minus_utc()),
    })
}

fn read_tags(bytes: &[u8], class: Classification) -> Result<Vec<Reading>, nom_exif::Error> {
    let source = MediaSource::seekable(Cursor::new(bytes))?;
    let tags = wanted_tags(class);
    match class {
        Classification::ImageWithExif => {
            let entries: ExifIter = MediaParser::new().parse(source)?;
            let exif: Exif = entries.into();
            Ok(tags
                .iter()
                .map(|&tag| Reading {
                    tag,
                    time: match tag {
                        Tag::CreateDate => tag_time(exif.get(ExifTag::CreateDate)),
                        Tag::ModifyDate => tag_time(exif.get(ExifTag::ModifyDate)),
                    },
                })
                .collect())
        }
        Classification::VideoWithTrackMetadata => {
            let info: TrackInfo = MediaParser::new().parse(source)?;
            Ok(tags
                .iter()
                .map(|&tag| Reading {
                    tag,
                    time: match tag {
                        Tag::CreateDate => tag_time(info.get(TrackInfoTag::CreateDate)),
                        Tag::ModifyDate => None,
                    },
                })
                .collect())
        }
        Classification::NoRecognizedMetadata => Ok(Vec::new()),
    }
}

/// Runs the parser over the bytes the way a caller of the library does, and
/// lets the library make of it what it will.
fn recover(bytes: &[u8]) -> Result<DateTimes, ErrorKind> {
    let probed = MediaSource::seekable(Cursor::new(bytes))
        .map(|source| Probe { has_exif: source.has_exif(), has_track: source.has_track() })
        .map_err(failure);
    let class = plan_parse(&probed)?;
    let parsed = read_tags(bytes, class).map_err(failure);
    extract(class, &parsed)
}

fn ascii(text: &str) -> Vec<u8> {
    let mut bytes = text.as_bytes().to_vec();
    bytes.push(0);
    bytes
}

/// A little-endian TIFF: IFD0 holds the modification date, if any, and points
/// to an Exif IFD with the creation date and the offset, if any. Padding
/// follows, as the parser wants more than a header's worth of bytes.
fn tiff(created: Option<&str>, modified: Option<&str>, offset: Option<&str>) -> Vec<u8> {
    let mut ifd0: Vec<(u16, Vec<u8>)> = Vec::new();
    if let Some(text) = modified {
        ifd0.push((0x0132, ascii(text)));
    }
    let mut exif: Vec<(u16, Vec<u8>)> = Vec::new();
    if let Some(text) = created {
        exif.push((0x9004, ascii(text)));
    }
    if let Some(text) = offset {
        exif.push((0x9010, ascii(text)));
    }
    let ifd0_at = 8usize;
    let ifd0_len = 2 + 12 * (ifd0.len() + 1) + 4;
    let exif_at = ifd0_at + ifd0_len;
    let exif_len = 2 + 12 * exif.len() + 4;
    let mut data_at = exif_at + exif_len;
    let mut data: Vec<u8> = Vec::new();
    let mut out: Vec<u8> = vec![b'I', b'I', 0x2A, 0x00];
    out.extend((ifd0_at as u32).to_le_bytes());
    out.extend(((ifd0.len() + 1) as u16).to_le_bytes());
    for (tag, value) in ifd0.iter().chain(std::iter::once(&(0x8769u16, Vec::new()))) {
        out.extend(tag.to_le_bytes());
        if *tag == 0x8769 {
            out.extend(4u16.to_le_bytes());
            out.extend(1u32.to_le_bytes());
            out.extend((exif_at as u32).to_le_bytes());
        } else {
            out.extend(2u16.to_le_bytes());
            out.extend((value.len() as u32).to_le_bytes());
            out.extend((data_at as u32).to_le_bytes());
            data.extend(value);
            data_at += value.len();
        }
    }
    out.extend(0u32.to_le_bytes());
    out.extend((exif.len() as u16).to_le_bytes());
    for (tag, value) in exif.iter() {
        out.extend(tag.to_le_bytes());
        out.extend(2u16.to_le_bytes());
        out.extend((value.len() as u32).to_le_bytes());
        out.extend((data_at as u32).to_le_bytes());
        data.extend(value);
        data_at += value.len();
    }
    out.extend(0u32.to_le_bytes());
    out.extend(data);
    out.extend([0u8; 200]);
    out
}

/// A JPEG whose only segment is the Exif one.
fn jpeg(tiff: &[u8]) -> Vec<u8> {
    let mut out: Vec<u8> = vec![0xFF, 0xD8, 0xFF, 0xE1];
    out.extend(((tiff.len() + 8) as u16).to_be_bytes());
    out.extend(b"Exif\0\0");
    out.extend(tiff);
    out.extend([0xFF, 0xD9]);
    out
}

fn boxed(kind: &[u8; 4], body: &[u8]) -> Vec<u8> {
    let mut out: Vec<u8> = Vec::new();
    out.extend(((body.len() + 8) as u32).to_be_bytes());
    out.extend(kind);
    out.extend(body);
    out
}

/// An MP4 with a movie header and nothing else; `created` counts seconds
/// from 1904.
fn mp4(created: u32) -> Vec<u8> {
    let mut ftyp: Vec<u8> = Vec::new();
    ftyp.extend(b"isom");
    ftyp.extend(0x200u32.to_be_bytes());
    ftyp.extend(b"isommp42");
    let mut mvhd: Vec<u8> = vec![0, 0, 0, 0];
    mvhd.extend(created.to_be_bytes());
    mvhd.extend(created.to_be_bytes());
    mvhd.extend(1000u32.to_be_bytes());
    mvhd.extend(5000u32.to_be_bytes());
    mvhd.extend([0u8; 76]);
    mvhd.extend(2u32.to_be_bytes());
    let mut out = boxed(b"ftyp", &ftyp);
    out.extend(boxed(b"free", &[0u8; 200]));
    out.extend(boxed(b"moov", &boxed(b"mvhd", &mvhd)));
    out
}

const EAST_8: i32 = 8 * 3600;

fn east_8(wall_seconds: i64) -> Instant {
    Instant { timestamp: wall_seconds - 28800, nanos: 0, offset: EAST_8 }
}

#[test]
fn a_tag_with_offset_is_used_as_it_stands() {
    let tag = TagTime { wall_seconds: 1688934993, nanos: 7, offset: Some(EAST_8) };
    assert_eq!(
        resolve(Some(tag)),
        Some(Instant { timestamp: 1688906193, nanos: 7, offset: EAST_8 })
    );
    assert_eq!(at_offset(&tag, -3600), Some(Instant { timestamp: 1688938593, nanos: 7, offset: -3600 }));
}

#[test]
fn a_tag_out_of_range_counts_as_absent() {
    let tag = TagTime { wall_seconds: i64::MIN + 5, nanos: 0, offset: Some(10) };
    assert_eq!(resolve(Some(tag)), None);
    assert_eq!(at_offset(&tag, 5), Some(Instant { timestamp: i64::MIN, nanos: 0, offset: 5 }));
}

#[test]
fn an_absent_tag_gives_no_instant() {
    assert_eq!(resolve(None), None);
}

#[test]
fn only_a_single_local_time_is_taken() {
    let instant = Instant { timestamp: 5, nanos: 0, offset: 0 };
    assert_eq!(from_local(LocalTime::Single(instant)), Some(instant));
    assert_eq!(from_local(LocalTime::Ambiguous), None);
    assert_eq!(from_local(LocalTime::Missing), None);
}

#[test]
fn a_naive_time_keeps_its_wall_clock_reading() {
    // 2024-06-01 15:29:19, with no offset.
    let tag = TagTime { wall_seconds: 1717255759, nanos: 0, offset: None };
    let naive = chrono::NaiveDate::from_ymd_opt(2024, 6, 1).unwrap().and_hms_opt(15, 29, 19).unwrap();
    match Local.from_local_datetime(&naive) {
        chrono::LocalResult::Single(expected) => {
            let found = resolve(Some(tag)).unwrap();
            assert_eq!(found.timestamp, expected.timestamp());
            assert_eq!(found.timestamp + found.offset as i64, 1717255759);
            let shown = Local.timestamp_opt(found.timestamp, found.nanos).unwrap();
            assert_eq!((shown.hour(), shown.minute(), shown.second()), (15, 29, 19));
        }
        _ => assert_eq!(resolve(Some(tag)), None),
    }
}

#[test]
fn a_naive_time_beyond_the_calendar_counts_as_absent() {
    let tag = TagTime { wall_seconds: i64::MAX, nanos: 0, offset: None };
    assert_eq!(resolve(Some(tag)), None);
}

#[test]
fn image_dates_are_resolved_tag_by_tag() {
    let created = TagTime { wall_seconds: 1688934993, nanos: 0, offset: Some(EAST_8) };
    let broken = TagTime { wall_seconds: i64::MIN, nanos: 0, offset: Some(1) };
    assert_eq!(
        image_dates(ExifDates { created: Some(created), modified: Some(broken) }),
        Ok(DateTimes { created_date: Some(east_8(1688934993)), modified_date: None })
    );
    assert_eq!(
        image_dates(ExifDates { created: None, modified: Some(created) }),
        Ok(DateTimes { created_date: None, modified_date: Some(east_8(1688934993)) })
    );
    assert_eq!(image_dates(ExifDates { created: None, modified: None }), Err(ErrorKind::MissingDates));
    assert_eq!(
        image_dates(ExifDates { created: Some(broken), modified: None }),
        Err(ErrorKind::MissingDates)
    );
}

#[test]
fn video_dates_hold_no_modification_time() {
    let created = TagTime { wall_seconds: 1706943938, nanos: 0, offset: Some(0) };
    assert_eq!(
        video_dates(Some(created)),
        Ok(DateTimes {
            created_date: Some(Instant { timestamp: 1706943938, nanos: 0, offset: 0 }),
            modified_date: None
        })
    );
    assert_eq!(video_dates(None), Err(ErrorKind::MissingDates));
}

#[test]
fn both_tags_of_an_image_are_read() {
    let bytes = tiff(Some("2023:07:09 20:36:33"), Some("2023:07:10 08:00:00"), Some("+08:00"));
    assert_eq!(
        recover(&bytes),
        Ok(DateTimes {
            created_date: Some(east_8(1688934993)),
            modified_date: Some(east_8(1688976000)),
        })
    );
}

#[test]
fn an_image_with_a_creation_tag_alone_updates_the_modification_time() {
    let bytes = tiff(Some("2023:07:09 20:36:33"), None, Some("+08:00"));
    let dates = recover(&bytes).unwrap();
    assert_eq!(dates, DateTimes { created_date: Some(east_8(1688934993)), modified_date: None });
    assert_eq!(
        plan_writes(&dates, false),
        vec![Write { attribute: Attribute::Modified, instant: east_8(1688934993) }]
    );
}

#[test]
fn an_image_with_both_tags_keeps_its_modification_time() {
    let bytes = tiff(Some("2023:07:09 20:36:33"), Some("2023:07:10 08:00:00"), Some("+08:00"));
    let dates = recover(&bytes).unwrap();
    assert_eq!(
        plan_writes(&dates, false),
        vec![Write { attribute: Attribute::Modified, instant: east_8(1688976000) }]
    );
}

#[test]
fn a_jpeg_is_read_like_a_tiff() {
    let bytes = jpeg(&tiff(Some("2023:07:09 20:36:33"), None, Some("+08:00")));
    assert_eq!(
        recover(&bytes),
        Ok(DateTimes { created_date: Some(east_8(1688934993)), modified_date: None })
    );
}

#[test]
fn a_naive_exif_time_is_read_on_the_local_clock() {
    let bytes = tiff(Some("2024:06:01 15:29:19"), None, None);
    let naive = chrono::NaiveDate::from_ymd_opt(2024, 6, 1).unwrap().and_hms_opt(15, 29, 19).unwrap();
    match Local.from_local_datetime(&naive) {
        chrono::LocalResult::Single(expected) => {
            let dates = recover(&bytes).unwrap();
            let found = dates.created_date.unwrap();
            assert_eq!(found.timestamp, expected.timestamp());
            let shown = Local.timestamp_opt(found.timestamp, found.nanos).unwrap();
            assert_eq!((shown.hour(), shown.minute(), shown.second()), (15, 29, 19));
            assert_eq!(dates.modified_date, None);
        }
        _ => assert_eq!(recover(&bytes), Err(ErrorKind::MissingDates)),
    }
}

#[test]
fn an_image_without_date_tags_has_no_dates() {
    let bytes = tiff(None, None, None);
    assert_eq!(recover(&bytes), Err(ErrorKind::MissingDates));
}

#[test]
fn a_malformed_tag_is_treated_as_absent() {
    let bytes = tiff(Some("2023:07:09 20:36:33"), Some("not a date at all!!"), Some("+08:00"));
    assert_eq!(
        recover(&bytes),
        Ok(DateTimes { created_date: Some(east_8(1688934993)), modified_date: None })
    );
}

#[test]
fn a_video_gives_its_creation_time() {
    let bytes = mp4(3789788738);
    assert_eq!(
        recover(&bytes),
        Ok(DateTimes {
            created_date: Some(Instant { timestamp: 1706943938, nanos: 0, offset: 0 }),
            modified_date: None,
        })
    );
}

#[test]
fn a_foreign_format_is_unparsable() {
    assert_eq!(
        recover(b"just some text, no media container at all"),
        Err(ErrorKind::UnsupportedOrUnparsable("unrecognized file format".to_string()))
    );
    assert!(matches!(recover(&[]), Err(ErrorKind::UnsupportedOrUnparsable(_))));
}

#[test]
fn a_truncated_file_is_unparsable() {
    let whole = jpeg(&tiff(Some("2023:07:09 20:36:33"), None, Some("+08:00")));
    let cut = &whole[..20];
    assert!(matches!(recover(cut), Err(ErrorKind::UnsupportedOrUnparsable(_))));
    let video = mp4(3789788738);
    assert!(matches!(recover(&video[..40]), Err(ErrorKind::UnsupportedOrUnparsable(_))));
}

#[test]
fn extracting_twice_gives_the_same_writes() {
    let bytes = tiff(Some("2023:07:09 20:36:33"), Some("2023:07:10 08:00:00"), Some("+08:00"));
    let first = plan_writes(&recover(&bytes).unwrap(), false);
    let second = plan_writes(&recover(&bytes).unwrap(), false);
    assert_eq!(first, second);
}

fn reading(tag: Tag, wall_seconds: i64) -> Reading {
    Reading { tag, time: Some(TagTime { wall_seconds, nanos: 0, offset: Some(0) }) }
}

fn utc(timestamp: i64) -> Instant {
    Instant { timestamp, nanos: 0, offset: 0 }
}

#[test]
fn a_failed_probe_is_reported_as_it_failed() {
    assert_eq!(
        plan_parse(&Err(ParseFailure::Rejected("unrecognized file format".to_string()))),
        Err(ErrorKind::UnsupportedOrUnparsable("unrecognized file format".to_string()))
    );
    assert_eq!(
        plan_parse(&Err(ParseFailure::Io("permission denied".to_string()))),
        Err(ErrorKind::Io("permission denied".to_string()))
    );
    assert_eq!(
        plan_parse(&Err(ParseFailure::Crashed)),
        Err(ErrorKind::UnsupportedOrUnparsable(
            "the parser broke off on malformed data".to_string()
        ))
    );
}

#[test]
fn a_probe_says_what_to_parse() {
    assert_eq!(
        plan_parse(&Ok(Probe { has_exif: true, has_track: false })),
        Ok(Classification::ImageWithExif)
    );
    assert_eq!(
        plan_parse(&Ok(Probe { has_exif: false, has_track: true })),
        Ok(Classification::VideoWithTrackMetadata)
    );
    assert_eq!(
        plan_parse(&Ok(Probe { has_exif: false, has_track: false })),
        Err(ErrorKind::MissingMetadata)
    );
}

#[test]
fn each_category_has_its_tags() {
    assert_eq!(wanted_tags(Classification::ImageWithExif), vec![Tag::CreateDate, Tag::ModifyDate]);
    assert_eq!(wanted_tags(Classification::VideoWithTrackMetadata), vec![Tag::CreateDate]);
    assert_eq!(wanted_tags(Classification::NoRecognizedMetadata), vec![]);
}

#[test]
fn a_reading_is_found_by_its_tag() {
    let readings = vec![reading(Tag::ModifyDate, 20), reading(Tag::CreateDate, 10)];
    assert_eq!(find_reading(&readings, Tag::CreateDate), readings[1].time);
    assert_eq!(find_reading(&readings, Tag::ModifyDate), readings[0].time);
    assert_eq!(find_reading(&readings[..1].to_vec(), Tag::CreateDate), None);
    assert_eq!(find_reading(&Vec::new(), Tag::CreateDate), None);
    let twice = vec![Reading { tag: Tag::CreateDate, time: None }, reading(Tag::CreateDate, 10)];
    assert_eq!(find_reading(&twice, Tag::CreateDate), None);
}

#[test]
fn readings_go_to_the_date_of_their_tag() {
    let readings = vec![reading(Tag::ModifyDate, 20), reading(Tag::CreateDate, 10)];
    assert_eq!(
        extract(Classification::ImageWithExif, &Ok(readings.clone())),
        Ok(DateTimes { created_date: Some(utc(10)), modified_date: Some(utc(20)) })
    );
    assert_eq!(
        extract(Classification::VideoWithTrackMetadata, &Ok(readings)),
        Ok(DateTimes { created_date: Some(utc(10)), modified_date: None })
    );
}

#[test]
fn readings_without_a_time_give_no_dates() {
    let empty = vec![
        Reading { tag: Tag::CreateDate, time: None },
        Reading { tag: Tag::ModifyDate, time: None },
    ];
    assert_eq!(extract(Classification::ImageWithExif, &Ok(empty)), Err(ErrorKind::MissingDates));
    assert_eq!(
        extract(Classification::VideoWithTrackMetadata, &Ok(vec![reading(Tag::ModifyDate, 20)])),
        Err(ErrorKind::MissingDates)
    );
}

#[test]
fn a_failed_parse_is_reported_as_it_failed() {
    let rejected = Err(ParseFailure::Rejected("parse failed: Exif not found".to_string()));
    assert_eq!(
        extract(Classification::ImageWithExif, &rejected),
        Err(ErrorKind::UnsupportedOrUnparsable("parse failed: Exif not found".to_string()))
    );
    assert_eq!(
        extract(Classification::VideoWithTrackMetadata, &Err(ParseFailure::Crashed)),
        Err(ErrorKind::UnsupportedOrUnparsable(
            "the parser broke off on malformed data".to_string()
        ))
    );
    assert_eq!(
        extract(Classification::ImageWithExif, &Err(ParseFailure::Io("gone".to_string()))),
        Err(ErrorKind::Io("gone".to_string()))
    );
    assert_eq!(failure_kind(&ParseFailure::Io("gone".to_string())).message(), "IO error: gone");
}

#[test]
fn nothing_is_extracted_without_recognized_metadata() {
    assert_eq!(
        extract(Classification::NoRecognizedMetadata, &Ok(vec![reading(Tag::CreateDate, 10)])),
        Err(ErrorKind::MissingMetadata)
    );
    assert_eq!(
        extract(Classification::NoRecognizedMetadata, &Err(ParseFailure::Crashed)),
        Err(ErrorKind::MissingMetadata)
    );
}

#[test]
fn a_jpeg_without_exif_is_reported_in_the_parsers_words() {
    let bytes = [vec![0xFF, 0xD8, 0xFF, 0xD9], vec![0u8; 300]].concat();
    assert!(matches!(recover(&bytes), Err(ErrorKind::UnsupportedOrUnparsable(_))));
}
