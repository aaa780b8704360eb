//! Recovery of lost file timestamps from the metadata that media files carry.
//!
//! The library holds the rules of a recovery run: which directory entries are
//! looked at, how a capture time is read out of an image or a video, which
//! file-system attribute a recovered time is written to, and how the outcome
//! of every file is folded into a report. Reading files, walking directories
//! and setting attributes is left to the caller, who drives a [`Walker`] and
//! hands it what was found.
//!
//! For one file the caller probes the container, has [`plan_parse`] say what
//! to parse it as, parses it, has [`extract`] recover the times from what was
//! read and [`plan_writes`] choose the attributes to set, sets them, and
//! reports the outcome to the walker.

pub mod entry;
pub mod error;
pub mod media;
pub mod path;
pub mod report;
pub mod time;
pub mod walker;
pub mod writer;

pub use crate::entry::is_hidden;
pub use crate::entry::is_supported_media_file;
pub use crate::entry::Entry;
pub use crate::entry::Finding;
pub use crate::error::BadCreateDateError;
pub use crate::error::BadModifyDateError;
pub use crate::error::ErrorKind;
pub use crate::error::MissingCreateDateError;
pub use crate::error::MissingModifyDateError;
pub use crate::media::extract;
pub use crate::media::plan_parse;
pub use crate::media::wanted_tags;
pub use crate::media::Classification;
pub use crate::media::DateTimes;
pub use crate::media::ExifDates;
pub use crate::media::ParseFailure;
pub use crate::media::Probe;
pub use crate::media::Reading;
pub use crate::media::Tag;
pub use crate::path::get_relative_path;
pub use crate::report::Report;
pub use crate::time::Instant;
pub use crate::time::LocalTime;
pub use crate::time::TagTime;
pub use crate::walker::replay;
pub use crate::walker::Action;
pub use crate::walker::Visit;
pub use crate::walker::Walker;
pub use crate::writer::next_write;
pub use crate::writer::plan_writes;
pub use crate::writer::Attribute;
pub use crate::writer::Write;
