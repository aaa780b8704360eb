//! Directory entries as the walk meets them, and what their names tell.

use vstd::prelude::*;
use vstd::std_specs::iter::IteratorSpec;
use vstd::string::StrSliceExecFns;
use vstd::string::StringExecFns;

verus! {

/// What the file system says an entry is.
#[derive(Debug, Clone, PartialEq, Eq)]
pub enum Finding {
    Directory,
    /// A regular file.
    File,
    /// Anything else: a symbolic link, a socket, a device.
    Other,
    /// The entry, or the directory at its path, could not be read; the text
    /// says why.
    Unreadable(String),
}

/// One entry of a walk.
#[derive(Debug, Clone, PartialEq, Eq)]
pub struct Entry {
    /// How far below the root the entry lies; the root itself is at 0.
    pub depth: usize,
    /// The last segment of the entry's path. Where it is not valid Unicode,
    /// the parts that are not have been replaced.
    pub name: String,
    /// Whether the name is valid Unicode as it stands on disk.
    pub name_is_unicode: bool,
    /// The path under which the walk reached the entry.
    pub path: String,
    pub finding: Finding,
}

/// Whether a name marks its entry as hidden: it begins with a dot.
pub open spec fn hidden(name: Seq<char>) -> bool {
    name.len() > 0 && name[0] == '.'
}

/// Whether an entry is hidden: its name can be read as it stands and marks
/// it so. A name that is not valid Unicode never counts as hidden.
pub open spec fn hidden_entry(entry: Entry) -> bool {
    entry.name_is_unicode && hidden(entry.name@)
}

/// Tells whether an entry of this name is hidden.
pub fn is_hidden(name: &str) -> (b: bool)
    ensures
        b == hidden(name@),
{
    let mut letters = name.chars();
    match letters.next() {
        Some(first) => first == '.',
        None => false,
    }
}

/// The position of the last dot in a name, or -1 where it has none.
pub open spec fn last_dot(name: Seq<char>) -> int
    decreases name.len(),
{
    if name.len() == 0 {
        -1
    } else if name.last() == '.' {
        name.len() - 1
    } else {
        last_dot(name.drop_last())
    }
}

/// The extension of a file name: what follows its last dot. A name without a
/// dot has none, and neither has a name whose only dot comes first.
pub open spec fn extension_of(name: Seq<char>) -> Option<Seq<char>> {
    if last_dot(name) <= 0 {
        None
    } else {
        Some(name.subrange(last_dot(name) + 1, name.len() as int))
    }
}

/// Finds the extension of a file name.
pub fn extension(name: &str) -> (ext: Option<&str>)
    ensures
        ext.deep_view() == extension_of(name@),
{
    let length = name.unicode_len();
    let mut dot: Option<usize> = None;
    let mut seen: usize = 0;
    let mut letters = name.chars();
    assert(name@.take(0) =~= Seq::<char>::empty());
    loop
        invariant
            length == name@.len(),
            seen <= name@.len(),
            letters.remaining() == name@.skip(seen as int),
            dot is None ==> last_dot(name@.take(seen as int)) == -1,
            dot matches Some(at) ==> at == last_dot(name@.take(seen as int)) && at < seen,
        ensures
            seen == name@.len(),
            dot is None ==> last_dot(name@) == -1,
            dot matches Some(at) ==> at == last_dot(name@) && at < seen,
        decreases name@.len() - seen,
    {
        match letters.next() {
            None => {
                assert(name@.take(seen as int) =~= name@);
                break ;
            },
            Some(c) => {
                assert(name@.take(seen + 1).drop_last() =~= name@.take(seen as int));
                assert(name@.skip(seen as int).drop_first() =~= name@.skip(seen + 1));
                if c == '.' {
                    dot = Some(seen);
                }
                seen = seen + 1;
            },
        }
    }
    match dot {
        Some(at) => if at > 0 {
            Some(name.substring_char(at + 1, seen))
        } else {
            None
        },
        None => None,
    }
}

/// What `str::to_lowercase` makes of a text: its lowercase equivalent, as
/// Unicode defines it.
pub uninterp spec fn lowercase_of(text: Seq<char>) -> Seq<char>;

/// Lowers the case of a text.
///
/// Calls `str::to_lowercase`. The mapping is Unicode's and is not spelled out
/// here: the contract gives the result a name and claims nothing else.
#[verifier::external_body]
fn lowercase(text: &str) -> (lower: String)
    ensures
        lower@ == lowercase_of(text@),
{
    text.to_lowercase()
}

/// Whether a lowercase extension is one of a container that may carry
/// capture times: still images first, then video and audio.
pub open spec fn supported_extension(ext: Seq<char>) -> bool {
    ||| ext == "heic"@
    ||| ext == "heif"@
    ||| ext == "jpg"@
    ||| ext == "jpeg"@
    ||| ext == "tiff"@
    ||| ext == "tif"@
    ||| ext == "iiq"@
    ||| ext == "raf"@
    ||| ext == "mp4"@
    ||| ext == "mov"@
    ||| ext == "3gp"@
    ||| ext == "webm"@
    ||| ext == "mkv"@
    ||| ext == "mka"@
}

fn same_text(a: &String, b: &str) -> (same: bool)
    ensures
        same == (a@ == b@),
{
    *a == String::from_str(b)
}

/// Tells whether a lowercase extension is a supported one.
pub fn is_supported_extension(ext: &str) -> (b: bool)
    ensures
        b == supported_extension(ext@),
{
    let ext = String::from_str(ext);
    same_text(&ext, "heic") || same_text(&ext, "heif") || same_text(&ext, "jpg") || same_text(
        &ext,
        "jpeg",
    ) || same_text(&ext, "tiff") || same_text(&ext, "tif") || same_text(&ext, "iiq")
        || same_text(&ext, "raf") || same_text(&ext, "mp4") || same_text(&ext, "mov") || same_text(
        &ext,
        "3gp",
    ) || same_text(&ext, "webm") || same_text(&ext, "mkv") || same_text(&ext, "mka")
}

/// Whether a file of this name is worth parsing: it has an extension, and
/// that extension, whatever its case, is a supported one.
pub open spec fn supported(name: Seq<char>) -> bool {
    match extension_of(name) {
        Some(ext) => supported_extension(lowercase_of(ext)),
        None => false,
    }
}

/// Tells by its name alone whether a file may be a media file, so that
/// others need not be opened.
pub fn is_supported_media_file(name: &str) -> (b: bool)
    ensures
        b == supported(name@),
{
    match extension(name) {
        Some(ext) => is_supported_extension(lowercase(ext).as_str()),
        None => false,
    }
}

} // verus!
