//! Which of the files that are found are taken for media files.

use vstd::prelude::*;
use vstd::string::*;
use crate::text::{lowercase, str_eq, to_lowercase};

verus! {

/// Finds the media files under a path. Walking the directories is left to
/// the caller; what is done with each entry is decided here.
pub struct FileScanner;

/// What is done with a directory entry, or with the path that a scan starts
/// from.
#[derive(Debug, Clone, Copy, PartialEq, Eq, Structural)]
pub enum ScanStep {
    /// The entry is a media file: it joins the result.
    Collect,
    /// The entry is a directory: its entries are looked at in turn.
    Descend,
    /// The entry is passed over.
    Ignore,
}

/// The extensions of the files that are taken for media files, each with its
/// dot and in lower case.
pub open spec fn media_extensions() -> Seq<Seq<char>> {
    seq![
        ".mov"@,
        ".mp4"@,
        ".mxf"@,
        ".avi"@,
        ".mkv"@,
        ".wmv"@,
        ".flv"@,
        ".m4v"@,
        ".webm"@,
        ".mpg"@,
        ".mpeg"@,
        ".m2ts"@,
        ".mts"@,
    ]
}

/// Whether a path with the given extension names a media file: the extension
/// counts whatever its case, and a path without one never does.
pub open spec fn is_media_extension(extension: Option<Seq<char>>) -> bool {
    match extension {
        Some(e) => media_extensions().contains("."@ + lowercase(e)),
        None => false,
    }
}

/// What is done with a directory entry.
pub open spec fn entry_step(is_file: bool, is_dir: bool, extension: Option<Seq<char>>) -> ScanStep {
    if is_file {
        if is_media_extension(extension) {
            ScanStep::Collect
        } else {
            ScanStep::Ignore
        }
    } else if is_dir {
        ScanStep::Descend
    } else {
        ScanStep::Ignore
    }
}

/// What is done with the path that a scan starts from: whatever is not a
/// file is walked as a directory.
pub open spec fn root_step(is_file: bool, extension: Option<Seq<char>>) -> ScanStep {
    if is_file {
        if is_media_extension(extension) {
            ScanStep::Collect
        } else {
            ScanStep::Ignore
        }
    } else {
        ScanStep::Descend
    }
}

impl FileScanner {
    /// Whether `dotted` is one of the media extensions, as it stands: with
    /// its dot, and in lower case.
    pub fn is_known_extension(dotted: &str) -> (r: bool)
        ensures
            r == media_extensions().contains(dotted@),
    {
        let known: [&str; 13] = [
            ".mov",
            ".mp4",
            ".mxf",
            ".avi",
            ".mkv",
            ".wmv",
            ".flv",
            ".m4v",
            ".webm",
            ".mpg",
            ".mpeg",
            ".m2ts",
            ".mts",
        ];
        let ghost wanted = media_extensions();
        assert(wanted.len() == 13);
        assert(forall|k: int| 0 <= k < 13 ==> (#[trigger] known@[k])@ == wanted[k]) by {
            assert(known@[0]@ == wanted[0]);
            assert(known@[1]@ == wanted[1]);
            assert(known@[2]@ == wanted[2]);
            assert(known@[3]@ == wanted[3]);
            assert(known@[4]@ == wanted[4]);
            assert(known@[5]@ == wanted[5]);
            assert(known@[6]@ == wanted[6]);
            assert(known@[7]@ == wanted[7]);
            assert(known@[8]@ == wanted[8]);
            assert(known@[9]@ == wanted[9]);
            assert(known@[10]@ == wanted[10]);
            assert(known@[11]@ == wanted[11]);
            assert(known@[12]@ == wanted[12]);
        }
        let mut i: usize = 0;
        while i < 13
            invariant
                i <= 13,
                wanted == media_extensions(),
                wanted.len() == 13,
                forall|k: int| 0 <= k < 13 ==> (#[trigger] known@[k])@ == wanted[k],
                forall|k: int| 0 <= k < i ==> wanted[k] != dotted@,
            decreases 13 - i,
        {
            if str_eq(known[i], dotted) {
                assert(wanted[i as int] == dotted@);
                return true;
            }
            i = i + 1;
        }
        false
    }

    /// Whether a path with the given extension names a media file.
    pub fn is_media_file(extension: Option<&str>) -> (r: bool)
        ensures
            r == is_media_extension(
                match extension {
                    Some(e) => Some(e@),
                    None => None,
                },
            ),
    {
        match extension {
            Some(ext) => {
                let lower = to_lowercase(ext);
                let mut dotted = ".".to_owned();
                dotted.append(lower.as_str());
                Self::is_known_extension(dotted.as_str())
            },
            None => false,
        }
    }

    /// What is done with a directory entry: a media file is collected, a
    /// directory is walked, anything else is passed over.
    pub fn entry_step(is_file: bool, is_dir: bool, extension: Option<&str>) -> (r: ScanStep)
        ensures
            r == entry_step(
                is_file,
                is_dir,
                match extension {
                    Some(e) => Some(e@),
                    None => None,
                },
            ),
    {
        if is_file {
            if Self::is_media_file(extension) {
                ScanStep::Collect
            } else {
                ScanStep::Ignore
            }
        } else if is_dir {
            ScanStep::Descend
        } else {
            ScanStep::Ignore
        }
    }

    /// What is done with the path that a scan starts from.
    pub fn root_step(is_file: bool, extension: Option<&str>) -> (r: ScanStep)
        ensures
            r == root_step(
                is_file,
                match extension {
                    Some(e) => Some(e@),
                    None => None,
                },
            ),
    {
        if is_file {
            if Self::is_media_file(extension) {
                ScanStep::Collect
            } else {
                ScanStep::Ignore
            }
        } else {
            ScanStep::Descend
        }
    }
}

} // verus!
