//! The catalog record produced by an import, and the closed set of
//! failures the pipelines can surface.

use vstd::prelude::*;
use vstd::string::StringExecFns;

verus! {

/// The catalog entry produced by one import. It is handed to the
/// persistence layer as a value and never mutated afterwards.
pub struct BookRecord {
    /// Fresh identifier of this import; also the cover file's base name.
    pub id: String,
    /// The container's title; a fixed sentinel when none, or an empty
    /// one, is declared. Never the empty string.
    pub title: String,
    /// The container's creator, when one is declared.
    pub author: Option<String>,
    /// The container's description, when one is declared.
    pub description: Option<String>,
    /// Path of the derived cover thumbnail, when one was produced.
    pub cover_path: Option<String>,
}

/// Every failure the ingestion pipelines can surface. Field-absent
/// conditions are never errors; they become optional or fallback values.
#[derive(Debug)]
pub enum ImportError {
    /// The container is missing, not a valid archive, or its package
    /// manifest cannot be parsed; carries the underlying message.
    ArchiveOpen(String),
    /// The platform could not supply the base storage directory.
    DirectoryResolution(String),
    /// The cover output directory could not be created.
    DirectoryCreate(String),
    /// The cover bytes are not a decodable image.
    ImageDecode,
    /// The resized cover could not be re-encoded; carries the message.
    ImageEncode(String),
    /// The encoded cover could not be written; carries the message.
    ImageWrite(String),
}

/// The character sequence held by an optional string.
pub open spec fn opt_text(o: Option<String>) -> Option<Seq<char>> {
    match o {
        Some(s) => Some(s@),
        None => None,
    }
}

/// The title a record carries for a given metadata lookup result: the
/// declared title verbatim when it is non-empty, else the fixed
/// sentinel. A record's title is never the empty string, so a missing
/// and an empty declaration both fall back.
pub open spec fn title_of(found: Option<Seq<char>>) -> Seq<char> {
    match found {
        Some(t) => if t.len() > 0 {
            t
        } else {
            "Unknown Title"@
        },
        None => "Unknown Title"@,
    }
}

/// Applies the title fallback rule to a metadata lookup result.
pub fn resolve_title(found: Option<String>) -> (r: String)
    ensures
        r@ == title_of(opt_text(found)),
        r@.len() > 0,
{
    proof {
        reveal_strlit("Unknown Title");
    }
    match found {
        Some(t) => {
            if t.as_str().is_empty() {
                String::from_str("Unknown Title")
            } else {
                t
            }
        },
        None => String::from_str("Unknown Title"),
    }
}

impl BookRecord {
    /// Drops the cover claim: for a caller whose write of the cover file
    /// failed, so that the record never names a path that does not exist.
    pub fn without_cover(self) -> (r: BookRecord)
        ensures
            r.id@ == self.id@,
            r.title@ == self.title@,
            opt_text(r.author) == opt_text(self.author),
            opt_text(r.description) == opt_text(self.description),
            r.cover_path is None,
    {
        BookRecord {
            id: self.id,
            title: self.title,
            author: self.author,
            description: self.description,
            cover_path: None,
        }
    }
}

/// The message text of each failure, mirroring the wording used at the
/// surface of the application.
pub open spec fn error_text(e: ImportError) -> Seq<char> {
    match e {
        ImportError::ArchiveOpen(m) => "Failed to open EPUB: "@ + m@,
        ImportError::DirectoryResolution(m) => "Failed to get app data dir: "@ + m@,
        ImportError::DirectoryCreate(m) => "Failed to create covers dir: "@ + m@,
        ImportError::ImageDecode => "Failed to load image from blob"@,
        ImportError::ImageEncode(m) => "Failed to save cover image: "@ + m@,
        ImportError::ImageWrite(m) => "Failed to save cover image: "@ + m@,
    }
}

impl ImportError {
    /// The single formatting boundary: renders the failure as the
    /// descriptive string the caller surfaces.
    pub fn message(&self) -> (r: String)
        ensures
            r@ == error_text(*self),
    {
        match self {
            ImportError::ArchiveOpen(m) => {
                "Failed to open EPUB: ".to_owned().concat(m.as_str())
            },
            ImportError::DirectoryResolution(m) => {
                "Failed to get app data dir: ".to_owned().concat(m.as_str())
            },
            ImportError::DirectoryCreate(m) => {
                "Failed to create covers dir: ".to_owned().concat(m.as_str())
            },
            ImportError::ImageDecode => String::from_str("Failed to load image from blob"),
            ImportError::ImageEncode(m) => {
                "Failed to save cover image: ".to_owned().concat(m.as_str())
            },
            ImportError::ImageWrite(m) => {
                "Failed to save cover image: ".to_owned().concat(m.as_str())
            },
        }
    }
}

/// The greeting the application shell shows for a name.
pub open spec fn greeting_text(name: Seq<char>) -> Seq<char> {
    "Hello, "@ + name + "! You've been greeted from Rust!"@
}

/// Renders the application shell's demonstration greeting.
pub fn greet(name: &str) -> (r: String)
    ensures
        r@ == greeting_text(name@),
{
    "Hello, ".to_owned().concat(name).concat("! You've been greeted from Rust!")
}

} // verus!
