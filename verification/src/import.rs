//! The import pipeline: from the bytes of an e-book container to a
//! catalog record with an optional derived cover. The caller reads the
//! container file, supplies the cover directory's path, and writes the
//! returned cover bytes; every fallback and failure rule in between is
//! decided here.

use vstd::prelude::*;
use vstd::string::StringExecFns;
use crate::archive::{
    container_covers, container_covers_total, container_has_cover, container_metadata,
    container_ok, lookup_metadata, open_container, open_raw_archive, package_path_supported,
    read_container_file, take_cover,
};
use crate::descriptor::check_container_file;
use crate::cover::{
    cover_file_path, cover_path_for, decode_of, normalize_cover, normalized_from, CoverFile,
};
use crate::record::{opt_text, resolve_title, title_of, BookRecord, ImportError};

verus! {

/// The value a metadata map yields for a key: the declared value, or
/// nothing when the key is absent.
pub open spec fn meta_lookup(m: Map<Seq<char>, Seq<char>>, key: Seq<char>) -> Option<Seq<char>> {
    if m.contains_key(key) {
        Some(m[key])
    } else {
        None
    }
}

/// What one import returns: the record, and, when a cover was derived,
/// the cover file for the caller to write at its named path.
pub struct ImportOutcome {
    pub record: BookRecord,
    pub cover: Option<CoverFile>,
}

/// Relies on `uuid::Uuid::new_v4` and its hyphenated `Display` form:
/// a fresh random identifier, rendered as 36 characters. The generator
/// aborts only if the operating system's randomness source fails — an
/// environmental condition no argument can exclude.
#[verifier::external_body]
fn fresh_id() -> (r: String)
    ensures
        r@.len() == 36,
{
    uuid::Uuid::new_v4().to_string()
}

/// Whether a record's fields carry exactly the metadata this container
/// declares, under the fallback rules: the title verbatim or the
/// sentinel, author and description only when declared.
pub open spec fn record_matches_container(r: BookRecord, bytes: Seq<u8>) -> bool {
    &&& r.title@ == title_of(meta_lookup(container_metadata(bytes), "title"@))
    &&& opt_text(r.author) == meta_lookup(container_metadata(bytes), "creator"@)
    &&& opt_text(r.description) == meta_lookup(container_metadata(bytes), "description"@)
}

/// Whether an outcome's cover fields are what this container and the
/// normalizer determine: when a cover file is returned, the container
/// designates a cover and the file is a designated readable cover's
/// normalized thumbnail (fitted to the box, ratio kept, WebP bytes)
/// standing at the identifier's path, with the record's cover path
/// agreeing; when none is returned although every designated cover was
/// readable, a designated cover did not decode.
pub open spec fn cover_matches_container(out: ImportOutcome, bytes: Seq<u8>, dir: Seq<char>) -> bool {
    match out.cover {
        Some(cf) => {
            &&& container_has_cover(bytes)
            &&& exists |raw: Seq<u8>| #[trigger] container_covers(bytes).contains(raw)
                && normalized_from(cf.width, cf.height, cf.data@, raw)
            &&& cf.path@ == cover_file_path(dir, out.record.id@)
            &&& out.record.cover_path matches Some(p) && p@ == cf.path@
        },
        None => {
            &&& container_has_cover(bytes) && container_covers_total(bytes) ==> exists |raw: Seq<u8>|
                #[trigger] container_covers(bytes).contains(raw) && decode_of(raw) is None
            &&& out.record.cover_path is None
        },
    }
}

/// Imports one e-book container: extracts its metadata under the
/// fallback rules, generates a fresh identifier, and derives the cover
/// thumbnail when the container holds a normalizable cover. A container
/// that cannot be opened fails the import with an open error — that
/// includes one whose descriptor fails the verified `full-path` scan,
/// which the package parser would not survive — while a missing or
/// undecodable cover does not.
pub fn import_book(container: Vec<u8>, covers_dir: &str) -> (r: Result<ImportOutcome, ImportError>)
    ensures
        r is Ok <==> container_ok(container@) && package_path_supported(container@),
        r matches Err(e) ==> e is ArchiveOpen,
        r matches Ok(out) ==> out.record.id@.len() == 36,
        r matches Ok(out) ==> out.record.title@.len() > 0,
        r matches Ok(out) ==> record_matches_container(out.record, container@),
        r matches Ok(out) ==> cover_matches_container(out, container@, covers_dir@),
{
    let raw = open_raw_archive(&container);
    match raw {
        Err(m) => {
            return Err(ImportError::ArchiveOpen(m));
        },
        Ok(mut ra) => {
            match read_container_file(&mut ra) {
                None => {
                    return Err(
                        ImportError::ArchiveOpen(String::from_str("missing container descriptor")),
                    );
                },
                Some(descriptor) => {
                    if !check_container_file(&descriptor) {
                        return Err(
                            ImportError::ArchiveOpen(
                                String::from_str("unsupported package document path"),
                            ),
                        );
                    }
                },
            }
        },
    }
    match open_container(container) {
        Err(m) => Err(ImportError::ArchiveOpen(m)),
        Ok(mut doc) => {
            let title = resolve_title(lookup_metadata(&doc, "title"));
            let author = lookup_metadata(&doc, "creator");
            let description = lookup_metadata(&doc, "description");
            let id = fresh_id();
            let mut cover: Option<CoverFile> = None;
            let mut cover_path: Option<String> = None;
            match take_cover(&mut doc) {
                None => {},
                Some(raw) => {
                    match normalize_cover(&raw) {
                        // an undecodable or unencodable cover degrades to
                        // an absent one on this path
                        Err(_) => {},
                        Ok(nc) => {
                            let path = cover_path_for(covers_dir, id.as_str());
                            cover_path = Some(path.clone());
                            cover = Some(
                                CoverFile {
                                    path,
                                    data: nc.data,
                                    width: nc.width,
                                    height: nc.height,
                                },
                            );
                        },
                    }
                },
            }
            let record = BookRecord { id, title, author, description, cover_path };
            Ok(ImportOutcome { record, cover })
        },
    }
}

} // verus!
