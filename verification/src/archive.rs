//! The archive metadata extractor's trusted boundary: opening an e-book
//! container from its bytes, looking up package metadata by key, and
//! taking the declared cover image's bytes. Parsing the container is a
//! pure function of its bytes, so the outcomes are named at the byte
//! level and the opened document's contents are tied to them.

use vstd::prelude::*;
use std::io::Cursor;
use epub::archive::EpubArchive;
use epub::doc::EpubDoc;
use crate::descriptor::root_path_acceptable;

verus! {

/// An opened e-book container. It holds the `epub` crate's document;
/// that type's own generic bounds cannot be declared to the verifier,
/// so the document is kept opaque and its contents are reached only
/// through `doc_metadata` and `doc_cover`.
#[verifier::external_body]
pub struct Container {
    doc: EpubDoc<Cursor<Vec<u8>>>,
}

/// Whether `EpubDoc::from_reader` accepts these bytes as a container:
/// a zip archive holding a parsable package manifest.
pub uninterp spec fn container_ok(bytes: Seq<u8>) -> bool;

/// The package metadata of the container these bytes hold: for each
/// declared property, the value of its first metadata item.
pub uninterp spec fn container_metadata(bytes: Seq<u8>) -> Map<Seq<char>, Seq<char>>;

/// Whether the container these bytes hold designates a cover image
/// under its declared version's rule: a resource carrying the cover
/// property for the current package format, the legacy cover metadata
/// entry for older ones (the current format ignores the legacy entry).
pub uninterp spec fn container_has_cover(bytes: Seq<u8>) -> bool;

/// The bytes of every designated cover resource that can be read from
/// the archive. A well-formed container designates at most one cover,
/// so this set rarely has more than one element; which element an open
/// yields is not pinned, because the lookup walks a hash map.
pub uninterp spec fn container_covers(bytes: Seq<u8>) -> Set<Seq<u8>>;

/// Whether every designated cover resource can be read from the
/// archive; then a designated cover is always yielded.
pub uninterp spec fn container_covers_total(bytes: Seq<u8>) -> bool;

/// The package metadata held by an opened container.
pub uninterp spec fn doc_metadata(c: Container) -> Map<Seq<char>, Seq<char>>;

/// The cover image held by an opened container.
pub uninterp spec fn doc_cover(c: Container) -> Option<Seq<u8>>;

/// A raw zip container, opened but not yet parsed as a package. It
/// exists so the container descriptor can be read and vetted before
/// the package parser runs.
#[verifier::external_body]
pub struct RawArchive {
    ar: EpubArchive<Cursor<Vec<u8>>>,
}

/// The container descriptor (the `META-INF/container.xml` entry) of
/// the archive these bytes hold, when the archive opens and the entry
/// reads; reading it is a function of the bytes alone.
pub uninterp spec fn container_file_of(bytes: Seq<u8>) -> Option<Seq<u8>>;

/// The container descriptor held by an opened raw archive.
pub uninterp spec fn raw_container_file(a: RawArchive) -> Option<Seq<u8>>;

/// Whether the package-document path these container bytes declare is
/// one the package parser survives: either the descriptor cannot be
/// read at all (parsing then fails cleanly before any path is built),
/// or the descriptor passes the verified `full-path` scan.
pub open spec fn package_path_supported(bytes: Seq<u8>) -> bool {
    match container_file_of(bytes) {
        Some(xml) => root_path_acceptable(xml),
        None => true,
    }
}

/// Relies on `EpubArchive::from_reader`: opening the zip is a function
/// of the bytes, and it errs rather than aborts. Its failure, or a
/// missing container descriptor, also fails `EpubDoc::from_reader`,
/// whose first two steps are exactly this call and the descriptor
/// read.
#[verifier::external_body]
pub(crate) fn open_raw_archive(bytes: &Vec<u8>) -> (r: Result<RawArchive, String>)
    ensures
        r is Err ==> !container_ok(bytes@),
        r matches Ok(a) ==> raw_container_file(a) == container_file_of(bytes@),
        r matches Ok(a) ==> (raw_container_file(a) is None ==> !container_ok(bytes@)),
{
    match EpubArchive::from_reader(Cursor::new(bytes.clone())) {
        Ok(ar) => Ok(RawArchive { ar }),
        Err(e) => Err(e.to_string()),
    }
}

/// Relies on `EpubArchive::get_container_file`: it reads the
/// `META-INF/container.xml` entry, or errs when the entry is missing
/// or unreadable; deterministic per opened archive.
#[verifier::external_body]
pub(crate) fn read_container_file(a: &mut RawArchive) -> (r: Option<Vec<u8>>)
    ensures
        r is Some <==> raw_container_file(*old(a)) is Some,
        r matches Some(x) ==> x@ == raw_container_file(*old(a)).unwrap(),
{
    a.ar.get_container_file().ok()
}

/// Relies on `EpubDoc::from_reader`: whether parsing succeeds, and the
/// metadata it fills, are functions of the bytes alone; the document's
/// cover, when it yields one, is one of the container's designated
/// readable cover resources, and one is yielded whenever every
/// designated cover is readable.
///
/// `from_reader` aborts (an internal `expect`) when the descriptor
/// declares a package-document path with no parent — empty or all
/// separators. The `requires` keeps such containers out: the verified
/// descriptor scan guarantees every `full-path` attribute value is
/// literal (reference-free) and keeps a non-separator character, so
/// the path the parser builds always has a parent; and when the
/// descriptor cannot be read at all, `from_reader` errs on its own
/// earlier steps before any path is built.
#[verifier::external_body]
pub(crate) fn open_container(bytes: Vec<u8>) -> (r: Result<Container, String>)
    requires
        package_path_supported(bytes@),
    ensures
        r is Ok <==> container_ok(bytes@),
        r matches Ok(c) ==> doc_metadata(c) == container_metadata(bytes@),
        r matches Ok(c) ==> (doc_cover(c) matches Some(d) ==> container_covers(bytes@).contains(d)),
        r matches Ok(c) ==> (doc_cover(c) is Some ==> container_has_cover(bytes@)),
        r matches Ok(c) ==> (container_has_cover(bytes@) && container_covers_total(bytes@)
            ==> doc_cover(c) is Some),
{
    match EpubDoc::from_reader(Cursor::new(bytes)) {
        Ok(doc) => Ok(Container { doc }),
        Err(e) => Err(e.to_string()),
    }
}

/// Relies on `EpubDoc::mdata`: it returns the first metadata item whose
/// property is the given key, if any; the wrapper keeps its value.
#[verifier::external_body]
pub(crate) fn lookup_metadata(c: &Container, key: &str) -> (r: Option<String>)
    ensures
        r is Some <==> doc_metadata(*c).contains_key(key@),
        r matches Some(v) ==> v@ == doc_metadata(*c)[key@],
{
    c.doc.mdata(key).map(|m| m.value.clone())
}

/// Relies on `EpubDoc::get_cover`: it returns the designated cover
/// image's bytes and media type, or nothing when no cover is declared
/// or its resource cannot be read; the wrapper keeps the bytes.
#[verifier::external_body]
pub(crate) fn take_cover(c: &mut Container) -> (r: Option<Vec<u8>>)
    ensures
        r is Some <==> doc_cover(*old(c)) is Some,
        r matches Some(data) ==> data@ == doc_cover(*old(c)).unwrap(),
{
    c.doc.get_cover().map(|(data, _mime)| data)
}

} // verus!
