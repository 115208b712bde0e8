use book_import::cover::process_cover_blob;
use book_import::import::import_book;
use book_import::record::{greet, resolve_title, BookRecord, ImportError};
use image::GenericImageView;

fn crc32(data: &[u8]) -> u32 {
    let mut crc: u32 = 0xFFFF_FFFF;
    for &b in data {
        crc ^= b as u32;
        for _ in 0..8 {
            if crc & 1 != 0 {
                crc = (crc >> 1) ^ 0xEDB8_8320;
            } else {
                crc >>= 1;
            }
        }
    }
    !crc
}

fn push_u16(v: &mut Vec<u8>, x: u16) {
    v.extend_from_slice(&x.to_le_bytes());
}

fn push_u32(v: &mut Vec<u8>, x: u32) {
    v.extend_from_slice(&x.to_le_bytes());
}

/// Builds a zip archive of stored (uncompressed) entries.
fn build_zip(entries: &[(&str, Vec<u8>)]) -> Vec<u8> {
    let mut out: Vec<u8> = Vec::new();
    let mut central: Vec<u8> = Vec::new();
    for (name, data) in entries {
        let offset = out.len() as u32;
        let crc = crc32(data);
        let n = name.as_bytes();
        push_u32(&mut out, 0x0403_4b50);
        push_u16(&mut out, 20); // version needed
        push_u16(&mut out, 0); // flags
        push_u16(&mut out, 0); // method: stored
        push_u16(&mut out, 0); // mod time
        push_u16(&mut out, 0x21); // mod date
        push_u32(&mut out, crc);
        push_u32(&mut out, data.len() as u32);
        push_u32(&mut out, data.len() as u32);
        push_u16(&mut out, n.len() as u16);
        push_u16(&mut out, 0); // extra len
        out.extend_from_slice(n);
        out.extend_from_slice(data);
        push_u32(&mut central, 0x0201_4b50);
        push_u16(&mut central, 20); // version made by
        push_u16(&mut central, 20); // version needed
        push_u16(&mut central, 0); // flags
        push_u16(&mut central, 0); // method
        push_u16(&mut central, 0); // mod time
        push_u16(&mut central, 0x21); // mod date
        push_u32(&mut central, crc);
        push_u32(&mut central, data.len() as u32);
        push_u32(&mut central, data.len() as u32);
        push_u16(&mut central, n.len() as u16);
        push_u16(&mut central, 0); // extra len
        push_u16(&mut central, 0); // comment len
        push_u16(&mut central, 0); // disk number
        push_u16(&mut central, 0); // internal attrs
        push_u32(&mut central, 0); // external attrs
        push_u32(&mut central, offset);
        central.extend_from_slice(n);
    }
    let count = entries.len() as u16;
    let cd_offset = out.len() as u32;
    let cd_size = central.len() as u32;
    out.extend_from_slice(&central);
    push_u32(&mut out, 0x0605_4b50);
    push_u16(&mut out, 0); // this disk
    push_u16(&mut out, 0); // central dir disk
    push_u16(&mut out, count);
    push_u16(&mut out, count);
    push_u32(&mut out, cd_size);
    push_u32(&mut out, cd_offset);
    push_u16(&mut out, 0); // comment len
    out
}

/// Builds a minimal well-formed e-book container with the given
/// metadata fields and, optionally, a declared JPEG cover image.
fn build_epub(
    title: Option<&str>,
    creator: Option<&str>,
    description: Option<&str>,
    cover_jpeg: Option<&[u8]>,
) -> Vec<u8> {
    let container = "<?xml version=\"1.0\" encoding=\"UTF-8\"?>\
        <container version=\"1.0\" \
        xmlns=\"urn:oasis:names:tc:opendocument:xmlns:container\">\
        <rootfiles>\
        <rootfile full-path=\"content.opf\" \
        media-type=\"application/oebps-package+xml\"/>\
        </rootfiles></container>";
    let mut meta = String::from("<dc:identifier id=\"pub-id\">urn:example:book</dc:identifier>");
    if let Some(t) = title {
        meta.push_str(&format!("<dc:title>{}</dc:title>", t));
    }
    if let Some(c) = creator {
        meta.push_str(&format!("<dc:creator>{}</dc:creator>", c));
    }
    if let Some(d) = description {
        meta.push_str(&format!("<dc:description>{}</dc:description>", d));
    }
    let items = if cover_jpeg.is_some() {
        "<item id=\"cover-img\" href=\"cover.jpg\" media-type=\"image/jpeg\" \
         properties=\"cover-image\"/>"
    } else {
        ""
    };
    let opf = format!(
        "<?xml version=\"1.0\" encoding=\"UTF-8\"?>\
         <package xmlns=\"http://www.idpf.org/2007/opf\" \
         xmlns:dc=\"http://purl.org/dc/elements/1.1/\" \
         version=\"3.0\" unique-identifier=\"pub-id\">\
         <metadata>{}</metadata><manifest>{}</manifest><spine></spine></package>",
        meta, items
    );
    let mut entries: Vec<(&str, Vec<u8>)> = vec![
        ("mimetype", b"application/epub+zip".to_vec()),
        ("META-INF/container.xml", container.as_bytes().to_vec()),
        ("content.opf", opf.into_bytes()),
    ];
    if let Some(c) = cover_jpeg {
        entries.push(("cover.jpg", c.to_vec()));
    }
    build_zip(&entries)
}

fn jpeg_bytes(w: u32, h: u32) -> Vec<u8> {
    let img = image::DynamicImage::ImageRgb8(image::RgbImage::from_fn(w, h, |x, y| {
        image::Rgb([(x % 251) as u8, (y % 241) as u8, 128])
    }));
    let mut buf: Vec<u8> = Vec::new();
    img.write_to(&mut std::io::Cursor::new(&mut buf), image::ImageFormat::Jpeg)
        .unwrap();
    buf
}

fn png_bytes(w: u32, h: u32) -> Vec<u8> {
    let img = image::DynamicImage::ImageRgb8(image::RgbImage::from_fn(w, h, |x, y| {
        image::Rgb([(x % 17) as u8, ((x + y) % 29) as u8, ((7 * y) % 255) as u8])
    }));
    let mut buf: Vec<u8> = Vec::new();
    img.write_to(&mut std::io::Cursor::new(&mut buf), image::ImageFormat::Png)
        .unwrap();
    buf
}

#[test]
fn title_returned_verbatim() {
    let book = build_epub(Some("Dune"), Some("Frank Herbert"), Some("Desert planet."), None);
    let out = import_book(book, "covers").unwrap();
    assert_eq!(out.record.title, "Dune");
    assert_eq!(out.record.author.as_deref(), Some("Frank Herbert"));
    assert_eq!(out.record.description.as_deref(), Some("Desert planet."));
}

#[test]
fn empty_declared_title_falls_back_to_sentinel() {
    let book = build_epub(Some(""), Some("Anonymous"), None, None);
    let out = import_book(book, "covers").unwrap();
    assert_eq!(out.record.title, "Unknown Title");
    assert_eq!(out.record.author.as_deref(), Some("Anonymous"));
}

#[test]
fn missing_title_falls_back_to_sentinel() {
    let book = build_epub(None, Some("Anonymous"), None, None);
    let out = import_book(book, "covers").unwrap();
    assert_eq!(out.record.title, "Unknown Title");
}

#[test]
fn missing_creator_and_description_are_absent() {
    let book = build_epub(Some("Solaris"), None, None, None);
    let out = import_book(book, "covers").unwrap();
    assert_eq!(out.record.author, None);
    assert_eq!(out.record.description, None);
}

#[test]
fn no_cover_still_succeeds_with_absent_path() {
    let book = build_epub(Some("Solaris"), None, None, None);
    let out = import_book(book, "covers").unwrap();
    assert!(out.cover.is_none());
    assert_eq!(out.record.cover_path, None);
}

#[test]
fn undecodable_cover_degrades_to_absent_path() {
    let junk = vec![0u8; 64];
    let book = build_epub(Some("Solaris"), None, None, Some(&junk));
    let out = import_book(book, "covers").unwrap();
    assert!(out.cover.is_none());
    assert_eq!(out.record.cover_path, None);
}

#[test]
fn fresh_identifier_has_uuid_shape_and_names_cover() {
    let book = build_epub(Some("Dune"), None, None, Some(&jpeg_bytes(300, 200)));
    let out = import_book(book, "covers").unwrap();
    assert_eq!(out.record.id.len(), 36);
    let cf = out.cover.unwrap();
    assert_eq!(cf.path, format!("covers/{}.webp", out.record.id));
    assert_eq!(out.record.cover_path.as_deref(), Some(cf.path.as_str()));
}

#[test]
fn two_imports_get_distinct_identifiers() {
    let a = import_book(build_epub(Some("Dune"), None, None, None), "covers").unwrap();
    let b = import_book(build_epub(Some("Dune"), None, None, None), "covers").unwrap();
    assert_ne!(a.record.id, b.record.id);
}

#[test]
fn tall_jpeg_cover_becomes_bounded_webp() {
    let book = build_epub(Some("Dune"), None, None, Some(&jpeg_bytes(1200, 1800)));
    let out = import_book(book, "covers").unwrap();
    assert_eq!(out.record.title, "Dune");
    assert_eq!(out.record.author, None);
    let cf = out.cover.unwrap();
    assert_eq!((cf.width, cf.height), (400, 600));
    let img = image::load_from_memory(&cf.data).unwrap();
    assert_eq!(image::guess_format(&cf.data).unwrap(), image::ImageFormat::WebP);
    // fits the box and keeps the 2:3 aspect ratio
    assert_eq!(img.dimensions(), (400, 600));
}

#[test]
fn broken_archive_is_an_open_error() {
    let r = import_book(vec![0x50, 0x4b, 0x99, 0x00, 1, 2, 3], "covers");
    let e = r.err().unwrap();
    assert!(matches!(e, ImportError::ArchiveOpen(_)));
    assert!(e.message().starts_with("Failed to open EPUB: "));
}

#[test]
fn archive_without_package_manifest_is_an_open_error() {
    let zip = build_zip(&[("mimetype", b"application/epub+zip".to_vec())]);
    let r = import_book(zip, "covers");
    assert!(matches!(r, Err(ImportError::ArchiveOpen(_))));
}

fn epub_with_root_path(full_path: &str) -> Vec<u8> {
    let container = format!(
        "<?xml version=\"1.0\" encoding=\"UTF-8\"?>\
         <container version=\"1.0\" \
         xmlns=\"urn:oasis:names:tc:opendocument:xmlns:container\">\
         <rootfiles>\
         <rootfile full-path=\"{}\" \
         media-type=\"application/oebps-package+xml\"/>\
         </rootfiles></container>",
        full_path
    );
    build_zip(&[
        ("mimetype", b"application/epub+zip".to_vec()),
        ("META-INF/container.xml", container.into_bytes()),
    ])
}

#[test]
fn empty_package_path_is_an_open_error_not_a_crash() {
    let r = import_book(epub_with_root_path(""), "covers");
    assert!(matches!(r, Err(ImportError::ArchiveOpen(_))));
}

#[test]
fn bare_root_package_path_is_an_open_error_not_a_crash() {
    let r = import_book(epub_with_root_path("/"), "covers");
    assert!(matches!(r, Err(ImportError::ArchiveOpen(_))));
    let r = import_book(epub_with_root_path("///"), "covers");
    assert!(matches!(r, Err(ImportError::ArchiveOpen(_))));
}

#[test]
fn blob_is_normalized_under_the_given_id() {
    let blob = png_bytes(200, 100);
    let cf = process_cover_blob("book-7", &blob, "covers").unwrap();
    assert_eq!(cf.path, "covers/book-7.webp");
    // scaled up to the largest size inside the 1000x600 box
    assert_eq!((cf.width, cf.height), (1000, 500));
    let img = image::load_from_memory(&cf.data).unwrap();
    assert_eq!(img.dimensions(), (1000, 500));
    assert_ne!(cf.data, blob);
}

#[test]
fn undecodable_blob_is_an_error() {
    let blob = vec![1u8, 2, 3, 4, 5];
    let r = process_cover_blob("book-7", &blob, "covers");
    let e = r.err().unwrap();
    assert!(matches!(e, ImportError::ImageDecode));
    assert_eq!(e.message(), "Failed to load image from blob");
}

#[test]
fn same_id_names_the_same_file() {
    let a = process_cover_blob("book-7", &png_bytes(20, 10), "covers").unwrap();
    let b = process_cover_blob("book-7", &jpeg_bytes(64, 64), "covers").unwrap();
    assert_eq!(a.path, b.path);
}

#[test]
fn extreme_aspect_blob_stays_inside_the_box() {
    let blob = png_bytes(2000, 5);
    let cf = process_cover_blob("wide", &blob, "covers").unwrap();
    assert!(cf.width <= 1000 && cf.height <= 600);
    assert!(cf.width >= 1 && cf.height >= 1);
    // the 400:1 ratio is kept within the one-pixel rounding margin
    let cross = (cf.width as i64 * 5 - cf.height as i64 * 2000).abs();
    assert!(cross <= 2000 + 5);
    let img = image::load_from_memory(&cf.data).unwrap();
    assert_eq!(img.dimensions(), (cf.width, cf.height));
}

#[test]
fn greet_renders_the_shell_greeting() {
    assert_eq!(greet("Ada"), "Hello, Ada! You've been greeted from Rust!");
}

#[test]
fn resolve_title_applies_fallback_rule() {
    assert_eq!(resolve_title(Some(String::from("Dune"))), "Dune");
    assert_eq!(resolve_title(None), "Unknown Title");
}

#[test]
fn without_cover_keeps_fields_and_drops_path() {
    let r = BookRecord {
        id: String::from("abc"),
        title: String::from("Dune"),
        author: Some(String::from("Frank Herbert")),
        description: None,
        cover_path: Some(String::from("covers/abc.webp")),
    };
    let r = r.without_cover();
    assert_eq!(r.id, "abc");
    assert_eq!(r.title, "Dune");
    assert_eq!(r.author.as_deref(), Some("Frank Herbert"));
    assert_eq!(r.description, None);
    assert_eq!(r.cover_path, None);
}

#[test]
fn error_messages_mirror_the_surface_wording() {
    assert_eq!(
        ImportError::ArchiveOpen(String::from("no file")).message(),
        "Failed to open EPUB: no file"
    );
    assert_eq!(
        ImportError::DirectoryResolution(String::from("unset")).message(),
        "Failed to get app data dir: unset"
    );
    assert_eq!(
        ImportError::DirectoryCreate(String::from("denied")).message(),
        "Failed to create covers dir: denied"
    );
    assert_eq!(
        ImportError::ImageEncode(String::from("bad color")).message(),
        "Failed to save cover image: bad color"
    );
    assert_eq!(
        ImportError::ImageWrite(String::from("disk full")).message(),
        "Failed to save cover image: disk full"
    );
}
