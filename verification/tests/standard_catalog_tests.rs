use magicscan::catalog::Catalog;
use magicscan::magicnums::get_magic_numbers;
use magicscan::matcher::classify;

fn standard_catalog() -> Catalog {
    Catalog::build(get_magic_numbers()).unwrap()
}

#[test]
fn standard_table_builds() {
    let table = get_magic_numbers();
    assert_eq!(table.len(), 122);
    for entry in &table {
        assert!(!entry.magic.is_empty());
    }
    let c = standard_catalog();
    assert_eq!(c.len(), 122);
}

#[test]
fn png_buffer_is_classified_as_png() {
    let c = standard_catalog();
    let buffer = [0x89, 0x50, 0x4E, 0x47, 0x0D, 0x0A, 0x1A, 0x0A];
    let r = classify(&buffer, &c);
    let best = r.best.unwrap();
    assert_eq!(c.entries()[best.index].description, "PNG image data, 8-bit depth");
}

#[test]
fn zip_buffer_is_classified_as_zip() {
    let c = standard_catalog();
    let buffer = [0x50, 0x4B, 0x03, 0x04, 0x14, 0x00, 0x06, 0x00];
    let r = classify(&buffer, &c);
    let best = r.best.unwrap();
    assert_eq!(c.entries()[best.index].description, "Zip archive data (PKZIP)");
}

#[test]
fn all_zero_buffer_matches_nothing() {
    let c = standard_catalog();
    let buffer = [0u8; 10];
    let r = classify(&buffer, &c);
    assert!(r.matches.is_empty());
    assert_eq!(r.best, None);
}

#[test]
fn gzip_pattern_filling_whole_buffer_matches() {
    // Boundary: the buffer is exactly as long as the pattern.
    let c = standard_catalog();
    let buffer = [0x1F, 0x8B];
    let r = classify(&buffer, &c);
    assert_eq!(r.matches.len(), 1);
    let best = r.best.unwrap();
    assert_eq!(best.length, 2);
    assert_eq!(c.entries()[best.index].description, "gzip compressed data");
}

#[test]
fn tar_interior_offset_is_honoured() {
    // The POSIX ustar signature sits at byte offset 257.
    let c = standard_catalog();
    let mut buffer = vec![0u8; 300];
    // Keep byte 0 non-zero so no zero-prefixed signature can interfere.
    buffer[0] = 0x74;
    let ustar = [0x75, 0x73, 0x74, 0x61, 0x72, 0x00, 0x30, 0x30];
    buffer[257..265].copy_from_slice(&ustar);
    let r = classify(&buffer, &c);
    let best = r.best.unwrap();
    assert_eq!(c.entries()[best.index].description, "tar archive (POSIX ustar)");
}

#[test]
fn jpeg_prefix_overlap_prefers_longer_signature() {
    // 0xFF 0xD8 0xFF matches the generic JPEG entry, and the longer
    // Exif entry sharing that prefix wins when its full pattern appears.
    let c = standard_catalog();
    let buffer = [0xFF, 0xD8, 0xFF, 0xE1, 0x00, 0x10];
    let r = classify(&buffer, &c);
    assert_eq!(r.matches.len(), 2);
    let best = r.best.unwrap();
    assert_eq!(best.length, 4);
    assert_eq!(c.entries()[best.index].description, "JPEG image data, Exif standard");
}
