use magicscan::catalog::Catalog;
use magicscan::catalog::MagicEntry;
use magicscan::matcher::classify;
use magicscan::matcher::classify_strict;
use magicscan::matcher::SigMatch;

fn cat(entries: Vec<MagicEntry>) -> Catalog {
    Catalog::build(entries).unwrap()
}

#[test]
fn planted_pattern_is_found() {
    // The pattern placed at its declared offset, padded with arbitrary bytes
    // elsewhere, is always reported.
    let c = cat(vec![MagicEntry { offset: 3, magic: vec![0xAA, 0xBB, 0xCC], description: "x" }]);
    let buffer = [0x5E, 0x12, 0x99, 0xAA, 0xBB, 0xCC, 0x07, 0x44];
    let r = classify(&buffer, &c);
    assert_eq!(r.matches.len(), 1);
    assert_eq!(r.matches[0], SigMatch { index: 0, length: 3 });
    assert_eq!(r.best, Some(SigMatch { index: 0, length: 3 }));
}

#[test]
fn buffer_shorter_than_every_span_matches_nothing() {
    let c = cat(vec![
        MagicEntry { offset: 0, magic: vec![0x01, 0x02, 0x03], description: "a" },
        MagicEntry { offset: 4, magic: vec![0x09], description: "b" },
    ]);
    let buffer = [0x01, 0x02];
    let r = classify(&buffer, &c);
    assert!(r.matches.is_empty());
    assert_eq!(r.best, None);
}

#[test]
fn empty_buffer_is_a_normal_non_match() {
    let c = cat(vec![MagicEntry { offset: 0, magic: vec![0x01], description: "a" }]);
    let buffer: [u8; 0] = [];
    let r = classify(&buffer, &c);
    assert!(r.matches.is_empty());
    assert_eq!(r.best, None);
}

#[test]
fn classify_is_deterministic() {
    let c = cat(vec![
        MagicEntry { offset: 0, magic: vec![0x50, 0x4B], description: "short" },
        MagicEntry { offset: 0, magic: vec![0x50, 0x4B, 0x03, 0x04], description: "long" },
        MagicEntry { offset: 1, magic: vec![0x4B], description: "inner" },
    ]);
    let buffer = [0x50, 0x4B, 0x03, 0x04];
    let r1 = classify(&buffer, &c);
    let r2 = classify(&buffer, &c);
    assert_eq!(r1.matches, r2.matches);
    assert_eq!(r1.best, r2.best);
}

#[test]
fn longest_pattern_wins() {
    // Two entries match at offset 0; the 4-byte pattern beats the 2-byte
    // pattern that shares its first two bytes.
    let c = cat(vec![
        MagicEntry { offset: 0, magic: vec![0x50, 0x4B], description: "generic" },
        MagicEntry { offset: 0, magic: vec![0x50, 0x4B, 0x03, 0x04], description: "specific" },
    ]);
    let buffer = [0x50, 0x4B, 0x03, 0x04];
    let r = classify(&buffer, &c);
    assert_eq!(r.matches.len(), 2);
    let best = r.best.unwrap();
    assert_eq!(best.index, 1);
    assert_eq!(best.length, 4);
}

#[test]
fn longest_pattern_wins_declared_first() {
    // The same outcome when the longer entry is declared first.
    let c = cat(vec![
        MagicEntry { offset: 0, magic: vec![0x50, 0x4B, 0x03, 0x04], description: "specific" },
        MagicEntry { offset: 0, magic: vec![0x50, 0x4B], description: "generic" },
    ]);
    let buffer = [0x50, 0x4B, 0x03, 0x04];
    let r = classify(&buffer, &c);
    assert_eq!(r.matches.len(), 2);
    assert_eq!(r.best.unwrap().index, 0);
}

#[test]
fn smaller_offset_breaks_length_tie() {
    let c = cat(vec![
        MagicEntry { offset: 2, magic: vec![0x07, 0x07], description: "late" },
        MagicEntry { offset: 1, magic: vec![0x07, 0x07], description: "early" },
    ]);
    let buffer = [0x00, 0x07, 0x07, 0x07];
    let r = classify(&buffer, &c);
    assert_eq!(r.matches.len(), 2);
    assert_eq!(r.best.unwrap().index, 1);
}

#[test]
fn first_declared_breaks_full_tie() {
    // Identical offset and pattern under different labels: both are
    // reported, and the first declared is the best match.
    let c = cat(vec![
        MagicEntry { offset: 0, magic: vec![0x42, 0x4D], description: "label one" },
        MagicEntry { offset: 0, magic: vec![0x42, 0x4D], description: "label two" },
    ]);
    let buffer = [0x42, 0x4D, 0x00];
    let r = classify(&buffer, &c);
    assert_eq!(r.matches.len(), 2);
    assert_eq!(r.matches[0].index, 0);
    assert_eq!(r.matches[1].index, 1);
    assert_eq!(r.best.unwrap().index, 0);
}

#[test]
fn matches_keep_catalog_order() {
    let c = cat(vec![
        MagicEntry { offset: 0, magic: vec![0x01], description: "a" },
        MagicEntry { offset: 9, magic: vec![0xFF], description: "far" },
        MagicEntry { offset: 1, magic: vec![0x02, 0x03], description: "b" },
        MagicEntry { offset: 0, magic: vec![0x01, 0x02, 0x03], description: "c" },
    ]);
    let buffer = [0x01, 0x02, 0x03, 0x04];
    let r = classify(&buffer, &c);
    let indices: Vec<usize> = r.matches.iter().map(|m| m.index).collect();
    assert_eq!(indices, vec![0, 2, 3]);
}

#[test]
fn single_byte_pattern_at_buffer_end() {
    // A one-byte pattern as the whole signature, with the buffer ending
    // right after it, is a valid match.
    let c = cat(vec![MagicEntry { offset: 0, magic: vec![0x47], description: "one byte" }]);
    let buffer = [0x47];
    let r = classify(&buffer, &c);
    assert_eq!(r.matches.len(), 1);
    assert_eq!(r.best, Some(SigMatch { index: 0, length: 1 }));
}

#[test]
fn span_exactly_filling_buffer_matches() {
    // Boundary: offset + pattern length equals the buffer length.
    let c = cat(vec![MagicEntry { offset: 2, magic: vec![0x0A, 0x0B], description: "tail" }]);
    let buffer = [0x00, 0x00, 0x0A, 0x0B];
    let r = classify(&buffer, &c);
    assert_eq!(r.matches.len(), 1);
}

#[test]
fn span_one_past_buffer_end_does_not_match() {
    let c = cat(vec![MagicEntry { offset: 2, magic: vec![0x0A, 0x0B], description: "tail" }]);
    let buffer = [0x00, 0x00, 0x0A];
    let r = classify(&buffer, &c);
    assert!(r.matches.is_empty());
}

#[test]
fn offset_beyond_buffer_does_not_match() {
    let c = cat(vec![MagicEntry { offset: 1000, magic: vec![0x00], description: "far" }]);
    let buffer = [0x00, 0x00, 0x00];
    let r = classify(&buffer, &c);
    assert!(r.matches.is_empty());
    assert_eq!(r.best, None);
}

#[test]
fn wrong_byte_anywhere_in_pattern_does_not_match() {
    let c = cat(vec![MagicEntry { offset: 0, magic: vec![0x89, 0x50, 0x4E], description: "x" }]);
    let buffer = [0x89, 0x50, 0x4F];
    let r = classify(&buffer, &c);
    assert!(r.matches.is_empty());
}

#[test]
fn classify_strict_rejects_empty_buffer() {
    let c = cat(vec![MagicEntry { offset: 0, magic: vec![0x01], description: "a" }]);
    let buffer: [u8; 0] = [];
    assert!(classify_strict(&buffer, &c).is_err());
}

#[test]
fn classify_strict_accepts_nonempty_buffer() {
    let c = cat(vec![MagicEntry { offset: 0, magic: vec![0x01], description: "a" }]);
    let buffer = [0x01];
    let r = classify_strict(&buffer, &c).unwrap();
    assert_eq!(r.matches.len(), 1);
    assert_eq!(r.best, Some(SigMatch { index: 0, length: 1 }));
}
