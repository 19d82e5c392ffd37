use magicscan::catalog::Catalog;
use magicscan::catalog::MagicEntry;

#[test]
fn build_accepts_valid_entries() {
    let entries = vec![
        MagicEntry { offset: 0, magic: vec![0x4D, 0x5A], description: "a" },
        MagicEntry { offset: 3, magic: vec![0x01], description: "b" },
    ];
    let cat = Catalog::build(entries).unwrap();
    assert_eq!(cat.len(), 2);
    assert_eq!(cat.entries()[0].offset, 0);
    assert_eq!(cat.entries()[0].magic, vec![0x4D, 0x5A]);
    assert_eq!(cat.entries()[0].description, "a");
    assert_eq!(cat.entries()[1].offset, 3);
    assert_eq!(cat.entries()[1].magic, vec![0x01]);
    assert_eq!(cat.entries()[1].description, "b");
}

#[test]
fn build_rejects_empty_pattern() {
    let entries = vec![
        MagicEntry { offset: 0, magic: vec![0x4D], description: "ok" },
        MagicEntry { offset: 0, magic: vec![], description: "bad" },
        MagicEntry { offset: 0, magic: vec![0x5A], description: "ok too" },
    ];
    let err = match Catalog::build(entries) {
        Ok(_) => panic!("an empty pattern must be rejected"),
        Err(e) => e,
    };
    assert_eq!(err.index, 1);
}

#[test]
fn build_rejects_lone_empty_pattern() {
    let entries = vec![MagicEntry { offset: 7, magic: vec![], description: "bad" }];
    assert!(Catalog::build(entries).is_err());
}

#[test]
fn build_accepts_empty_catalog() {
    let cat = Catalog::build(Vec::new()).unwrap();
    assert_eq!(cat.len(), 0);
}

#[test]
fn build_keeps_duplicates_and_prefixes() {
    // No deduplication: identical patterns and byte-prefix pairs are legal.
    let entries = vec![
        MagicEntry { offset: 0, magic: vec![0x1F, 0x8B], description: "pair one" },
        MagicEntry { offset: 0, magic: vec![0x1F, 0x8B], description: "pair two" },
        MagicEntry { offset: 0, magic: vec![0x1F], description: "prefix of both" },
    ];
    let cat = Catalog::build(entries).unwrap();
    assert_eq!(cat.len(), 3);
    assert_eq!(cat.entries()[0].description, "pair one");
    assert_eq!(cat.entries()[1].description, "pair two");
    assert_eq!(cat.entries()[2].magic, vec![0x1F]);
}
