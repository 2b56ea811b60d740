use watchfilter::kinds::{default_allowlist, is_allowed, normalize, FsEvent, ModifyShape, RawTag};

#[test]
fn normalization_table_is_exact() {
    assert_eq!(normalize(RawTag::Access), Some(FsEvent::Access));
    assert_eq!(normalize(RawTag::Create), Some(FsEvent::Create));
    assert_eq!(normalize(RawTag::Remove), Some(FsEvent::Remove));
    assert_eq!(normalize(RawTag::Modify(ModifyShape::Name)), Some(FsEvent::Rename));
    assert_eq!(normalize(RawTag::Modify(ModifyShape::Metadata)), Some(FsEvent::Metadata));
    assert_eq!(normalize(RawTag::Modify(ModifyShape::Data)), Some(FsEvent::Modify));
    assert_eq!(normalize(RawTag::Modify(ModifyShape::Unspecified)), Some(FsEvent::Modify));
    assert_eq!(normalize(RawTag::Unrecognized), None);
}

#[test]
fn normalization_is_repeatable() {
    let tag = RawTag::Modify(ModifyShape::Metadata);
    let first = normalize(tag);
    let second = normalize(tag);
    assert_eq!(first, second);
    assert_eq!(second, Some(FsEvent::Metadata));
}

#[test]
fn default_allowlist_suppresses_rename_and_metadata() {
    let allow = default_allowlist();
    assert_eq!(
        allow,
        vec![FsEvent::Access, FsEvent::Modify, FsEvent::Create, FsEvent::Remove]
    );
    assert!(is_allowed(&allow, FsEvent::Access));
    assert!(is_allowed(&allow, FsEvent::Modify));
    assert!(is_allowed(&allow, FsEvent::Create));
    assert!(is_allowed(&allow, FsEvent::Remove));
    assert!(!is_allowed(&allow, FsEvent::Rename));
    assert!(!is_allowed(&allow, FsEvent::Metadata));
}

#[test]
fn empty_allowlist_allows_nothing() {
    let allow: Vec<FsEvent> = Vec::new();
    assert!(!is_allowed(&allow, FsEvent::Create));
}
