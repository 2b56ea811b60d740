use watchfilter::glob::GlobPatternStore;
use watchfilter::kinds::{FsEvent, ModifyShape, RawTag};
use watchfilter::pipeline::{EventPriority, RawEvent, WatchexecFilterer};

fn event(path: &str, tags: Vec<RawTag>) -> RawEvent {
    RawEvent {
        path: path.to_string(),
        kind_tags: tags,
        timestamp: 0,
        priority: EventPriority::Normal,
    }
}

#[test]
fn disallowed_metadata_kind_is_vetoed() {
    let filterer = WatchexecFilterer {
        inner: GlobPatternStore::new(),
        fs_events: vec![FsEvent::Create, FsEvent::Remove],
    };
    let e = event("some/file", vec![RawTag::Modify(ModifyShape::Metadata)]);
    assert_eq!(filterer.check_event(&e, EventPriority::Normal), Ok(false));
}

#[test]
fn disallowed_kind_vetoes_regardless_of_path() {
    let mut store = GlobPatternStore::new();
    store.add_include("**/wanted.txt", None).unwrap();
    let filterer = WatchexecFilterer { inner: store, fs_events: vec![FsEvent::Create] };
    // The path is included, but one disallowed recognized tag vetoes anyway.
    let e = event("a/wanted.txt", vec![RawTag::Create, RawTag::Access]);
    assert_eq!(filterer.check_event(&e, EventPriority::Normal), Ok(false));
}

#[test]
fn unrecognized_tags_are_skipped() {
    let filterer = WatchexecFilterer {
        inner: GlobPatternStore::new(),
        fs_events: vec![FsEvent::Create],
    };
    let e = event("some/file", vec![RawTag::Unrecognized]);
    assert_eq!(filterer.check_event(&e, EventPriority::Normal), Ok(true));
}

#[test]
fn event_without_kind_tags_is_decided_by_the_path_alone() {
    let mut store = GlobPatternStore::new();
    store.add_exclude("**/.git/**", None).unwrap();
    let filterer = WatchexecFilterer { inner: store, fs_events: vec![FsEvent::Create] };
    assert_eq!(filterer.check_event(&event("src/lib.txt", vec![]), EventPriority::Normal), Ok(true));
    assert_eq!(
        filterer.check_event(&event("x/.git/HEAD", vec![]), EventPriority::Normal),
        Ok(false)
    );
}

#[test]
fn allowed_kind_with_excluded_path_is_dropped() {
    let mut store = GlobPatternStore::new();
    store.add_exclude("**/.git/**", None).unwrap();
    let filterer = WatchexecFilterer { inner: store, fs_events: vec![FsEvent::Create] };
    let e = event("repo/.git/index", vec![RawTag::Create]);
    assert_eq!(filterer.check_event(&e, EventPriority::Normal), Ok(false));
}

#[test]
fn unmatched_path_with_includes_registered_is_dropped() {
    let mut store = GlobPatternStore::new();
    store.add_include("**/*.txt", None).unwrap();
    let filterer = WatchexecFilterer { inner: store, fs_events: vec![FsEvent::Create] };
    assert_eq!(
        filterer.check_event(&event("a/b.txt", vec![RawTag::Create]), EventPriority::Normal),
        Ok(true)
    );
    assert_eq!(
        filterer.check_event(&event("a/b.md", vec![RawTag::Create]), EventPriority::Normal),
        Ok(false)
    );
}

#[test]
fn priority_never_affects_the_decision() {
    let filterer = WatchexecFilterer {
        inner: GlobPatternStore::new(),
        fs_events: vec![FsEvent::Create],
    };
    let e = event("some/file", vec![RawTag::Create]);
    assert_eq!(filterer.check_event(&e, EventPriority::Low), Ok(true));
    assert_eq!(filterer.check_event(&e, EventPriority::Normal), Ok(true));
    assert_eq!(filterer.check_event(&e, EventPriority::High), Ok(true));
    assert_eq!(filterer.check_event(&e, EventPriority::Urgent), Ok(true));
}
