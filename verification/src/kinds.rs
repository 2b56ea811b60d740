//! The event-kind stage: normalization of OS-specific raw notification tags
//! into a small canonical taxonomy, and the allowlist membership check.

use vstd::prelude::*;

verus! {

/// Canonical, OS-independent classification of a file-system change.
#[derive(Clone, Copy, Debug, Eq, PartialEq, Structural)]
pub enum FsEvent {
    Access,
    Create,
    Remove,
    Rename,
    Modify,
    Metadata,
}

/// Sub-shape of a raw `modify` notification.
#[derive(Clone, Copy, Debug, Eq, PartialEq, Structural)]
pub enum ModifyShape {
    /// A name (rename) change.
    Name,
    /// A metadata change: permissions, ownership, timestamps.
    Metadata,
    /// A change to the file's contents.
    Data,
    /// A modify notification with no recognizable sub-shape.
    Unspecified,
}

/// An OS-specific raw notification tag, as delivered by the watch primitive.
#[derive(Clone, Copy, Debug, Eq, PartialEq, Structural)]
pub enum RawTag {
    Access,
    Create,
    Remove,
    Modify(ModifyShape),
    /// A tag shape the taxonomy does not recognize; it is never classified.
    Unrecognized,
}

/// The fixed normalization table from raw tags to canonical kinds.
/// `None` means the tag carries no classification at all.
pub open spec fn normalize_spec(tag: RawTag) -> Option<FsEvent> {
    match tag {
        RawTag::Access => Some(FsEvent::Access),
        RawTag::Create => Some(FsEvent::Create),
        RawTag::Remove => Some(FsEvent::Remove),
        RawTag::Modify(ModifyShape::Name) => Some(FsEvent::Rename),
        RawTag::Modify(ModifyShape::Metadata) => Some(FsEvent::Metadata),
        RawTag::Modify(ModifyShape::Data) => Some(FsEvent::Modify),
        RawTag::Modify(ModifyShape::Unspecified) => Some(FsEvent::Modify),
        RawTag::Unrecognized => None,
    }
}

/// Normalizes one raw tag; `None` means the tag is unrecognized and is to be
/// skipped by the caller, neither passing nor vetoing an event on its own.
pub fn normalize(tag: RawTag) -> (r: Option<FsEvent>)
    ensures
        r == normalize_spec(tag),
{
    match tag {
        RawTag::Access => Some(FsEvent::Access),
        RawTag::Create => Some(FsEvent::Create),
        RawTag::Remove => Some(FsEvent::Remove),
        RawTag::Modify(ModifyShape::Name) => Some(FsEvent::Rename),
        RawTag::Modify(ModifyShape::Metadata) => Some(FsEvent::Metadata),
        RawTag::Modify(ModifyShape::Data) => Some(FsEvent::Modify),
        RawTag::Modify(ModifyShape::Unspecified) => Some(FsEvent::Modify),
        RawTag::Unrecognized => None,
    }
}

/// Normalization is a pure function of the raw tag alone: repeated calls on
/// the same tag always yield the same canonical kind.
pub proof fn lemma_normalize_pure(a: RawTag, b: RawTag)
    requires
        a == b,
    ensures
        normalize_spec(a) == normalize_spec(b),
{
}

/// The recommended default allowlist: renames and pure metadata churn are
/// suppressed, everything else passes the kind stage.
pub fn default_allowlist() -> (r: Vec<FsEvent>)
    ensures
        r@ =~= seq![FsEvent::Access, FsEvent::Modify, FsEvent::Create, FsEvent::Remove],
{
    let mut v: Vec<FsEvent> = Vec::new();
    v.push(FsEvent::Access);
    v.push(FsEvent::Modify);
    v.push(FsEvent::Create);
    v.push(FsEvent::Remove);
    v
}

/// Pure set membership of a canonical kind in a configured allowlist.
pub fn is_allowed(allow: &Vec<FsEvent>, kind: FsEvent) -> (r: bool)
    ensures
        r == allow@.contains(kind),
{
    let mut i: usize = 0;
    while i < allow.len()
        invariant
            i <= allow@.len(),
            forall|j: int| 0 <= j < i ==> allow@[j] != kind,
        decreases allow@.len() - i,
    {
        if allow[i] == kind {
            return true;
        }
        i = i + 1;
    }
    false
}

} // verus!
