//! The filter pipeline: the event-kind stage and the path stage composed
//! with AND semantics. The pipeline is stateless over its compiled rule sets
//! and allowlist, so one compiled filterer may serve any number of events.

use vstd::prelude::*;
use crate::glob::{GlobPatternStore, MatchOutcome};
use crate::kinds::{FsEvent, RawTag, normalize, normalize_spec, is_allowed};

verus! {

/// Delivery priority of a raw event, as assigned by the watch primitive.
#[derive(Clone, Copy, Debug, Eq, PartialEq, Structural)]
pub enum EventPriority {
    Low,
    Normal,
    High,
    Urgent,
}

/// One raw change notification: a candidate path, the OS-specific kind tags
/// attached to it, and delivery metadata. Immutable once produced.
#[derive(Debug, Clone)]
pub struct RawEvent {
    pub path: String,
    pub kind_tags: Vec<RawTag>,
    pub timestamp: u64,
    pub priority: EventPriority,
}

/// Raised when an event cannot be evaluated at all. Kept for the dispatch
/// loop's graceful-degradation path; `check_event` itself never yields it,
/// since unrecognized tags are skipped rather than treated as failures.
#[derive(Debug, Clone, PartialEq, Eq)]
pub enum FilterError {
    /// No tag of the event could be brought into the canonical taxonomy.
    Normalization,
}

/// Whether some recognized tag of the list normalizes to a kind outside the
/// allowlist: a single such tag vetoes the whole event.
pub open spec fn kind_vetoed(allow: Seq<FsEvent>, tags: Seq<RawTag>) -> bool {
    exists|i: int|
        0 <= i < tags.len() && match normalize_spec(#[trigger] tags[i]) {
            Some(k) => !allow.contains(k),
            None => false,
        }
}

/// Whether the path stage lets the event through: `Included` always passes,
/// and `Unmatched` passes only while no include rule is registered.
pub open spec fn path_passes(store: GlobPatternStore, path: Seq<char>) -> bool {
    store.decide(path) == MatchOutcome::Included || (store.decide(path) == MatchOutcome::Unmatched
        && store.includes@.len() == 0)
}

/// The two-stage filter: compiled include/exclude path rules and the
/// event-kind allowlist, both assembled once at startup.
#[derive(Debug)]
pub struct WatchexecFilterer {
    pub inner: GlobPatternStore,
    pub fs_events: Vec<FsEvent>,
}

/// The pipeline's decision for one event: no recognized tag vetoes it, and
/// its path survives the path stage.
pub open spec fn check_spec(f: WatchexecFilterer, event: RawEvent) -> bool {
    !kind_vetoed(f.fs_events@, event.kind_tags@) && path_passes(f.inner, event.path@)
}

impl WatchexecFilterer {
    /// Runs one event through both stages. Tags that fail to normalize are
    /// skipped: they neither veto nor pass the event on their own. The
    /// delivery priority never affects the decision.
    pub fn check_event(&self, event: &RawEvent, priority: EventPriority) -> (r: Result<
        bool,
        FilterError,
    >)
        ensures
            r == Ok::<bool, FilterError>(check_spec(*self, *event)),
    {
        let mut i: usize = 0;
        while i < event.kind_tags.len()
            invariant
                i <= event.kind_tags@.len(),
                forall|j: int|
                    0 <= j < i ==> match normalize_spec(#[trigger] event.kind_tags@[j]) {
                        Some(k) => self.fs_events@.contains(k),
                        None => true,
                    },
            decreases event.kind_tags@.len() - i,
        {
            match normalize(event.kind_tags[i]) {
                Some(kind) => {
                    if !is_allowed(&self.fs_events, kind) {
                        proof {
                            assert(match normalize_spec(event.kind_tags@[i as int]) {
                                Some(k) => !self.fs_events@.contains(k),
                                None => false,
                            });
                        }
                        return Ok(false);
                    }
                },
                None => {},
            }
            i = i + 1;
        }
        proof {
            assert(!kind_vetoed(self.fs_events@, event.kind_tags@));
        }
        match self.inner.matches(event.path.as_str()) {
            MatchOutcome::Included => Ok(true),
            MatchOutcome::Unmatched => Ok(self.inner.includes.len() == 0),
            MatchOutcome::Excluded => Ok(false),
        }
    }
}

/// A single disallowed recognized kind vetoes the event, regardless of what
/// the path stage would have said about its path.
pub proof fn lemma_kind_veto(f: WatchexecFilterer, event: RawEvent, i: int, k: FsEvent)
    requires
        0 <= i < event.kind_tags@.len(),
        normalize_spec(event.kind_tags@[i]) == Some(k),
        !f.fs_events@.contains(k),
    ensures
        !check_spec(f, event),
{
    assert(match normalize_spec(event.kind_tags@[i]) {
        Some(kk) => !f.fs_events@.contains(kk),
        None => false,
    });
}

} // verus!
