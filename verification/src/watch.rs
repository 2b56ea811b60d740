//! The watch-and-dispatch loop as an explicit state machine. The loop owns
//! the watched roots and every decision: whether startup succeeds, whether a
//! delivered batch reaches the handler, and where each handler disposition or
//! failure leads. Performing the OS-side work (registering watches, waiting
//! for batches, running the handler) is the caller's part; it reports each
//! outcome back and the machine decides the next state.

use vstd::prelude::*;
use crate::pipeline::{RawEvent, WatchexecFilterer, check_spec};

verus! {

/// The states of the watch loop.
#[derive(Clone, Copy, Debug, Eq, PartialEq, Structural)]
pub enum LoopState {
    /// No roots are registered; the loop can be (re)started.
    Idle,
    /// All wanted roots are registered and batches are awaited.
    Watching,
    /// A qualifying batch is in the handler's hands.
    Dispatching,
    /// Terminal: the handler asked for a clean stop.
    Stopped,
    /// Terminal: an unrecoverable failure was reported.
    Failed,
}

/// What the handler asks for after seeing a batch.
#[derive(Clone, Copy, Debug, Eq, PartialEq, Structural)]
pub enum Disposition {
    /// Keep watching and dispatching.
    Continue,
    /// Stop cleanly; the loop ends.
    Stop,
    /// Deregister the roots and fall back to `Idle`, rewatchable.
    Pause,
}

/// Raised when a root cannot be registered with the OS watch primitive at
/// startup.
#[derive(Debug, Clone)]
pub struct WatchRegistrationError {
    pub root: String,
}

/// Every root of the given prefix was reported as registered.
pub open spec fn all_registered(reg: Seq<bool>) -> bool {
    forall|i: int| 0 <= i < reg.len() ==> reg[i]
}

/// At least one root was reported as registered.
pub open spec fn some_registered(reg: Seq<bool>) -> bool {
    exists|i: int| 0 <= i < reg.len() && reg[i]
}

/// The roots that survive a partial registration: those whose flag is set,
/// in their original order, among the first `n`.
pub open spec fn kept_roots(roots: Seq<String>, reg: Seq<bool>, n: int) -> Seq<String>
    decreases n,
{
    if n <= 0 {
        Seq::empty()
    } else {
        kept_roots(roots, reg, n - 1) + if reg[n - 1] {
            seq![roots[n - 1]]
        } else {
            Seq::empty()
        }
    }
}

/// When every flag of the prefix is set, the kept roots are the prefix whole.
proof fn lemma_kept_roots_all(roots: Seq<String>, reg: Seq<bool>, n: int)
    requires
        0 <= n <= roots.len(),
        n <= reg.len(),
        forall|j: int| 0 <= j < n ==> reg[j],
    ensures
        kept_roots(roots, reg, n) =~= roots.subrange(0, n),
    decreases n,
{
    if n > 0 {
        lemma_kept_roots_all(roots, reg, n - 1);
    }
}

/// Some root is kept exactly when some flag of the prefix is set.
proof fn lemma_kept_roots_some(roots: Seq<String>, reg: Seq<bool>, n: int)
    requires
        0 <= n <= roots.len(),
        n <= reg.len(),
    ensures
        kept_roots(roots, reg, n).len() > 0 <==> exists|i: int| 0 <= i < n && reg[i],
    decreases n,
{
    if n > 0 {
        lemma_kept_roots_some(roots, reg, n - 1);
        if reg[n - 1] {
            assert(exists|i: int| 0 <= i < n && reg[i]);
        }
    }
}

/// The watch loop: the wanted roots, the startup and failure policies, and
/// the current state.
pub struct WatchLoop {
    pub roots: Vec<String>,
    /// Whether a partially successful registration proceeds with the roots
    /// that did register, instead of failing the whole startup.
    pub proceed_on_partial: bool,
    /// Whether a mid-run failure of the OS primitive resumes watching
    /// instead of ending in `Failed`.
    pub auto_resume: bool,
    pub state: LoopState,
}

impl WatchLoop {
    /// A fresh loop over the given roots, in `Idle`, with nothing registered.
    pub fn new(roots: Vec<String>, proceed_on_partial: bool, auto_resume: bool) -> (r: WatchLoop)
        ensures
            r.roots@ == roots@,
            r.proceed_on_partial == proceed_on_partial,
            r.auto_resume == auto_resume,
            r.state == LoopState::Idle,
    {
        WatchLoop { roots, proceed_on_partial, auto_resume, state: LoopState::Idle }
    }

    /// Takes the outcome of registering each root, in order, with the OS
    /// primitive. Startup succeeds, entering `Watching`, when every root
    /// registered, or — under the partial policy — when at least one did, the
    /// unregistered ones then being dropped from the set. Otherwise the whole
    /// startup fails atomically with the first unregistrable root, no
    /// partially registered set is retained, and the loop stays `Idle`.
    pub fn on_registration(&mut self, registered: &Vec<bool>) -> (r: Result<
        (),
        WatchRegistrationError,
    >)
        requires
            old(self).state == LoopState::Idle,
            registered@.len() == old(self).roots@.len(),
        ensures
            r is Ok <==> (all_registered(registered@) || (old(self).proceed_on_partial
                && some_registered(registered@))),
            match r {
                Ok(()) => final(self).state == LoopState::Watching && final(self).roots@
                    == kept_roots(old(self).roots@, registered@, registered@.len() as int) && (
                all_registered(registered@) ==> final(self).roots@ == old(self).roots@),
                Err(e) => *final(self) == *old(self) && exists|i: int|
                    0 <= i < registered@.len() && !(#[trigger] registered@[i]) && (forall|j: int|
                        0 <= j < i ==> registered@[j]) && e.root == old(self).roots@[i],
            },
            final(self).proceed_on_partial == old(self).proceed_on_partial,
            final(self).auto_resume == old(self).auto_resume,
    {
        let n = registered.len();
        let mut first_fail: Option<usize> = Option::None;
        let mut i: usize = 0;
        while i < n
            invariant
                n == registered@.len(),
                i <= n,
                match first_fail {
                    Option::Some(f) => f < i && !registered@[f as int] && forall|j: int|
                        0 <= j < f ==> registered@[j],
                    Option::None => forall|j: int| 0 <= j < i ==> registered@[j],
                },
            decreases n - i,
        {
            if first_fail.is_none() && !registered[i] {
                first_fail = Option::Some(i);
            }
            i = i + 1;
        }
        match first_fail {
            Option::None => {
                proof {
                    lemma_kept_roots_all(self.roots@, registered@, n as int);
                    assert(self.roots@.subrange(0, n as int) =~= self.roots@);
                }
                self.state = LoopState::Watching;
                Ok(())
            },
            Option::Some(f) => {
                if self.proceed_on_partial {
                    let ghost orig = self.roots@;
                    let mut kept: Vec<String> = Vec::new();
                    let mut k: usize = 0;
                    while k < n
                        invariant
                            n == registered@.len(),
                            n == self.roots@.len(),
                            k <= n,
                            self.roots@ == orig,
                            kept@ =~= kept_roots(orig, registered@, k as int),
                        decreases n - k,
                    {
                        if registered[k] {
                            kept.push(self.roots[k].clone());
                        }
                        k = k + 1;
                    }
                    if kept.len() > 0 {
                        proof {
                            lemma_kept_roots_some(orig, registered@, n as int);
                        }
                        self.roots = kept;
                        self.state = LoopState::Watching;
                        Ok(())
                    } else {
                        proof {
                            lemma_kept_roots_some(orig, registered@, n as int);
                            assert(!registered@[f as int]);
                        }
                        Err(WatchRegistrationError { root: self.roots[f].clone() })
                    }
                } else {
                    proof {
                        assert(!registered@[f as int]);
                    }
                    Err(WatchRegistrationError { root: self.roots[f].clone() })
                }
            },
        }
    }

    /// Takes one debounced batch while watching. Every event is run through
    /// the pipeline; the result says whether the handler is to be invoked,
    /// and it is invoked with the complete original batch — filtering decides
    /// only whether the handler runs, never which events it sees. A batch in
    /// which no event qualifies leaves the loop `Watching`.
    pub fn on_batch(&mut self, filterer: &WatchexecFilterer, batch: &Vec<RawEvent>) -> (invoke:
        bool)
        requires
            old(self).state == LoopState::Watching,
        ensures
            invoke == exists|i: int| 0 <= i < batch@.len() && check_spec(*filterer, #[trigger] batch@[i]),
            final(self).state == (if invoke {
                LoopState::Dispatching
            } else {
                LoopState::Watching
            }),
            final(self).roots@ == old(self).roots@,
            final(self).proceed_on_partial == old(self).proceed_on_partial,
            final(self).auto_resume == old(self).auto_resume,
    {
        let mut i: usize = 0;
        let mut any = false;
        while i < batch.len()
            invariant
                i <= batch@.len(),
                old(self).state == LoopState::Watching,
                *self == *old(self),
                any == exists|j: int| 0 <= j < i && check_spec(*filterer, #[trigger] batch@[j]),
            decreases batch@.len() - i,
        {
            // An error from the pipeline drops only that event: the loop
            // degrades gracefully instead of aborting on one malformed event.
            match filterer.check_event(&batch[i], batch[i].priority) {
                Ok(passes) => {
                    if passes {
                        proof {
                            assert(check_spec(*filterer, batch@[i as int]));
                        }
                        any = true;
                    }
                },
                Err(_) => {},
            }
            i = i + 1;
        }
        if any {
            self.state = LoopState::Dispatching;
        }
        any
    }

    /// Takes the handler's disposition after a dispatch: `Continue` resumes
    /// watching, `Stop` ends the loop cleanly, `Pause` deregisters the roots
    /// and returns to `Idle`, rewatchable.
    pub fn on_disposition(&mut self, d: Disposition)
        requires
            old(self).state == LoopState::Dispatching,
        ensures
            final(self).state == (match d {
                Disposition::Continue => LoopState::Watching,
                Disposition::Stop => LoopState::Stopped,
                Disposition::Pause => LoopState::Idle,
            }),
            final(self).roots@ == old(self).roots@,
            final(self).proceed_on_partial == old(self).proceed_on_partial,
            final(self).auto_resume == old(self).auto_resume,
    {
        match d {
            Disposition::Continue => {
                self.state = LoopState::Watching;
            },
            Disposition::Stop => {
                self.state = LoopState::Stopped;
            },
            Disposition::Pause => {
                self.state = LoopState::Idle;
            },
        }
    }

    /// Takes a failure raised by the handler itself: it is propagated to the
    /// caller and the loop ends in `Failed`.
    pub fn on_handler_error(&mut self)
        requires
            old(self).state == LoopState::Dispatching,
        ensures
            final(self).state == LoopState::Failed,
            final(self).roots@ == old(self).roots@,
            final(self).proceed_on_partial == old(self).proceed_on_partial,
            final(self).auto_resume == old(self).auto_resume,
    {
        self.state = LoopState::Failed;
    }

    /// Takes an unrecoverable failure of the OS primitive mid-run (a root
    /// deleted externally, permission revoked): the loop ends in `Failed`
    /// unless it was configured to resume watching.
    pub fn on_runtime_error(&mut self)
        requires
            old(self).state == LoopState::Watching,
        ensures
            final(self).state == (if old(self).auto_resume {
                LoopState::Watching
            } else {
                LoopState::Failed
            }),
            final(self).roots@ == old(self).roots@,
            final(self).proceed_on_partial == old(self).proceed_on_partial,
            final(self).auto_resume == old(self).auto_resume,
    {
        if !self.auto_resume {
            self.state = LoopState::Failed;
        }
    }

    /// Whether the loop has ended, cleanly or not.
    pub fn is_terminal(&self) -> (r: bool)
        ensures
            r == (self.state == LoopState::Stopped || self.state == LoopState::Failed),
    {
        match self.state {
            LoopState::Stopped => true,
            LoopState::Failed => true,
            _ => false,
        }
    }
}

} // verus!
