use vstd::prelude::*;
use crate::git::check_ignore_invocation;
use crate::process::{ProcessRunner, RunOutput, Invocation};
use crate::git::runs_git;

verus! {

/// Quiet time after the last change before a batch of changes is delivered.
pub const DEBOUNCE_MS: u64 = 1000;

pub open spec fn is_separator(c: char) -> bool {
    c == '/' || c == '\\'
}

/// `.git` stands in `path` at position `i` as a whole segment.
pub open spec fn git_segment_at(path: Seq<char>, i: int) -> bool {
    &&& 0 <= i
    &&& i + 4 <= path.len()
    &&& path.subrange(i, i + 4) == ".git"@
    &&& (i == 0 || is_separator(path[i - 1]))
    &&& (i + 4 == path.len() || is_separator(path[i + 4]))
}

/// `path` lies in git's metadata directory (or is that directory).
pub open spec fn in_git_dir(path: Seq<char>) -> bool {
    exists|i: int| #[trigger] git_segment_at(path, i)
}

/// A changed path triggers a cycle iff it is outside git's metadata
/// directory and git does not ignore it.
pub open spec fn relevant(path: Seq<char>, ignored: bool) -> bool {
    !in_git_dir(path) && !ignored
}

/// Whether `path` lies in git's metadata directory.
pub fn in_metadata_dir(path: &str) -> (r: bool)
    ensures
        r == in_git_dir(path@),
{
    proof {
        reveal_strlit(".git");
        assert(".git"@ =~= seq!['.', 'g', 'i', 't']);
    }
    let n = path.unicode_len();
    let mut i: usize = 0;
    while i <= n && 4 <= n - i
        invariant
            n == path@.len(),
            i <= n,
            ".git"@ =~= seq!['.', 'g', 'i', 't'],
            forall|j: int| 0 <= j < i ==> !git_segment_at(path@, j),
        decreases n - i,
    {
        let starts = i == 0 || {
            let c = path.get_char(i - 1);
            c == '/' || c == '\\'
        };
        let ends = i + 4 == n || {
            let c = path.get_char(i + 4);
            c == '/' || c == '\\'
        };
        let word = path.get_char(i) == '.' && path.get_char(i + 1) == 'g' && path.get_char(i + 2)
            == 'i' && path.get_char(i + 3) == 't';
        proof {
            if word {
                assert(path@.subrange(i as int, i + 4) =~= ".git"@);
            }
            if path@.subrange(i as int, i + 4) == ".git"@ {
                assert(path@[i as int] == path@.subrange(i as int, i + 4)[0]);
                assert(path@[i + 1] == path@.subrange(i as int, i + 4)[1]);
                assert(path@[i + 2] == path@.subrange(i as int, i + 4)[2]);
                assert(path@[i + 3] == path@.subrange(i as int, i + 4)[3]);
            }
        }
        if starts && ends && word {
            proof {
                assert(git_segment_at(path@, i as int));
            }
            return true;
        }
        i = i + 1;
    }
    proof {
        assert forall|j: int| !git_segment_at(path@, j) by {
            if 0 <= j < i {
            } else if j >= i {
                assert(j + 4 > path@.len());
            }
        }
    }
    false
}

/// Whether a changed path should trigger a cycle, given whether git ignores it.
pub fn is_relevant(path: &str, ignored: bool) -> (r: bool)
    ensures
        r == relevant(path@, ignored),
{
    !ignored && !in_metadata_dir(path)
}

/// A path in git's metadata directory never triggers a cycle, whether or not
/// git reports it as ignored.
pub proof fn lemma_metadata_never_relevant(path: Seq<char>, ignored: bool)
    requires
        in_git_dir(path),
    ensures
        !relevant(path, ignored),
{
}

/// Asks git whether it ignores `path`: `git check-ignore` succeeds exactly
/// for ignored paths.
pub fn ignored_by_git<P: ProcessRunner>(runner: &mut P, path: &str) -> (r: bool)
    ensures
        final(runner).history() == old(runner).history().push(
            final(runner).history().last(),
        ),
        runs_git(final(runner).history().last().0, seq!["check-ignore"@, path@]),
        r == final(runner).history().last().1.success,
{
    let answer = runner.run(&check_ignore_invocation(path));
    answer.success
}

/// Some path of the batch is relevant, given git's ignore answer for each.
pub open spec fn any_relevant(paths: Seq<String>, ignored: Seq<bool>) -> bool {
    exists|i: int| 0 <= i < paths.len() && #[trigger] relevant(paths[i]@, ignored[i])
}

/// Whether a batch of changed paths, with git's ignore answer for each,
/// holds a relevant path.
pub fn has_relevant(paths: &Vec<String>, ignored: &Vec<bool>) -> (r: bool)
    requires
        paths@.len() == ignored@.len(),
    ensures
        r == any_relevant(paths@, ignored@),
{
    let mut i: usize = 0;
    while i < paths.len()
        invariant
            i <= paths@.len(),
            paths@.len() == ignored@.len(),
            forall|j: int| 0 <= j < i ==> !#[trigger] relevant(paths@[j]@, ignored@[j]),
        decreases paths@.len() - i,
    {
        if is_relevant(paths[i].as_str(), ignored[i]) {
            return true;
        }
        i = i + 1;
    }
    false
}

/// Whether a batch of changed paths should trigger a cycle: git is asked
/// about every path in turn, and the batch triggers iff some path is outside
/// git's metadata directory and not ignored.
pub fn batch_is_relevant<P: ProcessRunner>(runner: &mut P, paths: &Vec<String>) -> (r: bool)
    ensures
        ({
            let h0 = old(runner).history();
            let h = final(runner).history();
            let n = h0.len() as int;
            &&& h.len() == n + paths@.len()
            &&& h.subrange(0, n) == h0
            &&& forall|i: int|
                0 <= i < paths@.len() ==> runs_git(
                    #[trigger] h[n + i].0,
                    seq!["check-ignore"@, paths@[i]@],
                )
            &&& r == any_relevant(paths@, Seq::new(paths@.len(), |i: int| h[n + i].1.success))
        }),
{
    let ghost h0 = runner.history();
    let mut ignored: Vec<bool> = Vec::new();
    let mut i: usize = 0;
    while i < paths.len()
        invariant
            i <= paths@.len(),
            ignored@.len() == i,
            runner.history().len() == h0.len() + i,
            runner.history().subrange(0, h0.len() as int) == h0,
            forall|j: int|
                0 <= j < i ==> runs_git(
                    #[trigger] runner.history()[h0.len() + j].0,
                    seq!["check-ignore"@, paths@[j]@],
                ),
            forall|j: int|
                0 <= j < i ==> #[trigger] ignored@[j] == runner.history()[h0.len() + j].1.success,
        decreases paths@.len() - i,
    {
        let ghost before = runner.history();
        let answer = ignored_by_git(runner, paths[i].as_str());
        ignored.push(answer);
        proof {
            let h = runner.history();
            assert(h.subrange(0, h0.len() as int) =~= h0) by {
                assert forall|k: int| 0 <= k < h0.len() implies h[k] == h0[k] by {
                    assert(h[k] == before[k]);
                    assert(before.subrange(0, h0.len() as int)[k] == h0[k]);
                }
            }
            assert forall|j: int| 0 <= j < i + 1 implies runs_git(
                #[trigger] h[h0.len() + j].0,
                seq!["check-ignore"@, paths@[j]@],
            ) by {
                if j < i {
                    assert(h[h0.len() + j] == before[h0.len() + j]);
                }
            }
            assert forall|j: int| 0 <= j < i + 1 implies #[trigger] ignored@[j] == h[h0.len()
                + j].1.success by {
                if j < i {
                    assert(h[h0.len() + j] == before[h0.len() + j]);
                }
            }
        }
        i = i + 1;
    }
    let r = has_relevant(paths, &ignored);
    proof {
        let h = runner.history();
        let n = h0.len() as int;
        assert(ignored@ =~= Seq::new(paths@.len(), |i: int| h[n + i].1.success));
    }
    r
}

/// Collects changed paths and delivers them as one batch once no change has
/// come for `DEBOUNCE_MS` milliseconds.
pub struct Debouncer {
    /// The paths changed since the last batch, in order of arrival.
    pub pending: Vec<String>,
    /// When the latest change came, in milliseconds of some monotonic clock.
    pub last_event_ms: u64,
}

impl Debouncer {
    /// The pending batch is complete at `now_ms`.
    pub open spec fn due(&self, now_ms: u64) -> bool {
        self.pending@.len() > 0 && self.last_event_ms <= now_ms && now_ms - self.last_event_ms
            >= DEBOUNCE_MS
    }

    /// A debouncer with nothing pending.
    pub fn new() -> (r: Debouncer)
        ensures
            r.pending@.len() == 0,
    {
        Debouncer { pending: Vec::new(), last_event_ms: 0 }
    }

    /// Adds a change that came at `now_ms`; the quiet time starts again.
    pub fn record(&mut self, path: String, now_ms: u64)
        ensures
            final(self).pending@ == old(self).pending@.push(path),
            final(self).last_event_ms == now_ms,
    {
        self.pending.push(path);
        self.last_event_ms = now_ms;
    }

    /// Whether the pending batch is complete at `now_ms`.
    pub fn is_due(&self, now_ms: u64) -> (r: bool)
        ensures
            r == self.due(now_ms),
    {
        self.pending.len() > 0 && self.last_event_ms <= now_ms && now_ms - self.last_event_ms
            >= DEBOUNCE_MS
    }

    /// How long to wait from `now_ms` until the pending batch is complete;
    /// nothing when no change is pending.
    pub fn wait_ms(&self, now_ms: u64) -> (r: Option<u64>)
        ensures
            self.pending@.len() == 0 ==> r is None,
            self.pending@.len() > 0 ==> r == Some(
                if self.due(now_ms) {
                    0
                } else if now_ms < self.last_event_ms {
                    DEBOUNCE_MS
                } else {
                    (DEBOUNCE_MS - (now_ms - self.last_event_ms)) as u64
                },
            ),
    {
        if self.pending.len() == 0 {
            None
        } else if self.is_due(now_ms) {
            Some(0)
        } else if now_ms < self.last_event_ms {
            Some(DEBOUNCE_MS)
        } else {
            Some(DEBOUNCE_MS - (now_ms - self.last_event_ms))
        }
    }

    /// Hands out the pending batch when it is complete at `now_ms`, and
    /// starts an empty one; otherwise hands out nothing and changes nothing.
    pub fn take_batch(&mut self, now_ms: u64) -> (r: Option<Vec<String>>)
        ensures
            old(self).due(now_ms) ==> r is Some && r->0@ == old(self).pending@
                && final(self).pending@.len() == 0,
            !old(self).due(now_ms) ==> r is None && *final(self) == *old(self),
    {
        if self.is_due(now_ms) {
            let mut batch: Vec<String> = Vec::new();
            std::mem::swap(&mut batch, &mut self.pending);
            Some(batch)
        } else {
            None
        }
    }
}

/// Whether a watch session has a cycle in flight, and whether a relevant
/// batch came while it ran.
#[derive(Debug, Clone, Copy, PartialEq, Eq, Structural)]
pub struct WatchSession {
    pub running: bool,
    pub pending: bool,
}

/// What the watch loop hands the session.
#[derive(Debug, Clone, Copy, PartialEq, Eq, Structural)]
pub enum WatchEvent {
    /// A batch of changes arrived; `relevant` tells whether it should
    /// trigger a cycle.
    Batch { relevant: bool },
    /// The cycle in flight returned.
    CycleDone,
}

/// What the watch loop is to do next.
#[derive(Debug, Clone, Copy, PartialEq, Eq, Structural)]
pub enum WatchAction {
    StartCycle,
    Wait,
}

/// The session before any event.
pub open spec fn idle_session() -> WatchSession {
    WatchSession { running: false, pending: false }
}

/// The session's next state and action after an event. A relevant batch
/// starts a cycle only when none is in flight; one that comes while a cycle
/// runs is remembered and starts the next cycle when that one returns.
pub open spec fn session_step(s: WatchSession, e: WatchEvent) -> (WatchSession, WatchAction) {
    match e {
        WatchEvent::Batch { relevant } => if s.running {
            (WatchSession { running: true, pending: s.pending || relevant }, WatchAction::Wait)
        } else if relevant {
            (WatchSession { running: true, pending: false }, WatchAction::StartCycle)
        } else {
            (s, WatchAction::Wait)
        },
        WatchEvent::CycleDone => if !s.running {
            (s, WatchAction::Wait)
        } else if s.pending {
            (WatchSession { running: true, pending: false }, WatchAction::StartCycle)
        } else {
            (WatchSession { running: false, pending: false }, WatchAction::Wait)
        },
    }
}

impl WatchSession {
    /// A session with no cycle in flight.
    pub fn new() -> (r: WatchSession)
        ensures
            r == idle_session(),
    {
        WatchSession { running: false, pending: false }
    }

    /// Takes an event and says what to do.
    pub fn on_event(&mut self, event: WatchEvent) -> (r: WatchAction)
        ensures
            (*final(self), r) == session_step(*old(self), event),
    {
        match event {
            WatchEvent::Batch { relevant } => {
                if self.running {
                    self.pending = self.pending || relevant;
                    WatchAction::Wait
                } else if relevant {
                    self.running = true;
                    self.pending = false;
                    WatchAction::StartCycle
                } else {
                    WatchAction::Wait
                }
            },
            WatchEvent::CycleDone => {
                if !self.running {
                    WatchAction::Wait
                } else if self.pending {
                    self.pending = false;
                    WatchAction::StartCycle
                } else {
                    self.running = false;
                    WatchAction::Wait
                }
            },
        }
    }
}

/// The session after `events`, with how many cycles it started and how many
/// of those returned.
pub open spec fn replay(events: Seq<WatchEvent>) -> (WatchSession, nat, nat)
    decreases events.len(),
{
    if events.len() == 0 {
        (idle_session(), 0, 0)
    } else {
        let (s, started, finished) = replay(events.drop_last());
        let e = events.last();
        let (next, action) = session_step(s, e);
        (
            next,
            started + if action == WatchAction::StartCycle {
                1nat
            } else {
                0nat
            },
            finished + if e == WatchEvent::CycleDone && s.running {
                1nat
            } else {
                0nat
            },
        )
    }
}

/// Whatever events come, at most one cycle is in flight: every cycle but
/// the current one has returned, and a new cycle starts only after the
/// previous one returned.
pub proof fn lemma_no_overlap(events: Seq<WatchEvent>)
    ensures
        ({
            let (s, started, finished) = replay(events);
            (s.running && started == finished + 1) || (!s.running && started == finished)
        }),
    decreases events.len(),
{
    if events.len() > 0 {
        lemma_no_overlap(events.drop_last());
    }
}

} // verus!
