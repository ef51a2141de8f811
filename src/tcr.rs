use vstd::prelude::*;

verus! {

/// An operation that the orchestrator asks of the repository.
#[derive(Debug, Clone, Copy, PartialEq, Eq, Structural)]
pub enum Request {
    Prepare,
    Stage,
    CheckChanges,
    Test,
    Commit,
    Revert,
}

/// An operation a repository performed, with the answer it gave where the
/// operation answers.
#[derive(Debug, Clone, Copy, PartialEq, Eq, Structural)]
pub enum Step {
    /// The commands run ahead of the cycle; `ok` when all of them succeeded.
    Prepare { ok: bool },
    Stage,
    CheckChanges { changes: bool },
    Test { passed: bool },
    Commit,
    Revert,
}

/// The step recorded when `request` answered `answer` (ignored by the
/// operations that do not answer).
pub open spec fn record(request: Request, answer: bool) -> Step {
    match request {
        Request::Prepare => Step::Prepare { ok: answer },
        Request::Stage => Step::Stage,
        Request::CheckChanges => Step::CheckChanges { changes: answer },
        Request::Test => Step::Test { passed: answer },
        Request::Commit => Step::Commit,
        Request::Revert => Step::Revert,
    }
}

/// The steps a repository has performed, oldest first.
pub type Steps = Seq<Step>;

/// The primitive operations of a cycle, over some concrete way of running
/// them. Each operation records its step, with its answer.
pub trait Repository {
    /// The steps this repository has performed so far, oldest first.
    spec fn performed(&self) -> Steps;

    /// Runs the commands configured to come before the cycle, in order,
    /// stopping at the first that fails; true iff all of them succeeded.
    fn prepare(&mut self) -> (r: bool)
        ensures
            final(self).performed() == old(self).performed().push(Step::Prepare { ok: r }),
    ;

    /// Adds every working-tree change to the index.
    fn stage(&mut self)
        ensures
            final(self).performed() == old(self).performed().push(Step::Stage),
    ;

    /// Throws away every change, staged or not.
    fn revert(&mut self)
        ensures
            final(self).performed() == old(self).performed().push(Step::Revert),
    ;

    /// Commits what is staged.
    fn commit(&mut self)
        ensures
            final(self).performed() == old(self).performed().push(Step::Commit),
    ;

    /// Runs the test command; true iff it succeeded.
    fn test(&mut self) -> (r: bool)
        ensures
            final(self).performed() == old(self).performed().push(Step::Test { passed: r }),
    ;

    /// Whether anything is staged.
    fn has_changes(&mut self) -> (r: bool)
        ensures
            final(self).performed() == old(self).performed().push(
                Step::CheckChanges { changes: r },
            ),
    ;
}

/// How one invocation of the orchestrator ended.
#[derive(Debug, Clone, Copy, PartialEq, Eq, Structural)]
pub enum Outcome {
    Committed,
    Reverted,
    Skipped,
    /// A command configured to run before the cycle failed; nothing was
    /// staged, tested, committed or reverted.
    Halted,
    ConfigMissing,
}

impl Outcome {
    /// Success for a commit or for nothing to do; failure otherwise.
    pub open spec fn code(self) -> i32 {
        match self {
            Outcome::Committed | Outcome::Skipped => 0,
            Outcome::Reverted | Outcome::Halted | Outcome::ConfigMissing => 1,
        }
    }

    /// The process exit status that reports this outcome.
    pub fn exit_code(&self) -> (r: i32)
        ensures
            r == self.code(),
    {
        match self {
            Outcome::Committed | Outcome::Skipped => 0,
            Outcome::Reverted | Outcome::Halted | Outcome::ConfigMissing => 1,
        }
    }
}

/// Where a cycle stands.
#[derive(Debug, Clone, Copy, PartialEq, Eq, Structural)]
pub enum Phase {
    Idle,
    Prepared,
    Staged,
    Ready,
    Passed,
    Failed,
    Done { outcome: Outcome },
}

/// The operation that a phase asks for; none once the cycle is done.
pub open spec fn request_of(phase: Phase) -> Option<Request> {
    match phase {
        Phase::Idle => Some(Request::Prepare),
        Phase::Prepared => Some(Request::Stage),
        Phase::Staged => Some(Request::CheckChanges),
        Phase::Ready => Some(Request::Test),
        Phase::Passed => Some(Request::Commit),
        Phase::Failed => Some(Request::Revert),
        Phase::Done { .. } => None,
    }
}

/// The phase after the operation of `phase` answered `answer` (whether the
/// commands before the cycle succeeded, whether changes were staged, or
/// whether the test passed; ignored by the other operations).
pub open spec fn next_phase(phase: Phase, answer: bool) -> Phase {
    match phase {
        Phase::Idle => if answer {
            Phase::Prepared
        } else {
            Phase::Done { outcome: Outcome::Halted }
        },
        Phase::Prepared => Phase::Staged,
        Phase::Staged => if answer {
            Phase::Ready
        } else {
            Phase::Done { outcome: Outcome::Skipped }
        },
        Phase::Ready => if answer {
            Phase::Passed
        } else {
            Phase::Failed
        },
        Phase::Passed => Phase::Done { outcome: Outcome::Committed },
        Phase::Failed => Phase::Done { outcome: Outcome::Reverted },
        Phase::Done { outcome } => Phase::Done { outcome },
    }
}

/// How many operations a phase is at most away from the end.
pub open spec fn rank(phase: Phase) -> nat {
    match phase {
        Phase::Idle => 5,
        Phase::Prepared => 4,
        Phase::Staged => 3,
        Phase::Ready => 2,
        Phase::Passed | Phase::Failed => 1,
        Phase::Done { .. } => 0,
    }
}

/// The operation that `phase` asks for.
pub fn next_step(phase: Phase) -> (r: Option<Request>)
    ensures
        r == request_of(phase),
{
    match phase {
        Phase::Idle => Some(Request::Prepare),
        Phase::Prepared => Some(Request::Stage),
        Phase::Staged => Some(Request::CheckChanges),
        Phase::Ready => Some(Request::Test),
        Phase::Passed => Some(Request::Commit),
        Phase::Failed => Some(Request::Revert),
        Phase::Done { .. } => None,
    }
}

/// Moves a cycle on after its operation answered.
pub fn advance(phase: Phase, answer: bool) -> (r: Phase)
    ensures
        r == next_phase(phase, answer),
        request_of(phase) is Some ==> rank(r) < rank(phase),
{
    match phase {
        Phase::Idle => if answer {
            Phase::Prepared
        } else {
            Phase::Done { outcome: Outcome::Halted }
        },
        Phase::Prepared => Phase::Staged,
        Phase::Staged => if answer {
            Phase::Ready
        } else {
            Phase::Done { outcome: Outcome::Skipped }
        },
        Phase::Ready => if answer {
            Phase::Passed
        } else {
            Phase::Failed
        },
        Phase::Passed => Phase::Done { outcome: Outcome::Committed },
        Phase::Failed => Phase::Done { outcome: Outcome::Reverted },
        Phase::Done { outcome } => Phase::Done { outcome },
    }
}

/// The answer an operation gets in a cycle where `ok` tells whether the
/// commands before it succeeded, `changes` whether anything was staged and
/// `passed` whether the test succeeded.
pub open spec fn answer_of(request: Request, ok: bool, changes: bool, passed: bool) -> bool {
    match request {
        Request::Prepare => ok,
        Request::CheckChanges => changes,
        Request::Test => passed,
        _ => true,
    }
}

/// The steps performed from `phase` to the end of the cycle.
pub open spec fn steps_from(phase: Phase, ok: bool, changes: bool, passed: bool) -> Seq<Step>
    decreases rank(phase),
{
    match request_of(phase) {
        None => Seq::empty(),
        Some(request) => {
            let answer = answer_of(request, ok, changes, passed);
            seq![record(request, answer)] + steps_from(
                next_phase(phase, answer),
                ok,
                changes,
                passed,
            )
        },
    }
}

/// The outcome reached from `phase`.
pub open spec fn outcome_from(phase: Phase, ok: bool, changes: bool, passed: bool) -> Outcome
    decreases rank(phase),
{
    match phase {
        Phase::Done { outcome } => outcome,
        _ => match request_of(phase) {
            None => Outcome::ConfigMissing,
            Some(request) => outcome_from(
                next_phase(phase, answer_of(request, ok, changes, passed)),
                ok,
                changes,
                passed,
            ),
        },
    }
}

/// The steps of a whole cycle with the given answers.
pub open spec fn cycle(ok: bool, changes: bool, passed: bool) -> Seq<Step> {
    steps_from(Phase::Idle, ok, changes, passed)
}

/// The outcome of a whole cycle with the given answers.
pub open spec fn cycle_outcome(ok: bool, changes: bool, passed: bool) -> Outcome {
    outcome_from(Phase::Idle, ok, changes, passed)
}

/// How often `step` occurs in `steps`.
pub open spec fn count(steps: Seq<Step>, step: Step) -> nat
    decreases steps.len(),
{
    if steps.len() == 0 {
        0
    } else {
        count(steps.drop_last(), step) + if steps.last() == step {
            1nat
        } else {
            0nat
        }
    }
}

/// What each cycle does. When a command before the cycle fails, nothing else
/// runs and the cycle fails. When nothing is staged, no test, commit or
/// revert runs and the cycle succeeds. Otherwise a passing test is followed
/// by exactly one commit and no revert, and the cycle succeeds; a failing
/// test by exactly one revert and no commit, and the cycle fails.
pub proof fn lemma_commit_or_revert(ok: bool, changes: bool, passed: bool)
    ensures
        !ok ==> cycle(ok, changes, passed) == seq![Step::Prepare { ok: false }],
        !ok ==> cycle_outcome(ok, changes, passed) == Outcome::Halted,
        ok && !changes ==> cycle(ok, changes, passed) == seq![
            Step::Prepare { ok: true },
            Step::Stage,
            Step::CheckChanges { changes: false },
        ],
        ok && !changes ==> cycle_outcome(ok, changes, passed) == Outcome::Skipped,
        ok && changes ==> cycle(ok, changes, passed) == seq![
            Step::Prepare { ok: true },
            Step::Stage,
            Step::CheckChanges { changes: true },
            Step::Test { passed },
            if passed {
                Step::Commit
            } else {
                Step::Revert
            },
        ],
        ok && changes ==> count(cycle(ok, changes, passed), Step::Commit) == if passed {
            1nat
        } else {
            0nat
        },
        ok && changes ==> count(cycle(ok, changes, passed), Step::Revert) == if passed {
            0nat
        } else {
            1nat
        },
        ok && changes ==> cycle_outcome(ok, changes, passed) == if passed {
            Outcome::Committed
        } else {
            Outcome::Reverted
        },
        cycle_outcome(ok, changes, passed).code() == if ok && (!changes || passed) {
            0i32
        } else {
            1i32
        },
{
    reveal_with_fuel(steps_from, 7);
    reveal_with_fuel(outcome_from, 7);
    reveal_with_fuel(count, 6);
    let steps = cycle(ok, changes, passed);
    if !ok {
        assert(steps =~= seq![Step::Prepare { ok: false }]);
    } else if !changes {
        assert(steps =~= seq![
            Step::Prepare { ok: true },
            Step::Stage,
            Step::CheckChanges { changes: false },
        ]);
    } else if passed {
        assert(steps =~= seq![
            Step::Prepare { ok: true },
            Step::Stage,
            Step::CheckChanges { changes: true },
            Step::Test { passed: true },
            Step::Commit,
        ]);
    } else {
        assert(steps =~= seq![
            Step::Prepare { ok: true },
            Step::Stage,
            Step::CheckChanges { changes: true },
            Step::Test { passed: false },
            Step::Revert,
        ]);
    }
}

/// Asks the repository for one operation and returns its answer.
fn perform<R: Repository>(repository: &mut R, request: Request) -> (r: bool)
    ensures
        final(repository).performed() == old(repository).performed().push(record(request, r)),
{
    match request {
        Request::Prepare => repository.prepare(),
        Request::Stage => {
            repository.stage();
            true
        },
        Request::CheckChanges => repository.has_changes(),
        Request::Test => repository.test(),
        Request::Commit => {
            repository.commit();
            true
        },
        Request::Revert => {
            repository.revert();
            true
        },
    }
}

/// The steps a cycle has performed on reaching `phase`.
pub open spec fn steps_before(phase: Phase) -> Seq<Step> {
    let p = Step::Prepare { ok: true };
    match phase {
        Phase::Idle => Seq::empty(),
        Phase::Prepared => seq![p],
        Phase::Staged => seq![p, Step::Stage],
        Phase::Ready => seq![p, Step::Stage, Step::CheckChanges { changes: true }],
        Phase::Passed => seq![
            p,
            Step::Stage,
            Step::CheckChanges { changes: true },
            Step::Test { passed: true },
        ],
        Phase::Failed => seq![
            p,
            Step::Stage,
            Step::CheckChanges { changes: true },
            Step::Test { passed: false },
        ],
        Phase::Done { outcome } => match outcome {
            Outcome::Halted => seq![Step::Prepare { ok: false }],
            Outcome::Skipped => seq![p, Step::Stage, Step::CheckChanges { changes: false }],
            Outcome::Committed => seq![
                p,
                Step::Stage,
                Step::CheckChanges { changes: true },
                Step::Test { passed: true },
                Step::Commit,
            ],
            Outcome::Reverted => seq![
                p,
                Step::Stage,
                Step::CheckChanges { changes: true },
                Step::Test { passed: false },
                Step::Revert,
            ],
            Outcome::ConfigMissing => Seq::empty(),
        },
    }
}

/// `phase` is reached in a cycle whose answers were `ok`, `changes` and
/// `passed`.
pub open spec fn reachable(phase: Phase, ok: bool, changes: bool, passed: bool) -> bool {
    match phase {
        Phase::Idle => true,
        Phase::Prepared | Phase::Staged => ok,
        Phase::Ready => ok && changes,
        Phase::Passed => ok && changes && passed,
        Phase::Failed => ok && changes && !passed,
        Phase::Done { outcome } => match outcome {
            Outcome::Halted => !ok,
            Outcome::Skipped => ok && !changes,
            Outcome::Committed => ok && changes && passed,
            Outcome::Reverted => ok && changes && !passed,
            Outcome::ConfigMissing => false,
        },
    }
}

/// Runs one cycle: the commands before it, stage, stop when nothing is
/// staged, test, then commit on success or revert on failure. The repository
/// performs exactly the steps of the cycle for the answers it gave (which
/// the steps record), and the outcome is that cycle's.
pub fn tcr<R: Repository>(repository: &mut R) -> (r: Outcome)
    ensures
        exists|ok: bool, changes: bool, passed: bool|
            {
                &&& final(repository).performed() == old(repository).performed() + cycle(
                    ok,
                    changes,
                    passed,
                )
                &&& r == cycle_outcome(ok, changes, passed)
            },
        r != Outcome::ConfigMissing,
{
    let ghost start = repository.performed();
    let ghost mut ok = true;
    let ghost mut changes = true;
    let ghost mut passed = true;
    let mut phase = Phase::Idle;
    loop
        invariant
            reachable(phase, ok, changes, passed),
            repository.performed() == start + steps_before(phase),
        ensures
            phase is Done,
        decreases rank(phase),
    {
        match next_step(phase) {
            None => break,
            Some(request) => {
                let answer = perform(repository, request);
                proof {
                    if request == Request::Prepare {
                        ok = answer;
                    }
                    if request == Request::CheckChanges {
                        changes = answer;
                    }
                    if request == Request::Test {
                        passed = answer;
                    }
                }
                phase = advance(phase, answer);
                proof {
                    assert(repository.performed() =~= start + steps_before(phase));
                }
            },
        }
    }
    proof {
        reveal_with_fuel(steps_from, 7);
        reveal_with_fuel(outcome_from, 7);
        assert(steps_before(phase) =~= cycle(ok, changes, passed));
        assert(phase->outcome == cycle_outcome(ok, changes, passed));
        assert(repository.performed() == start + cycle(ok, changes, passed));
    }
    match phase {
        Phase::Done { outcome } => outcome,
        _ => unreached(),
    }
}

/// Runs one cycle when there is a repository to run it on; without one (no
/// configuration was found) nothing runs and the outcome says so.
pub fn run_once<R: Repository>(repository: &mut Option<R>) -> (r: Outcome)
    ensures
        (*old(repository)) is None ==> r == Outcome::ConfigMissing && (*final(repository)) is None,
        (*old(repository)) is Some ==> (*final(repository)) is Some && exists|
            ok: bool,
            changes: bool,
            passed: bool,
        |
            {
                &&& final(repository)->0.performed() == old(repository)->0.performed() + cycle(
                    ok,
                    changes,
                    passed,
                )
                &&& r == cycle_outcome(ok, changes, passed)
            },
        (*old(repository)) is Some ==> r != Outcome::ConfigMissing,
{
    match repository {
        Some(repository) => tcr(repository),
        None => Outcome::ConfigMissing,
    }
}

} // verus!
