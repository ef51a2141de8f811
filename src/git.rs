use vstd::prelude::*;
use crate::compose::{texts, with_trailers};
use crate::config::{hooks_skipped, skips_hooks, Config};
use crate::message::MessageStrategy;
use crate::process::{owned, ran, runs, str_texts, Invocation, ProcessRunner, RunOutput};
use crate::tcr::{Repository, Step};

verus! {

/// The characters that separate the words of a command line.
pub open spec fn is_blank(c: char) -> bool {
    c == ' ' || c == '\t' || c == '\n' || c == '\r'
}

/// The words of `s`: its maximal runs of non-blank characters, in order.
pub open spec fn words(s: Seq<char>) -> Seq<Seq<char>>
    decreases s.len(),
{
    if s.len() == 0 {
        Seq::empty()
    } else {
        let p = s.drop_last();
        let c = s.last();
        if is_blank(c) {
            words(p)
        } else if p.len() > 0 && !is_blank(p.last()) {
            let w = words(p);
            w.drop_last().push(w.last().push(c))
        } else {
            words(p).push(seq![c])
        }
    }
}

/// Splits a command line into its words.
pub fn split_words(line: &str) -> (r: Vec<String>)
    ensures
        texts(r@) == words(line@),
{
    let n = line.unicode_len();
    let mut out: Vec<String> = Vec::new();
    let mut start: usize = 0;
    let mut in_word = false;
    let mut i: usize = 0;
    while i < n
        invariant
            n == line@.len(),
            start <= i <= n,
            in_word == (i > 0 && !is_blank(line@[i - 1])),
            in_word ==> words(line@.subrange(0, i as int)) == texts(out@).push(
                line@.subrange(start as int, i as int),
            ),
            !in_word ==> words(line@.subrange(0, i as int)) == texts(out@),
        decreases n - i,
    {
        let c = line.get_char(i);
        let ghost prefix = line@.subrange(0, i as int + 1);
        proof {
            assert(prefix.drop_last() =~= line@.subrange(0, i as int));
            assert(prefix.last() == c);
        }
        if c == ' ' || c == '\t' || c == '\n' || c == '\r' {
            if in_word {
                let ghost before = out@;
                out.push(String::from_str(line.substring_char(start, i)));
                proof {
                    assert(texts(out@) =~= texts(before).push(
                        line@.subrange(start as int, i as int),
                    ));
                }
                in_word = false;
            }
        } else {
            if in_word {
                proof {
                    assert(line@.subrange(start as int, i as int).push(c) =~= line@.subrange(
                        start as int,
                        i as int + 1,
                    ));
                }
            } else {
                start = i;
                proof {
                    assert(seq![c] =~= line@.subrange(i as int, i as int + 1));
                }
                in_word = true;
            }
        }
        i = i + 1;
    }
    proof {
        assert(line@.subrange(0, n as int) =~= line@);
    }
    if in_word {
        let ghost before = out@;
        out.push(String::from_str(line.substring_char(start, n)));
        proof {
            assert(texts(out@) =~= texts(before).push(line@.subrange(start as int, n as int)));
        }
    }
    out
}

/// `git` with exactly `args`, its output captured.
pub open spec fn runs_git(invocation: Invocation, args: Seq<Seq<char>>) -> bool {
    runs(invocation, "git"@, args)
}

/// `git` with the given arguments, its output captured.
pub fn git(args: &[&str]) -> (r: Invocation)
    ensures
        runs_git(r, str_texts(args@)),
{
    Invocation { program: String::from_str("git"), args: owned(args), inherit_output: false }
}

/// `git add .`
pub fn stage_invocation() -> (r: Invocation)
    ensures
        runs_git(r, seq!["add"@, "."@]),
{
    let r = git(&["add", "."]);
    proof {
        assert(str_texts(seq!["add", "."]) =~= seq!["add"@, "."@]);
    }
    r
}

/// `git status --porcelain`
pub fn status_invocation() -> (r: Invocation)
    ensures
        runs_git(r, seq!["status"@, "--porcelain"@]),
{
    let r = git(&["status", "--porcelain"]);
    proof {
        assert(str_texts(seq!["status", "--porcelain"]) =~= seq!["status"@, "--porcelain"@]);
    }
    r
}

/// `git clean -fdq .`
pub fn clean_invocation() -> (r: Invocation)
    ensures
        runs_git(r, seq!["clean"@, "-fdq"@, "."@]),
{
    let r = git(&["clean", "-fdq", "."]);
    proof {
        assert(str_texts(seq!["clean", "-fdq", "."]) =~= seq!["clean"@, "-fdq"@, "."@]);
    }
    r
}

/// `git reset --hard`
pub fn reset_invocation() -> (r: Invocation)
    ensures
        runs_git(r, seq!["reset"@, "--hard"@]),
{
    let r = git(&["reset", "--hard"]);
    proof {
        assert(str_texts(seq!["reset", "--hard"]) =~= seq!["reset"@, "--hard"@]);
    }
    r
}

/// `git diff --staged --color=never -U0`
pub fn diff_invocation() -> (r: Invocation)
    ensures
        runs_git(r, seq!["diff"@, "--staged"@, "--color=never"@, "-U0"@]),
{
    let r = git(&["diff", "--staged", "--color=never", "-U0"]);
    proof {
        assert(str_texts(seq!["diff", "--staged", "--color=never", "-U0"]) =~= seq![
            "diff"@,
            "--staged"@,
            "--color=never"@,
            "-U0"@,
        ]);
    }
    r
}

/// `git push`
pub fn push_invocation() -> (r: Invocation)
    ensures
        runs_git(r, seq!["push"@]),
{
    let args: [&str; 1] = ["push"];
    let r = git(&args);
    proof {
        assert(str_texts(args@) =~= seq!["push"@]);
    }
    r
}

/// `git check-ignore <path>`
pub fn check_ignore_invocation(path: &str) -> (r: Invocation)
    ensures
        runs_git(r, seq!["check-ignore"@, path@]),
{
    let r = git(&["check-ignore", path]);
    proof {
        assert(str_texts(seq!["check-ignore", path]) =~= seq!["check-ignore"@, path@]);
    }
    r
}

/// The arguments of the commit.
pub open spec fn commit_args(message: Seq<char>, skip_hooks: bool) -> Seq<Seq<char>> {
    seq!["commit"@, "-m"@, message] + if skip_hooks {
        seq!["--no-verify"@]
    } else {
        Seq::empty()
    }
}

/// `git commit -m <message>`, with `--no-verify` exactly when hooks are
/// skipped. The message is one argument: no shell reads it.
pub fn commit_invocation(message: &str, skip_verification: Option<bool>) -> (r: Invocation)
    ensures
        runs_git(r, commit_args(message@, skips_hooks(skip_verification))),
{
    let mut r = git(&["commit", "-m", message]);
    if hooks_skipped(skip_verification) {
        let ghost before = r.args@;
        r.args.push(String::from_str("--no-verify"));
        proof {
            assert(texts(r.args@) =~= texts(before).push("--no-verify"@));
        }
    }
    proof {
        assert(str_texts(seq!["commit", "-m", message]) =~= seq!["commit"@, "-m"@, message@]);
        assert(texts(r.args@) =~= commit_args(message@, skips_hooks(skip_verification)));
    }
    r
}

/// The program of a command line: its first word, or nothing when it has none.
pub open spec fn program_of(line: Seq<char>) -> Seq<char> {
    if words(line).len() == 0 {
        Seq::empty()
    } else {
        words(line)[0]
    }
}

/// The arguments of a command line: its words after the first.
pub open spec fn args_of(line: Seq<char>) -> Seq<Seq<char>> {
    if words(line).len() == 0 {
        Seq::empty()
    } else {
        words(line).drop_first()
    }
}

/// The configured test command line, run as its first word with the others
/// as arguments, writing straight to this process's output.
pub fn test_invocation(test: &str) -> (r: Invocation)
    ensures
        r.program@ == program_of(test@),
        texts(r.args@) == args_of(test@),
        r.inherit_output,
{
    let mut parts = split_words(test);
    if parts.len() == 0 {
        Invocation { program: String::new(), args: parts, inherit_output: true }
    } else {
        let ghost all = parts@;
        let program = parts.remove(0);
        proof {
            assert(parts@ =~= all.drop_first());
            assert(texts(parts@) =~= texts(all).drop_first());
        }
        Invocation { program, args: parts, inherit_output: true }
    }
}

/// `git status --porcelain` printed something other than line breaks, which
/// is what `[ -n "$(git status --porcelain)" ]` tests.
pub open spec fn has_changes_in(porcelain: Seq<char>) -> bool {
    exists|i: int| 0 <= i < porcelain.len() && porcelain[i] != '\n'
}

/// Whether the porcelain status output reports any change.
pub fn reports_changes(porcelain: &str) -> (r: bool)
    ensures
        r == has_changes_in(porcelain@),
{
    let n = porcelain.unicode_len();
    let mut i: usize = 0;
    while i < n
        invariant
            n == porcelain@.len(),
            i <= n,
            forall|k: int| 0 <= k < i ==> porcelain@[k] == '\n',
        decreases n - i,
    {
        if porcelain.get_char(i) != '\n' {
            return true;
        }
        i = i + 1;
    }
    false
}

/// After a clean, the reset runs only when the clean succeeded.
pub fn reset_after(cleaned: &RunOutput) -> (r: Option<Invocation>)
    ensures
        (r is Some) == cleaned.success,
        r matches Some(i) ==> runs_git(i, seq!["reset"@, "--hard"@]),
{
    if cleaned.success {
        Some(reset_invocation())
    } else {
        None
    }
}

/// After a commit, the push runs only when pushing is asked for and the
/// commit succeeded.
pub fn push_after(committed: &RunOutput, push: bool) -> (r: Option<Invocation>)
    ensures
        (r is Some) == (committed.success && push),
        r matches Some(i) ==> runs_git(i, seq!["push"@]),
{
    if committed.success && push {
        Some(push_invocation())
    } else {
        None
    }
}

/// `new` is `old` followed by `k` more entries.
pub open spec fn grown_by(
    old: Seq<(Invocation, RunOutput)>,
    new: Seq<(Invocation, RunOutput)>,
    k: int,
) -> bool {
    new.len() == old.len() + k && new.subrange(0, old.len() as int) == old
}

/// A git working copy, driven by running `git` and the test command through
/// `runner`.
pub struct GitRepository<P, M> {
    pub config: Config,
    pub runner: P,
    /// Writes the commit message from the staged diff.
    pub message: M,
    /// Lines appended to every commit message, in order.
    pub trailers: Vec<String>,
    /// Whether a successful commit is pushed.
    pub push: bool,
    /// The steps performed so far.
    pub steps: Ghost<Seq<Step>>,
}

impl<P, M> GitRepository<P, M> {
    /// A repository that has performed no step yet.
    pub fn new(config: Config, runner: P, message: M, trailers: Vec<String>, push: bool) -> (r:
        GitRepository<P, M>)
        ensures
            r.config == config,
            r.runner == runner,
            r.message == message,
            r.trailers == trailers,
            r.push == push,
            r.steps@ == Seq::<Step>::empty(),
    {
        GitRepository { config, runner, message, trailers, push, steps: Ghost(Seq::empty()) }
    }
}

/// `invocation` runs the command line `line`: its first word with the other
/// words as arguments, writing straight to this process's output.
pub open spec fn runs_line(invocation: Invocation, line: Seq<char>) -> bool {
    &&& invocation.program@ == program_of(line)
    &&& texts(invocation.args@) == args_of(line)
    &&& invocation.inherit_output
}

/// Only the runner (and, for a commit, the message strategy) changes.
pub open spec fn kept<P, M>(old: GitRepository<P, M>, new: GitRepository<P, M>) -> bool {
    &&& new.config == old.config
    &&& new.trailers == old.trailers
    &&& new.push == old.push
}

impl<P: ProcessRunner, M: MessageStrategy> Repository for GitRepository<P, M> {
    open spec fn performed(&self) -> Seq<Step> {
        self.steps@
    }

    /// Runs the `before` command lines in order, stopping after the first
    /// that fails; true iff all of them succeeded.
    fn prepare(&mut self) -> (r: bool)
        ensures
            kept(*old(self), *final(self)),
            final(self).message == old(self).message,
            ({
                let before = old(self).config.before@;
                let h0 = old(self).runner.history();
                let h = final(self).runner.history();
                let n = h0.len() as int;
                let k = h.len() - n;
                &&& 0 <= k <= before.len()
                &&& h.subrange(0, n) == h0
                &&& forall|j: int| 0 <= j < k ==> runs_line(#[trigger] h[n + j].0, before[j]@)
                &&& forall|j: int| 0 <= j < k - 1 ==> #[trigger] h[n + j].1.success
                &&& k < before.len() ==> k > 0 && !h[n + k - 1].1.success
                &&& r == (k == before.len() && (k == 0 || h[n + k - 1].1.success))
            }),
    {
        let ghost h0 = self.runner.history();
        let ghost n = h0.len() as int;
        let ghost config = self.config;
        let ghost trailers = self.trailers;
        let ghost push = self.push;
        let ghost message = self.message;
        let ghost steps = self.steps;
        let mut ok = true;
        let mut i: usize = 0;
        while ok && i < self.config.before.len()
            invariant
                self.config == config,
                self.trailers == trailers,
                self.push == push,
                self.message == message,
                self.steps == steps,
                n == h0.len(),
                i <= config.before@.len(),
                self.runner.history().len() == n + i,
                forall|j: int| 0 <= j < n ==> #[trigger] self.runner.history()[j] == h0[j],
                forall|j: int|
                    0 <= j < i ==> runs_line(
                        #[trigger] self.runner.history()[n + j].0,
                        config.before@[j]@,
                    ),
                forall|j: int| 0 <= j < i - 1 ==> #[trigger] self.runner.history()[n + j].1.success,
                ok == (i == 0 || self.runner.history()[n + i - 1].1.success),
            decreases config.before@.len() - i,
        {
            let ghost h1 = self.runner.history();
            let out = self.runner.run(&test_invocation(self.config.before[i].as_str()));
            ok = out.success;
            proof {
                let h = self.runner.history();
                assert(h == h1.push(h.last()));
                assert forall|j: int| 0 <= j < n implies #[trigger] h[j] == h0[j] by {
                    assert(h[j] == h1[j]);
                }
                assert forall|j: int| 0 <= j < i implies runs_line(
                    #[trigger] h[n + j].0,
                    config.before@[j]@,
                ) by {
                    assert(h1.push(h.last())[n + j] == h1[n + j]);
                }
                assert forall|j: int| 0 <= j < i implies #[trigger] h[n + j].1.success
                    == h1[n + j].1.success by {
                    assert(h1.push(h.last())[n + j] == h1[n + j]);
                }
                assert(runs_line(h[n + i].0, config.before@[i as int]@));
            }
            i = i + 1;
        }
        proof {
            assert(self.runner.history().subrange(0, n) =~= h0);
        }
        self.steps = Ghost(self.steps@.push(Step::Prepare { ok }));
        ok
    }


    /// Runs `git add .`.
    fn stage(&mut self)
        ensures
            kept(*old(self), *final(self)),
            final(self).message == old(self).message,
            ran(
                old(self).runner.history(),
                final(self).runner.history(),
                "git"@,
                seq!["add"@, "."@],
            ),
    {
        let _ = self.runner.run(&stage_invocation());
        self.steps = Ghost(self.steps@.push(Step::Stage));
    }

    /// Runs `git clean -fdq .`, then `git reset --hard` only when cleaning
    /// succeeded.
    fn revert(&mut self)
        ensures
            kept(*old(self), *final(self)),
            final(self).message == old(self).message,
            ({
                let h0 = old(self).runner.history();
                let h = final(self).runner.history();
                let n = h0.len() as int;
                &&& grown_by(h0, h, if h[n].1.success { 2 } else { 1 })
                &&& runs_git(h[n].0, seq!["clean"@, "-fdq"@, "."@])
                &&& h[n].1.success ==> runs_git(h[n + 1].0, seq!["reset"@, "--hard"@])
            }),
    {
        let ghost h0 = self.runner.history();
        let cleaned = self.runner.run(&clean_invocation());
        let ghost h1 = self.runner.history();
        match reset_after(&cleaned) {
            Some(reset) => {
                let _ = self.runner.run(&reset);
            },
            None => {},
        }
        proof {
            let h = self.runner.history();
            let n = h0.len() as int;
            assert(h[n] == h1[n]);
            assert(h.subrange(0, n) =~= h0);
        }
        self.steps = Ghost(self.steps@.push(Step::Revert));
    }

    /// Runs the staged diff, has the strategy write the message from it,
    /// commits that message with the trailers appended as one argument (with
    /// `--no-verify` last when hooks are skipped), and pushes when asked and
    /// the commit succeeded.
    fn commit(&mut self)
        ensures
            kept(*old(self), *final(self)),
            ({
                let h0 = old(self).runner.history();
                let h = final(self).runner.history();
                let n = h0.len() as int;
                let pushed = h[n + 1].1.success && old(self).push;
                &&& grown_by(h0, h, if pushed { 3 } else { 2 })
                &&& runs_git(h[n].0, seq!["diff"@, "--staged"@, "--color=never"@, "-U0"@])
                &&& exists|m: Seq<char>|
                    old(self).message.wrote(&final(self).message, h[n].1.stdout@, m) && runs_git(
                        h[n + 1].0,
                        commit_args(
                            crate::compose::message_body(m, texts(old(self).trailers@)),
                            skips_hooks(old(self).config.skip_verification),
                        ),
                    )
                &&& pushed ==> runs_git(h[n + 2].0, seq!["push"@])
            }),
    {
        let ghost h0 = self.runner.history();
        let ghost strategy = self.message;
        let diff = self.runner.run(&diff_invocation());
        let message = self.message.message(diff.stdout.as_str());
        let full = with_trailers(message.as_str(), &self.trailers);
        let committed = self.runner.run(
            &commit_invocation(full.as_str(), self.config.skip_verification),
        );
        let ghost h1 = self.runner.history();
        match push_after(&committed, self.push) {
            Some(push) => {
                let _ = self.runner.run(&push);
            },
            None => {},
        }
        self.steps = Ghost(self.steps@.push(Step::Commit));
        proof {
            let h = self.runner.history();
            let n = h0.len() as int;
            assert(h[n] == h1[n]);
            assert(h[n + 1] == h1[n + 1]);
            assert(h.subrange(0, n) =~= h0);
            assert(h[n].1 == diff);
            assert(strategy.wrote(&self.message, h[n].1.stdout@, message@) && runs_git(
                h[n + 1].0,
                commit_args(
                    crate::compose::message_body(message@, texts(self.trailers@)),
                    skips_hooks(self.config.skip_verification),
                ),
            ));
            assert(exists|m: Seq<char>|
                strategy.wrote(&self.message, h[n].1.stdout@, m) && runs_git(
                    h[n + 1].0,
                    commit_args(
                        crate::compose::message_body(m, texts(self.trailers@)),
                        skips_hooks(self.config.skip_verification),
                    ),
                ));
        }
    }

    /// Runs the test command line as its first word with the other words as
    /// arguments, and answers whether it succeeded.
    fn test(&mut self) -> (r: bool)
        ensures
            kept(*old(self), *final(self)),
            final(self).message == old(self).message,
            ({
                let h = final(self).runner.history();
                &&& h.drop_last() == old(self).runner.history()
                &&& h.len() == old(self).runner.history().len() + 1
                &&& h.last().0.program@ == program_of(old(self).config.test@)
                &&& texts(h.last().0.args@) == args_of(old(self).config.test@)
                &&& h.last().0.inherit_output
                &&& r == h.last().1.success
            }),
    {
        let outcome = self.runner.run(&test_invocation(self.config.test.as_str()));
        self.steps = Ghost(self.steps@.push(Step::Test { passed: outcome.success }));
        outcome.success
    }

    /// Runs `git status --porcelain` and answers whether it reported changes.
    fn has_changes(&mut self) -> (r: bool)
        ensures
            kept(*old(self), *final(self)),
            final(self).message == old(self).message,
            ran(
                old(self).runner.history(),
                final(self).runner.history(),
                "git"@,
                seq!["status"@, "--porcelain"@],
            ),
            r == has_changes_in(final(self).runner.history().last().1.stdout@),
    {
        let status = self.runner.run(&status_invocation());
        let changes = reports_changes(status.stdout.as_str());
        self.steps = Ghost(self.steps@.push(Step::CheckChanges { changes }));
        changes
    }
}

} // verus!
