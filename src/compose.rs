use vstd::prelude::*;
use crate::config::{skips_hooks, hooks_skipped, Config};
use crate::revert::{revert_command, revert_fragment};

verus! {

/// The views of a sequence of strings.
pub open spec fn texts(v: Seq<String>) -> Seq<Seq<char>> {
    v.map_values(|s: String| s@)
}

/// `parts` joined with `" && "` between neighbours.
pub open spec fn join_and(parts: Seq<Seq<char>>) -> Seq<char>
    decreases parts.len(),
{
    if parts.len() == 0 {
        Seq::empty()
    } else if parts.len() == 1 {
        parts[0]
    } else {
        join_and(parts.drop_last()) + " && "@ + parts.last()
    }
}

/// Each trailer on a line of its own, after a newline.
pub open spec fn trailer_lines(trailers: Seq<Seq<char>>) -> Seq<char>
    decreases trailers.len(),
{
    if trailers.len() == 0 {
        Seq::empty()
    } else {
        trailer_lines(trailers.drop_last()) + "\n"@ + trailers.last()
    }
}

/// The text between the quotes of `git commit -m`.
pub open spec fn message_body(message: Seq<char>, trailers: Seq<Seq<char>>) -> Seq<char> {
    message + trailer_lines(trailers)
}

pub open spec fn commit_head() -> Seq<char> {
    "git commit -m \""@
}

pub open spec fn no_verify_flag() -> Seq<char> {
    " --no-verify"@
}

pub open spec fn push_suffix() -> Seq<char> {
    " && git push"@
}

/// What follows the closing quote of the message.
pub open spec fn commit_tail(skip_hooks: bool, push: bool) -> Seq<char> {
    "\""@ + (if skip_hooks { no_verify_flag() } else { Seq::empty() }) + (if push {
        push_suffix()
    } else {
        Seq::empty()
    })
}

/// `git commit -m "<message and trailers>"`, then `--no-verify` when hooks are
/// skipped, then `&& git push` when pushing.
pub open spec fn commit_fragment(
    message: Seq<char>,
    trailers: Seq<Seq<char>>,
    skip_hooks: bool,
    push: bool,
) -> Seq<char> {
    commit_head() + message_body(message, trailers) + commit_tail(skip_hooks, push)
}

pub open spec fn guard_head() -> Seq<char> {
    "git add . &&  [ -n \"$(git status --porcelain)\" ] && ("@
}

/// Stage everything, stop when nothing is staged, then test and commit, or
/// revert when the test (or the commit) fails.
pub open spec fn guarded_core(test: Seq<char>, commit: Seq<char>) -> Seq<char> {
    guard_head() + test + " && "@ + commit + " || "@ + revert_fragment() + ")"@
}

/// The whole pipeline: the `before` commands, when there are any, chained in
/// front of the guarded core.
pub open spec fn pipeline(before: Seq<Seq<char>>, core: Seq<char>) -> Seq<char> {
    if before.len() == 0 {
        core
    } else {
        join_and(before) + " && "@ + core
    }
}

/// The command line that one cycle runs for `config`.
pub open spec fn composed(
    config: Config,
    message: Seq<char>,
    trailers: Seq<Seq<char>>,
    push: bool,
) -> Seq<char> {
    pipeline(
        texts(config.before@),
        guarded_core(
            config.test@,
            commit_fragment(message, trailers, skips_hooks(config.skip_verification), push),
        ),
    )
}

/// Joins the command lines with `" && "`.
pub fn join_with_and(parts: &Vec<String>) -> (r: String)
    ensures
        r@ == join_and(texts(parts@)),
{
    let mut r = String::new();
    let mut i: usize = 0;
    while i < parts.len()
        invariant
            i <= parts@.len(),
            r@ == join_and(texts(parts@.subrange(0, i as int))),
        decreases parts@.len() - i,
    {
        if i > 0 {
            r.append(" && ");
        }
        r.append(parts[i].as_str());
        proof {
            let prefix = texts(parts@.subrange(0, i as int + 1));
            assert(prefix.drop_last() =~= texts(parts@.subrange(0, i as int)));
            assert(prefix.last() == parts@[i as int]@);
        }
        i = i + 1;
    }
    proof {
        assert(parts@.subrange(0, parts@.len() as int) =~= parts@);
    }
    r
}

/// The message with each trailer appended on a line of its own.
pub fn with_trailers(message: &str, trailers: &Vec<String>) -> (r: String)
    ensures
        r@ == message_body(message@, texts(trailers@)),
{
    let mut r = String::from_str(message);
    let mut i: usize = 0;
    while i < trailers.len()
        invariant
            i <= trailers@.len(),
            r@ == message@ + trailer_lines(texts(trailers@.subrange(0, i as int))),
        decreases trailers@.len() - i,
    {
        r.append("\n");
        r.append(trailers[i].as_str());
        proof {
            let prefix = texts(trailers@.subrange(0, i as int + 1));
            assert(prefix.drop_last() =~= texts(trailers@.subrange(0, i as int)));
        }
        i = i + 1;
    }
    proof {
        assert(trailers@.subrange(0, trailers@.len() as int) =~= trailers@);
    }
    r
}

/// `git commit -m "<message>"` with the trailers inside the quotes, the hook
/// flag and the push as asked. The message is quoted as given: double quotes
/// inside it are not escaped.
pub fn commit_fragment_of(
    message: &str,
    trailers: &Vec<String>,
    skip_verification: Option<bool>,
    push: bool,
) -> (r: String)
    ensures
        r@ == commit_fragment(message@, texts(trailers@), skips_hooks(skip_verification), push),
{
    let body = with_trailers(message, trailers);
    let mut r = String::from_str("git commit -m \"");
    r.append(body.as_str());
    r.append("\"");
    if hooks_skipped(skip_verification) {
        r.append(" --no-verify");
    }
    if push {
        r.append(" && git push");
    }
    proof {
        let skip = skips_hooks(skip_verification);
        assert(r@ =~= commit_head() + message_body(message@, texts(trailers@)) + commit_tail(
            skip,
            push,
        ));
    }
    r
}

/// The full command line of one cycle.
pub fn compose(config: &Config, message: &str, trailers: &Vec<String>, push: bool) -> (r: String)
    ensures
        r@ == composed(*config, message@, texts(trailers@), push),
        config.before@.len() > 0 ==> r@ == join_and(texts(config.before@)) + " && "@
            + guarded_core(
            config.test@,
            commit_fragment(message@, texts(trailers@), skips_hooks(config.skip_verification), push),
        ),
        config.before@.len() == 0 ==> r@ == guarded_core(
            config.test@,
            commit_fragment(message@, texts(trailers@), skips_hooks(config.skip_verification), push),
        ),
{
    let commit = commit_fragment_of(message, trailers, config.skip_verification, push);
    let revert = revert_command();
    let mut core = String::from_str("git add . &&  [ -n \"$(git status --porcelain)\" ] && (");
    core.append(config.test.as_str());
    core.append(" && ");
    core.append(commit.as_str());
    core.append(" || ");
    core.append(revert.as_str());
    core.append(")");
    proof {
        assert(core@ =~= guarded_core(config.test@, commit@));
    }
    if config.before.len() == 0 {
        core
    } else {
        let mut r = join_with_and(&config.before);
        r.append(" && ");
        r.append(core.as_str());
        proof {
            assert(r@ =~= join_and(texts(config.before@)) + " && "@ + core@);
        }
        r
    }
}

/// `pat` occurs in `s` at some position.
pub open spec fn contains(s: Seq<char>, pat: Seq<char>) -> bool {
    exists|i: int|
        0 <= i && i + pat.len() <= s.len() && #[trigger] s.subrange(i, i + pat.len()) == pat
}

/// Hooks are skipped by the commit fragment exactly when the configuration
/// asks for it: with the flag set the fragment always carries `--no-verify`;
/// with it unset or false the fragment never does, unless the message or a
/// trailer spells it out itself.
pub proof fn lemma_no_verify_iff_skipped(
    message: Seq<char>,
    trailers: Seq<Seq<char>>,
    skip_hooks: bool,
    push: bool,
)
    ensures
        skip_hooks ==> contains(
            commit_fragment(message, trailers, skip_hooks, push),
            "--no-verify"@,
        ),
        !skip_hooks && !contains(message_body(message, trailers), "--no-verify"@) ==> !contains(
            commit_fragment(message, trailers, skip_hooks, push),
            "--no-verify"@,
        ),
{
    reveal_strlit("--no-verify");
    reveal_strlit(" --no-verify");
    reveal_strlit("git commit -m \"");
    reveal_strlit("\"");
    reveal_strlit(" && git push");
    let pat = "--no-verify"@;
    let head = commit_head();
    let body = message_body(message, trailers);
    let tail = commit_tail(skip_hooks, push);
    let f = commit_fragment(message, trailers, skip_hooks, push);
    assert(f =~= head + body + tail);
    let n: int = (head.len() + body.len()) as int;
    if skip_hooks {
        let i: int = n + 2;
        assert(f.subrange(i, i + pat.len()) =~= pat);
    } else if !contains(body, pat) {
        if contains(f, pat) {
            let i = choose|i: int|
                0 <= i && i + pat.len() <= f.len() && #[trigger] f.subrange(i, i + pat.len())
                    == pat;
            let w = f.subrange(i, i + pat.len());
            assert(forall|k: int| 0 <= k < pat.len() ==> w[k] == f[i + k]);
            assert(forall|k: int| 0 <= k < pat.len() ==> pat[k] != '"');
            if i <= 4 {
                assert(w[0] == head[i]);
            } else if i <= 14 {
                assert(w[14 - i] == f[14]);
            } else if i + pat.len() <= n {
                assert(body.subrange(i - 15, i - 15 + pat.len()) =~= w);
            } else if i <= n {
                assert(w[n - i] == f[n]);
            } else {
                assert(w[0] == tail[i - n]);
            }
        }
    }
}

/// Whatever the configuration, message or trailers, the pipeline ends with
/// the same revert fragment.
pub proof fn lemma_revert_fixed(
    config: Config,
    message: Seq<char>,
    trailers: Seq<Seq<char>>,
    push: bool,
)
    ensures
        ({
            let c = composed(config, message, trailers, push);
            let k = revert_fragment().len() + 1;
            k <= c.len() && c.subrange(c.len() - k, c.len() as int) == revert_fragment() + ")"@
        }),
{
    reveal_strlit(")");
    let c = composed(config, message, trailers, push);
    let end = revert_fragment() + ")"@;
    let commit = commit_fragment(message, trailers, skips_hooks(config.skip_verification), push);
    let front = guard_head() + config.test@ + " && "@ + commit + " || "@;
    let front = if config.before@.len() == 0 {
        front
    } else {
        join_and(texts(config.before@)) + " && "@ + front
    };
    assert(c =~= front + end);
    assert(c.subrange(c.len() - end.len(), c.len() as int) =~= end);
}

} // verus!
