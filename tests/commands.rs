use tcr::commit::{commit_command, CommitConfig};
use tcr::compose::{commit_fragment_of, compose, join_with_and, with_trailers};
use tcr::config::{hooks_skipped, Config};
use tcr::revert::revert_command;
use tcr::test::test_command;

fn config(test: &str, before: &[&str], skip_verification: Option<bool>) -> Config {
    Config {
        test: test.to_string(),
        before: before.iter().map(|s| s.to_string()).collect(),
        skip_verification,
    }
}

#[test]
fn verifying() {
    let cmd = commit_command(|| "WIP".to_string(), CommitConfig { skip_verification: Some(false), push: false });
    assert_eq!(cmd, "git commit -m \"WIP\"");
}

#[test]
fn none() {
    let cmd = commit_command(|| "WIP".to_string(), CommitConfig { skip_verification: None, push: false });
    assert_eq!(cmd, "git commit -m \"WIP\"");
}

#[test]
fn no_verify_flag() {
    let cmd = commit_command(|| "WIP".to_string(), CommitConfig { skip_verification: Some(true), push: false });
    assert_eq!(cmd, "git commit -m \"WIP\" --no-verify");
}

#[test]
fn commit_command_pushes_when_configured() {
    let cmd = commit_command(|| "WIP".to_string(), CommitConfig { skip_verification: Some(true), push: true });
    assert_eq!(cmd, "git commit -m \"WIP\" --no-verify && git push");
    let cmd = commit_command(|| "WIP".to_string(), CommitConfig { skip_verification: None, push: false });
    assert!(!cmd.contains("git push"));
}

#[test]
fn revert_cmd() {
    let cmd = revert_command();
    assert_eq!(cmd, "(git clean -fdq . && git reset --hard)");
}

#[test]
fn test_cmd() {
    let cmd = test_command("pnpm test".to_string());
    assert_eq!(cmd, "pnpm test");
}

#[test]
fn composes_before_commands_in_front_of_the_core() {
    let c = config("pnpm test", &["pnpm tc", "prettier --write ."], Some(false));
    assert_eq!(
        compose(&c, "WIP", &vec![], false),
        "pnpm tc && prettier --write . && git add . &&  [ -n \"$(git status --porcelain)\" ] && (pnpm test && git commit -m \"WIP\" || (git clean -fdq . && git reset --hard))"
    );
}

#[test]
fn composes_no_verify_into_the_commit() {
    let c = config("pnpm test", &["pnpm tc", "prettier --write ."], Some(true));
    assert_eq!(
        compose(&c, "WIP", &vec![], false),
        "pnpm tc && prettier --write . && git add . &&  [ -n \"$(git status --porcelain)\" ] && (pnpm test && git commit -m \"WIP\" --no-verify || (git clean -fdq . && git reset --hard))"
    );
}

#[test]
fn composes_without_before_commands() {
    let c = config("cargo test", &[], None);
    let r = compose(&c, "WIP", &vec![], false);
    assert_eq!(
        r,
        "git add . &&  [ -n \"$(git status --porcelain)\" ] && (cargo test && git commit -m \"WIP\" || (git clean -fdq . && git reset --hard))"
    );
    assert!(!r.starts_with(" &&"));
}

#[test]
fn composes_trailers_and_push() {
    let c = config("make check", &["make"], Some(true));
    let trailers = vec!["Reviewed-by: X".to_string(), "Refs: #42".to_string()];
    assert_eq!(
        compose(&c, "WIP", &trailers, true),
        "make && git add . &&  [ -n \"$(git status --porcelain)\" ] && (make check && git commit -m \"WIP\nReviewed-by: X\nRefs: #42\" --no-verify && git push || (git clean -fdq . && git reset --hard))"
    );
}

#[test]
fn commit_fragment_never_carries_no_verify_unless_asked() {
    for flag in [None, Some(false)] {
        for push in [false, true] {
            let f = commit_fragment_of("Add parser", &vec!["Signed-off-by: A".to_string()], flag, push);
            assert!(!f.contains("--no-verify"));
        }
    }
    for push in [false, true] {
        let f = commit_fragment_of("Add parser", &vec![], Some(true), push);
        assert!(f.contains("--no-verify"));
    }
}

#[test]
fn commit_fragment_pushes_only_when_asked() {
    assert_eq!(commit_fragment_of("m", &vec![], None, true), "git commit -m \"m\" && git push");
    assert_eq!(commit_fragment_of("m", &vec![], None, false), "git commit -m \"m\"");
}

#[test]
fn revert_fragment_ends_every_pipeline() {
    for c in [config("a", &[], None), config("b", &["x", "y"], Some(true))] {
        let r = compose(&c, "msg", &vec!["T: 1".to_string()], true);
        assert!(r.ends_with("(git clean -fdq . && git reset --hard))"));
    }
}

#[test]
fn joins_with_and() {
    assert_eq!(join_with_and(&vec![]), "");
    assert_eq!(join_with_and(&vec!["a".to_string()]), "a");
    assert_eq!(join_with_and(&vec!["a".to_string(), "b c".to_string(), "d".to_string()]), "a && b c && d");
}

#[test]
fn appends_trailers_on_their_own_lines() {
    assert_eq!(with_trailers("WIP", &vec![]), "WIP");
    assert_eq!(
        with_trailers("WIP", &vec!["A: 1".to_string(), "B: 2".to_string()]),
        "WIP\nA: 1\nB: 2"
    );
}

#[test]
fn resolves_the_hook_flag() {
    assert!(!hooks_skipped(None));
    assert!(!hooks_skipped(Some(false)));
    assert!(hooks_skipped(Some(true)));
}
