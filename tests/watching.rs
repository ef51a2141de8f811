use std::cell::RefCell;
use tcr::process::{History, Invocation, ProcessRunner, RunOutput};
use tcr::watch::{
    batch_is_relevant, has_relevant, in_metadata_dir, is_relevant, Debouncer, WatchAction, WatchEvent,
    WatchSession, DEBOUNCE_MS,
};

/// Answers `git check-ignore` as if only the listed paths were ignored.
struct IgnoreList {
    ignored: Vec<String>,
    asked: RefCell<Vec<String>>,
}

impl ProcessRunner for IgnoreList {
    fn history(&self) -> History {
        panic!("specification only: never called when the crate runs")
    }
    fn run(&mut self, invocation: &Invocation) -> RunOutput {
        let path = invocation.args[1].clone();
        self.asked.borrow_mut().push(path.clone());
        RunOutput { success: self.ignored.contains(&path), stdout: String::new() }
    }
}

fn ignoring(paths: &[&str]) -> IgnoreList {
    IgnoreList { ignored: paths.iter().map(|s| s.to_string()).collect(), asked: RefCell::new(vec![]) }
}

#[test]
fn metadata_paths_are_never_relevant() {
    for path in [".git", ".git/index", "/home/u/p/.git/refs/heads/main", "a\\.git\\HEAD"] {
        assert!(in_metadata_dir(path));
        assert!(!is_relevant(path, false));
        assert!(!is_relevant(path, true));
    }
}

#[test]
fn other_paths_are_relevant_unless_ignored() {
    for path in ["src/lib.rs", ".gitignore", "a/.github/ci.yml", "my.git/x", "git"] {
        assert!(!in_metadata_dir(path));
        assert!(is_relevant(path, false));
        assert!(!is_relevant(path, true));
    }
}

#[test]
fn debouncer_waits_for_quiet() {
    let mut d = Debouncer::new();
    assert_eq!(d.wait_ms(5), None);
    assert_eq!(d.take_batch(5), None);
    d.record("a".to_string(), 100);
    assert_eq!(d.wait_ms(100), Some(DEBOUNCE_MS));
    assert_eq!(d.wait_ms(600), Some(500));
    assert_eq!(d.take_batch(1099), None);
    assert_eq!(d.take_batch(1100), Some(vec!["a".to_string()]));
    assert_eq!(d.take_batch(5000), None);
}

#[test]
fn burst_of_changes_runs_one_cycle() {
    let mut d = Debouncer::new();
    d.record(".git/index".to_string(), 0);
    d.record("target/out.o".to_string(), 100);
    d.record("src/main.rs".to_string(), 200);
    assert_eq!(d.take_batch(700), None);
    let batch = d.take_batch(1200).expect("one batch for the burst");
    assert_eq!(batch.len(), 3);
    assert_eq!(d.take_batch(5000), None);

    let mut git = ignoring(&["target/out.o"]);
    let relevant = batch_is_relevant(&mut git, &batch);
    assert!(relevant);
    assert_eq!(git.asked.borrow().len(), 3);

    let mut session = WatchSession::new();
    let mut cycles = 0;
    if session.on_event(WatchEvent::Batch { relevant }) == WatchAction::StartCycle {
        cycles += 1;
    }
    if session.on_event(WatchEvent::CycleDone) == WatchAction::StartCycle {
        cycles += 1;
    }
    assert_eq!(cycles, 1);
    assert!(!session.running);
}

#[test]
fn batch_of_only_metadata_and_ignored_paths_runs_nothing() {
    let mut git = ignoring(&["target/out.o"]);
    let batch = vec![".git/index".to_string(), "target/out.o".to_string()];
    assert!(!batch_is_relevant(&mut git, &batch));
    assert_eq!(git.asked.borrow().as_slice(), &[".git/index".to_string(), "target/out.o".to_string()]);
}

#[test]
fn session_never_overlaps_cycles() {
    let mut s = WatchSession::new();
    assert_eq!(s.on_event(WatchEvent::Batch { relevant: false }), WatchAction::Wait);
    assert_eq!(s.on_event(WatchEvent::Batch { relevant: true }), WatchAction::StartCycle);
    assert_eq!(s.on_event(WatchEvent::Batch { relevant: true }), WatchAction::Wait);
    assert_eq!(s.on_event(WatchEvent::Batch { relevant: true }), WatchAction::Wait);
    assert!(s.running && s.pending);
    assert_eq!(s.on_event(WatchEvent::CycleDone), WatchAction::StartCycle);
    assert_eq!(s.on_event(WatchEvent::CycleDone), WatchAction::Wait);
    assert_eq!(s, WatchSession { running: false, pending: false });
    assert_eq!(s.on_event(WatchEvent::CycleDone), WatchAction::Wait);
}

#[test]
fn relevance_takes_ignore_answers() {
    let paths = vec![".git/HEAD".to_string(), "out/a".to_string(), "src/b.rs".to_string()];
    assert!(has_relevant(&paths, &vec![false, true, false]));
    assert!(!has_relevant(&paths, &vec![false, true, true]));
    assert!(!has_relevant(&vec![], &vec![]));
}
