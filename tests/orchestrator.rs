use std::cell::RefCell;
use tcr::tcr::{advance, next_step, run_once, tcr, Outcome, Phase, Repository, Request, Steps};

struct FakeRepository {
    pub log: RefCell<Vec<String>>,
    pub test_result: bool,
}

impl Repository for FakeRepository {
    fn performed(&self) -> Steps {
        panic!("specification only: never called when the crate runs")
    }
    fn prepare(&mut self) -> bool {
        true
    }
    fn stage(&mut self) {
        self.log.borrow_mut().push("stage".to_string());
    }
    fn revert(&mut self) {
        self.log.borrow_mut().push("revert".to_string());
    }
    fn commit(&mut self) {
        self.log.borrow_mut().push("commit".to_string());
    }
    fn test(&mut self) -> bool {
        self.log.borrow_mut().push("test".to_string());
        self.test_result
    }
    fn has_changes(&mut self) -> bool {
        true
    }
}

struct CleanRepository {
    pub log: RefCell<Vec<String>>,
}

impl Repository for CleanRepository {
    fn performed(&self) -> Steps {
        panic!("specification only: never called when the crate runs")
    }
    fn prepare(&mut self) -> bool {
        true
    }
    fn stage(&mut self) {
        self.log.borrow_mut().push("stage".to_string());
    }
    fn revert(&mut self) {
        self.log.borrow_mut().push("revert".to_string());
    }
    fn commit(&mut self) {
        self.log.borrow_mut().push("commit".to_string());
    }
    fn test(&mut self) -> bool {
        self.log.borrow_mut().push("test".to_string());
        true
    }
    fn has_changes(&mut self) -> bool {
        self.log.borrow_mut().push("status".to_string());
        false
    }
}

#[test]
fn green_scenario_stage_test_and_commit() {
    let mut repository = FakeRepository { log: RefCell::new(vec![]), test_result: true };
    tcr(&mut repository);
    assert_eq!(repository.log.borrow().as_slice(), &["stage", "test", "commit"]);
}

#[test]
fn red_scenario_stage_test_and_revert() {
    let mut repository = FakeRepository { log: RefCell::new(vec![]), test_result: false };
    tcr(&mut repository);
    assert_eq!(repository.log.borrow().as_slice(), &["stage", "test", "revert"]);
}

#[test]
fn passing_test_commits_once_and_never_reverts() {
    let mut repository = FakeRepository { log: RefCell::new(vec![]), test_result: true };
    let outcome = tcr(&mut repository);
    let log = repository.log.borrow();
    assert_eq!(log.iter().filter(|s| *s == "commit").count(), 1);
    assert_eq!(log.iter().filter(|s| *s == "revert").count(), 0);
    assert_eq!(outcome, Outcome::Committed);
    assert_eq!(outcome.exit_code(), 0);
}

#[test]
fn failing_test_reverts_once_and_reports_failure() {
    let mut repository = FakeRepository { log: RefCell::new(vec![]), test_result: false };
    let outcome = tcr(&mut repository);
    let log = repository.log.borrow();
    assert_eq!(log.iter().filter(|s| *s == "revert").count(), 1);
    assert_eq!(log.iter().filter(|s| *s == "commit").count(), 0);
    assert_eq!(outcome, Outcome::Reverted);
    assert_eq!(outcome.exit_code(), 1);
}

#[test]
fn nothing_staged_skips_the_test() {
    let mut repository = CleanRepository { log: RefCell::new(vec![]) };
    let outcome = tcr(&mut repository);
    assert_eq!(repository.log.borrow().as_slice(), &["stage", "status"]);
    assert_eq!(outcome, Outcome::Skipped);
    assert_eq!(outcome.exit_code(), 0);
}

#[test]
fn missing_configuration_runs_nothing() {
    let outcome = run_once::<FakeRepository>(&mut None);
    assert_eq!(outcome, Outcome::ConfigMissing);
    assert_eq!(outcome.exit_code(), 1);
}

#[test]
fn present_configuration_runs_a_cycle() {
    let mut repository = Some(FakeRepository { log: RefCell::new(vec![]), test_result: true });
    assert_eq!(run_once(&mut repository), Outcome::Committed);
    assert_eq!(repository.unwrap().log.borrow().len(), 3);
}

#[test]
fn phases_follow_the_cycle() {
    assert_eq!(next_step(Phase::Idle), Some(Request::Prepare));
    assert_eq!(advance(Phase::Idle, false), Phase::Done { outcome: Outcome::Halted });
    let p = advance(Phase::Idle, true);
    assert_eq!(p, Phase::Prepared);
    assert_eq!(next_step(p), Some(Request::Stage));
    let p = advance(p, true);
    assert_eq!(p, Phase::Staged);
    assert_eq!(next_step(p), Some(Request::CheckChanges));
    assert_eq!(advance(p, false), Phase::Done { outcome: Outcome::Skipped });
    let p = advance(p, true);
    assert_eq!(next_step(p), Some(Request::Test));
    assert_eq!(advance(p, false), Phase::Failed);
    assert_eq!(next_step(Phase::Failed), Some(Request::Revert));
    assert_eq!(advance(Phase::Failed, true), Phase::Done { outcome: Outcome::Reverted });
    let p = advance(p, true);
    assert_eq!(next_step(p), Some(Request::Commit));
    let p = advance(p, true);
    assert_eq!(p, Phase::Done { outcome: Outcome::Committed });
    assert_eq!(next_step(p), None);
}

struct BrokenBuild {
    pub log: Vec<String>,
}

impl Repository for BrokenBuild {
    fn performed(&self) -> Steps {
        panic!("specification only: never called when the crate runs")
    }
    fn prepare(&mut self) -> bool {
        self.log.push("prepare".to_string());
        false
    }
    fn stage(&mut self) {
        self.log.push("stage".to_string());
    }
    fn revert(&mut self) {
        self.log.push("revert".to_string());
    }
    fn commit(&mut self) {
        self.log.push("commit".to_string());
    }
    fn test(&mut self) -> bool {
        self.log.push("test".to_string());
        true
    }
    fn has_changes(&mut self) -> bool {
        self.log.push("status".to_string());
        true
    }
}

#[test]
fn failing_before_command_halts_the_cycle() {
    let mut repository = BrokenBuild { log: vec![] };
    let outcome = tcr(&mut repository);
    assert_eq!(repository.log, vec!["prepare".to_string()]);
    assert_eq!(outcome, Outcome::Halted);
    assert_eq!(outcome.exit_code(), 1);
}
