use reload_engine::coordinator::{Action, Coordinator, Event, LoadFailure, Outcome, Phase};
use reload_engine::game::create_game;

fn fresh() -> Coordinator<&'static str> {
    Coordinator::new("initial", 64)
}

#[test]
fn no_change_keeps_initial_table() {
    let mut c = fresh();
    assert_eq!(c.step(Event::BuildExited { success: true }), Action::Continue);
    assert_eq!(c.step(Event::LinkBlocked), Action::Continue);
    assert_eq!(c.step(Event::Loaded { abi_size_tag: 64, table: "stray" }), Action::Continue);
    assert_eq!(*c.current(), "initial");
    assert_eq!(c.history().len(), 1);
    assert_eq!(c.phase(), Phase::Idle);
    assert_eq!(c.last_outcome(), None);
}

#[test]
fn same_size_rebuild_publishes_once() {
    let mut c = fresh();
    assert_eq!(c.step(Event::Change), Action::RunBuild);
    assert_eq!(c.step(Event::BuildExited { success: true }), Action::Load { attempt: 1 });
    let a = c.step(Event::Loaded { abi_size_tag: 64, table: "rebuilt" });
    assert_eq!(a, Action::Finished { outcome: Outcome::Published { generation: 1 }, again: false });
    assert_eq!(*c.current(), "rebuilt");
    assert_ne!(*c.current(), "initial");
    assert_eq!(c.history().len(), 2);
    assert_eq!(c.phase(), Phase::Idle);
}

#[test]
fn size_change_is_rejected() {
    let mut c = fresh();
    c.step(Event::Change);
    c.step(Event::BuildExited { success: true });
    let a = c.step(Event::Loaded { abi_size_tag: 72, table: "bigger" });
    assert_eq!(
        a,
        Action::Finished { outcome: Outcome::AbiRejected { expected: 64, found: 72 }, again: false }
    );
    assert_eq!(*c.current(), "initial");
    assert_eq!(c.history().len(), 1);
}

#[test]
fn build_failure_keeps_table() {
    let mut c = fresh();
    let before = *c.current();
    c.step(Event::Change);
    let a = c.step(Event::BuildExited { success: false });
    assert_eq!(a, Action::Finished { outcome: Outcome::BuildFailed, again: false });
    assert_eq!(*c.current(), before);
    assert_eq!(c.history().len(), 1);
    assert_eq!(c.last_outcome(), Some(Outcome::BuildFailed));
    assert_eq!(c.phase(), Phase::Idle);
}

#[test]
fn load_failures_keep_table() {
    for reason in [LoadFailure::LinkFailed, LoadFailure::OpenFailed, LoadFailure::SymbolMissing] {
        let mut c = fresh();
        c.step(Event::Change);
        c.step(Event::BuildExited { success: true });
        let a = c.step(Event::LoadFailed(reason));
        assert_eq!(a, Action::Finished { outcome: Outcome::LoadFailed(reason), again: false });
        assert_eq!(*c.current(), "initial");
        assert_eq!(c.history().len(), 1);
    }
}

#[test]
fn blocked_link_moves_to_next_attempt() {
    let mut c = fresh();
    c.step(Event::Change);
    assert_eq!(c.step(Event::BuildExited { success: true }), Action::Load { attempt: 1 });
    assert_eq!(c.step(Event::LinkBlocked), Action::Load { attempt: 2 });
    assert_eq!(c.step(Event::LinkBlocked), Action::Load { attempt: 3 });
    c.step(Event::LoadFailed(LoadFailure::OpenFailed));
    c.step(Event::Change);
    assert_eq!(c.step(Event::BuildExited { success: true }), Action::Load { attempt: 4 });
}

#[test]
fn change_during_attempt_runs_one_more_build() {
    let mut c = fresh();
    c.step(Event::Change);
    assert_eq!(c.step(Event::Change), Action::Continue);
    assert_eq!(c.step(Event::Change), Action::Continue);
    let a = c.step(Event::BuildExited { success: false });
    assert_eq!(a, Action::Finished { outcome: Outcome::BuildFailed, again: true });
    assert_eq!(c.phase(), Phase::Building);
    let a = c.step(Event::BuildExited { success: false });
    assert_eq!(a, Action::Finished { outcome: Outcome::BuildFailed, again: false });
    assert_eq!(c.phase(), Phase::Idle);
}

#[test]
fn many_attempts_keep_baseline_tag_and_old_tables() {
    let mut c: Coordinator<u32> = Coordinator::new(0, 16);
    let tags = [16usize, 24, 16, 8, 16, 16];
    for (n, tag) in tags.iter().enumerate() {
        c.step(Event::Change);
        c.step(Event::BuildExited { success: true });
        c.step(Event::Loaded { abi_size_tag: *tag, table: n as u32 + 1 });
        assert_eq!(c.history().current_tag(), 16);
    }
    assert_eq!(c.history().len(), 5);
    assert_eq!(*c.current(), 6);
    assert_eq!(c.history().get(0), Some(&0));
    assert_eq!(c.history().get(1), Some(&1));
    assert_eq!(c.history().get(2), Some(&3));
    assert_eq!(c.history().get(3), Some(&5));
    assert_eq!(c.history().get(5), None);
}

#[test]
fn stale_table_survives_publish() {
    let mut c: Coordinator<Vec<u64>> = Coordinator::new(vec![7, 7], 8);
    let held = c.current().clone();
    c.step(Event::Change);
    c.step(Event::BuildExited { success: true });
    c.step(Event::Loaded { abi_size_tag: 8, table: vec![9] });
    assert_eq!(*c.current(), vec![9]);
    let old = c.history().get(0).unwrap();
    assert_eq!(*old, held);
}

#[test]
fn game_coordinator_starts_with_its_tag() {
    let g = create_game(40);
    let mut c = g.coordinator("start");
    assert_eq!(c.history().current_tag(), 40);
    c.step(Event::Change);
    c.step(Event::BuildExited { success: true });
    let a = c.step(Event::Loaded { abi_size_tag: 41, table: "next" });
    assert_eq!(a, Action::Finished { outcome: Outcome::AbiRejected { expected: 40, found: 41 }, again: false });
}
