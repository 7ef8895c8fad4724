use lcu_autopilot::executor::LockPlan;
use lcu_autopilot::executor::Update;
use lcu_autopilot::executor::apply_update;
use lcu_autopilot::executor::ban_updates;
use lcu_autopilot::executor::hover_update;
use lcu_autopilot::executor::lock_plan;
use lcu_autopilot::snapshot::ActionKind;
use lcu_autopilot::snapshot::ActionRecord;
use lcu_autopilot::snapshot::SessionSnapshot;
use lcu_autopilot::snapshot::actionable_record;

fn snapshot_with(actions: Vec<ActionRecord>) -> SessionSnapshot {
    SessionSnapshot {
        local_cell_id: Some(1),
        phase: String::from("BAN_PICK"),
        time_left_ms: Some(20000),
        actions,
        my_team: Vec::new(),
        their_team: Vec::new(),
        my_team_bans: Vec::new(),
        their_team_bans: Vec::new(),
    }
}

fn record(id: i64, kind: ActionKind, actor: i64, completed: bool, champ: i64) -> ActionRecord {
    ActionRecord { id, kind, actor_cell_id: actor, completed, in_progress: false, champion_id: champ }
}

#[test]
fn hover_targets_the_actionable_pick_record() {
    let s = snapshot_with(vec![
        record(1, ActionKind::Ban, 1, false, 0),
        record(2, ActionKind::Pick, 2, false, 0),
        record(3, ActionKind::Pick, 1, false, 0),
    ]);
    let u = hover_update(&s, 1, 42).unwrap();
    assert_eq!(u, Update { action_id: 3, champion: Some(42), complete: false });
    assert_eq!(hover_update(&s, 9, 42), None);
}

#[test]
fn hover_round_trip_reads_back_the_option() {
    let mut s = snapshot_with(vec![record(3, ActionKind::Pick, 1, false, 0)]);
    let u = hover_update(&s, 1, 42).unwrap();
    apply_update(&mut s, &u);
    let r = actionable_record(&s, 1, ActionKind::Pick).unwrap();
    assert_eq!(r.champion_id, 42);
    assert!(!r.completed);
}

#[test]
fn lock_fails_without_a_write_when_nothing_is_chosen() {
    let s = snapshot_with(vec![record(3, ActionKind::Pick, 1, false, 0)]);
    assert_eq!(lock_plan(&s, 1), LockPlan::NothingChosen);
    let none = snapshot_with(vec![record(3, ActionKind::Pick, 1, true, 42)]);
    assert_eq!(lock_plan(&none, 1), LockPlan::NoRecord);
}

#[test]
fn lock_preserves_the_chosen_option() {
    let mut s = snapshot_with(vec![record(3, ActionKind::Pick, 1, false, 42)]);
    let plan = lock_plan(&s, 1);
    let u = match plan {
        LockPlan::Submit(u) => u,
        other => panic!("expected a submission, got {:?}", other),
    };
    assert_eq!(u, Update { action_id: 3, champion: None, complete: true });
    apply_update(&mut s, &u);
    assert_eq!(s.actions[0].champion_id, 42);
    assert!(s.actions[0].completed);
}

#[test]
fn lock_in_twice_fails_the_second_time() {
    let mut s = snapshot_with(vec![
        record(2, ActionKind::Pick, 2, false, 7),
        record(3, ActionKind::Pick, 1, false, 42),
    ]);
    let u = match lock_plan(&s, 1) {
        LockPlan::Submit(u) => u,
        other => panic!("expected a submission, got {:?}", other),
    };
    apply_update(&mut s, &u);
    // The first lock completed the record; the second attempt must report
    // failure (no actionable record), not resubmit.
    assert_eq!(lock_plan(&s, 1), LockPlan::NoRecord);
}

#[test]
fn ban_sends_set_then_complete_against_one_record() {
    let s = snapshot_with(vec![
        record(5, ActionKind::Ban, 1, true, 51),
        record(6, ActionKind::Ban, 1, false, 0),
    ]);
    let (first, second) = ban_updates(&s, 1, 64).unwrap();
    assert_eq!(first, Update { action_id: 6, champion: Some(64), complete: false });
    assert_eq!(second, Update { action_id: 6, champion: None, complete: true });
    assert_eq!(ban_updates(&s, 2, 64), None);
}

#[test]
fn apply_update_touches_only_the_named_record() {
    let mut s = snapshot_with(vec![
        record(1, ActionKind::Pick, 1, false, 10),
        record(2, ActionKind::Pick, 2, false, 20),
    ]);
    apply_update(&mut s, &Update { action_id: 2, champion: Some(99), complete: true });
    assert_eq!(s.actions[0].champion_id, 10);
    assert!(!s.actions[0].completed);
    assert_eq!(s.actions[1].champion_id, 99);
    assert!(s.actions[1].completed);
}
