use lcu_autopilot::snapshot::ActionKind;
use lcu_autopilot::snapshot::ActionRecord;
use lcu_autopilot::snapshot::RosterEntry;
use lcu_autopilot::snapshot::SessionSnapshot;
use lcu_autopilot::snapshot::actionable_record;
use lcu_autopilot::snapshot::banned_options;
use lcu_autopilot::snapshot::current_role;
use lcu_autopilot::snapshot::has_pending;
use lcu_autopilot::snapshot::is_available;
use lcu_autopilot::snapshot::is_in_session;
use lcu_autopilot::snapshot::is_my_turn;
use lcu_autopilot::snapshot::my_id;
use lcu_autopilot::snapshot::picked_options;
use lcu_autopilot::snapshot::time_left_secs;

fn empty_snapshot() -> SessionSnapshot {
    SessionSnapshot {
        local_cell_id: Some(1),
        phase: String::from("BAN_PICK"),
        time_left_ms: Some(25000),
        actions: Vec::new(),
        my_team: Vec::new(),
        their_team: Vec::new(),
        my_team_bans: Vec::new(),
        their_team_bans: Vec::new(),
    }
}

fn ban_record(id: i64, actor: i64, completed: bool, champ: i64) -> ActionRecord {
    ActionRecord {
        id,
        kind: ActionKind::Ban,
        actor_cell_id: actor,
        completed,
        in_progress: false,
        champion_id: champ,
    }
}

fn pick_record(id: i64, actor: i64, completed: bool, champ: i64) -> ActionRecord {
    ActionRecord {
        id,
        kind: ActionKind::Pick,
        actor_cell_id: actor,
        completed,
        in_progress: false,
        champion_id: champ,
    }
}

#[test]
fn my_id_reads_the_local_marker() {
    let s = empty_snapshot();
    assert_eq!(my_id(&s), Some(1));
    assert!(is_in_session(&s));
    let mut t = empty_snapshot();
    t.local_cell_id = None;
    assert_eq!(my_id(&t), None);
    assert!(!is_in_session(&t));
}

#[test]
fn time_left_defaults_to_thirty_seconds() {
    let mut s = empty_snapshot();
    s.time_left_ms = None;
    assert_eq!(time_left_secs(&s), 30);
    s.time_left_ms = Some(4999);
    assert_eq!(time_left_secs(&s), 4);
    s.time_left_ms = Some(5000);
    assert_eq!(time_left_secs(&s), 5);
    s.time_left_ms = Some(0);
    assert_eq!(time_left_secs(&s), 0);
}

#[test]
fn banned_union_is_deduplicated_and_positive() {
    let mut s = empty_snapshot();
    s.my_team_bans = vec![64, 0, 157];
    s.their_team_bans = vec![157, -3, 238];
    s.actions = vec![
        ban_record(1, 2, true, 64),
        ban_record(2, 3, true, 51),
        ban_record(3, 4, false, 99),
        ban_record(4, 5, true, 0),
        pick_record(5, 6, true, 77),
    ];
    let banned = banned_options(&s);
    let mut sorted = banned.clone();
    sorted.sort();
    assert_eq!(sorted, vec![51, 64, 157, 238]);
}

#[test]
fn banned_empty_when_nothing_is_banned() {
    let s = empty_snapshot();
    assert!(banned_options(&s).is_empty());
}

#[test]
fn actionable_record_never_returns_completed() {
    let mut s = empty_snapshot();
    s.actions = vec![
        ban_record(1, 1, true, 64),
        pick_record(2, 1, true, 10),
        pick_record(3, 1, false, 0),
        pick_record(4, 1, false, 11),
    ];
    let r = actionable_record(&s, 1, ActionKind::Pick).unwrap();
    assert!(!r.completed);
    assert_eq!(r.id, 3);
    assert_eq!(actionable_record(&s, 1, ActionKind::Ban), None);
    assert_eq!(actionable_record(&s, 9, ActionKind::Pick), None);
}

#[test]
fn strict_turn_needs_in_progress() {
    let mut s = empty_snapshot();
    s.actions = vec![ban_record(1, 1, false, 0)];
    assert!(!is_my_turn(&s, 1, ActionKind::Ban));
    assert!(has_pending(&s, 1, ActionKind::Ban));
    s.actions[0].in_progress = true;
    assert!(is_my_turn(&s, 1, ActionKind::Ban));
    assert!(!is_my_turn(&s, 1, ActionKind::Pick));
    assert!(!is_my_turn(&s, 2, ActionKind::Ban));
}

#[test]
fn relaxed_pending_ignores_in_progress_but_not_completed() {
    let mut s = empty_snapshot();
    s.actions = vec![ban_record(1, 1, true, 64)];
    assert!(!has_pending(&s, 1, ActionKind::Ban));
    s.actions.push(ban_record(2, 1, false, 0));
    assert!(has_pending(&s, 1, ActionKind::Ban));
}

fn roster(cell: i64, champ: i64, pos: &str) -> RosterEntry {
    RosterEntry { cell_id: cell, champion_id: champ, assigned_position: String::from(pos) }
}

#[test]
fn picked_skips_own_entry_and_deduplicates() {
    let mut s = empty_snapshot();
    s.my_team = vec![roster(1, 42, "top"), roster(2, 10, "mid"), roster(3, 0, "adc")];
    s.their_team = vec![roster(7, 10, ""), roster(8, 23, ""), roster(9, -1, "")];
    let picked = picked_options(&s, 1);
    let mut sorted = picked.clone();
    sorted.sort();
    assert_eq!(sorted, vec![10, 23]);
}

#[test]
fn availability_excludes_banned_and_picked() {
    let mut s = empty_snapshot();
    s.my_team_bans = vec![64];
    s.my_team = vec![roster(2, 10, "mid")];
    assert!(!is_available(&s, 1, 64));
    assert!(!is_available(&s, 1, 10));
    assert!(is_available(&s, 1, 238));
}

#[test]
fn current_role_finds_own_non_empty_position() {
    let mut s = empty_snapshot();
    s.my_team = vec![roster(2, 0, "top"), roster(1, 0, "jungle")];
    assert_eq!(current_role(&s, 1), Some(String::from("jungle")));
    s.my_team = vec![roster(1, 0, "")];
    assert_eq!(current_role(&s, 1), None);
    s.my_team = vec![];
    assert_eq!(current_role(&s, 1), None);
}
