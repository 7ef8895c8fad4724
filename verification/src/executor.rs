//! The action executor's decision half: given a snapshot, compute exactly
//! which partial update(s) to send against which action record. The remote
//! write itself happens outside the library; the effect a successful write
//! has on the session is modelled here so that round-trip and idempotence
//! facts can be stated and proved.

use vstd::prelude::*;

use crate::snapshot::ActionKind;
use crate::snapshot::ActionRecord;
use crate::snapshot::SessionSnapshot;
use crate::snapshot::lemma_first_actionable;
use crate::snapshot::spec_at_most_one_actionable;
use crate::snapshot::spec_first_actionable;
use crate::snapshot::spec_has_actionable;
use crate::snapshot::spec_is_actionable;
use crate::snapshot::actionable_record;

verus! {

/// One partial update against the session's write endpoint: optionally
/// associate an option with the record, optionally mark it completed.
#[derive(Debug, Clone, Copy, PartialEq, Eq, Structural)]
pub struct Update {
    pub action_id: i64,
    pub champion: Option<i64>,
    pub complete: bool,
}

/// What a lock-in attempt should do.
#[derive(Debug, Clone, Copy, PartialEq, Eq, Structural)]
pub enum LockPlan {
    /// No actionable pick record exists: the attempt fails without a write.
    NoRecord,
    /// The actionable record has no option associated yet: the attempt fails
    /// without a write, preserving the record.
    NothingChosen,
    /// Send one completion-only update; the associated option is preserved.
    Submit(Update),
}

/// The effect of `u` on a single record: an update only touches the record
/// whose id it names; setting an option overwrites the association, and a
/// completion marker sets `completed`.
pub open spec fn spec_apply_to_record(a: ActionRecord, u: Update) -> ActionRecord {
    if a.id == u.action_id {
        ActionRecord {
            champion_id: match u.champion {
                Some(c) => c,
                None => a.champion_id,
            },
            completed: a.completed || u.complete,
            ..a
        }
    } else {
        a
    }
}

/// The effect of one accepted partial update on the action collection.
pub open spec fn spec_apply_update(actions: Seq<ActionRecord>, u: Update) -> Seq<ActionRecord> {
    actions.map_values(|a: ActionRecord| spec_apply_to_record(a, u))
}

/// Apply one partial update to a snapshot: the model of what the remote
/// service does with an accepted write. Useful as a synthetic remote in
/// tests and for the round-trip and idempotence laws.
pub fn apply_update(s: &mut SessionSnapshot, u: &Update)
    ensures
        final(s).actions@ == spec_apply_update(old(s).actions@, *u),
        final(s).local_cell_id == old(s).local_cell_id,
        final(s).phase@ == old(s).phase@,
        final(s).time_left_ms == old(s).time_left_ms,
        final(s).my_team@ == old(s).my_team@,
        final(s).their_team@ == old(s).their_team@,
        final(s).my_team_bans@ == old(s).my_team_bans@,
        final(s).their_team_bans@ == old(s).their_team_bans@,
{
    let n = s.actions.len();
    let mut i: usize = 0;
    while i < n
        invariant
            i <= n,
            n == s.actions@.len(),
            s.actions@.len() == old(s).actions@.len(),
            forall|j: int|
                i <= j < n ==> s.actions@[j] == old(s).actions@[j],
            forall|j: int|
                0 <= j < i ==> s.actions@[j] == spec_apply_to_record(old(s).actions@[j], *u),
            s.local_cell_id == old(s).local_cell_id,
            s.phase@ == old(s).phase@,
            s.time_left_ms == old(s).time_left_ms,
            s.my_team@ == old(s).my_team@,
            s.their_team@ == old(s).their_team@,
            s.my_team_bans@ == old(s).my_team_bans@,
            s.their_team_bans@ == old(s).their_team_bans@,
        decreases n - i,
    {
        let a = s.actions[i];
        if a.id == u.action_id {
            let new_champ = match u.champion {
                Some(c) => c,
                None => a.champion_id,
            };
            let updated = ActionRecord {
                champion_id: new_champ,
                completed: a.completed || u.complete,
                ..a
            };
            s.actions.set(i, updated);
        }
        i = i + 1;
    }
    proof {
        assert(s.actions@ =~= spec_apply_update(old(s).actions@, *u));
    }
}

/// The update a hover of `option_id` sends: associate the option with the
/// actionable pick record, without completing it. `None` when no pick record
/// is actionable.
pub open spec fn spec_hover_update(
    actions: Seq<ActionRecord>,
    owner: i64,
    option_id: i64,
) -> Option<Update> {
    match spec_first_actionable(actions, owner, ActionKind::Pick) {
        Some(a) => Some(Update { action_id: a.id, champion: Some(option_id), complete: false }),
        None => None,
    }
}

/// Decide the hover write: set `option_id` on the actionable pick record,
/// leaving it uncompleted (so a later manual change still wins).
pub fn hover_update(s: &SessionSnapshot, owner: i64, option_id: i64) -> (r: Option<Update>)
    ensures
        r == spec_hover_update(s.actions@, owner, option_id),
{
    match actionable_record(s, owner, ActionKind::Pick) {
        Some(a) => Some(Update { action_id: a.id, champion: Some(option_id), complete: false }),
        None => None,
    }
}

/// The lock-in decision over the action collection: fail without a write when
/// no pick record is actionable or none has an option associated; otherwise a
/// completion-only update that preserves the associated option.
pub open spec fn spec_lock_plan(actions: Seq<ActionRecord>, owner: i64) -> LockPlan {
    match spec_first_actionable(actions, owner, ActionKind::Pick) {
        Some(a) => if a.champion_id <= 0 {
            LockPlan::NothingChosen
        } else {
            LockPlan::Submit(Update { action_id: a.id, champion: None, complete: true })
        },
        None => LockPlan::NoRecord,
    }
}

/// Decide the lock-in write (see `spec_lock_plan`). The completion-only
/// update deliberately leaves the associated option untouched, so a manual
/// choice made by the user in the interim is what gets locked.
pub fn lock_plan(s: &SessionSnapshot, owner: i64) -> (r: LockPlan)
    ensures
        r == spec_lock_plan(s.actions@, owner),
{
    match actionable_record(s, owner, ActionKind::Pick) {
        Some(a) => if a.champion_id <= 0 {
            LockPlan::NothingChosen
        } else {
            LockPlan::Submit(Update { action_id: a.id, champion: None, complete: true })
        },
        None => LockPlan::NoRecord,
    }
}

/// The two sequential updates a ban of `option_id` sends against the
/// actionable ban record: associate the option, then mark completed. `None`
/// when no ban record is actionable.
pub open spec fn spec_ban_updates(
    actions: Seq<ActionRecord>,
    owner: i64,
    option_id: i64,
) -> Option<(Update, Update)> {
    match spec_first_actionable(actions, owner, ActionKind::Ban) {
        Some(a) => Some(
            (
                Update { action_id: a.id, champion: Some(option_id), complete: false },
                Update { action_id: a.id, champion: None, complete: true },
            ),
        ),
        None => None,
    }
}

/// Decide the two writes of a ban (see `spec_ban_updates`). The caller sends
/// the first, waits briefly for it to register, then sends the second against
/// the same record; the ban fails if the first write fails, otherwise with
/// the reported outcome of the second.
pub fn ban_updates(s: &SessionSnapshot, owner: i64, option_id: i64) -> (r: Option<(Update, Update)>)
    ensures
        r == spec_ban_updates(s.actions@, owner, option_id),
{
    match actionable_record(s, owner, ActionKind::Ban) {
        Some(a) => Some(
            (
                Update { action_id: a.id, champion: Some(option_id), complete: false },
                Update { action_id: a.id, champion: None, complete: true },
            ),
        ),
        None => None,
    }
}

/// Round trip: hovering option `x` and then reading the session back finds
/// the actionable pick record associated with `x` and still not completed.
pub proof fn lemma_hover_round_trip(actions: Seq<ActionRecord>, owner: i64, x: i64)
    requires
        spec_hover_update(actions, owner, x) is Some,
    ensures
        ({
            let u = spec_hover_update(actions, owner, x)->Some_0;
            let after = spec_apply_update(actions, u);
            &&& spec_first_actionable(after, owner, ActionKind::Pick) is Some
            &&& spec_first_actionable(after, owner, ActionKind::Pick)->Some_0.champion_id == x
            &&& !spec_first_actionable(after, owner, ActionKind::Pick)->Some_0.completed
        }),
    decreases actions.len(),
{
    let u = spec_hover_update(actions, owner, x)->Some_0;
    let after = spec_apply_update(actions, u);
    assert(actions.len() > 0);
    if spec_is_actionable(actions[0], owner, ActionKind::Pick) {
        assert(after[0] == spec_apply_to_record(actions[0], u));
        assert(after.drop_first() =~= spec_apply_update(actions.drop_first(), u));
        if actions[0].id == u.action_id {
            assert(after[0].champion_id == x && !after[0].completed);
        }
        assert(spec_is_actionable(after[0], owner, ActionKind::Pick));
    } else {
        let rest = actions.drop_first();
        assert(spec_hover_update(rest, owner, x) == spec_hover_update(actions, owner, x));
        lemma_hover_round_trip(rest, owner, x);
        assert(after.drop_first() =~= spec_apply_update(rest, u));
        assert(after[0] == spec_apply_to_record(actions[0], u));
        assert(!spec_is_actionable(after[0], owner, ActionKind::Pick));
    }
}

/// Idempotence of lock-in: once a submitted lock has marked the actionable
/// pick record completed, a second lock-in attempt on the updated session
/// finds no actionable record and fails without a write — it never resubmits.
pub proof fn lemma_lock_in_idempotent(actions: Seq<ActionRecord>, owner: i64)
    requires
        spec_at_most_one_actionable(actions, owner, ActionKind::Pick),
        spec_lock_plan(actions, owner) is Submit,
    ensures
        ({
            let u = spec_lock_plan(actions, owner)->Submit_0;
            spec_lock_plan(spec_apply_update(actions, u), owner) == LockPlan::NoRecord
        }),
{
    let u = spec_lock_plan(actions, owner)->Submit_0;
    let after = spec_apply_update(actions, u);
    let target = spec_first_actionable(actions, owner, ActionKind::Pick)->Some_0;
    lemma_first_actionable(actions, owner, ActionKind::Pick);
    let ti = choose|i: int| 0 <= i < actions.len() && #[trigger] actions[i] == target;
    assert forall|j: int|
        0 <= j < after.len() implies !spec_is_actionable(#[trigger] after[j], owner, ActionKind::Pick) by {
        assert(after[j] == spec_apply_to_record(actions[j], u));
        if actions[j].id == u.action_id {
            assert(after[j].completed);
        } else {
            if spec_is_actionable(actions[j], owner, ActionKind::Pick) {
                assert(j == ti);
                assert(actions[j].id == u.action_id);
            }
        }
    }
    lemma_first_actionable(after, owner, ActionKind::Pick);
    assert(!spec_has_actionable(after, owner, ActionKind::Pick));
}

} // verus!
