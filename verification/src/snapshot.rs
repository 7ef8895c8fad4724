//! Typed session snapshots and the pure functions that interpret them:
//! whose turn it is, which options are consumed, and which single action
//! record is currently actionable for a participant.

use vstd::prelude::*;

verus! {

broadcast use vstd::seq_lib::group_seq_properties;

/// The kind of a negotiable slot: picking an option or banning one.
#[derive(Debug, Clone, Copy, PartialEq, Eq, Structural)]
pub enum ActionKind {
    Pick,
    Ban,
}

/// One negotiable slot within a session, owned by one participant.
/// `champion_id <= 0` means no option has been associated yet.
#[derive(Debug, Clone, Copy, PartialEq, Eq, Structural)]
pub struct ActionRecord {
    pub id: i64,
    pub kind: ActionKind,
    pub actor_cell_id: i64,
    pub completed: bool,
    pub in_progress: bool,
    pub champion_id: i64,
}

/// One roster entry: a participant's seat, assigned role name and the option
/// currently associated with their pick (`<= 0` = none yet).
#[derive(Debug, Clone)]
pub struct RosterEntry {
    pub cell_id: i64,
    pub champion_id: i64,
    pub assigned_position: String,
}

/// A freshly fetched view of the session. It is never cached across polls;
/// every field is plain data read out of one poll response. Action records
/// are kept as one flat collection: only membership and per-record fields
/// matter, not grouping or order.
#[derive(Debug, Clone)]
pub struct SessionSnapshot {
    pub local_cell_id: Option<i64>,
    pub phase: String,
    pub time_left_ms: Option<u64>,
    pub actions: Vec<ActionRecord>,
    pub my_team: Vec<RosterEntry>,
    pub their_team: Vec<RosterEntry>,
    pub my_team_bans: Vec<i64>,
    pub their_team_bans: Vec<i64>,
}

/// The local participant's seat marker, when the snapshot carries one.
pub fn my_id(s: &SessionSnapshot) -> (r: Option<i64>)
    ensures
        r == s.local_cell_id,
{
    s.local_cell_id
}

/// A snapshot counts as "inside a session" exactly when it carries the
/// local participant marker.
pub fn is_in_session(s: &SessionSnapshot) -> (r: bool)
    ensures
        r == s.local_cell_id.is_some(),
{
    s.local_cell_id.is_some()
}

/// Remaining whole seconds in the current phase. An absent timer reads as a
/// conservative 30 seconds, so time-gated policies stay quiet rather than act
/// on unknown data.
pub open spec fn spec_time_left_secs(s: SessionSnapshot) -> u64 {
    match s.time_left_ms {
        Some(ms) => ms / 1000,
        None => 30,
    }
}

/// Remaining whole seconds in the current phase (30 when the timer is absent).
pub fn time_left_secs(s: &SessionSnapshot) -> (r: u64)
    ensures
        r == spec_time_left_secs(*s),
{
    match s.time_left_ms {
        Some(ms) => ms / 1000,
        None => 30,
    }
}

/// A record is actionable for `owner` and `kind` when it is theirs, of that
/// kind, and not yet completed. This is the relaxed signal: the in-progress
/// flag is deliberately ignored because it is timing-sensitive in the source
/// service.
pub open spec fn spec_is_actionable(a: ActionRecord, owner: i64, kind: ActionKind) -> bool {
    a.actor_cell_id == owner && a.kind == kind && !a.completed
}

/// The first actionable record in collection order; the deterministic pick
/// when (against the data contract) more than one is actionable.
pub open spec fn spec_first_actionable(
    actions: Seq<ActionRecord>,
    owner: i64,
    kind: ActionKind,
) -> Option<ActionRecord>
    decreases actions.len(),
{
    if actions.len() == 0 {
        None
    } else if spec_is_actionable(actions[0], owner, kind) {
        Some(actions[0])
    } else {
        spec_first_actionable(actions.drop_first(), owner, kind)
    }
}

/// Some record is actionable for `owner` and `kind`.
pub open spec fn spec_has_actionable(
    actions: Seq<ActionRecord>,
    owner: i64,
    kind: ActionKind,
) -> bool {
    exists|i: int|
        0 <= i < actions.len() && spec_is_actionable(#[trigger] actions[i], owner, kind)
}

/// At most one record is actionable for `owner` and `kind`: the session's
/// data contract for well-formed snapshots.
pub open spec fn spec_at_most_one_actionable(
    actions: Seq<ActionRecord>,
    owner: i64,
    kind: ActionKind,
) -> bool {
    forall|i: int, j: int|
        0 <= i < actions.len() && 0 <= j < actions.len()
            && spec_is_actionable(#[trigger] actions[i], owner, kind)
            && spec_is_actionable(#[trigger] actions[j], owner, kind) ==> i == j
}

/// `spec_first_actionable` returns a record exactly when one is actionable,
/// and what it returns is an actionable member of the collection.
pub proof fn lemma_first_actionable(actions: Seq<ActionRecord>, owner: i64, kind: ActionKind)
    ensures
        spec_first_actionable(actions, owner, kind) is Some <==> spec_has_actionable(
            actions,
            owner,
            kind,
        ),
        match spec_first_actionable(actions, owner, kind) {
            Some(a) => spec_is_actionable(a, owner, kind) && exists|i: int|
                0 <= i < actions.len() && #[trigger] actions[i] == a,
            None => true,
        },
    decreases actions.len(),
{
    if actions.len() == 0 {
    } else if spec_is_actionable(actions[0], owner, kind) {
        assert(actions[0] == actions[0]);
    } else {
        let rest = actions.drop_first();
        lemma_first_actionable(rest, owner, kind);
        if spec_has_actionable(rest, owner, kind) {
            let i = choose|i: int|
                0 <= i < rest.len() && spec_is_actionable(#[trigger] rest[i], owner, kind);
            assert(actions[i + 1] == rest[i]);
            assert(spec_has_actionable(actions, owner, kind));
        }
        if spec_has_actionable(actions, owner, kind) {
            let i = choose|i: int|
                0 <= i < actions.len() && spec_is_actionable(#[trigger] actions[i], owner, kind);
            assert(i != 0);
            assert(rest[i - 1] == actions[i]);
            assert(spec_has_actionable(rest, owner, kind));
        }
        match spec_first_actionable(actions, owner, kind) {
            Some(a) => {
                let i = choose|i: int| 0 <= i < rest.len() && #[trigger] rest[i] == a;
                assert(actions[i + 1] == a);
            },
            None => {},
        }
    }
}

/// The single record currently actionable for `owner` and `kind`, the first
/// in collection order when (against the data contract) several match. Never
/// returns a completed record.
pub fn actionable_record(s: &SessionSnapshot, owner: i64, kind: ActionKind) -> (r: Option<
    ActionRecord,
>)
    ensures
        r == spec_first_actionable(s.actions@, owner, kind),
        r matches Some(a) ==> !a.completed && a.actor_cell_id == owner && a.kind == kind,
{
    let n = s.actions.len();
    let mut i: usize = 0;
    while i < n
        invariant
            i <= n,
            n == s.actions@.len(),
            spec_first_actionable(s.actions@, owner, kind) == spec_first_actionable(
                s.actions@.skip(i as int),
                owner,
                kind,
            ),
        decreases n - i,
    {
        let a = s.actions[i];
        proof {
            assert(s.actions@.skip(i as int)[0] == a);
        }
        if a.actor_cell_id == owner && a.kind == kind && !a.completed {
            return Some(a);
        }
        proof {
            assert(s.actions@.skip(i as int).drop_first() =~= s.actions@.skip(i as int + 1));
        }
        i = i + 1;
    }
    proof {
        assert(s.actions@.skip(n as int) =~= Seq::<ActionRecord>::empty());
    }
    None
}

/// The strict turn signal: some record of `kind`, owned by `owner`, is
/// flagged in-progress. Useful for status display; unreliable for driving
/// actions.
pub open spec fn spec_is_my_turn(s: SessionSnapshot, owner: i64, kind: ActionKind) -> bool {
    exists|i: int|
        0 <= i < s.actions@.len() && spec_in_progress_for(#[trigger] s.actions@[i], owner, kind)
}

/// A record of `kind` owned by `owner` and flagged in-progress.
pub open spec fn spec_in_progress_for(a: ActionRecord, owner: i64, kind: ActionKind) -> bool {
    a.in_progress && a.actor_cell_id == owner && a.kind == kind
}

/// Strict turn test (see `spec_is_my_turn`).
pub fn is_my_turn(s: &SessionSnapshot, owner: i64, kind: ActionKind) -> (r: bool)
    ensures
        r == spec_is_my_turn(*s, owner, kind),
{
    let n = s.actions.len();
    let mut i: usize = 0;
    while i < n
        invariant
            i <= n,
            n == s.actions@.len(),
            forall|j: int|
                0 <= j < i ==> !spec_in_progress_for(#[trigger] s.actions@[j], owner, kind),
        decreases n - i,
    {
        let a = s.actions[i];
        if a.in_progress && a.actor_cell_id == owner && a.kind == kind {
            return true;
        }
        i = i + 1;
    }
    false
}

/// The relaxed pending signal: a not-yet-completed record of `kind` owned by
/// `owner` exists, whatever its in-progress flag says. This is the signal the
/// controller drives actions from.
pub fn has_pending(s: &SessionSnapshot, owner: i64, kind: ActionKind) -> (r: bool)
    ensures
        r == spec_has_actionable(s.actions@, owner, kind),
{
    let n = s.actions.len();
    let mut i: usize = 0;
    while i < n
        invariant
            i <= n,
            n == s.actions@.len(),
            forall|j: int|
                0 <= j < i ==> !spec_is_actionable(#[trigger] s.actions@[j], owner, kind),
        decreases n - i,
    {
        let a = s.actions[i];
        if a.actor_cell_id == owner && a.kind == kind && !a.completed {
            return true;
        }
        i = i + 1;
    }
    false
}

/// Membership test on a plain id list.
pub fn contains_id(v: &Vec<i64>, x: i64) -> (r: bool)
    ensures
        r == v@.contains(x),
{
    let n = v.len();
    let mut i: usize = 0;
    while i < n
        invariant
            i <= n,
            n == v@.len(),
            forall|j: int| 0 <= j < i ==> v@[j] != x,
        decreases n - i,
    {
        if v[i] == x {
            return true;
        }
        i = i + 1;
    }
    false
}

/// A completed ban record that consumed option `id`.
pub open spec fn spec_is_completed_ban(a: ActionRecord, id: i64) -> bool {
    a.kind == ActionKind::Ban && a.completed && a.champion_id == id
}

/// Some completed ban record in `actions` consumed option `id`.
pub open spec fn spec_completed_ban(actions: Seq<ActionRecord>, id: i64) -> bool {
    exists|i: int| 0 <= i < actions.len() && spec_is_completed_ban(#[trigger] actions[i], id)
}

/// Option `id` counts as banned: it is positive and appears in either team's
/// explicit ban list or in a completed ban record.
pub open spec fn spec_is_banned(s: SessionSnapshot, id: i64) -> bool {
    id > 0 && (s.my_team_bans@.contains(id) || s.their_team_bans@.contains(id)
        || spec_completed_ban(s.actions@, id))
}

proof fn lemma_completed_ban_take_step(actions: Seq<ActionRecord>, k: int, x: i64)
    requires
        0 <= k < actions.len(),
    ensures
        spec_completed_ban(actions.take(k + 1), x) <==> (spec_completed_ban(actions.take(k), x)
            || spec_is_completed_ban(actions[k], x)),
{
    assert(actions.take(k + 1) =~= actions.take(k).push(actions[k]));
    if spec_completed_ban(actions.take(k + 1), x) {
        let i = choose|i: int|
            0 <= i < actions.take(k + 1).len() && spec_is_completed_ban(
                #[trigger] actions.take(k + 1)[i],
                x,
            );
        if i < k {
            assert(actions.take(k)[i] == actions.take(k + 1)[i]);
            assert(spec_completed_ban(actions.take(k), x));
        } else {
            assert(actions.take(k + 1)[k] == actions[k]);
        }
    }
    if spec_completed_ban(actions.take(k), x) {
        let i = choose|i: int|
            0 <= i < actions.take(k).len() && spec_is_completed_ban(
                #[trigger] actions.take(k)[i],
                x,
            );
        assert(actions.take(k + 1)[i] == actions.take(k)[i]);
        assert(spec_completed_ban(actions.take(k + 1), x));
    }
    if spec_is_completed_ban(actions[k], x) {
        assert(actions.take(k + 1)[k] == actions[k]);
        assert(spec_completed_ban(actions.take(k + 1), x));
    }
}

/// The consumed-by-ban options: the de-duplicated union of both teams'
/// explicit ban lists and the options of completed ban records, keeping only
/// positive ids.
pub fn banned_options(s: &SessionSnapshot) -> (r: Vec<i64>)
    ensures
        forall|x: i64| #[trigger] r@.contains(x) <==> spec_is_banned(*s, x),
        forall|i: int, j: int| 0 <= i < j < r@.len() ==> r@[i] != r@[j],
        forall|i: int| 0 <= i < r@.len() ==> #[trigger] r@[i] > 0,
{
    let mut out: Vec<i64> = Vec::new();
    let n1 = s.my_team_bans.len();
    let mut k: usize = 0;
    while k < n1
        invariant
            k <= n1,
            n1 == s.my_team_bans@.len(),
            forall|x: i64| #[trigger] out@.contains(x) <==> (x > 0 && s.my_team_bans@.take(
                k as int,
            ).contains(x)),
            forall|i: int, j: int| 0 <= i < j < out@.len() ==> out@[i] != out@[j],
        decreases n1 - k,
    {
        let b = s.my_team_bans[k];
        proof {
            assert(s.my_team_bans@.take(k as int + 1) =~= s.my_team_bans@.take(k as int).push(b));
        }
        if b > 0 && !contains_id(&out, b) {
            out.push(b);
        }
        k = k + 1;
    }
    proof {
        assert(s.my_team_bans@.take(n1 as int) =~= s.my_team_bans@);
    }
    let n2 = s.their_team_bans.len();
    let mut k: usize = 0;
    while k < n2
        invariant
            k <= n2,
            n2 == s.their_team_bans@.len(),
            forall|x: i64| #[trigger] out@.contains(x) <==> (x > 0 && (s.my_team_bans@.contains(x)
                || s.their_team_bans@.take(k as int).contains(x))),
            forall|i: int, j: int| 0 <= i < j < out@.len() ==> out@[i] != out@[j],
        decreases n2 - k,
    {
        let b = s.their_team_bans[k];
        proof {
            assert(s.their_team_bans@.take(k as int + 1) =~= s.their_team_bans@.take(
                k as int,
            ).push(b));
        }
        if b > 0 && !contains_id(&out, b) {
            out.push(b);
        }
        k = k + 1;
    }
    proof {
        assert(s.their_team_bans@.take(n2 as int) =~= s.their_team_bans@);
    }
    let n3 = s.actions.len();
    let mut k: usize = 0;
    while k < n3
        invariant
            k <= n3,
            n3 == s.actions@.len(),
            forall|x: i64| #[trigger] out@.contains(x) <==> (x > 0 && (s.my_team_bans@.contains(x)
                || s.their_team_bans@.contains(x) || spec_completed_ban(
                s.actions@.take(k as int),
                x,
            ))),
            forall|i: int, j: int| 0 <= i < j < out@.len() ==> out@[i] != out@[j],
        decreases n3 - k,
    {
        let a = s.actions[k];
        proof {
            assert forall|x: i64|
                spec_completed_ban(s.actions@.take(k as int + 1), x) <==> (spec_completed_ban(
                    s.actions@.take(k as int),
                    x,
                ) || spec_is_completed_ban(a, x)) by {
                lemma_completed_ban_take_step(s.actions@, k as int, x);
            }
        }
        if a.kind == ActionKind::Ban && a.completed && a.champion_id > 0 && !contains_id(
            &out,
            a.champion_id,
        ) {
            let ghost pre = out@;
            out.push(a.champion_id);
            proof {
                assert(out@ == pre.push(a.champion_id));
                assert(spec_is_completed_ban(a, a.champion_id));
                assert(out@.contains(a.champion_id));
            }
        }
        k = k + 1;
    }
    proof {
        assert(s.actions@.take(n3 as int) =~= s.actions@);
        assert forall|i: int| 0 <= i < out@.len() implies out@[i] > 0 by {
            assert(out@.contains(out@[i]));
        }
    }
    out
}

/// A non-self roster pick of option `x` somewhere in the snapshot.
pub open spec fn spec_is_picked(s: SessionSnapshot, my_id: i64, x: i64) -> bool {
    x > 0 && ((exists|i: int|
        0 <= i < s.my_team@.len() && (#[trigger] s.my_team@[i]).cell_id != my_id
            && s.my_team@[i].champion_id == x) || (exists|i: int|
        0 <= i < s.their_team@.len() && (#[trigger] s.their_team@[i]).champion_id == x))
}

/// An entry of the local team, other than the local participant's own,
/// currently associated with option `x`.
spec fn spec_my_team_pick_in(team: Seq<RosterEntry>, my_id: i64, x: i64) -> bool {
    exists|i: int|
        0 <= i < team.len() && (#[trigger] team[i]).cell_id != my_id && team[i].champion_id == x
}

/// An entry of the opposing team currently associated with option `x`.
spec fn spec_their_team_pick_in(team: Seq<RosterEntry>, x: i64) -> bool {
    exists|i: int| 0 <= i < team.len() && (#[trigger] team[i]).champion_id == x
}

/// The options already taken by other participants: every non-self roster
/// entry's associated option above zero, de-duplicated.
pub fn picked_options(s: &SessionSnapshot, my_id: i64) -> (r: Vec<i64>)
    ensures
        forall|x: i64| #[trigger] r@.contains(x) <==> spec_is_picked(*s, my_id, x),
        forall|i: int, j: int| 0 <= i < j < r@.len() ==> r@[i] != r@[j],
{
    let mut out: Vec<i64> = Vec::new();
    let n1 = s.my_team.len();
    let mut k: usize = 0;
    while k < n1
        invariant
            k <= n1,
            n1 == s.my_team@.len(),
            forall|x: i64| #[trigger] out@.contains(x) <==> (x > 0 && spec_my_team_pick_in(
                s.my_team@.take(k as int),
                my_id,
                x,
            )),
            forall|i: int, j: int| 0 <= i < j < out@.len() ==> out@[i] != out@[j],
        decreases n1 - k,
    {
        let e_cell = s.my_team[k].cell_id;
        let e_champ = s.my_team[k].champion_id;
        proof {
            assert forall|x: i64|
                spec_my_team_pick_in(s.my_team@.take(k as int + 1), my_id, x)
                    <==> (spec_my_team_pick_in(s.my_team@.take(k as int), my_id, x) || (
                s.my_team@[k as int].cell_id != my_id && s.my_team@[k as int].champion_id
                    == x)) by {
                let team = s.my_team@;
                let kk = k as int;
                if spec_my_team_pick_in(team.take(kk + 1), my_id, x) {
                    let i = choose|i: int|
                        0 <= i < team.take(kk + 1).len() && (#[trigger] team.take(
                            kk + 1,
                        )[i]).cell_id != my_id && team.take(kk + 1)[i].champion_id == x;
                    if i < kk {
                        assert(team.take(kk)[i] == team.take(kk + 1)[i]);
                        assert(spec_my_team_pick_in(team.take(kk), my_id, x));
                    } else {
                        assert(team.take(kk + 1)[kk] == team[kk]);
                    }
                }
                if spec_my_team_pick_in(team.take(kk), my_id, x) {
                    let i = choose|i: int|
                        0 <= i < team.take(kk).len() && (#[trigger] team.take(kk)[i]).cell_id
                            != my_id && team.take(kk)[i].champion_id == x;
                    assert(team.take(kk + 1)[i] == team.take(kk)[i]);
                    assert(spec_my_team_pick_in(team.take(kk + 1), my_id, x));
                }
                if team[kk].cell_id != my_id && team[kk].champion_id == x {
                    assert(team.take(kk + 1)[kk] == team[kk]);
                    assert(spec_my_team_pick_in(team.take(kk + 1), my_id, x));
                }
            }
        }
        if e_cell != my_id && e_champ > 0 && !contains_id(&out, e_champ) {
            out.push(e_champ);
        }
        k = k + 1;
    }
    proof {
        assert(s.my_team@.take(n1 as int) =~= s.my_team@);
    }
    let n2 = s.their_team.len();
    let mut k: usize = 0;
    while k < n2
        invariant
            k <= n2,
            n2 == s.their_team@.len(),
            forall|x: i64| #[trigger] out@.contains(x) <==> (x > 0 && (spec_my_team_pick_in(
                s.my_team@,
                my_id,
                x,
            ) || spec_their_team_pick_in(s.their_team@.take(k as int), x))),
            forall|i: int, j: int| 0 <= i < j < out@.len() ==> out@[i] != out@[j],
        decreases n2 - k,
    {
        let e_champ = s.their_team[k].champion_id;
        proof {
            assert forall|x: i64|
                spec_their_team_pick_in(s.their_team@.take(k as int + 1), x)
                    <==> (spec_their_team_pick_in(s.their_team@.take(k as int), x) || (
                s.their_team@[k as int].champion_id == x)) by {
                let team = s.their_team@;
                let kk = k as int;
                if spec_their_team_pick_in(team.take(kk + 1), x) {
                    let i = choose|i: int|
                        0 <= i < team.take(kk + 1).len() && (#[trigger] team.take(
                            kk + 1,
                        )[i]).champion_id == x;
                    if i < kk {
                        assert(team.take(kk)[i] == team.take(kk + 1)[i]);
                        assert(spec_their_team_pick_in(team.take(kk), x));
                    } else {
                        assert(team.take(kk + 1)[kk] == team[kk]);
                    }
                }
                if spec_their_team_pick_in(team.take(kk), x) {
                    let i = choose|i: int|
                        0 <= i < team.take(kk).len() && (#[trigger] team.take(kk)[i]).champion_id
                            == x;
                    assert(team.take(kk + 1)[i] == team.take(kk)[i]);
                    assert(spec_their_team_pick_in(team.take(kk + 1), x));
                }
                if team[kk].champion_id == x {
                    assert(team.take(kk + 1)[kk] == team[kk]);
                    assert(spec_their_team_pick_in(team.take(kk + 1), x));
                }
            }
        }
        if e_champ > 0 && !contains_id(&out, e_champ) {
            out.push(e_champ);
        }
        k = k + 1;
    }
    proof {
        assert(s.their_team@.take(n2 as int) =~= s.their_team@);
    }
    out
}

/// An option is available when nobody has banned it and no other participant
/// has picked it.
pub fn is_available(s: &SessionSnapshot, my_id: i64, option_id: i64) -> (r: bool)
    ensures
        r == (!spec_is_banned(*s, option_id) && !spec_is_picked(*s, my_id, option_id)),
{
    let banned = banned_options(s);
    let picked = picked_options(s, my_id);
    !contains_id(&banned, option_id) && !contains_id(&picked, option_id)
}

/// The local participant's assigned role name: the first roster entry of the
/// local team that carries the local seat and a non-empty position.
pub open spec fn spec_current_role(team: Seq<RosterEntry>, my_id: i64) -> Option<Seq<char>>
    decreases team.len(),
{
    if team.len() == 0 {
        None
    } else if team[0].cell_id == my_id && team[0].assigned_position@.len() > 0 {
        Some(team[0].assigned_position@)
    } else {
        spec_current_role(team.drop_first(), my_id)
    }
}

/// The local participant's assigned role name, when the roster has one for
/// them and it is non-empty.
pub fn current_role(s: &SessionSnapshot, my_id: i64) -> (r: Option<String>)
    ensures
        match r {
            Some(p) => spec_current_role(s.my_team@, my_id) == Some(p@),
            None => spec_current_role(s.my_team@, my_id) is None,
        },
{
    let n = s.my_team.len();
    let mut i: usize = 0;
    while i < n
        invariant
            i <= n,
            n == s.my_team@.len(),
            spec_current_role(s.my_team@, my_id) == spec_current_role(
                s.my_team@.skip(i as int),
                my_id,
            ),
        decreases n - i,
    {
        proof {
            assert(s.my_team@.skip(i as int)[0] == s.my_team@[i as int]);
        }
        if s.my_team[i].cell_id == my_id {
            let pos = &s.my_team[i].assigned_position;
            if !pos.as_str().is_empty() {
                return Some(pos.clone());
            }
        }
        proof {
            assert(s.my_team@.skip(i as int).drop_first() =~= s.my_team@.skip(i as int + 1));
        }
        i = i + 1;
    }
    proof {
        assert(s.my_team@.skip(n as int) =~= Seq::<RosterEntry>::empty());
    }
    None
}

} // verus!
