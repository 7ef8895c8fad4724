//! The turn controller: per-session attempt memory and the per-tick policy
//! decisions that drive hovering, banning and locking. The controller owns
//! its memory exclusively; each polling tick feeds it one fresh snapshot and
//! gets back an explicit plan of what to submit.

use vstd::prelude::*;

use crate::prefs::ChampionPreferences;
use crate::prefs::Role;
use crate::prefs::fallback_role;
use crate::prefs::role_from_str;
use crate::prefs::spec_fallback_role;
use crate::prefs::spec_role_of;
use crate::snapshot::ActionKind;
use crate::snapshot::SessionSnapshot;
use crate::snapshot::banned_options;
use crate::snapshot::contains_id;
use crate::snapshot::current_role;
use crate::snapshot::has_pending;
use crate::snapshot::is_available;
use crate::snapshot::is_my_turn;
use crate::snapshot::spec_current_role;
use crate::snapshot::spec_has_actionable;
use crate::snapshot::spec_is_banned;
use crate::snapshot::spec_is_my_turn;
use crate::snapshot::spec_is_picked;
use crate::snapshot::spec_time_left_secs;
use crate::snapshot::time_left_secs;

verus! {

/// Cooldown between ban submission attempts across ticks.
pub const BAN_COOLDOWN_MS: u64 = 1000;

/// Default low-water mark: lock when this many seconds (or fewer) remain.
pub const DEFAULT_LOCK_LOW_WATER_SECS: u64 = 3;

/// The controller's private per-session attempt memory. Created cleared,
/// fully cleared again when the controller observes it is no longer inside a
/// session, and selectively cleared (ban fields only) when ban-turn ownership
/// is lost, which supports formats with several discrete ban rounds.
#[derive(Debug, Clone)]
pub struct TurnMemory {
    /// Session-entry marker: the controller has seen this session already.
    pub in_session: bool,
    /// A ban submission succeeded this ban round.
    pub ban_completed: bool,
    /// The once-per-session hover scan has run.
    pub hover_attempted: bool,
    /// The once-per-round lock burst has run.
    pub lock_attempted: bool,
    /// When the last ban submission was attempted (monotonic milliseconds).
    pub last_ban_attempt_ms: Option<u64>,
    /// Options the remote service rejected this ban round; never retried
    /// within the round.
    pub failed_bans: Vec<i64>,
    /// The ban-turn signal observed on the previous tick.
    pub was_ban_turn: bool,
}

/// Ban-completed flag after the ban-round bookkeeping of one tick: cleared
/// when ban-turn ownership was just lost, kept otherwise.
pub open spec fn spec_round_ban_completed(m: TurnMemory, ban_turn: bool) -> bool {
    if m.was_ban_turn && !ban_turn {
        false
    } else {
        m.ban_completed
    }
}

/// Failed-option list after the ban-round bookkeeping of one tick: cleared
/// when ban-turn ownership was just lost, kept otherwise.
pub open spec fn spec_round_failed(m: TurnMemory, ban_turn: bool) -> Seq<i64> {
    if m.was_ban_turn && !ban_turn {
        Seq::empty()
    } else {
        m.failed_bans@
    }
}

/// The ban cooldown has elapsed: no attempt yet, or at least
/// `BAN_COOLDOWN_MS` milliseconds since the last one.
pub open spec fn spec_cooldown_ok(last: Option<u64>, now_ms: u64) -> bool {
    match last {
        None => true,
        Some(l) => l + BAN_COOLDOWN_MS <= now_ms,
    }
}

impl TurnMemory {
    /// No session observed, nothing attempted, nothing failed.
    pub open spec fn spec_cleared(self) -> bool {
        &&& !self.in_session
        &&& !self.ban_completed
        &&& !self.hover_attempted
        &&& !self.lock_attempted
        &&& self.last_ban_attempt_ms is None
        &&& self.failed_bans@ == Seq::<i64>::empty()
        &&& !self.was_ban_turn
    }

    /// Fresh memory, fully cleared.
    pub fn new() -> (r: Self)
        ensures
            r.spec_cleared(),
    {
        TurnMemory {
            in_session: false,
            ban_completed: false,
            hover_attempted: false,
            lock_attempted: false,
            last_ban_attempt_ms: None,
            failed_bans: Vec::new(),
            was_ban_turn: false,
        }
    }

    /// The controller is no longer inside a session: clear everything,
    /// ready for a fresh entry on next sighting.
    pub fn observe_exit(&mut self)
        ensures
            final(self).spec_cleared(),
    {
        self.in_session = false;
        self.ban_completed = false;
        self.hover_attempted = false;
        self.lock_attempted = false;
        self.last_ban_attempt_ms = None;
        self.failed_bans = Vec::new();
        self.was_ban_turn = false;
    }

    /// The controller is inside a session: on the first sighting, start from
    /// cleared attempt state; afterwards, leave the memory as it is.
    pub fn observe_entry(&mut self)
        ensures
            final(self).in_session,
            old(self).in_session ==> *final(self) == *old(self),
            !old(self).in_session ==> {
                &&& !final(self).ban_completed
                &&& !final(self).hover_attempted
                &&& !final(self).lock_attempted
                &&& final(self).last_ban_attempt_ms is None
                &&& final(self).failed_bans@ == Seq::<i64>::empty()
                &&& !final(self).was_ban_turn
            },
    {
        if !self.in_session {
            self.observe_exit();
            self.in_session = true;
        }
    }

    /// Ban-round bookkeeping: when ban-turn ownership flips from observed to
    /// lost, clear the ban-completed flag and the failed-option list so a
    /// later, independent ban round starts fresh.
    pub fn update_ban_round(&mut self, ban_turn: bool)
        ensures
            final(self).was_ban_turn == ban_turn,
            final(self).ban_completed == spec_round_ban_completed(*old(self), ban_turn),
            final(self).failed_bans@ == spec_round_failed(*old(self), ban_turn),
            final(self).in_session == old(self).in_session,
            final(self).hover_attempted == old(self).hover_attempted,
            final(self).lock_attempted == old(self).lock_attempted,
            final(self).last_ban_attempt_ms == old(self).last_ban_attempt_ms,
    {
        if self.was_ban_turn && !ban_turn {
            self.ban_completed = false;
            self.failed_bans = Vec::new();
        }
        self.was_ban_turn = ban_turn;
    }

    /// The across-tick ban cooldown test (see `spec_cooldown_ok`).
    pub fn ban_cooldown_ok(&self, now_ms: u64) -> (r: bool)
        ensures
            r == spec_cooldown_ok(self.last_ban_attempt_ms, now_ms),
    {
        match self.last_ban_attempt_ms {
            None => true,
            Some(l) => now_ms >= l && now_ms - l >= BAN_COOLDOWN_MS,
        }
    }

    /// Note that a ban submission is being attempted now.
    pub fn record_ban_attempt(&mut self, now_ms: u64)
        ensures
            final(self).last_ban_attempt_ms == Some(now_ms),
            final(self).in_session == old(self).in_session,
            final(self).ban_completed == old(self).ban_completed,
            final(self).hover_attempted == old(self).hover_attempted,
            final(self).lock_attempted == old(self).lock_attempted,
            final(self).failed_bans@ == old(self).failed_bans@,
            final(self).was_ban_turn == old(self).was_ban_turn,
    {
        self.last_ban_attempt_ms = Some(now_ms);
    }

    /// Fold a ban submission result into the round state: success completes
    /// the round; a rejection puts the option on the failed list so it is
    /// never retried this round, and the sweep moves on.
    pub fn record_ban_outcome(&mut self, option_id: i64, success: bool)
        ensures
            success ==> final(self).ban_completed && final(self).failed_bans@ == old(
                self,
            ).failed_bans@,
            !success ==> final(self).failed_bans@ == old(self).failed_bans@.push(option_id)
                && final(self).ban_completed == old(self).ban_completed,
            final(self).in_session == old(self).in_session,
            final(self).hover_attempted == old(self).hover_attempted,
            final(self).lock_attempted == old(self).lock_attempted,
            final(self).last_ban_attempt_ms == old(self).last_ban_attempt_ms,
            final(self).was_ban_turn == old(self).was_ban_turn,
    {
        if success {
            self.ban_completed = true;
        } else {
            self.failed_bans.push(option_id);
        }
    }

    /// The once-per-session hover scan has run (whatever it found).
    pub fn mark_hover_attempted(&mut self)
        ensures
            final(self).hover_attempted,
            final(self).in_session == old(self).in_session,
            final(self).ban_completed == old(self).ban_completed,
            final(self).lock_attempted == old(self).lock_attempted,
            final(self).last_ban_attempt_ms == old(self).last_ban_attempt_ms,
            final(self).failed_bans@ == old(self).failed_bans@,
            final(self).was_ban_turn == old(self).was_ban_turn,
    {
        self.hover_attempted = true;
    }

    /// The once-per-round lock burst has run (whatever its outcome).
    pub fn mark_lock_attempted(&mut self)
        ensures
            final(self).lock_attempted,
            final(self).in_session == old(self).in_session,
            final(self).ban_completed == old(self).ban_completed,
            final(self).hover_attempted == old(self).hover_attempted,
            final(self).last_ban_attempt_ms == old(self).last_ban_attempt_ms,
            final(self).failed_bans@ == old(self).failed_bans@,
            final(self).was_ban_turn == old(self).was_ban_turn,
    {
        self.lock_attempted = true;
    }
}

/// The lock policy gate: enabled, not yet attempted this round, a pick is
/// pending, and the phase clock is at or under the low-water mark.
pub open spec fn spec_lock_fires(
    enabled: bool,
    lock_attempted: bool,
    pick_pending: bool,
    time_left_secs: u64,
    low_water_secs: u64,
) -> bool {
    enabled && !lock_attempted && pick_pending && time_left_secs <= low_water_secs
}

/// The ban policy gate: enabled, round not completed, a ban is pending, and
/// the across-tick cooldown has elapsed.
pub open spec fn spec_ban_fires(
    enabled: bool,
    ban_completed: bool,
    ban_pending: bool,
    last_attempt_ms: Option<u64>,
    now_ms: u64,
) -> bool {
    enabled && !ban_completed && ban_pending && spec_cooldown_ok(last_attempt_ms, now_ms)
}

/// The first option in priority order that nobody has banned or picked.
pub open spec fn spec_first_available(list: Seq<i64>, s: SessionSnapshot, my_id: i64) -> Option<
    i64,
>
    decreases list.len(),
{
    if list.len() == 0 {
        None
    } else if !spec_is_banned(s, list[0]) && !spec_is_picked(s, my_id, list[0]) {
        Some(list[0])
    } else {
        spec_first_available(list.drop_first(), s, my_id)
    }
}

/// The option a hover should target: the first still-available entry of the
/// preferred list. `None` when none is available (a later-freed option is
/// never retroactively hovered).
pub fn hover_candidate(s: &SessionSnapshot, my_id: i64, list: &Vec<i64>) -> (r: Option<i64>)
    ensures
        r == spec_first_available(list@, *s, my_id),
{
    let n = list.len();
    let mut i: usize = 0;
    proof {
        assert(list@.skip(0) =~= list@);
    }
    while i < n
        invariant
            i <= n,
            n == list@.len(),
            spec_first_available(list@, *s, my_id) == spec_first_available(
                list@.skip(i as int),
                *s,
                my_id,
            ),
        decreases n - i,
    {
        proof {
            assert(list@.skip(i as int)[0] == list@[i as int]);
        }
        if is_available(s, my_id, list[i]) {
            return Some(list[i]);
        }
        proof {
            assert(list@.skip(i as int).drop_first() =~= list@.skip(i as int + 1));
        }
        i = i + 1;
    }
    proof {
        assert(list@.skip(n as int) =~= Seq::<i64>::empty());
    }
    None
}

/// The next option the ban sweep should submit: the first entry of the ban
/// priority list that nobody has banned yet and that the remote service has
/// not rejected this round.
pub open spec fn spec_next_ban_candidate(
    list: Seq<i64>,
    s: SessionSnapshot,
    failed: Seq<i64>,
) -> Option<i64>
    decreases list.len(),
{
    if list.len() == 0 {
        None
    } else if !spec_is_banned(s, list[0]) && !failed.contains(list[0]) {
        Some(list[0])
    } else {
        spec_next_ban_candidate(list.drop_first(), s, failed)
    }
}

/// Pick the next ban candidate (see `spec_next_ban_candidate`). Options that
/// are already banned by anyone, or that failed earlier this round, are
/// skipped without any submission.
pub fn next_ban_candidate(s: &SessionSnapshot, list: &Vec<i64>, failed: &Vec<i64>) -> (r: Option<
    i64,
>)
    ensures
        r == spec_next_ban_candidate(list@, *s, failed@),
{
    let banned = banned_options(s);
    let n = list.len();
    let mut i: usize = 0;
    proof {
        assert(list@.skip(0) =~= list@);
    }
    while i < n
        invariant
            i <= n,
            n == list@.len(),
            forall|x: i64| #[trigger] banned@.contains(x) <==> spec_is_banned(*s, x),
            spec_next_ban_candidate(list@, *s, failed@) == spec_next_ban_candidate(
                list@.skip(i as int),
                *s,
                failed@,
            ),
        decreases n - i,
    {
        proof {
            assert(list@.skip(i as int)[0] == list@[i as int]);
        }
        let b = list[i];
        if !contains_id(&banned, b) && !contains_id(failed, b) {
            return Some(b);
        }
        proof {
            assert(list@.skip(i as int).drop_first() =~= list@.skip(i as int + 1));
        }
        i = i + 1;
    }
    proof {
        assert(list@.skip(n as int) =~= Seq::<i64>::empty());
    }
    None
}

/// What the ban sweep's candidate choice guarantees: a selected option comes
/// from the priority list and is neither banned by anyone nor on the failed
/// list, and the options the list holds before it are all consumed; `None`
/// means every listed option is banned or failed.
pub proof fn lemma_next_ban_candidate_sound(list: Seq<i64>, s: SessionSnapshot, failed: Seq<i64>)
    ensures
        match spec_next_ban_candidate(list, s, failed) {
            Some(c) => list.contains(c) && !spec_is_banned(s, c) && !failed.contains(c),
            None => forall|i: int|
                0 <= i < list.len() ==> spec_is_banned(s, #[trigger] list[i]) || failed.contains(
                    list[i],
                ),
        },
    decreases list.len(),
{
    if list.len() == 0 {
    } else if !spec_is_banned(s, list[0]) && !failed.contains(list[0]) {
        assert(list.contains(list[0]));
    } else {
        let rest = list.drop_first();
        lemma_next_ban_candidate_sound(rest, s, failed);
        match spec_next_ban_candidate(rest, s, failed) {
            Some(c) => {
                let i = choose|i: int| 0 <= i < rest.len() && rest[i] == c;
                assert(list[i + 1] == c);
                assert(list.contains(c));
            },
            None => {
                assert forall|i: int|
                    0 <= i < list.len() implies spec_is_banned(s, #[trigger] list[i])
                    || failed.contains(list[i]) by {
                    if i > 0 {
                        assert(rest[i - 1] == list[i]);
                    }
                }
            },
        }
    }
}

/// What the hover candidate choice guarantees: a selected option comes from
/// the preferred list and is available; `None` means no listed option is.
pub proof fn lemma_first_available_sound(list: Seq<i64>, s: SessionSnapshot, my_id: i64)
    ensures
        match spec_first_available(list, s, my_id) {
            Some(c) => list.contains(c) && !spec_is_banned(s, c) && !spec_is_picked(s, my_id, c),
            None => forall|i: int|
                0 <= i < list.len() ==> spec_is_banned(s, #[trigger] list[i]) || spec_is_picked(
                    s,
                    my_id,
                    list[i],
                ),
        },
    decreases list.len(),
{
    if list.len() == 0 {
    } else if !spec_is_banned(s, list[0]) && !spec_is_picked(s, my_id, list[0]) {
        assert(list.contains(list[0]));
    } else {
        let rest = list.drop_first();
        lemma_first_available_sound(rest, s, my_id);
        match spec_first_available(rest, s, my_id) {
            Some(c) => {
                let i = choose|i: int| 0 <= i < rest.len() && rest[i] == c;
                assert(list[i + 1] == c);
                assert(list.contains(c));
            },
            None => {
                assert forall|i: int|
                    0 <= i < list.len() implies spec_is_banned(s, #[trigger] list[i])
                    || spec_is_picked(s, my_id, list[i]) by {
                    if i > 0 {
                        assert(rest[i - 1] == list[i]);
                    }
                }
            },
        }
    }
}

/// An option the remote service rejected is never offered again within the
/// same round: once `c` is on the failed list, the sweep never selects it.
pub proof fn lemma_failed_ban_never_retried(
    list: Seq<i64>,
    s: SessionSnapshot,
    failed: Seq<i64>,
    c: i64,
)
    ensures
        spec_next_ban_candidate(list, s, failed.push(c)) != Some(c),
    decreases list.len(),
{
    if list.len() == 0 {
    } else {
        assert(failed.push(c)[failed.len() as int] == c);
        assert(failed.push(c).contains(c));
        lemma_failed_ban_never_retried(list.drop_first(), s, failed, c);
    }
}

/// Ban-round reset law: when the controller observes ban-turn ownership go
/// true, then false, then true again within one session — with the ban-round
/// fields touched only by the per-tick bookkeeping in between — then at the
/// second `true` the failed-option list is empty and no ban counts as
/// completed.
pub proof fn lemma_ban_round_reset(m0: TurnMemory, m1: TurnMemory, m2: TurnMemory)
    requires
        m0.was_ban_turn,
        m1.was_ban_turn == false,
        m1.ban_completed == spec_round_ban_completed(m0, false),
        m1.failed_bans@ == spec_round_failed(m0, false),
        m2.was_ban_turn == true,
        m2.ban_completed == spec_round_ban_completed(m1, true),
        m2.failed_bans@ == spec_round_failed(m1, true),
    ensures
        !m2.ban_completed,
        m2.failed_bans@ == Seq::<i64>::empty(),
{
}

/// Feature toggles the controller consults each tick.
#[derive(Debug, Clone, Copy, PartialEq, Eq, Structural)]
pub struct Toggles {
    pub hover_enabled: bool,
    pub ban_enabled: bool,
    pub lock_enabled: bool,
}

/// The human-readable classification of one tick, for the status line.
#[derive(Debug, Clone, Copy, PartialEq, Eq, Structural)]
pub enum Status {
    /// It is the local participant's turn but no preferences are configured.
    NoPreferences,
    /// Strict ban-turn signal, with the roster-assigned role when known.
    BanTurn { role: Option<Role> },
    /// Strict pick-turn signal, with the roster-assigned role when known.
    PickTurn { role: Option<Role> },
    /// Not the local participant's turn.
    Waiting,
}

/// What one tick decided. The caller resolves the parts in this order: the
/// ban sweep first, then the hover write, then the lock attempt, so one tick
/// never locks before it bans.
#[derive(Debug, Clone, Copy, PartialEq, Eq, Structural)]
pub struct TickPlan {
    /// Run the ban sweep: submit candidates from `next_ban_candidate`,
    /// folding each outcome in with `record_ban_outcome`, until one succeeds
    /// or no candidate is left.
    pub run_ban_sweep: bool,
    /// Submit one hover write for this option (already checked available).
    pub hover: Option<i64>,
    /// Attempt the lock sequence: lock the associated option, falling back to
    /// hover-then-lock of the first available preferred option.
    pub attempt_lock: bool,
    /// The role whose preference lists drive this tick's actions (roster
    /// assignment, or the fallback role); `None` when nothing is configured.
    pub role: Option<Role>,
    /// What the status line should say.
    pub status: Status,
}

/// The role the roster assigns to the local participant, when its name is a
/// known role.
pub open spec fn spec_assigned_role(s: SessionSnapshot, my_id: i64) -> Option<Role> {
    match spec_current_role(s.my_team@, my_id) {
        Some(p) => spec_role_of(p),
        None => None,
    }
}

/// The role whose preferences drive this tick: the roster-assigned role when
/// known, otherwise the fallback role with non-empty preferences. `None`
/// means no preferences are configured at all.
pub open spec fn spec_effective_role(
    s: SessionSnapshot,
    my_id: i64,
    prefs: ChampionPreferences,
) -> Option<Role> {
    match spec_assigned_role(s, my_id) {
        Some(r) => Some(r),
        None => spec_fallback_role(prefs),
    }
}

/// The status line classification of one tick.
pub open spec fn spec_status(
    ban_turn: bool,
    pick_turn: bool,
    shown_role: Option<Role>,
    have_prefs: bool,
) -> Status {
    if !have_prefs && (ban_turn || pick_turn) {
        Status::NoPreferences
    } else if ban_turn {
        Status::BanTurn { role: shown_role }
    } else if pick_turn {
        Status::PickTurn { role: shown_role }
    } else {
        Status::Waiting
    }
}

/// Normalized view of the memory a tick starts from: a first sighting of a
/// session starts from cleared attempt state.
pub open spec fn spec_entry_ban_completed(m: TurnMemory) -> bool {
    m.in_session && m.ban_completed
}

pub open spec fn spec_entry_hover_attempted(m: TurnMemory) -> bool {
    m.in_session && m.hover_attempted
}

pub open spec fn spec_entry_lock_attempted(m: TurnMemory) -> bool {
    m.in_session && m.lock_attempted
}

pub open spec fn spec_entry_was_ban_turn(m: TurnMemory) -> bool {
    m.in_session && m.was_ban_turn
}

pub open spec fn spec_entry_failed(m: TurnMemory) -> Seq<i64> {
    if m.in_session {
        m.failed_bans@
    } else {
        Seq::empty()
    }
}

pub open spec fn spec_entry_last_ban(m: TurnMemory) -> Option<u64> {
    if m.in_session {
        m.last_ban_attempt_ms
    } else {
        None
    }
}

/// One controller tick over a fresh in-session snapshot: bring the memory up
/// to date (session entry, ban-round reset) and decide which submissions to
/// make. Policy order within the returned plan is ban, then hover, then lock.
pub fn tick(
    s: &SessionSnapshot,
    my_id: i64,
    mem: &mut TurnMemory,
    prefs: &ChampionPreferences,
    toggles: Toggles,
    now_ms: u64,
    lock_low_water_secs: u64,
) -> (plan: TickPlan)
    ensures
        ({
            let ban_turn = spec_is_my_turn(*s, my_id, ActionKind::Ban);
            let pick_turn = spec_is_my_turn(*s, my_id, ActionKind::Pick);
            let role = spec_effective_role(*s, my_id, *prefs);
            let reset = spec_entry_was_ban_turn(*old(mem)) && !ban_turn;
            let completed1 = !reset && spec_entry_ban_completed(*old(mem));
            let failed1 = if reset {
                Seq::<i64>::empty()
            } else {
                spec_entry_failed(*old(mem))
            };
            let hover_fires = role is Some && toggles.hover_enabled && !spec_entry_hover_attempted(
                *old(mem),
            );
            let lock_fires = role is Some && spec_lock_fires(
                toggles.lock_enabled,
                spec_entry_lock_attempted(*old(mem)),
                spec_has_actionable(s.actions@, my_id, ActionKind::Pick),
                spec_time_left_secs(*s),
                lock_low_water_secs,
            );
            let ban_fires = role is Some && spec_ban_fires(
                toggles.ban_enabled,
                completed1,
                spec_has_actionable(s.actions@, my_id, ActionKind::Ban),
                spec_entry_last_ban(*old(mem)),
                now_ms,
            );
            &&& final(mem).in_session
            &&& final(mem).was_ban_turn == ban_turn
            &&& final(mem).ban_completed == completed1
            &&& final(mem).failed_bans@ == failed1
            &&& final(mem).hover_attempted == (spec_entry_hover_attempted(*old(mem))
                || hover_fires)
            &&& final(mem).lock_attempted == (spec_entry_lock_attempted(*old(mem)) || lock_fires)
            &&& final(mem).last_ban_attempt_ms == spec_entry_last_ban(*old(mem))
            &&& plan.run_ban_sweep == ban_fires
            &&& plan.attempt_lock == lock_fires
            &&& plan.role == role
            &&& plan.hover == (if hover_fires {
                spec_first_available(
                    prefs.spec_role(role->Some_0).preferred_champions@,
                    *s,
                    my_id,
                )
            } else {
                None::<i64>
            })
            &&& plan.status == spec_status(
                ban_turn,
                pick_turn,
                spec_assigned_role(*s, my_id),
                role is Some,
            )
        }),
{
    mem.observe_entry();
    let ban_turn = is_my_turn(s, my_id, ActionKind::Ban);
    mem.update_ban_round(ban_turn);
    let pick_turn = is_my_turn(s, my_id, ActionKind::Pick);

    let pos = current_role(s, my_id);
    let assigned: Option<Role> = match &pos {
        Some(p) => role_from_str(p.as_str()),
        None => None,
    };
    let role: Option<Role> = match assigned {
        Some(r) => Some(r),
        None => fallback_role(prefs),
    };

    let status = if role.is_none() && (ban_turn || pick_turn) {
        Status::NoPreferences
    } else if ban_turn {
        Status::BanTurn { role: assigned }
    } else if pick_turn {
        Status::PickTurn { role: assigned }
    } else {
        Status::Waiting
    };

    match role {
        None => TickPlan {
            run_ban_sweep: false,
            hover: None,
            attempt_lock: false,
            role: None,
            status,
        },
        Some(r) => {
            let rp = prefs.role_prefs(r);
            let ban_pending = has_pending(s, my_id, ActionKind::Ban);
            let run_ban_sweep = toggles.ban_enabled && !mem.ban_completed && ban_pending
                && mem.ban_cooldown_ok(now_ms);
            let hover = if toggles.hover_enabled && !mem.hover_attempted {
                let c = hover_candidate(s, my_id, &rp.preferred_champions);
                mem.mark_hover_attempted();
                c
            } else {
                None
            };
            let pick_pending = has_pending(s, my_id, ActionKind::Pick);
            let tl = time_left_secs(s);
            let attempt_lock = toggles.lock_enabled && !mem.lock_attempted && pick_pending && tl
                <= lock_low_water_secs;
            if attempt_lock {
                mem.mark_lock_attempted();
            }
            TickPlan { run_ban_sweep, hover, attempt_lock, role: Some(r), status }
        },
    }
}

} // verus!
