//! User preferences: per-role option priority lists, the persisted settings
//! record, and the mapping from the session's assigned-position names to roles.

use vstd::prelude::*;

verus! {

/// Ordered option preferences for one role. Order is priority: the first
/// available entry wins. `preferred_champions` drives hovering and locking,
/// `auto_ban_champions` drives banning.
#[derive(Debug, Clone)]
pub struct RolePreferences {
    pub preferred_champions: Vec<i64>,
    pub auto_ban_champions: Vec<i64>,
}

impl Default for RolePreferences {
    /// Empty priority lists: no automatic action is taken for the role.
    fn default() -> (r: Self)
        ensures
            r.preferred_champions@ == Seq::<i64>::empty(),
            r.auto_ban_champions@ == Seq::<i64>::empty(),
    {
        RolePreferences { preferred_champions: Vec::new(), auto_ban_champions: Vec::new() }
    }
}

/// The five assignable roles of a team roster.
#[derive(Debug, Clone, Copy, PartialEq, Eq, Structural)]
pub enum Role {
    Top,
    Jungle,
    Mid,
    Adc,
    Support,
}

/// Preference lists for every role.
#[derive(Debug, Clone)]
pub struct ChampionPreferences {
    pub top: RolePreferences,
    pub jungle: RolePreferences,
    pub mid: RolePreferences,
    pub adc: RolePreferences,
    pub support: RolePreferences,
}

impl ChampionPreferences {
    /// The preference record assigned to `role`.
    pub open spec fn spec_role(&self, role: Role) -> RolePreferences {
        match role {
            Role::Top => self.top,
            Role::Jungle => self.jungle,
            Role::Mid => self.mid,
            Role::Adc => self.adc,
            Role::Support => self.support,
        }
    }

    /// Read the preference record of one role.
    pub fn role_prefs(&self, role: Role) -> (r: &RolePreferences)
        ensures
            *r == self.spec_role(role),
    {
        match role {
            Role::Top => &self.top,
            Role::Jungle => &self.jungle,
            Role::Mid => &self.mid,
            Role::Adc => &self.adc,
            Role::Support => &self.support,
        }
    }

    /// Replace the preference record of one role, leaving the others as they were.
    pub fn set_role(&mut self, role: Role, prefs: RolePreferences)
        ensures
            final(self).spec_role(role) == prefs,
            forall|o: Role| o != role ==> final(self).spec_role(o) == old(self).spec_role(o),
    {
        match role {
            Role::Top => self.top = prefs,
            Role::Jungle => self.jungle = prefs,
            Role::Mid => self.mid = prefs,
            Role::Adc => self.adc = prefs,
            Role::Support => self.support = prefs,
        }
    }
}

impl Default for ChampionPreferences {
    /// Empty preference lists for every role.
    fn default() -> (r: Self)
        ensures
            forall|role: Role|
                #[trigger] r.spec_role(role).preferred_champions@ == Seq::<i64>::empty()
                    && r.spec_role(role).auto_ban_champions@ == Seq::<i64>::empty(),
    {
        ChampionPreferences {
            top: RolePreferences::default(),
            jungle: RolePreferences::default(),
            mid: RolePreferences::default(),
            adc: RolePreferences::default(),
            support: RolePreferences::default(),
        }
    }
}

/// Settings that persist across process restarts.
#[derive(Debug, Clone)]
pub struct UserSettings {
    pub champion_preferences: ChampionPreferences,
    pub auto_hover_enabled: bool,
    pub auto_select_enabled: bool,
    pub auto_ban_enabled: bool,
    pub accept_delay_seconds: u64,
}

impl Default for UserSettings {
    /// Every automatic feature on, no accept delay, empty preferences.
    fn default() -> (r: Self)
        ensures
            r.auto_hover_enabled,
            r.auto_select_enabled,
            r.auto_ban_enabled,
            r.accept_delay_seconds == 0,
            forall|role: Role|
                #[trigger] r.champion_preferences.spec_role(role).preferred_champions@
                    == Seq::<i64>::empty()
                    && r.champion_preferences.spec_role(role).auto_ban_champions@
                    == Seq::<i64>::empty(),
    {
        UserSettings {
            champion_preferences: ChampionPreferences::default(),
            auto_hover_enabled: true,
            auto_select_enabled: true,
            auto_ban_enabled: true,
            accept_delay_seconds: 0,
        }
    }
}

/// True when either priority list of `p` is non-empty.
pub open spec fn spec_has_prefs(p: RolePreferences) -> bool {
    p.preferred_champions@.len() > 0 || p.auto_ban_champions@.len() > 0
}

/// The role used when the roster assigns none: the first role, in a fixed
/// priority order, whose preference record is non-empty.
pub open spec fn spec_fallback_role(prefs: ChampionPreferences) -> Option<Role> {
    if spec_has_prefs(prefs.mid) {
        Some(Role::Mid)
    } else if spec_has_prefs(prefs.top) {
        Some(Role::Top)
    } else if spec_has_prefs(prefs.jungle) {
        Some(Role::Jungle)
    } else if spec_has_prefs(prefs.adc) {
        Some(Role::Adc)
    } else if spec_has_prefs(prefs.support) {
        Some(Role::Support)
    } else {
        None
    }
}

fn has_prefs(p: &RolePreferences) -> (r: bool)
    ensures
        r == spec_has_prefs(*p),
{
    p.preferred_champions.len() > 0 || p.auto_ban_champions.len() > 0
}

/// Pick the fallback role for a roster without a usable assignment.
pub fn fallback_role(prefs: &ChampionPreferences) -> (r: Option<Role>)
    ensures
        r == spec_fallback_role(*prefs),
{
    if has_prefs(&prefs.mid) {
        Some(Role::Mid)
    } else if has_prefs(&prefs.top) {
        Some(Role::Top)
    } else if has_prefs(&prefs.jungle) {
        Some(Role::Jungle)
    } else if has_prefs(&prefs.adc) {
        Some(Role::Adc)
    } else if has_prefs(&prefs.support) {
        Some(Role::Support)
    } else {
        None
    }
}

/// String equality via the character sequences of the two operands.
pub(crate) fn str_eq(a: &str, b: &str) -> (r: bool)
    ensures
        r == (a@ == b@),
{
    let sa: String = a.to_owned();
    let sb: String = b.to_owned();
    sa == sb
}

/// The role named by an assigned-position string, in any of the spellings the
/// session is known to use.
pub open spec fn spec_role_of(s: Seq<char>) -> Option<Role> {
    if s == "TOP"@ || s == "top"@ {
        Some(Role::Top)
    } else if s == "JUNGLE"@ || s == "jungle"@ {
        Some(Role::Jungle)
    } else if s == "MIDDLE"@ || s == "middle"@ || s == "MID"@ || s == "mid"@ {
        Some(Role::Mid)
    } else if s == "BOTTOM"@ || s == "bottom"@ || s == "ADC"@ || s == "adc"@ {
        Some(Role::Adc)
    } else if s == "UTILITY"@ || s == "utility"@ || s == "SUPPORT"@ || s == "support"@ {
        Some(Role::Support)
    } else {
        None
    }
}

/// Map an assigned-position name to a role; `None` for an unknown name.
pub fn role_from_str(s: &str) -> (r: Option<Role>)
    ensures
        r == spec_role_of(s@),
{
    if str_eq(s, "TOP") || str_eq(s, "top") {
        Some(Role::Top)
    } else if str_eq(s, "JUNGLE") || str_eq(s, "jungle") {
        Some(Role::Jungle)
    } else if str_eq(s, "MIDDLE") || str_eq(s, "middle") || str_eq(s, "MID") || str_eq(s, "mid") {
        Some(Role::Mid)
    } else if str_eq(s, "BOTTOM") || str_eq(s, "bottom") || str_eq(s, "ADC") || str_eq(s, "adc") {
        Some(Role::Adc)
    } else if str_eq(s, "UTILITY") || str_eq(s, "utility") || str_eq(s, "SUPPORT") || str_eq(
        s,
        "support",
    ) {
        Some(Role::Support)
    } else {
        None
    }
}

} // verus!
