use lcu_autopilot::prefs::ChampionPreferences;
use lcu_autopilot::prefs::Role;
use lcu_autopilot::prefs::RolePreferences;
use lcu_autopilot::prefs::UserSettings;
use lcu_autopilot::prefs::fallback_role;
use lcu_autopilot::prefs::role_from_str;

#[test]
fn defaults_are_empty_and_features_on() {
    let r = RolePreferences::default();
    assert!(r.preferred_champions.is_empty());
    assert!(r.auto_ban_champions.is_empty());

    let s = UserSettings::default();
    assert!(s.auto_hover_enabled);
    assert!(s.auto_select_enabled);
    assert!(s.auto_ban_enabled);
    assert_eq!(s.accept_delay_seconds, 0);
    assert!(s.champion_preferences.mid.preferred_champions.is_empty());
}

#[test]
fn role_names_map_in_every_known_spelling() {
    assert_eq!(role_from_str("TOP"), Some(Role::Top));
    assert_eq!(role_from_str("top"), Some(Role::Top));
    assert_eq!(role_from_str("JUNGLE"), Some(Role::Jungle));
    assert_eq!(role_from_str("jungle"), Some(Role::Jungle));
    assert_eq!(role_from_str("MIDDLE"), Some(Role::Mid));
    assert_eq!(role_from_str("middle"), Some(Role::Mid));
    assert_eq!(role_from_str("MID"), Some(Role::Mid));
    assert_eq!(role_from_str("mid"), Some(Role::Mid));
    assert_eq!(role_from_str("BOTTOM"), Some(Role::Adc));
    assert_eq!(role_from_str("bottom"), Some(Role::Adc));
    assert_eq!(role_from_str("ADC"), Some(Role::Adc));
    assert_eq!(role_from_str("adc"), Some(Role::Adc));
    assert_eq!(role_from_str("UTILITY"), Some(Role::Support));
    assert_eq!(role_from_str("utility"), Some(Role::Support));
    assert_eq!(role_from_str("SUPPORT"), Some(Role::Support));
    assert_eq!(role_from_str("support"), Some(Role::Support));
    assert_eq!(role_from_str("Top"), None);
    assert_eq!(role_from_str(""), None);
    assert_eq!(role_from_str("FILL"), None);
}

#[test]
fn set_role_replaces_only_that_role() {
    let mut prefs = ChampionPreferences::default();
    prefs.set_role(
        Role::Jungle,
        RolePreferences { preferred_champions: vec![5], auto_ban_champions: vec![6] },
    );
    assert_eq!(prefs.role_prefs(Role::Jungle).preferred_champions, vec![5]);
    assert_eq!(prefs.role_prefs(Role::Jungle).auto_ban_champions, vec![6]);
    assert!(prefs.role_prefs(Role::Top).preferred_champions.is_empty());
    assert!(prefs.role_prefs(Role::Support).auto_ban_champions.is_empty());
}

#[test]
fn fallback_prefers_mid_then_top_then_jungle_then_adc_then_support() {
    let mut prefs = ChampionPreferences::default();
    assert_eq!(fallback_role(&prefs), None);
    prefs.set_role(
        Role::Support,
        RolePreferences { preferred_champions: Vec::new(), auto_ban_champions: vec![1] },
    );
    assert_eq!(fallback_role(&prefs), Some(Role::Support));
    prefs.set_role(
        Role::Adc,
        RolePreferences { preferred_champions: vec![2], auto_ban_champions: Vec::new() },
    );
    assert_eq!(fallback_role(&prefs), Some(Role::Adc));
    prefs.set_role(
        Role::Jungle,
        RolePreferences { preferred_champions: vec![3], auto_ban_champions: Vec::new() },
    );
    assert_eq!(fallback_role(&prefs), Some(Role::Jungle));
    prefs.set_role(
        Role::Top,
        RolePreferences { preferred_champions: vec![4], auto_ban_champions: Vec::new() },
    );
    assert_eq!(fallback_role(&prefs), Some(Role::Top));
    prefs.set_role(
        Role::Mid,
        RolePreferences { preferred_champions: vec![5], auto_ban_champions: Vec::new() },
    );
    assert_eq!(fallback_role(&prefs), Some(Role::Mid));
}
