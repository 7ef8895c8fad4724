use lcu_autopilot::accept::AcceptStep;
use lcu_autopilot::accept::accept_decision;
use lcu_autopilot::accept::is_match_ready;

#[test]
fn disabled_wins_over_everything() {
    assert_eq!(accept_decision(false, true, false, true, 5), AcceptStep::Disabled);
}

#[test]
fn disconnected_waits_for_the_client() {
    assert_eq!(accept_decision(true, false, false, true, 5), AcceptStep::AwaitClient);
}

#[test]
fn found_match_is_accepted_with_the_configured_delay() {
    assert_eq!(accept_decision(true, true, false, true, 0), AcceptStep::Accept { delay_secs: 0 });
    assert_eq!(accept_decision(true, true, true, true, 7), AcceptStep::Accept { delay_secs: 7 });
}

#[test]
fn waiting_cedes_the_status_line_during_a_session() {
    assert_eq!(
        accept_decision(true, true, false, false, 0),
        AcceptStep::AwaitMatch { keep_status: false }
    );
    assert_eq!(
        accept_decision(true, true, true, false, 0),
        AcceptStep::AwaitMatch { keep_status: true }
    );
}

#[test]
fn ready_check_state_names_a_found_match() {
    assert!(is_match_ready("InProgress"));
    assert!(!is_match_ready("Invalid"));
    assert!(!is_match_ready("inprogress"));
    assert!(!is_match_ready(""));
}
