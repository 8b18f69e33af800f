use auto_scuttle::session::ALREADY_RUNNING;
use auto_scuttle::{
    get_scuttle_status, start_scuttle, stop_scuttle, AttemptCheck, ScuttleState, Verdict,
    MAX_ATTEMPTS,
};

#[test]
fn new_session_is_idle() {
    let state = ScuttleState::new();
    assert!(!state.running());
    assert_eq!(state.attempts(), 0);
    assert_eq!(state.target_server(), None);
    assert_eq!(get_scuttle_status(&state), Ok((false, 0)));
}

#[test]
fn default_session_is_idle() {
    let state = ScuttleState::default();
    assert!(!state.running());
    assert_eq!(state.attempts(), 0);
    assert_eq!(state.target_server(), None);
}

#[test]
fn max_attempts_is_ten() {
    assert_eq!(MAX_ATTEMPTS, 10);
}

#[test]
fn start_claims_the_session() {
    let mut state = ScuttleState::new();
    assert_eq!(start_scuttle(&mut state, "srv-7".to_string()), Ok(()));
    assert!(state.running());
    assert_eq!(state.attempts(), 0);
    assert_eq!(state.target_server(), Some(&"srv-7".to_string()));
    assert_eq!(get_scuttle_status(&state), Ok((true, 0)));
}

#[test]
fn second_start_is_rejected_and_changes_nothing() {
    let mut state = ScuttleState::new();
    assert_eq!(start_scuttle(&mut state, "srv-7".to_string()), Ok(()));
    assert_eq!(state.begin_attempt(), AttemptCheck::Proceed { attempt: 1 });
    assert_eq!(
        start_scuttle(&mut state, "srv-8".to_string()),
        Err("already_running".to_string())
    );
    assert!(state.running());
    assert_eq!(state.attempts(), 1);
    assert_eq!(state.target_server(), Some(&"srv-7".to_string()));
}

#[test]
fn already_running_message() {
    assert_eq!(ALREADY_RUNNING, "already_running");
}

#[test]
fn stop_empties_the_session() {
    let mut state = ScuttleState::new();
    assert_eq!(start_scuttle(&mut state, "srv-7".to_string()), Ok(()));
    assert_eq!(state.begin_attempt(), AttemptCheck::Proceed { attempt: 1 });
    assert_eq!(state.begin_attempt(), AttemptCheck::Proceed { attempt: 2 });
    assert_eq!(stop_scuttle(&mut state), Ok(()));
    assert!(!state.running());
    assert_eq!(state.attempts(), 0);
    assert_eq!(state.target_server(), None);
    assert_eq!(get_scuttle_status(&state), Ok((false, 0)));
}

#[test]
fn stop_on_an_idle_session_succeeds() {
    let mut state = ScuttleState::new();
    assert_eq!(stop_scuttle(&mut state), Ok(()));
    assert_eq!(get_scuttle_status(&state), Ok((false, 0)));
}

#[test]
fn start_after_stop_is_accepted_with_fresh_count() {
    let mut state = ScuttleState::new();
    assert_eq!(start_scuttle(&mut state, "srv-7".to_string()), Ok(()));
    assert_eq!(state.begin_attempt(), AttemptCheck::Proceed { attempt: 1 });
    assert_eq!(stop_scuttle(&mut state), Ok(()));
    assert_eq!(start_scuttle(&mut state, "srv-8".to_string()), Ok(()));
    assert_eq!(get_scuttle_status(&state), Ok((true, 0)));
    assert_eq!(state.target_server(), Some(&"srv-8".to_string()));
}

#[test]
fn status_follows_the_attempt_count() {
    let mut state = ScuttleState::new();
    assert_eq!(start_scuttle(&mut state, "srv-7".to_string()), Ok(()));
    for n in 1..=3u32 {
        assert_eq!(state.begin_attempt(), AttemptCheck::Proceed { attempt: n });
        assert_eq!(get_scuttle_status(&state), Ok((true, n)));
    }
}

#[test]
fn begin_attempt_without_a_run_is_cancelled() {
    let mut state = ScuttleState::new();
    assert_eq!(state.begin_attempt(), AttemptCheck::Cancelled);
    assert_eq!(get_scuttle_status(&state), Ok((false, 0)));
}

#[test]
fn eleventh_check_exhausts_and_keeps_the_count() {
    let mut state = ScuttleState::new();
    assert_eq!(start_scuttle(&mut state, "srv-9".to_string()), Ok(()));
    for n in 1..=10u32 {
        assert_eq!(state.begin_attempt(), AttemptCheck::Proceed { attempt: n });
        assert!(state.running());
    }
    assert_eq!(state.begin_attempt(), AttemptCheck::Exhausted { attempts: 10 });
    assert!(!state.running());
    assert_eq!(state.attempts(), 10);
    assert_eq!(state.target_server(), None);
    assert_eq!(state.begin_attempt(), AttemptCheck::Cancelled);
    assert_eq!(state.attempts(), 10);
}

#[test]
fn matching_observation_ends_the_run() {
    let mut state = ScuttleState::new();
    assert_eq!(start_scuttle(&mut state, "srv-7".to_string()), Ok(()));
    assert_eq!(state.begin_attempt(), AttemptCheck::Proceed { attempt: 1 });
    assert_eq!(state.judge_observation(&"srv-7".to_string()), Verdict::Matched);
    assert!(!state.running());
    assert_eq!(state.attempts(), 1);
    assert_eq!(state.target_server(), None);
}

#[test]
fn other_observation_changes_nothing() {
    let mut state = ScuttleState::new();
    assert_eq!(start_scuttle(&mut state, "srv-7".to_string()), Ok(()));
    assert_eq!(state.begin_attempt(), AttemptCheck::Proceed { attempt: 1 });
    assert_eq!(state.judge_observation(&"srv-3".to_string()), Verdict::Mismatch);
    assert_eq!(state.judge_observation(&"srv-70".to_string()), Verdict::Mismatch);
    assert_eq!(state.judge_observation(&"".to_string()), Verdict::Mismatch);
    assert!(state.running());
    assert_eq!(state.attempts(), 1);
    assert_eq!(state.target_server(), Some(&"srv-7".to_string()));
}

#[test]
fn observation_without_target_is_cancelled() {
    let mut state = ScuttleState::new();
    assert_eq!(state.judge_observation(&"srv-7".to_string()), Verdict::Cancelled);
    assert_eq!(start_scuttle(&mut state, "srv-7".to_string()), Ok(()));
    assert_eq!(stop_scuttle(&mut state), Ok(()));
    assert_eq!(state.judge_observation(&"srv-7".to_string()), Verdict::Cancelled);
    assert_eq!(get_scuttle_status(&state), Ok((false, 0)));
}

#[test]
fn restart_after_success_resets_the_count() {
    let mut state = ScuttleState::new();
    assert_eq!(start_scuttle(&mut state, "srv-7".to_string()), Ok(()));
    assert_eq!(state.begin_attempt(), AttemptCheck::Proceed { attempt: 1 });
    assert_eq!(state.judge_observation(&"srv-7".to_string()), Verdict::Matched);
    assert_eq!(get_scuttle_status(&state), Ok((false, 1)));
    assert_eq!(start_scuttle(&mut state, "srv-2".to_string()), Ok(()));
    assert_eq!(get_scuttle_status(&state), Ok((true, 0)));
}
