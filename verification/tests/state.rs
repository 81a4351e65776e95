use fusionsolar_rs::state::{FusionsolarConfig, StateData, API_URL};

fn state(interval: u64) -> StateData {
    StateData::new(FusionsolarConfig {
        api_url: API_URL.to_string(),
        username: "user".to_string(),
        password: "secret".to_string(),
        interval,
    })
}

#[test]
fn new_state_has_no_timestamp() {
    let state = state(300);
    assert_eq!("https://eu5.fusionsolar.huawei.com/thirdData", state.api.api_url);
    assert_eq!("user", state.api.username);
    assert_eq!("secret", state.api.password);
    assert_eq!(300, state.interval);
    assert_eq!(None, state.timestamp);
}

#[test]
fn should_collect_without_timestamp() {
    let state = state(300);
    assert!(state.should_collect(0));
    assert!(state.should_collect(1_000_000));
    assert!(state.interval_elapsed(5, u64::MAX));
}

#[test]
fn should_not_collect_right_after_touch() {
    let mut state = state(300);
    state.touch(1000);
    assert_eq!(Some(1000), state.timestamp);
    assert!(!state.should_collect(1010));
    assert!(!state.interval_elapsed(1010, 300));
}

#[test]
fn should_collect_once_interval_exceeded() {
    let mut state = state(300);
    state.touch(1000);
    assert!(!state.should_collect(1300));
    assert!(state.should_collect(1301));
    assert!(state.should_collect(5000));
}

#[test]
fn clock_that_went_backward_counts_as_no_time_passed() {
    let mut state = state(0);
    state.touch(1000);
    assert!(!state.should_collect(999));
    assert!(!state.should_collect(1000));
    assert!(state.should_collect(1001));
}

#[test]
fn touch_moves_the_timestamp() {
    let mut state = state(10);
    state.touch(5);
    state.touch(100);
    assert_eq!(Some(100), state.timestamp);
    assert!(!state.should_collect(110));
    assert!(state.should_collect(111));
    assert_eq!(10, state.interval);
}

#[test]
fn interval_elapsed_does_not_overflow() {
    let mut state = state(u64::MAX);
    state.touch(0);
    assert!(!state.should_collect(u64::MAX));
    state.touch(u64::MAX);
    assert!(!state.interval_elapsed(u64::MAX, 0));
    assert!(!state.interval_elapsed(0, 0));
}
