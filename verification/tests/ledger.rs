use rustweb::share::SharedState;
use rustweb::usage::UseInfo;

fn state(limit: [u64; 4]) -> SharedState {
    SharedState::new(String::new(), String::new(), limit, false, false, false)
}

#[test]
fn budget_after_three_charges() {
    let mut ss = state([100, 1_000_000, 10_000_000, 1_000_000]);
    let first = ss.u_budget("1.2.3.4".to_string());
    assert_eq!(first, [100, 1_000_000, 10_000_000, 1_000_000]);
    for _ in 0..3 {
        ss.u_inc("1.2.3.4", [1, 0, 500, 0]);
    }
    let budget = ss.u_budget("1.2.3.4".to_string());
    assert_eq!(budget, [97, 1_000_000, 10_000_000 - 1500, 1_000_000]);
}

#[test]
fn budget_is_all_zero_once_one_dimension_is_spent() {
    let mut ss = state([10, 100, 100, 100]);
    ss.u_budget("a".to_string());
    ss.u_inc("a", [1, 100, 5, 5]);
    assert_eq!(ss.u_budget("a".to_string()), [0, 0, 0, 0]);
}

#[test]
fn budget_never_rises_with_a_charge() {
    let mut ss = state([1000, 1000, 1000, 1000]);
    let mut last = ss.u_budget("u".to_string());
    for step in 0..20u64 {
        ss.u_inc("u", [step, 2 * step, 70, 1]);
        let now = ss.u_budget("u".to_string());
        for i in 0..4 {
            assert!(now[i] <= last[i]);
        }
        last = now;
    }
}

#[test]
fn charge_before_budget_is_not_counted() {
    let mut ss = state([10, 10, 10, 10]);
    ss.u_inc("nobody", [5, 5, 5, 5]);
    assert!(ss.usage("nobody").is_none());
    assert_eq!(ss.u_budget("nobody".to_string()), [10, 10, 10, 10]);
}

#[test]
fn charge_holds_at_the_largest_value() {
    let mut ss = state([10, 10, 10, 10]);
    ss.u_budget("big".to_string());
    ss.u_inc("big", [u64::MAX, 1, 0, 0]);
    ss.u_inc("big", [5, 1, 0, 0]);
    let info = ss.usage("big").unwrap();
    assert_eq!(info.used, [u64::MAX, 2, 0, 0]);
}

#[test]
fn overshoot_is_at_most_one_charge() {
    let mut ss = state([10, 10, 10, 10]);
    ss.u_budget("o".to_string());
    ss.u_inc("o", [9, 0, 0, 0]);
    assert_eq!(ss.u_budget("o".to_string())[0], 1);
    ss.u_inc("o", [500, 0, 0, 0]);
    let info = ss.usage("o").unwrap();
    assert_eq!(info.used[0], 509);
    assert!(info.used[0] <= info.limit[0] + 500);
}

#[test]
fn decay_takes_a_tenth_and_one() {
    let mut info = UseInfo { used: [100, 9, 1, 0], limit: [1, 1, 1, 1] };
    assert!(info.decay());
    assert_eq!(info.used, [89, 8, 0, 0]);
    assert_eq!(info.limit, [1, 1, 1, 1]);
}

#[test]
fn decay_reaches_zero_and_stays_there() {
    let mut info = UseInfo { used: [u64::MAX, 12345, 10, 1], limit: [0; 4] };
    let mut steps = 1;
    while info.decay() {
        steps += 1;
    }
    // The largest counter needs every one of the steps, and no more.
    assert_eq!(steps, rustweb::usage::DECAY_STEPS);
    assert_eq!(steps, 404);
    assert_eq!(info.used, [0, 0, 0, 0]);
    assert!(!info.decay());
    assert_eq!(info.used, [0, 0, 0, 0]);
}

#[test]
fn sweep_drops_users_without_usage() {
    let mut ss = state([100, 100, 100, 100]);
    ss.u_budget("idle".to_string());
    ss.u_budget("busy".to_string());
    ss.u_inc("busy", [50, 0, 0, 0]);
    ss.u_inc("idle", [1, 0, 0, 0]);
    ss.u_decay();
    assert!(ss.usage("idle").is_none());
    assert_eq!(ss.usage("busy").unwrap().used, [44, 0, 0, 0]);
    assert_eq!(ss.u_budget("busy".to_string()), [56, 100, 100, 100]);
}

#[test]
fn sweep_raises_the_budget() {
    let mut ss = state([100, 100, 100, 100]);
    ss.u_budget("u".to_string());
    ss.u_inc("u", [100, 20, 0, 0]);
    assert_eq!(ss.u_budget("u".to_string()), [0, 0, 0, 0]);
    ss.u_decay();
    assert_eq!(ss.u_budget("u".to_string()), [11, 83, 100, 100]);
}

#[test]
fn set_limits_on_a_fresh_user_reports_no_excess() {
    let mut ss = state([100, 100, 100, 100]);
    assert!(!ss.u_set_limits("fresh".to_string(), [1, 1, 1, 1]));
    ss.u_inc("fresh", [1, 0, 0, 0]);
    assert!(ss.u_set_limits("fresh".to_string(), [1, 1, 1, 1]));
    assert!(!ss.u_set_limits("fresh".to_string(), [2, 1, 1, 1]));
}

#[test]
fn set_limits_reports_excess() {
    let mut ss = state([100, 100, 100, 100]);
    ss.u_budget("u".to_string());
    ss.u_inc("u", [5, 5, 5, 5]);
    assert!(!ss.u_set_limits("u".to_string(), [6, 6, 6, 6]));
    assert_eq!(ss.u_budget("u".to_string()), [1, 1, 1, 1]);
    assert!(ss.u_set_limits("u".to_string(), [6, 5, 6, 6]));
    assert_eq!(ss.u_budget("u".to_string()), [0, 0, 0, 0]);
}

#[test]
fn set_limits_makes_a_record() {
    let mut ss = state([100, 100, 100, 100]);
    assert!(!ss.u_set_limits("new".to_string(), [7, 8, 9, 10]));
    assert_eq!(ss.usage("new").unwrap().limit, [7, 8, 9, 10]);
    assert_eq!(ss.u_budget("new".to_string()), [7, 8, 9, 10]);
}

#[test]
fn record_without_limit_gets_the_default() {
    let mut ss = state([3, 4, 5, 6]);
    assert!(ss.u_set_limits("z".to_string(), [0, 1, 1, 1]));
    assert_eq!(ss.u_budget("z".to_string()), [3, 4, 5, 6]);
}

#[test]
fn users_are_told_apart() {
    let mut ss = state([10, 10, 10, 10]);
    ss.u_budget("a".to_string());
    ss.u_budget("b".to_string());
    ss.u_inc("a", [4, 0, 0, 0]);
    assert_eq!(ss.u_budget("a".to_string())[0], 6);
    assert_eq!(ss.u_budget("b".to_string())[0], 10);
}

#[test]
fn master_has_no_source() {
    assert!(state([1; 4]).is_master);
    let replica =
        SharedState::new("http://m".to_string(), "c=1".to_string(), [1; 4], true, false, true);
    assert!(!replica.is_master);
    assert!(replica.tracetime);
    assert!(!replica.tracedos);
    assert!(replica.tracemem);
}

#[test]
fn use_info_budget_and_limit_check() {
    let info = UseInfo { used: [1, 2, 3, 4], limit: [5, 5, 5, 5] };
    assert_eq!(info.budget(), [4, 3, 2, 1]);
    assert!(info.within_limit());
    let spent = UseInfo { used: [1, 2, 3, 5], limit: [5, 5, 5, 5] };
    assert_eq!(spent.budget(), [0, 0, 0, 0]);
    assert!(!spent.within_limit());
    let fresh = UseInfo::default();
    assert_eq!(fresh.used, [0; 4]);
    assert_eq!(fresh.limit, [0; 4]);
}
