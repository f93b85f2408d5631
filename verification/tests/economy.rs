use servercore::cache::{get_balance, SessionCache};
use servercore::economy::{add_to_balances, pay, remove_from_balances, reset_balances, set_balances};
use servercore::record::{SessionError, SessionRecord};

fn cache_with(balances: &[(&str, i64)]) -> SessionCache {
    let mut cache = SessionCache::new();
    for (id, balance) in balances {
        cache.insert(
            id,
            SessionRecord {
                nickname: id.to_uppercase(),
                baseline_playtime: 0,
                join_time: 0,
                balance: *balance,
            },
        );
    }
    cache
}

fn ids(names: &[&str]) -> Vec<String> {
    names.iter().map(|name| name.to_string()).collect()
}

#[test]
fn payment_moves_the_amount_from_payer_to_target() {
    let mut cache = cache_with(&[("a", 100), ("b", 50)]);
    assert_eq!(pay(&mut cache, "a", "b", 30), Ok(()));
    assert_eq!(get_balance(&cache, "a"), 70);
    assert_eq!(get_balance(&cache, "b"), 80);
}

#[test]
fn payment_above_the_balance_is_refused_and_changes_nothing() {
    let mut cache = cache_with(&[("a", 100), ("b", 50)]);
    assert_eq!(pay(&mut cache, "a", "b", 101), Err(SessionError::InvalidAmount));
    assert_eq!(get_balance(&cache, "a"), 100);
    assert_eq!(get_balance(&cache, "b"), 50);
}

#[test]
fn payment_of_the_whole_balance_goes_through() {
    let mut cache = cache_with(&[("a", 100), ("b", 50)]);
    assert_eq!(pay(&mut cache, "a", "b", 100), Ok(()));
    assert_eq!(get_balance(&cache, "a"), 0);
    assert_eq!(get_balance(&cache, "b"), 150);
}

#[test]
fn payment_of_nothing_goes_through() {
    let mut cache = cache_with(&[("a", 100), ("b", 50)]);
    assert_eq!(pay(&mut cache, "a", "b", 0), Ok(()));
    assert_eq!(get_balance(&cache, "a"), 100);
    assert_eq!(get_balance(&cache, "b"), 50);
}

#[test]
fn payment_of_a_negative_amount_is_refused() {
    let mut cache = cache_with(&[("a", 100), ("b", 50)]);
    assert_eq!(pay(&mut cache, "a", "b", -1), Err(SessionError::InvalidAmount));
    assert_eq!(pay(&mut cache, "a", "nobody", -1), Err(SessionError::InvalidAmount));
    assert_eq!(get_balance(&cache, "a"), 100);
    assert_eq!(get_balance(&cache, "b"), 50);
}

#[test]
fn payment_from_a_debt_is_refused() {
    let mut cache = cache_with(&[("a", -5), ("b", 50)]);
    assert_eq!(pay(&mut cache, "a", "b", 0), Err(SessionError::InvalidAmount));
    assert_eq!(get_balance(&cache, "a"), -5);
    assert_eq!(get_balance(&cache, "b"), 50);
}

#[test]
fn payment_without_a_payer_session() {
    let mut cache = cache_with(&[("b", 50)]);
    assert_eq!(pay(&mut cache, "a", "b", 10), Err(SessionError::InvalidAmount));
    assert_eq!(pay(&mut cache, "a", "b", 0), Err(SessionError::NoActiveSession));
    assert_eq!(get_balance(&cache, "b"), 50);
    assert_eq!(cache.get("a"), None);
}

#[test]
fn payment_without_a_target_session_changes_nothing() {
    let mut cache = cache_with(&[("a", 100)]);
    assert_eq!(pay(&mut cache, "a", "b", 30), Err(SessionError::NoActiveSession));
    assert_eq!(get_balance(&cache, "a"), 100);
    assert_eq!(cache.get("b"), None);
}

#[test]
fn payment_that_the_target_cannot_take_is_refused() {
    let mut cache = cache_with(&[("a", 100), ("b", i64::MAX - 10)]);
    assert_eq!(pay(&mut cache, "a", "b", 11), Err(SessionError::InvalidAmount));
    assert_eq!(get_balance(&cache, "a"), 100);
    assert_eq!(get_balance(&cache, "b"), i64::MAX - 10);
    assert_eq!(pay(&mut cache, "a", "b", 10), Ok(()));
    assert_eq!(get_balance(&cache, "a"), 90);
    assert_eq!(get_balance(&cache, "b"), i64::MAX);
}

#[test]
fn payment_to_oneself_leaves_the_balance() {
    let mut cache = cache_with(&[("a", 100)]);
    assert_eq!(pay(&mut cache, "a", "a", 30), Ok(()));
    assert_eq!(get_balance(&cache, "a"), 100);
    let mut rich = cache_with(&[("a", i64::MAX)]);
    assert_eq!(pay(&mut rich, "a", "a", i64::MAX), Ok(()));
    assert_eq!(get_balance(&rich, "a"), i64::MAX);
    assert_eq!(pay(&mut cache, "a", "a", 101), Err(SessionError::InvalidAmount));
}

#[test]
fn payment_keeps_the_sum_of_the_two_balances() {
    let mut cache = cache_with(&[("a", 1_000), ("b", 250), ("c", 7)]);
    for amount in [1_i64, 10, 100, 500, 389] {
        assert_eq!(pay(&mut cache, "a", "b", amount), Ok(()));
        assert_eq!(get_balance(&cache, "a") + get_balance(&cache, "b"), 1_250);
        assert_eq!(get_balance(&cache, "c"), 7);
    }
    assert_eq!(get_balance(&cache, "a"), 0);
    assert_eq!(get_balance(&cache, "b"), 1_250);
}

#[test]
fn set_balances_overwrites_each_target() {
    let mut cache = cache_with(&[("a", 100), ("b", 50), ("c", 7)]);
    assert_eq!(set_balances(&mut cache, &ids(&["a", "c"]), -40), Ok(()));
    assert_eq!(get_balance(&cache, "a"), -40);
    assert_eq!(get_balance(&cache, "b"), 50);
    assert_eq!(get_balance(&cache, "c"), -40);
}

#[test]
fn set_balances_of_nobody_changes_nothing() {
    let mut cache = cache_with(&[("a", 100)]);
    assert_eq!(set_balances(&mut cache, &ids(&[]), 5), Ok(()));
    assert_eq!(get_balance(&cache, "a"), 100);
}

#[test]
fn set_balances_stops_at_the_first_target_without_a_session() {
    let mut cache = cache_with(&[("a", 100), ("b", 50)]);
    assert_eq!(
        set_balances(&mut cache, &ids(&["a", "nobody", "b"]), 5),
        Err(SessionError::NoActiveSession)
    );
    assert_eq!(get_balance(&cache, "a"), 5);
    assert_eq!(get_balance(&cache, "b"), 50);
    assert_eq!(cache.get("nobody"), None);
}

#[test]
fn reset_balances_gives_the_starting_balance() {
    let mut cache = cache_with(&[("a", 100), ("b", 50)]);
    assert_eq!(reset_balances(&mut cache, &ids(&["b", "a"]), 2_500), Ok(()));
    assert_eq!(get_balance(&cache, "a"), 2_500);
    assert_eq!(get_balance(&cache, "b"), 2_500);
    assert_eq!(
        reset_balances(&mut cache, &ids(&["nobody"]), 1),
        Err(SessionError::NoActiveSession)
    );
}

#[test]
fn add_to_balances_adds_to_each_target() {
    let mut cache = cache_with(&[("a", 100), ("b", 50), ("c", 7)]);
    assert_eq!(add_to_balances(&mut cache, &ids(&["a", "b"]), 25), Ok(()));
    assert_eq!(get_balance(&cache, "a"), 125);
    assert_eq!(get_balance(&cache, "b"), 75);
    assert_eq!(get_balance(&cache, "c"), 7);
}

#[test]
fn add_to_balances_counts_a_target_each_time_it_is_named() {
    let mut cache = cache_with(&[("a", 100)]);
    assert_eq!(add_to_balances(&mut cache, &ids(&["a", "a", "a"]), 10), Ok(()));
    assert_eq!(get_balance(&cache, "a"), 130);
}

#[test]
fn add_to_balances_refuses_a_negative_amount() {
    let mut cache = cache_with(&[("a", 100)]);
    assert_eq!(
        add_to_balances(&mut cache, &ids(&["a"]), -1),
        Err(SessionError::InvalidAmount)
    );
    assert_eq!(
        add_to_balances(&mut cache, &ids(&[]), -1),
        Err(SessionError::InvalidAmount)
    );
    assert_eq!(get_balance(&cache, "a"), 100);
}

#[test]
fn add_to_balances_stops_at_the_first_failure() {
    let mut cache = cache_with(&[("a", 100), ("b", i64::MAX), ("c", 7)]);
    assert_eq!(
        add_to_balances(&mut cache, &ids(&["a", "b", "c"]), 1),
        Err(SessionError::InvalidAmount)
    );
    assert_eq!(get_balance(&cache, "a"), 101);
    assert_eq!(get_balance(&cache, "b"), i64::MAX);
    assert_eq!(get_balance(&cache, "c"), 7);
    assert_eq!(
        add_to_balances(&mut cache, &ids(&["c", "nobody", "a"]), 1),
        Err(SessionError::NoActiveSession)
    );
    assert_eq!(get_balance(&cache, "c"), 8);
    assert_eq!(get_balance(&cache, "a"), 101);
}

#[test]
fn remove_from_balances_takes_from_each_target() {
    let mut cache = cache_with(&[("a", 100), ("b", 50), ("c", 7)]);
    assert_eq!(remove_from_balances(&mut cache, &ids(&["a", "b"]), 60), Ok(()));
    assert_eq!(get_balance(&cache, "a"), 40);
    assert_eq!(get_balance(&cache, "b"), -10);
    assert_eq!(get_balance(&cache, "c"), 7);
}

#[test]
fn remove_from_balances_refuses_a_negative_amount() {
    let mut cache = cache_with(&[("a", 100)]);
    assert_eq!(
        remove_from_balances(&mut cache, &ids(&["a"]), -1),
        Err(SessionError::InvalidAmount)
    );
    assert_eq!(get_balance(&cache, "a"), 100);
}

#[test]
fn remove_from_balances_stops_at_the_first_failure() {
    let mut cache = cache_with(&[("a", 100), ("b", i64::MIN), ("c", 7)]);
    assert_eq!(
        remove_from_balances(&mut cache, &ids(&["a", "b", "c"]), 1),
        Err(SessionError::InvalidAmount)
    );
    assert_eq!(get_balance(&cache, "a"), 99);
    assert_eq!(get_balance(&cache, "b"), i64::MIN);
    assert_eq!(get_balance(&cache, "c"), 7);
    assert_eq!(
        remove_from_balances(&mut cache, &ids(&["nobody"]), i64::MAX),
        Err(SessionError::NoActiveSession)
    );
}

#[test]
fn balance_notice_is_singular_for_one_user() {
    assert_eq!(servercore::economy::balance_notice(1, "set"), "Balance set.");
    assert_eq!(servercore::economy::balance_notice(1, "reset"), "Balance reset.");
}

#[test]
fn balance_notice_is_plural_otherwise() {
    assert_eq!(servercore::economy::balance_notice(0, "increased"), "Balances increased.");
    assert_eq!(servercore::economy::balance_notice(2, "reduced"), "Balances reduced.");
    assert_eq!(servercore::economy::balance_notice(usize::MAX, "set"), "Balances set.");
}
