use intelligent_routing::accelerator::Accelerator;
use intelligent_routing::request::Request;
use intelligent_routing::router::LoadBalancingStrategy;
use intelligent_routing::strategies::least_connections::LeastConnections;
use intelligent_routing::strategies::p2c::{pick_of_two, PowerOfTwoChoices};
use intelligent_routing::strategies::round_robin::{round_robin_pick, RoundRobin};
use intelligent_routing::strategies::Strategy;

fn pool_with_loads(loads: &[u32], capacity: u32) -> Vec<Accelerator> {
    let mut pool = Vec::new();
    for (i, &load) in loads.iter().enumerate() {
        let mut acc = Accelerator::new(i, capacity);
        acc.update_load(load);
        pool.push(acc);
    }
    pool
}

#[test]
fn round_robin_visits_each_index_once_in_order() {
    let pool = pool_with_loads(&[0, 0, 0, 0], 10);
    let rr = RoundRobin::new();
    let req = Request::new(0, 1, 1);
    let picks: Vec<Option<usize>> = (0..4).map(|_| rr.select_accelerator(&pool, &req)).collect();
    assert_eq!(picks, vec![Some(0), Some(1), Some(2), Some(3)]);
    assert_eq!(rr.select_accelerator(&pool, &req), Some(0));
}

#[test]
fn round_robin_pick_starts_at_cursor_mod_len() {
    let pool = pool_with_loads(&[0, 0, 0], 10);
    let picks: Vec<Option<usize>> = (7..10).map(|c| round_robin_pick(&pool, c)).collect();
    assert_eq!(picks, vec![Some(1), Some(2), Some(0)]);
}

#[test]
fn round_robin_skips_unavailable_with_wraparound() {
    let pool = pool_with_loads(&[0, 10, 10, 0], 10);
    assert_eq!(round_robin_pick(&pool, 1), Some(3));
    assert_eq!(round_robin_pick(&pool, 2), Some(3));
    let pool = pool_with_loads(&[0, 10, 10, 10], 10);
    assert_eq!(round_robin_pick(&pool, 2), Some(0));
}

#[test]
fn round_robin_declines_when_nothing_available() {
    let pool = pool_with_loads(&[10, 10], 10);
    assert_eq!(round_robin_pick(&pool, 5), None);
    let rr = RoundRobin::new();
    assert_eq!(rr.select_accelerator(&pool, &Request::new(0, 1, 1)), None);
}

#[test]
fn round_robin_cursor_advances_once_per_call() {
    let pool = pool_with_loads(&[10, 0, 0], 10);
    let rr = RoundRobin::new();
    let req = Request::new(0, 1, 1);
    // cursor 0 probes 0 (full) then 1; cursor 1 picks 1; cursor 2 picks 2
    assert_eq!(rr.select_accelerator(&pool, &req), Some(1));
    assert_eq!(rr.select_accelerator(&pool, &req), Some(1));
    assert_eq!(rr.select_accelerator(&pool, &req), Some(2));
}

#[test]
fn least_connections_picks_global_minimum() {
    let pool = pool_with_loads(&[5, 2, 8], 10);
    let lc = LeastConnections::new();
    assert_eq!(lc.select_accelerator(&pool, &Request::new(0, 1, 1)), Some(1));
}

#[test]
fn least_connections_breaks_ties_by_lowest_index() {
    let pool = pool_with_loads(&[4, 3, 3, 7], 10);
    let lc = LeastConnections::new();
    assert_eq!(lc.select_accelerator(&pool, &Request::new(0, 1, 1)), Some(1));
}

#[test]
fn least_connections_ignores_unavailable() {
    let mut pool = pool_with_loads(&[1, 2, 10], 10);
    pool[0].health_status = false;
    let lc = LeastConnections::new();
    assert_eq!(lc.select_accelerator(&pool, &Request::new(0, 1, 1)), Some(1));
    pool[1].health_status = false;
    assert_eq!(lc.select_accelerator(&pool, &Request::new(0, 1, 1)), None);
}

#[test]
fn pick_of_two_decision_table() {
    let pool = pool_with_loads(&[10, 3, 10, 5, 3], 10);
    assert_eq!(pick_of_two(&pool, 0, 1), Some(1));
    assert_eq!(pick_of_two(&pool, 0, 2), None);
    assert_eq!(pick_of_two(&pool, 3, 2), Some(3));
    assert_eq!(pick_of_two(&pool, 3, 1), Some(1));
    assert_eq!(pick_of_two(&pool, 1, 3), Some(1));
    assert_eq!(pick_of_two(&pool, 4, 1), Some(4));
    assert_eq!(pick_of_two(&pool, 1, 4), Some(1));
    assert_eq!(pick_of_two(&pool, 3, 3), Some(3));
}

#[test]
fn p2c_on_single_accelerator_picks_it() {
    let pool = pool_with_loads(&[0], 10);
    let p2c = PowerOfTwoChoices::new();
    for _ in 0..50 {
        assert_eq!(p2c.select_accelerator(&pool, &Request::new(0, 1, 1)), Some(0));
    }
}

#[test]
fn p2c_never_returns_unavailable() {
    let pool = pool_with_loads(&[10, 4, 10, 2, 10, 10], 10);
    let p2c = PowerOfTwoChoices::new();
    for _ in 0..500 {
        match p2c.select_accelerator(&pool, &Request::new(0, 1, 1)) {
            Some(i) => assert!(pool[i].is_available()),
            None => {}
        }
    }
}

#[test]
fn every_strategy_declines_an_empty_pool() {
    let pool: Vec<Accelerator> = Vec::new();
    let req = Request::new(0, 1, 1);
    assert_eq!(RoundRobin::new().select_accelerator(&pool, &req), None);
    assert_eq!(LeastConnections::new().select_accelerator(&pool, &req), None);
    assert_eq!(PowerOfTwoChoices::new().select_accelerator(&pool, &req), None);
}

#[test]
fn strategy_from_known_names() {
    assert!(matches!(Strategy::from_name("round_robin"), Ok(Strategy::RoundRobin(_))));
    assert!(matches!(Strategy::from_name("least_connections"), Ok(Strategy::LeastConnections(_))));
    assert!(matches!(Strategy::from_name("p2c"), Ok(Strategy::PowerOfTwoChoices(_))));
}

#[test]
fn strategy_from_unknown_name_fails() {
    for name in ["", "random", "p2", "round_robin ", "P2C"] {
        match Strategy::from_name(name) {
            Err(e) => assert_eq!(e, "Unknown strategy"),
            Ok(_) => panic!("accepted {:?}", name),
        }
    }
}
