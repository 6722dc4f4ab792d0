use trae_accounts::failover::{Failover, Verdict};
use trae_accounts::region::RegionEndpoint;

#[test]
fn two_way_swap_starts_at_the_current_endpoint() {
    assert_eq!(Failover::two_way_swap(RegionEndpoint::Us).target(), Some(RegionEndpoint::Us));
    assert_eq!(Failover::two_way_swap(RegionEndpoint::Sg).target(), Some(RegionEndpoint::Sg));
}

#[test]
fn swap_success_at_first_attempt_ends_the_call() {
    let mut swap = Failover::two_way_swap(RegionEndpoint::Sg);
    let verdict = swap.settle(Ok::<u32, &str>(5));
    assert!(matches!(verdict, Verdict::Finished(Ok(5))));
    assert_eq!(swap.target(), None);
}

#[test]
fn swap_failure_then_success_returns_alternate_data() {
    let mut swap = Failover::two_way_swap(RegionEndpoint::Us);
    let verdict = swap.settle(Err::<u32, &str>("primary down"));
    assert!(matches!(verdict, Verdict::Retry(RegionEndpoint::Sg)));
    assert_eq!(swap.target(), Some(RegionEndpoint::Sg));
    let verdict = swap.settle(Ok::<u32, &str>(42));
    assert!(matches!(verdict, Verdict::Finished(Ok(42))));
    assert_eq!(swap.target(), None);
}

#[test]
fn swap_retries_exactly_once() {
    let mut swap = Failover::two_way_swap(RegionEndpoint::Sg);
    let verdict = swap.settle(Err::<u32, &str>("first"));
    assert!(matches!(verdict, Verdict::Retry(RegionEndpoint::Us)));
    let verdict = swap.settle(Err::<u32, &str>("second"));
    assert!(matches!(verdict, Verdict::Finished(Err("second"))));
    assert_eq!(swap.target(), None);
}

#[test]
fn ordered_sweep_skips_the_endpoint_already_tried() {
    let mut sweep = Failover::ordered_sweep(RegionEndpoint::Sg);
    assert_eq!(sweep.target(), Some(RegionEndpoint::Sg));
    assert!(matches!(sweep.settle(Err::<(), u8>(1)), Verdict::Retry(RegionEndpoint::Us)));
    assert!(matches!(sweep.settle(Err::<(), u8>(2)), Verdict::Finished(Err(2))));

    let mut sweep = Failover::ordered_sweep(RegionEndpoint::Us);
    assert_eq!(sweep.target(), Some(RegionEndpoint::Us));
    assert!(matches!(sweep.settle(Err::<(), u8>(1)), Verdict::Retry(RegionEndpoint::Sg)));
    assert!(matches!(sweep.settle(Err::<(), u8>(2)), Verdict::Finished(Err(2))));
    assert_eq!(sweep.target(), None);
}

#[test]
fn sweep_with_all_three_candidates_failing_surfaces_the_last_error() {
    let mut sweep =
        Failover::over(vec![RegionEndpoint::Us, RegionEndpoint::Sg, RegionEndpoint::Us]);
    assert_eq!(sweep.target(), Some(RegionEndpoint::Us));
    assert!(matches!(sweep.settle(Err::<(), &str>("first")), Verdict::Retry(RegionEndpoint::Sg)));
    assert!(matches!(sweep.settle(Err::<(), &str>("second")), Verdict::Retry(RegionEndpoint::Us)));
    assert!(matches!(sweep.settle(Err::<(), &str>("third")), Verdict::Finished(Err("third"))));
    assert_eq!(sweep.target(), None);
}

#[test]
fn sweep_stops_at_the_first_success() {
    let mut sweep =
        Failover::over(vec![RegionEndpoint::Sg, RegionEndpoint::Us, RegionEndpoint::Sg]);
    assert!(matches!(sweep.settle(Err::<u8, &str>("first")), Verdict::Retry(RegionEndpoint::Us)));
    assert!(matches!(sweep.settle(Ok::<u8, &str>(9)), Verdict::Finished(Ok(9))));
    assert_eq!(sweep.target(), None);
}

#[test]
fn failover_over_one_candidate_makes_one_attempt() {
    let mut single = Failover::over(vec![RegionEndpoint::Us]);
    assert_eq!(single.target(), Some(RegionEndpoint::Us));
    assert!(matches!(single.settle(Err::<u8, u8>(3)), Verdict::Finished(Err(3))));
    assert_eq!(single.target(), None);
}

#[test]
fn failover_over_no_candidate_has_no_target() {
    let mut none = Failover::over(Vec::new());
    assert_eq!(none.target(), None);
    assert!(matches!(none.settle(Err::<u8, u8>(3)), Verdict::Finished(Err(3))));
    assert_eq!(none.target(), None);
}

#[test]
fn finished_failover_hands_outcomes_through() {
    let mut swap = Failover::two_way_swap(RegionEndpoint::Sg);
    assert!(matches!(swap.settle(Ok::<u8, u8>(1)), Verdict::Finished(Ok(1))));
    assert!(matches!(swap.settle(Err::<u8, u8>(2)), Verdict::Finished(Err(2))));
    assert_eq!(swap.target(), None);
}
