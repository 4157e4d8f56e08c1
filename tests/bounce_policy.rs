use raytrace::trace::{budget_spent, next_step, replay, Ending, Probe, Step};

#[test]
fn zero_budget_is_spent() {
    assert!(budget_spent(0));
    assert!(budget_spent(-4));
    assert!(!budget_spent(1));
    assert!(!budget_spent(200));
}

#[test]
fn miss_ends_on_sky() {
    assert_eq!(next_step(3, Probe::Miss), Step::Stop(Ending::Sky));
}

#[test]
fn absorption_ends_in_black() {
    assert_eq!(next_step(3, Probe::Absorbed), Step::Stop(Ending::Black));
}

#[test]
fn scatter_uses_one_bounce() {
    assert_eq!(next_step(3, Probe::Scattered), Step::Bounce(2));
    assert_eq!(next_step(1, Probe::Scattered), Step::Bounce(0));
}

#[test]
fn depth_zero_is_black_whatever_the_scene() {
    assert_eq!(replay(0, &vec![Probe::Miss]), Some((0, Ending::Black)));
    assert_eq!(replay(0, &vec![Probe::Scattered, Probe::Miss]), Some((0, Ending::Black)));
    assert_eq!(replay(0, &Vec::new()), Some((0, Ending::Black)));
}

#[test]
fn path_reaching_the_sky_after_two_bounces() {
    let probes = vec![Probe::Scattered, Probe::Scattered, Probe::Miss];
    assert_eq!(replay(3, &probes), Some((2, Ending::Sky)));
}

#[test]
fn path_cut_by_the_budget_is_black() {
    let probes = vec![Probe::Scattered, Probe::Scattered, Probe::Miss];
    assert_eq!(replay(2, &probes), Some((2, Ending::Black)));
}

#[test]
fn path_absorbed_after_one_bounce() {
    let probes = vec![Probe::Scattered, Probe::Absorbed, Probe::Miss];
    assert_eq!(replay(50, &probes), Some((1, Ending::Black)));
}

#[test]
fn path_without_enough_probes_is_open() {
    assert_eq!(replay(5, &vec![Probe::Scattered]), None);
    assert_eq!(replay(1, &Vec::new()), None);
}
