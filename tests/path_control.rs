use proc_gen::paths::{join_legs, path_request_step, splice_path, store_holder_needed, wobble_step, PathStep, WobbleOutcome};
use proc_gen::tags::Tags;

#[test]
fn path_requests_wait_for_navmesh_and_target() {
    assert_eq!(path_request_step(true, true, true), PathStep::Resolve);
    assert_eq!(path_request_step(false, true, true), PathStep::Requeue);
    assert_eq!(path_request_step(true, false, true), PathStep::Requeue);
    assert_eq!(path_request_step(true, true, false), PathStep::Requeue);
}

#[test]
fn wobble_retries_three_times_then_falls_back() {
    assert_eq!(wobble_step(0, true), WobbleOutcome::Accept);
    assert_eq!(wobble_step(0, false), WobbleOutcome::Retry(1));
    assert_eq!(wobble_step(1, false), WobbleOutcome::Retry(2));
    assert_eq!(wobble_step(2, false), WobbleOutcome::FallBack);
    assert_eq!(wobble_step(2, true), WobbleOutcome::Accept);
}

#[test]
fn spliced_path_keeps_checkpoints_and_drops_the_junction() {
    let path = splice_path((0.0f32, 0.0f32), vec![(1.0, 0.0), (2.0, 0.0)], vec![(2.0, 0.0), (3.0, 1.0), (4.0, 4.0)]);
    assert_eq!(path, vec![(0.0, 0.0), (1.0, 0.0), (2.0, 0.0), (3.0, 1.0), (4.0, 4.0)]);
    let direct = splice_path(7u32, Vec::new(), vec![7, 8]);
    assert_eq!(direct, vec![7, 8]);
}

#[test]
fn legs_are_chained_without_repeating_junctions() {
    let joined = join_legs(vec![1, 2], vec![vec![2, 3, 4], vec![4, 5], vec![5]]);
    assert_eq!(joined, vec![1, 2, 3, 4, 5]);
    assert_eq!(join_legs(vec![9], Vec::new()), vec![9]);
}

#[test]
fn path_store_holder_is_made_once() {
    let holders = vec![Tags(vec!["Roads".to_string()]), Tags(vec!["Rivers".to_string(), "Water".to_string()])];
    assert!(!store_holder_needed(&None, &holders));
    assert!(!store_holder_needed(&Some("Water".to_string()), &holders));
    assert!(store_holder_needed(&Some("Walls".to_string()), &holders));
    assert!(store_holder_needed(&Some("Walls".to_string()), &Vec::new()));
}
