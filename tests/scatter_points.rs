use proc_gen::scatter::{ellipse_cells, filter_by_exclusivity, is_grid_allowed, noise_seed, scatter_grid, ScatterGrid, SeededOrNot};
use bevy_prng::WyRand;
use rand::SeedableRng;

fn sq(a: (i32, i32), b: (i32, i32)) -> i64 {
    let dx = (a.0 - b.0) as i64;
    let dy = (a.1 - b.1) as i64;
    dx * dx + dy * dy
}

#[test]
fn grid_spans_half_to_three_halves() {
    let g = scatter_grid(10, 6, 2);
    assert_eq!(g, ScatterGrid { start_x: 10, end_x: 30, start_y: 6, end_y: 18 });
}

#[test]
fn cells_lie_in_the_inscribed_ellipse() {
    let g = scatter_grid(4, 4, 1);
    assert_eq!(g, ScatterGrid { start_x: 2, end_x: 6, start_y: 2, end_y: 6 });
    let cells = ellipse_cells(&g);
    assert!(cells.contains(&(4, 4)));
    assert!(cells.contains(&(2, 4)));
    assert!(cells.contains(&(4, 6)));
    assert!(!cells.contains(&(2, 2)));
    assert!(!cells.contains(&(6, 6)));
    assert_eq!(cells.len(), 13);
    for w in cells.windows(2) {
        assert!(w[0] < w[1]);
    }
}

#[test]
fn exclusivity_filter_is_greedy_in_priority_order() {
    let sorted = vec![(0, 0), (1, 0), (3, 0), (0, 3), (3, 3), (6, 0)];
    let picked = filter_by_exclusivity(&sorted, 10, 4);
    assert_eq!(picked, vec![(0, 0), (3, 0), (0, 3), (3, 3), (6, 0)]);
    let first_two = filter_by_exclusivity(&sorted, 2, 4);
    assert_eq!(first_two, vec![(0, 0), (3, 0)]);
    assert!(filter_by_exclusivity(&sorted, 0, 4).is_empty());
    assert!(filter_by_exclusivity(&Vec::new(), 5, 4).is_empty());
}

#[test]
fn scatter_points_are_separated_and_inside() {
    let g = scatter_grid(20, 20, 1);
    let cells = ellipse_cells(&g);
    let picked = filter_by_exclusivity(&cells, 5, 9);
    assert_eq!(picked.len(), 5);
    for i in 0..picked.len() {
        assert!(cells.contains(&picked[i]));
        for j in 0..i {
            assert!(sq(picked[i], picked[j]) > 9);
        }
    }
}

#[test]
fn explicit_seed_is_used() {
    let mut rng = WyRand::seed_from_u64(1);
    let before = rng.clone();
    assert_eq!(noise_seed(&SeededOrNot::Seeded(42), &mut rng), 42);
    assert_eq!(rng, before);
    let _ = noise_seed(&SeededOrNot::Unseeded, &mut rng);
    assert_ne!(rng, before);
}

#[test]
fn grid_preconditions() {
    assert!(is_grid_allowed(10, 6, 2));
    assert!(!is_grid_allowed(3, 4, 1));
    assert!(!is_grid_allowed(0, 4, 1));
    assert!(!is_grid_allowed(4, 4, -1));
    assert!(is_grid_allowed(2048, 1024, 1));
    assert!(!is_grid_allowed(2048, 1026, 1));
    assert!(!is_grid_allowed(i32::MAX, i32::MAX, i32::MAX));
}
