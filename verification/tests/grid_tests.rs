use rouge_left::grid::{count_walls, generate, generate_from, random_grid, smooth_pass};

#[test]
fn generate_returns_width_times_height_cells() {
    let g = generate(10, 8, 3);
    assert_eq!(g.width, 10);
    assert_eq!(g.height, 8);
    assert_eq!(g.cells.len(), 80);
}

#[test]
fn generate_level_sized_grid() {
    let g = generate(50, 50, 5);
    assert_eq!(g.cells.len(), 2500);
}

#[test]
fn zero_passes_returns_initial_grid() {
    let initial = vec![true, false, false, true, true, false];
    let g = generate_from(initial.clone(), 3, 2, 0);
    assert_eq!(g.cells, initial);
}

#[test]
fn census_counts_neighbors_edges_and_self() {
    // 2x2 grid with a single wall at (0, 0).
    let cells = vec![true, false, false, false];
    // (1, 1) sees three eligible floor-or-wall neighbors (one of them the
    // wall), five off-map neighbors counted as walls, and itself as floor.
    assert_eq!(count_walls(&cells, 2, 2, 1, 1), 6);
    // (0, 0) sees three eligible floor neighbors, five off-map neighbors,
    // and itself as wall.
    assert_eq!(count_walls(&cells, 2, 2, 0, 0), 6);
}

#[test]
fn neighbor_count_policy_all_floor_3x3() {
    // All-floor input: corners have three eligible neighbors, so their census
    // is 5 (wall); edges 3 and the center 0 (floor).
    let src = vec![false; 9];
    let mut dst = vec![false; 9];
    smooth_pass(&src, &mut dst, 3, 3);
    assert_eq!(
        dst,
        vec![true, false, true, false, false, false, true, false, true]
    );
}

#[test]
fn neighbor_count_policy_all_wall_stays_wall() {
    let src = vec![true; 9];
    let mut dst = vec![false; 9];
    smooth_pass(&src, &mut dst, 3, 3);
    assert_eq!(dst, vec![true; 9]);
}

#[test]
fn pass_parity_matches_repeated_single_passes() {
    // A deterministic checkerboard start; the result for any number of
    // passes, odd (taken from the secondary buffer) or even (from the
    // primary), must equal that many single passes applied in sequence.
    let mut initial = Vec::new();
    for i in 0..16usize {
        initial.push(i % 2 == (i / 4) % 2);
    }
    let mut expect = initial.clone();
    for passes in 0..6usize {
        let g = generate_from(initial.clone(), 4, 4, passes);
        assert_eq!(g.cells, expect, "passes = {}", passes);
        let mut next = vec![false; 16];
        smooth_pass(&expect, &mut next, 4, 4);
        expect = next;
    }
}

#[test]
fn random_grid_has_requested_size() {
    let g = random_grid(7, 3);
    assert_eq!(g.len(), 21);
}
