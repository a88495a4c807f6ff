use rouge_left::grid::GridBuffer;
use rouge_left::materialize::materialize;
use rouge_left::renderables::{load_renderables, Models, Renderables, Template};

#[test]
fn geometry_has_one_child_per_cell_then_border() {
    // 4x3 grid, all floor.
    let grid = GridBuffer {
        width: 4,
        height: 3,
        cells: vec![false; 12],
    };
    let models = load_renderables(Models::default());
    let (_, floor_i) = models.data_from_t(&Renderables::Floor).unwrap();
    let r = materialize(&grid, &models);
    assert_eq!(r.position.x, 0);
    assert_eq!(r.position.y, 0);
    assert_eq!(r.children.len(), 12 + 2 * 4 + 2 * 3);
    for k in 0..12usize {
        let c = &r.children[k];
        assert_eq!(c.position.x, k % 4);
        assert_eq!(c.position.y, k / 4);
        assert_eq!(c.index, floor_i);
        assert!(c.children.is_empty());
    }
}

#[test]
fn wall_cells_use_the_wall_template() {
    // 3x3 grid with a wall in the center.
    let mut cells = vec![false; 9];
    cells[4] = true;
    let grid = GridBuffer {
        width: 3,
        height: 3,
        cells,
    };
    let models = load_renderables(Models::default());
    let (_, wall_i) = models.data_from_t(&Renderables::Wall).unwrap();
    let (_, floor_i) = models.data_from_t(&Renderables::Floor).unwrap();
    let r = materialize(&grid, &models);
    assert_eq!(r.children[4].index, wall_i);
    assert_eq!(r.children[0].index, floor_i);
    assert_eq!(r.children[8].index, floor_i);
}

#[test]
fn border_cells_are_covered_by_wall_entities() {
    // All-floor grid: the automaton output leaves the border open, yet every
    // border cell must still be covered by a wall-template child.
    let grid = GridBuffer {
        width: 4,
        height: 3,
        cells: vec![false; 12],
    };
    let models = load_renderables(Models::default());
    let (wall_t, wall_i) = models.data_from_t(&Renderables::Wall).unwrap();
    let r = materialize(&grid, &models);
    for x in 0..4usize {
        for y in 0..3usize {
            if x == 0 || x == 3 || y == 0 || y == 2 {
                let covered = r.children.iter().any(|c| {
                    c.position.x == x && c.position.y == y && c.index == wall_i
                        && c.template == wall_t
                });
                assert!(covered, "border cell ({}, {}) is not walled", x, y);
            }
        }
    }
}
