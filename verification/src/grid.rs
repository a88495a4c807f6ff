//! The grid buffer and the cellular-automaton generator that smooths random
//! noise into cave-like structure.

use vstd::prelude::*;

use rand::Rng;

verus! {

/// A flat boolean grid: `true` marks a wall, `false` a floor cell, stored
/// row-major so that cell `(x, y)` lives at index `y * width + x`.
pub struct GridBuffer {
    pub width: usize,
    pub height: usize,
    pub cells: Vec<bool>,
}

impl GridBuffer {
    /// The buffer invariant: positive dimensions and one cell per coordinate.
    pub open spec fn well_formed(self) -> bool {
        0 < self.width && 0 < self.height && self.cells@.len() == self.width * self.height
    }
}

/// Contribution of the neighbor at offset `(dx, dy)` from `(x, y)` to the
/// census of that cell: a wall neighbor counts 1, a floor neighbor 0, and a
/// neighbor outside the grid counts 1 (everything beyond the edge is solid).
pub open spec fn dir_contrib(g: Seq<bool>, w: int, h: int, x: int, y: int, dx: int, dy: int) -> int {
    if 0 <= x + dx < w && 0 <= y + dy < h {
        if g[(y + dy) * w + (x + dx)] {
            1int
        } else {
            0int
        }
    } else {
        1int
    }
}

/// The census for cell `(x, y)`: its eight Moore neighbors, out-of-bounds
/// neighbors taken as walls, plus the cell's own current state (the cell
/// counts itself, which biases the automaton toward walls).
pub open spec fn wall_count(g: Seq<bool>, w: int, h: int, x: int, y: int) -> int {
    dir_contrib(g, w, h, x, y, -1, 0) + dir_contrib(g, w, h, x, y, 1, 0)
        + dir_contrib(g, w, h, x, y, 0, -1) + dir_contrib(g, w, h, x, y, 0, 1)
        + dir_contrib(g, w, h, x, y, -1, -1) + dir_contrib(g, w, h, x, y, 1, -1)
        + dir_contrib(g, w, h, x, y, -1, 1) + dir_contrib(g, w, h, x, y, 1, 1)
        + (if g[y * w + x] { 1int } else { 0int })
}

/// One smoothing step turns a cell into a wall exactly when its census
/// reaches five.
pub open spec fn next_cell(g: Seq<bool>, w: int, h: int, x: int, y: int) -> bool {
    wall_count(g, w, h, x, y) >= 5
}

/// One whole smoothing pass over the grid.
pub open spec fn smooth(g: Seq<bool>, w: int, h: int) -> Seq<bool> {
    Seq::new((w * h) as nat, |i: int| next_cell(g, w, h, i % w, i / w))
}

/// `passes` smoothing passes applied one after another.
pub open spec fn smooth_iter(g: Seq<bool>, w: int, h: int, passes: nat) -> Seq<bool>
    decreases passes,
{
    if passes == 0 {
        g
    } else {
        smooth(smooth_iter(g, w, h, (passes - 1) as nat), w, h)
    }
}

/// Row-major index of `(x, y)`.
fn cell_index(width: usize, height: usize, x: usize, y: usize) -> (i: usize)
    requires
        x < width,
        y < height,
        width * height <= usize::MAX,
    ensures
        i == y * width + x,
        i < width * height,
{
    proof {
        assert(y * width + x < width * height) by (nonlinear_arith)
            requires
                x < width,
                y < height,
        ;
    }
    y * width + x
}

/// The census of cell `(x, y)`, computed as `wall_count` states it.
#[verifier::rlimit(50)]
pub fn count_walls(cells: &Vec<bool>, width: usize, height: usize, x: usize, y: usize) -> (n: usize)
    requires
        0 < width,
        0 < height,
        cells@.len() == width * height,
        x < width,
        y < height,
    ensures
        n == wall_count(cells@, width as int, height as int, x as int, y as int),
{
    let total = cells.len();
    let ghost g = cells@;
    let ghost w = width as int;
    let ghost h = height as int;
    let ghost xi = x as int;
    let ghost yi = y as int;
    let mut n: usize = 0;

    // Left
    if x > 0 {
        if cells[cell_index(width, height, x - 1, y)] {
            n = n + 1;
        }
    } else {
        n = n + 1;
    }
    assert(n == dir_contrib(g, w, h, xi, yi, -1, 0));

    // Right
    if x < width - 1 {
        if cells[cell_index(width, height, x + 1, y)] {
            n = n + 1;
        }
    } else {
        n = n + 1;
    }
    assert(n <= 2 && n == dir_contrib(g, w, h, xi, yi, -1, 0) + dir_contrib(g, w, h, xi, yi, 1, 0));

    // Up
    if y > 0 {
        if cells[cell_index(width, height, x, y - 1)] {
            n = n + 1;
        }
    } else {
        n = n + 1;
    }

    assert(n <= 3 && n == dir_contrib(g, w, h, xi, yi, -1, 0) + dir_contrib(g, w, h, xi, yi, 1, 0)
        + dir_contrib(g, w, h, xi, yi, 0, -1));

    // Down
    if y < height - 1 {
        if cells[cell_index(width, height, x, y + 1)] {
            n = n + 1;
        }
    } else {
        n = n + 1;
    }
    assert(n <= 4 && n == dir_contrib(g, w, h, xi, yi, -1, 0) + dir_contrib(g, w, h, xi, yi, 1, 0)
        + dir_contrib(g, w, h, xi, yi, 0, -1) + dir_contrib(g, w, h, xi, yi, 0, 1));

    // Top left
    if x > 0 && y > 0 {
        if cells[cell_index(width, height, x - 1, y - 1)] {
            n = n + 1;
        }
    } else {
        n = n + 1;
    }

    assert(n <= 5 && n == dir_contrib(g, w, h, xi, yi, -1, 0) + dir_contrib(g, w, h, xi, yi, 1, 0)
        + dir_contrib(g, w, h, xi, yi, 0, -1) + dir_contrib(g, w, h, xi, yi, 0, 1)
        + dir_contrib(g, w, h, xi, yi, -1, -1));

    // Top right
    if x < width - 1 && y > 0 {
        if cells[cell_index(width, height, x + 1, y - 1)] {
            n = n + 1;
        }
    } else {
        n = n + 1;
    }

    assert(n <= 6 && n == dir_contrib(g, w, h, xi, yi, -1, 0) + dir_contrib(g, w, h, xi, yi, 1, 0)
        + dir_contrib(g, w, h, xi, yi, 0, -1) + dir_contrib(g, w, h, xi, yi, 0, 1)
        + dir_contrib(g, w, h, xi, yi, -1, -1) + dir_contrib(g, w, h, xi, yi, 1, -1));

    // Bottom left
    if x > 0 && y < height - 1 {
        if cells[cell_index(width, height, x - 1, y + 1)] {
            n = n + 1;
        }
    } else {
        n = n + 1;
    }

    assert(n <= 7 && n == dir_contrib(g, w, h, xi, yi, -1, 0) + dir_contrib(g, w, h, xi, yi, 1, 0)
        + dir_contrib(g, w, h, xi, yi, 0, -1) + dir_contrib(g, w, h, xi, yi, 0, 1)
        + dir_contrib(g, w, h, xi, yi, -1, -1) + dir_contrib(g, w, h, xi, yi, 1, -1)
        + dir_contrib(g, w, h, xi, yi, -1, 1));

    // Bottom right
    if x < width - 1 && y < height - 1 {
        if cells[cell_index(width, height, x + 1, y + 1)] {
            n = n + 1;
        }
    } else {
        n = n + 1;
    }
    assert(n <= 8 && n == dir_contrib(g, w, h, xi, yi, -1, 0) + dir_contrib(g, w, h, xi, yi, 1, 0)
        + dir_contrib(g, w, h, xi, yi, 0, -1) + dir_contrib(g, w, h, xi, yi, 0, 1)
        + dir_contrib(g, w, h, xi, yi, -1, -1) + dir_contrib(g, w, h, xi, yi, 1, -1)
        + dir_contrib(g, w, h, xi, yi, -1, 1) + dir_contrib(g, w, h, xi, yi, 1, 1));

    // The cell itself
    if cells[cell_index(width, height, x, y)] {
        n = n + 1;
    }
    assert(n == wall_count(g, w, h, xi, yi));

    n
}

/// One smoothing pass: reads every cell of `src` and writes the smoothed grid
/// into `dst`, leaving `src` untouched.
pub fn smooth_pass(src: &Vec<bool>, dst: &mut Vec<bool>, width: usize, height: usize)
    requires
        0 < width,
        0 < height,
        src@.len() == width * height,
        old(dst)@.len() == width * height,
    ensures
        final(dst)@ == smooth(src@, width as int, height as int),
{
    let total = src.len();
    let ghost g = src@;
    let ghost w = width as int;
    let ghost h = height as int;
    let mut i: usize = 0;
    while i < total
        invariant
            0 < width,
            0 < height,
            total == width * height,
            src@ == g,
            g.len() == total,
            dst@.len() == total,
            i <= total,
            w == width as int,
            h == height as int,
            forall|j: int| 0 <= j < i ==> dst@[j] == smooth(g, w, h)[j],
        decreases total - i,
    {
        proof {
            assert(i / width < height) by (nonlinear_arith)
                requires
                    0 < width,
                    i < width * height,
            ;
        }
        let x = i % width;
        let y = i / width;
        let amount = count_walls(src, width, height, x, y);
        let is_wall: bool = amount >= 5;
        dst[i] = is_wall;
        assert(dst@[i as int] == smooth(g, w, h)[i as int]);
        i = i + 1;
    }
    assert(dst@ =~= smooth(g, w, h));
}

/// Relies on `rand::thread_rng` and `rand::Rng::gen::<bool>`: draws one random
/// boolean from the thread-local generator; nothing is promised of its value.
#[verifier::external_body]
fn random_cell() -> bool {
    rand::thread_rng().gen()
}

/// A fresh noise grid: `width * height` independent random cells.
pub fn random_grid(width: usize, height: usize) -> (r: Vec<bool>)
    requires
        width * height <= usize::MAX,
    ensures
        r@.len() == width * height,
{
    let total = width * height;
    let mut cells: Vec<bool> = Vec::new();
    let mut i: usize = 0;
    while i < total
        invariant
            cells@.len() == i,
            i <= total,
        decreases total - i,
    {
        cells.push(random_cell());
        i = i + 1;
    }
    cells
}

/// Runs `passes` smoothing passes over `initial`, ping-ponging between a
/// primary and a secondary buffer so that no pass reads partially updated
/// data, and wraps the buffer that received the last pass (the secondary one
/// when `passes` is odd, the primary one when it is even).
pub fn generate_from(initial: Vec<bool>, width: usize, height: usize, passes: usize) -> (r: GridBuffer)
    requires
        0 < width,
        0 < height,
        initial@.len() == width * height,
    ensures
        r.width == width,
        r.height == height,
        r.well_formed(),
        r.cells@ == smooth_iter(initial@, width as int, height as int, passes as nat),
        passes == 0 ==> r.cells@ == initial@,
{
    let ghost init = initial@;
    let ghost w = width as int;
    let ghost h = height as int;
    let total = initial.len();
    let mut map = initial;
    let mut map_two: Vec<bool> = vec![false; total];
    let mut done: usize = 0;
    while done < passes
        invariant
            0 < width,
            0 < height,
            total == width * height,
            w == width as int,
            h == height as int,
            done <= passes,
            map@.len() == width * height,
            map_two@.len() == width * height,
            done % 2 == 0 ==> map@ == smooth_iter(init, w, h, done as nat),
            done % 2 == 1 ==> map_two@ == smooth_iter(init, w, h, done as nat),
        decreases passes - done,
    {
        if done % 2 == 0 {
            smooth_pass(&map, &mut map_two, width, height);
        } else {
            smooth_pass(&map_two, &mut map, width, height);
        }
        done = done + 1;
    }
    let cells = if passes % 2 == 1 {
        map_two
    } else {
        map
    };
    GridBuffer { width, height, cells }
}

/// Builds a level grid: random noise smoothed by `passes` automaton passes.
pub fn generate(width: usize, height: usize, passes: usize) -> (r: GridBuffer)
    requires
        0 < width,
        0 < height,
        width * height <= usize::MAX,
    ensures
        r.width == width,
        r.height == height,
        r.well_formed(),
        r.cells@.len() == width * height,
        exists|init: Seq<bool>|
            (#[trigger] smooth_iter(init, width as int, height as int, passes as nat))
                == r.cells@ && init.len() == width * height,
{
    let initial = random_grid(width, height);
    generate_from(initial, width, height, passes)
}

} // verus!
