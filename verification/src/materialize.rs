//! Conversion of a finished grid into the level's static geometry: one
//! composite renderable entity anchored at the origin.

use vstd::prelude::*;

use crate::entities::{Position, Renderable};
use crate::grid::GridBuffer;
use crate::renderables::{spec_data_from_t, Models, Renderables, Template};

verus! {

/// `c` is a childless renderable placed at `(x, y)` with the given visual.
pub open spec fn child_is(c: Renderable, x: int, y: int, tpl: Template, idx: int) -> bool {
    &&& c.position.x == x
    &&& c.position.y == y
    &&& c.template == tpl
    &&& c.index == idx
    &&& c.children@.len() == 0
}

/// The shape of the materialized level geometry: one child per grid cell,
/// walls where the automaton placed walls and floors elsewhere, followed by a
/// solid one-cell border — the top and bottom rows, then the left and right
/// columns — drawn with the wall template whatever the automaton produced at
/// those coordinates.
pub open spec fn geometry_matches(
    r: Renderable,
    g: Seq<bool>,
    w: int,
    h: int,
    wall: (Template, int),
    floor: (Template, int),
) -> bool {
    let n = w * h;
    &&& r.position.x == 0 && r.position.y == 0
    &&& r.index == 0
    &&& r.children@.len() == n + 2 * w + 2 * h
    &&& forall|k: int|
        #![trigger r.children@[k]]
        0 <= k < n ==> child_is(
            r.children@[k],
            k % w,
            k / w,
            if g[k] {
                wall.0
            } else {
                floor.0
            },
            if g[k] {
                wall.1
            } else {
                floor.1
            },
        )
    &&& forall|k: int|
        #![trigger r.children@[k]]
        n <= k < n + 2 * w ==> child_is(
            r.children@[k],
            (k - n) / 2,
            if (k - n) % 2 == 0 {
                0int
            } else {
                h - 1
            },
            wall.0,
            wall.1,
        )
    &&& forall|k: int|
        #![trigger r.children@[k]]
        n + 2 * w <= k < n + 2 * w + 2 * h ==> child_is(
            r.children@[k],
            if (k - n - 2 * w) % 2 == 0 {
                0int
            } else {
                w - 1
            },
            (k - n - 2 * w) / 2,
            wall.0,
            wall.1,
        )
}

/// Walks a finished grid and the template lookup and produces the level's
/// static geometry, batched as children of one anchor entity at the origin.
#[verifier::rlimit(30)]
pub fn materialize(grid: &GridBuffer, models: &Models) -> (r: Renderable)
    requires
        grid.well_formed(),
        spec_data_from_t(models.entries@, Renderables::Wall) is Some,
        spec_data_from_t(models.entries@, Renderables::Floor) is Some,
        grid.width * grid.height + 2 * grid.width + 2 * grid.height <= usize::MAX,
    ensures
        geometry_matches(
            r,
            grid.cells@,
            grid.width as int,
            grid.height as int,
            spec_data_from_t(models.entries@, Renderables::Wall)->Some_0,
            spec_data_from_t(models.entries@, Renderables::Floor)->Some_0,
        ),
{
    let width = grid.width;
    let height = grid.height;
    let ghost g = grid.cells@;
    let ghost gw = width as int;
    let ghost gh = height as int;
    let ghost wall_s = spec_data_from_t(models.entries@, Renderables::Wall)->Some_0;
    let ghost floor_s = spec_data_from_t(models.entries@, Renderables::Floor)->Some_0;

    let wall = models.data_from_t(&Renderables::Wall).unwrap();
    let floor = models.data_from_t(&Renderables::Floor).unwrap();
    let (wall_t, wall_i) = wall;
    let (floor_t, floor_i) = floor;

    let mut multi = Renderable::default();
    let total = width * height;

    let mut i: usize = 0;
    while i < total
        invariant
            total == width * height,
            g == grid.cells@,
            g.len() == total,
            gw == width as int,
            gh == height as int,
            0 < width,
            0 < height,
            wall_t == wall_s.0,
            wall_i as int == wall_s.1,
            floor_t == floor_s.0,
            floor_i as int == floor_s.1,
            multi.position.x == 0,
            multi.position.y == 0,
            multi.index == 0,
            i <= total,
            multi.children@.len() == i,
            forall|k: int|
                #![trigger multi.children@[k]]
                0 <= k < i ==> child_is(
                    multi.children@[k],
                    k % gw,
                    k / gw,
                    if g[k] {
                        wall_s.0
                    } else {
                        floor_s.0
                    },
                    if g[k] {
                        wall_s.1
                    } else {
                        floor_s.1
                    },
                ),
        decreases total - i,
    {
        proof {
            assert(i / width < height) by (nonlinear_arith)
                requires
                    0 < width,
                    i < width * height,
            ;
        }
        let x = i % width;
        let y = i / width;
        let child = if grid.cells[i] {
            Renderable::new(Position::new(x, y), wall_i, wall_t)
        } else {
            Renderable::new(Position::new(x, y), floor_i, floor_t)
        };
        multi.push_child(child);
        i = i + 1;
    }

    let mut i: usize = 0;
    while i < width
        invariant
            total == width * height,
            g == grid.cells@,
            g.len() == total,
            gw == width as int,
            gh == height as int,
            0 < width,
            0 < height,
            total + 2 * width + 2 * height <= usize::MAX,
            wall_t == wall_s.0,
            wall_i as int == wall_s.1,
            floor_t == floor_s.0,
            floor_i as int == floor_s.1,
            multi.position.x == 0,
            multi.position.y == 0,
            multi.index == 0,
            i <= width,
            multi.children@.len() == total + 2 * i,
            forall|k: int|
                #![trigger multi.children@[k]]
                0 <= k < total ==> child_is(
                    multi.children@[k],
                    k % gw,
                    k / gw,
                    if g[k] {
                        wall_s.0
                    } else {
                        floor_s.0
                    },
                    if g[k] {
                        wall_s.1
                    } else {
                        floor_s.1
                    },
                ),
            forall|k: int|
                #![trigger multi.children@[k]]
                total <= k < total + 2 * i ==> child_is(
                    multi.children@[k],
                    (k - total) / 2,
                    if (k - total) % 2 == 0 {
                        0int
                    } else {
                        gh - 1
                    },
                    wall_s.0,
                    wall_s.1,
                ),
        decreases width - i,
    {
        multi.push_child(Renderable::new(Position::new(i, 0), wall_i, wall_t));
        multi.push_child(Renderable::new(Position::new(i, height - 1), wall_i, wall_t));
        i = i + 1;
    }

    let mut i: usize = 0;
    while i < height
        invariant
            total == width * height,
            g == grid.cells@,
            g.len() == total,
            gw == width as int,
            gh == height as int,
            0 < width,
            0 < height,
            total + 2 * width + 2 * height <= usize::MAX,
            wall_t == wall_s.0,
            wall_i as int == wall_s.1,
            floor_t == floor_s.0,
            floor_i as int == floor_s.1,
            multi.position.x == 0,
            multi.position.y == 0,
            multi.index == 0,
            i <= height,
            multi.children@.len() == total + 2 * width + 2 * i,
            forall|k: int|
                #![trigger multi.children@[k]]
                0 <= k < total ==> child_is(
                    multi.children@[k],
                    k % gw,
                    k / gw,
                    if g[k] {
                        wall_s.0
                    } else {
                        floor_s.0
                    },
                    if g[k] {
                        wall_s.1
                    } else {
                        floor_s.1
                    },
                ),
            forall|k: int|
                #![trigger multi.children@[k]]
                total <= k < total + 2 * width ==> child_is(
                    multi.children@[k],
                    (k - total) / 2,
                    if (k - total) % 2 == 0 {
                        0int
                    } else {
                        gh - 1
                    },
                    wall_s.0,
                    wall_s.1,
                ),
            forall|k: int|
                #![trigger multi.children@[k]]
                total + 2 * width <= k < total + 2 * width + 2 * i ==> child_is(
                    multi.children@[k],
                    if (k - total - 2 * gw) % 2 == 0 {
                        0int
                    } else {
                        gw - 1
                    },
                    (k - total - 2 * gw) / 2,
                    wall_s.0,
                    wall_s.1,
                ),
        decreases height - i,
    {
        multi.push_child(Renderable::new(Position::new(0, i), wall_i, wall_t));
        multi.push_child(Renderable::new(Position::new(width - 1, i), wall_i, wall_t));
        i = i + 1;
    }

    multi
}

/// Border enclosure: in materialized geometry, every cell on the border of
/// the rectangle — `x == 0`, `x == w - 1`, `y == 0` or `y == h - 1` — is
/// covered by a child drawn with the wall template, whatever the grid holds
/// at that coordinate.
pub proof fn lemma_border_enclosed(
    r: Renderable,
    g: Seq<bool>,
    w: int,
    h: int,
    wall: (Template, int),
    floor: (Template, int),
    x: int,
    y: int,
)
    requires
        0 < w,
        0 < h,
        geometry_matches(r, g, w, h, wall, floor),
        0 <= x < w,
        0 <= y < h,
        x == 0 || x == w - 1 || y == 0 || y == h - 1,
    ensures
        exists|k: int|
            #![trigger r.children@[k]]
            0 <= k < r.children@.len() && child_is(r.children@[k], x, y, wall.0, wall.1),
{
    assert(0 < w * h) by (nonlinear_arith)
        requires
            0 < w,
            0 < h,
    ;
    let n: int = w * h;
    if y == 0 {
        let k: int = n + 2 * x;
        assert(0 <= k < r.children@.len() && child_is(r.children@[k], x, y, wall.0, wall.1));
    } else if y == h - 1 {
        let k: int = n + 2 * x + 1;
        assert(0 <= k < r.children@.len() && child_is(r.children@[k], x, y, wall.0, wall.1));
    } else if x == 0 {
        let k: int = n + 2 * w + 2 * y;
        assert(0 <= k < r.children@.len() && child_is(r.children@[k], x, y, wall.0, wall.1));
    } else {
        let k: int = n + 2 * w + 2 * y + 1;
        assert(0 <= k < r.children@.len() && child_is(r.children@[k], x, y, wall.0, wall.1));
    }
}

} // verus!
