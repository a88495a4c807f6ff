//! The level finite-state machine: generation, then the turn phases, driven
//! once per host tick.

use vstd::prelude::*;

use crate::entities::{Entity, Position, Renderable, World};
use crate::grid::{generate_from, random_grid, smooth_iter, GridBuffer};
use crate::materialize::{geometry_matches, materialize};
use crate::renderables::{spec_data_from_t, Models, Renderables};

verus! {

/// Width of every generated level grid.
pub const GRID_WIDTH: usize = 50;

/// Height of every generated level grid.
pub const GRID_HEIGHT: usize = 50;

/// Number of smoothing passes run over the noise grid.
pub const GRID_PASSES: usize = 5;

/// Where the player starts when the level is first activated.
pub const PLAYER_START_X: usize = 20;

/// Where the player starts when the level is first activated.
pub const PLAYER_START_Y: usize = 20;

/// The phase the level is in. Exactly one is active at a time.
#[derive(Debug, Clone, Copy, PartialEq, Eq, Structural)]
pub enum LevelState {
    Generation,
    TurnManager,
    PlayerInput,
    TurnSimulator,
}

/// The finished grid, published as a shared resource so later phases can
/// query walkability without re-deriving it.
pub struct LevelMap(pub Vec<bool>);

/// The typed resource registry scoped to the running level: the template
/// lookup the host pre-populates, and the map the generation phase publishes.
pub struct Resources {
    pub models: Option<Models>,
    pub map: Option<LevelMap>,
}

impl Resources {
    /// An empty registry.
    pub fn new() -> (r: Resources)
        ensures
            r.models is None,
            r.map is None,
    {
        Resources { models: None, map: None }
    }
}

/// The Player category resolves in the registered template lookup.
pub open spec fn player_registered(r: Resources) -> bool {
    &&& r.models matches Some(m)
    &&& spec_data_from_t(m.entries@, Renderables::Player) is Some
}

/// The Wall and Floor categories resolve in the registered template lookup,
/// which the generation phase needs to materialize the level.
pub open spec fn generation_ready(r: Resources) -> bool {
    &&& r.models matches Some(m)
    &&& spec_data_from_t(m.entries@, Renderables::Wall) is Some
    &&& spec_data_from_t(m.entries@, Renderables::Floor) is Some
}

/// `e` is the player entity: a renderable using the Player template anchored
/// at the origin, with a position component at the starting cell.
pub open spec fn is_player_entity(e: Entity, r: Resources) -> bool {
    let pd = spec_data_from_t(r.models->Some_0.entries@, Renderables::Player)->Some_0;
    &&& e.renderable.position.x == 0
    &&& e.renderable.position.y == 0
    &&& e.renderable.index == pd.1
    &&& e.renderable.template == pd.0
    &&& e.renderable.children@.len() == 0
    &&& e.position == Some(Position { x: PLAYER_START_X, y: PLAYER_START_Y })
}

/// What one run of the generation phase leaves behind: the template lookup
/// untouched, a published map of exactly one cell per grid coordinate that
/// came out of the smoothing passes, and exactly one new entity — the level
/// geometry materialized from that very map, with no position component.
pub open spec fn generation_post(w0: World, w1: World, r0: Resources, r1: Resources) -> bool {
    &&& r1.models == r0.models
    &&& r1.map matches Some(m)
    &&& exists|init: Seq<bool>|
        (#[trigger] smooth_iter(
            init,
            GRID_WIDTH as int,
            GRID_HEIGHT as int,
            GRID_PASSES as nat,
        )) == r1.map->Some_0.0@ && init.len() == GRID_WIDTH * GRID_HEIGHT
    &&& w1.entities@.len() == w0.entities@.len() + 1
    &&& forall|i: int| 0 <= i < w0.entities@.len() ==> w1.entities@[i] == #[trigger] w0.entities@[i]
    &&& ({
        let e = w1.entities@.last();
        let models = r0.models->Some_0;
        &&& e.position is None
        &&& geometry_matches(
            e.renderable,
            r1.map->Some_0.0@,
            GRID_WIDTH as int,
            GRID_HEIGHT as int,
            spec_data_from_t(models.entries@, Renderables::Wall)->Some_0,
            spec_data_from_t(models.entries@, Renderables::Floor)->Some_0,
        )
    })
}

/// The level session: owns nothing but which phase is active, and drives the
/// generator and the materializer from the generation phase.
pub struct Level {
    pub fsm: LevelState,
}

impl Level {
    /// A fresh level, about to generate.
    pub fn new() -> (l: Level)
        ensures
            l.fsm == LevelState::Generation,
    {
        Level { fsm: LevelState::Generation }
    }

    /// The activation hook: fires once, when the level is first activated and
    /// before any update, and spawns the player entity at the starting cell.
    pub fn on_push(&mut self, data: &mut World, resources: &mut Resources)
        requires
            player_registered(*old(resources)),
        ensures
            *final(self) == *old(self),
            *final(resources) == *old(resources),
            final(data).entities@ == old(data).entities@.push(final(data).entities@.last()),
            is_player_entity(final(data).entities@.last(), *old(resources)),
    {
        let models = resources.models.as_ref().unwrap();
        let player = models.data_from_t(&Renderables::Player).unwrap();
        let (template, index) = player;

        data.insert(
            Entity {
                renderable: Renderable::new(Position::default(), index, template),
                position: Some(Position::new(PLAYER_START_X, PLAYER_START_Y)),
            },
        );
    }

    /// The per-tick hook: dispatches to the active phase's handler and, when
    /// the handler returns a new state, transitions to it for the next tick.
    pub fn update(&mut self, data: &mut World, resources: &mut Resources)
        requires
            old(self).fsm == LevelState::Generation ==> generation_ready(*old(resources)),
        ensures
            old(self).fsm == LevelState::Generation ==> {
                &&& final(self).fsm == LevelState::TurnManager
                &&& generation_post(*old(data), *final(data), *old(resources), *final(resources))
            },
            old(self).fsm != LevelState::Generation ==> {
                &&& *final(self) == *old(self)
                &&& *final(data) == *old(data)
                &&& *final(resources) == *old(resources)
            },
    {
        let next_state: Option<LevelState> = match self.fsm {
            LevelState::Generation => self.generation(data, resources),
            LevelState::TurnManager => self.turn_manager(data, resources),
            LevelState::PlayerInput => self.player_input(data, resources),
            LevelState::TurnSimulator => self.turn_simulator(data, resources),
        };

        if let Some(next_state) = next_state {
            self.fsm = next_state;
        }
    }

    /// The generation phase: builds a noise grid, smooths it, materializes
    /// the geometry into the entity store, publishes the grid as the shared
    /// map, and hands control to the turn manager.
    pub fn generation(&mut self, data: &mut World, resources: &mut Resources) -> (r: Option<
        LevelState,
    >)
        requires
            generation_ready(*old(resources)),
        ensures
            r == Some(LevelState::TurnManager),
            *final(self) == *old(self),
            generation_post(*old(data), *final(data), *old(resources), *final(resources)),
    {
        let initial = random_grid(GRID_WIDTH, GRID_HEIGHT);
        let map: GridBuffer = generate_from(initial, GRID_WIDTH, GRID_HEIGHT, GRID_PASSES);

        let models = resources.models.as_ref().unwrap();
        let multi_renderable = materialize(&map, models);

        data.insert(Entity { renderable: multi_renderable, position: None });

        resources.map = Some(LevelMap(map.cells));

        Some(LevelState::TurnManager)
    }

    /// The turn-manager phase: a stub with no implemented logic — it returns
    /// no transition and mutates nothing.
    pub fn turn_manager(&mut self, data: &mut World, resources: &mut Resources) -> (r: Option<
        LevelState,
    >)
        ensures
            r is None,
            *final(self) == *old(self),
            *final(data) == *old(data),
            *final(resources) == *old(resources),
    {
        None
    }

    /// The player-input phase: a stub with no implemented logic — it returns
    /// no transition and mutates nothing.
    pub fn player_input(&mut self, data: &mut World, resources: &mut Resources) -> (r: Option<
        LevelState,
    >)
        ensures
            r is None,
            *final(self) == *old(self),
            *final(data) == *old(data),
            *final(resources) == *old(resources),
    {
        None
    }

    /// The turn-simulator phase: a stub with no implemented logic — it
    /// returns no transition and mutates nothing.
    pub fn turn_simulator(&mut self, data: &mut World, resources: &mut Resources) -> (r: Option<
        LevelState,
    >)
        ensures
            r is None,
            *final(self) == *old(self),
            *final(data) == *old(data),
            *final(resources) == *old(resources),
    {
        None
    }
}

} // verus!
