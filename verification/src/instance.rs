//! The host-facing session: what the engine binding constructs once and then
//! drives through its lifecycle callbacks.

use vstd::prelude::*;

use crate::entities::World;
use crate::renderables::{load_renderables, Models, Renderables, Template};
use crate::state::{
    generation_post, generation_ready, is_player_entity, player_registered, Level, LevelState,
    Resources,
};

verus! {

/// The template lookup is registered and resolves every category the level
/// needs.
pub open spec fn session_ready(s: RougeLeft) -> bool {
    &&& player_registered(s.resources)
    &&& generation_ready(s.resources)
}

/// The level session as the host sees it: the entity store, the resource
/// registry and the level state machine, driven once per physics tick.
pub struct RougeLeft {
    pub world: World,
    pub resources: Resources,
    pub level: Level,
}

impl RougeLeft {
    /// Builds the session: registers the renderable templates, pushes a
    /// fresh level, and lets its activation hook spawn the player.
    pub fn _init() -> (s: RougeLeft)
        ensures
            session_ready(s),
            s.resources.models matches Some(m) && m.entries@ == seq![
                (Renderables::Wall, Template::Scene),
                (Renderables::Floor, Template::Scene),
                (Renderables::Player, Template::Scene),
                (Renderables::Enemy, Template::Scene),
            ],
            s.level.fsm == LevelState::Generation,
            s.resources.map is None,
            s.world.entities@.len() == 1,
            is_player_entity(s.world.entities@[0], s.resources),
    {
        let renderables = load_renderables(Models::default());
        proof {
            assert(renderables.entries@ =~= seq![
                (Renderables::Wall, Template::Scene),
                (Renderables::Floor, Template::Scene),
                (Renderables::Player, Template::Scene),
                (Renderables::Enemy, Template::Scene),
            ]);
        }
        let mut world = World::new();
        let mut resources = Resources::new();
        resources.models = Some(renderables);
        let mut level = Level::new();
        level.on_push(&mut world, &mut resources);
        RougeLeft { world, resources, level }
    }

    /// The host's readiness callback: scene wiring happens on the host side,
    /// so the core has nothing to set up.
    pub fn _ready(&mut self)
        ensures
            *final(self) == *old(self),
    {
    }

    /// One physics tick: updates the active phase of the level.
    pub fn _physics_process(&mut self)
        requires
            old(self).level.fsm == LevelState::Generation ==> generation_ready(
                old(self).resources,
            ),
        ensures
            old(self).level.fsm == LevelState::Generation ==> {
                &&& final(self).level.fsm == LevelState::TurnManager
                &&& generation_post(
                    old(self).world,
                    final(self).world,
                    old(self).resources,
                    final(self).resources,
                )
            },
            old(self).level.fsm != LevelState::Generation ==> *final(self) == *old(self),
    {
        self.level.update(&mut self.world, &mut self.resources);
    }
}

} // verus!
