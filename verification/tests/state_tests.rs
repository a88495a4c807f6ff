use rouge_left::entities::World;
use rouge_left::instance::RougeLeft;
use rouge_left::renderables::{load_renderables, Models, Renderables};
use rouge_left::state::{Level, LevelState, Resources};

#[test]
fn on_push_spawns_exactly_one_player_at_start() {
    let s = RougeLeft::_init();
    assert_eq!(s.world.entities.len(), 1);
    let e = &s.world.entities[0];
    let models = load_renderables(Models::default());
    let (player_t, player_i) = models.data_from_t(&Renderables::Player).unwrap();
    assert_eq!(e.renderable.template, player_t);
    assert_eq!(e.renderable.index, player_i);
    let pos = e.position.unwrap();
    assert_eq!(pos.x, 20);
    assert_eq!(pos.y, 20);
}

#[test]
fn first_update_transitions_to_turn_manager_and_publishes_map() {
    let mut s = RougeLeft::_init();
    s._ready();
    assert_eq!(s.level.fsm, LevelState::Generation);
    s._physics_process();
    assert_eq!(s.level.fsm, LevelState::TurnManager);
    let map = s.resources.map.as_ref().unwrap();
    assert_eq!(map.0.len(), 2500);
    assert_eq!(s.world.entities.len(), 2);
    let geometry = &s.world.entities[1];
    assert!(geometry.position.is_none());
    assert_eq!(geometry.renderable.children.len(), 2500 + 2 * 50 + 2 * 50);
}

#[test]
fn stub_phases_return_no_transition_and_mutate_nothing() {
    let mut level = Level::new();
    level.fsm = LevelState::TurnManager;
    let mut world = World::new();
    let mut resources = Resources::new();
    assert!(level.turn_manager(&mut world, &mut resources).is_none());
    assert!(level.player_input(&mut world, &mut resources).is_none());
    assert!(level.turn_simulator(&mut world, &mut resources).is_none());
    assert_eq!(level.fsm, LevelState::TurnManager);
    assert_eq!(world.entities.len(), 0);
    assert!(resources.models.is_none());
    assert!(resources.map.is_none());
}

#[test]
fn later_ticks_leave_the_session_unchanged() {
    let mut s = RougeLeft::_init();
    s._physics_process();
    assert_eq!(s.level.fsm, LevelState::TurnManager);
    let entities_before = s.world.entities.len();
    s._physics_process();
    assert_eq!(s.level.fsm, LevelState::TurnManager);
    assert_eq!(s.world.entities.len(), entities_before);
    assert!(s.resources.map.is_some());
}
