//! Positioned renderable entities and the store that owns them.

use vstd::prelude::*;

use crate::renderables::Template;

verus! {

/// A 2-D coordinate in grid space.
#[derive(Debug, Clone, Copy, PartialEq, Eq, Structural)]
pub struct Position {
    pub x: usize,
    pub y: usize,
}

impl Position {
    pub fn new(x: usize, y: usize) -> (p: Position)
        ensures
            p.x == x,
            p.y == y,
    {
        Position { x, y }
    }
}

impl Default for Position {
    /// The origin.
    fn default() -> (p: Position)
        ensures
            p.x == 0,
            p.y == 0,
    {
        Position { x: 0, y: 0 }
    }
}

/// One placeable object: which visual to instantiate (template kind plus
/// variant index), where it sits, and optionally a batch of child
/// renderables sharing this entity as their spatial anchor.
pub struct Renderable {
    pub position: Position,
    pub index: usize,
    pub template: Template,
    pub children: Vec<Renderable>,
}

impl Renderable {
    pub fn new(position: Position, index: usize, template: Template) -> (r: Renderable)
        ensures
            r.position == position,
            r.index == index,
            r.template == template,
            r.children@.len() == 0,
    {
        Renderable { position, index, template, children: Vec::new() }
    }

    /// Adds one child sharing this entity's anchor.
    pub fn push_child(&mut self, child: Renderable)
        ensures
            final(self).position == old(self).position,
            final(self).index == old(self).index,
            final(self).template == old(self).template,
            final(self).children@ == old(self).children@.push(child),
    {
        self.children.push(child);
    }
}

impl Default for Renderable {
    /// An anchor at the origin with no children.
    fn default() -> (r: Renderable)
        ensures
            r.position.x == 0,
            r.position.y == 0,
            r.index == 0,
            r.template == Template::Scene,
            r.children@.len() == 0,
    {
        Renderable {
            position: Position::new(0, 0),
            index: 0,
            template: Template::Scene,
            children: Vec::new(),
        }
    }
}

/// One entry of the entity store: a renderable plus, optionally, a position
/// component.
pub struct Entity {
    pub renderable: Renderable,
    pub position: Option<Position>,
}

/// The entity store: insertion-ordered and, from within the core,
/// append-only.
pub struct World {
    pub entities: Vec<Entity>,
}

impl World {
    pub fn new() -> (w: World)
        ensures
            w.entities@.len() == 0,
    {
        World { entities: Vec::new() }
    }

    /// Hands one entity over to the store.
    pub fn insert(&mut self, e: Entity)
        ensures
            final(self).entities@ == old(self).entities@.push(e),
    {
        self.entities.push(e);
    }
}

} // verus!
