//! The renderable categories and the template lookup table that the host
//! pre-populates before a level runs.

use vstd::prelude::*;

verus! {

/// Semantic categories of placeable objects. `Enemy` is reserved: no current
/// logic uses it, but it stays a valid category.
#[derive(Debug, Clone, Copy, Hash, PartialEq, Eq, Structural)]
pub enum Renderables {
    Player,
    Enemy,
    Wall,
    Floor,
}

/// How a registered model is instantiated by the host renderer.
#[derive(Debug, Clone, Copy, PartialEq, Eq, Structural)]
pub enum Template {
    Scene,
}

/// The template lookup: an insertion-ordered registry resolving a category to
/// a template kind and a variant index.
pub struct Models {
    pub entries: Vec<(Renderables, Template)>,
}

/// What `Models::data_from_t` resolves: the first entry registered for `t`,
/// together with its insertion index, or `None` when `t` was never
/// registered.
pub open spec fn spec_data_from_t(entries: Seq<(Renderables, Template)>, t: Renderables) -> Option<
    (Template, int),
>
    decreases entries.len(),
{
    if entries.len() == 0 {
        None
    } else if entries[0].0 == t {
        Some((entries[0].1, 0int))
    } else {
        match spec_data_from_t(entries.skip(1), t) {
            Some(p) => Some((p.0, p.1 + 1)),
            None => None,
        }
    }
}

/// When entry `i` is the first one registered for `t`, the resolution is
/// exactly that entry with index `i`.
proof fn lemma_first_match(entries: Seq<(Renderables, Template)>, t: Renderables, i: int)
    requires
        0 <= i < entries.len(),
        entries[i].0 == t,
        forall|j: int| 0 <= j < i ==> (#[trigger] entries[j]).0 != t,
    ensures
        spec_data_from_t(entries, t) == Some((entries[i].1, i)),
    decreases i,
{
    if i == 0 {
    } else {
        assert(entries[0].0 != t);
        assert forall|j: int| 0 <= j < i - 1 implies (#[trigger] entries.skip(1)[j]).0 != t by {
            assert(entries.skip(1)[j] == entries[j + 1]);
        }
        assert(entries.skip(1)[i - 1] == entries[i]);
        lemma_first_match(entries.skip(1), t, i - 1);
    }
}

/// When no entry is registered for `t`, nothing resolves.
proof fn lemma_no_match(entries: Seq<(Renderables, Template)>, t: Renderables)
    requires
        forall|j: int| 0 <= j < entries.len() ==> (#[trigger] entries[j]).0 != t,
    ensures
        spec_data_from_t(entries, t) is None,
    decreases entries.len(),
{
    if entries.len() == 0 {
    } else {
        assert forall|j: int| 0 <= j < entries.len() - 1 implies (#[trigger] entries.skip(1)[j]).0
            != t by {
            assert(entries.skip(1)[j] == entries[j + 1]);
        }
        lemma_no_match(entries.skip(1), t);
    }
}

/// When some entry is registered for `t`, the lookup resolves.
proof fn lemma_some_match(entries: Seq<(Renderables, Template)>, t: Renderables, i: int)
    requires
        0 <= i < entries.len(),
        entries[i].0 == t,
    ensures
        spec_data_from_t(entries, t) is Some,
    decreases i,
{
    if entries[0].0 == t {
    } else {
        assert(entries.skip(1)[i - 1] == entries[i]);
        lemma_some_match(entries.skip(1), t, i - 1);
    }
}

impl Models {
    /// Registers `t` under the next variant index.
    pub fn insert(&mut self, t: Renderables, template: Template)
        ensures
            final(self).entries@ == old(self).entries@.push((t, template)),
    {
        self.entries.push((t, template));
    }

    /// Resolves a category: the template and variant index of the first entry
    /// registered for `t`, or `None` when `t` was never registered.
    pub fn data_from_t(&self, t: &Renderables) -> (r: Option<(Template, usize)>)
        ensures
            r matches Some(p) ==> spec_data_from_t(self.entries@, *t) == Some((p.0, p.1 as int)),
            r is None ==> spec_data_from_t(self.entries@, *t) is None,
    {
        let n = self.entries.len();
        let mut i: usize = 0;
        while i < n
            invariant
                n == self.entries@.len(),
                i <= n,
                forall|j: int| 0 <= j < i ==> (#[trigger] self.entries@[j]).0 != *t,
            decreases n - i,
        {
            let e = self.entries[i];
            if e.0 == *t {
                proof {
                    lemma_first_match(self.entries@, *t, i as int);
                }
                return Some((e.1, i));
            }
            i = i + 1;
        }
        proof {
            lemma_no_match(self.entries@, *t);
        }
        None
    }
}

impl Default for Models {
    /// An empty registry.
    fn default() -> (m: Models)
        ensures
            m.entries@.len() == 0,
    {
        Models { entries: Vec::new() }
    }
}

/// Registers every category the level-session uses — Wall, Floor and Player,
/// in that order, then Enemy, which no current logic draws but which must
/// stay a valid category — each as a host scene, on top of whatever is
/// already registered.
pub fn load_renderables(renderables: Models) -> (r: Models)
    ensures
        r.entries@ == renderables.entries@.push((Renderables::Wall, Template::Scene)).push(
            (Renderables::Floor, Template::Scene),
        ).push((Renderables::Player, Template::Scene)).push((Renderables::Enemy, Template::Scene)),
        spec_data_from_t(r.entries@, Renderables::Wall) is Some,
        spec_data_from_t(r.entries@, Renderables::Floor) is Some,
        spec_data_from_t(r.entries@, Renderables::Player) is Some,
        spec_data_from_t(r.entries@, Renderables::Enemy) is Some,
{
    let mut renderables = renderables;
    renderables.insert(Renderables::Wall, Template::Scene);
    renderables.insert(Renderables::Floor, Template::Scene);
    renderables.insert(Renderables::Player, Template::Scene);
    renderables.insert(Renderables::Enemy, Template::Scene);
    proof {
        let n = renderables.entries@.len();
        assert(renderables.entries@[n - 4].0 == Renderables::Wall);
        assert(renderables.entries@[n - 3].0 == Renderables::Floor);
        assert(renderables.entries@[n - 2].0 == Renderables::Player);
        assert(renderables.entries@[n - 1].0 == Renderables::Enemy);
        lemma_some_match(renderables.entries@, Renderables::Wall, n - 4);
        lemma_some_match(renderables.entries@, Renderables::Floor, n - 3);
        lemma_some_match(renderables.entries@, Renderables::Player, n - 2);
        lemma_some_match(renderables.entries@, Renderables::Enemy, n - 1);
    }
    renderables
}

} // verus!
