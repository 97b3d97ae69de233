//! Which entities are shown, and in which views each one is visible.

use crate::command::Entity;
use vstd::prelude::*;

verus! {

/// Whether the user shows or hides an entity.
#[derive(Clone, Copy, PartialEq, Eq, Structural, Debug)]
pub enum Visibility {
    Visible,
    Hidden,
}

/// The views in which an entity is visible, as found by culling.
#[derive(Clone, PartialEq, Eq, Debug)]
pub struct ViewVisibility {
    pub views: Vec<usize>,
}

impl ViewVisibility {
    pub open spec fn spec_is_visible(self, view: usize) -> bool {
        self.views@.contains(view)
    }

    /// Visible in no view.
    pub fn new() -> (visibility: Self)
        ensures
            forall|view: usize| !visibility.spec_is_visible(view),
    {
        ViewVisibility { views: Vec::new() }
    }

    /// Marks the entity visible in a view.
    pub fn set_visible(&mut self, view: usize)
        ensures
            forall|other: usize|
                #[trigger] final(self).spec_is_visible(other) == (other == view || old(
                    self,
                ).spec_is_visible(other)),
    {
        let ghost before = self.views@;
        self.views.push(view);
        proof {
            let after = self.views@;
            assert(after == before.push(view));
            assert forall|other: usize|
                #[trigger] after.contains(other) == (other == view || before.contains(other)) by {
                if before.contains(other) {
                    let k = choose|k: int| 0 <= k < before.len() && before[k] == other;
                    assert(after[k] == other);
                }
                if other == view {
                    assert(after[before.len() as int] == view);
                }
                if after.contains(other) {
                    let k = choose|k: int| 0 <= k < after.len() && after[k] == other;
                    if k < before.len() {
                        assert(before[k] == other);
                    }
                }
            }
        }
    }

    pub fn is_visible(&self, view: usize) -> (r: bool)
        ensures
            r == self.spec_is_visible(view),
    {
        let mut i: usize = 0;
        while i < self.views.len()
            invariant
                i <= self.views@.len(),
                forall|k: int| 0 <= k < i ==> self.views@[k] != view,
            decreases self.views.len() - i,
        {
            if self.views[i] == view {
                return true;
            }
            i += 1;
        }
        false
    }
}

/// Whether an entity shows in a view. An entity that culling has not looked
/// at shows in every view.
pub open spec fn spec_is_visible(visibility: Option<ViewVisibility>, view: usize) -> bool {
    match visibility {
        Some(v) => v.spec_is_visible(view),
        None => true,
    }
}

pub fn is_visible(visibility: &Option<ViewVisibility>, view: usize) -> (r: bool)
    ensures
        r == spec_is_visible(*visibility, view),
{
    match visibility {
        Some(v) => v.is_visible(view),
        None => true,
    }
}

/// An entity with the mark that shows or hides it.
#[derive(Clone, Copy, PartialEq, Eq, Structural, Debug)]
pub struct EntityVisibility {
    pub entity: Entity,
    pub visibility: Visibility,
}

/// Hides every entity but the selected one. Without a selection every
/// entity is hidden.
pub fn hide_unselected(entities: &mut Vec<EntityVisibility>, selected: Option<Entity>)
    ensures
        final(entities)@.len() == old(entities)@.len(),
        forall|i: int|
            0 <= i < old(entities)@.len() ==> (#[trigger] final(entities)@[i]).entity == old(
                entities,
            )@[i].entity,
        forall|i: int|
            0 <= i < old(entities)@.len() ==> (#[trigger] final(entities)@[i]).visibility == if Some(
                old(entities)@[i].entity,
            ) != selected {
                Visibility::Hidden
            } else {
                old(entities)@[i].visibility
            },
{
    let mut i: usize = 0;
    while i < entities.len()
        invariant
            i <= entities@.len(),
            entities@.len() == old(entities)@.len(),
            forall|k: int|
                0 <= k < entities@.len() ==> (#[trigger] entities@[k]).entity == old(
                    entities,
                )@[k].entity,
            forall|k: int| i <= k < entities@.len() ==> entities@[k] == old(entities)@[k],
            forall|k: int|
                0 <= k < i ==> (#[trigger] entities@[k]).visibility == if Some(
                    old(entities)@[k].entity,
                ) != selected {
                    Visibility::Hidden
                } else {
                    old(entities)@[k].visibility
                },
        decreases entities.len() - i,
    {
        let entry = entities[i];
        let is_selected = match selected {
            Some(e) => e == entry.entity,
            None => false,
        };
        if !is_selected {
            entities[i] = EntityVisibility { entity: entry.entity, visibility: Visibility::Hidden };
        }
        i += 1;
    }
}

/// Shows every entity.
pub fn unhide_all(entities: &mut Vec<EntityVisibility>)
    ensures
        final(entities)@.len() == old(entities)@.len(),
        forall|i: int|
            0 <= i < old(entities)@.len() ==> #[trigger] final(entities)@[i] == (EntityVisibility {
                entity: old(entities)@[i].entity,
                visibility: Visibility::Visible,
            }),
{
    let mut i: usize = 0;
    while i < entities.len()
        invariant
            i <= entities@.len(),
            entities@.len() == old(entities)@.len(),
            forall|k: int| i <= k < entities@.len() ==> entities@[k] == old(entities)@[k],
            forall|k: int|
                0 <= k < i ==> #[trigger] entities@[k] == (EntityVisibility {
                    entity: old(entities)@[k].entity,
                    visibility: Visibility::Visible,
                }),
        decreases entities.len() - i,
    {
        let entry = entities[i];
        entities[i] = EntityVisibility { entity: entry.entity, visibility: Visibility::Visible };
        i += 1;
    }
}

} // verus!
