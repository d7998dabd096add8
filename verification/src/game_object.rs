//! A named container of heterogeneous components with an update lifecycle.

use vstd::prelude::*;
use crate::component::Component;

verus! {

/// One owned, dynamically-typed component.
struct ComponentSlot(Box<dyn Component>);

/// Relies on std's `Box::new` and its unsizing coercion from `Box<T>` to
/// `Box<dyn Component>`, which Verus cannot model: the box owns exactly the
/// component it was given. Nothing is claimed about the resulting slot; the
/// container's contracts speak only of how many slots it holds.
#[verifier::external_body]
fn into_slot<T: Component + 'static>(component: T) -> ComponentSlot {
    ComponentSlot(Box::new(component))
}

/// A game object: a name and a list of owned components, updated in the
/// order they were added.
pub struct GameObject {
    pub name: String,
    components: Vec<ComponentSlot>,
}

impl GameObject {
    /// How many components the object holds.
    pub closed spec fn component_count(&self) -> nat {
        self.components@.len()
    }

    /// The name, as a sequence of characters.
    pub closed spec fn name_view(&self) -> Seq<char> {
        self.name@
    }

    /// An empty game object with the given name.
    pub fn new(name: &str) -> (r: GameObject)
        ensures
            r.name_view() == name@,
            r.component_count() == 0,
    {
        GameObject { name: name.to_string(), components: Vec::new() }
    }

    /// Initialise the component, then take ownership of it.
    pub fn add_component<T: Component + 'static>(&mut self, component: T)
        ensures
            final(self).name_view() == old(self).name_view(),
            final(self).component_count() == old(self).component_count() + 1,
    {
        let mut component = component;
        component.init();
        self.components.push(into_slot(component));
    }

    /// Run one update tick over every component, in insertion order.
    pub fn update(&mut self)
        ensures
            final(self).name_view() == old(self).name_view(),
            final(self).component_count() == old(self).component_count(),
    {
        let ghost n = self.components@.len();
        let mut updated: Vec<ComponentSlot> = Vec::new();
        while self.components.len() > 0
            invariant
                updated@.len() + self.components@.len() == n,
                self.name == old(self).name,
            decreases self.components@.len(),
        {
            let mut slot = self.components.remove(0);
            slot.0.update();
            updated.push(slot);
        }
        self.components = updated;
    }
}

} // verus!
