//! The capability every game-object component offers: an update lifecycle.

use vstd::prelude::*;

verus! {

/// Base trait for every type that acts as a component of a game object.
/// The three lifecycle hooks default to doing nothing; a component
/// overrides the ones it cares about. Nothing is specified about their
/// behaviour: each implementation is free to mutate itself as it pleases.
pub trait Component {
    /// Called once, when the component is added to a game object.
    fn init(&mut self) {
    }

    /// Called once per tick.
    fn update(&mut self) {
    }

    /// Called when the component is removed.
    fn destruct(&mut self) {
    }
}

} // verus!
