//! Recipes: what a good is made from.

use crate::resource::Resource;
use vstd::prelude::*;

verus! {

/// A recipe as nested sequences: one inner sequence per ingredient slot,
/// holding the alternatives of that slot.
pub open spec fn slot_lists(recipe: Vec<Vec<Resource>>) -> Seq<Seq<Resource>> {
    Seq::new(recipe@.len(), |i: int| recipe@[i]@)
}

/// Anything that is made from resources.
///
/// A recipe is an ordered list of ingredient slots. Every slot has to be
/// filled, and any one of the alternatives of a slot fills it. An empty recipe
/// marks a raw good.
pub trait Recipe {
    /// The ingredient slots, each with its alternatives in order.
    spec fn slots(&self) -> Seq<Seq<Resource>>;

    /// The ingredient slots, each with its alternatives in order.
    fn recipe(&self) -> (recipe: Vec<Vec<Resource>>)
        ensures
            slot_lists(recipe) == self.slots(),
    ;
}

} // verus!
