//! What a menu needs to know of the things it offers.

use vstd::prelude::*;

verus! {

/// Something a menu can offer: it has a display name and can be told apart
/// from the other options.
pub trait Facet: Copy {
    /// The display name, as the menus and the report show it.
    spec fn label(&self) -> Seq<char>;

    /// Renders the display name.
    fn to_label(&self) -> (label: String)
        ensures
            label@ == self.label(),
    ;

    /// Whether `self` and `other` are the same option.
    fn same(&self, other: &Self) -> (same: bool)
        ensures
            same == (*self == *other),
    ;
}

} // verus!
