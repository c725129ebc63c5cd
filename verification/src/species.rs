//! The species of villagers and what each of them needs.

use crate::facet::Facet;
use crate::needs::{brawling, education, leisure, luxury, religion, treatment, Need};
use crate::resource::{Clothing, ComplexFood};
use crate::text::{pascalize, recased, title_of, titleize, LetterCase};
use vstd::prelude::*;

verus! {

/// A species of villagers.
#[derive(Clone, Copy, Debug, PartialEq, Eq, Hash, PartialOrd, Ord, Structural)]
pub enum Species {
    Humans,
    Beavers,
    Lizards,
    Harpies,
    Foxes,
}

/// A value that names nothing in the catalog it was looked up in.
#[derive(Debug, PartialEq, Eq)]
pub enum CatalogError {
    /// The text that matched no entry.
    InvalidCategoryValue(String),
}

impl CatalogError {
    /// The text that matched no entry.
    pub open spec fn value(self) -> Seq<char> {
        match self {
            CatalogError::InvalidCategoryValue(value) => value@,
        }
    }

    /// The message for the user: the rejected text, followed by
    /// ` is not a valid species`.
    pub fn to_string(&self) -> (message: String)
        ensures
            message@ == self.value() + " is not a valid species"@,
    {
        match self {
            CatalogError::InvalidCategoryValue(value) => {
                let mut message = value.clone();
                message.append(" is not a valid species");
                message
            },
        }
    }
}

impl Species {
    /// The symbolic name: the name of the variant.
    pub open spec fn spec_name(self) -> Seq<char> {
        match self {
            Species::Humans => "Humans"@,
            Species::Beavers => "Beavers"@,
            Species::Lizards => "Lizards"@,
            Species::Harpies => "Harpies"@,
            Species::Foxes => "Foxes"@,
        }
    }

    /// The display name.
    pub open spec fn spec_label(self) -> Seq<char> {
        title_of(self.spec_name())
    }

    /// What the species needs, in the order of its list.
    pub open spec fn spec_needs(self) -> Seq<Need> {
        match self {
            Species::Beavers => seq![
                Need::ComplexFood(ComplexFood::Biscuits),
                Need::ComplexFood(ComplexFood::PickledGoods),
                education(),
                luxury(),
                Need::Clothing(Clothing::Coats),
            ],
            Species::Harpies => seq![
                Need::ComplexFood(ComplexFood::Jerky),
                Need::ComplexFood(ComplexFood::Paste),
                education(),
                treatment(),
                Need::Clothing(Clothing::Coats),
                Need::Clothing(Clothing::Boots),
            ],
            Species::Humans => seq![
                Need::ComplexFood(ComplexFood::Porridge),
                Need::ComplexFood(ComplexFood::Biscuits),
                Need::ComplexFood(ComplexFood::Pie),
                religion(),
                leisure(),
                Need::Clothing(Clothing::Coats),
            ],
            Species::Lizards => seq![
                Need::ComplexFood(ComplexFood::Pie),
                Need::ComplexFood(ComplexFood::PickledGoods),
                Need::ComplexFood(ComplexFood::Jerky),
                Need::ComplexFood(ComplexFood::Skewers),
                brawling(),
                Need::Clothing(Clothing::Boots),
            ],
            Species::Foxes => seq![
                Need::ComplexFood(ComplexFood::Porridge),
                Need::ComplexFood(ComplexFood::Skewers),
                Need::ComplexFood(ComplexFood::PickledGoods),
                Need::Clothing(Clothing::Boots),
                religion(),
                treatment(),
            ],
        }
    }

    /// The symbolic name: the name of the variant.
    pub fn name(&self) -> (name: &'static str)
        ensures
            name@ == self.spec_name(),
    {
        match self {
            Species::Humans => "Humans",
            Species::Beavers => "Beavers",
            Species::Lizards => "Lizards",
            Species::Harpies => "Harpies",
            Species::Foxes => "Foxes",
        }
    }

    /// The display name, in title case with spaces.
    pub fn to_string(&self) -> (label: String)
        ensures
            label@ == self.spec_label(),
    {
        titleize(self.name())
    }

    /// What the species needs, in the order of its list.
    pub fn needs(&self) -> (needs: Vec<Need>)
        ensures
            needs@ == self.spec_needs(),
    {
        let needs = match self {
            Species::Beavers => vec![
                Need::ComplexFood(ComplexFood::Biscuits),
                Need::ComplexFood(ComplexFood::PickledGoods),
                education(),
                luxury(),
                Need::Clothing(Clothing::Coats),
            ],
            Species::Harpies => vec![
                Need::ComplexFood(ComplexFood::Jerky),
                Need::ComplexFood(ComplexFood::Paste),
                education(),
                treatment(),
                Need::Clothing(Clothing::Coats),
                Need::Clothing(Clothing::Boots),
            ],
            Species::Humans => vec![
                Need::ComplexFood(ComplexFood::Porridge),
                Need::ComplexFood(ComplexFood::Biscuits),
                Need::ComplexFood(ComplexFood::Pie),
                religion(),
                leisure(),
                Need::Clothing(Clothing::Coats),
            ],
            Species::Lizards => vec![
                Need::ComplexFood(ComplexFood::Pie),
                Need::ComplexFood(ComplexFood::PickledGoods),
                Need::ComplexFood(ComplexFood::Jerky),
                Need::ComplexFood(ComplexFood::Skewers),
                brawling(),
                Need::Clothing(Clothing::Boots),
            ],
            Species::Foxes => vec![
                Need::ComplexFood(ComplexFood::Porridge),
                Need::ComplexFood(ComplexFood::Skewers),
                Need::ComplexFood(ComplexFood::PickledGoods),
                Need::Clothing(Clothing::Boots),
                religion(),
                treatment(),
            ],
        };
        assert(needs@ =~= self.spec_needs());
        needs
    }

    /// Looks a species up by a text in any letter case: the text is put in
    /// upper camel case first, and the first species of [`all_species`] with
    /// that display name is the answer. A text that names no species is handed
    /// back in the error.
    pub fn try_from(value: &String) -> (found: Result<Species, CatalogError>)
        ensures
            ({
                let all = spec_all_species();
                let wanted = recased(value@, LetterCase::UpperCamel);
                match found {
                    Ok(species) => exists|i: int|
                        0 <= i < all.len() && all[i] == species && all[i].spec_label() == wanted
                            && forall|j: int| 0 <= j < i ==> all[j].spec_label() != wanted,
                    Err(error) => error.value() == value@ && forall|i: int|
                        0 <= i < all.len() ==> all[i].spec_label() != wanted,
                }
            }),
    {
        let wanted = pascalize(value.as_str());
        let all = all_species();
        let mut i: usize = 0;
        while i < all.len()
            invariant
                i <= all@.len(),
                all@ == spec_all_species(),
                wanted@ == recased(value@, LetterCase::UpperCamel),
                forall|j: int| 0 <= j < i ==> all@[j].spec_label() != wanted@,
            decreases all@.len() - i,
        {
            let label = all[i].to_string();
            if label == wanted {
                return Ok(all[i]);
            }
            i += 1;
        }
        Err(CatalogError::InvalidCategoryValue(value.clone()))
    }
}

impl Facet for Species {
    open spec fn label(&self) -> Seq<char> {
        self.spec_label()
    }

    fn to_label(&self) -> (label: String) {
        self.to_string()
    }

    fn same(&self, other: &Self) -> (same: bool) {
        *self == *other
    }
}

/// Every species, in the order in which the menus offer them.
pub open spec fn spec_all_species() -> Seq<Species> {
    seq![Species::Beavers, Species::Humans, Species::Harpies, Species::Lizards, Species::Foxes]
}

/// Every species, in the order in which the menus offer them.
pub fn all_species() -> (all: Vec<Species>)
    ensures
        all@ == spec_all_species(),
{
    let all = vec![
        Species::Beavers,
        Species::Humans,
        Species::Harpies,
        Species::Lizards,
        Species::Foxes,
    ];
    assert(all@ =~= spec_all_species());
    all
}

/// The list of species holds every species, and none twice.
pub proof fn lemma_all_species_once_each(species: Species)
    ensures
        spec_all_species().contains(species),
        spec_all_species().no_duplicates(),
{
    let all = spec_all_species();
    match species {
        Species::Beavers => assert(all[0] == species),
        Species::Humans => assert(all[1] == species),
        Species::Harpies => assert(all[2] == species),
        Species::Lizards => assert(all[3] == species),
        Species::Foxes => assert(all[4] == species),
    }
}

/// No species lists a need twice.
pub proof fn lemma_needs_listed_once(species: Species, i: int, j: int)
    requires
        0 <= i < j < species.spec_needs().len(),
    ensures
        species.spec_needs()[i] != species.spec_needs()[j],
{
}

} // verus!
