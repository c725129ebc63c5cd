//! What the species ask for: clothing, cooked food, services and building
//! materials.

use crate::facet::Facet;
use crate::recipe::{slot_lists, Recipe};
use crate::resource::{
    ale, incense, scrolls, tea, training_gear, wine, BuildingMaterial, Clothing, ComplexFood,
    Resource,
};
use crate::text::{title_of, titleize};
use vstd::prelude::*;

verus! {

/// Something a species requires.
///
/// Needs are ordered by kind first (clothing, complex food, services,
/// building materials), and inside a kind in the order in which the kind lists
/// its members. [`Need::rank`] is the position of a need in that order.
#[derive(Clone, Copy, Debug, PartialEq, Eq, Hash, PartialOrd, Ord, Structural)]
pub enum Need {
    Clothing(Clothing),
    ComplexFood(ComplexFood),
    Service(Service),
    BuildingMaterial(BuildingMaterial),
}

/// How many needs there are.
pub const NEED_COUNT: usize = 18;

impl Need {
    /// The symbolic name of the need: the name of its variant.
    pub open spec fn spec_name(self) -> Seq<char> {
        match self {
            Need::Clothing(clothing) => clothing.spec_name(),
            Need::ComplexFood(complex_food) => complex_food.spec_name(),
            Need::Service(service) => service.spec_name(),
            Need::BuildingMaterial(building_material) => building_material.spec_name(),
        }
    }

    /// The display name of the need.
    pub open spec fn spec_label(self) -> Seq<char> {
        title_of(self.spec_name())
    }

    /// The position of the need among all needs in ascending order.
    pub open spec fn spec_rank(self) -> nat {
        match self {
            Need::Clothing(Clothing::Coats) => 0,
            Need::Clothing(Clothing::Boots) => 1,
            Need::ComplexFood(ComplexFood::Porridge) => 2,
            Need::ComplexFood(ComplexFood::Biscuits) => 3,
            Need::ComplexFood(ComplexFood::Pie) => 4,
            Need::ComplexFood(ComplexFood::PickledGoods) => 5,
            Need::ComplexFood(ComplexFood::Jerky) => 6,
            Need::ComplexFood(ComplexFood::Paste) => 7,
            Need::ComplexFood(ComplexFood::Skewers) => 8,
            Need::Service(Service::Education) => 9,
            Need::Service(Service::Religion) => 10,
            Need::Service(Service::Treatment) => 11,
            Need::Service(Service::Luxury) => 12,
            Need::Service(Service::Leisure) => 13,
            Need::Service(Service::Brawling) => 14,
            Need::BuildingMaterial(BuildingMaterial::Planks) => 15,
            Need::BuildingMaterial(BuildingMaterial::Fabric) => 16,
            Need::BuildingMaterial(BuildingMaterial::Bricks) => 17,
        }
    }

    /// The symbolic name of the need: the name of its variant.
    pub fn name(&self) -> (name: &'static str)
        ensures
            name@ == self.spec_name(),
    {
        match self {
            Need::Clothing(clothing) => clothing.name(),
            Need::ComplexFood(complex_food) => complex_food.name(),
            Need::Service(service) => service.name(),
            Need::BuildingMaterial(building_material) => building_material.name(),
        }
    }

    /// The display name of the need, in title case with spaces.
    pub fn to_string(&self) -> (label: String)
        ensures
            label@ == self.spec_label(),
    {
        match self {
            Need::Clothing(clothing) => clothing.to_string(),
            Need::ComplexFood(complex_food) => complex_food.to_string(),
            Need::Service(service) => service.to_string(),
            Need::BuildingMaterial(building_material) => building_material.to_string(),
        }
    }

    /// The position of the need among all needs in ascending order.
    pub fn rank(&self) -> (rank: usize)
        ensures
            rank == self.spec_rank(),
            rank < NEED_COUNT,
            spec_all_needs()[rank as int] == *self,
    {
        match self {
            Need::Clothing(Clothing::Coats) => 0,
            Need::Clothing(Clothing::Boots) => 1,
            Need::ComplexFood(ComplexFood::Porridge) => 2,
            Need::ComplexFood(ComplexFood::Biscuits) => 3,
            Need::ComplexFood(ComplexFood::Pie) => 4,
            Need::ComplexFood(ComplexFood::PickledGoods) => 5,
            Need::ComplexFood(ComplexFood::Jerky) => 6,
            Need::ComplexFood(ComplexFood::Paste) => 7,
            Need::ComplexFood(ComplexFood::Skewers) => 8,
            Need::Service(Service::Education) => 9,
            Need::Service(Service::Religion) => 10,
            Need::Service(Service::Treatment) => 11,
            Need::Service(Service::Luxury) => 12,
            Need::Service(Service::Leisure) => 13,
            Need::Service(Service::Brawling) => 14,
            Need::BuildingMaterial(BuildingMaterial::Planks) => 15,
            Need::BuildingMaterial(BuildingMaterial::Fabric) => 16,
            Need::BuildingMaterial(BuildingMaterial::Bricks) => 17,
        }
    }
}

impl Recipe for Need {
    open spec fn slots(&self) -> Seq<Seq<Resource>> {
        match self {
            Need::Clothing(clothing) => clothing.slots(),
            Need::ComplexFood(complex_food) => complex_food.slots(),
            Need::Service(service) => service.slots(),
            Need::BuildingMaterial(building_material) => building_material.slots(),
        }
    }

    fn recipe(&self) -> (recipe: Vec<Vec<Resource>>) {
        match self {
            Need::Clothing(clothing) => clothing.recipe(),
            Need::ComplexFood(complex_food) => complex_food.recipe(),
            Need::Service(service) => service.recipe(),
            Need::BuildingMaterial(building_material) => building_material.recipe(),
        }
    }
}

impl Facet for Need {
    open spec fn label(&self) -> Seq<char> {
        self.spec_label()
    }

    fn to_label(&self) -> (label: String) {
        self.to_string()
    }

    fn same(&self, other: &Self) -> (same: bool) {
        *self == *other
    }
}

/// Every need, in ascending order.
pub open spec fn spec_all_needs() -> Seq<Need> {
    seq![
        Need::Clothing(Clothing::Coats),
        Need::Clothing(Clothing::Boots),
        Need::ComplexFood(ComplexFood::Porridge),
        Need::ComplexFood(ComplexFood::Biscuits),
        Need::ComplexFood(ComplexFood::Pie),
        Need::ComplexFood(ComplexFood::PickledGoods),
        Need::ComplexFood(ComplexFood::Jerky),
        Need::ComplexFood(ComplexFood::Paste),
        Need::ComplexFood(ComplexFood::Skewers),
        education(),
        religion(),
        treatment(),
        luxury(),
        leisure(),
        brawling(),
        Need::BuildingMaterial(BuildingMaterial::Planks),
        Need::BuildingMaterial(BuildingMaterial::Fabric),
        Need::BuildingMaterial(BuildingMaterial::Bricks),
    ]
}

/// Every need, in ascending order: the need of rank `i` stands at index `i`.
pub fn all_needs() -> (all: Vec<Need>)
    ensures
        all@ == spec_all_needs(),
        all@.len() == NEED_COUNT,
        forall|i: int| 0 <= i < all@.len() ==> (#[trigger] all@[i]).spec_rank() == i,
{
    let all = vec![
        Need::Clothing(Clothing::Coats),
        Need::Clothing(Clothing::Boots),
        Need::ComplexFood(ComplexFood::Porridge),
        Need::ComplexFood(ComplexFood::Biscuits),
        Need::ComplexFood(ComplexFood::Pie),
        Need::ComplexFood(ComplexFood::PickledGoods),
        Need::ComplexFood(ComplexFood::Jerky),
        Need::ComplexFood(ComplexFood::Paste),
        Need::ComplexFood(ComplexFood::Skewers),
        education(),
        religion(),
        treatment(),
        luxury(),
        leisure(),
        brawling(),
        Need::BuildingMaterial(BuildingMaterial::Planks),
        Need::BuildingMaterial(BuildingMaterial::Fabric),
        Need::BuildingMaterial(BuildingMaterial::Bricks),
    ];
    assert(all@ =~= spec_all_needs());
    all
}

/// The rank tells needs apart: it is below [`NEED_COUNT`], the need of rank
/// `i` is the `i`-th of [`spec_all_needs`], and two needs of one rank are one
/// need.
pub proof fn lemma_rank_identifies(a: Need, b: Need)
    ensures
        a.spec_rank() < NEED_COUNT,
        spec_all_needs().len() == NEED_COUNT,
        spec_all_needs()[a.spec_rank() as int] == a,
        a.spec_rank() == b.spec_rank() ==> a == b,
{
}

/// Something that is provided rather than produced. Each service uses up one
/// consumable item.
#[derive(Clone, Copy, Debug, PartialEq, Eq, Hash, PartialOrd, Ord, Structural)]
pub enum Service {
    Education,
    Religion,
    Treatment,
    Luxury,
    Leisure,
    Brawling,
}

impl Service {
    /// The symbolic name: the name of the variant.
    pub open spec fn spec_name(self) -> Seq<char> {
        match self {
            Service::Education => "Education"@,
            Service::Religion => "Religion"@,
            Service::Treatment => "Treatment"@,
            Service::Luxury => "Luxury"@,
            Service::Leisure => "Leisure"@,
            Service::Brawling => "Brawling"@,
        }
    }

    /// The display name.
    pub open spec fn spec_label(self) -> Seq<char> {
        title_of(self.spec_name())
    }

    /// The one resource that provides the service.
    pub open spec fn supply(self) -> Resource {
        match self {
            Service::Education => scrolls(),
            Service::Religion => incense(),
            Service::Treatment => tea(),
            Service::Luxury => wine(),
            Service::Leisure => ale(),
            Service::Brawling => training_gear(),
        }
    }

    /// The symbolic name: the name of the variant.
    pub fn name(&self) -> (name: &'static str)
        ensures
            name@ == self.spec_name(),
    {
        match self {
            Service::Education => "Education",
            Service::Religion => "Religion",
            Service::Treatment => "Treatment",
            Service::Luxury => "Luxury",
            Service::Leisure => "Leisure",
            Service::Brawling => "Brawling",
        }
    }

    /// The display name, in title case with spaces.
    pub fn to_string(&self) -> (label: String)
        ensures
            label@ == self.spec_label(),
    {
        titleize(self.name())
    }
}

impl Recipe for Service {
    open spec fn slots(&self) -> Seq<Seq<Resource>> {
        seq![seq![self.supply()]]
    }

    fn recipe(&self) -> (recipe: Vec<Vec<Resource>>) {
        let recipe = vec![vec![match self {
            Service::Education => scrolls(),
            Service::Religion => incense(),
            Service::Treatment => tea(),
            Service::Luxury => wine(),
            Service::Leisure => ale(),
            Service::Brawling => training_gear(),
        }]];
        assert(slot_lists(recipe) =~~= self.slots());
        recipe
    }
}

impl Facet for Service {
    open spec fn label(&self) -> Seq<char> {
        self.spec_label()
    }

    fn to_label(&self) -> (label: String) {
        self.to_string()
    }

    fn same(&self, other: &Self) -> (same: bool) {
        *self == *other
    }
}

/// Every service, in catalog order.
pub open spec fn spec_all_services() -> Seq<Service> {
    seq![
        Service::Education,
        Service::Religion,
        Service::Treatment,
        Service::Luxury,
        Service::Leisure,
        Service::Brawling,
    ]
}

/// The list of services holds every service, and none twice.
pub proof fn lemma_all_services_once_each(service: Service)
    ensures
        spec_all_services().contains(service),
        spec_all_services().no_duplicates(),
{
    let all = spec_all_services();
    match service {
        Service::Education => assert(all[0] == service),
        Service::Religion => assert(all[1] == service),
        Service::Treatment => assert(all[2] == service),
        Service::Luxury => assert(all[3] == service),
        Service::Leisure => assert(all[4] == service),
        Service::Brawling => assert(all[5] == service),
    }
}

/// Every service, in catalog order.
pub fn all_services() -> (all: Vec<Service>)
    ensures
        all@ == spec_all_services(),
{
    let all = vec![
        Service::Education,
        Service::Religion,
        Service::Treatment,
        Service::Luxury,
        Service::Leisure,
        Service::Brawling,
    ];
    assert(all@ =~= spec_all_services());
    all
}

/// The need for education.
#[verifier::allow_in_spec]
pub fn education() -> Need
    returns
        Need::Service(Service::Education),
{
    Need::Service(Service::Education)
}

/// The need for religion.
#[verifier::allow_in_spec]
pub fn religion() -> Need
    returns
        Need::Service(Service::Religion),
{
    Need::Service(Service::Religion)
}

/// The need for treatment.
#[verifier::allow_in_spec]
pub fn treatment() -> Need
    returns
        Need::Service(Service::Treatment),
{
    Need::Service(Service::Treatment)
}

/// The need for luxury.
#[verifier::allow_in_spec]
pub fn luxury() -> Need
    returns
        Need::Service(Service::Luxury),
{
    Need::Service(Service::Luxury)
}

/// The need for leisure.
#[verifier::allow_in_spec]
pub fn leisure() -> Need
    returns
        Need::Service(Service::Leisure),
{
    Need::Service(Service::Leisure)
}

/// The need for brawling.
#[verifier::allow_in_spec]
pub fn brawling() -> Need
    returns
        Need::Service(Service::Brawling),
{
    Need::Service(Service::Brawling)
}

} // verus!
