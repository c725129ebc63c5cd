//! The catalog of resources: every good that can be produced, by category,
//! with the alternatives it can be made from.

use crate::facet::Facet;
use crate::recipe::{slot_lists, Recipe};
use crate::text::{title_of, titleize};
use vstd::prelude::*;

verus! {

/// One producible good, tagged with the category it belongs to.
///
/// Resources are ordered by category first, and inside a category in the order
/// in which the category lists them.
#[derive(Clone, Copy, Debug, PartialEq, Eq, Hash, PartialOrd, Ord, Structural)]
pub enum Resource {
    Fuel(Fuel),
    CraftingResource(CraftingResource),
    BuildingMaterial(BuildingMaterial),
    ConsumableItem(ConsumableItem),
    SimpleFood(SimpleFood),
    ComplexFood(ComplexFood),
    Clothing(Clothing),
}

impl Resource {
    /// The symbolic name of the resource: the name of its variant.
    pub open spec fn spec_name(self) -> Seq<char> {
        match self {
            Resource::Fuel(inner) => inner.spec_name(),
            Resource::CraftingResource(inner) => inner.spec_name(),
            Resource::BuildingMaterial(inner) => inner.spec_name(),
            Resource::ConsumableItem(inner) => inner.spec_name(),
            Resource::SimpleFood(inner) => inner.spec_name(),
            Resource::ComplexFood(inner) => inner.spec_name(),
            Resource::Clothing(inner) => inner.spec_name(),
        }
    }

    /// The display name of the resource.
    pub open spec fn spec_label(self) -> Seq<char> {
        title_of(self.spec_name())
    }

    /// How far the resource stands from the raw goods: a raw good stands on
    /// tier 0, any other good one tier above the highest of its ingredients.
    pub open spec fn tier(self) -> nat {
        match self {
            Resource::Fuel(inner) => inner.tier(),
            Resource::CraftingResource(inner) => inner.tier(),
            Resource::BuildingMaterial(inner) => inner.tier(),
            Resource::ConsumableItem(inner) => inner.tier(),
            Resource::SimpleFood(inner) => inner.tier(),
            Resource::ComplexFood(inner) => inner.tier(),
            Resource::Clothing(inner) => inner.tier(),
        }
    }

    /// The symbolic name of the resource: the name of its variant.
    pub fn name(&self) -> (name: &'static str)
        ensures
            name@ == self.spec_name(),
    {
        match self {
            Resource::Fuel(inner) => inner.name(),
            Resource::CraftingResource(inner) => inner.name(),
            Resource::BuildingMaterial(inner) => inner.name(),
            Resource::ConsumableItem(inner) => inner.name(),
            Resource::SimpleFood(inner) => inner.name(),
            Resource::ComplexFood(inner) => inner.name(),
            Resource::Clothing(inner) => inner.name(),
        }
    }

    /// The display name of the resource, in title case with spaces.
    pub fn to_string(&self) -> (label: String)
        ensures
            label@ == self.spec_label(),
    {
        match self {
            Resource::Fuel(inner) => inner.to_string(),
            Resource::CraftingResource(inner) => inner.to_string(),
            Resource::BuildingMaterial(inner) => inner.to_string(),
            Resource::ConsumableItem(inner) => inner.to_string(),
            Resource::SimpleFood(inner) => inner.to_string(),
            Resource::ComplexFood(inner) => inner.to_string(),
            Resource::Clothing(inner) => inner.to_string(),
        }
    }
}

impl Recipe for Resource {
    open spec fn slots(&self) -> Seq<Seq<Resource>> {
        match self {
            Resource::Fuel(inner) => inner.slots(),
            Resource::CraftingResource(inner) => inner.slots(),
            Resource::BuildingMaterial(inner) => inner.slots(),
            Resource::ConsumableItem(inner) => inner.slots(),
            Resource::SimpleFood(inner) => inner.slots(),
            Resource::ComplexFood(inner) => inner.slots(),
            Resource::Clothing(inner) => inner.slots(),
        }
    }

    fn recipe(&self) -> (recipe: Vec<Vec<Resource>>) {
        match self {
            Resource::Fuel(inner) => inner.recipe(),
            Resource::CraftingResource(inner) => inner.recipe(),
            Resource::BuildingMaterial(inner) => inner.recipe(),
            Resource::ConsumableItem(inner) => inner.recipe(),
            Resource::SimpleFood(inner) => inner.recipe(),
            Resource::ComplexFood(inner) => inner.recipe(),
            Resource::Clothing(inner) => inner.recipe(),
        }
    }
}

impl Facet for Resource {
    open spec fn label(&self) -> Seq<char> {
        self.spec_label()
    }

    fn to_label(&self) -> (label: String) {
        self.to_string()
    }

    fn same(&self, other: &Self) -> (same: bool) {
        *self == *other
    }
}

/// Every resource, category after category: fuel, crafting resources, building
/// materials, clothing, simple food, complex food, consumable items.
pub open spec fn spec_all_goods() -> Seq<Resource> {
    spec_all_fuel() + spec_all_crafting_resources() + spec_all_building_materials()
        + spec_all_clothing() + spec_all_simple_food() + spec_all_complex_food()
        + spec_all_consumable_items()
}

/// Every resource, category after category: fuel, crafting resources, building
/// materials, clothing, simple food, complex food, consumable items.
pub fn all_goods() -> (goods: Vec<Resource>)
    ensures
        goods@ == spec_all_goods(),
{
    let mut goods = all_fuel();
    let mut crafting = all_crafting_resources();
    goods.append(&mut crafting);
    let mut building = all_building_materials();
    goods.append(&mut building);
    let mut clothing = all_clothing();
    goods.append(&mut clothing);
    let mut simple = all_simple_food();
    goods.append(&mut simple);
    let mut complex = all_complex_food();
    goods.append(&mut complex);
    let mut consumable = all_consumable_items();
    goods.append(&mut consumable);
    goods
}

/// What a hearth burns.
#[derive(Clone, Copy, Debug, PartialEq, Eq, Hash, PartialOrd, Ord, Structural)]
pub enum Fuel {
    Oil,
    Coal,
    SeaMarrow,
    Wood,
}

impl Fuel {
    /// The symbolic name: the name of the variant.
    pub open spec fn spec_name(self) -> Seq<char> {
        match self {
            Fuel::Oil => "Oil"@,
            Fuel::Coal => "Coal"@,
            Fuel::SeaMarrow => "SeaMarrow"@,
            Fuel::Wood => "Wood"@,
        }
    }

    /// The display name.
    pub open spec fn spec_label(self) -> Seq<char> {
        title_of(self.spec_name())
    }

    /// How far the good stands from the raw goods.
    pub open spec fn tier(self) -> nat {
        match self {
            Self::SeaMarrow | Self::Wood => 0,
            Self::Coal => 1,
            Self::Oil => 3,
        }
    }

    /// The symbolic name: the name of the variant.
    pub fn name(&self) -> (name: &'static str)
        ensures
            name@ == self.spec_name(),
    {
        match self {
            Fuel::Oil => "Oil",
            Fuel::Coal => "Coal",
            Fuel::SeaMarrow => "SeaMarrow",
            Fuel::Wood => "Wood",
        }
    }

    /// The display name, in title case with spaces.
    pub fn to_string(&self) -> (label: String)
        ensures
            label@ == self.spec_label(),
    {
        titleize(self.name())
    }
}

impl Recipe for Fuel {
    open spec fn slots(&self) -> Seq<Seq<Resource>> {
        match self {
            Self::Oil => seq![seq![grain(), meat(), vegetables(), plant_fiber(), fish()]],
            Self::Coal => seq![seq![wood(), algae()]],
            Self::SeaMarrow | Self::Wood => seq![],
        }
    }

    fn recipe(&self) -> (recipe: Vec<Vec<Resource>>) {
        let recipe = match self {
            Self::Oil => vec![vec![grain(), meat(), vegetables(), plant_fiber(), fish()]],
            Self::Coal => vec![vec![wood(), algae()]],
            Self::SeaMarrow | Self::Wood => vec![],
        };
        assert(slot_lists(recipe) =~~= self.slots());
        recipe
    }
}

/// Oil, a fuel.
#[verifier::allow_in_spec]
pub fn oil() -> Resource
    returns
        Resource::Fuel(Fuel::Oil),
{
    Resource::Fuel(Fuel::Oil)
}

/// Coal, a fuel.
#[verifier::allow_in_spec]
pub fn coal() -> Resource
    returns
        Resource::Fuel(Fuel::Coal),
{
    Resource::Fuel(Fuel::Coal)
}

/// Sea Marrow, a fuel.
#[verifier::allow_in_spec]
pub fn sea_marrow() -> Resource
    returns
        Resource::Fuel(Fuel::SeaMarrow),
{
    Resource::Fuel(Fuel::SeaMarrow)
}

/// Wood, a fuel.
#[verifier::allow_in_spec]
pub fn wood() -> Resource
    returns
        Resource::Fuel(Fuel::Wood),
{
    Resource::Fuel(Fuel::Wood)
}

/// Every fuel, in catalog order.
pub open spec fn spec_all_fuel() -> Seq<Resource> {
    seq![oil(), coal(), sea_marrow(), wood()]
}

/// The list of fuel holds every fuel, and none twice.
pub proof fn lemma_all_fuel_once_each(member: Fuel)
    ensures
        spec_all_fuel().contains(Resource::Fuel(member)),
        spec_all_fuel().no_duplicates(),
{
    let all = spec_all_fuel();
    match member {
        Fuel::Oil => assert(all[0] == Resource::Fuel(member)),
        Fuel::Coal => assert(all[1] == Resource::Fuel(member)),
        Fuel::SeaMarrow => assert(all[2] == Resource::Fuel(member)),
        Fuel::Wood => assert(all[3] == Resource::Fuel(member)),
    }
}

/// Every fuel, in catalog order.
pub fn all_fuel() -> (all: Vec<Resource>)
    ensures
        all@ == spec_all_fuel(),
{
    let all = vec![oil(), coal(), sea_marrow(), wood()];
    assert(all@ =~= spec_all_fuel());
    all
}

/// Raw materials and intermediate goods that other goods are made from.
#[derive(Clone, Copy, Debug, PartialEq, Eq, Hash, PartialOrd, Ord, Structural)]
pub enum CraftingResource {
    Pottery,
    Waterskins,
    Barrels,
    DrizzleWater,
    StormWater,
    ClearanceWater,
    Resin,
    Leather,
    Algae,
    PlantFiber,
    Scales,
    Reed,
    Herbs,
    Flour,
    Grain,
    Dye,
    CopperBars,
    CrystallizedDew,
    Stones,
    Clay,
    Salt,
    CopperOre,
}

impl CraftingResource {
    /// The symbolic name: the name of the variant.
    pub open spec fn spec_name(self) -> Seq<char> {
        match self {
            CraftingResource::Pottery => "Pottery"@,
            CraftingResource::Waterskins => "Waterskins"@,
            CraftingResource::Barrels => "Barrels"@,
            CraftingResource::DrizzleWater => "DrizzleWater"@,
            CraftingResource::StormWater => "StormWater"@,
            CraftingResource::ClearanceWater => "ClearanceWater"@,
            CraftingResource::Resin => "Resin"@,
            CraftingResource::Leather => "Leather"@,
            CraftingResource::Algae => "Algae"@,
            CraftingResource::PlantFiber => "PlantFiber"@,
            CraftingResource::Scales => "Scales"@,
            CraftingResource::Reed => "Reed"@,
            CraftingResource::Herbs => "Herbs"@,
            CraftingResource::Flour => "Flour"@,
            CraftingResource::Grain => "Grain"@,
            CraftingResource::Dye => "Dye"@,
            CraftingResource::CopperBars => "CopperBars"@,
            CraftingResource::CrystallizedDew => "CrystallizedDew"@,
            CraftingResource::Stones => "Stones"@,
            CraftingResource::Clay => "Clay"@,
            CraftingResource::Salt => "Salt"@,
            CraftingResource::CopperOre => "CopperOre"@,
        }
    }

    /// The display name.
    pub open spec fn spec_label(self) -> Seq<char> {
        title_of(self.spec_name())
    }

    /// How far the good stands from the raw goods.
    pub open spec fn tier(self) -> nat {
        match self {
            Self::DrizzleWater
            | Self::StormWater
            | Self::ClearanceWater
            | Self::Algae
            | Self::PlantFiber
            | Self::Scales
            | Self::Grain
            | Self::Stones
            | Self::Salt
            | Self::CopperOre => 0,
            Self::Resin | Self::Reed | Self::Herbs | Self::Clay => 1,
            Self::Leather | Self::Flour | Self::Dye | Self::CrystallizedDew => 2,
            Self::Pottery | Self::Waterskins | Self::CopperBars => 4,
            Self::Barrels => 5,
        }
    }

    /// The symbolic name: the name of the variant.
    pub fn name(&self) -> (name: &'static str)
        ensures
            name@ == self.spec_name(),
    {
        match self {
            CraftingResource::Pottery => "Pottery",
            CraftingResource::Waterskins => "Waterskins",
            CraftingResource::Barrels => "Barrels",
            CraftingResource::DrizzleWater => "DrizzleWater",
            CraftingResource::StormWater => "StormWater",
            CraftingResource::ClearanceWater => "ClearanceWater",
            CraftingResource::Resin => "Resin",
            CraftingResource::Leather => "Leather",
            CraftingResource::Algae => "Algae",
            CraftingResource::PlantFiber => "PlantFiber",
            CraftingResource::Scales => "Scales",
            CraftingResource::Reed => "Reed",
            CraftingResource::Herbs => "Herbs",
            CraftingResource::Flour => "Flour",
            CraftingResource::Grain => "Grain",
            CraftingResource::Dye => "Dye",
            CraftingResource::CopperBars => "CopperBars",
            CraftingResource::CrystallizedDew => "CrystallizedDew",
            CraftingResource::Stones => "Stones",
            CraftingResource::Clay => "Clay",
            CraftingResource::Salt => "Salt",
            CraftingResource::CopperOre => "CopperOre",
        }
    }

    /// The display name, in title case with spaces.
    pub fn to_string(&self) -> (label: String)
        ensures
            label@ == self.spec_label(),
    {
        titleize(self.name())
    }
}

impl Recipe for CraftingResource {
    open spec fn slots(&self) -> Seq<Seq<Resource>> {
        match self {
            Self::Pottery => seq![seq![clay()], seq![wood(), oil(), coal(), sea_marrow()]],
            Self::Waterskins => seq![seq![leather(), scales()], seq![oil(), meat(), salt()]],
            Self::Barrels => seq![seq![copper_bars(), crystallized_dew()], seq![planks()]],
            Self::Leather => seq![seq![algae(), reed(), grain(), vegetables()]],
            Self::Herbs => seq![seq![drizzle_water()]],
            Self::Flour => seq![seq![grain(), mushrooms(), roots(), algae()]],
            Self::Dye => seq![seq![insects(), berries(), copper_ore(), scales(), coal()]],
            Self::CopperBars => seq![
                seq![copper_ore(), scales()],
                seq![wood(), oil(), coal(), sea_marrow()],
            ],
            Self::CrystallizedDew => seq![
                seq![herbs(), insects(), resin(), vegetables(), algae()],
                seq![stone(), clay(), salt()],
                seq![storm_water(), drizzle_water(), clearance_water()],
            ],
            Self::Clay | Self::Reed | Self::Resin => seq![seq![clearance_water()]],
            Self::DrizzleWater
            | Self::StormWater
            | Self::ClearanceWater
            | Self::Algae
            | Self::PlantFiber
            | Self::Scales
            | Self::Grain
            | Self::Stones
            | Self::Salt
            | Self::CopperOre => seq![],
        }
    }

    fn recipe(&self) -> (recipe: Vec<Vec<Resource>>) {
        let recipe = match self {
            Self::Pottery => vec![vec![clay()], vec![wood(), oil(), coal(), sea_marrow()]],
            Self::Waterskins => vec![vec![leather(), scales()], vec![oil(), meat(), salt()]],
            Self::Barrels => vec![vec![copper_bars(), crystallized_dew()], vec![planks()]],
            Self::Leather => vec![vec![algae(), reed(), grain(), vegetables()]],
            Self::Herbs => vec![vec![drizzle_water()]],
            Self::Flour => vec![vec![grain(), mushrooms(), roots(), algae()]],
            Self::Dye => vec![vec![insects(), berries(), copper_ore(), scales(), coal()]],
            Self::CopperBars => vec![
                vec![copper_ore(), scales()],
                vec![wood(), oil(), coal(), sea_marrow()],
            ],
            Self::CrystallizedDew => vec![
                vec![herbs(), insects(), resin(), vegetables(), algae()],
                vec![stone(), clay(), salt()],
                vec![storm_water(), drizzle_water(), clearance_water()],
            ],
            Self::Clay | Self::Reed | Self::Resin => vec![vec![clearance_water()]],
            Self::DrizzleWater
            | Self::StormWater
            | Self::ClearanceWater
            | Self::Algae
            | Self::PlantFiber
            | Self::Scales
            | Self::Grain
            | Self::Stones
            | Self::Salt
            | Self::CopperOre => vec![],
        };
        assert(slot_lists(recipe) =~~= self.slots());
        recipe
    }
}

/// Pottery, a crafting resource.
#[verifier::allow_in_spec]
pub fn pottery() -> Resource
    returns
        Resource::CraftingResource(CraftingResource::Pottery),
{
    Resource::CraftingResource(CraftingResource::Pottery)
}

/// Waterskins, a crafting resource.
#[verifier::allow_in_spec]
pub fn waterskins() -> Resource
    returns
        Resource::CraftingResource(CraftingResource::Waterskins),
{
    Resource::CraftingResource(CraftingResource::Waterskins)
}

/// Barrels, a crafting resource.
#[verifier::allow_in_spec]
pub fn barrels() -> Resource
    returns
        Resource::CraftingResource(CraftingResource::Barrels),
{
    Resource::CraftingResource(CraftingResource::Barrels)
}

/// Drizzle Water, a crafting resource.
#[verifier::allow_in_spec]
pub fn drizzle_water() -> Resource
    returns
        Resource::CraftingResource(CraftingResource::DrizzleWater),
{
    Resource::CraftingResource(CraftingResource::DrizzleWater)
}

/// Storm Water, a crafting resource.
#[verifier::allow_in_spec]
pub fn storm_water() -> Resource
    returns
        Resource::CraftingResource(CraftingResource::StormWater),
{
    Resource::CraftingResource(CraftingResource::StormWater)
}

/// Clearance Water, a crafting resource.
#[verifier::allow_in_spec]
pub fn clearance_water() -> Resource
    returns
        Resource::CraftingResource(CraftingResource::ClearanceWater),
{
    Resource::CraftingResource(CraftingResource::ClearanceWater)
}

/// Resin, a crafting resource.
#[verifier::allow_in_spec]
pub fn resin() -> Resource
    returns
        Resource::CraftingResource(CraftingResource::Resin),
{
    Resource::CraftingResource(CraftingResource::Resin)
}

/// Leather, a crafting resource.
#[verifier::allow_in_spec]
pub fn leather() -> Resource
    returns
        Resource::CraftingResource(CraftingResource::Leather),
{
    Resource::CraftingResource(CraftingResource::Leather)
}

/// Algae, a crafting resource.
#[verifier::allow_in_spec]
pub fn algae() -> Resource
    returns
        Resource::CraftingResource(CraftingResource::Algae),
{
    Resource::CraftingResource(CraftingResource::Algae)
}

/// Plant Fiber, a crafting resource.
#[verifier::allow_in_spec]
pub fn plant_fiber() -> Resource
    returns
        Resource::CraftingResource(CraftingResource::PlantFiber),
{
    Resource::CraftingResource(CraftingResource::PlantFiber)
}

/// Scales, a crafting resource.
#[verifier::allow_in_spec]
pub fn scales() -> Resource
    returns
        Resource::CraftingResource(CraftingResource::Scales),
{
    Resource::CraftingResource(CraftingResource::Scales)
}

/// Reed, a crafting resource.
#[verifier::allow_in_spec]
pub fn reed() -> Resource
    returns
        Resource::CraftingResource(CraftingResource::Reed),
{
    Resource::CraftingResource(CraftingResource::Reed)
}

/// Herbs, a crafting resource.
#[verifier::allow_in_spec]
pub fn herbs() -> Resource
    returns
        Resource::CraftingResource(CraftingResource::Herbs),
{
    Resource::CraftingResource(CraftingResource::Herbs)
}

/// Flour, a crafting resource.
#[verifier::allow_in_spec]
pub fn flour() -> Resource
    returns
        Resource::CraftingResource(CraftingResource::Flour),
{
    Resource::CraftingResource(CraftingResource::Flour)
}

/// Grain, a crafting resource.
#[verifier::allow_in_spec]
pub fn grain() -> Resource
    returns
        Resource::CraftingResource(CraftingResource::Grain),
{
    Resource::CraftingResource(CraftingResource::Grain)
}

/// Dye, a crafting resource.
#[verifier::allow_in_spec]
pub fn dye() -> Resource
    returns
        Resource::CraftingResource(CraftingResource::Dye),
{
    Resource::CraftingResource(CraftingResource::Dye)
}

/// Copper Bars, a crafting resource.
#[verifier::allow_in_spec]
pub fn copper_bars() -> Resource
    returns
        Resource::CraftingResource(CraftingResource::CopperBars),
{
    Resource::CraftingResource(CraftingResource::CopperBars)
}

/// Crystallized Dew, a crafting resource.
#[verifier::allow_in_spec]
pub fn crystallized_dew() -> Resource
    returns
        Resource::CraftingResource(CraftingResource::CrystallizedDew),
{
    Resource::CraftingResource(CraftingResource::CrystallizedDew)
}

/// Stones, a crafting resource.
#[verifier::allow_in_spec]
pub fn stone() -> Resource
    returns
        Resource::CraftingResource(CraftingResource::Stones),
{
    Resource::CraftingResource(CraftingResource::Stones)
}

/// Clay, a crafting resource.
#[verifier::allow_in_spec]
pub fn clay() -> Resource
    returns
        Resource::CraftingResource(CraftingResource::Clay),
{
    Resource::CraftingResource(CraftingResource::Clay)
}

/// Salt, a crafting resource.
#[verifier::allow_in_spec]
pub fn salt() -> Resource
    returns
        Resource::CraftingResource(CraftingResource::Salt),
{
    Resource::CraftingResource(CraftingResource::Salt)
}

/// Copper Ore, a crafting resource.
#[verifier::allow_in_spec]
pub fn copper_ore() -> Resource
    returns
        Resource::CraftingResource(CraftingResource::CopperOre),
{
    Resource::CraftingResource(CraftingResource::CopperOre)
}

/// Every crafting resource, in catalog order.
pub open spec fn spec_all_crafting_resources() -> Seq<Resource> {
    seq![
        pottery(),
        waterskins(),
        barrels(),
        drizzle_water(),
        storm_water(),
        clearance_water(),
        resin(),
        leather(),
        algae(),
        plant_fiber(),
        scales(),
        reed(),
        herbs(),
        flour(),
        grain(),
        dye(),
        copper_bars(),
        crystallized_dew(),
        stone(),
        clay(),
        salt(),
        copper_ore(),
    ]
}

/// The list of crafting resources holds every crafting resource, and none twice.
pub proof fn lemma_all_crafting_resources_once_each(member: CraftingResource)
    ensures
        spec_all_crafting_resources().contains(Resource::CraftingResource(member)),
        spec_all_crafting_resources().no_duplicates(),
{
    let all = spec_all_crafting_resources();
    match member {
        CraftingResource::Pottery => assert(all[0] == Resource::CraftingResource(member)),
        CraftingResource::Waterskins => assert(all[1] == Resource::CraftingResource(member)),
        CraftingResource::Barrels => assert(all[2] == Resource::CraftingResource(member)),
        CraftingResource::DrizzleWater => assert(all[3] == Resource::CraftingResource(member)),
        CraftingResource::StormWater => assert(all[4] == Resource::CraftingResource(member)),
        CraftingResource::ClearanceWater => assert(all[5] == Resource::CraftingResource(member)),
        CraftingResource::Resin => assert(all[6] == Resource::CraftingResource(member)),
        CraftingResource::Leather => assert(all[7] == Resource::CraftingResource(member)),
        CraftingResource::Algae => assert(all[8] == Resource::CraftingResource(member)),
        CraftingResource::PlantFiber => assert(all[9] == Resource::CraftingResource(member)),
        CraftingResource::Scales => assert(all[10] == Resource::CraftingResource(member)),
        CraftingResource::Reed => assert(all[11] == Resource::CraftingResource(member)),
        CraftingResource::Herbs => assert(all[12] == Resource::CraftingResource(member)),
        CraftingResource::Flour => assert(all[13] == Resource::CraftingResource(member)),
        CraftingResource::Grain => assert(all[14] == Resource::CraftingResource(member)),
        CraftingResource::Dye => assert(all[15] == Resource::CraftingResource(member)),
        CraftingResource::CopperBars => assert(all[16] == Resource::CraftingResource(member)),
        CraftingResource::CrystallizedDew => assert(all[17] == Resource::CraftingResource(member)),
        CraftingResource::Stones => assert(all[18] == Resource::CraftingResource(member)),
        CraftingResource::Clay => assert(all[19] == Resource::CraftingResource(member)),
        CraftingResource::Salt => assert(all[20] == Resource::CraftingResource(member)),
        CraftingResource::CopperOre => assert(all[21] == Resource::CraftingResource(member)),
    }
}

/// Every crafting resource, in catalog order.
pub fn all_crafting_resources() -> (all: Vec<Resource>)
    ensures
        all@ == spec_all_crafting_resources(),
{
    let all = vec![
        pottery(),
        waterskins(),
        barrels(),
        drizzle_water(),
        storm_water(),
        clearance_water(),
        resin(),
        leather(),
        algae(),
        plant_fiber(),
        scales(),
        reed(),
        herbs(),
        flour(),
        grain(),
        dye(),
        copper_bars(),
        crystallized_dew(),
        stone(),
        clay(),
        salt(),
        copper_ore(),
    ];
    assert(all@ =~= spec_all_crafting_resources());
    all
}

/// What construction consumes.
#[derive(Clone, Copy, Debug, PartialEq, Eq, Hash, PartialOrd, Ord, Structural)]
pub enum BuildingMaterial {
    Planks,
    Fabric,
    Bricks,
}

impl BuildingMaterial {
    /// The symbolic name: the name of the variant.
    pub open spec fn spec_name(self) -> Seq<char> {
        match self {
            BuildingMaterial::Planks => "Planks"@,
            BuildingMaterial::Fabric => "Fabric"@,
            BuildingMaterial::Bricks => "Bricks"@,
        }
    }

    /// The display name.
    pub open spec fn spec_label(self) -> Seq<char> {
        title_of(self.spec_name())
    }

    /// How far the good stands from the raw goods.
    pub open spec fn tier(self) -> nat {
        match self {
            Self::Planks => 1,
            Self::Fabric | Self::Bricks => 2,
        }
    }

    /// The symbolic name: the name of the variant.
    pub fn name(&self) -> (name: &'static str)
        ensures
            name@ == self.spec_name(),
    {
        match self {
            BuildingMaterial::Planks => "Planks",
            BuildingMaterial::Fabric => "Fabric",
            BuildingMaterial::Bricks => "Bricks",
        }
    }

    /// The display name, in title case with spaces.
    pub fn to_string(&self) -> (label: String)
        ensures
            label@ == self.spec_label(),
    {
        titleize(self.name())
    }
}

impl Recipe for BuildingMaterial {
    open spec fn slots(&self) -> Seq<Seq<Resource>> {
        match self {
            Self::Planks => seq![seq![wood()]],
            Self::Fabric => seq![seq![plant_fiber(), reed(), algae()]],
            Self::Bricks => seq![seq![clay(), stone()]],
        }
    }

    fn recipe(&self) -> (recipe: Vec<Vec<Resource>>) {
        let recipe = match self {
            Self::Planks => vec![vec![wood()]],
            Self::Fabric => vec![vec![plant_fiber(), reed(), algae()]],
            Self::Bricks => vec![vec![clay(), stone()]],
        };
        assert(slot_lists(recipe) =~~= self.slots());
        recipe
    }
}

/// Planks, a building material.
#[verifier::allow_in_spec]
pub fn planks() -> Resource
    returns
        Resource::BuildingMaterial(BuildingMaterial::Planks),
{
    Resource::BuildingMaterial(BuildingMaterial::Planks)
}

/// Fabric, a building material.
#[verifier::allow_in_spec]
pub fn fabric() -> Resource
    returns
        Resource::BuildingMaterial(BuildingMaterial::Fabric),
{
    Resource::BuildingMaterial(BuildingMaterial::Fabric)
}

/// Bricks, a building material.
#[verifier::allow_in_spec]
pub fn bricks() -> Resource
    returns
        Resource::BuildingMaterial(BuildingMaterial::Bricks),
{
    Resource::BuildingMaterial(BuildingMaterial::Bricks)
}

/// Every building material, in catalog order.
pub open spec fn spec_all_building_materials() -> Seq<Resource> {
    seq![planks(), fabric(), bricks()]
}

/// The list of building materials holds every building material, and none twice.
pub proof fn lemma_all_building_materials_once_each(member: BuildingMaterial)
    ensures
        spec_all_building_materials().contains(Resource::BuildingMaterial(member)),
        spec_all_building_materials().no_duplicates(),
{
    let all = spec_all_building_materials();
    match member {
        BuildingMaterial::Planks => assert(all[0] == Resource::BuildingMaterial(member)),
        BuildingMaterial::Fabric => assert(all[1] == Resource::BuildingMaterial(member)),
        BuildingMaterial::Bricks => assert(all[2] == Resource::BuildingMaterial(member)),
    }
}

/// Every building material, in catalog order.
pub fn all_building_materials() -> (all: Vec<Resource>)
    ensures
        all@ == spec_all_building_materials(),
{
    let all = vec![planks(), fabric(), bricks()];
    assert(all@ =~= spec_all_building_materials());
    all
}

/// Goods that a service uses up.
#[derive(Clone, Copy, Debug, PartialEq, Eq, Hash, PartialOrd, Ord, Structural)]
pub enum ConsumableItem {
    Scrolls,
    Incense,
    TrainingGear,
    Wine,
    Ale,
    Tea,
}

impl ConsumableItem {
    /// The symbolic name: the name of the variant.
    pub open spec fn spec_name(self) -> Seq<char> {
        match self {
            ConsumableItem::Scrolls => "Scrolls"@,
            ConsumableItem::Incense => "Incense"@,
            ConsumableItem::TrainingGear => "TrainingGear"@,
            ConsumableItem::Wine => "Wine"@,
            ConsumableItem::Ale => "Ale"@,
            ConsumableItem::Tea => "Tea"@,
        }
    }

    /// The display name.
    pub open spec fn spec_label(self) -> Seq<char> {
        title_of(self.spec_name())
    }

    /// How far the good stands from the raw goods.
    pub open spec fn tier(self) -> nat {
        match self {
            Self::Incense => 4,
            Self::TrainingGear => 5,
            Self::Wine | Self::Ale | Self::Tea => 6,
            Self::Scrolls => 7,
        }
    }

    /// The symbolic name: the name of the variant.
    pub fn name(&self) -> (name: &'static str)
        ensures
            name@ == self.spec_name(),
    {
        match self {
            ConsumableItem::Scrolls => "Scrolls",
            ConsumableItem::Incense => "Incense",
            ConsumableItem::TrainingGear => "TrainingGear",
            ConsumableItem::Wine => "Wine",
            ConsumableItem::Ale => "Ale",
            ConsumableItem::Tea => "Tea",
        }
    }

    /// The display name, in title case with spaces.
    pub fn to_string(&self) -> (label: String)
        ensures
            label@ == self.spec_label(),
    {
        titleize(self.name())
    }
}

impl Recipe for ConsumableItem {
    open spec fn slots(&self) -> Seq<Seq<Resource>> {
        match self {
            Self::Scrolls => seq![seq![leather(), plant_fiber(), wood()], seq![dye(), wine()]],
            Self::Incense => seq![
                seq![herbs(), roots(), insects(), scales(), salt(), resin()],
                seq![wood(), oil(), coal(), sea_marrow()],
            ],
            Self::TrainingGear => seq![
                seq![stone(), copper_bars(), crystallized_dew()],
                seq![planks(), reed(), leather()],
            ],
            Self::Wine => seq![
                seq![berries(), mushrooms(), reed()],
                seq![pottery(), barrels(), waterskins()],
            ],
            Self::Ale => seq![seq![grain(), roots()], seq![pottery(), barrels(), waterskins()]],
            Self::Tea => seq![
                seq![herbs(), dye(), resin(), mushrooms(), roots()],
                seq![pottery(), barrels(), waterskins()],
            ],
        }
    }

    fn recipe(&self) -> (recipe: Vec<Vec<Resource>>) {
        let recipe = match self {
            Self::Scrolls => vec![vec![leather(), plant_fiber(), wood()], vec![dye(), wine()]],
            Self::Incense => vec![
                vec![herbs(), roots(), insects(), scales(), salt(), resin()],
                vec![wood(), oil(), coal(), sea_marrow()],
            ],
            Self::TrainingGear => vec![
                vec![stone(), copper_bars(), crystallized_dew()],
                vec![planks(), reed(), leather()],
            ],
            Self::Wine => vec![
                vec![berries(), mushrooms(), reed()],
                vec![pottery(), barrels(), waterskins()],
            ],
            Self::Ale => vec![vec![grain(), roots()], vec![pottery(), barrels(), waterskins()]],
            Self::Tea => vec![
                vec![herbs(), dye(), resin(), mushrooms(), roots()],
                vec![pottery(), barrels(), waterskins()],
            ],
        };
        assert(slot_lists(recipe) =~~= self.slots());
        recipe
    }
}

/// Scrolls, a consumable item.
#[verifier::allow_in_spec]
pub fn scrolls() -> Resource
    returns
        Resource::ConsumableItem(ConsumableItem::Scrolls),
{
    Resource::ConsumableItem(ConsumableItem::Scrolls)
}

/// Incense, a consumable item.
#[verifier::allow_in_spec]
pub fn incense() -> Resource
    returns
        Resource::ConsumableItem(ConsumableItem::Incense),
{
    Resource::ConsumableItem(ConsumableItem::Incense)
}

/// Training Gear, a consumable item.
#[verifier::allow_in_spec]
pub fn training_gear() -> Resource
    returns
        Resource::ConsumableItem(ConsumableItem::TrainingGear),
{
    Resource::ConsumableItem(ConsumableItem::TrainingGear)
}

/// Wine, a consumable item.
#[verifier::allow_in_spec]
pub fn wine() -> Resource
    returns
        Resource::ConsumableItem(ConsumableItem::Wine),
{
    Resource::ConsumableItem(ConsumableItem::Wine)
}

/// Ale, a consumable item.
#[verifier::allow_in_spec]
pub fn ale() -> Resource
    returns
        Resource::ConsumableItem(ConsumableItem::Ale),
{
    Resource::ConsumableItem(ConsumableItem::Ale)
}

/// Tea, a consumable item.
#[verifier::allow_in_spec]
pub fn tea() -> Resource
    returns
        Resource::ConsumableItem(ConsumableItem::Tea),
{
    Resource::ConsumableItem(ConsumableItem::Tea)
}

/// Every consumable item, in catalog order.
pub open spec fn spec_all_consumable_items() -> Seq<Resource> {
    seq![scrolls(), incense(), training_gear(), wine(), ale(), tea()]
}

/// The list of consumable items holds every consumable item, and none twice.
pub proof fn lemma_all_consumable_items_once_each(member: ConsumableItem)
    ensures
        spec_all_consumable_items().contains(Resource::ConsumableItem(member)),
        spec_all_consumable_items().no_duplicates(),
{
    let all = spec_all_consumable_items();
    match member {
        ConsumableItem::Scrolls => assert(all[0] == Resource::ConsumableItem(member)),
        ConsumableItem::Incense => assert(all[1] == Resource::ConsumableItem(member)),
        ConsumableItem::TrainingGear => assert(all[2] == Resource::ConsumableItem(member)),
        ConsumableItem::Wine => assert(all[3] == Resource::ConsumableItem(member)),
        ConsumableItem::Ale => assert(all[4] == Resource::ConsumableItem(member)),
        ConsumableItem::Tea => assert(all[5] == Resource::ConsumableItem(member)),
    }
}

/// Every consumable item, in catalog order.
pub fn all_consumable_items() -> (all: Vec<Resource>)
    ensures
        all@ == spec_all_consumable_items(),
{
    let all = vec![scrolls(), incense(), training_gear(), wine(), ale(), tea()];
    assert(all@ =~= spec_all_consumable_items());
    all
}

/// Food that is gathered or farmed.
#[derive(Clone, Copy, Debug, PartialEq, Eq, Hash, PartialOrd, Ord, Structural)]
pub enum SimpleFood {
    Mushrooms,
    Roots,
    Vegetables,
    Fish,
    Meat,
    Eggs,
    Insects,
    Berries,
}

impl SimpleFood {
    /// The symbolic name: the name of the variant.
    pub open spec fn spec_name(self) -> Seq<char> {
        match self {
            SimpleFood::Mushrooms => "Mushrooms"@,
            SimpleFood::Roots => "Roots"@,
            SimpleFood::Vegetables => "Vegetables"@,
            SimpleFood::Fish => "Fish"@,
            SimpleFood::Meat => "Meat"@,
            SimpleFood::Eggs => "Eggs"@,
            SimpleFood::Insects => "Insects"@,
            SimpleFood::Berries => "Berries"@,
        }
    }

    /// The display name.
    pub open spec fn spec_label(self) -> Seq<char> {
        title_of(self.spec_name())
    }

    /// How far the good stands from the raw goods.
    pub open spec fn tier(self) -> nat {
        match self {
            Self::Roots | Self::Vegetables | Self::Fish | Self::Insects | Self::Berries => 0,
            Self::Mushrooms => 1,
            Self::Meat | Self::Eggs => 2,
        }
    }

    /// The symbolic name: the name of the variant.
    pub fn name(&self) -> (name: &'static str)
        ensures
            name@ == self.spec_name(),
    {
        match self {
            SimpleFood::Mushrooms => "Mushrooms",
            SimpleFood::Roots => "Roots",
            SimpleFood::Vegetables => "Vegetables",
            SimpleFood::Fish => "Fish",
            SimpleFood::Meat => "Meat",
            SimpleFood::Eggs => "Eggs",
            SimpleFood::Insects => "Insects",
            SimpleFood::Berries => "Berries",
        }
    }

    /// The display name, in title case with spaces.
    pub fn to_string(&self) -> (label: String)
        ensures
            label@ == self.spec_label(),
    {
        titleize(self.name())
    }
}

impl Recipe for SimpleFood {
    open spec fn slots(&self) -> Seq<Seq<Resource>> {
        match self {
            Self::Mushrooms => seq![seq![drizzle_water()]],
            Self::Roots | Self::Vegetables | Self::Fish | Self::Insects | Self::Berries => seq![],
            Self::Meat => seq![seq![plant_fiber(), reed(), algae(), grain(), vegetables()]],
            Self::Eggs => seq![seq![grain(), insects(), reed(), berries()]],
        }
    }

    fn recipe(&self) -> (recipe: Vec<Vec<Resource>>) {
        let recipe = match self {
            Self::Mushrooms => vec![vec![drizzle_water()]],
            Self::Roots | Self::Vegetables | Self::Fish | Self::Insects | Self::Berries => vec![],
            Self::Meat => vec![vec![plant_fiber(), reed(), algae(), grain(), vegetables()]],
            Self::Eggs => vec![vec![grain(), insects(), reed(), berries()]],
        };
        assert(slot_lists(recipe) =~~= self.slots());
        recipe
    }
}

/// Mushrooms, a simple food.
#[verifier::allow_in_spec]
pub fn mushrooms() -> Resource
    returns
        Resource::SimpleFood(SimpleFood::Mushrooms),
{
    Resource::SimpleFood(SimpleFood::Mushrooms)
}

/// Roots, a simple food.
#[verifier::allow_in_spec]
pub fn roots() -> Resource
    returns
        Resource::SimpleFood(SimpleFood::Roots),
{
    Resource::SimpleFood(SimpleFood::Roots)
}

/// Vegetables, a simple food.
#[verifier::allow_in_spec]
pub fn vegetables() -> Resource
    returns
        Resource::SimpleFood(SimpleFood::Vegetables),
{
    Resource::SimpleFood(SimpleFood::Vegetables)
}

/// Fish, a simple food.
#[verifier::allow_in_spec]
pub fn fish() -> Resource
    returns
        Resource::SimpleFood(SimpleFood::Fish),
{
    Resource::SimpleFood(SimpleFood::Fish)
}

/// Meat, a simple food.
#[verifier::allow_in_spec]
pub fn meat() -> Resource
    returns
        Resource::SimpleFood(SimpleFood::Meat),
{
    Resource::SimpleFood(SimpleFood::Meat)
}

/// Eggs, a simple food.
#[verifier::allow_in_spec]
pub fn eggs() -> Resource
    returns
        Resource::SimpleFood(SimpleFood::Eggs),
{
    Resource::SimpleFood(SimpleFood::Eggs)
}

/// Insects, a simple food.
#[verifier::allow_in_spec]
pub fn insects() -> Resource
    returns
        Resource::SimpleFood(SimpleFood::Insects),
{
    Resource::SimpleFood(SimpleFood::Insects)
}

/// Berries, a simple food.
#[verifier::allow_in_spec]
pub fn berries() -> Resource
    returns
        Resource::SimpleFood(SimpleFood::Berries),
{
    Resource::SimpleFood(SimpleFood::Berries)
}

/// Every simple food, in catalog order.
pub open spec fn spec_all_simple_food() -> Seq<Resource> {
    seq![mushrooms(), roots(), vegetables(), fish(), meat(), eggs(), insects(), berries()]
}

/// The list of simple food holds every simple food, and none twice.
pub proof fn lemma_all_simple_food_once_each(member: SimpleFood)
    ensures
        spec_all_simple_food().contains(Resource::SimpleFood(member)),
        spec_all_simple_food().no_duplicates(),
{
    let all = spec_all_simple_food();
    match member {
        SimpleFood::Mushrooms => assert(all[0] == Resource::SimpleFood(member)),
        SimpleFood::Roots => assert(all[1] == Resource::SimpleFood(member)),
        SimpleFood::Vegetables => assert(all[2] == Resource::SimpleFood(member)),
        SimpleFood::Fish => assert(all[3] == Resource::SimpleFood(member)),
        SimpleFood::Meat => assert(all[4] == Resource::SimpleFood(member)),
        SimpleFood::Eggs => assert(all[5] == Resource::SimpleFood(member)),
        SimpleFood::Insects => assert(all[6] == Resource::SimpleFood(member)),
        SimpleFood::Berries => assert(all[7] == Resource::SimpleFood(member)),
    }
}

/// Every simple food, in catalog order.
pub fn all_simple_food() -> (all: Vec<Resource>)
    ensures
        all@ == spec_all_simple_food(),
{
    let all = vec![
        mushrooms(),
        roots(),
        vegetables(),
        fish(),
        meat(),
        eggs(),
        insects(),
        berries(),
    ];
    assert(all@ =~= spec_all_simple_food());
    all
}

/// Food that is cooked from other goods.
#[derive(Clone, Copy, Debug, PartialEq, Eq, Hash, PartialOrd, Ord, Structural)]
pub enum ComplexFood {
    Porridge,
    Biscuits,
    Pie,
    PickledGoods,
    Jerky,
    Paste,
    Skewers,
}

impl ComplexFood {
    /// The symbolic name: the name of the variant.
    pub open spec fn spec_name(self) -> Seq<char> {
        match self {
            ComplexFood::Porridge => "Porridge"@,
            ComplexFood::Biscuits => "Biscuits"@,
            ComplexFood::Pie => "Pie"@,
            ComplexFood::PickledGoods => "PickledGoods"@,
            ComplexFood::Jerky => "Jerky"@,
            ComplexFood::Paste => "Paste"@,
            ComplexFood::Skewers => "Skewers"@,
        }
    }

    /// The display name.
    pub open spec fn spec_label(self) -> Seq<char> {
        title_of(self.spec_name())
    }

    /// How far the good stands from the raw goods.
    pub open spec fn tier(self) -> nat {
        match self {
            Self::Porridge => 2,
            Self::Biscuits | Self::Pie | Self::Paste => 3,
            Self::Jerky => 4,
            Self::Skewers => 5,
            Self::PickledGoods => 6,
        }
    }

    /// The symbolic name: the name of the variant.
    pub fn name(&self) -> (name: &'static str)
        ensures
            name@ == self.spec_name(),
    {
        match self {
            ComplexFood::Porridge => "Porridge",
            ComplexFood::Biscuits => "Biscuits",
            ComplexFood::Pie => "Pie",
            ComplexFood::PickledGoods => "PickledGoods",
            ComplexFood::Jerky => "Jerky",
            ComplexFood::Paste => "Paste",
            ComplexFood::Skewers => "Skewers",
        }
    }

    /// The display name, in title case with spaces.
    pub fn to_string(&self) -> (label: String)
        ensures
            label@ == self.spec_label(),
    {
        titleize(self.name())
    }
}

impl Recipe for ComplexFood {
    open spec fn slots(&self) -> Seq<Seq<Resource>> {
        match self {
            Self::Porridge => seq![
                seq![grain(), vegetables(), mushrooms(), herbs(), fish()],
                seq![clearance_water(), storm_water(), drizzle_water()],
            ],
            Self::Biscuits => seq![
                seq![flour()],
                seq![herbs(), berries(), roots(), eggs(), salt()],
            ],
            Self::Pie => seq![seq![flour()], seq![herbs(), meat(), insects(), berries(), fish()]],
            Self::PickledGoods => seq![
                seq![vegetables(), mushrooms(), roots(), berries(), eggs()],
                seq![pottery(), barrels(), waterskins()],
            ],
            Self::Jerky => seq![
                seq![insects(), meat()],
                seq![salt(), wood(), sea_marrow(), coal(), oil()],
            ],
            Self::Paste => seq![seq![dye(), salt()], seq![eggs(), fish(), meat()]],
            Self::Skewers => seq![
                seq![insects(), meat(), mushrooms(), fish(), jerky()],
                seq![vegetables(), roots(), berries(), eggs()],
            ],
        }
    }

    fn recipe(&self) -> (recipe: Vec<Vec<Resource>>) {
        let recipe = match self {
            Self::Porridge => vec![
                vec![grain(), vegetables(), mushrooms(), herbs(), fish()],
                vec![clearance_water(), storm_water(), drizzle_water()],
            ],
            Self::Biscuits => vec![
                vec![flour()],
                vec![herbs(), berries(), roots(), eggs(), salt()],
            ],
            Self::Pie => vec![vec![flour()], vec![herbs(), meat(), insects(), berries(), fish()]],
            Self::PickledGoods => vec![
                vec![vegetables(), mushrooms(), roots(), berries(), eggs()],
                vec![pottery(), barrels(), waterskins()],
            ],
            Self::Jerky => vec![
                vec![insects(), meat()],
                vec![salt(), wood(), sea_marrow(), coal(), oil()],
            ],
            Self::Paste => vec![vec![dye(), salt()], vec![eggs(), fish(), meat()]],
            Self::Skewers => vec![
                vec![insects(), meat(), mushrooms(), fish(), jerky()],
                vec![vegetables(), roots(), berries(), eggs()],
            ],
        };
        assert(slot_lists(recipe) =~~= self.slots());
        recipe
    }
}

/// Porridge, a complex food.
#[verifier::allow_in_spec]
pub fn porridge() -> Resource
    returns
        Resource::ComplexFood(ComplexFood::Porridge),
{
    Resource::ComplexFood(ComplexFood::Porridge)
}

/// Biscuits, a complex food.
#[verifier::allow_in_spec]
pub fn biscuits() -> Resource
    returns
        Resource::ComplexFood(ComplexFood::Biscuits),
{
    Resource::ComplexFood(ComplexFood::Biscuits)
}

/// Pie, a complex food.
#[verifier::allow_in_spec]
pub fn pie() -> Resource
    returns
        Resource::ComplexFood(ComplexFood::Pie),
{
    Resource::ComplexFood(ComplexFood::Pie)
}

/// Pickled Goods, a complex food.
#[verifier::allow_in_spec]
pub fn pickled_goods() -> Resource
    returns
        Resource::ComplexFood(ComplexFood::PickledGoods),
{
    Resource::ComplexFood(ComplexFood::PickledGoods)
}

/// Jerky, a complex food.
#[verifier::allow_in_spec]
pub fn jerky() -> Resource
    returns
        Resource::ComplexFood(ComplexFood::Jerky),
{
    Resource::ComplexFood(ComplexFood::Jerky)
}

/// Paste, a complex food.
#[verifier::allow_in_spec]
pub fn paste() -> Resource
    returns
        Resource::ComplexFood(ComplexFood::Paste),
{
    Resource::ComplexFood(ComplexFood::Paste)
}

/// Skewers, a complex food.
#[verifier::allow_in_spec]
pub fn skewers() -> Resource
    returns
        Resource::ComplexFood(ComplexFood::Skewers),
{
    Resource::ComplexFood(ComplexFood::Skewers)
}

/// Every complex food, in catalog order.
pub open spec fn spec_all_complex_food() -> Seq<Resource> {
    seq![porridge(), biscuits(), pie(), pickled_goods(), jerky(), paste(), skewers()]
}

/// The list of complex food holds every complex food, and none twice.
pub proof fn lemma_all_complex_food_once_each(member: ComplexFood)
    ensures
        spec_all_complex_food().contains(Resource::ComplexFood(member)),
        spec_all_complex_food().no_duplicates(),
{
    let all = spec_all_complex_food();
    match member {
        ComplexFood::Porridge => assert(all[0] == Resource::ComplexFood(member)),
        ComplexFood::Biscuits => assert(all[1] == Resource::ComplexFood(member)),
        ComplexFood::Pie => assert(all[2] == Resource::ComplexFood(member)),
        ComplexFood::PickledGoods => assert(all[3] == Resource::ComplexFood(member)),
        ComplexFood::Jerky => assert(all[4] == Resource::ComplexFood(member)),
        ComplexFood::Paste => assert(all[5] == Resource::ComplexFood(member)),
        ComplexFood::Skewers => assert(all[6] == Resource::ComplexFood(member)),
    }
}

/// Every complex food, in catalog order.
pub fn all_complex_food() -> (all: Vec<Resource>)
    ensures
        all@ == spec_all_complex_food(),
{
    let all = vec![porridge(), biscuits(), pie(), pickled_goods(), jerky(), paste(), skewers()];
    assert(all@ =~= spec_all_complex_food());
    all
}

/// What the villagers wear.
#[derive(Clone, Copy, Debug, PartialEq, Eq, Hash, PartialOrd, Ord, Structural)]
pub enum Clothing {
    Coats,
    Boots,
}

impl Clothing {
    /// The symbolic name: the name of the variant.
    pub open spec fn spec_name(self) -> Seq<char> {
        match self {
            Clothing::Coats => "Coats"@,
            Clothing::Boots => "Boots"@,
        }
    }

    /// The display name.
    pub open spec fn spec_label(self) -> Seq<char> {
        title_of(self.spec_name())
    }

    /// How far the good stands from the raw goods.
    pub open spec fn tier(self) -> nat {
        match self {
            Self::Coats | Self::Boots => 3,
        }
    }

    /// The symbolic name: the name of the variant.
    pub fn name(&self) -> (name: &'static str)
        ensures
            name@ == self.spec_name(),
    {
        match self {
            Clothing::Coats => "Coats",
            Clothing::Boots => "Boots",
        }
    }

    /// The display name, in title case with spaces.
    pub fn to_string(&self) -> (label: String)
        ensures
            label@ == self.spec_label(),
    {
        titleize(self.name())
    }
}

impl Recipe for Clothing {
    open spec fn slots(&self) -> Seq<Seq<Resource>> {
        match self {
            Self::Coats => seq![seq![fabric(), leather()], seq![dye(), resin()]],
            Self::Boots => seq![seq![leather(), scales()]],
        }
    }

    fn recipe(&self) -> (recipe: Vec<Vec<Resource>>) {
        let recipe = match self {
            Self::Coats => vec![vec![fabric(), leather()], vec![dye(), resin()]],
            Self::Boots => vec![vec![leather(), scales()]],
        };
        assert(slot_lists(recipe) =~~= self.slots());
        recipe
    }
}

/// Coats, an item of clothing.
#[verifier::allow_in_spec]
pub fn coats() -> Resource
    returns
        Resource::Clothing(Clothing::Coats),
{
    Resource::Clothing(Clothing::Coats)
}

/// Boots, an item of clothing.
#[verifier::allow_in_spec]
pub fn boots() -> Resource
    returns
        Resource::Clothing(Clothing::Boots),
{
    Resource::Clothing(Clothing::Boots)
}

/// Every item of clothing, in catalog order.
pub open spec fn spec_all_clothing() -> Seq<Resource> {
    seq![coats(), boots()]
}

/// The list of clothing holds every item of clothing, and none twice.
pub proof fn lemma_all_clothing_once_each(member: Clothing)
    ensures
        spec_all_clothing().contains(Resource::Clothing(member)),
        spec_all_clothing().no_duplicates(),
{
    let all = spec_all_clothing();
    match member {
        Clothing::Coats => assert(all[0] == Resource::Clothing(member)),
        Clothing::Boots => assert(all[1] == Resource::Clothing(member)),
    }
}

/// Every item of clothing, in catalog order.
pub fn all_clothing() -> (all: Vec<Resource>)
    ensures
        all@ == spec_all_clothing(),
{
    let all = vec![coats(), boots()];
    assert(all@ =~= spec_all_clothing());
    all
}

/// Whether `part` is an alternative in some slot of the recipe of `whole`.
pub open spec fn is_ingredient(part: Resource, whole: Resource) -> bool {
    exists|slot: int, alternative: int|
        0 <= slot < whole.slots().len() && 0 <= alternative < whole.slots()[slot].len()
            && #[trigger] whole.slots()[slot][alternative] == part
}

/// Whether every resource of the chain but the first is an ingredient of the
/// one before it.
pub open spec fn is_chain(chain: Seq<Resource>) -> bool {
    forall|i: int| 0 < i < chain.len() ==> is_ingredient(#[trigger] chain[i], chain[i - 1])
}

/// Every ingredient stands on a lower tier than the good it goes into, the
/// raw goods are the goods of tier 0, and no slot is without an alternative.
pub proof fn lemma_ingredients_stand_lower(whole: Resource)
    ensures
        forall|part: Resource| is_ingredient(part, whole) ==> part.tier() < whole.tier(),
        whole.slots().len() == 0 <==> whole.tier() == 0,
        forall|slot: int|
            0 <= slot < whole.slots().len() ==> (#[trigger] whole.slots()[slot]).len() >= 1,
{
    match whole {
        Resource::Fuel(inner) => lemma_fuel_stands_higher(inner),
        Resource::CraftingResource(inner) => lemma_crafting_resource_stands_higher(inner),
        Resource::BuildingMaterial(inner) => lemma_building_material_stands_higher(inner),
        Resource::ConsumableItem(inner) => lemma_consumable_item_stands_higher(inner),
        Resource::SimpleFood(inner) => lemma_simple_food_stands_higher(inner),
        Resource::ComplexFood(inner) => lemma_complex_food_stands_higher(inner),
        Resource::Clothing(inner) => lemma_clothing_stands_higher(inner),
    }
}

proof fn lemma_fuel_stands_higher(whole: Fuel)
    ensures
        forall|slot: int, alternative: int|
            0 <= slot < whole.slots().len() && 0 <= alternative < whole.slots()[slot].len()
                ==> (#[trigger] whole.slots()[slot][alternative]).tier() < whole.tier(),
        whole.slots().len() == 0 <==> whole.tier() == 0,
        forall|slot: int|
            0 <= slot < whole.slots().len() ==> (#[trigger] whole.slots()[slot]).len() >= 1,
{
}

proof fn lemma_crafting_resource_stands_higher(whole: CraftingResource)
    ensures
        forall|slot: int, alternative: int|
            0 <= slot < whole.slots().len() && 0 <= alternative < whole.slots()[slot].len()
                ==> (#[trigger] whole.slots()[slot][alternative]).tier() < whole.tier(),
        whole.slots().len() == 0 <==> whole.tier() == 0,
        forall|slot: int|
            0 <= slot < whole.slots().len() ==> (#[trigger] whole.slots()[slot]).len() >= 1,
{
}

proof fn lemma_building_material_stands_higher(whole: BuildingMaterial)
    ensures
        forall|slot: int, alternative: int|
            0 <= slot < whole.slots().len() && 0 <= alternative < whole.slots()[slot].len()
                ==> (#[trigger] whole.slots()[slot][alternative]).tier() < whole.tier(),
        whole.slots().len() == 0 <==> whole.tier() == 0,
        forall|slot: int|
            0 <= slot < whole.slots().len() ==> (#[trigger] whole.slots()[slot]).len() >= 1,
{
}

proof fn lemma_consumable_item_stands_higher(whole: ConsumableItem)
    ensures
        forall|slot: int, alternative: int|
            0 <= slot < whole.slots().len() && 0 <= alternative < whole.slots()[slot].len()
                ==> (#[trigger] whole.slots()[slot][alternative]).tier() < whole.tier(),
        whole.slots().len() == 0 <==> whole.tier() == 0,
        forall|slot: int|
            0 <= slot < whole.slots().len() ==> (#[trigger] whole.slots()[slot]).len() >= 1,
{
}

proof fn lemma_simple_food_stands_higher(whole: SimpleFood)
    ensures
        forall|slot: int, alternative: int|
            0 <= slot < whole.slots().len() && 0 <= alternative < whole.slots()[slot].len()
                ==> (#[trigger] whole.slots()[slot][alternative]).tier() < whole.tier(),
        whole.slots().len() == 0 <==> whole.tier() == 0,
        forall|slot: int|
            0 <= slot < whole.slots().len() ==> (#[trigger] whole.slots()[slot]).len() >= 1,
{
}

proof fn lemma_complex_food_stands_higher(whole: ComplexFood)
    ensures
        forall|slot: int, alternative: int|
            0 <= slot < whole.slots().len() && 0 <= alternative < whole.slots()[slot].len()
                ==> (#[trigger] whole.slots()[slot][alternative]).tier() < whole.tier(),
        whole.slots().len() == 0 <==> whole.tier() == 0,
        forall|slot: int|
            0 <= slot < whole.slots().len() ==> (#[trigger] whole.slots()[slot]).len() >= 1,
{
}

proof fn lemma_clothing_stands_higher(whole: Clothing)
    ensures
        forall|slot: int, alternative: int|
            0 <= slot < whole.slots().len() && 0 <= alternative < whole.slots()[slot].len()
                ==> (#[trigger] whole.slots()[slot][alternative]).tier() < whole.tier(),
        whole.slots().len() == 0 <==> whole.tier() == 0,
        forall|slot: int|
            0 <= slot < whole.slots().len() ==> (#[trigger] whole.slots()[slot]).len() >= 1,
{
}

/// No resource is made from itself, however many steps lie between.
pub proof fn lemma_nothing_requires_itself(chain: Seq<Resource>)
    requires
        is_chain(chain),
        chain.len() >= 2,
    ensures
        chain.last() != chain.first(),
        chain.last().tier() < chain.first().tier(),
    decreases chain.len(),
{
    let shorter = chain.drop_last();
    lemma_ingredients_stand_lower(chain[chain.len() - 2]);
    assert(is_ingredient(chain[chain.len() - 1], chain[chain.len() - 2]));
    if chain.len() > 2 {
        assert forall|i: int| 0 < i < shorter.len() implies is_ingredient(
            #[trigger] shorter[i],
            shorter[i - 1],
        ) by {
            assert(is_ingredient(chain[i], chain[i - 1]));
        }
        lemma_nothing_requires_itself(shorter);
    }
}

} // verus!
