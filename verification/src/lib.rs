//! Planning aid for a settlement: which needs the chosen species share, and
//! what each shared need is made from.
//!
//! The user selects the species of the settlement and the resources and
//! services it can supply. [`aggregate`] ranks the needs of the selected
//! species by the number of species that share them, and [`report`] lists the
//! shared needs with their recipes, marking what is already selected.
//! [`Economy`] holds the selection and says what to ask the user next.

pub mod economy;
pub mod facet;
pub mod menu;
pub mod needs;
pub mod recipe;
pub mod render;
pub mod report;
pub mod resource;
pub mod species;
pub mod tally;
pub mod text;

pub use economy::{all_menus, Economy, MenuKind, Phase, Prompt};
pub use facet::Facet;
pub use menu::{MenuView, MultiSelectMenu, SingleSelectMenu};
pub use needs::{
    all_needs, all_services, brawling, education, leisure, luxury, religion, treatment, Need,
    Service, NEED_COUNT,
};
pub use recipe::Recipe;
pub use render::{colored_page, decimal_string, plain_page, Tint};
pub use report::{recipe_report, report, ReportLine, Token};
pub use resource::{
    ale, algae, all_building_materials, all_clothing, all_complex_food, all_consumable_items,
    all_crafting_resources, all_fuel, all_goods, all_simple_food, barrels, berries, biscuits,
    boots, bricks, clay, clearance_water, coal, coats, copper_bars, copper_ore, crystallized_dew,
    drizzle_water, dye, eggs, fabric, fish, flour, grain, herbs, incense, insects, jerky, leather,
    meat, mushrooms, oil, paste, pickled_goods, pie, planks, plant_fiber, porridge, pottery, reed,
    resin, roots, salt, scales, scrolls, sea_marrow, skewers, stone, storm_water, tea,
    training_gear, vegetables, waterskins, wine, wood, BuildingMaterial, Clothing, ComplexFood,
    ConsumableItem, CraftingResource, Fuel, Resource, SimpleFood,
};
pub use species::{all_species, CatalogError, Species};
pub use tally::{aggregate, Aggregation};
pub use text::{join, pascalize, pluralize, titleize, LetterCase};
