//! The economy under planning: what the user has selected, what to ask next,
//! and the report on the needs that the selected species share.

use crate::facet::Facet;
use crate::menu::{
    lemma_view_shows_answer, marks, unchecked, MenuView, MultiSelectMenu, SingleSelectMenu,
};
use crate::needs::{all_services, spec_all_services, Service};
use crate::render::{colored_page, names_fit, page};
use crate::report::{line_views, report, report_lines, ReportLine};
use crate::resource::{
    all_building_materials, all_clothing, all_complex_food, all_consumable_items,
    all_crafting_resources, all_fuel, all_simple_food, spec_all_building_materials,
    spec_all_clothing, spec_all_complex_food, spec_all_consumable_items,
    spec_all_crafting_resources, spec_all_fuel, spec_all_simple_food, wood, Resource,
};
use crate::species::{all_species, spec_all_species, Species};
use crate::tally::{aggregate, is_ranking, ranking_of};
use crate::text::{texts, title_of, titleize};
use vstd::prelude::*;

verus! {

/// The menus of the economy, named by what the user does in them.
#[derive(Clone, Copy, Debug, PartialEq, Eq, Hash, Structural)]
pub enum MenuKind {
    EditSpecies,
    EditServices,
    EditFuel,
    EditCraftingResources,
    EditBuildingMaterials,
    EditConsumableItems,
    EditSimpleFood,
    EditComplexFood,
    EditClothing,
}

impl MenuKind {
    /// The symbolic name: the name of the variant.
    pub open spec fn spec_name(self) -> Seq<char> {
        match self {
            MenuKind::EditSpecies => "EditSpecies"@,
            MenuKind::EditServices => "EditServices"@,
            MenuKind::EditFuel => "EditFuel"@,
            MenuKind::EditCraftingResources => "EditCraftingResources"@,
            MenuKind::EditBuildingMaterials => "EditBuildingMaterials"@,
            MenuKind::EditConsumableItems => "EditConsumableItems"@,
            MenuKind::EditSimpleFood => "EditSimpleFood"@,
            MenuKind::EditComplexFood => "EditComplexFood"@,
            MenuKind::EditClothing => "EditClothing"@,
        }
    }

    /// The display name.
    pub open spec fn spec_label(self) -> Seq<char> {
        title_of(self.spec_name())
    }

    /// The heading of the menu.
    pub open spec fn spec_title(self) -> Seq<char> {
        match self {
            MenuKind::EditSpecies => "Select your species:"@,
            MenuKind::EditServices => "Select services you can provide:"@,
            MenuKind::EditFuel => "Select the you can produce:"@,
            MenuKind::EditCraftingResources => "Select the crafting resources you can produce:"@,
            MenuKind::EditBuildingMaterials => "Select the building materials you can produce:"@,
            MenuKind::EditConsumableItems => "Select the consumable items you can produce:"@,
            MenuKind::EditSimpleFood => "Select the simple food you can produce:"@,
            MenuKind::EditComplexFood => "Select the complex food you can produce:"@,
            MenuKind::EditClothing => "Select the clothing you can produce:"@,
        }
    }

    /// The symbolic name: the name of the variant.
    pub fn name(&self) -> (name: &'static str)
        ensures
            name@ == self.spec_name(),
    {
        match self {
            MenuKind::EditSpecies => "EditSpecies",
            MenuKind::EditServices => "EditServices",
            MenuKind::EditFuel => "EditFuel",
            MenuKind::EditCraftingResources => "EditCraftingResources",
            MenuKind::EditBuildingMaterials => "EditBuildingMaterials",
            MenuKind::EditConsumableItems => "EditConsumableItems",
            MenuKind::EditSimpleFood => "EditSimpleFood",
            MenuKind::EditComplexFood => "EditComplexFood",
            MenuKind::EditClothing => "EditClothing",
        }
    }

    /// The display name, in title case with spaces.
    pub fn to_string(&self) -> (label: String)
        ensures
            label@ == self.spec_label(),
    {
        titleize(self.name())
    }

    /// The heading of the menu.
    pub fn title(&self) -> (title: &'static str)
        ensures
            title@ == self.spec_title(),
    {
        match self {
            MenuKind::EditSpecies => "Select your species:",
            MenuKind::EditServices => "Select services you can provide:",
            MenuKind::EditFuel => "Select the you can produce:",
            MenuKind::EditCraftingResources => "Select the crafting resources you can produce:",
            MenuKind::EditBuildingMaterials => "Select the building materials you can produce:",
            MenuKind::EditConsumableItems => "Select the consumable items you can produce:",
            MenuKind::EditSimpleFood => "Select the simple food you can produce:",
            MenuKind::EditComplexFood => "Select the complex food you can produce:",
            MenuKind::EditClothing => "Select the clothing you can produce:",
        }
    }
}

impl Facet for MenuKind {
    open spec fn label(&self) -> Seq<char> {
        self.spec_label()
    }

    fn to_label(&self) -> (label: String) {
        self.to_string()
    }

    fn same(&self, other: &Self) -> (same: bool) {
        *self == *other
    }
}

/// Every menu, in the order in which the switcher offers them.
pub open spec fn spec_all_menus() -> Seq<MenuKind> {
    seq![
        MenuKind::EditSimpleFood,
        MenuKind::EditBuildingMaterials,
        MenuKind::EditFuel,
        MenuKind::EditCraftingResources,
        MenuKind::EditComplexFood,
        MenuKind::EditClothing,
        MenuKind::EditConsumableItems,
        MenuKind::EditServices,
        MenuKind::EditSpecies,
    ]
}

/// The list of menus holds every menu, and none twice.
pub proof fn lemma_all_menus_once_each(kind: MenuKind)
    ensures
        spec_all_menus().contains(kind),
        spec_all_menus().no_duplicates(),
{
    let all = spec_all_menus();
    match kind {
        MenuKind::EditSimpleFood => assert(all[0] == kind),
        MenuKind::EditBuildingMaterials => assert(all[1] == kind),
        MenuKind::EditFuel => assert(all[2] == kind),
        MenuKind::EditCraftingResources => assert(all[3] == kind),
        MenuKind::EditComplexFood => assert(all[4] == kind),
        MenuKind::EditClothing => assert(all[5] == kind),
        MenuKind::EditConsumableItems => assert(all[6] == kind),
        MenuKind::EditServices => assert(all[7] == kind),
        MenuKind::EditSpecies => assert(all[8] == kind),
    }
}

/// Every menu, in the order in which the switcher offers them.
pub fn all_menus() -> (all: Vec<MenuKind>)
    ensures
        all@ == spec_all_menus(),
{
    let all = vec![
        MenuKind::EditSimpleFood,
        MenuKind::EditBuildingMaterials,
        MenuKind::EditFuel,
        MenuKind::EditCraftingResources,
        MenuKind::EditComplexFood,
        MenuKind::EditClothing,
        MenuKind::EditConsumableItems,
        MenuKind::EditServices,
        MenuKind::EditSpecies,
    ];
    assert(all@ =~= spec_all_menus());
    all
}

/// Where the planning stands.
#[derive(Clone, Copy, Debug, PartialEq, Eq, Structural)]
pub enum Phase {
    /// No species is selected yet.
    AwaitingSpecies,
    /// At least one species is selected.
    Planning,
}

/// What to ask the user next.
#[derive(Clone, Copy, Debug, PartialEq, Eq, Structural)]
pub enum Prompt {
    /// Open this menu.
    Menu(MenuKind),
    /// Let the user pick a menu in the switcher.
    Switcher,
}

/// The heading of the switcher.
pub open spec fn spec_switcher_title() -> Seq<char> {
    "What would you like to do?\n"@
}

/// The selection state of an economy: one menu for the species, one for the
/// services and one for each category of resources, and the switcher between
/// them.
#[derive(Debug)]
pub struct Economy {
    pub species: MultiSelectMenu<Species>,
    pub services: MultiSelectMenu<Service>,
    pub fuel: MultiSelectMenu<Resource>,
    pub crafting_resources: MultiSelectMenu<Resource>,
    pub building_materials: MultiSelectMenu<Resource>,
    pub consumable_items: MultiSelectMenu<Resource>,
    pub simple_food: MultiSelectMenu<Resource>,
    pub complex_food: MultiSelectMenu<Resource>,
    pub clothing: MultiSelectMenu<Resource>,
    pub switcher: SingleSelectMenu<MenuKind>,
}

impl Economy {
    /// Whether every menu offers its whole catalog, in catalog order and
    /// under its own heading.
    pub open spec fn is_complete(&self) -> bool {
        &&& self.species.options() == spec_all_species()
        &&& self.services.options() == spec_all_services()
        &&& self.fuel.options() == spec_all_fuel()
        &&& self.crafting_resources.options() == spec_all_crafting_resources()
        &&& self.building_materials.options() == spec_all_building_materials()
        &&& self.consumable_items.options() == spec_all_consumable_items()
        &&& self.simple_food.options() == spec_all_simple_food()
        &&& self.complex_food.options() == spec_all_complex_food()
        &&& self.clothing.options() == spec_all_clothing()
        &&& self.switcher.options() == spec_all_menus()
        &&& self.switcher.spec_title() == spec_switcher_title()
        &&& forall|kind: MenuKind| #[trigger] self.spec_menu_title(kind) == kind.spec_title()
    }

    /// The heading of the menu of the given kind.
    pub open spec fn spec_menu_title(&self, kind: MenuKind) -> Seq<char> {
        match kind {
            MenuKind::EditSpecies => self.species.spec_title(),
            MenuKind::EditServices => self.services.spec_title(),
            MenuKind::EditFuel => self.fuel.spec_title(),
            MenuKind::EditCraftingResources => self.crafting_resources.spec_title(),
            MenuKind::EditBuildingMaterials => self.building_materials.spec_title(),
            MenuKind::EditConsumableItems => self.consumable_items.spec_title(),
            MenuKind::EditSimpleFood => self.simple_food.spec_title(),
            MenuKind::EditComplexFood => self.complex_food.spec_title(),
            MenuKind::EditClothing => self.clothing.spec_title(),
        }
    }

    /// Whether `view` is what the menu of the given kind shows.
    pub open spec fn shows(&self, kind: MenuKind, view: MenuView) -> bool {
        match kind {
            MenuKind::EditSpecies => view.shows(self.species.options(), self.species.checked()),
            MenuKind::EditServices => view.shows(self.services.options(), self.services.checked()),
            MenuKind::EditFuel => view.shows(self.fuel.options(), self.fuel.checked()),
            MenuKind::EditCraftingResources => view.shows(
                self.crafting_resources.options(),
                self.crafting_resources.checked(),
            ),
            MenuKind::EditBuildingMaterials => view.shows(
                self.building_materials.options(),
                self.building_materials.checked(),
            ),
            MenuKind::EditConsumableItems => view.shows(
                self.consumable_items.options(),
                self.consumable_items.checked(),
            ),
            MenuKind::EditSimpleFood => view.shows(
                self.simple_food.options(),
                self.simple_food.checked(),
            ),
            MenuKind::EditComplexFood => view.shows(
                self.complex_food.options(),
                self.complex_food.checked(),
            ),
            MenuKind::EditClothing => view.shows(self.clothing.options(), self.clothing.checked()),
        }
    }

    /// Whether this economy is `before` after the user answered the menu of
    /// the given kind with `selected`: that menu holds the answer, and nothing
    /// else has changed.
    pub open spec fn took(
        &self,
        before: &Economy,
        kind: MenuKind,
        selected: Seq<Seq<char>>,
    ) -> bool {
        match kind {
            MenuKind::EditSpecies => {
                &&& self.species.took(&before.species, selected)
                &&& *self == (Economy { species: self.species, ..*before })
            },
            MenuKind::EditServices => {
                &&& self.services.took(&before.services, selected)
                &&& *self == (Economy { services: self.services, ..*before })
            },
            MenuKind::EditFuel => {
                &&& self.fuel.took(&before.fuel, selected)
                &&& *self == (Economy { fuel: self.fuel, ..*before })
            },
            MenuKind::EditCraftingResources => {
                &&& self.crafting_resources.took(&before.crafting_resources, selected)
                &&& *self == (Economy { crafting_resources: self.crafting_resources, ..*before })
            },
            MenuKind::EditBuildingMaterials => {
                &&& self.building_materials.took(&before.building_materials, selected)
                &&& *self == (Economy { building_materials: self.building_materials, ..*before })
            },
            MenuKind::EditConsumableItems => {
                &&& self.consumable_items.took(&before.consumable_items, selected)
                &&& *self == (Economy { consumable_items: self.consumable_items, ..*before })
            },
            MenuKind::EditSimpleFood => {
                &&& self.simple_food.took(&before.simple_food, selected)
                &&& *self == (Economy { simple_food: self.simple_food, ..*before })
            },
            MenuKind::EditComplexFood => {
                &&& self.complex_food.took(&before.complex_food, selected)
                &&& *self == (Economy { complex_food: self.complex_food, ..*before })
            },
            MenuKind::EditClothing => {
                &&& self.clothing.took(&before.clothing, selected)
                &&& *self == (Economy { clothing: self.clothing, ..*before })
            },
        }
    }

    /// Whether this is an economy at its start: every menu offers its whole
    /// catalog, and nothing is selected but wood, the fuel that every
    /// settlement starts with.
    pub open spec fn is_fresh(&self) -> bool {
        &&& self.is_complete()
        &&& self.species.checked() == unchecked(spec_all_species().len())
        &&& self.services.checked() == unchecked(spec_all_services().len())
        &&& self.fuel.checked() == marks(spec_all_fuel(), seq![wood()])
        &&& self.crafting_resources.checked() == unchecked(spec_all_crafting_resources().len())
        &&& self.building_materials.checked() == unchecked(spec_all_building_materials().len())
        &&& self.consumable_items.checked() == unchecked(spec_all_consumable_items().len())
        &&& self.simple_food.checked() == unchecked(spec_all_simple_food().len())
        &&& self.complex_food.checked() == unchecked(spec_all_complex_food().len())
        &&& self.clothing.checked() == unchecked(spec_all_clothing().len())
    }

    /// The selected species, in menu order.
    pub open spec fn selected_species(&self) -> Seq<Species> {
        self.species.selections()
    }

    /// The display names of the selected services and resources: services
    /// first, followed by fuel, crafting resources, building materials,
    /// consumable items, simple food, complex food and clothing.
    pub open spec fn facets(&self) -> Seq<Seq<char>> {
        self.services.selection_strings() + self.fuel.selection_strings()
            + self.crafting_resources.selection_strings()
            + self.building_materials.selection_strings()
            + self.consumable_items.selection_strings() + self.simple_food.selection_strings()
            + self.complex_food.selection_strings() + self.clothing.selection_strings()
    }

    /// Where the planning stands: it awaits species until one is selected.
    pub open spec fn spec_phase(&self) -> Phase {
        if self.selected_species().len() == 0 {
            Phase::AwaitingSpecies
        } else {
            Phase::Planning
        }
    }

    /// What to ask next: the species menu while the planning awaits species,
    /// whatever was asked before; the switcher otherwise.
    pub open spec fn spec_plan(&self) -> Prompt {
        match self.spec_phase() {
            Phase::AwaitingSpecies => Prompt::Menu(MenuKind::EditSpecies),
            Phase::Planning => Prompt::Switcher,
        }
    }

    /// An economy at its start: every menu offers its whole catalog, and
    /// nothing is selected but wood.
    pub fn new() -> (economy: Self)
        ensures
            economy.is_fresh(),
    {
        let mut economy = Economy {
            species: MultiSelectMenu::new(MenuKind::EditSpecies.title(), all_species()),
            services: MultiSelectMenu::new(MenuKind::EditServices.title(), all_services()),
            fuel: MultiSelectMenu::new(MenuKind::EditFuel.title(), all_fuel()),
            crafting_resources: MultiSelectMenu::new(
                MenuKind::EditCraftingResources.title(),
                all_crafting_resources(),
            ),
            building_materials: MultiSelectMenu::new(
                MenuKind::EditBuildingMaterials.title(),
                all_building_materials(),
            ),
            consumable_items: MultiSelectMenu::new(
                MenuKind::EditConsumableItems.title(),
                all_consumable_items(),
            ),
            simple_food: MultiSelectMenu::new(MenuKind::EditSimpleFood.title(), all_simple_food()),
            complex_food: MultiSelectMenu::new(
                MenuKind::EditComplexFood.title(),
                all_complex_food(),
            ),
            clothing: MultiSelectMenu::new(MenuKind::EditClothing.title(), all_clothing()),
            switcher: SingleSelectMenu::new("What would you like to do?\n", all_menus()),
        };
        let mut starting_fuel: Vec<Resource> = Vec::new();
        starting_fuel.push(wood());
        assert(starting_fuel@ =~= seq![wood()]);
        economy.fuel.select(starting_fuel);
        economy
    }

    /// Where the planning stands.
    pub fn phase(&self) -> (phase: Phase)
        ensures
            phase == self.spec_phase(),
    {
        if self.species.get_selections().len() == 0 {
            Phase::AwaitingSpecies
        } else {
            Phase::Planning
        }
    }

    /// What to ask once the report is shown: the species menu while no
    /// species is selected, whichever menu was open last; the switcher
    /// otherwise.
    pub fn plan(&self) -> (next: Prompt)
        ensures
            next == self.spec_plan(),
            self.selected_species().len() == 0 ==> next == Prompt::Menu(MenuKind::EditSpecies),
            self.selected_species().len() > 0 ==> next == Prompt::Switcher,
    {
        match self.phase() {
            Phase::AwaitingSpecies => Prompt::Menu(MenuKind::EditSpecies),
            Phase::Planning => Prompt::Switcher,
        }
    }

    /// The heading of the menu of the given kind.
    pub fn menu_title(&self, kind: MenuKind) -> (title: &str)
        ensures
            title@ == self.spec_menu_title(kind),
    {
        match kind {
            MenuKind::EditSpecies => self.species.title(),
            MenuKind::EditServices => self.services.title(),
            MenuKind::EditFuel => self.fuel.title(),
            MenuKind::EditCraftingResources => self.crafting_resources.title(),
            MenuKind::EditBuildingMaterials => self.building_materials.title(),
            MenuKind::EditConsumableItems => self.consumable_items.title(),
            MenuKind::EditSimpleFood => self.simple_food.title(),
            MenuKind::EditComplexFood => self.complex_food.title(),
            MenuKind::EditClothing => self.clothing.title(),
        }
    }

    /// What the menu of the given kind shows when it is opened: its options,
    /// with the ones selected so far checked.
    pub fn menu_view(&self, kind: MenuKind) -> (view: MenuView)
        ensures
            self.shows(kind, view),
    {
        match kind {
            MenuKind::EditSpecies => self.species.view(),
            MenuKind::EditServices => self.services.view(),
            MenuKind::EditFuel => self.fuel.view(),
            MenuKind::EditCraftingResources => self.crafting_resources.view(),
            MenuKind::EditBuildingMaterials => self.building_materials.view(),
            MenuKind::EditConsumableItems => self.consumable_items.view(),
            MenuKind::EditSimpleFood => self.simple_food.view(),
            MenuKind::EditComplexFood => self.complex_food.view(),
            MenuKind::EditClothing => self.clothing.view(),
        }
    }

    /// Takes the user's answer to the menu that was picked in the switcher:
    /// the answer replaces the selection of that menu.
    pub fn switch_menus(&mut self, menu_kind: MenuKind, answer: Vec<String>)
        ensures
            final(self).took(old(self), menu_kind, texts(answer@)),
    {
        match menu_kind {
            MenuKind::EditSimpleFood => self.edit_simple_food(answer),
            MenuKind::EditBuildingMaterials => self.edit_building_materials(answer),
            MenuKind::EditFuel => self.edit_fuel(answer),
            MenuKind::EditCraftingResources => self.edit_crafting_resources(answer),
            MenuKind::EditComplexFood => self.edit_complex_food(answer),
            MenuKind::EditClothing => self.edit_clothing(answer),
            MenuKind::EditConsumableItems => self.edit_consumable_items(answer),
            MenuKind::EditServices => self.edit_services(answer),
            MenuKind::EditSpecies => self.edit_species(answer),
        }
    }

    /// Replaces the selection of simple food by the answer.
    pub fn edit_simple_food(&mut self, answer: Vec<String>)
        ensures
            final(self).took(old(self), MenuKind::EditSimpleFood, texts(answer@)),
    {
        self.simple_food.stringly_select(answer)
    }

    /// Replaces the selection of building materials by the answer.
    pub fn edit_building_materials(&mut self, answer: Vec<String>)
        ensures
            final(self).took(old(self), MenuKind::EditBuildingMaterials, texts(answer@)),
    {
        self.building_materials.stringly_select(answer)
    }

    /// Replaces the selection of fuel by the answer.
    pub fn edit_fuel(&mut self, answer: Vec<String>)
        ensures
            final(self).took(old(self), MenuKind::EditFuel, texts(answer@)),
    {
        self.fuel.stringly_select(answer)
    }

    /// Replaces the selection of crafting resources by the answer.
    pub fn edit_crafting_resources(&mut self, answer: Vec<String>)
        ensures
            final(self).took(old(self), MenuKind::EditCraftingResources, texts(answer@)),
    {
        self.crafting_resources.stringly_select(answer)
    }

    /// Replaces the selection of complex food by the answer.
    pub fn edit_complex_food(&mut self, answer: Vec<String>)
        ensures
            final(self).took(old(self), MenuKind::EditComplexFood, texts(answer@)),
    {
        self.complex_food.stringly_select(answer)
    }

    /// Replaces the selection of clothing by the answer.
    pub fn edit_clothing(&mut self, answer: Vec<String>)
        ensures
            final(self).took(old(self), MenuKind::EditClothing, texts(answer@)),
    {
        self.clothing.stringly_select(answer)
    }

    /// Replaces the selection of consumable items by the answer.
    pub fn edit_consumable_items(&mut self, answer: Vec<String>)
        ensures
            final(self).took(old(self), MenuKind::EditConsumableItems, texts(answer@)),
    {
        self.consumable_items.stringly_select(answer)
    }

    /// Replaces the selection of services by the answer.
    pub fn edit_services(&mut self, answer: Vec<String>)
        ensures
            final(self).took(old(self), MenuKind::EditServices, texts(answer@)),
    {
        self.services.stringly_select(answer)
    }

    /// Replaces the selection of species by the answer.
    pub fn edit_species(&mut self, answer: Vec<String>)
        ensures
            final(self).took(old(self), MenuKind::EditSpecies, texts(answer@)),
    {
        self.species.stringly_select(answer)
    }

    /// The display names of the selected services and resources.
    pub fn selected_facets(&self) -> (facets: Vec<String>)
        ensures
            texts(facets@) == self.facets(),
    {
        let mut facets = self.services.get_selection_strings();
        let ghost services = texts(facets@);
        let mut fuel = self.fuel.get_selection_strings();
        let ghost fuel_texts = texts(fuel@);
        facets.append(&mut fuel);
        assert(texts(facets@) =~= services + fuel_texts);
        let mut crafting = self.crafting_resources.get_selection_strings();
        let ghost so_far = texts(facets@);
        let ghost added = texts(crafting@);
        facets.append(&mut crafting);
        assert(texts(facets@) =~= so_far + added);
        let mut building = self.building_materials.get_selection_strings();
        let ghost so_far = texts(facets@);
        let ghost added = texts(building@);
        facets.append(&mut building);
        assert(texts(facets@) =~= so_far + added);
        let mut consumable = self.consumable_items.get_selection_strings();
        let ghost so_far = texts(facets@);
        let ghost added = texts(consumable@);
        facets.append(&mut consumable);
        assert(texts(facets@) =~= so_far + added);
        let mut simple = self.simple_food.get_selection_strings();
        let ghost so_far = texts(facets@);
        let ghost added = texts(simple@);
        facets.append(&mut simple);
        assert(texts(facets@) =~= so_far + added);
        let mut complex = self.complex_food.get_selection_strings();
        let ghost so_far = texts(facets@);
        let ghost added = texts(complex@);
        facets.append(&mut complex);
        assert(texts(facets@) =~= so_far + added);
        let mut clothing = self.clothing.get_selection_strings();
        let ghost so_far = texts(facets@);
        let ghost added = texts(clothing@);
        facets.append(&mut clothing);
        assert(texts(facets@) =~= so_far + added);
        facets
    }

    /// The report on the needs that the selected species share, annotated
    /// with what the user has selected to produce and provide.
    pub fn report(&self) -> (lines: Vec<ReportLine>)
        ensures
            is_ranking(self.selected_species(), ranking_of(self.selected_species())),
            line_views(lines@) == report_lines(
                ranking_of(self.selected_species()),
                self.selected_species().len() as usize,
                self.facets(),
            ),
    {
        let selected = self.species.get_selections();
        let aggregation = aggregate(selected.as_slice());
        let facets = self.selected_facets();
        report(&aggregation.ranking, aggregation.total, &facets)
    }
}

impl Economy {
    /// The report as text for a terminal, line by line: what
    /// [`Economy::report`] lists, laid out as [`colored_page`] does, with the
    /// selected names in green and the others in red.
    pub fn print_needs(&self) -> (text: Vec<String>)
        ensures
            ({
                let lines = report_lines(
                    ranking_of(self.selected_species()),
                    self.selected_species().len() as usize,
                    self.facets(),
                );
                exists|names: Seq<Seq<Seq<char>>>|
                    names_fit(lines, names) && texts(text@) == #[trigger] page(lines, names)
            }),
    {
        let lines = self.report();
        colored_page(&lines)
    }
}

impl Default for Economy {
    fn default() -> (economy: Self)
        ensures
            economy.is_fresh(),
    {
        Economy::new()
    }
}

/// An answer to a menu leaves every menu with its catalog and its heading.
pub proof fn lemma_answers_keep_catalogs(
    before: Economy,
    after: Economy,
    kind: MenuKind,
    selected: Seq<Seq<char>>,
)
    requires
        before.is_complete(),
        after.took(&before, kind, selected),
    ensures
        after.is_complete(),
{
    assert forall|other: MenuKind| #[trigger]
        after.spec_menu_title(other) == other.spec_title() by {
        assert(before.spec_menu_title(other) == other.spec_title());
    }
}

/// While no species is selected, the species menu is next, whichever menu was
/// answered last and whatever the answer was.
pub proof fn lemma_species_menu_is_forced(
    before: Economy,
    after: Economy,
    kind: MenuKind,
    selected: Seq<Seq<char>>,
)
    requires
        after.took(&before, kind, selected),
        after.selected_species().len() == 0,
    ensures
        after.spec_phase() == Phase::AwaitingSpecies,
        after.spec_plan() == Prompt::Menu(MenuKind::EditSpecies),
{
}

/// When a menu is opened again after an answer, exactly the options that the
/// answer named are checked: the view lists the position of an option among
/// the selected indexes if, and only if, the answer holds the display name of
/// that option.
pub proof fn lemma_answer_is_shown_checked(
    before: Economy,
    after: Economy,
    kind: MenuKind,
    selected: Seq<Seq<char>>,
    view: MenuView,
    i: int,
)
    requires
        after.took(&before, kind, selected),
        after.shows(kind, view),
        0 <= i < view.options@.len() <= usize::MAX,
    ensures
        view.selected_indexes@.contains(i as usize) <==> selected.contains(view.options@[i]@),
{
    match kind {
        MenuKind::EditSpecies => lemma_view_shows_answer(
            before.species,
            after.species,
            selected,
            view,
            i,
        ),
        MenuKind::EditServices => lemma_view_shows_answer(
            before.services,
            after.services,
            selected,
            view,
            i,
        ),
        MenuKind::EditFuel => lemma_view_shows_answer(before.fuel, after.fuel, selected, view, i),
        MenuKind::EditCraftingResources => lemma_view_shows_answer(
            before.crafting_resources,
            after.crafting_resources,
            selected,
            view,
            i,
        ),
        MenuKind::EditBuildingMaterials => lemma_view_shows_answer(
            before.building_materials,
            after.building_materials,
            selected,
            view,
            i,
        ),
        MenuKind::EditConsumableItems => lemma_view_shows_answer(
            before.consumable_items,
            after.consumable_items,
            selected,
            view,
            i,
        ),
        MenuKind::EditSimpleFood => lemma_view_shows_answer(
            before.simple_food,
            after.simple_food,
            selected,
            view,
            i,
        ),
        MenuKind::EditComplexFood => lemma_view_shows_answer(
            before.complex_food,
            after.complex_food,
            selected,
            view,
            i,
        ),
        MenuKind::EditClothing => lemma_view_shows_answer(
            before.clothing,
            after.clothing,
            selected,
            view,
            i,
        ),
    }
}

} // verus!
