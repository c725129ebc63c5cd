use for_the_queen_cli::resource::{all_crafting_resources, wood};
use for_the_queen_cli::{
    all_menus, all_services, all_species, Clothing, ComplexFood, Economy, MenuKind, MenuView,
    Need, Phase, Prompt, ReportLine, Species, Token,
};

fn strings(items: &[&str]) -> Vec<String> {
    items.iter().map(|item| item.to_string()).collect()
}

fn plain(text: &str) -> Token {
    Token { text: text.to_string(), selected: false }
}

fn chosen(text: &str) -> Token {
    Token { text: text.to_string(), selected: true }
}

#[test]
fn a_new_economy_has_only_wood_selected() {
    let economy = Economy::new();
    assert_eq!(economy.species.get_selections(), vec![]);
    assert_eq!(economy.services.get_selections(), vec![]);
    assert_eq!(economy.fuel.get_selections(), vec![wood()]);
    assert_eq!(economy.crafting_resources.get_selections(), vec![]);
    assert_eq!(economy.building_materials.get_selections(), vec![]);
    assert_eq!(economy.consumable_items.get_selections(), vec![]);
    assert_eq!(economy.simple_food.get_selections(), vec![]);
    assert_eq!(economy.complex_food.get_selections(), vec![]);
    assert_eq!(economy.clothing.get_selections(), vec![]);
    assert_eq!(economy.selected_facets(), strings(&["Wood"]));
    assert_eq!(economy.fuel.view().selected_indexes, vec![3]);
}

#[test]
fn a_new_economy_offers_the_whole_catalog() {
    let economy = Economy::new();
    let names = |labels: Vec<String>| labels;
    assert_eq!(
        economy.species.view().options,
        names(all_species().iter().map(|species| species.to_string()).collect())
    );
    assert_eq!(
        economy.services.view().options,
        names(all_services().iter().map(|service| service.to_string()).collect())
    );
    assert_eq!(
        economy.crafting_resources.view().options,
        names(all_crafting_resources().iter().map(|good| good.to_string()).collect())
    );
    assert_eq!(economy.fuel.view().options, strings(&["Oil", "Coal", "Sea Marrow", "Wood"]));
    assert_eq!(economy.building_materials.view().options, strings(&["Planks", "Fabric", "Bricks"]));
    assert_eq!(economy.clothing.view().options, strings(&["Coats", "Boots"]));
    assert_eq!(economy.consumable_items.view().options.len(), 6);
    assert_eq!(economy.simple_food.view().options.len(), 8);
    assert_eq!(economy.complex_food.view().options.len(), 7);
    assert_eq!(
        economy.switcher.labels(),
        names(all_menus().iter().map(|menu| menu.to_string()).collect())
    );
    assert_eq!(economy.switcher.title(), "What would you like to do?\n");
    for kind in all_menus() {
        assert_eq!(economy.menu_title(kind), kind.title());
    }
}

#[test]
fn the_default_economy_is_the_new_one() {
    let economy = Economy::default();
    assert_eq!(economy.selected_facets(), strings(&["Wood"]));
    assert_eq!(economy.plan(), Prompt::Menu(MenuKind::EditSpecies));
}

#[test]
fn planning_starts_with_the_species() {
    let economy = Economy::new();
    assert_eq!(economy.phase(), Phase::AwaitingSpecies);
    assert_eq!(economy.plan(), Prompt::Menu(MenuKind::EditSpecies));
}

#[test]
fn with_species_selected_the_switcher_is_next() {
    let mut economy = Economy::new();
    economy.edit_species(strings(&["Beavers"]));
    assert_eq!(economy.phase(), Phase::Planning);
    assert_eq!(economy.plan(), Prompt::Switcher);
}

#[test]
fn without_species_the_species_menu_is_next_whatever_was_open() {
    for kind in all_menus() {
        let mut economy = Economy::new();
        economy.switch_menus(kind, strings(&["Coats", "Oil", "Education", "Planks"]));
        if matches!(kind, MenuKind::EditSpecies) {
            assert_eq!(economy.species.get_selections(), vec![]);
        }
        assert_eq!(economy.plan(), Prompt::Menu(MenuKind::EditSpecies));
    }
    let mut economy = Economy::new();
    economy.edit_species(strings(&["Foxes", "Lizards"]));
    economy.switch_menus(MenuKind::EditClothing, strings(&["Boots"]));
    assert_eq!(economy.plan(), Prompt::Switcher);
    economy.switch_menus(MenuKind::EditSpecies, vec![]);
    assert_eq!(economy.plan(), Prompt::Menu(MenuKind::EditSpecies));
    economy.switch_menus(MenuKind::EditFuel, strings(&["Coal"]));
    assert_eq!(economy.plan(), Prompt::Menu(MenuKind::EditSpecies));
}

#[test]
fn an_answer_changes_its_own_menu_only() {
    let mut economy = Economy::new();
    economy.switch_menus(MenuKind::EditSimpleFood, strings(&["Eggs", "Roots", "Coats"]));
    assert_eq!(economy.simple_food.view().selected_indexes, vec![1, 5]);
    assert_eq!(economy.clothing.get_selections(), vec![]);
    assert_eq!(economy.fuel.get_selections(), vec![wood()]);
    assert_eq!(economy.selected_facets(), strings(&["Wood", "Roots", "Eggs"]));
    economy.switch_menus(MenuKind::EditFuel, strings(&["Oil"]));
    assert_eq!(economy.selected_facets(), strings(&["Oil", "Roots", "Eggs"]));
    assert_eq!(economy.species.get_selections(), vec![]);
}

#[test]
fn each_menu_takes_its_answer() {
    let mut economy = Economy::new();
    economy.edit_species(strings(&["Humans", "Harpies"]));
    economy.edit_services(strings(&["Religion"]));
    economy.edit_fuel(strings(&["Coal", "Wood"]));
    economy.edit_crafting_resources(strings(&["Copper Ore", "Pottery"]));
    economy.edit_building_materials(strings(&["Bricks"]));
    economy.edit_consumable_items(strings(&["Training Gear"]));
    economy.edit_simple_food(strings(&["Berries"]));
    economy.edit_complex_food(strings(&["Pickled Goods"]));
    economy.edit_clothing(strings(&["Boots"]));
    assert_eq!(economy.species.get_selections(), vec![Species::Humans, Species::Harpies]);
    assert_eq!(
        economy.selected_facets(),
        strings(&[
            "Religion",
            "Coal",
            "Wood",
            "Pottery",
            "Copper Ore",
            "Bricks",
            "Training Gear",
            "Berries",
            "Pickled Goods",
            "Boots",
        ])
    );
}

#[test]
fn an_opened_menu_shows_the_selection_checked() {
    let mut economy = Economy::new();
    let shown = economy.menu_view(MenuKind::EditComplexFood);
    assert!(shown.is_empty);
    assert_eq!(shown.selected_indexes, Vec::<usize>::new());
    let answer = vec![shown.options[3].clone(), shown.options[0].clone()];
    assert_eq!(answer, strings(&["Pickled Goods", "Porridge"]));
    economy.switch_menus(MenuKind::EditComplexFood, answer);
    assert_eq!(
        economy.menu_view(MenuKind::EditComplexFood),
        MenuView {
            selected_indexes: vec![0, 3],
            options: strings(&[
                "Porridge",
                "Biscuits",
                "Pie",
                "Pickled Goods",
                "Jerky",
                "Paste",
                "Skewers",
            ]),
            is_empty: false,
        }
    );
    assert_eq!(economy.menu_view(MenuKind::EditFuel).selected_indexes, vec![3]);
    assert!(economy.menu_view(MenuKind::EditSpecies).is_empty);
    for kind in all_menus() {
        let view = economy.menu_view(kind);
        assert_eq!(view.is_empty, view.selected_indexes.is_empty());
    }
}

#[test]
fn the_report_of_a_new_economy_is_empty() {
    assert_eq!(Economy::new().report(), vec![]);
}

#[test]
fn the_report_marks_what_is_selected() {
    let mut economy = Economy::new();
    economy.species.select(vec![Species::Beavers, Species::Humans]);
    economy.edit_clothing(strings(&["Coats"]));
    economy.edit_crafting_resources(strings(&["Flour", "Resin", "Salt"]));
    let lines = economy.report();
    assert_eq!(
        lines,
        vec![
            ReportLine::Header { count: 2, total: 2 },
            ReportLine::Need { need: Need::Clothing(Clothing::Coats), token: chosen("Coats") },
            ReportLine::Slot { alternatives: vec![plain("Fabric"), plain("Leather")] },
            ReportLine::Slot { alternatives: vec![plain("Dye"), chosen("Resin")] },
            ReportLine::Need {
                need: Need::ComplexFood(ComplexFood::Biscuits),
                token: plain("Biscuits")
            },
            ReportLine::Slot { alternatives: vec![chosen("Flour")] },
            ReportLine::Nested {
                alternatives: vec![
                    plain("Grain"),
                    plain("Mushrooms"),
                    plain("Roots"),
                    plain("Algae")
                ]
            },
            ReportLine::Slot {
                alternatives: vec![
                    plain("Herbs"),
                    plain("Berries"),
                    plain("Roots"),
                    plain("Eggs"),
                    chosen("Salt")
                ]
            },
        ]
    );
}

#[test]
fn a_service_need_is_marked_by_the_service() {
    let mut economy = Economy::new();
    economy.edit_species(strings(&["Beavers", "Harpies"]));
    economy.edit_services(strings(&["Education"]));
    let lines = economy.report();
    assert!(lines.contains(&ReportLine::Header { count: 2, total: 2 }));
    assert!(lines.contains(&ReportLine::Need {
        need: for_the_queen_cli::education(),
        token: chosen("Education")
    }));
    assert!(lines.contains(&ReportLine::Slot { alternatives: vec![plain("Scrolls")] }));
    assert!(lines.contains(&ReportLine::Nested {
        alternatives: vec![plain("Leather"), plain("Plant Fiber"), chosen("Wood")]
    }));
}
