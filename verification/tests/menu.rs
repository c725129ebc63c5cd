use for_the_queen_cli::menu::contains_text;
use for_the_queen_cli::resource::{all_fuel, coal, oil, sea_marrow, wood};
use for_the_queen_cli::{
    all_menus, all_species, MenuKind, MenuView, MultiSelectMenu, Resource, SingleSelectMenu,
    Species,
};

fn strings(items: &[&str]) -> Vec<String> {
    items.iter().map(|item| item.to_string()).collect()
}

#[test]
fn a_new_menu_has_nothing_checked() {
    let menu = MultiSelectMenu::new("Select your species:", all_species());
    assert_eq!(menu.title(), "Select your species:");
    assert_eq!(menu.get_selections(), Vec::<Species>::new());
    assert_eq!(menu.get_selection_strings(), Vec::<String>::new());
    assert_eq!(
        menu.view(),
        MenuView {
            selected_indexes: vec![],
            options: strings(&["Beavers", "Humans", "Harpies", "Lizards", "Foxes"]),
            is_empty: true,
        }
    );
}

#[test]
fn an_empty_menu_shows_nothing() {
    let menu = MultiSelectMenu::new("", Vec::<Resource>::new());
    assert_eq!(menu.view(), MenuView { selected_indexes: vec![], options: vec![], is_empty: true });
    assert_eq!(menu.get_selections(), vec![]);
}

#[test]
fn select_checks_the_given_options() {
    let mut menu = MultiSelectMenu::new("Fuel", all_fuel());
    menu.select(vec![wood(), coal()]);
    assert_eq!(menu.get_selections(), vec![coal(), wood()]);
    assert_eq!(menu.get_selection_strings(), strings(&["Coal", "Wood"]));
    let view = menu.view();
    assert_eq!(view.selected_indexes, vec![1, 3]);
    assert_eq!(view.options, strings(&["Oil", "Coal", "Sea Marrow", "Wood"]));
    assert!(!view.is_empty);
}

#[test]
fn select_replaces_the_selection() {
    let mut menu = MultiSelectMenu::new("Fuel", all_fuel());
    menu.select(vec![wood(), coal()]);
    menu.select(vec![oil()]);
    assert_eq!(menu.get_selections(), vec![oil()]);
    assert_eq!(menu.view().selected_indexes, vec![0]);
    menu.select(vec![]);
    assert_eq!(menu.get_selections(), vec![]);
    assert!(menu.view().is_empty);
}

#[test]
fn select_passes_over_what_the_menu_does_not_offer() {
    let mut menu = MultiSelectMenu::new("Some fuel", vec![oil(), coal()]);
    menu.select(vec![wood(), coal(), coal()]);
    assert_eq!(menu.get_selections(), vec![coal()]);
    assert_eq!(menu.view().selected_indexes, vec![1]);
}

#[test]
fn stringly_select_goes_by_display_name() {
    let mut menu = MultiSelectMenu::new("Fuel", all_fuel());
    menu.stringly_select(strings(&["Sea Marrow", "Oil"]));
    assert_eq!(menu.get_selections(), vec![oil(), sea_marrow()]);
    assert_eq!(menu.view().selected_indexes, vec![0, 2]);
    assert!(!menu.view().is_empty);
}

#[test]
fn stringly_select_fails_closed() {
    let mut menu = MultiSelectMenu::new("Fuel", all_fuel());
    menu.select(vec![wood()]);
    menu.stringly_select(strings(&["SeaMarrow", "sea marrow", "Peat", ""]));
    assert_eq!(menu.get_selections(), vec![]);
    assert!(menu.view().is_empty);
    menu.stringly_select(strings(&["Peat", "Coal"]));
    assert_eq!(menu.get_selections(), vec![coal()]);
}

#[test]
fn a_selection_is_shown_checked_when_the_menu_opens_again() {
    let mut menu = MultiSelectMenu::new("Select your species:", all_species());
    let shown = menu.view();
    let answer = vec![shown.options[1].clone(), shown.options[4].clone()];
    menu.stringly_select(answer);
    let again = menu.view();
    assert_eq!(again.options, shown.options);
    assert_eq!(again.selected_indexes, vec![1, 4]);
    assert!(!again.is_empty);
    assert_eq!(menu.get_selections(), vec![Species::Humans, Species::Foxes]);
}

#[test]
fn a_menu_checks_every_copy_of_a_selected_option() {
    let mut menu = MultiSelectMenu::new("Twice", vec![oil(), coal(), oil()]);
    menu.select(vec![oil()]);
    assert_eq!(menu.view().selected_indexes, vec![0, 2]);
    assert_eq!(menu.get_selections(), vec![oil(), oil()]);
}

#[test]
fn contains_text_compares_whole_strings() {
    let list = strings(&["Wood", "Sea Marrow"]);
    assert!(contains_text(&list, &"Wood".to_string()));
    assert!(contains_text(&list, &"Sea Marrow".to_string()));
    assert!(!contains_text(&list, &"Sea".to_string()));
    assert!(!contains_text(&list, &"wood".to_string()));
    assert!(!contains_text(&vec![], &"Wood".to_string()));
}

#[test]
fn the_switcher_lists_the_menus() {
    let switcher = SingleSelectMenu::new("What would you like to do?\n", all_menus());
    assert_eq!(switcher.title(), "What would you like to do?\n");
    assert_eq!(
        switcher.labels(),
        strings(&[
            "Edit Simple Food",
            "Edit Building Materials",
            "Edit Fuel",
            "Edit Crafting Resources",
            "Edit Complex Food",
            "Edit Clothing",
            "Edit Consumable Items",
            "Edit Services",
            "Edit Species",
        ])
    );
}

#[test]
fn the_switcher_finds_a_menu_by_its_display_name() {
    let switcher = SingleSelectMenu::new("What would you like to do?\n", all_menus());
    assert_eq!(switcher.pick(&"Edit Fuel".to_string()), Some(MenuKind::EditFuel));
    assert_eq!(switcher.pick(&"Edit Species".to_string()), Some(MenuKind::EditSpecies));
    assert_eq!(switcher.pick(&"EditFuel".to_string()), None);
    assert_eq!(switcher.pick(&"".to_string()), None);
}

#[test]
fn pick_takes_the_first_of_equal_names() {
    let menu = SingleSelectMenu::new("Twice", vec![coal(), oil(), coal()]);
    assert_eq!(menu.pick(&"Coal".to_string()), Some(coal()));
    assert_eq!(menu.labels(), strings(&["Coal", "Oil", "Coal"]));
    let none = SingleSelectMenu::new("None", Vec::<Resource>::new());
    assert_eq!(none.pick(&"Coal".to_string()), None);
    assert_eq!(none.labels(), Vec::<String>::new());
}

#[test]
fn menus_in_switcher_order() {
    assert_eq!(
        all_menus(),
        vec![
            MenuKind::EditSimpleFood,
            MenuKind::EditBuildingMaterials,
            MenuKind::EditFuel,
            MenuKind::EditCraftingResources,
            MenuKind::EditComplexFood,
            MenuKind::EditClothing,
            MenuKind::EditConsumableItems,
            MenuKind::EditServices,
            MenuKind::EditSpecies,
        ]
    );
}

#[test]
fn menu_kinds_have_names_and_headings() {
    assert_eq!(MenuKind::EditCraftingResources.name(), "EditCraftingResources");
    assert_eq!(MenuKind::EditCraftingResources.to_string(), "Edit Crafting Resources");
    assert_eq!(MenuKind::EditSpecies.title(), "Select your species:");
    assert_eq!(MenuKind::EditServices.title(), "Select services you can provide:");
    assert_eq!(MenuKind::EditFuel.title(), "Select the you can produce:");
    assert_eq!(
        MenuKind::EditCraftingResources.title(),
        "Select the crafting resources you can produce:"
    );
    assert_eq!(
        MenuKind::EditBuildingMaterials.title(),
        "Select the building materials you can produce:"
    );
    assert_eq!(
        MenuKind::EditConsumableItems.title(),
        "Select the consumable items you can produce:"
    );
    assert_eq!(MenuKind::EditSimpleFood.title(), "Select the simple food you can produce:");
    assert_eq!(MenuKind::EditComplexFood.title(), "Select the complex food you can produce:");
    assert_eq!(MenuKind::EditClothing.title(), "Select the clothing you can produce:");
}
