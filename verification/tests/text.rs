use for_the_queen_cli::{join, pascalize, pluralize, titleize};

fn strings(items: &[&str]) -> Vec<String> {
    items.iter().map(|item| item.to_string()).collect()
}

#[test]
fn pluralize_nothing_reads_none() {
    assert_eq!(pluralize(&[], "or"), "None");
}

#[test]
fn pluralize_one_item_is_the_item() {
    assert_eq!(pluralize(&strings(&["a"]), "or"), "a");
}

#[test]
fn pluralize_two_items_takes_no_comma() {
    assert_eq!(pluralize(&strings(&["a", "b"]), "or"), "a or b");
}

#[test]
fn pluralize_three_items_takes_commas() {
    assert_eq!(pluralize(&strings(&["a", "b", "c"]), "or"), "a, b, or c");
}

#[test]
fn pluralize_fuels() {
    assert_eq!(pluralize(&strings(&["Wood", "Oil", "Coal"]), "or"), "Wood, Oil, or Coal");
    assert_ne!(pluralize(&strings(&["Wood", "Oil", "Coal"]), "or"), "Wood, or Coal");
}

#[test]
fn pluralize_four_items_with_another_word() {
    assert_eq!(
        pluralize(&strings(&["Beavers", "Humans", "Harpies", "Foxes"]), "and"),
        "Beavers, Humans, Harpies, and Foxes"
    );
}

#[test]
fn pluralize_keeps_empty_items() {
    assert_eq!(pluralize(&strings(&["", ""]), "or"), " or ");
    assert_eq!(pluralize(&strings(&["", "", ""]), ""), ", ,  ");
}

#[test]
fn join_puts_the_separator_between_neighbours() {
    assert_eq!(join(&[], ", "), "");
    assert_eq!(join(&strings(&["a"]), ", "), "a");
    assert_eq!(join(&strings(&["a", "b", "c"]), ", "), "a, b, c");
    assert_eq!(join(&strings(&["a", "", "c"]), "-"), "a--c");
}

#[test]
fn titleize_splits_words() {
    assert_eq!(titleize("PickledGoods"), "Pickled Goods");
    assert_eq!(titleize("SeaMarrow"), "Sea Marrow");
    assert_eq!(titleize("Oil"), "Oil");
    assert_eq!(titleize("EditCraftingResources"), "Edit Crafting Resources");
}

#[test]
fn titleize_changes_what_it_is_given() {
    assert_ne!(titleize("CopperOre"), "CopperOre");
    assert_eq!(titleize("CopperOre"), "Copper Ore");
}

#[test]
fn pascalize_joins_words() {
    assert_eq!(pascalize("pickled goods"), "PickledGoods");
    assert_eq!(pascalize("beavers"), "Beavers");
    assert_eq!(pascalize("Sea Marrow"), "SeaMarrow");
}

#[test]
fn pascalize_changes_what_it_is_given() {
    assert_ne!(pascalize("training gear"), "training gear");
    assert_eq!(pascalize("training gear"), "TrainingGear");
}
