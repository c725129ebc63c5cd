use for_the_queen_cli::resource::{
    ale, algae, all_building_materials, all_clothing, all_complex_food, all_consumable_items,
    all_crafting_resources, all_fuel, all_goods, all_simple_food, barrels, berries, biscuits,
    boots, bricks, clay, clearance_water, coal, coats, copper_bars, copper_ore, crystallized_dew,
    drizzle_water, dye, eggs, fabric, fish, flour, grain, herbs, incense, insects, jerky, leather,
    meat, mushrooms, oil, paste, pickled_goods, pie, planks, plant_fiber, porridge, pottery, reed,
    resin, roots, salt, scales, scrolls, sea_marrow, skewers, stone, storm_water, tea,
    training_gear, vegetables, waterskins, wine, wood,
};
use for_the_queen_cli::{
    all_needs, all_services, all_species, brawling, education, leisure, luxury, religion,
    treatment, BuildingMaterial, CatalogError, Clothing, ComplexFood, ConsumableItem,
    CraftingResource, Facet, Fuel, Need, Recipe, Resource, Service, SimpleFood, Species,
    NEED_COUNT,
};

#[test]
fn pottery_takes_clay_and_a_fuel() {
    assert_eq!(pottery().recipe(), vec![vec![clay()], vec![wood(), oil(), coal(), sea_marrow()]]);
}

#[test]
fn clay_takes_clearance_water() {
    assert_eq!(clay().recipe(), vec![vec![clearance_water()]]);
    assert_eq!(reed().recipe(), vec![vec![clearance_water()]]);
    assert_eq!(resin().recipe(), vec![vec![clearance_water()]]);
}

#[test]
fn raw_goods_have_empty_recipes() {
    let raw = vec![
        sea_marrow(),
        wood(),
        drizzle_water(),
        storm_water(),
        clearance_water(),
        algae(),
        plant_fiber(),
        scales(),
        grain(),
        stone(),
        salt(),
        copper_ore(),
        roots(),
        vegetables(),
        fish(),
        insects(),
        berries(),
    ];
    for good in raw {
        assert_eq!(good.recipe(), Vec::<Vec<Resource>>::new(), "{:?}", good);
    }
}

#[test]
fn fuel_recipes() {
    assert_eq!(oil().recipe(), vec![vec![grain(), meat(), vegetables(), plant_fiber(), fish()]]);
    assert_eq!(coal().recipe(), vec![vec![wood(), algae()]]);
    assert_eq!(Fuel::Coal.recipe(), vec![vec![wood(), algae()]]);
}

#[test]
fn crafting_resource_recipes() {
    assert_eq!(
        waterskins().recipe(),
        vec![vec![leather(), scales()], vec![oil(), meat(), salt()]]
    );
    assert_eq!(barrels().recipe(), vec![vec![copper_bars(), crystallized_dew()], vec![planks()]]);
    assert_eq!(leather().recipe(), vec![vec![algae(), reed(), grain(), vegetables()]]);
    assert_eq!(herbs().recipe(), vec![vec![drizzle_water()]]);
    assert_eq!(flour().recipe(), vec![vec![grain(), mushrooms(), roots(), algae()]]);
    assert_eq!(
        dye().recipe(),
        vec![vec![insects(), berries(), copper_ore(), scales(), coal()]]
    );
    assert_eq!(
        copper_bars().recipe(),
        vec![vec![copper_ore(), scales()], vec![wood(), oil(), coal(), sea_marrow()]]
    );
    assert_eq!(
        crystallized_dew().recipe(),
        vec![
            vec![herbs(), insects(), resin(), vegetables(), algae()],
            vec![stone(), clay(), salt()],
            vec![storm_water(), drizzle_water(), clearance_water()],
        ]
    );
    assert_eq!(
        CraftingResource::Pottery.recipe(),
        vec![vec![clay()], vec![wood(), oil(), coal(), sea_marrow()]]
    );
}

#[test]
fn building_material_recipes() {
    assert_eq!(planks().recipe(), vec![vec![wood()]]);
    assert_eq!(fabric().recipe(), vec![vec![plant_fiber(), reed(), algae()]]);
    assert_eq!(bricks().recipe(), vec![vec![clay(), stone()]]);
    assert_eq!(BuildingMaterial::Bricks.recipe(), vec![vec![clay(), stone()]]);
}

#[test]
fn consumable_item_recipes() {
    assert_eq!(
        scrolls().recipe(),
        vec![vec![leather(), plant_fiber(), wood()], vec![dye(), wine()]]
    );
    assert_eq!(
        incense().recipe(),
        vec![
            vec![herbs(), roots(), insects(), scales(), salt(), resin()],
            vec![wood(), oil(), coal(), sea_marrow()],
        ]
    );
    assert_eq!(
        training_gear().recipe(),
        vec![vec![stone(), copper_bars(), crystallized_dew()], vec![planks(), reed(), leather()]]
    );
    assert_eq!(
        wine().recipe(),
        vec![vec![berries(), mushrooms(), reed()], vec![pottery(), barrels(), waterskins()]]
    );
    assert_eq!(
        ale().recipe(),
        vec![vec![grain(), roots()], vec![pottery(), barrels(), waterskins()]]
    );
    assert_eq!(
        tea().recipe(),
        vec![
            vec![herbs(), dye(), resin(), mushrooms(), roots()],
            vec![pottery(), barrels(), waterskins()],
        ]
    );
    assert_eq!(ConsumableItem::Ale.recipe(), ale().recipe());
}

#[test]
fn simple_food_recipes() {
    assert_eq!(mushrooms().recipe(), vec![vec![drizzle_water()]]);
    assert_eq!(
        meat().recipe(),
        vec![vec![plant_fiber(), reed(), algae(), grain(), vegetables()]]
    );
    assert_eq!(eggs().recipe(), vec![vec![grain(), insects(), reed(), berries()]]);
    assert_eq!(SimpleFood::Eggs.recipe(), eggs().recipe());
}

#[test]
fn clothing_recipes() {
    assert_eq!(coats().recipe(), vec![vec![fabric(), leather()], vec![dye(), resin()]]);
    assert_eq!(boots().recipe(), vec![vec![leather(), scales()]]);
    assert_eq!(Clothing::Boots.recipe(), vec![vec![leather(), scales()]]);
}

#[test]
fn complex_food_recipes() {
    assert_eq!(
        porridge().recipe(),
        vec![
            vec![grain(), vegetables(), mushrooms(), herbs(), fish()],
            vec![clearance_water(), storm_water(), drizzle_water()],
        ]
    );
    assert_eq!(
        biscuits().recipe(),
        vec![vec![flour()], vec![herbs(), berries(), roots(), eggs(), salt()]]
    );
    assert_eq!(
        pie().recipe(),
        vec![vec![flour()], vec![herbs(), meat(), insects(), berries(), fish()]]
    );
    assert_eq!(
        pickled_goods().recipe(),
        vec![
            vec![vegetables(), mushrooms(), roots(), berries(), eggs()],
            vec![pottery(), barrels(), waterskins()],
        ]
    );
    assert_eq!(
        jerky().recipe(),
        vec![vec![insects(), meat()], vec![salt(), wood(), sea_marrow(), coal(), oil()]]
    );
    assert_eq!(paste().recipe(), vec![vec![dye(), salt()], vec![eggs(), fish(), meat()]]);
    assert_eq!(
        skewers().recipe(),
        vec![
            vec![insects(), meat(), mushrooms(), fish(), jerky()],
            vec![vegetables(), roots(), berries(), eggs()],
        ]
    );
    assert_eq!(ComplexFood::Paste.recipe(), paste().recipe());
}

#[test]
fn constructors_name_their_resource() {
    assert_eq!(oil(), Resource::Fuel(Fuel::Oil));
    assert_eq!(stone(), Resource::CraftingResource(CraftingResource::Stones));
    assert_eq!(planks(), Resource::BuildingMaterial(BuildingMaterial::Planks));
    assert_eq!(training_gear(), Resource::ConsumableItem(ConsumableItem::TrainingGear));
    assert_eq!(eggs(), Resource::SimpleFood(SimpleFood::Eggs));
    assert_eq!(pickled_goods(), Resource::ComplexFood(ComplexFood::PickledGoods));
    assert_eq!(coats(), Resource::Clothing(Clothing::Coats));
}

#[test]
fn categories_list_their_members_in_order() {
    assert_eq!(all_fuel(), vec![oil(), coal(), sea_marrow(), wood()]);
    assert_eq!(all_building_materials(), vec![planks(), fabric(), bricks()]);
    assert_eq!(all_clothing(), vec![coats(), boots()]);
    assert_eq!(
        all_consumable_items(),
        vec![scrolls(), incense(), training_gear(), wine(), ale(), tea()]
    );
    assert_eq!(
        all_simple_food(),
        vec![mushrooms(), roots(), vegetables(), fish(), meat(), eggs(), insects(), berries()]
    );
    assert_eq!(
        all_complex_food(),
        vec![porridge(), biscuits(), pie(), pickled_goods(), jerky(), paste(), skewers()]
    );
    assert_eq!(
        all_crafting_resources(),
        vec![
            pottery(),
            waterskins(),
            barrels(),
            drizzle_water(),
            storm_water(),
            clearance_water(),
            resin(),
            leather(),
            algae(),
            plant_fiber(),
            scales(),
            reed(),
            herbs(),
            flour(),
            grain(),
            dye(),
            copper_bars(),
            crystallized_dew(),
            stone(),
            clay(),
            salt(),
            copper_ore(),
        ]
    );
}

#[test]
fn all_goods_goes_category_by_category() {
    let mut expected = all_fuel();
    expected.extend(all_crafting_resources());
    expected.extend(all_building_materials());
    expected.extend(all_clothing());
    expected.extend(all_simple_food());
    expected.extend(all_complex_food());
    expected.extend(all_consumable_items());
    assert_eq!(all_goods(), expected);
    assert_eq!(all_goods().len(), 52);
    assert_eq!(all_goods()[0], oil());
    assert_eq!(all_goods()[51], tea());
}

#[test]
fn no_good_is_listed_twice() {
    let goods = all_goods();
    for (i, a) in goods.iter().enumerate() {
        for b in goods.iter().skip(i + 1) {
            assert_ne!(a, b);
        }
    }
}

#[test]
fn display_names_are_title_case() {
    assert_eq!(pickled_goods().to_string(), "Pickled Goods");
    assert_eq!(sea_marrow().to_string(), "Sea Marrow");
    assert_eq!(stone().to_string(), "Stones");
    assert_eq!(crystallized_dew().to_string(), "Crystallized Dew");
    assert_eq!(training_gear().to_string(), "Training Gear");
    assert_eq!(ComplexFood::PickledGoods.to_string(), "Pickled Goods");
    assert_eq!(Fuel::SeaMarrow.to_string(), "Sea Marrow");
    assert_eq!(CraftingResource::CopperOre.to_string(), "Copper Ore");
    assert_eq!(BuildingMaterial::Planks.to_string(), "Planks");
    assert_eq!(ConsumableItem::TrainingGear.to_string(), "Training Gear");
    assert_eq!(SimpleFood::Mushrooms.to_string(), "Mushrooms");
    assert_eq!(Clothing::Coats.to_string(), "Coats");
    assert_eq!(Need::ComplexFood(ComplexFood::PickledGoods).to_string(), "Pickled Goods");
    assert_eq!(education().to_string(), "Education");
    assert_eq!(Service::Brawling.to_string(), "Brawling");
    assert_eq!(Species::Beavers.to_string(), "Beavers");
}

#[test]
fn symbolic_names_are_the_variant_names() {
    assert_eq!(pickled_goods().name(), "PickledGoods");
    assert_eq!(stone().name(), "Stones");
    assert_eq!(Need::Clothing(Clothing::Boots).name(), "Boots");
    assert_eq!(Service::Treatment.name(), "Treatment");
    assert_eq!(Species::Foxes.name(), "Foxes");
    for good in all_goods() {
        let printed = format!("{:?}", good);
        assert_eq!(good.name(), printed.split('(').nth(1).unwrap().trim_end_matches(')'));
    }
    for need in all_needs() {
        let printed = format!("{:?}", need);
        assert_eq!(need.name(), printed.split('(').nth(1).unwrap().trim_end_matches(')'));
    }
    for service in all_services() {
        assert_eq!(service.name(), format!("{:?}", service));
    }
    for species in all_species() {
        assert_eq!(species.name(), format!("{:?}", species));
    }
    for menu in for_the_queen_cli::all_menus() {
        assert_eq!(menu.name(), format!("{:?}", menu));
    }
}

#[test]
fn every_display_name_is_the_title_case_of_the_symbolic_name() {
    for good in all_goods() {
        assert_eq!(good.to_string(), for_the_queen_cli::titleize(good.name()));
    }
    for need in all_needs() {
        assert_eq!(need.to_string(), for_the_queen_cli::titleize(need.name()));
    }
    for species in all_species() {
        assert_eq!(species.to_string(), for_the_queen_cli::titleize(species.name()));
        assert_eq!(Species::try_from(&species.to_string()), Ok(species));
    }
}

#[test]
fn display_names_tell_the_goods_apart() {
    let names: Vec<String> = all_goods().iter().map(|good| good.to_string()).collect();
    for (i, a) in names.iter().enumerate() {
        for b in names.iter().skip(i + 1) {
            assert_ne!(a, b);
        }
    }
}

#[test]
fn facet_labels_are_the_display_names() {
    assert_eq!(pickled_goods().to_label(), "Pickled Goods");
    assert_eq!(Species::Harpies.to_label(), "Harpies");
    assert_eq!(Service::Luxury.to_label(), "Luxury");
    assert_eq!(leisure().to_label(), "Leisure");
    assert!(oil().same(&oil()));
    assert!(!oil().same(&coal()));
    assert!(Species::Humans.same(&Species::Humans));
    assert!(!Species::Humans.same(&Species::Foxes));
    assert!(!Service::Luxury.same(&Service::Leisure));
    assert!(luxury().same(&luxury()));
    assert!(!luxury().same(&leisure()));
}

#[test]
fn services_take_one_consumable_item() {
    assert_eq!(Service::Education.recipe(), vec![vec![scrolls()]]);
    assert_eq!(Service::Religion.recipe(), vec![vec![incense()]]);
    assert_eq!(Service::Treatment.recipe(), vec![vec![tea()]]);
    assert_eq!(Service::Luxury.recipe(), vec![vec![wine()]]);
    assert_eq!(Service::Leisure.recipe(), vec![vec![ale()]]);
    assert_eq!(Service::Brawling.recipe(), vec![vec![training_gear()]]);
}

#[test]
fn needs_resolve_like_what_they_name() {
    assert_eq!(Need::Clothing(Clothing::Coats).recipe(), coats().recipe());
    assert_eq!(Need::ComplexFood(ComplexFood::Jerky).recipe(), jerky().recipe());
    assert_eq!(Need::BuildingMaterial(BuildingMaterial::Fabric).recipe(), fabric().recipe());
    assert_eq!(brawling().recipe(), vec![vec![training_gear()]]);
    assert_eq!(religion().recipe(), vec![vec![incense()]]);
}

#[test]
fn service_needs_name_their_service() {
    assert_eq!(education(), Need::Service(Service::Education));
    assert_eq!(religion(), Need::Service(Service::Religion));
    assert_eq!(treatment(), Need::Service(Service::Treatment));
    assert_eq!(luxury(), Need::Service(Service::Luxury));
    assert_eq!(leisure(), Need::Service(Service::Leisure));
    assert_eq!(brawling(), Need::Service(Service::Brawling));
}

#[test]
fn services_in_catalog_order() {
    assert_eq!(
        all_services(),
        vec![
            Service::Education,
            Service::Religion,
            Service::Treatment,
            Service::Luxury,
            Service::Leisure,
            Service::Brawling,
        ]
    );
}

#[test]
fn rank_is_the_position_in_ascending_order() {
    let needs = all_needs();
    assert_eq!(needs.len(), NEED_COUNT);
    for (i, need) in needs.iter().enumerate() {
        assert_eq!(need.rank(), i);
    }
    for a in &needs {
        for b in &needs {
            assert_eq!(a < b, a.rank() < b.rank(), "{:?} {:?}", a, b);
            assert_eq!(a == b, a.rank() == b.rank());
        }
    }
    assert_eq!(Need::Clothing(Clothing::Coats).rank(), 0);
    assert_eq!(Need::ComplexFood(ComplexFood::Skewers).rank(), 8);
    assert_eq!(education().rank(), 9);
    assert_eq!(Need::BuildingMaterial(BuildingMaterial::Bricks).rank(), 17);
}

#[test]
fn resources_are_ordered_by_category_first() {
    assert!(wood() < pottery());
    assert!(copper_ore() < planks());
    assert!(bricks() < scrolls());
    assert!(tea() < mushrooms());
    assert!(berries() < porridge());
    assert!(skewers() < coats());
    assert!(oil() < coal());
    assert!(coats() < boots());
}

#[test]
fn species_in_menu_order() {
    assert_eq!(
        all_species(),
        vec![
            Species::Beavers,
            Species::Humans,
            Species::Harpies,
            Species::Lizards,
            Species::Foxes,
        ]
    );
}

#[test]
fn species_needs() {
    assert_eq!(
        Species::Beavers.needs(),
        vec![
            Need::ComplexFood(ComplexFood::Biscuits),
            Need::ComplexFood(ComplexFood::PickledGoods),
            education(),
            luxury(),
            Need::Clothing(Clothing::Coats),
        ]
    );
    assert_eq!(
        Species::Harpies.needs(),
        vec![
            Need::ComplexFood(ComplexFood::Jerky),
            Need::ComplexFood(ComplexFood::Paste),
            education(),
            treatment(),
            Need::Clothing(Clothing::Coats),
            Need::Clothing(Clothing::Boots),
        ]
    );
    assert_eq!(
        Species::Humans.needs(),
        vec![
            Need::ComplexFood(ComplexFood::Porridge),
            Need::ComplexFood(ComplexFood::Biscuits),
            Need::ComplexFood(ComplexFood::Pie),
            religion(),
            leisure(),
            Need::Clothing(Clothing::Coats),
        ]
    );
    assert_eq!(
        Species::Lizards.needs(),
        vec![
            Need::ComplexFood(ComplexFood::Pie),
            Need::ComplexFood(ComplexFood::PickledGoods),
            Need::ComplexFood(ComplexFood::Jerky),
            Need::ComplexFood(ComplexFood::Skewers),
            brawling(),
            Need::Clothing(Clothing::Boots),
        ]
    );
    assert_eq!(
        Species::Foxes.needs(),
        vec![
            Need::ComplexFood(ComplexFood::Porridge),
            Need::ComplexFood(ComplexFood::Skewers),
            Need::ComplexFood(ComplexFood::PickledGoods),
            Need::Clothing(Clothing::Boots),
            religion(),
            treatment(),
        ]
    );
}

#[test]
fn no_species_lists_a_need_twice() {
    for species in all_species() {
        let needs = species.needs();
        for (i, a) in needs.iter().enumerate() {
            for b in needs.iter().skip(i + 1) {
                assert_ne!(a, b);
            }
        }
    }
}

#[test]
fn species_are_found_in_any_letter_case() {
    assert_eq!(Species::try_from(&"Beavers".to_string()), Ok(Species::Beavers));
    assert_eq!(Species::try_from(&"beavers".to_string()), Ok(Species::Beavers));
    assert_eq!(Species::try_from(&"humans".to_string()), Ok(Species::Humans));
    assert_eq!(Species::try_from(&"HARPIES".to_string()), Ok(Species::Harpies));
    assert_eq!(Species::try_from(&"lizards".to_string()), Ok(Species::Lizards));
    assert_eq!(Species::try_from(&"foxes".to_string()), Ok(Species::Foxes));
}

#[test]
fn unknown_species_are_handed_back() {
    let found = Species::try_from(&"frogs".to_string());
    assert_eq!(found, Err(CatalogError::InvalidCategoryValue("frogs".to_string())));
    assert_eq!(found.unwrap_err().to_string(), "frogs is not a valid species");
    assert!(Species::try_from(&"".to_string()).is_err());
    assert!(Species::try_from(&"Beaver".to_string()).is_err());
}
