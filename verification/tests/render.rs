use for_the_queen_cli::render::rule;
use for_the_queen_cli::{
    aggregate, colored_page, decimal_string, plain_page, report, Clothing, Economy, Need,
    ReportLine, Species, Tint, Token,
};

fn strings(items: &[&str]) -> Vec<String> {
    items.iter().map(|item| item.to_string()).collect()
}

fn token(text: &str, selected: bool) -> Token {
    Token { text: text.to_string(), selected }
}

#[test]
fn numbers_are_written_in_decimal() {
    assert_eq!(decimal_string(0), "0");
    assert_eq!(decimal_string(7), "7");
    assert_eq!(decimal_string(9), "9");
    assert_eq!(decimal_string(10), "10");
    assert_eq!(decimal_string(105), "105");
    assert_eq!(decimal_string(1234567890), "1234567890");
    assert_eq!(decimal_string(usize::MAX), usize::MAX.to_string());
}

#[test]
fn the_rule_has_twenty_three_dashes() {
    assert_eq!(rule(), "-----------------------");
    assert_eq!(rule().len(), 23);
}

#[test]
fn selected_names_are_green() {
    assert_eq!(token("Wood", true).tint(), Tint::Green);
    assert_eq!(token("Oil", false).tint(), Tint::Red);
}

#[test]
fn a_header_takes_three_lines() {
    assert_eq!(
        ReportLine::Header { count: 2, total: 5 }.render(&[]),
        strings(&["-----------------------", "Needed by 2/5 species", "-----------------------"])
    );
    assert_eq!(
        ReportLine::Header { count: 12, total: 340 }.render(&strings(&["passed over"])),
        strings(&["-----------------------", "Needed by 12/340 species", "-----------------------"])
    );
}

#[test]
fn lines_are_set_in_and_their_names_joined() {
    let need =
        ReportLine::Need { need: Need::Clothing(Clothing::Coats), token: token("Coats", false) };
    assert_eq!(need.render(&strings(&["Coats"])), strings(&[" > Coats"]));
    let slot =
        ReportLine::Slot { alternatives: vec![token("Fabric", false), token("Leather", true)] };
    assert_eq!(slot.render(&strings(&["Fabric", "Leather"])), strings(&["  > Fabric or Leather"]));
    assert_eq!(slot.render(&strings(&["a", "b", "c"])), strings(&["  > a, b, or c"]));
    assert_eq!(slot.render(&[]), strings(&["  > None"]));
    let nested = ReportLine::Nested { alternatives: vec![token("Clearance Water", false)] };
    assert_eq!(
        nested.render(&strings(&["Clearance Water"])),
        strings(&["    > Clearance Water"])
    );
}

#[test]
fn an_empty_report_is_one_rule() {
    assert_eq!(plain_page(&vec![]), strings(&["-----------------------"]));
    assert_eq!(colored_page(&vec![]), strings(&["-----------------------"]));
    assert_eq!(Economy::new().print_needs(), strings(&["-----------------------"]));
}

#[test]
fn beavers_and_humans_on_a_plain_page() {
    let out = aggregate(&[Species::Beavers, Species::Humans]);
    let lines = report(&out.ranking, out.total, &strings(&["Wood"]));
    assert_eq!(
        plain_page(&lines),
        strings(&[
            "-----------------------",
            "Needed by 2/2 species",
            "-----------------------",
            " > Coats",
            "  > Fabric or Leather",
            "  > Dye or Resin",
            " > Biscuits",
            "  > Flour",
            "    > Grain, Mushrooms, Roots, or Algae",
            "  > Herbs, Berries, Roots, Eggs, or Salt",
            "-----------------------",
        ])
    );
}

#[test]
fn the_coloured_page_has_the_shape_of_the_plain_one() {
    let mut economy = Economy::new();
    economy.edit_species(strings(&["Harpies", "Lizards", "Foxes"]));
    economy.edit_clothing(strings(&["Boots"]));
    let lines = economy.report();
    let plain = plain_page(&lines);
    let coloured = economy.print_needs();
    assert_eq!(coloured, colored_page(&lines));
    assert_eq!(coloured.len(), plain.len());
    assert_eq!(plain[1], "Needed by 3/3 species");
    assert_eq!(plain[3], " > Boots");
    assert_eq!(plain[4], "  > Leather or Scales");
    assert_eq!(plain[6], "Needed by 2/3 species");
    for (coloured, plain) in coloured.iter().zip(plain.iter()) {
        if plain.starts_with('-') || plain.starts_with('N') {
            assert_eq!(coloured, plain);
        } else {
            let margin = plain.find('>').unwrap();
            assert_eq!(coloured[..margin + 2], plain[..margin + 2]);
            for name in plain[margin + 2..].split(", ") {
                let name = name.trim_start_matches("or ");
                for part in name.split(" or ") {
                    assert!(coloured.contains(part), "{:?} in {:?}", part, coloured);
                }
            }
        }
    }
}

#[test]
fn a_coloured_name_is_the_name_in_a_frame() {
    let lines = vec![
        ReportLine::Need { need: Need::Clothing(Clothing::Coats), token: token("Coats", true) },
        ReportLine::Slot { alternatives: vec![token("Fabric", false), token("Leather", true)] },
    ];
    let plain = plain_page(&lines);
    let coloured = colored_page(&lines);
    assert_eq!(plain, vec![" > Coats", "  > Fabric or Leather", "-----------------------"]);
    assert_eq!(coloured.len(), 3);
    assert_ne!(coloured[0], plain[0]);
    assert_ne!(coloured[1], plain[1]);
    assert_eq!(coloured[2], plain[2]);
    let framed = coloured[0].strip_prefix(" > ").unwrap();
    let at = framed.find("Coats").unwrap();
    assert!(at > 0 || framed.len() > "Coats".len());
    assert_eq!(&framed[at..at + 5], "Coats");
    let alternatives = coloured[1].strip_prefix("  > ").unwrap();
    let (first, second) = alternatives.split_once(" or ").unwrap();
    assert!(first.contains("Fabric") && first != "Fabric");
    assert!(second.contains("Leather") && second != "Leather");
}
