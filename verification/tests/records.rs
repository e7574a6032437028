use csv::StringRecord;
use kaffe::bag::{self, Bag, BagSoul};
use kaffe::brew::{self, Brew, BrewDefect, BrewSoul, Masses};
use kaffe::equipment::{self, CsvDefect, Equipment, EquipmentKind, EquipmentSoul};
use kaffe::error::BuildError;
use kaffe::import::{table_for, Table};
use kaffe::record;
use kaffe::stamp::{parse_day, Stamp};

fn rec(fields: &[&str]) -> StringRecord {
    StringRecord::from(fields.to_vec())
}

#[test]
fn column_takes_the_last_of_equal_names() {
    let headers = rec(&["a", "b", "a"]);
    assert_eq!(record::column(&headers, "a"), Some(2));
    assert_eq!(record::column(&headers, "b"), Some(1));
    assert_eq!(record::column(&headers, "c"), None);
}

#[test]
fn cell_reads_under_the_named_column() {
    let headers = rec(&["name", "kind", "extra"]);
    let record = rec(&["V60", "brewer"]);
    assert_eq!(record::cell(&record, &headers, "kind"), Some("brewer".to_string()));
    assert_eq!(record::cell(&record, &headers, "extra"), None);
    assert_eq!(record::cell(&record, &headers, "price"), None);
}

#[test]
fn equipment_kind_reads_in_any_case() {
    assert_eq!(EquipmentKind::from_str("grinder"), Ok(EquipmentKind::Grinder));
    assert_eq!(EquipmentKind::from_str("GRINDER"), Ok(EquipmentKind::Grinder));
    assert_eq!(EquipmentKind::from_str("Brewer"), Ok(EquipmentKind::Brewer));
    assert_eq!(EquipmentKind::from_str("spoon"), Err(()));
    assert_eq!(EquipmentKind::from_lowercase("Brewer"), Err(()));
    assert_eq!(EquipmentKind::from_lowercase("brewer"), Ok(EquipmentKind::Brewer));
}

#[test]
fn equipment_kind_names() {
    assert_eq!(EquipmentKind::Brewer.to_string(), "Brewer");
    assert_eq!(EquipmentKind::Grinder.to_string(), "Grinder");
    assert_eq!(EquipmentKind::Grinder.label(), "grinder");
    for k in [EquipmentKind::Brewer, EquipmentKind::Grinder] {
        assert_eq!(EquipmentKind::from_str(&k.to_string()), Ok(k));
        assert_eq!(EquipmentKind::from_lowercase(&k.label()), Ok(k));
    }
    assert_eq!(EquipmentKind::default(), EquipmentKind::Brewer);
}

#[test]
fn equipment_new_is_blank() {
    let e = equipment::new();
    assert_eq!(e.name, "");
    assert_eq!(e.kind, EquipmentKind::Brewer);
    assert_eq!(e.price_ct, 0);
    assert_eq!(e.purchase_date, Stamp::epoch());
    assert_eq!(e.decommission_date, None);
    assert_eq!(e.timestamp, Stamp::epoch());
}

#[test]
fn equipment_to_sql_is_exact() {
    let e = Equipment {
        name: "V60".to_string(),
        kind: EquipmentKind::Grinder,
        price_ct: 2599,
        purchase_date: parse_day("2024-01-02").unwrap(),
        decommission_date: None,
        timestamp: Stamp::epoch(),
    };
    assert_eq!(
        e.to_sql(),
        "INSERT INTO equipment (name, kind, purchase_date, decommission_date, price_ct, timestamp) \n                VALUES ('V60', 'grinder', '2024-01-02T00:00:00Z', '', '2599', '1970-01-01T00:00:00Z')"
    );
}

fn equipment_soul(kind: &str, bought: &str, retired: &str, price: &str) -> EquipmentSoul {
    EquipmentSoul {
        name: "Comandante".to_string(),
        kind: kind.to_string(),
        purchase_date: bought.to_string(),
        decommission_date: retired.to_string(),
        price_ct: price.to_string(),
    }
}

#[test]
fn equipment_build_reads_fields() {
    let e = equipment::build(equipment_soul("Grinder", "2023-05-06", "2024-01-02", "+25000")).unwrap();
    assert_eq!(e.name, "Comandante");
    assert_eq!(e.kind, EquipmentKind::Grinder);
    assert_eq!(e.price_ct, 25000);
    assert_eq!(e.purchase_date, parse_day("2023-05-06").unwrap());
    assert_eq!(e.decommission_date, parse_day("2024-01-02"));
    let e = equipment::build(equipment_soul("brewer", "2023-05-06", "", "0")).unwrap();
    assert_eq!(e.decommission_date, None);
}

#[test]
fn equipment_build_reports_the_first_bad_field() {
    match equipment::build(equipment_soul("brewer", "May", "never", "x")) {
        Err(BuildError::Timestamp(t)) => assert_eq!(t, "MayT00:00:00Z"),
        other => panic!("{:?}", other),
    }
    match equipment::build(equipment_soul("brewer", "2023-05-06", "never", "x")) {
        Err(BuildError::Timestamp(t)) => assert_eq!(t, "neverT00:00:00Z"),
        other => panic!("{:?}", other),
    }
    match equipment::build(equipment_soul("brewer", "2023-05-06", "", "-3")) {
        Err(BuildError::Number(t)) => assert_eq!(t, "-3"),
        other => panic!("{:?}", other),
    }
}

#[test]
fn equipment_build_checked_refuses_unknown_kinds() {
    assert!(equipment::build_checked(equipment_soul("spoon", "2023-05-06", "", "1")).is_none());
    assert!(equipment::build_checked(equipment_soul("BREWER", "2023-05-06", "", "1")).is_some());
}

#[test]
fn equipment_build_csv_reads_named_columns() {
    let headers = rec(&["price_ct", "name", "kind", "purchase_date", "decomission_date"]);
    let record = rec(&["1500", "Aeropress", "brewer", "2022-02-03", ""]);
    let e = equipment::build_csv(&record, &headers).unwrap();
    assert_eq!(e.name, "Aeropress");
    assert_eq!(e.price_ct, 1500);
    assert!(matches!(equipment::build_csv_checked(&rec(&["x"]), &headers), Err(CsvDefect::MissingCell)));
    let bad = rec(&["1500", "Aeropress", "kettle", "2022-02-03", ""]);
    assert!(matches!(equipment::build_csv_checked(&bad, &headers), Err(CsvDefect::Kind)));
    assert!(matches!(equipment::build_csv_checked(&record, &headers), Ok(Ok(_))));
}

#[test]
fn bag_to_sql_is_exact() {
    let b = Bag {
        coffee_id: 3,
        roast_date: parse_day("2024-03-01").unwrap(),
        open_date: parse_day("2024-03-05"),
        empty_date: None,
        weight_g: 250,
        price_ct: 1899,
        timestamp: Stamp::epoch(),
    };
    assert_eq!(
        b.to_sql(),
        "INSERT INTO bag (coffee_id, roast_date, open_date, empty_date, weight_g, price_ct, timestamp) \n            VALUES ('3', '2024-03-01T00:00:00Z', '2024-03-05T00:00:00Z', '', '250', '1899', '1970-01-01T00:00:00Z')"
    );
}

fn bag_soul(roast: &str, opened: &str, weight: &str, price: &str) -> BagSoul {
    BagSoul {
        coffee_id: "3".to_string(),
        roast_date: roast.to_string(),
        open_date: opened.to_string(),
        empty_date: String::new(),
        weight_g: weight.to_string(),
        price_ct: price.to_string(),
    }
}

#[test]
fn bag_build_reads_fields() {
    let soul = bag_soul("2024-03-01", "2024-03-05", "250", "1899");
    let lookup = bag::coffee_lookup(&soul);
    assert_eq!(lookup.sql, "SELECT id FROM coffee WHERE id = ?1");
    assert_eq!(lookup.key, "3");
    let b = bag::build(soul, 7).unwrap();
    assert_eq!(b.coffee_id, 7);
    assert_eq!(b.weight_g, 250);
    assert_eq!(b.price_ct, 1899);
    assert_eq!(b.open_date, parse_day("2024-03-05"));
    assert_eq!(b.empty_date, None);
}

#[test]
fn bag_build_reports_the_first_bad_field() {
    assert!(matches!(bag::build(bag_soul("March", "x", "y", "z"), 1), Err(BuildError::Timestamp(_))));
    match bag::build(bag_soul("2024-03-01", "x", "y", "z"), 1) {
        Err(BuildError::Timestamp(t)) => assert_eq!(t, "xT00:00:00Z"),
        other => panic!("{:?}", other),
    }
    match bag::build(bag_soul("2024-03-01", "", "70000", "z"), 1) {
        Err(BuildError::Number(t)) => assert_eq!(t, "70000"),
        other => panic!("{:?}", other),
    }
    match bag::build(bag_soul("2024-03-01", "", "250", "z"), 1) {
        Err(BuildError::Number(t)) => assert_eq!(t, "z"),
        other => panic!("{:?}", other),
    }
}

#[test]
fn bag_csv_soul_needs_every_column() {
    let headers = rec(&["coffee_id", "roast_date", "open_date", "empty_date", "weight_g", "price_ct"]);
    let record = rec(&["3", "2024-03-01", "", "", "250", "1899"]);
    let soul = bag::csv_soul(&record, &headers).unwrap();
    assert_eq!(soul.coffee_id, "3");
    assert!(bag::csv_soul(&rec(&["3"]), &headers).is_none());
    let b = bag::build_csv(&record, &headers, 9).unwrap();
    assert_eq!(b.coffee_id, 9);
}

fn brew_soul(grind: &str, water: &str, temp: &str, rating: &str) -> BrewSoul {
    BrewSoul {
        bag_id: "4".to_string(),
        grinder: "Comandante".to_string(),
        brewer: "V60".to_string(),
        grind_level: grind.to_string(),
        coffee_g: "15".to_string(),
        water_g: water.to_string(),
        brew_g: String::new(),
        temp: temp.to_string(),
        time_s: "180".to_string(),
        rating: rating.to_string(),
        notes: String::new(),
    }
}

fn masses(coffee: Option<&str>, water: Option<&str>) -> Masses {
    Masses {
        coffee_g: coffee.map(String::from),
        water_g: water.map(String::from),
        brew_g: None,
    }
}

#[test]
fn brew_lookups_name_their_keys() {
    let soul = brew_soul("24", "250", "", "");
    let b = brew::bag_lookup(&soul);
    assert_eq!((b.sql.as_str(), b.key.as_str()), ("SELECT id FROM bag WHERE id = ?1", "4"));
    let g = brew::grinder_lookup(&soul);
    assert_eq!(
        (g.sql.as_str(), g.key.as_str()),
        ("SELECT id FROM equipment WHERE LOWER(name) = LOWER(?1)", "Comandante")
    );
    assert_eq!(brew::brewer_lookup(&soul).key, "V60");
}

#[test]
fn brew_new_reads_fields() {
    let b = brew::new(brew_soul("24", "250", "93", "5"), 4, 1, 2, masses(Some("15"), Some("250"))).unwrap();
    assert_eq!((b.bag_id, b.grinder_id, b.brewer_id, b.grind_level), (4, 1, 2, 24));
    assert_eq!(b.coffee_g, "15");
    assert_eq!(b.water_g.as_deref(), Some("250"));
    assert_eq!(b.brew_g, None);
    assert_eq!(b.temp_c, Some(93));
    assert_eq!(b.time_s, Some(180));
    assert_eq!(b.rating, Some(5));
    assert_eq!(b.notes, None);
}

#[test]
fn brew_defects_come_in_field_order() {
    let check = |soul, m| match brew::new_checked(soul, 1, 2, 3, m) {
        Err(d) => Some(d),
        Ok(_) => None,
    };
    assert_eq!(check(brew_soul("x", "y", "z", "w"), masses(None, None)), Some(BrewDefect::GrindLevel));
    assert_eq!(check(brew_soul("1", "y", "z", "w"), masses(None, None)), Some(BrewDefect::CoffeeG));
    assert_eq!(check(brew_soul("1", "y", "z", "w"), masses(Some("15"), None)), Some(BrewDefect::WaterG));
    assert_eq!(check(brew_soul("1", "", "z", "w"), masses(Some("15"), None)), Some(BrewDefect::Temp));
    assert_eq!(check(brew_soul("1", "", "300", "w"), masses(Some("15"), None)), Some(BrewDefect::Temp));
    assert_eq!(check(brew_soul("1", "", "", "w"), masses(Some("15"), None)), Some(BrewDefect::Rating));
    assert_eq!(check(brew_soul("1", "", "", ""), masses(Some("15"), None)), None);
}

#[test]
fn brew_to_sql_is_exact() {
    let b = Brew {
        bag_id: 4,
        grinder_id: 1,
        brewer_id: 2,
        grind_level: 24,
        coffee_g: "15.5".to_string(),
        water_g: Some("250".to_string()),
        brew_g: None,
        temp_c: Some(93),
        time_s: None,
        rating: Some(4),
        notes: Some("juicy".to_string()),
        timestamp: Stamp::epoch(),
    };
    assert_eq!(
        b.to_sql(),
        "INSERT INTO brew (bag_id, grinder_id, brewer_id, grind_level, coffee_g, water_g, brew_g, temp_c, time_s, rating, notes, timestamp) \n                VALUES ('4', '1', '2', '24', '15.5', '250', '', '93', '', '4', 'juicy', '1970-01-01T00:00:00Z')"
    );
}

#[test]
fn brew_csv_soul_needs_every_column() {
    let headers = rec(&[
        "bag_id", "grinder", "brewer", "grind_level", "coffee_g", "water_g", "brew_g", "temp", "time_s",
        "rating", "notes",
    ]);
    let record = rec(&["4", "C40", "V60", "24", "15", "250", "", "93", "180", "5", "bright"]);
    let soul = brew::csv_soul(&record, &headers).unwrap();
    assert_eq!(soul.notes, "bright");
    assert!(brew::csv_soul(&rec(&["4"]), &headers).is_none());
}

#[test]
fn table_for_reads_the_header_width() {
    assert_eq!(table_for(5), Some(Table::Equipment));
    assert_eq!(table_for(15), Some(Table::Coffee));
    assert_eq!(table_for(6), Some(Table::Bag));
    assert_eq!(table_for(11), Some(Table::Brew));
    assert_eq!(table_for(7), None);
    assert_eq!(table_for(0), None);
}

#[test]
fn trim_fields_trims_every_field() {
    let mut record = rec(&["  V60 ", "\tbrewer", "", " a b "]);
    record::trim_fields(&mut record);
    assert_eq!(record, rec(&["V60", "brewer", "", "a b"]));
    assert_eq!(record.len(), 4);
}

#[test]
fn trim_fields_trims_unicode_whitespace() {
    let mut record = rec(&["\u{3000}Kalita\u{a0}", "\u{2003}x y\u{85}", "\u{200b}z"]);
    record::trim_fields(&mut record);
    assert_eq!(record, rec(&["Kalita", "x y", "\u{200b}z"]));
}
