use csv::StringRecord;
use kaffe::coffee::{
    self, country_suggestor, farm_suggestor, producer_suggestor, region_suggestor,
    roaster_suggestor, Coffee, CoffeeDefect, CoffeeKind, CoffeeSoul, RoastLevel,
};
use kaffe::stamp::Stamp;

#[test]
fn coffee_kind_reads_in_any_case() {
    assert_eq!(CoffeeKind::from_str("single-origin"), Ok(CoffeeKind::SingleOrigin));
    assert_eq!(CoffeeKind::from_str("Single-Origin"), Ok(CoffeeKind::SingleOrigin));
    assert_eq!(CoffeeKind::from_str("BLEND"), Ok(CoffeeKind::Blend));
    assert_eq!(CoffeeKind::from_str("single origin"), Err(()));
    for k in [CoffeeKind::SingleOrigin, CoffeeKind::Blend] {
        assert_eq!(CoffeeKind::from_str(&k.to_string()), Ok(k));
        assert_eq!(CoffeeKind::from_lowercase(&k.to_string()), Ok(k));
    }
    assert_eq!(CoffeeKind::SingleOrigin.to_string(), "single-origin");
}

#[test]
fn roast_level_reads_in_any_case() {
    assert_eq!(RoastLevel::from_str("Dark"), Ok(RoastLevel::Dark));
    assert_eq!(RoastLevel::from_str("MEDIUM"), Ok(RoastLevel::Medium));
    assert_eq!(RoastLevel::from_str("light"), Ok(RoastLevel::Light));
    assert_eq!(RoastLevel::from_str("cinnamon"), Err(()));
    for r in [RoastLevel::Dark, RoastLevel::Medium, RoastLevel::Light] {
        assert_eq!(RoastLevel::from_str(&r.to_string()), Ok(r));
        assert_eq!(RoastLevel::from_lowercase(&r.to_string()), Ok(r));
    }
    assert_eq!(RoastLevel::Medium.to_string(), "medium");
}

fn soul() -> CoffeeSoul {
    CoffeeSoul {
        roaster: "Tim Wendelboe".to_string(),
        name: "Ethiopia Yirgacheffe".to_string(),
        kind: "Single-Origin".to_string(),
        country: "Ethiopia".to_string(),
        region: String::new(),
        farm: "Dawencho".to_string(),
        producer: String::new(),
        varietals: "abyssinia;typica".to_string(),
        altitude_m: String::new(),
        altitude_lower_m: "1900".to_string(),
        altitude_upper_m: "2100".to_string(),
        process: "washed".to_string(),
        roast_level: "light".to_string(),
        tasting_notes: "lemon;red fruit;ginger".to_string(),
        decaf: String::new(),
    }
}

#[test]
fn coffee_new_reads_fields() {
    let c = coffee::new(soul()).unwrap();
    assert_eq!(c.roaster, "Tim Wendelboe");
    assert_eq!(c.kind, CoffeeKind::SingleOrigin);
    assert_eq!(c.roast_level, RoastLevel::Light);
    assert_eq!(c.country.as_deref(), Some("Ethiopia"));
    assert_eq!(c.region, None);
    assert_eq!(c.farm.as_deref(), Some("Dawencho"));
    assert_eq!(c.varietals, Some(vec!["abyssinia".to_string(), "typica".to_string()]));
    assert_eq!(c.altitude_m, None);
    assert_eq!((c.altitude_lower_m, c.altitude_upper_m), (Some(1900), Some(2100)));
    assert_eq!(c.process.as_deref(), Some("washed"));
    assert_eq!(c.tasting_notes, vec!["lemon", "red fruit", "ginger"]);
    assert!(!c.decaf);
    let mut s = soul();
    s.decaf = "x".to_string();
    s.varietals = String::new();
    let c = coffee::new(s).unwrap();
    assert!(c.decaf);
    assert_eq!(c.varietals, None);
}

#[test]
fn coffee_defects_come_in_field_order() {
    let defect = |s: CoffeeSoul| coffee::new_checked(s).err();
    let mut s = soul();
    s.kind = "espresso".to_string();
    s.roast_level = "burnt".to_string();
    assert_eq!(defect(s), Some(CoffeeDefect::Kind));
    let mut s = soul();
    s.altitude_m = "high".to_string();
    s.roast_level = "burnt".to_string();
    assert_eq!(defect(s), Some(CoffeeDefect::AltitudeM));
    let mut s = soul();
    s.altitude_lower_m = "70000".to_string();
    assert_eq!(defect(s), Some(CoffeeDefect::AltitudeLower));
    let mut s = soul();
    s.altitude_upper_m = "-1".to_string();
    assert_eq!(defect(s), Some(CoffeeDefect::AltitudeUpper));
    let mut s = soul();
    s.roast_level = "burnt".to_string();
    assert_eq!(defect(s), Some(CoffeeDefect::RoastLevel));
    assert_eq!(defect(soul()), None);
}

#[test]
fn coffee_new_csv_reads_named_columns() {
    let names = [
        "roaster", "name", "kind", "country", "region", "farm", "producer", "varietals", "altitude_m",
        "altitude_lower_m", "altitude_upper_m", "process", "roast_level", "tasting_notes", "decaf",
    ];
    let headers = StringRecord::from(names.to_vec());
    let record = StringRecord::from(vec![
        "Onyx", "Geometry", "blend", "", "", "", "", "", "", "", "", "", "Medium", "cocoa;plum", "",
    ]);
    let c = coffee::new_csv(&record, &headers).unwrap();
    assert_eq!(c.roaster, "Onyx");
    assert_eq!(c.kind, CoffeeKind::Blend);
    assert_eq!(c.roast_level, RoastLevel::Medium);
    assert_eq!(c.tasting_notes, vec!["cocoa", "plum"]);
    assert!(matches!(
        coffee::new_csv_checked(&StringRecord::from(vec!["Onyx"]), &headers),
        Err(CoffeeDefect::MissingCell)
    ));
    assert!(matches!(coffee::new_csv_checked(&record, &headers), Ok(Ok(_))));
}

#[test]
fn coffee_to_sql_is_exact() {
    let c = Coffee {
        roaster: "Onyx".to_string(),
        name: "Geometry".to_string(),
        roast_level: RoastLevel::Light,
        kind: CoffeeKind::SingleOrigin,
        country: Some("Ethiopia".to_string()),
        region: None,
        farm: None,
        producer: None,
        varietals: Some(vec!["heirloom".to_string()]),
        altitude_m: Some(2000),
        altitude_lower_m: None,
        altitude_upper_m: None,
        process: None,
        decaf: true,
        tasting_notes: vec!["lemon".to_string(), "red fruit".to_string()],
        timestamp: Stamp::epoch(),
    };
    assert_eq!(
        c.to_sql(),
        "INSERT INTO coffee (roaster, name, roast_level, kind, country, region, farm, producer, varietals, altitude_m, altitude_lower_m, altitude_upper_m, process, decaf, tasting_notes, timestamp) \n                VALUES ('Onyx', 'Geometry', 'light', 'single-origin', 'Ethiopia', '', '', '', '[\"heirloom\"]', '2000', '', '', '', 'true', '[\"lemon\", \"red fruit\"]', '1970-01-01T00:00:00Z')"
    );
}

#[test]
fn suggestors_name_their_column() {
    assert_eq!(roaster_suggestor("x").sql, "SELECT roaster FROM coffee");
    assert_eq!(country_suggestor("x").sql, "SELECT country FROM coffee");
    assert_eq!(region_suggestor("x").sql, "SELECT region FROM coffee");
    assert_eq!(farm_suggestor("x").sql, "SELECT farm FROM coffee");
    assert_eq!(producer_suggestor("x").sql, "SELECT producer FROM coffee");
    assert_eq!(roaster_suggestor("OnYx").needle, "onyx");
}

fn rows(v: &[&str]) -> Vec<String> {
    v.iter().map(|s| s.to_string()).collect()
}

#[test]
fn suggestions_match_in_any_case_without_duplicates() {
    let q = roaster_suggestor("ON");
    let got = q.suggestions(rows(&["Onyx", "", "Tim Wendelboe", "onyx", "Onyx", "Stone Creek", "Square Mile"]));
    assert_eq!(got, vec!["Onyx", "onyx", "Stone Creek"]);
}

#[test]
fn suggestions_are_at_most_five() {
    let q = country_suggestor("");
    let got = q.suggestions(rows(&["a", "b", "", "c", "a", "d", "e", "f", "g"]));
    assert_eq!(got, vec!["a", "b", "c", "d", "e"]);
    assert!(country_suggestor("zz").suggestions(rows(&["a", "b"])).is_empty());
    assert!(country_suggestor("a").suggestions(Vec::new()).is_empty());
}

#[test]
fn suggestions_are_sound() {
    let stored = rows(&["Kenya", "KENYA", "Ethiopia", "Kenya", "", "Rwanda", "Burundi", "Colombia"]);
    for input in ["", "k", "EN", "a", "ia", "xyz"] {
        let got = farm_suggestor(input).suggestions(stored.clone());
        assert!(got.len() <= 5);
        for (i, s) in got.iter().enumerate() {
            assert!(!s.is_empty());
            assert!(s.to_lowercase().contains(&input.to_lowercase()));
            assert!(stored.contains(s));
            assert!(!got[..i].contains(s));
        }
        if got.len() < 5 {
            for s in &stored {
                if !s.is_empty() && s.to_lowercase().contains(&input.to_lowercase()) {
                    assert!(got.contains(s));
                }
            }
        }
    }
}

#[test]
fn suggestions_find_ascii_inside_other_text() {
    let got = farm_suggestor("A").suggestions(rows(&["Peña Blanca", "Ñandú", "El Mirador"]));
    assert_eq!(got, vec!["Peña Blanca", "Ñandú", "El Mirador"]);
    assert!(farm_suggestor("ÑA").suggestions(rows(&["Ñandú"])).len() == 1);
}
