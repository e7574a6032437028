use kaffe::coffee::{CoffeeKind, RoastLevel};
use kaffe::equipment::EquipmentKind;
use kaffe::error::BuildError;
use kaffe::stamp::parse_day;
use kaffe::wizard::{CoffeeStep, CoffeeWizard, EquipmentStep, EquipmentWizard, Items, WizardStop};

#[test]
fn items_match_exactly() {
    assert_eq!(Items::from_str("Equipment"), Ok(Items::Equipment));
    assert_eq!(Items::from_str("Coffee"), Ok(Items::Coffee));
    assert_eq!(Items::from_str("coffee"), Err(()));
    assert_eq!(Items::from_str("Bag"), Err(()));
    assert_eq!(Items::from_str("Brew"), Err(()));
}

#[test]
fn equipment_wizard_asks_in_order() {
    let mut w = EquipmentWizard::new();
    assert_eq!(w.step, EquipmentStep::Name);
    w.answer_text("Comandante".to_string()).unwrap();
    assert_eq!(w.step, EquipmentStep::Kind);
    w.answer_text("grinder".to_string()).unwrap();
    assert_eq!(w.step, EquipmentStep::PurchaseDate);
    w.answer_text("2023-05-06".to_string()).unwrap();
    assert_eq!(w.step, EquipmentStep::DecommissionDate);
    w.answer_optional(None);
    assert_eq!(w.step, EquipmentStep::Price);
    w.answer_text("25000".to_string()).unwrap();
    assert_eq!(w.step, EquipmentStep::Done);
    let e = &w.equipment;
    assert_eq!(e.name, "Comandante");
    assert_eq!(e.kind, EquipmentKind::Grinder);
    assert_eq!(e.purchase_date, parse_day("2023-05-06").unwrap());
    assert_eq!(e.decommission_date, None);
    assert_eq!(e.price_ct, 25000);
    assert!(e.timestamp.second() > 0);
}

#[test]
fn equipment_wizard_stops_on_bad_answers() {
    let mut w = EquipmentWizard::new();
    w.answer_text("Kettle".to_string()).unwrap();
    assert!(matches!(w.answer_text("kettle".to_string()), Err(WizardStop::Unparsed)));
    assert_eq!(w.step, EquipmentStep::Kind);
    w.answer_text("Brewer".to_string()).unwrap();
    match w.answer_text("May 6".to_string()) {
        Err(WizardStop::Failed(BuildError::Timestamp(t))) => assert_eq!(t, "May 6T00:00:00Z"),
        other => panic!("{:?}", other),
    }
    assert_eq!(w.step, EquipmentStep::PurchaseDate);
    w.answer_text("2023-05-06".to_string()).unwrap();
    w.answer_optional(Some("2024-01-01".to_string()));
    assert_eq!(w.equipment.decommission_date, parse_day("2024-01-01"));
    assert!(w.equipment.decommission_date.is_some());
    match w.answer_text("-100".to_string()) {
        Err(WizardStop::Failed(BuildError::Number(t))) => assert_eq!(t, "-100"),
        other => panic!("{:?}", other),
    }
}

#[test]
fn coffee_wizard_single_origin_asks_about_origin() {
    let mut w = CoffeeWizard::new();
    let steps = [
        (CoffeeStep::Roaster, "Onyx"),
        (CoffeeStep::Name, "Geometry"),
        (CoffeeStep::RoastLevel, "light"),
        (CoffeeStep::Kind, "single-origin"),
    ];
    for (step, answer) in steps {
        assert_eq!(w.step, step);
        w.answer_text(answer.to_string()).unwrap();
    }
    assert_eq!(w.step, CoffeeStep::Country);
    w.answer_optional(Some("Ethiopia".to_string()));
    assert_eq!(w.step, CoffeeStep::Region);
    w.answer_optional(None);
    assert_eq!(w.step, CoffeeStep::Farm);
    w.answer_optional(Some(String::new()));
    assert_eq!(w.step, CoffeeStep::Producer);
    w.answer_optional(None);
    assert_eq!(w.step, CoffeeStep::Varietals);
    w.answer_text("abyssinia;typica".to_string()).unwrap();
    assert_eq!(w.step, CoffeeStep::Altitude);
    w.answer_text("about 2000".to_string()).unwrap();
    assert_eq!(w.step, CoffeeStep::AltitudeLower);
    w.answer_text("1900".to_string()).unwrap();
    assert_eq!(w.step, CoffeeStep::AltitudeUpper);
    w.answer_text("2100".to_string()).unwrap();
    assert_eq!(w.step, CoffeeStep::Process);
    w.answer_optional(Some("washed".to_string()));
    assert_eq!(w.step, CoffeeStep::Decaf);
    w.answer_text("No".to_string()).unwrap();
    assert_eq!(w.step, CoffeeStep::TastingNotes);
    w.answer_text("lemon;red fruit".to_string()).unwrap();
    assert_eq!(w.step, CoffeeStep::Done);
    let c = &w.coffee;
    assert_eq!(c.roaster, "Onyx");
    assert_eq!(c.roast_level, RoastLevel::Light);
    assert_eq!(c.kind, CoffeeKind::SingleOrigin);
    assert_eq!(c.country.as_deref(), Some("Ethiopia"));
    assert_eq!(c.region, None);
    assert_eq!(c.farm.as_deref(), Some(""));
    assert_eq!(c.varietals, Some(vec!["abyssinia".to_string(), "typica".to_string()]));
    assert_eq!((c.altitude_m, c.altitude_lower_m, c.altitude_upper_m), (None, Some(1900), Some(2100)));
    assert_eq!(c.process.as_deref(), Some("washed"));
    assert!(!c.decaf);
    assert_eq!(c.tasting_notes, vec!["lemon", "red fruit"]);
}

#[test]
fn coffee_wizard_blend_skips_origin() {
    let mut w = CoffeeWizard::new();
    for answer in ["Onyx", "Geometry", "DARK", "Blend"] {
        w.answer_text(answer.to_string()).unwrap();
    }
    assert_eq!(w.step, CoffeeStep::Process);
    w.answer_optional(None);
    w.answer_text("Yes".to_string()).unwrap();
    w.answer_text("cocoa".to_string()).unwrap();
    assert_eq!(w.step, CoffeeStep::Done);
    let c = &w.coffee;
    assert_eq!(c.kind, CoffeeKind::Blend);
    assert_eq!(c.roast_level, RoastLevel::Dark);
    assert!(c.decaf);
    assert_eq!(c.country, None);
    assert_eq!(c.varietals, None);
    assert_eq!(c.process, None);
}

#[test]
fn coffee_wizard_altitude_that_reads_skips_the_range() {
    let mut w = CoffeeWizard::new();
    for answer in ["Onyx", "Geometry", "light", "single-origin"] {
        w.answer_text(answer.to_string()).unwrap();
    }
    for _ in 0..4 {
        w.answer_optional(None);
    }
    w.answer_text(String::new()).unwrap();
    assert_eq!(w.coffee.varietals, None);
    w.answer_text("2000".to_string()).unwrap();
    assert_eq!(w.coffee.altitude_m, Some(2000));
    assert_eq!(w.step, CoffeeStep::Process);
}

#[test]
fn coffee_wizard_refuses_unknown_options() {
    let mut w = CoffeeWizard::new();
    w.answer_text("Onyx".to_string()).unwrap();
    w.answer_text("Geometry".to_string()).unwrap();
    assert!(matches!(w.answer_text("burnt".to_string()), Err(WizardStop::Unparsed)));
    w.answer_text("medium".to_string()).unwrap();
    assert!(matches!(w.answer_text("espresso".to_string()), Err(WizardStop::Unparsed)));
    assert_eq!(w.step, CoffeeStep::Kind);
}

#[test]
fn equipment_wizard_unreadable_retirement_is_none() {
    let mut w = EquipmentWizard::new();
    for answer in ["V60", "brewer", "2023-05-06"] {
        w.answer_text(answer.to_string()).unwrap();
    }
    w.answer_optional(Some("never".to_string()));
    assert_eq!(w.equipment.decommission_date, None);
    assert_eq!(w.step, EquipmentStep::Price);
}
