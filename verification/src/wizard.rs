//! The interactive wizards that record equipment and coffees one answer at
//! a time. Each wizard says which question comes next and takes the answer;
//! asking is left to the caller.

use vstd::prelude::*;
use crate::coffee::{
    Coffee,
    CoffeeKind,
    RoastLevel,
    coffee_kind_from,
    roast_level_from,
    list_option_view,
};
use crate::equipment::{Equipment, EquipmentKind, equipment_kind_from};
use crate::error::{BuildError, timestamp_error, number_error};
use crate::stamp::{
    Stamp,
    midnight_text,
    parse_day,
    read_day,
    stamp_option_view,
    timestamp_parse,
    valid_instant,
};
use crate::text::{
    lowercase,
    parse_u16,
    parse_u32,
    parsed_unsigned,
    same_text,
    split_on,
    split_text,
    text_option_view,
};

verus! {

/// What the wizard records.
#[derive(Debug, Clone, Copy, PartialEq, Eq, Structural)]
pub enum Items {
    Equipment,
    Coffee,
}

/// The item named exactly by a text.
pub open spec fn item_from(s: Seq<char>) -> Option<Items> {
    if s == "Equipment"@ {
        Some(Items::Equipment)
    } else if s == "Coffee"@ {
        Some(Items::Coffee)
    } else {
        None
    }
}

impl Items {
    /// The item named by `s`, which must match exactly.
    pub fn from_str(s: &str) -> (res: Result<Items, ()>)
        ensures
            match item_from(s@) {
                Some(i) => res == Ok::<Items, ()>(i),
                None => res is Err,
            },
    {
        if same_text(s, "Equipment") {
            Ok(Items::Equipment)
        } else if same_text(s, "Coffee") {
            Ok(Items::Coffee)
        } else {
            Err(())
        }
    }
}

/// Why a wizard stops before it is done.
#[derive(Debug)]
pub enum WizardStop {
    /// The chosen option names nothing (the command panics on this).
    Unparsed,
    /// An answer did not read.
    Failed(BuildError),
}

/// The questions of the equipment wizard, in order.
#[derive(Debug, Clone, Copy, PartialEq, Eq, Structural)]
pub enum EquipmentStep {
    Name,
    Kind,
    PurchaseDate,
    DecommissionDate,
    Price,
    Done,
}

/// The equipment wizard: the next question and the equipment so far.
pub struct EquipmentWizard {
    pub step: EquipmentStep,
    pub equipment: Equipment,
}

/// The fields of equipment that one answer sets.
#[derive(Debug, Clone, Copy, PartialEq, Eq, Structural)]
pub enum EquipmentField {
    Name,
    Kind,
    PurchaseDate,
    DecommissionDate,
    Price,
}

/// `a` and `b` agree on every field but `f`.
pub open spec fn equipment_same_but(a: Equipment, b: Equipment, f: EquipmentField) -> bool {
    &&& (f != EquipmentField::Name ==> a.name == b.name)
    &&& (f != EquipmentField::Kind ==> a.kind == b.kind)
    &&& (f != EquipmentField::PurchaseDate ==> a.purchase_date == b.purchase_date)
    &&& (f != EquipmentField::DecommissionDate ==> a.decommission_date == b.decommission_date)
    &&& (f != EquipmentField::Price ==> a.price_ct == b.price_ct)
    &&& a.timestamp == b.timestamp
}

/// The equipment wizard answers `text` at `old` and is in `new` afterwards,
/// or stops with `res`: the name is taken as given; the kind must name a
/// kind; the purchase date is the answered day at midnight UTC, as jiff
/// reads it; the price must be a 32-bit number of cents.
pub open spec fn equipment_text_step(
    old: EquipmentWizard,
    text: Seq<char>,
    new: EquipmentWizard,
    res: Result<(), WizardStop>,
) -> bool {
    match old.step {
        EquipmentStep::Name => res is Ok && new.step == EquipmentStep::Kind && new.equipment.name@
            == text && equipment_same_but(new.equipment, old.equipment, EquipmentField::Name),
        EquipmentStep::Kind => match equipment_kind_from(lowercase(text)) {
            Some(k) => res is Ok && new.step == EquipmentStep::PurchaseDate && new.equipment.kind
                == k && equipment_same_but(new.equipment, old.equipment, EquipmentField::Kind),
            None => res matches Err(WizardStop::Unparsed) && new == old,
        },
        EquipmentStep::PurchaseDate => match timestamp_parse(midnight_text(text)) {
            Some(t) => res is Ok && new.step == EquipmentStep::DecommissionDate
                && new.equipment.purchase_date@ == t && equipment_same_but(
                new.equipment,
                old.equipment,
                EquipmentField::PurchaseDate,
            ),
            None => (res matches Err(WizardStop::Failed(e)) && timestamp_error(
                e,
                midnight_text(text),
            )) && new == old,
        },
        EquipmentStep::Price => match parsed_unsigned(text, 0xffff_ffff) {
            Some(v) => res is Ok && new.step == EquipmentStep::Done && new.equipment.price_ct
                == v && equipment_same_but(new.equipment, old.equipment, EquipmentField::Price),
            None => (res matches Err(WizardStop::Failed(e)) && number_error(e, text)) && new
                == old,
        },
        _ => false,
    }
}

/// The retirement date an answer gives: the answered day at midnight UTC as
/// jiff reads it, or nothing when the question was skipped or jiff refuses
/// the day.
pub open spec fn retirement_answer(reply: Option<Seq<char>>) -> Option<(i64, i32)> {
    match reply {
        Some(day) => timestamp_parse(midnight_text(day)),
        None => None,
    }
}

/// The place of a question in the order the equipment wizard asks them.
pub open spec fn equipment_step_rank(s: EquipmentStep) -> nat {
    match s {
        EquipmentStep::Name => 0,
        EquipmentStep::Kind => 1,
        EquipmentStep::PurchaseDate => 2,
        EquipmentStep::DecommissionDate => 3,
        EquipmentStep::Price => 4,
        EquipmentStep::Done => 5,
    }
}

/// The equipment wizard never goes back: an answer it takes moves it on to
/// the very next question, an answer it refuses leaves it as it was, and the
/// equipment's timestamp stays the one it started with.
pub proof fn lemma_equipment_wizard_moves_on(
    old: EquipmentWizard,
    text: Seq<char>,
    new: EquipmentWizard,
    res: Result<(), WizardStop>,
)
    requires
        old.wants_text(),
        equipment_text_step(old, text, new, res),
    ensures
        res is Ok ==> equipment_step_rank(new.step) == equipment_step_rank(old.step) + 1,
        res is Err ==> new == old,
        new.equipment.timestamp == old.equipment.timestamp,
{
}

impl EquipmentWizard {
    /// A wizard that starts from blank equipment stamped with the current
    /// time and asks for the name.
    pub fn new() -> (res: EquipmentWizard)
        ensures
            res.step == EquipmentStep::Name,
            res.equipment.name@ == Seq::<char>::empty(),
            res.equipment.kind == EquipmentKind::Brewer,
            res.equipment.price_ct == 0,
            res.equipment.purchase_date@ == (0i64, 0i32),
            res.equipment.decommission_date is None,
            valid_instant(res.equipment.timestamp@.0, res.equipment.timestamp@.1),
    {
        let mut equipment = crate::equipment::new();
        equipment.timestamp = Stamp::now();
        EquipmentWizard { step: EquipmentStep::Name, equipment }
    }

    /// The question now is answered with a text.
    pub open spec fn wants_text(&self) -> bool {
        self.step == EquipmentStep::Name || self.step == EquipmentStep::Kind || self.step
            == EquipmentStep::PurchaseDate || self.step == EquipmentStep::Price
    }

    /// Takes the answer to a text question.
    pub fn answer_text(&mut self, text: String) -> (res: Result<(), WizardStop>)
        requires
            old(self).wants_text(),
        ensures
            equipment_text_step(*old(self), text@, *final(self), res),
    {
        match self.step {
            EquipmentStep::Name => {
                self.equipment.name = text;
                self.step = EquipmentStep::Kind;
                Ok(())
            },
            EquipmentStep::Kind => match EquipmentKind::from_str(text.as_str()) {
                Ok(k) => {
                    self.equipment.kind = k;
                    self.step = EquipmentStep::PurchaseDate;
                    Ok(())
                },
                Err(()) => Err(WizardStop::Unparsed),
            },
            EquipmentStep::PurchaseDate => match read_day(text.as_str()) {
                Ok(t) => {
                    self.equipment.purchase_date = t;
                    self.step = EquipmentStep::DecommissionDate;
                    Ok(())
                },
                Err(e) => Err(WizardStop::Failed(e)),
            },
            _ => match parse_u32(text.as_str()) {
                Some(v) => {
                    self.equipment.price_ct = v;
                    self.step = EquipmentStep::Done;
                    Ok(())
                },
                None => Err(WizardStop::Failed(BuildError::Number(text))),
            },
        }
    }

    /// Takes the answer to the retirement date, which may be skipped: the
    /// answered day at midnight UTC (nothing when skipped or unreadable); the
    /// price comes next.
    pub fn answer_optional(&mut self, reply: Option<String>)
        requires
            old(self).step == EquipmentStep::DecommissionDate,
        ensures
            final(self).step == EquipmentStep::Price,
            stamp_option_view(final(self).equipment.decommission_date) == retirement_answer(
                text_option_view(reply),
            ),
            equipment_same_but(
                final(self).equipment,
                old(self).equipment,
                EquipmentField::DecommissionDate,
            ),
    {
        self.equipment.decommission_date = match reply {
            Some(day) => parse_day(day.as_str()),
            None => None,
        };
        self.step = EquipmentStep::Price;
    }
}

/// The questions of the coffee wizard, in the order they can come.
#[derive(Debug, Clone, Copy, PartialEq, Eq, Structural)]
pub enum CoffeeStep {
    Roaster,
    Name,
    RoastLevel,
    Kind,
    Country,
    Region,
    Farm,
    Producer,
    Varietals,
    Altitude,
    AltitudeLower,
    AltitudeUpper,
    Process,
    Decaf,
    TastingNotes,
    Done,
}

/// The fields of a coffee that one answer sets.
#[derive(Debug, Clone, Copy, PartialEq, Eq, Structural)]
pub enum CoffeeField {
    Roaster,
    Name,
    RoastLevel,
    Kind,
    Country,
    Region,
    Farm,
    Producer,
    Varietals,
    AltitudeM,
    AltitudeLower,
    AltitudeUpper,
    Process,
    Decaf,
    TastingNotes,
}

/// `a` and `b` agree on every field but `f`.
pub open spec fn coffee_same_but(a: Coffee, b: Coffee, f: CoffeeField) -> bool {
    &&& (f != CoffeeField::Roaster ==> a.roaster == b.roaster)
    &&& (f != CoffeeField::Name ==> a.name == b.name)
    &&& (f != CoffeeField::RoastLevel ==> a.roast_level == b.roast_level)
    &&& (f != CoffeeField::Kind ==> a.kind == b.kind)
    &&& (f != CoffeeField::Country ==> a.country == b.country)
    &&& (f != CoffeeField::Region ==> a.region == b.region)
    &&& (f != CoffeeField::Farm ==> a.farm == b.farm)
    &&& (f != CoffeeField::Producer ==> a.producer == b.producer)
    &&& (f != CoffeeField::Varietals ==> a.varietals == b.varietals)
    &&& (f != CoffeeField::AltitudeM ==> a.altitude_m == b.altitude_m)
    &&& (f != CoffeeField::AltitudeLower ==> a.altitude_lower_m == b.altitude_lower_m)
    &&& (f != CoffeeField::AltitudeUpper ==> a.altitude_upper_m == b.altitude_upper_m)
    &&& (f != CoffeeField::Process ==> a.process == b.process)
    &&& (f != CoffeeField::Decaf ==> a.decaf == b.decaf)
    &&& (f != CoffeeField::TastingNotes ==> a.tasting_notes == b.tasting_notes)
    &&& a.timestamp == b.timestamp
}

/// The coffee wizard: the next question and the coffee so far.
pub struct CoffeeWizard {
    pub step: CoffeeStep,
    pub coffee: Coffee,
}

/// An altitude answer: the 16-bit number it reads as, or nothing.
pub open spec fn altitude_answer(text: Seq<char>) -> Option<u16> {
    match parsed_unsigned(text, 65535) {
        Some(v) => Some(v as u16),
        None => None,
    }
}

/// The coffee wizard answers `text` at `old` and is in `new` afterwards, or
/// stops with `res`. Roast level and kind must name one (in any case); a
/// single origin leads to the questions on origin, a blend straight to the
/// process; the varietals are absent when the answer is empty and otherwise
/// cut at `;`; an altitude that does not read leads to the questions on the
/// altitude range; the coffee is decaf when the answer is exactly `Yes`; the
/// tasting notes are cut at `;`.
pub open spec fn coffee_text_step(
    old: CoffeeWizard,
    text: Seq<char>,
    new: CoffeeWizard,
    res: Result<(), WizardStop>,
) -> bool {
    let o = old.coffee;
    let c = new.coffee;
    match old.step {
        CoffeeStep::Roaster => res is Ok && new.step == CoffeeStep::Name && c.roaster@ == text
            && coffee_same_but(c, o, CoffeeField::Roaster),
        CoffeeStep::Name => res is Ok && new.step == CoffeeStep::RoastLevel && c.name@ == text
            && coffee_same_but(c, o, CoffeeField::Name),
        CoffeeStep::RoastLevel => match roast_level_from(lowercase(text)) {
            Some(r) => res is Ok && new.step == CoffeeStep::Kind && c.roast_level == r
                && coffee_same_but(c, o, CoffeeField::RoastLevel),
            None => res matches Err(WizardStop::Unparsed) && new == old,
        },
        CoffeeStep::Kind => match coffee_kind_from(lowercase(text)) {
            Some(k) => res is Ok && new.step == (if k == CoffeeKind::SingleOrigin {
                CoffeeStep::Country
            } else {
                CoffeeStep::Process
            }) && c.kind == k && coffee_same_but(c, o, CoffeeField::Kind),
            None => res matches Err(WizardStop::Unparsed) && new == old,
        },
        CoffeeStep::Varietals => res is Ok && new.step == CoffeeStep::Altitude && list_option_view(
            c.varietals,
        ) == (if text.len() == 0 {
            None
        } else {
            Some(split_text(text, ';'))
        }) && coffee_same_but(c, o, CoffeeField::Varietals),
        CoffeeStep::Altitude => res is Ok && c.altitude_m == altitude_answer(text) && new.step == (
        if altitude_answer(text) is None {
            CoffeeStep::AltitudeLower
        } else {
            CoffeeStep::Process
        }) && coffee_same_but(c, o, CoffeeField::AltitudeM),
        CoffeeStep::AltitudeLower => res is Ok && new.step == CoffeeStep::AltitudeUpper
            && c.altitude_lower_m == altitude_answer(text) && coffee_same_but(
            c,
            o,
            CoffeeField::AltitudeLower,
        ),
        CoffeeStep::AltitudeUpper => res is Ok && new.step == CoffeeStep::Process
            && c.altitude_upper_m == altitude_answer(text) && coffee_same_but(
            c,
            o,
            CoffeeField::AltitudeUpper,
        ),
        CoffeeStep::Decaf => res is Ok && new.step == CoffeeStep::TastingNotes && c.decaf == (text
            == "Yes"@) && coffee_same_but(c, o, CoffeeField::Decaf),
        CoffeeStep::TastingNotes => res is Ok && new.step == CoffeeStep::Done
            && c.tasting_notes.deep_view() == split_text(text, ';') && coffee_same_but(
            c,
            o,
            CoffeeField::TastingNotes,
        ),
        _ => false,
    }
}

/// The coffee wizard answers a question that may go unanswered: the answer,
/// or its absence, is kept as it is, and the next question follows.
pub open spec fn coffee_optional_step(
    old: CoffeeWizard,
    reply: Option<Seq<char>>,
    new: CoffeeWizard,
) -> bool {
    let o = old.coffee;
    let c = new.coffee;
    match old.step {
        CoffeeStep::Country => new.step == CoffeeStep::Region && text_option_view(c.country)
            == reply && coffee_same_but(c, o, CoffeeField::Country),
        CoffeeStep::Region => new.step == CoffeeStep::Farm && text_option_view(c.region) == reply
            && coffee_same_but(c, o, CoffeeField::Region),
        CoffeeStep::Farm => new.step == CoffeeStep::Producer && text_option_view(c.farm) == reply
            && coffee_same_but(c, o, CoffeeField::Farm),
        CoffeeStep::Producer => new.step == CoffeeStep::Varietals && text_option_view(c.producer)
            == reply && coffee_same_but(c, o, CoffeeField::Producer),
        CoffeeStep::Process => new.step == CoffeeStep::Decaf && text_option_view(c.process)
            == reply && coffee_same_but(c, o, CoffeeField::Process),
        _ => false,
    }
}

/// The place of a question in the order the coffee wizard can ask them.
pub open spec fn coffee_step_rank(s: CoffeeStep) -> nat {
    match s {
        CoffeeStep::Roaster => 0,
        CoffeeStep::Name => 1,
        CoffeeStep::RoastLevel => 2,
        CoffeeStep::Kind => 3,
        CoffeeStep::Country => 4,
        CoffeeStep::Region => 5,
        CoffeeStep::Farm => 6,
        CoffeeStep::Producer => 7,
        CoffeeStep::Varietals => 8,
        CoffeeStep::Altitude => 9,
        CoffeeStep::AltitudeLower => 10,
        CoffeeStep::AltitudeUpper => 11,
        CoffeeStep::Process => 12,
        CoffeeStep::Decaf => 13,
        CoffeeStep::TastingNotes => 14,
        CoffeeStep::Done => 15,
    }
}

/// The coffee wizard never goes back: an answer it takes moves it on to a
/// later question (skipping the origin for a blend and the altitude range
/// when the altitude reads), an answer it refuses leaves it as it was, and
/// the coffee's timestamp stays the one it started with.
pub proof fn lemma_coffee_wizard_moves_on(
    old: CoffeeWizard,
    text: Seq<char>,
    new: CoffeeWizard,
    res: Result<(), WizardStop>,
)
    requires
        old.wants_text(),
        coffee_text_step(old, text, new, res),
    ensures
        res is Ok ==> coffee_step_rank(new.step) > coffee_step_rank(old.step),
        res is Ok && old.step != CoffeeStep::Kind && old.step != CoffeeStep::Altitude
            ==> coffee_step_rank(new.step) == coffee_step_rank(old.step) + 1,
        res is Ok && old.step == CoffeeStep::Kind ==> (new.step == CoffeeStep::Country)
            == (new.coffee.kind == CoffeeKind::SingleOrigin),
        res is Ok && old.step == CoffeeStep::Kind && new.coffee.kind == CoffeeKind::Blend
            ==> new.step == CoffeeStep::Process,
        res is Err ==> new == old,
        new.coffee.timestamp == old.coffee.timestamp,
{
}

/// A question that may go unanswered moves the coffee wizard on to the very
/// next question, whatever the reply, and keeps the coffee's timestamp.
pub proof fn lemma_coffee_wizard_optional_moves_on(
    old: CoffeeWizard,
    reply: Option<Seq<char>>,
    new: CoffeeWizard,
)
    requires
        old.wants_optional(),
        coffee_optional_step(old, reply, new),
    ensures
        coffee_step_rank(new.step) == coffee_step_rank(old.step) + 1,
        new.coffee.timestamp == old.coffee.timestamp,
{
}

impl CoffeeWizard {
    /// A wizard that starts from a blank coffee stamped with the current time
    /// and asks for the roaster. Roast level and kind hold placeholders
    /// until they are asked.
    pub fn new() -> (res: CoffeeWizard)
        ensures
            res.step == CoffeeStep::Roaster,
            res.coffee.roaster@ == Seq::<char>::empty(),
            res.coffee.name@ == Seq::<char>::empty(),
            res.coffee.country is None,
            res.coffee.region is None,
            res.coffee.farm is None,
            res.coffee.producer is None,
            res.coffee.varietals is None,
            res.coffee.altitude_m is None,
            res.coffee.altitude_lower_m is None,
            res.coffee.altitude_upper_m is None,
            res.coffee.process is None,
            !res.coffee.decaf,
            res.coffee.tasting_notes@.len() == 0,
    {
        CoffeeWizard {
            step: CoffeeStep::Roaster,
            coffee: Coffee {
                roaster: String::new(),
                name: String::new(),
                roast_level: RoastLevel::Medium,
                kind: CoffeeKind::SingleOrigin,
                country: None,
                region: None,
                farm: None,
                producer: None,
                varietals: None,
                altitude_m: None,
                altitude_lower_m: None,
                altitude_upper_m: None,
                process: None,
                decaf: false,
                tasting_notes: Vec::new(),
                timestamp: Stamp::now(),
            },
        }
    }

    /// The question now may go unanswered.
    pub open spec fn wants_optional(&self) -> bool {
        self.step == CoffeeStep::Country || self.step == CoffeeStep::Region || self.step
            == CoffeeStep::Farm || self.step == CoffeeStep::Producer || self.step
            == CoffeeStep::Process
    }

    /// The question now is answered with a text.
    pub open spec fn wants_text(&self) -> bool {
        !self.wants_optional() && self.step != CoffeeStep::Done
    }

    /// Takes the answer to a text question.
    pub fn answer_text(&mut self, text: String) -> (res: Result<(), WizardStop>)
        requires
            old(self).wants_text(),
        ensures
            coffee_text_step(*old(self), text@, *final(self), res),
    {
        match self.step {
            CoffeeStep::Roaster => {
                self.coffee.roaster = text;
                self.step = CoffeeStep::Name;
                Ok(())
            },
            CoffeeStep::Name => {
                self.coffee.name = text;
                self.step = CoffeeStep::RoastLevel;
                Ok(())
            },
            CoffeeStep::RoastLevel => match RoastLevel::from_str(text.as_str()) {
                Ok(r) => {
                    self.coffee.roast_level = r;
                    self.step = CoffeeStep::Kind;
                    Ok(())
                },
                Err(()) => Err(WizardStop::Unparsed),
            },
            CoffeeStep::Kind => match CoffeeKind::from_str(text.as_str()) {
                Ok(k) => {
                    self.coffee.kind = k;
                    let shown = k.to_string();
                    proof {
                        reveal_strlit("single-origin");
                        reveal_strlit("blend");
                    }
                    if same_text(shown.as_str(), "single-origin") {
                        self.step = CoffeeStep::Country;
                    } else {
                        self.step = CoffeeStep::Process;
                    }
                    Ok(())
                },
                Err(()) => Err(WizardStop::Unparsed),
            },
            CoffeeStep::Varietals => {
                self.coffee.varietals = if text.as_str().is_empty() {
                    None
                } else {
                    Some(split_on(text.as_str(), ';'))
                };
                self.step = CoffeeStep::Altitude;
                Ok(())
            },
            CoffeeStep::Altitude => {
                let a = parse_u16(text.as_str());
                self.coffee.altitude_m = a;
                if a.is_none() {
                    self.step = CoffeeStep::AltitudeLower;
                } else {
                    self.step = CoffeeStep::Process;
                }
                Ok(())
            },
            CoffeeStep::AltitudeLower => {
                self.coffee.altitude_lower_m = parse_u16(text.as_str());
                self.step = CoffeeStep::AltitudeUpper;
                Ok(())
            },
            CoffeeStep::AltitudeUpper => {
                self.coffee.altitude_upper_m = parse_u16(text.as_str());
                self.step = CoffeeStep::Process;
                Ok(())
            },
            CoffeeStep::Decaf => {
                self.coffee.decaf = same_text(text.as_str(), "Yes");
                self.step = CoffeeStep::TastingNotes;
                Ok(())
            },
            _ => {
                self.coffee.tasting_notes = split_on(text.as_str(), ';');
                self.step = CoffeeStep::Done;
                Ok(())
            },
        }
    }

    /// Takes the answer to a question that may go unanswered.
    pub fn answer_optional(&mut self, reply: Option<String>)
        requires
            old(self).wants_optional(),
        ensures
            coffee_optional_step(*old(self), text_option_view(reply), *final(self)),
    {
        match self.step {
            CoffeeStep::Country => {
                self.coffee.country = reply;
                self.step = CoffeeStep::Region;
            },
            CoffeeStep::Region => {
                self.coffee.region = reply;
                self.step = CoffeeStep::Farm;
            },
            CoffeeStep::Farm => {
                self.coffee.farm = reply;
                self.step = CoffeeStep::Producer;
            },
            CoffeeStep::Producer => {
                self.coffee.producer = reply;
                self.step = CoffeeStep::Varietals;
            },
            _ => {
                self.coffee.process = reply;
                self.step = CoffeeStep::Decaf;
            },
        }
    }
}

} // verus!
