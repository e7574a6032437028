//! Brews: a dose of a bag's coffee, ground on one piece of equipment and
//! brewed on another, with its recipe and rating.
//!
//! The masses are floating-point numbers, read and printed outside this
//! library; a brew holds each as the text that `f64`'s `Display` prints.

use vstd::prelude::*;
use crate::error::BuildError;
use crate::lookup::{IdLookup, id_lookup};
use crate::record::{record_cell, cell_text, required_cell};
use crate::sql::{
    insert_sql,
    insert_statement,
    lemma_decimal_unquoted,
    lemma_insert_reads_back,
    lemma_insert_value,
    no_quote,
    sql_values,
};
use crate::stamp::{Stamp, stamp_text};
use crate::text::{
    decimal,
    decimal_text,
    none_if_empty,
    parse_u8,
    parse_u16,
    parsed_unsigned,
    text_option_view,
    text_or_empty,
};

verus! {

/// A brew: ids of the bag, grinder and brewer, grind setting, coffee, water
/// and beverage masses in grams (as printed), temperature in °C, time in
/// seconds, a rating from 1 to 5 and notes.
#[derive(Debug)]
pub struct Brew {
    pub bag_id: u32,
    pub grinder_id: u32,
    pub brewer_id: u32,
    pub grind_level: u16,
    pub coffee_g: String,
    pub water_g: Option<String>,
    pub brew_g: Option<String>,
    pub temp_c: Option<u8>,
    pub time_s: Option<u16>,
    pub rating: Option<u8>,
    pub notes: Option<String>,
    pub timestamp: Stamp,
}

/// What an optional 8-bit number contributes to a row.
pub open spec fn byte_or_empty(n: Option<u8>) -> Seq<char> {
    match n {
        Some(v) => decimal(v as nat),
        None => Seq::empty(),
    }
}

/// What an optional 16-bit number contributes to a row.
pub open spec fn short_or_empty(n: Option<u16>) -> Seq<char> {
    match n {
        Some(v) => decimal(v as nat),
        None => Seq::empty(),
    }
}

/// The opening of the statement that stores a brew.
pub open spec fn brew_head() -> Seq<char> {
    "INSERT INTO brew (bag_id, grinder_id, brewer_id, grind_level, coffee_g, water_g, brew_g, temp_c, time_s, rating, notes, timestamp) \n                VALUES ("@
}

/// The statement that stores `b`; values that are not set are empty.
pub open spec fn brew_sql(b: Brew) -> Seq<char> {
    insert_sql(
        brew_head(),
        seq![
            decimal(b.bag_id as nat),
            decimal(b.grinder_id as nat),
            decimal(b.brewer_id as nat),
            decimal(b.grind_level as nat),
            b.coffee_g@,
            text_or_empty(text_option_view(b.water_g)),
            text_or_empty(text_option_view(b.brew_g)),
            byte_or_empty(b.temp_c),
            short_or_empty(b.time_s),
            byte_or_empty(b.rating),
            text_or_empty(text_option_view(b.notes)),
            stamp_text(b.timestamp),
        ],
    )
}

fn text_or_blank(s: &Option<String>) -> (res: String)
    ensures
        res@ == text_or_empty(text_option_view(*s)),
{
    match s {
        Some(t) => t.clone(),
        None => String::new(),
    }
}

fn byte_or_blank(n: Option<u8>) -> (res: String)
    ensures
        res@ == byte_or_empty(n),
{
    match n {
        Some(v) => decimal_text(v as u64),
        None => String::new(),
    }
}

fn short_or_blank(n: Option<u16>) -> (res: String)
    ensures
        res@ == short_or_empty(n),
{
    match n {
        Some(v) => decimal_text(v as u64),
        None => String::new(),
    }
}

impl Brew {
    /// The SQL statement that stores this brew.
    pub fn to_sql(&self) -> (res: String)
        ensures
            res@ == brew_sql(*self),
    {
        let mut values: Vec<String> = Vec::new();
        values.push(decimal_text(self.bag_id as u64));
        values.push(decimal_text(self.grinder_id as u64));
        values.push(decimal_text(self.brewer_id as u64));
        values.push(decimal_text(self.grind_level as u64));
        values.push(self.coffee_g.clone());
        values.push(text_or_blank(&self.water_g));
        values.push(text_or_blank(&self.brew_g));
        values.push(byte_or_blank(self.temp_c));
        values.push(short_or_blank(self.time_s));
        values.push(byte_or_blank(self.rating));
        values.push(text_or_blank(&self.notes));
        values.push(self.timestamp.to_text());
        let res = insert_statement(
            "INSERT INTO brew (bag_id, grinder_id, brewer_id, grind_level, coffee_g, water_g, brew_g, temp_c, time_s, rating, notes, timestamp) \n                VALUES (",
            &values,
        );
        assert(values.deep_view() =~= seq![
            decimal(self.bag_id as nat),
            decimal(self.grinder_id as nat),
            decimal(self.brewer_id as nat),
            decimal(self.grind_level as nat),
            self.coffee_g@,
            text_or_empty(text_option_view(self.water_g)),
            text_or_empty(text_option_view(self.brew_g)),
            byte_or_empty(self.temp_c),
            short_or_empty(self.time_s),
            byte_or_empty(self.rating),
            text_or_empty(text_option_view(self.notes)),
            stamp_text(self.timestamp),
        ]);
        res
    }
}

/// Reading back the statement that stores a brew gives each value under its
/// own column: bag, grinder and brewer ids, grind level, coffee, water and
/// beverage masses, temperature, time, rating, notes and timestamp; a value
/// that is not set reads as empty. This holds while no text written before a
/// column holds a single quote, since values are written without escaping.
pub proof fn lemma_brew_sql_columns(b: Brew)
    requires
        no_quote(b.coffee_g@),
        b.water_g matches Some(t) ==> no_quote(t@),
        b.brew_g matches Some(t) ==> no_quote(t@),
        b.notes matches Some(t) ==> no_quote(t@),
    ensures
        ({
            let v = sql_values(brew_sql(b), brew_head());
            &&& v.len() >= 11
            &&& v[0] == decimal(b.bag_id as nat)
            &&& v[1] == decimal(b.grinder_id as nat)
            &&& v[2] == decimal(b.brewer_id as nat)
            &&& v[3] == decimal(b.grind_level as nat)
            &&& v[4] == b.coffee_g@
            &&& v[5] == (match b.water_g {
                Some(t) => t@,
                None => Seq::<char>::empty(),
            })
            &&& v[6] == (match b.brew_g {
                Some(t) => t@,
                None => Seq::<char>::empty(),
            })
            &&& v[7] == (match b.temp_c {
                Some(n) => decimal(n as nat),
                None => Seq::<char>::empty(),
            })
            &&& v[8] == (match b.time_s {
                Some(n) => decimal(n as nat),
                None => Seq::<char>::empty(),
            })
            &&& v[9] == (match b.rating {
                Some(n) => decimal(n as nat),
                None => Seq::<char>::empty(),
            })
            &&& v[10] == (match b.notes {
                Some(t) => t@,
                None => Seq::<char>::empty(),
            })
            &&& no_quote(stamp_text(b.timestamp)) ==> v.len() == 12 && v[11] == stamp_text(
                b.timestamp,
            )
        }),
{
    let vals = seq![
        decimal(b.bag_id as nat),
        decimal(b.grinder_id as nat),
        decimal(b.brewer_id as nat),
        decimal(b.grind_level as nat),
        b.coffee_g@,
        text_or_empty(text_option_view(b.water_g)),
        text_or_empty(text_option_view(b.brew_g)),
        byte_or_empty(b.temp_c),
        short_or_empty(b.time_s),
        byte_or_empty(b.rating),
        text_or_empty(text_option_view(b.notes)),
        stamp_text(b.timestamp),
    ];
    assert(brew_sql(b) == insert_sql(brew_head(), vals));
    lemma_decimal_unquoted(b.bag_id as nat);
    lemma_decimal_unquoted(b.grinder_id as nat);
    lemma_decimal_unquoted(b.brewer_id as nat);
    lemma_decimal_unquoted(b.grind_level as nat);
    if let Some(n) = b.temp_c {
        lemma_decimal_unquoted(n as nat);
    }
    if let Some(n) = b.time_s {
        lemma_decimal_unquoted(n as nat);
    }
    if let Some(n) = b.rating {
        lemma_decimal_unquoted(n as nat);
    }
    assert(no_quote(vals[5]) && no_quote(vals[6]) && no_quote(vals[7]));
    assert(no_quote(vals[8]) && no_quote(vals[9]) && no_quote(vals[10]));
    let v = sql_values(insert_sql(brew_head(), vals), brew_head());
    assert forall|k: int| 0 <= k < 11 implies k < v.len() && #[trigger] v[k] == vals[k] by {
        lemma_insert_value(brew_head(), vals, k);
    }
    assert(v[0] == vals[0] && v[1] == vals[1] && v[2] == vals[2] && v[3] == vals[3]);
    assert(v[4] == vals[4] && v[5] == vals[5] && v[6] == vals[6] && v[7] == vals[7]);
    assert(v[8] == vals[8] && v[9] == vals[9] && v[10] == vals[10]);
    if no_quote(stamp_text(b.timestamp)) {
        lemma_insert_reads_back(brew_head(), vals);
    }
}

/// The text of each field of a brew, as entered.
pub struct BrewSoul {
    pub bag_id: String,
    pub grinder: String,
    pub brewer: String,
    pub grind_level: String,
    pub coffee_g: String,
    pub water_g: String,
    pub brew_g: String,
    pub temp: String,
    pub time_s: String,
    pub rating: String,
    pub notes: String,
}

/// The field texts of a brew, as mathematical texts.
pub struct BrewText {
    pub bag_id: Seq<char>,
    pub grinder: Seq<char>,
    pub brewer: Seq<char>,
    pub grind_level: Seq<char>,
    pub coffee_g: Seq<char>,
    pub water_g: Seq<char>,
    pub brew_g: Seq<char>,
    pub temp: Seq<char>,
    pub time_s: Seq<char>,
    pub rating: Seq<char>,
    pub notes: Seq<char>,
}

impl View for BrewSoul {
    type V = BrewText;

    open spec fn view(&self) -> BrewText {
        BrewText {
            bag_id: self.bag_id@,
            grinder: self.grinder@,
            brewer: self.brewer@,
            grind_level: self.grind_level@,
            coffee_g: self.coffee_g@,
            water_g: self.water_g@,
            brew_g: self.brew_g@,
            temp: self.temp@,
            time_s: self.time_s@,
            rating: self.rating@,
            notes: self.notes@,
        }
    }
}

/// The masses of a brew as read from its texts outside this library: for
/// each, the text `f64`'s `Display` prints for the number its field reads
/// as, or `None` where the field does not read as a number.
pub struct Masses {
    pub coffee_g: Option<String>,
    pub water_g: Option<String>,
    pub brew_g: Option<String>,
}

/// The lookup that finds the bag a brew was made from.
pub fn bag_lookup(soul: &BrewSoul) -> (res: IdLookup)
    ensures
        res.sql@ == "SELECT id FROM bag WHERE id = ?1"@,
        res.key@ == soul.bag_id@,
{
    id_lookup("SELECT id FROM bag WHERE id = ?1", soul.bag_id.as_str())
}

/// The lookup that finds the grinder a brew was ground on, by name in any
/// case.
pub fn grinder_lookup(soul: &BrewSoul) -> (res: IdLookup)
    ensures
        res.sql@ == "SELECT id FROM equipment WHERE LOWER(name) = LOWER(?1)"@,
        res.key@ == soul.grinder@,
{
    id_lookup("SELECT id FROM equipment WHERE LOWER(name) = LOWER(?1)", soul.grinder.as_str())
}

/// The lookup that finds the brewer a brew was made on, by name in any case.
pub fn brewer_lookup(soul: &BrewSoul) -> (res: IdLookup)
    ensures
        res.sql@ == "SELECT id FROM equipment WHERE LOWER(name) = LOWER(?1)"@,
        res.key@ == soul.brewer@,
{
    id_lookup("SELECT id FROM equipment WHERE LOWER(name) = LOWER(?1)", soul.brewer.as_str())
}

/// A field whose text makes reading a brew panic.
#[derive(Debug, Clone, Copy, PartialEq, Eq, Structural)]
pub enum BrewDefect {
    GrindLevel,
    CoffeeG,
    WaterG,
    BrewG,
    Temp,
    TimeS,
    Rating,
}

/// An optional 8-bit number: `Some(None)` for an empty text, `Some(Some(v))`
/// for a number that fits, `None` otherwise (which panics).
pub open spec fn optional_byte(s: Seq<char>) -> Option<Option<u8>> {
    if s.len() == 0 {
        Some(None)
    } else {
        match parsed_unsigned(s, 255) {
            Some(v) => Some(Some(v as u8)),
            None => None,
        }
    }
}

/// An optional 16-bit number, as `optional_byte`.
pub open spec fn optional_short(s: Seq<char>) -> Option<Option<u16>> {
    if s.len() == 0 {
        Some(None)
    } else {
        match parsed_unsigned(s, 65535) {
            Some(v) => Some(Some(v as u16)),
            None => None,
        }
    }
}

/// An optional mass: `Some(None)` for an empty field, `Some(Some(t))` for
/// the printed number `t` the field reads as, `None` where it does not read.
pub open spec fn optional_mass(field: Seq<char>, reading: Option<Seq<char>>) -> Option<
    Option<Seq<char>>,
> {
    if field.len() == 0 {
        Some(None)
    } else {
        match reading {
            Some(t) => Some(Some(t)),
            None => None,
        }
    }
}

/// The view of the readings of the masses.
pub open spec fn masses_view(m: Masses) -> (Option<Seq<char>>, Option<Seq<char>>, Option<
    Seq<char>,
>) {
    (text_option_view(m.coffee_g), text_option_view(m.water_g), text_option_view(m.brew_g))
}

/// The first field, in the order the fields are read, whose text makes
/// reading a brew panic; `None` when every field reads.
pub open spec fn brew_defect(
    t: BrewText,
    m: (Option<Seq<char>>, Option<Seq<char>>, Option<Seq<char>>),
) -> Option<BrewDefect> {
    if parsed_unsigned(t.grind_level, 65535) is None {
        Some(BrewDefect::GrindLevel)
    } else if m.0 is None {
        Some(BrewDefect::CoffeeG)
    } else if optional_mass(t.water_g, m.1) is None {
        Some(BrewDefect::WaterG)
    } else if optional_mass(t.brew_g, m.2) is None {
        Some(BrewDefect::BrewG)
    } else if optional_byte(t.temp) is None {
        Some(BrewDefect::Temp)
    } else if optional_short(t.time_s) is None {
        Some(BrewDefect::TimeS)
    } else if optional_byte(t.rating) is None {
        Some(BrewDefect::Rating)
    } else {
        None
    }
}

/// `b` is the brew that the ids, field texts `t` and mass readings `m`
/// describe: empty optional fields are absent.
pub open spec fn brew_from(
    b: Brew,
    ids: (u32, u32, u32),
    t: BrewText,
    m: (Option<Seq<char>>, Option<Seq<char>>, Option<Seq<char>>),
) -> bool {
    &&& b.bag_id == ids.0
    &&& b.grinder_id == ids.1
    &&& b.brewer_id == ids.2
    &&& b.grind_level as nat == parsed_unsigned(t.grind_level, 65535).unwrap()
    &&& b.coffee_g@ == m.0.unwrap()
    &&& text_option_view(b.water_g) == optional_mass(t.water_g, m.1).unwrap()
    &&& text_option_view(b.brew_g) == optional_mass(t.brew_g, m.2).unwrap()
    &&& b.temp_c == optional_byte(t.temp).unwrap()
    &&& b.time_s == optional_short(t.time_s).unwrap()
    &&& b.rating == optional_byte(t.rating).unwrap()
    &&& text_option_view(b.notes) == (if t.notes.len() == 0 {
        None
    } else {
        Some(t.notes)
    })
}

/// What a brew read from field texts and mass readings that all read holds,
/// field by field: the given ids; the grind level the field spells; the
/// coffee mass as read; water and beverage masses absent exactly when their
/// fields are empty and otherwise as read; temperature, time and rating
/// absent exactly when their fields are empty and otherwise the numbers the
/// fields spell; notes absent exactly when empty and otherwise as given.
pub proof fn lemma_brew_fields(
    b: Brew,
    ids: (u32, u32, u32),
    t: BrewText,
    m: (Option<Seq<char>>, Option<Seq<char>>, Option<Seq<char>>),
)
    requires
        brew_defect(t, m) is None,
        brew_from(b, ids, t, m),
    ensures
        b.bag_id == ids.0,
        b.grinder_id == ids.1,
        b.brewer_id == ids.2,
        parsed_unsigned(t.grind_level, 65535) == Some(b.grind_level as nat),
        m.0 == Some(b.coffee_g@),
        (b.water_g is None) == (t.water_g.len() == 0),
        b.water_g matches Some(x) ==> m.1 == Some(x@),
        (b.brew_g is None) == (t.brew_g.len() == 0),
        b.brew_g matches Some(x) ==> m.2 == Some(x@),
        (b.temp_c is None) == (t.temp.len() == 0),
        b.temp_c matches Some(n) ==> parsed_unsigned(t.temp, 255) == Some(n as nat),
        (b.time_s is None) == (t.time_s.len() == 0),
        b.time_s matches Some(n) ==> parsed_unsigned(t.time_s, 65535) == Some(n as nat),
        (b.rating is None) == (t.rating.len() == 0),
        b.rating matches Some(n) ==> parsed_unsigned(t.rating, 255) == Some(n as nat),
        (b.notes is None) == (t.notes.len() == 0),
        b.notes matches Some(x) ==> x@ == t.notes,
{
}

fn byte_of(s: &str) -> (res: Option<Option<u8>>)
    ensures
        res == optional_byte(s@),
{
    match none_if_empty(s) {
        None => Some(None),
        Some(t) => match parse_u8(t.as_str()) {
            Some(v) => Some(Some(v)),
            None => None,
        },
    }
}

fn short_of(s: &str) -> (res: Option<Option<u16>>)
    ensures
        res == optional_short(s@),
{
    match none_if_empty(s) {
        None => Some(None),
        Some(t) => match parse_u16(t.as_str()) {
            Some(v) => Some(Some(v)),
            None => None,
        },
    }
}

fn mass_of(field: &str, reading: &Option<String>) -> (res: Option<Option<String>>)
    ensures
        match res {
            None => optional_mass(field@, text_option_view(*reading)) is None,
            Some(r) => optional_mass(field@, text_option_view(*reading)) == Some(
                text_option_view(r),
            ),
        },
{
    match none_if_empty(field) {
        None => Some(None),
        Some(_) => match reading {
            Some(t) => Some(Some(t.clone())),
            None => None,
        },
    }
}

/// Finds the first field of a brew that makes reading it panic.
pub fn defect(soul: &BrewSoul, masses: &Masses) -> (res: Option<BrewDefect>)
    ensures
        res == brew_defect(soul@, masses_view(*masses)),
{
    if parse_u16(soul.grind_level.as_str()).is_none() {
        Some(BrewDefect::GrindLevel)
    } else if masses.coffee_g.is_none() {
        Some(BrewDefect::CoffeeG)
    } else if mass_of(soul.water_g.as_str(), &masses.water_g).is_none() {
        Some(BrewDefect::WaterG)
    } else if mass_of(soul.brew_g.as_str(), &masses.brew_g).is_none() {
        Some(BrewDefect::BrewG)
    } else if byte_of(soul.temp.as_str()).is_none() {
        Some(BrewDefect::Temp)
    } else if short_of(soul.time_s.as_str()).is_none() {
        Some(BrewDefect::TimeS)
    } else if byte_of(soul.rating.as_str()).is_none() {
        Some(BrewDefect::Rating)
    } else {
        None
    }
}

/// Reads a brew of bag `bag_id`, ground on `grinder_id` and brewed on
/// `brewer_id`, from the text of its fields and the readings of its masses,
/// stamped with the current time.
pub fn new(soul: BrewSoul, bag_id: u32, grinder_id: u32, brewer_id: u32, masses: Masses) -> (res:
    Result<Brew, BuildError>)
    requires
        brew_defect(soul@, masses_view(masses)) is None,
    ensures
        res matches Ok(b) && brew_from(b, (bag_id, grinder_id, brewer_id), soul@, masses_view(masses)),
{
    let grind_level = match parse_u16(soul.grind_level.as_str()) {
        Some(v) => v,
        None => 0,
    };
    let coffee_g = match &masses.coffee_g {
        Some(t) => t.clone(),
        None => String::new(),
    };
    let water_g = match mass_of(soul.water_g.as_str(), &masses.water_g) {
        Some(r) => r,
        None => None,
    };
    let brew_g = match mass_of(soul.brew_g.as_str(), &masses.brew_g) {
        Some(r) => r,
        None => None,
    };
    let temp_c = match byte_of(soul.temp.as_str()) {
        Some(r) => r,
        None => None,
    };
    let time_s = match short_of(soul.time_s.as_str()) {
        Some(r) => r,
        None => None,
    };
    let rating = match byte_of(soul.rating.as_str()) {
        Some(r) => r,
        None => None,
    };
    Ok(
        Brew {
            bag_id,
            grinder_id,
            brewer_id,
            grind_level,
            coffee_g,
            water_g,
            brew_g,
            temp_c,
            time_s,
            rating,
            notes: none_if_empty(soul.notes.as_str()),
            timestamp: Stamp::now(),
        },
    )
}

/// `new`, or the field that would make it panic.
pub fn new_checked(soul: BrewSoul, bag_id: u32, grinder_id: u32, brewer_id: u32, masses: Masses) -> (res:
    Result<Result<Brew, BuildError>, BrewDefect>)
    ensures
        match res {
            Err(d) => brew_defect(soul@, masses_view(masses)) == Some(d),
            Ok(r) => brew_defect(soul@, masses_view(masses)) is None && (r matches Ok(b)
                && brew_from(b, (bag_id, grinder_id, brewer_id), soul@, masses_view(masses))),
        },
{
    match defect(&soul, &masses) {
        Some(d) => Err(d),
        None => Ok(new(soul, bag_id, grinder_id, brewer_id, masses)),
    }
}

/// The record has a cell under every column that a brew is read from.
pub open spec fn has_brew_cells(record: csv::StringRecord, headers: csv::StringRecord) -> bool {
    &&& record_cell(record, headers, "bag_id"@) is Some
    &&& record_cell(record, headers, "grinder"@) is Some
    &&& record_cell(record, headers, "brewer"@) is Some
    &&& record_cell(record, headers, "grind_level"@) is Some
    &&& record_cell(record, headers, "coffee_g"@) is Some
    &&& record_cell(record, headers, "water_g"@) is Some
    &&& record_cell(record, headers, "brew_g"@) is Some
    &&& record_cell(record, headers, "temp"@) is Some
    &&& record_cell(record, headers, "time_s"@) is Some
    &&& record_cell(record, headers, "rating"@) is Some
    &&& record_cell(record, headers, "notes"@) is Some
}

/// The field texts of a brew in a CSV record: each field under the column of
/// its name.
pub open spec fn brew_text_of(record: csv::StringRecord, headers: csv::StringRecord) -> BrewText {
    BrewText {
        bag_id: cell_text(record, headers, "bag_id"@),
        grinder: cell_text(record, headers, "grinder"@),
        brewer: cell_text(record, headers, "brewer"@),
        grind_level: cell_text(record, headers, "grind_level"@),
        coffee_g: cell_text(record, headers, "coffee_g"@),
        water_g: cell_text(record, headers, "water_g"@),
        brew_g: cell_text(record, headers, "brew_g"@),
        temp: cell_text(record, headers, "temp"@),
        time_s: cell_text(record, headers, "time_s"@),
        rating: cell_text(record, headers, "rating"@),
        notes: cell_text(record, headers, "notes"@),
    }
}

/// The fields of a brew in a CSV record, or `None` when a column is missing
/// or the record does not reach it.
pub fn csv_soul(record: &csv::StringRecord, headers: &csv::StringRecord) -> (res: Option<BrewSoul>)
    ensures
        match res {
            None => !has_brew_cells(*record, *headers),
            Some(s) => has_brew_cells(*record, *headers) && s@ == brew_text_of(*record, *headers),
        },
{
    let a = crate::record::cell(record, headers, "bag_id").is_some();
    let b = crate::record::cell(record, headers, "grinder").is_some();
    let c = crate::record::cell(record, headers, "brewer").is_some();
    let d = crate::record::cell(record, headers, "grind_level").is_some();
    let e = crate::record::cell(record, headers, "coffee_g").is_some();
    let f = crate::record::cell(record, headers, "water_g").is_some();
    let g = crate::record::cell(record, headers, "brew_g").is_some();
    let h = crate::record::cell(record, headers, "temp").is_some();
    let i = crate::record::cell(record, headers, "time_s").is_some();
    let j = crate::record::cell(record, headers, "rating").is_some();
    let k = crate::record::cell(record, headers, "notes").is_some();
    if a && b && c && d && e && f && g && h && i && j && k {
        Some(
            BrewSoul {
                bag_id: required_cell(record, headers, "bag_id"),
                grinder: required_cell(record, headers, "grinder"),
                brewer: required_cell(record, headers, "brewer"),
                grind_level: required_cell(record, headers, "grind_level"),
                coffee_g: required_cell(record, headers, "coffee_g"),
                water_g: required_cell(record, headers, "water_g"),
                brew_g: required_cell(record, headers, "brew_g"),
                temp: required_cell(record, headers, "temp"),
                time_s: required_cell(record, headers, "time_s"),
                rating: required_cell(record, headers, "rating"),
                notes: required_cell(record, headers, "notes"),
            },
        )
    } else {
        None
    }
}

} // verus!
