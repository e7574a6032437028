//! Coffees: what a roaster sells under a name, where it comes from and how
//! it tastes; and the autocompletion suggestions drawn from stored coffees.

use vstd::prelude::*;
use crate::error::BuildError;
use crate::record::{record_cell, cell_text, required_cell};
use crate::sql::{
    insert_sql,
    insert_statement,
    lemma_decimal_unquoted,
    lemma_insert_reads_back,
    lemma_insert_value,
    no_quote,
    sql_values,
};
use crate::stamp::{Stamp, stamp_text};
use crate::text::{
    all_ascii,
    ascii_lower,
    contains,
    contains_text,
    debug_list,
    debug_list_text,
    decimal,
    decimal_text,
    keeps_ascii_runs,
    lowercase,
    none_if_empty,
    parse_u16,
    parsed_unsigned,
    same_text,
    split_on,
    split_text,
    text_option_view,
    text_or_empty,
    to_lowercase,
};

verus! {

/// Whether a coffee comes from one origin or is a blend.
#[derive(Clone, Copy, Debug, PartialEq, Eq, Structural)]
pub enum CoffeeKind {
    SingleOrigin,
    Blend,
}

/// How dark a coffee is roasted.
#[derive(Clone, Copy, Debug, PartialEq, Eq, Structural)]
pub enum RoastLevel {
    Light,
    Medium,
    Dark,
}

/// The kind that a lowercased name stands for.
pub open spec fn coffee_kind_from(lower: Seq<char>) -> Option<CoffeeKind> {
    if lower == "single-origin"@ {
        Some(CoffeeKind::SingleOrigin)
    } else if lower == "blend"@ {
        Some(CoffeeKind::Blend)
    } else {
        None
    }
}

/// How a kind is displayed.
pub open spec fn coffee_kind_text(k: CoffeeKind) -> Seq<char> {
    match k {
        CoffeeKind::SingleOrigin => "single-origin"@,
        CoffeeKind::Blend => "blend"@,
    }
}

/// The roast level that a lowercased name stands for.
pub open spec fn roast_level_from(lower: Seq<char>) -> Option<RoastLevel> {
    if lower == "dark"@ {
        Some(RoastLevel::Dark)
    } else if lower == "medium"@ {
        Some(RoastLevel::Medium)
    } else if lower == "light"@ {
        Some(RoastLevel::Light)
    } else {
        None
    }
}

/// How a roast level is displayed.
pub open spec fn roast_level_text(r: RoastLevel) -> Seq<char> {
    match r {
        RoastLevel::Dark => "dark"@,
        RoastLevel::Medium => "medium"@,
        RoastLevel::Light => "light"@,
    }
}

/// The displayed name of a kind names that kind again.
pub proof fn lemma_kind_text_names_kind(k: CoffeeKind)
    ensures
        coffee_kind_from(coffee_kind_text(k)) == Some(k),
{
    reveal_strlit("single-origin");
    reveal_strlit("blend");
    assert("single-origin"@.len() == 13);
    assert("blend"@.len() == 5);
}

/// The displayed name of a roast level names that level again.
pub proof fn lemma_roast_text_names_level(r: RoastLevel)
    ensures
        roast_level_from(roast_level_text(r)) == Some(r),
{
    reveal_strlit("dark");
    reveal_strlit("medium");
    reveal_strlit("light");
    assert("dark"@.len() == 4);
    assert("medium"@.len() == 6);
    assert("light"@.len() == 5);
}

impl CoffeeKind {
    /// The kind named by an already lowercased text; `Err` for any other text.
    pub fn from_lowercase(lower: &str) -> (res: Result<CoffeeKind, ()>)
        ensures
            match coffee_kind_from(lower@) {
                Some(k) => res == Ok::<CoffeeKind, ()>(k),
                None => res is Err,
            },
    {
        if same_text(lower, "single-origin") {
            Ok(CoffeeKind::SingleOrigin)
        } else if same_text(lower, "blend") {
            Ok(CoffeeKind::Blend)
        } else {
            Err(())
        }
    }

    /// The kind named by `s`, whatever its case.
    pub fn from_str(s: &str) -> (res: Result<CoffeeKind, ()>)
        ensures
            match coffee_kind_from(lowercase(s@)) {
                Some(k) => res == Ok::<CoffeeKind, ()>(k),
                None => res is Err,
            },
    {
        let lower = to_lowercase(s);
        CoffeeKind::from_lowercase(lower.as_str())
    }

    /// The displayed name: `single-origin` or `blend`.
    pub fn to_string(&self) -> (res: String)
        ensures
            res@ == coffee_kind_text(*self),
    {
        match self {
            CoffeeKind::SingleOrigin => "single-origin".to_owned(),
            CoffeeKind::Blend => "blend".to_owned(),
        }
    }
}

impl RoastLevel {
    /// The roast level named by an already lowercased text; `Err` for any
    /// other text.
    pub fn from_lowercase(lower: &str) -> (res: Result<RoastLevel, ()>)
        ensures
            match roast_level_from(lower@) {
                Some(r) => res == Ok::<RoastLevel, ()>(r),
                None => res is Err,
            },
    {
        if same_text(lower, "dark") {
            Ok(RoastLevel::Dark)
        } else if same_text(lower, "medium") {
            Ok(RoastLevel::Medium)
        } else if same_text(lower, "light") {
            Ok(RoastLevel::Light)
        } else {
            Err(())
        }
    }

    /// The roast level named by `s`, whatever its case.
    pub fn from_str(s: &str) -> (res: Result<RoastLevel, ()>)
        ensures
            match roast_level_from(lowercase(s@)) {
                Some(r) => res == Ok::<RoastLevel, ()>(r),
                None => res is Err,
            },
    {
        let lower = to_lowercase(s);
        RoastLevel::from_lowercase(lower.as_str())
    }

    /// The displayed name: `dark`, `medium` or `light`.
    pub fn to_string(&self) -> (res: String)
        ensures
            res@ == roast_level_text(*self),
    {
        match self {
            RoastLevel::Dark => "dark".to_owned(),
            RoastLevel::Medium => "medium".to_owned(),
            RoastLevel::Light => "light".to_owned(),
        }
    }
}

/// A coffee: who roasts it under which name, its origin, varietals,
/// altitudes in metres above sea level, process, whether it is decaf, and
/// its tasting notes.
#[derive(Debug)]
pub struct Coffee {
    pub roaster: String,
    pub name: String,
    pub roast_level: RoastLevel,
    pub kind: CoffeeKind,
    pub country: Option<String>,
    pub region: Option<String>,
    pub farm: Option<String>,
    pub producer: Option<String>,
    pub varietals: Option<Vec<String>>,
    pub altitude_m: Option<u16>,
    pub altitude_lower_m: Option<u16>,
    pub altitude_upper_m: Option<u16>,
    pub process: Option<String>,
    pub decaf: bool,
    pub tasting_notes: Vec<String>,
    pub timestamp: Stamp,
}

/// The view of an optional list of texts.
pub open spec fn list_option_view(s: Option<Vec<String>>) -> Option<Seq<Seq<char>>> {
    match s {
        Some(v) => Some(v.deep_view()),
        None => None,
    }
}

/// What an optional number contributes to a row: its decimal text, or
/// nothing.
pub open spec fn number_or_empty(n: Option<u16>) -> Seq<char> {
    match n {
        Some(v) => decimal(v as nat),
        None => Seq::empty(),
    }
}

/// What an optional list contributes to a row: its `Debug` text, or nothing.
pub open spec fn list_or_empty(s: Option<Seq<Seq<char>>>) -> Seq<char> {
    match s {
        Some(v) => debug_list_text(v),
        None => Seq::empty(),
    }
}

/// How a flag is displayed.
pub open spec fn bool_text(b: bool) -> Seq<char> {
    if b {
        "true"@
    } else {
        "false"@
    }
}

/// The opening of the statement that stores a coffee.
pub open spec fn coffee_head() -> Seq<char> {
    "INSERT INTO coffee (roaster, name, roast_level, kind, country, region, farm, producer, varietals, altitude_m, altitude_lower_m, altitude_upper_m, process, decaf, tasting_notes, timestamp) \n                VALUES ("@
}

/// The statement that stores `c`, its fields in column order; absent ones
/// are empty.
pub open spec fn coffee_sql(c: Coffee) -> Seq<char> {
    insert_sql(
        coffee_head(),
        seq![
            c.roaster@,
            c.name@,
            roast_level_text(c.roast_level),
            coffee_kind_text(c.kind),
            text_or_empty(text_option_view(c.country)),
            text_or_empty(text_option_view(c.region)),
            text_or_empty(text_option_view(c.farm)),
            text_or_empty(text_option_view(c.producer)),
            list_or_empty(list_option_view(c.varietals)),
            number_or_empty(c.altitude_m),
            number_or_empty(c.altitude_lower_m),
            number_or_empty(c.altitude_upper_m),
            text_or_empty(text_option_view(c.process)),
            bool_text(c.decaf),
            debug_list_text(c.tasting_notes.deep_view()),
            stamp_text(c.timestamp),
        ],
    )
}

fn text_or_blank(s: &Option<String>) -> (res: String)
    ensures
        res@ == text_or_empty(text_option_view(*s)),
{
    match s {
        Some(t) => t.clone(),
        None => String::new(),
    }
}

fn number_or_blank(n: Option<u16>) -> (res: String)
    ensures
        res@ == number_or_empty(n),
{
    match n {
        Some(v) => decimal_text(v as u64),
        None => String::new(),
    }
}

fn list_or_blank(s: &Option<Vec<String>>) -> (res: String)
    ensures
        res@ == list_or_empty(list_option_view(*s)),
{
    match s {
        Some(v) => debug_list(v),
        None => String::new(),
    }
}

fn flag_text(b: bool) -> (res: String)
    ensures
        res@ == bool_text(b),
{
    if b {
        "true".to_owned()
    } else {
        "false".to_owned()
    }
}

impl Coffee {
    /// The SQL statement that stores this coffee.
    pub fn to_sql(&self) -> (res: String)
        ensures
            res@ == coffee_sql(*self),
    {
        let mut values: Vec<String> = Vec::new();
        values.push(self.roaster.clone());
        values.push(self.name.clone());
        values.push(self.roast_level.to_string());
        values.push(self.kind.to_string());
        values.push(text_or_blank(&self.country));
        values.push(text_or_blank(&self.region));
        values.push(text_or_blank(&self.farm));
        values.push(text_or_blank(&self.producer));
        values.push(list_or_blank(&self.varietals));
        values.push(number_or_blank(self.altitude_m));
        values.push(number_or_blank(self.altitude_lower_m));
        values.push(number_or_blank(self.altitude_upper_m));
        values.push(text_or_blank(&self.process));
        values.push(flag_text(self.decaf));
        values.push(debug_list(&self.tasting_notes));
        values.push(self.timestamp.to_text());
        let res = insert_statement(
            "INSERT INTO coffee (roaster, name, roast_level, kind, country, region, farm, producer, varietals, altitude_m, altitude_lower_m, altitude_upper_m, process, decaf, tasting_notes, timestamp) \n                VALUES (",
            &values,
        );
        assert(values.deep_view() =~= seq![
            self.roaster@,
            self.name@,
            roast_level_text(self.roast_level),
            coffee_kind_text(self.kind),
            text_or_empty(text_option_view(self.country)),
            text_or_empty(text_option_view(self.region)),
            text_or_empty(text_option_view(self.farm)),
            text_or_empty(text_option_view(self.producer)),
            list_or_empty(list_option_view(self.varietals)),
            number_or_empty(self.altitude_m),
            number_or_empty(self.altitude_lower_m),
            number_or_empty(self.altitude_upper_m),
            text_or_empty(text_option_view(self.process)),
            bool_text(self.decaf),
            debug_list_text(self.tasting_notes.deep_view()),
            stamp_text(self.timestamp),
        ]);
        res
    }
}

/// Reading back the statement that stores a coffee gives each field under
/// its own column: roaster, name, roast level, kind, country, region, farm,
/// producer, varietals, the three altitudes, process, `true` or `false` for
/// decaf, tasting notes and timestamp; an absent field reads as empty. This
/// holds while no text written before a column holds a single quote, since
/// values are written without escaping.
pub proof fn lemma_coffee_sql_columns(c: Coffee)
    requires
        no_quote(c.roaster@),
        no_quote(c.name@),
        c.country matches Some(t) ==> no_quote(t@),
        c.region matches Some(t) ==> no_quote(t@),
        c.farm matches Some(t) ==> no_quote(t@),
        c.producer matches Some(t) ==> no_quote(t@),
        c.varietals matches Some(l) ==> no_quote(debug_list_text(l.deep_view())),
        c.process matches Some(t) ==> no_quote(t@),
        no_quote(debug_list_text(c.tasting_notes.deep_view())),
    ensures
        ({
            let v = sql_values(coffee_sql(c), coffee_head());
            &&& v.len() >= 15
            &&& v[0] == c.roaster@
            &&& v[1] == c.name@
            &&& v[2] == roast_level_text(c.roast_level)
            &&& v[3] == coffee_kind_text(c.kind)
            &&& v[4] == (match c.country {
                Some(t) => t@,
                None => Seq::<char>::empty(),
            })
            &&& v[5] == (match c.region {
                Some(t) => t@,
                None => Seq::<char>::empty(),
            })
            &&& v[6] == (match c.farm {
                Some(t) => t@,
                None => Seq::<char>::empty(),
            })
            &&& v[7] == (match c.producer {
                Some(t) => t@,
                None => Seq::<char>::empty(),
            })
            &&& v[8] == (match c.varietals {
                Some(l) => debug_list_text(l.deep_view()),
                None => Seq::<char>::empty(),
            })
            &&& v[9] == (match c.altitude_m {
                Some(n) => decimal(n as nat),
                None => Seq::<char>::empty(),
            })
            &&& v[10] == (match c.altitude_lower_m {
                Some(n) => decimal(n as nat),
                None => Seq::<char>::empty(),
            })
            &&& v[11] == (match c.altitude_upper_m {
                Some(n) => decimal(n as nat),
                None => Seq::<char>::empty(),
            })
            &&& v[12] == (match c.process {
                Some(t) => t@,
                None => Seq::<char>::empty(),
            })
            &&& v[13] == (if c.decaf {
                "true"@
            } else {
                "false"@
            })
            &&& v[14] == debug_list_text(c.tasting_notes.deep_view())
            &&& no_quote(stamp_text(c.timestamp)) ==> v.len() == 16 && v[15] == stamp_text(
                c.timestamp,
            )
        }),
{
    let vals = seq![
        c.roaster@,
        c.name@,
        roast_level_text(c.roast_level),
        coffee_kind_text(c.kind),
        text_or_empty(text_option_view(c.country)),
        text_or_empty(text_option_view(c.region)),
        text_or_empty(text_option_view(c.farm)),
        text_or_empty(text_option_view(c.producer)),
        list_or_empty(list_option_view(c.varietals)),
        number_or_empty(c.altitude_m),
        number_or_empty(c.altitude_lower_m),
        number_or_empty(c.altitude_upper_m),
        text_or_empty(text_option_view(c.process)),
        bool_text(c.decaf),
        debug_list_text(c.tasting_notes.deep_view()),
        stamp_text(c.timestamp),
    ];
    assert(coffee_sql(c) == insert_sql(coffee_head(), vals));
    reveal_strlit("dark");
    reveal_strlit("medium");
    reveal_strlit("light");
    reveal_strlit("single-origin");
    reveal_strlit("blend");
    reveal_strlit("true");
    reveal_strlit("false");
    assert(no_quote(vals[2]));
    assert(no_quote(vals[3]));
    assert(no_quote(vals[13]));
    assert forall|a: Option<u16>| no_quote(#[trigger] number_or_empty(a)) by {
        if let Some(n) = a {
            lemma_decimal_unquoted(n as nat);
        }
    }
    assert(no_quote(vals[9]) && no_quote(vals[10]) && no_quote(vals[11]));
    assert(no_quote(vals[4]) && no_quote(vals[5]) && no_quote(vals[6]) && no_quote(vals[7]));
    assert(no_quote(vals[8]) && no_quote(vals[12]));
    let v = sql_values(insert_sql(coffee_head(), vals), coffee_head());
    assert forall|k: int| 0 <= k < 15 implies k < v.len() && #[trigger] v[k] == vals[k] by {
        lemma_insert_value(coffee_head(), vals, k);
    }
    assert(v[0] == vals[0] && v[1] == vals[1] && v[2] == vals[2] && v[3] == vals[3]);
    assert(v[4] == vals[4] && v[5] == vals[5] && v[6] == vals[6] && v[7] == vals[7]);
    assert(v[8] == vals[8] && v[9] == vals[9] && v[10] == vals[10] && v[11] == vals[11]);
    assert(v[12] == vals[12] && v[13] == vals[13] && v[14] == vals[14]);
    if no_quote(stamp_text(c.timestamp)) {
        lemma_insert_reads_back(coffee_head(), vals);
    }
}

/// The text of each field of a coffee, as entered.
pub struct CoffeeSoul {
    pub roaster: String,
    pub name: String,
    pub kind: String,
    pub country: String,
    pub region: String,
    pub farm: String,
    pub producer: String,
    pub varietals: String,
    pub altitude_m: String,
    pub altitude_lower_m: String,
    pub altitude_upper_m: String,
    pub process: String,
    pub roast_level: String,
    pub tasting_notes: String,
    pub decaf: String,
}

/// The field texts of a coffee, as mathematical texts.
pub struct CoffeeText {
    pub roaster: Seq<char>,
    pub name: Seq<char>,
    pub kind: Seq<char>,
    pub country: Seq<char>,
    pub region: Seq<char>,
    pub farm: Seq<char>,
    pub producer: Seq<char>,
    pub varietals: Seq<char>,
    pub altitude_m: Seq<char>,
    pub altitude_lower_m: Seq<char>,
    pub altitude_upper_m: Seq<char>,
    pub process: Seq<char>,
    pub roast_level: Seq<char>,
    pub tasting_notes: Seq<char>,
    pub decaf: Seq<char>,
}

impl View for CoffeeSoul {
    type V = CoffeeText;

    open spec fn view(&self) -> CoffeeText {
        CoffeeText {
            roaster: self.roaster@,
            name: self.name@,
            kind: self.kind@,
            country: self.country@,
            region: self.region@,
            farm: self.farm@,
            producer: self.producer@,
            varietals: self.varietals@,
            altitude_m: self.altitude_m@,
            altitude_lower_m: self.altitude_lower_m@,
            altitude_upper_m: self.altitude_upper_m@,
            process: self.process@,
            roast_level: self.roast_level@,
            tasting_notes: self.tasting_notes@,
            decaf: self.decaf@,
        }
    }
}

/// An optional field: absent when its text is empty.
pub open spec fn optional_field(s: Seq<char>) -> Option<Seq<char>> {
    if s.len() == 0 {
        None
    } else {
        Some(s)
    }
}

/// An optional altitude: `Some(None)` for an empty text, `Some(Some(v))` for
/// a number that fits 16 bits, `None` for anything else (which panics).
pub open spec fn optional_altitude(s: Seq<char>) -> Option<Option<u16>> {
    if s.len() == 0 {
        Some(None)
    } else {
        match parsed_unsigned(s, 65535) {
            Some(v) => Some(Some(v as u16)),
            None => None,
        }
    }
}

/// The varietals: absent when the text is empty, else the text cut at `;`.
pub open spec fn varietals_from(s: Seq<char>) -> Option<Seq<Seq<char>>> {
    if s.len() == 0 {
        None
    } else {
        Some(split_text(s, ';'))
    }
}

/// A field whose text makes reading a coffee panic.
#[derive(Debug, Clone, Copy, PartialEq, Eq, Structural)]
pub enum CoffeeDefect {
    /// A CSV column is missing or the record does not reach it.
    MissingCell,
    /// The kind names no kind.
    Kind,
    /// The altitude is neither empty nor a 16-bit number.
    AltitudeM,
    /// The lower altitude is neither empty nor a 16-bit number.
    AltitudeLower,
    /// The upper altitude is neither empty nor a 16-bit number.
    AltitudeUpper,
    /// The roast level names no roast level.
    RoastLevel,
}

/// The first field, in the order the fields are read, whose text makes
/// reading a coffee panic; `None` when every field reads.
pub open spec fn coffee_defect(t: CoffeeText) -> Option<CoffeeDefect> {
    if coffee_kind_from(lowercase(t.kind)) is None {
        Some(CoffeeDefect::Kind)
    } else if optional_altitude(t.altitude_m) is None {
        Some(CoffeeDefect::AltitudeM)
    } else if optional_altitude(t.altitude_lower_m) is None {
        Some(CoffeeDefect::AltitudeLower)
    } else if optional_altitude(t.altitude_upper_m) is None {
        Some(CoffeeDefect::AltitudeUpper)
    } else if roast_level_from(lowercase(t.roast_level)) is None {
        Some(CoffeeDefect::RoastLevel)
    } else {
        None
    }
}

/// `c` is the coffee that the field texts `t` describe: names as given,
/// kind and roast level named in any case, empty optional fields absent,
/// varietals and tasting notes cut at `;`, decaf when its field is not empty.
pub open spec fn coffee_from(c: Coffee, t: CoffeeText) -> bool {
    &&& c.roaster@ == t.roaster
    &&& c.name@ == t.name
    &&& c.kind == coffee_kind_from(lowercase(t.kind)).unwrap()
    &&& text_option_view(c.country) == optional_field(t.country)
    &&& text_option_view(c.region) == optional_field(t.region)
    &&& text_option_view(c.farm) == optional_field(t.farm)
    &&& text_option_view(c.producer) == optional_field(t.producer)
    &&& list_option_view(c.varietals) == varietals_from(t.varietals)
    &&& c.altitude_m == optional_altitude(t.altitude_m).unwrap()
    &&& c.altitude_lower_m == optional_altitude(t.altitude_lower_m).unwrap()
    &&& c.altitude_upper_m == optional_altitude(t.altitude_upper_m).unwrap()
    &&& text_option_view(c.process) == optional_field(t.process)
    &&& c.roast_level == roast_level_from(lowercase(t.roast_level)).unwrap()
    &&& c.tasting_notes.deep_view() == split_text(t.tasting_notes, ';')
    &&& c.decaf == (t.decaf.len() > 0)
}

fn altitude_of(s: &str) -> (res: Option<Option<u16>>)
    ensures
        res == optional_altitude(s@),
{
    match none_if_empty(s) {
        None => Some(None),
        Some(t) => match parse_u16(t.as_str()) {
            Some(v) => Some(Some(v)),
            None => None,
        },
    }
}

fn varietals_of(s: &str) -> (res: Option<Vec<String>>)
    ensures
        list_option_view(res) == varietals_from(s@),
{
    match none_if_empty(s) {
        None => None,
        Some(t) => Some(split_on(t.as_str(), ';')),
    }
}

fn text_field(s: &str) -> (res: Option<String>)
    ensures
        text_option_view(res) == optional_field(s@),
{
    none_if_empty(s)
}

/// What a coffee read from field texts that all read holds, field by field: roaster and
/// name as given; each optional text (country, region, farm, producer,
/// process) absent exactly when its field is empty and otherwise the field's
/// text; varietals absent for an empty field and otherwise the field cut at
/// `;`; each altitude absent for an empty field and otherwise the number the
/// field spells; tasting notes the field cut at `;`; decaf exactly when its
/// field is not empty; kind and roast level the ones the fields name in any
/// case.
pub proof fn lemma_coffee_fields(c: Coffee, t: CoffeeText)
    requires
        coffee_defect(t) is None,
        coffee_from(c, t),
    ensures
        c.roaster@ == t.roaster,
        c.name@ == t.name,
        coffee_kind_from(lowercase(t.kind)) == Some(c.kind),
        roast_level_from(lowercase(t.roast_level)) == Some(c.roast_level),
        (c.country is None) == (t.country.len() == 0),
        c.country matches Some(x) ==> x@ == t.country,
        (c.region is None) == (t.region.len() == 0),
        c.region matches Some(x) ==> x@ == t.region,
        (c.farm is None) == (t.farm.len() == 0),
        c.farm matches Some(x) ==> x@ == t.farm,
        (c.producer is None) == (t.producer.len() == 0),
        c.producer matches Some(x) ==> x@ == t.producer,
        (c.process is None) == (t.process.len() == 0),
        c.process matches Some(x) ==> x@ == t.process,
        (c.varietals is None) == (t.varietals.len() == 0),
        c.varietals matches Some(x) ==> x.deep_view() == split_text(t.varietals, ';'),
        (c.altitude_m is None) == (t.altitude_m.len() == 0),
        c.altitude_m matches Some(a) ==> parsed_unsigned(t.altitude_m, 65535) == Some(a as nat),
        (c.altitude_lower_m is None) == (t.altitude_lower_m.len() == 0),
        c.altitude_lower_m matches Some(a) ==> parsed_unsigned(t.altitude_lower_m, 65535) == Some(
            a as nat,
        ),
        (c.altitude_upper_m is None) == (t.altitude_upper_m.len() == 0),
        c.altitude_upper_m matches Some(a) ==> parsed_unsigned(t.altitude_upper_m, 65535) == Some(
            a as nat,
        ),
        c.tasting_notes.deep_view() == split_text(t.tasting_notes, ';'),
        c.decaf == (t.decaf.len() > 0),
{
}

/// Finds the first field of `soul` that makes reading it panic.
pub fn defect(soul: &CoffeeSoul) -> (res: Option<CoffeeDefect>)
    ensures
        res == coffee_defect(soul@),
{
    if CoffeeKind::from_str(soul.kind.as_str()).is_err() {
        Some(CoffeeDefect::Kind)
    } else if altitude_of(soul.altitude_m.as_str()).is_none() {
        Some(CoffeeDefect::AltitudeM)
    } else if altitude_of(soul.altitude_lower_m.as_str()).is_none() {
        Some(CoffeeDefect::AltitudeLower)
    } else if altitude_of(soul.altitude_upper_m.as_str()).is_none() {
        Some(CoffeeDefect::AltitudeUpper)
    } else if RoastLevel::from_str(soul.roast_level.as_str()).is_err() {
        Some(CoffeeDefect::RoastLevel)
    } else {
        None
    }
}

/// Reads a coffee from the text of its fields, stamped with the current time.
pub fn new(soul: CoffeeSoul) -> (res: Result<Coffee, BuildError>)
    requires
        coffee_defect(soul@) is None,
    ensures
        res matches Ok(c) && coffee_from(c, soul@),
{
    let kind = match CoffeeKind::from_str(soul.kind.as_str()) {
        Ok(k) => k,
        Err(()) => CoffeeKind::Blend,
    };
    let altitude_m = match altitude_of(soul.altitude_m.as_str()) {
        Some(a) => a,
        None => None,
    };
    let altitude_lower_m = match altitude_of(soul.altitude_lower_m.as_str()) {
        Some(a) => a,
        None => None,
    };
    let altitude_upper_m = match altitude_of(soul.altitude_upper_m.as_str()) {
        Some(a) => a,
        None => None,
    };
    let roast_level = match RoastLevel::from_str(soul.roast_level.as_str()) {
        Ok(r) => r,
        Err(()) => RoastLevel::Medium,
    };
    let c = Coffee {
        roaster: soul.roaster.clone(),
        name: soul.name.clone(),
        kind,
        country: text_field(soul.country.as_str()),
        region: text_field(soul.region.as_str()),
        farm: text_field(soul.farm.as_str()),
        producer: text_field(soul.producer.as_str()),
        varietals: varietals_of(soul.varietals.as_str()),
        altitude_m,
        altitude_lower_m,
        altitude_upper_m,
        process: text_field(soul.process.as_str()),
        roast_level,
        tasting_notes: split_on(soul.tasting_notes.as_str(), ';'),
        decaf: !soul.decaf.as_str().is_empty(),
        timestamp: Stamp::now(),
    };
    Ok(c)
}

/// `new`, or the field that would make it panic.
pub fn new_checked(soul: CoffeeSoul) -> (res: Result<Result<Coffee, BuildError>, CoffeeDefect>)
    ensures
        match res {
            Err(d) => coffee_defect(soul@) == Some(d),
            Ok(r) => coffee_defect(soul@) is None && (r matches Ok(c) && coffee_from(c, soul@)),
        },
{
    match defect(&soul) {
        Some(d) => Err(d),
        None => Ok(new(soul)),
    }
}

/// The record has a cell under every column that a coffee is read from.
pub open spec fn has_coffee_cells(record: csv::StringRecord, headers: csv::StringRecord) -> bool {
    &&& record_cell(record, headers, "roaster"@) is Some
    &&& record_cell(record, headers, "name"@) is Some
    &&& record_cell(record, headers, "kind"@) is Some
    &&& record_cell(record, headers, "country"@) is Some
    &&& record_cell(record, headers, "region"@) is Some
    &&& record_cell(record, headers, "farm"@) is Some
    &&& record_cell(record, headers, "producer"@) is Some
    &&& record_cell(record, headers, "varietals"@) is Some
    &&& record_cell(record, headers, "altitude_m"@) is Some
    &&& record_cell(record, headers, "altitude_lower_m"@) is Some
    &&& record_cell(record, headers, "altitude_upper_m"@) is Some
    &&& record_cell(record, headers, "process"@) is Some
    &&& record_cell(record, headers, "roast_level"@) is Some
    &&& record_cell(record, headers, "tasting_notes"@) is Some
    &&& record_cell(record, headers, "decaf"@) is Some
}

/// The field texts of a coffee in a CSV record: each field under the column
/// of its name.
pub open spec fn coffee_text_of(record: csv::StringRecord, headers: csv::StringRecord) -> CoffeeText {
    CoffeeText {
        roaster: cell_text(record, headers, "roaster"@),
        name: cell_text(record, headers, "name"@),
        kind: cell_text(record, headers, "kind"@),
        country: cell_text(record, headers, "country"@),
        region: cell_text(record, headers, "region"@),
        farm: cell_text(record, headers, "farm"@),
        producer: cell_text(record, headers, "producer"@),
        varietals: cell_text(record, headers, "varietals"@),
        altitude_m: cell_text(record, headers, "altitude_m"@),
        altitude_lower_m: cell_text(record, headers, "altitude_lower_m"@),
        altitude_upper_m: cell_text(record, headers, "altitude_upper_m"@),
        process: cell_text(record, headers, "process"@),
        roast_level: cell_text(record, headers, "roast_level"@),
        tasting_notes: cell_text(record, headers, "tasting_notes"@),
        decaf: cell_text(record, headers, "decaf"@),
    }
}

fn soul_of(record: &csv::StringRecord, headers: &csv::StringRecord) -> (res: CoffeeSoul)
    requires
        has_coffee_cells(*record, *headers),
    ensures
        res@ == coffee_text_of(*record, *headers),
{
    CoffeeSoul {
        roaster: required_cell(record, headers, "roaster"),
        name: required_cell(record, headers, "name"),
        kind: required_cell(record, headers, "kind"),
        country: required_cell(record, headers, "country"),
        region: required_cell(record, headers, "region"),
        farm: required_cell(record, headers, "farm"),
        producer: required_cell(record, headers, "producer"),
        varietals: required_cell(record, headers, "varietals"),
        altitude_m: required_cell(record, headers, "altitude_m"),
        altitude_lower_m: required_cell(record, headers, "altitude_lower_m"),
        altitude_upper_m: required_cell(record, headers, "altitude_upper_m"),
        process: required_cell(record, headers, "process"),
        roast_level: required_cell(record, headers, "roast_level"),
        tasting_notes: required_cell(record, headers, "tasting_notes"),
        decaf: required_cell(record, headers, "decaf"),
    }
}

/// Reads a coffee from a CSV record whose columns are named by `headers`.
pub fn new_csv(record: &csv::StringRecord, headers: &csv::StringRecord) -> (res: Result<
    Coffee,
    BuildError,
>)
    requires
        has_coffee_cells(*record, *headers),
        coffee_defect(coffee_text_of(*record, *headers)) is None,
    ensures
        res matches Ok(c) && coffee_from(c, coffee_text_of(*record, *headers)),
{
    new(soul_of(record, headers))
}

fn has_cells(record: &csv::StringRecord, headers: &csv::StringRecord) -> (res: bool)
    ensures
        res == has_coffee_cells(*record, *headers),
{
    let a = crate::record::cell(record, headers, "roaster").is_some();
    let b = crate::record::cell(record, headers, "name").is_some();
    let c = crate::record::cell(record, headers, "kind").is_some();
    let d = crate::record::cell(record, headers, "country").is_some();
    let e = crate::record::cell(record, headers, "region").is_some();
    let f = crate::record::cell(record, headers, "farm").is_some();
    let g = crate::record::cell(record, headers, "producer").is_some();
    let h = crate::record::cell(record, headers, "varietals").is_some();
    let i = crate::record::cell(record, headers, "altitude_m").is_some();
    let j = crate::record::cell(record, headers, "altitude_lower_m").is_some();
    let k = crate::record::cell(record, headers, "altitude_upper_m").is_some();
    let l = crate::record::cell(record, headers, "process").is_some();
    let m = crate::record::cell(record, headers, "roast_level").is_some();
    let n = crate::record::cell(record, headers, "tasting_notes").is_some();
    let o = crate::record::cell(record, headers, "decaf").is_some();
    a && b && c && d && e && f && g && h && i && j && k && l && m && n && o
}

/// `new_csv`, or why it would panic: a missing cell or the first field that
/// does not read.
pub fn new_csv_checked(record: &csv::StringRecord, headers: &csv::StringRecord) -> (res: Result<
    Result<Coffee, BuildError>,
    CoffeeDefect,
>)
    ensures
        match res {
            Err(CoffeeDefect::MissingCell) => !has_coffee_cells(*record, *headers),
            Err(d) => has_coffee_cells(*record, *headers) && coffee_defect(
                coffee_text_of(*record, *headers),
            ) == Some(d),
            Ok(r) => has_coffee_cells(*record, *headers) && coffee_defect(
                coffee_text_of(*record, *headers),
            ) is None && (r matches Ok(c) && coffee_from(c, coffee_text_of(*record, *headers))),
        },
{
    if !has_cells(record, headers) {
        return Err(CoffeeDefect::MissingCell);
    }
    match defect(&soul_of(record, headers)) {
        Some(d) => Err(d),
        None => Ok(new_csv(record, headers)),
    }
}

/// A stored value is offered for the lowercased input `needle` when it is
/// not empty and its lowercase contains `needle`.
pub open spec fn offered(value: Seq<char>, needle: Seq<char>) -> bool {
    value.len() > 0 && contains_text(lowercase(value), needle)
}

/// The distinct offered values among `rows`, in order of first appearance.
pub open spec fn offered_values(rows: Seq<Seq<char>>, needle: Seq<char>) -> Seq<Seq<char>>
    decreases rows.len(),
{
    if rows.len() == 0 {
        Seq::empty()
    } else {
        let prev = offered_values(rows.drop_last(), needle);
        let x = rows.last();
        if offered(x, needle) && !prev.contains(x) {
            prev.push(x)
        } else {
            prev
        }
    }
}

/// The suggestions for `needle`: the first five distinct offered values.
pub open spec fn suggestion_list(rows: Seq<Seq<char>>, needle: Seq<char>) -> Seq<Seq<char>> {
    let all = offered_values(rows, needle);
    if all.len() <= 5 {
        all
    } else {
        all.take(5)
    }
}

/// The offered values of a shorter prefix of the rows begin the offered
/// values of a longer one.
pub proof fn lemma_offered_prefix(rows: Seq<Seq<char>>, needle: Seq<char>, i: int, j: int)
    requires
        0 <= i <= j <= rows.len(),
    ensures
        offered_values(rows.take(i), needle).len() <= offered_values(rows.take(j), needle).len(),
        offered_values(rows.take(j), needle).take(
            offered_values(rows.take(i), needle).len() as int,
        ) == offered_values(rows.take(i), needle),
    decreases j - i,
{
    let a = offered_values(rows.take(i), needle);
    if i == j {
        assert(a.take(a.len() as int) =~= a);
    } else {
        lemma_offered_prefix(rows, needle, i, j - 1);
        assert(rows.take(j).drop_last() =~= rows.take(j - 1));
        let b = offered_values(rows.take(j - 1), needle);
        let c = offered_values(rows.take(j), needle);
        assert(c.take(a.len() as int) =~= b.take(a.len() as int));
    }
}

/// The offered values hold no value twice, only offered values from the
/// rows, and every offered row.
pub proof fn lemma_offered_values(rows: Seq<Seq<char>>, needle: Seq<char>)
    ensures
        offered_values(rows, needle).no_duplicates(),
        forall|i: int|
            0 <= i < offered_values(rows, needle).len() ==> offered(
                #[trigger] offered_values(rows, needle)[i],
                needle,
            ) && rows.contains(offered_values(rows, needle)[i]),
        forall|j: int|
            0 <= j < rows.len() && offered(#[trigger] rows[j], needle) ==> offered_values(
                rows,
                needle,
            ).contains(rows[j]),
    decreases rows.len(),
{
    if rows.len() > 0 {
        let d = rows.drop_last();
        lemma_offered_values(d, needle);
        let prev = offered_values(d, needle);
        let cur = offered_values(rows, needle);
        let x = rows.last();
        assert forall|i: int| 0 <= i < cur.len() implies offered(#[trigger] cur[i], needle)
            && rows.contains(cur[i]) by {
            if i < prev.len() {
                assert(cur[i] == prev[i]);
                let k = choose|k: int| 0 <= k < d.len() && d[k] == prev[i];
                assert(rows[k] == d[k]);
            } else {
                assert(cur[i] == x);
                assert(rows[rows.len() - 1] == x);
            }
        }
        assert forall|j: int| 0 <= j < rows.len() && offered(#[trigger] rows[j], needle) implies cur.contains(
            rows[j],
        ) by {
            if j < rows.len() - 1 {
                assert(d[j] == rows[j]);
                assert(prev.contains(rows[j]));
                let k = choose|k: int| 0 <= k < prev.len() && prev[k] == rows[j];
                assert(cur[k] == prev[k]);
            } else {
                if prev.contains(x) {
                    let k = choose|k: int| 0 <= k < prev.len() && prev[k] == x;
                    assert(cur[k] == prev[k]);
                } else {
                    assert(cur[cur.len() - 1] == x);
                }
            }
        }
    }
}

/// The suggestions are at most five, hold no value twice, and are values of
/// the rows that are offered for the needle; when there are fewer than five,
/// every offered row is among them.
pub proof fn lemma_suggestions(rows: Seq<Seq<char>>, needle: Seq<char>)
    ensures
        suggestion_list(rows, needle).len() <= 5,
        suggestion_list(rows, needle).no_duplicates(),
        forall|i: int|
            0 <= i < suggestion_list(rows, needle).len() ==> offered(
                #[trigger] suggestion_list(rows, needle)[i],
                needle,
            ) && rows.contains(suggestion_list(rows, needle)[i]),
        suggestion_list(rows, needle).len() < 5 ==> forall|j: int|
            0 <= j < rows.len() && offered(#[trigger] rows[j], needle) ==> suggestion_list(
                rows,
                needle,
            ).contains(rows[j]),
{
    lemma_offered_values(rows, needle);
    let all = offered_values(rows, needle);
    let s = suggestion_list(rows, needle);
    if all.len() > 5 {
        assert forall|i: int| 0 <= i < s.len() implies offered(#[trigger] s[i], needle)
            && rows.contains(s[i]) by {
            assert(s[i] == all[i]);
        }
        assert forall|a: int, b: int| 0 <= a < s.len() && 0 <= b < s.len() && a != b implies s[a]
            != s[b] by {
            assert(s[a] == all[a]);
            assert(s[b] == all[b]);
        }
    }
}

/// A query for autocompletion suggestions: the statement that reads the
/// stored values, and the lowercased input they are matched against.
pub struct SuggestionQuery {
    pub sql: String,
    pub needle: String,
}

/// The query that suggests values of one column: `sql` reads them, `input`
/// is matched in lowercase.
pub fn suggestor(input: &str, sql: &str) -> (res: SuggestionQuery)
    ensures
        res.sql@ == sql@,
        res.needle@ == lowercase(input@),
        all_ascii(input@) ==> res.needle@ == input@.map_values(|c: char| ascii_lower(c)),
{
    let needle = to_lowercase(input);
    SuggestionQuery { sql: sql.to_owned(), needle }
}

/// Suggestions of roasters for `input`.
pub fn roaster_suggestor(input: &str) -> (res: SuggestionQuery)
    ensures
        res.sql@ == "SELECT roaster FROM coffee"@,
        res.needle@ == lowercase(input@),
        all_ascii(input@) ==> res.needle@ == input@.map_values(|c: char| ascii_lower(c)),
{
    suggestor(input, "SELECT roaster FROM coffee")
}

/// Suggestions of countries for `input`.
pub fn country_suggestor(input: &str) -> (res: SuggestionQuery)
    ensures
        res.sql@ == "SELECT country FROM coffee"@,
        res.needle@ == lowercase(input@),
        all_ascii(input@) ==> res.needle@ == input@.map_values(|c: char| ascii_lower(c)),
{
    suggestor(input, "SELECT country FROM coffee")
}

/// Suggestions of regions for `input`.
pub fn region_suggestor(input: &str) -> (res: SuggestionQuery)
    ensures
        res.sql@ == "SELECT region FROM coffee"@,
        res.needle@ == lowercase(input@),
        all_ascii(input@) ==> res.needle@ == input@.map_values(|c: char| ascii_lower(c)),
{
    suggestor(input, "SELECT region FROM coffee")
}

/// Suggestions of farms for `input`.
pub fn farm_suggestor(input: &str) -> (res: SuggestionQuery)
    ensures
        res.sql@ == "SELECT farm FROM coffee"@,
        res.needle@ == lowercase(input@),
        all_ascii(input@) ==> res.needle@ == input@.map_values(|c: char| ascii_lower(c)),
{
    suggestor(input, "SELECT farm FROM coffee")
}

/// Suggestions of producers for `input`.
pub fn producer_suggestor(input: &str) -> (res: SuggestionQuery)
    ensures
        res.sql@ == "SELECT producer FROM coffee"@,
        res.needle@ == lowercase(input@),
        all_ascii(input@) ==> res.needle@ == input@.map_values(|c: char| ascii_lower(c)),
{
    suggestor(input, "SELECT producer FROM coffee")
}

/// Whether `value`, whose lowercase is `lowered`, is offered for `needle`.
pub fn is_offered(value: &str, lowered: &str, needle: &str) -> (res: bool)
    ensures
        res == (value@.len() > 0 && contains_text(lowered@, needle@)),
{
    !value.is_empty() && contains(lowered, needle)
}

fn holds_value(found: &Vec<String>, value: &String) -> (res: bool)
    ensures
        res == found.deep_view().contains(value@),
{
    let n = found.len();
    let mut i: usize = 0;
    while i < n
        invariant
            n == found@.len(),
            i <= n,
            forall|k: int| 0 <= k < i ==> found.deep_view()[k] != value@,
        decreases n - i,
    {
        assert(found.deep_view()[i as int] == found@[i as int]@);
        if same_text(found[i].as_str(), value.as_str()) {
            assert(found.deep_view()[i as int] == value@);
            return true;
        }
        i += 1;
    }
    false
}

impl SuggestionQuery {
    /// The suggestions among the stored values `rows`: the first five
    /// distinct non-empty values whose lowercase contains the needle.
    pub fn suggestions(&self, rows: Vec<String>) -> (res: Vec<String>)
        ensures
            res.deep_view() == suggestion_list(rows.deep_view(), self.needle@),
            forall|j: int|
                0 <= j < rows@.len() ==> keeps_ascii_runs(
                    #[trigger] rows.deep_view()[j],
                    lowercase(rows.deep_view()[j]),
                ),
    {
        let ghost dv = rows.deep_view();
        let ghost needle = self.needle@;
        let n = rows.len();
        let mut out: Vec<String> = Vec::new();
        let mut i: usize = 0;
        assert(dv.take(0) =~= Seq::<Seq<char>>::empty());
        assert(out.deep_view() =~= suggestion_list(dv.take(0), needle));
        while i < n
            invariant
                n == rows@.len(),
                dv == rows.deep_view(),
                needle == self.needle@,
                i <= n,
                out.deep_view() == suggestion_list(dv.take(i as int), needle),
                forall|j: int| 0 <= j < i ==> keeps_ascii_runs(#[trigger] dv[j], lowercase(dv[j])),
            decreases n - i,
        {
            let row = &rows[i];
            let ghost a = offered_values(dv.take(i as int), needle);
            let ghost b = offered_values(dv.take(i + 1), needle);
            assert(dv[i as int] == row@);
            assert(dv.take(i + 1).drop_last() =~= dv.take(i as int));
            assert(dv.take(i + 1).last() == row@);
            assert(b == (if offered(row@, needle) && !a.contains(row@) {
                a.push(row@)
            } else {
                a
            }));
            let lowered = to_lowercase(row.as_str());
            let ghost before = out.deep_view();
            if out.len() < 5 && is_offered(row.as_str(), lowered.as_str(), self.needle.as_str())
                && !holds_value(&out, row) {
                out.push(row.clone());
                assert(out.deep_view() =~= before.push(row@));
            }
            proof {
                if before.len() < 5 {
                    assert(before == a);
                } else {
                    assert(a.len() >= 5);
                    assert(b.take(5) =~= a.take(5));
                }
            }
            i += 1;
        }
        assert(dv.take(n as int) =~= dv);
        out
    }
}

} // verus!
