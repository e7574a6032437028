//! Brewing equipment: brewers and grinders.

use vstd::prelude::*;
use crate::error::{BuildError, timestamp_error, number_error};
use crate::record::{record_cell, cell_text, required_cell};
use crate::sql::{
    insert_sql,
    insert_statement,
    lemma_decimal_unquoted,
    lemma_insert_reads_back,
    lemma_insert_value,
    no_quote,
    sql_values,
};
use crate::stamp::{
    Stamp,
    stamp_text,
    optional_stamp_text,
    optional_text,
    midnight_text,
    optional_day,
    parse_day,
    read_optional_day,
    stamp_option_view,
    timestamp_parse,
};
use crate::text::{
    ascii_lower,
    decimal,
    decimal_text,
    lowercase,
    none_if_empty,
    parse_u32,
    parsed_unsigned,
    same_text,
    to_lowercase,
};

verus! {

/// What a piece of equipment is for.
#[derive(Clone, Copy, Debug, PartialEq, Eq, Structural)]
pub enum EquipmentKind {
    Brewer,
    Grinder,
}

/// The kind that a lowercased name stands for.
pub open spec fn equipment_kind_from(lower: Seq<char>) -> Option<EquipmentKind> {
    if lower == "grinder"@ {
        Some(EquipmentKind::Grinder)
    } else if lower == "brewer"@ {
        Some(EquipmentKind::Brewer)
    } else {
        None
    }
}

/// How a kind is displayed: its variant name.
pub open spec fn equipment_kind_text(k: EquipmentKind) -> Seq<char> {
    match k {
        EquipmentKind::Brewer => "Brewer"@,
        EquipmentKind::Grinder => "Grinder"@,
    }
}

/// How a kind is stored: its name in lowercase.
pub open spec fn equipment_kind_label(k: EquipmentKind) -> Seq<char> {
    match k {
        EquipmentKind::Brewer => "brewer"@,
        EquipmentKind::Grinder => "grinder"@,
    }
}

/// The name a kind is stored under names that kind again.
pub proof fn lemma_label_names_kind(k: EquipmentKind)
    ensures
        equipment_kind_from(equipment_kind_label(k)) == Some(k),
{
    reveal_strlit("brewer");
    reveal_strlit("grinder");
    assert("brewer"@.len() == 6);
    assert("grinder"@.len() == 7);
}

impl Default for EquipmentKind {
    fn default() -> (res: EquipmentKind)
        ensures
            res == EquipmentKind::Brewer,
    {
        EquipmentKind::Brewer
    }
}

impl EquipmentKind {
    /// The kind named by an already lowercased text; `Err` for any other text.
    pub fn from_lowercase(lower: &str) -> (res: Result<EquipmentKind, ()>)
        ensures
            match equipment_kind_from(lower@) {
                Some(k) => res == Ok::<EquipmentKind, ()>(k),
                None => res is Err,
            },
    {
        if same_text(lower, "grinder") {
            Ok(EquipmentKind::Grinder)
        } else if same_text(lower, "brewer") {
            Ok(EquipmentKind::Brewer)
        } else {
            Err(())
        }
    }

    /// The kind named by `s`, whatever its case.
    pub fn from_str(s: &str) -> (res: Result<EquipmentKind, ()>)
        ensures
            match equipment_kind_from(lowercase(s@)) {
                Some(k) => res == Ok::<EquipmentKind, ()>(k),
                None => res is Err,
            },
    {
        let lower = to_lowercase(s);
        EquipmentKind::from_lowercase(lower.as_str())
    }

    /// The displayed name: `Brewer` or `Grinder`.
    pub fn to_string(&self) -> (res: String)
        ensures
            res@ == equipment_kind_text(*self),
    {
        match self {
            EquipmentKind::Brewer => "Brewer".to_owned(),
            EquipmentKind::Grinder => "Grinder".to_owned(),
        }
    }

    /// The stored name: the displayed name in lowercase.
    pub fn label(&self) -> (res: String)
        ensures
            res@ == equipment_kind_label(*self),
    {
        let shown = self.to_string();
        let res = to_lowercase(shown.as_str());
        proof {
            reveal_strlit("Brewer");
            reveal_strlit("Grinder");
            reveal_strlit("brewer");
            reveal_strlit("grinder");
            assert(crate::text::all_ascii(shown@));
            assert(shown@.map_values(|c: char| ascii_lower(c)) =~= equipment_kind_label(*self));
        }
        res
    }
}

/// A brewer or grinder with its purchase and retirement dates and its price
/// in cents.
#[derive(Debug)]
pub struct Equipment {
    pub name: String,
    pub kind: EquipmentKind,
    pub price_ct: u32,
    pub purchase_date: Stamp,
    pub decommission_date: Option<Stamp>,
    pub timestamp: Stamp,
}

/// The opening of the statement that stores equipment.
pub open spec fn equipment_head() -> Seq<char> {
    "INSERT INTO equipment (name, kind, purchase_date, decommission_date, price_ct, timestamp) \n                VALUES ("@
}

/// The statement that stores `e`: name, stored kind, purchase date,
/// retirement date (empty when there is none), price in cents and timestamp.
pub open spec fn equipment_sql(e: Equipment) -> Seq<char> {
    insert_sql(
        equipment_head(),
        seq![
            e.name@,
            equipment_kind_label(e.kind),
            stamp_text(e.purchase_date),
            optional_stamp_text(e.decommission_date),
            decimal(e.price_ct as nat),
            stamp_text(e.timestamp),
        ],
    )
}

impl Equipment {
    /// The SQL statement that stores this equipment.
    pub fn to_sql(&self) -> (res: String)
        ensures
            res@ == equipment_sql(*self),
    {
        let mut values: Vec<String> = Vec::new();
        values.push(self.name.clone());
        values.push(self.kind.label());
        values.push(self.purchase_date.to_text());
        values.push(optional_text(&self.decommission_date));
        values.push(decimal_text(self.price_ct as u64));
        values.push(self.timestamp.to_text());
        let res = insert_statement(
            "INSERT INTO equipment (name, kind, purchase_date, decommission_date, price_ct, timestamp) \n                VALUES (",
            &values,
        );
        assert(values.deep_view() =~= seq![
            self.name@,
            equipment_kind_label(self.kind),
            stamp_text(self.purchase_date),
            optional_stamp_text(self.decommission_date),
            decimal(self.price_ct as nat),
            stamp_text(self.timestamp),
        ]);
        res
    }
}

/// Reading back the statement that stores equipment gives each field under
/// its own column: name, stored kind, purchase date, retirement date (empty
/// exactly when there is none), price in cents and timestamp. This holds
/// while no text written before a column holds a single quote, since values
/// are written without escaping.
pub proof fn lemma_equipment_sql_columns(e: Equipment)
    requires
        no_quote(e.name@),
        no_quote(stamp_text(e.purchase_date)),
        no_quote(optional_stamp_text(e.decommission_date)),
    ensures
        ({
            let v = sql_values(equipment_sql(e), equipment_head());
            &&& v.len() >= 5
            &&& v[0] == e.name@
            &&& v[1] == equipment_kind_label(e.kind)
            &&& v[2] == stamp_text(e.purchase_date)
            &&& v[3] == (match e.decommission_date {
                Some(d) => stamp_text(d),
                None => Seq::<char>::empty(),
            })
            &&& v[4] == decimal(e.price_ct as nat)
            &&& no_quote(stamp_text(e.timestamp)) ==> v.len() == 6 && v[5] == stamp_text(
                e.timestamp,
            )
        }),
{
    let vals = seq![
        e.name@,
        equipment_kind_label(e.kind),
        stamp_text(e.purchase_date),
        optional_stamp_text(e.decommission_date),
        decimal(e.price_ct as nat),
        stamp_text(e.timestamp),
    ];
    assert(equipment_sql(e) == insert_sql(equipment_head(), vals));
    reveal_strlit("brewer");
    reveal_strlit("grinder");
    assert(no_quote(vals[1]));
    lemma_decimal_unquoted(e.price_ct as nat);
    let v = sql_values(insert_sql(equipment_head(), vals), equipment_head());
    assert forall|k: int| 0 <= k < 5 implies k < v.len() && #[trigger] v[k] == vals[k] by {
        lemma_insert_value(equipment_head(), vals, k);
    }
    assert(v[0] == vals[0] && v[1] == vals[1] && v[2] == vals[2]);
    assert(v[3] == vals[3] && v[4] == vals[4]);
    if no_quote(stamp_text(e.timestamp)) {
        lemma_insert_reads_back(equipment_head(), vals);
    }
}

impl Default for Equipment {
    fn default() -> (res: Equipment)
        ensures
            res.name@ == Seq::<char>::empty(),
            res.kind == EquipmentKind::Brewer,
            res.price_ct == 0,
            res.purchase_date@ == (0i64, 0i32),
            res.decommission_date is None,
            res.timestamp@ == (0i64, 0i32),
    {
        Equipment {
            name: String::new(),
            kind: EquipmentKind::Brewer,
            price_ct: 0,
            purchase_date: Stamp::epoch(),
            decommission_date: None,
            timestamp: Stamp::epoch(),
        }
    }
}

/// Blank equipment: no name, a brewer, free, bought and recorded at the Unix
/// epoch, never retired.
pub fn new() -> (res: Equipment)
    ensures
        res.name@ == Seq::<char>::empty(),
        res.kind == EquipmentKind::Brewer,
        res.price_ct == 0,
        res.purchase_date@ == (0i64, 0i32),
        res.decommission_date is None,
        res.timestamp@ == (0i64, 0i32),
{
    Equipment::default()
}

/// The text of each field of a piece of equipment, as entered.
pub struct EquipmentSoul {
    pub name: String,
    pub kind: String,
    pub purchase_date: String,
    pub decommission_date: String,
    pub price_ct: String,
}

/// The kind text names a kind (in any case); building panics otherwise.
pub open spec fn kind_parses(kind: Seq<char>) -> bool {
    equipment_kind_from(lowercase(kind)) is Some
}

/// `res` is what building equipment from these field texts gives: the first
/// field that does not read (purchase date, retirement date, price) is the
/// error; otherwise the equipment carries the name, the kind, both dates read
/// as midnight UTC of the given day, and the price, stamped with some instant.
pub open spec fn equipment_built(
    res: Result<Equipment, BuildError>,
    name: Seq<char>,
    kind: Seq<char>,
    purchase: Seq<char>,
    decommission: Seq<char>,
    price: Seq<char>,
) -> bool {
    let p = timestamp_parse(midnight_text(purchase));
    let d = optional_day(decommission);
    let c = parsed_unsigned(price, 0xffff_ffff);
    match res {
        Err(e) => if p is None {
            timestamp_error(e, midnight_text(purchase))
        } else if d is None {
            timestamp_error(e, midnight_text(decommission))
        } else if c is None {
            number_error(e, price)
        } else {
            false
        },
        Ok(x) => {
            &&& p is Some
            &&& d is Some
            &&& c is Some
            &&& x.name@ == name
            &&& x.kind == equipment_kind_from(lowercase(kind)).unwrap()
            &&& x.purchase_date@ == p.unwrap()
            &&& stamp_option_view(x.decommission_date) == d.unwrap()
            &&& x.price_ct == c.unwrap()
        },
    }
}

/// What building equipment whose kind names a kind gives: equipment exactly
/// when the purchase date reads, the retirement date is empty or reads, and
/// the price is a number that fits 32 bits. It carries the name as given,
/// the kind the text names in any case, the purchase date at midnight UTC of
/// its day, no retirement date for an empty field and otherwise midnight UTC
/// of the day the field names, and the price the field spells.
pub proof fn lemma_equipment_fields(
    res: Result<Equipment, BuildError>,
    name: Seq<char>,
    kind: Seq<char>,
    purchase: Seq<char>,
    decommission: Seq<char>,
    price: Seq<char>,
)
    requires
        kind_parses(kind),
        equipment_built(res, name, kind, purchase, decommission, price),
    ensures
        (res is Ok) == (timestamp_parse(midnight_text(purchase)) is Some && (decommission.len()
            == 0 || timestamp_parse(midnight_text(decommission)) is Some) && parsed_unsigned(
            price,
            0xffff_ffff,
        ) is Some),
        res matches Ok(x) ==> {
            &&& x.name@ == name
            &&& equipment_kind_from(lowercase(kind)) == Some(x.kind)
            &&& timestamp_parse(midnight_text(purchase)) == Some(x.purchase_date@)
            &&& (x.decommission_date is None) == (decommission.len() == 0)
            &&& (x.decommission_date matches Some(d) ==> timestamp_parse(
                midnight_text(decommission),
            ) == Some(d@))
            &&& parsed_unsigned(price, 0xffff_ffff) == Some(x.price_ct as nat)
        },
{
}

/// Builds equipment from the text of its fields; the kind must name a kind.
pub fn build(soul: EquipmentSoul) -> (res: Result<Equipment, BuildError>)
    requires
        kind_parses(soul.kind@),
    ensures
        equipment_built(
            res,
            soul.name@,
            soul.kind@,
            soul.purchase_date@,
            soul.decommission_date@,
            soul.price_ct@,
        ),
{
    let kind = match EquipmentKind::from_str(soul.kind.as_str()) {
        Ok(k) => k,
        Err(()) => EquipmentKind::Brewer,
    };
    let purchase_date = match parse_day(soul.purchase_date.as_str()) {
        Some(t) => t,
        None => {
            let mut shown = soul.purchase_date.clone();
            shown.append("T00:00:00Z");
            return Err(BuildError::Timestamp(shown));
        },
    };
    let decommission_date = match read_optional_day(soul.decommission_date.as_str()) {
        Ok(d) => d,
        Err(e) => return Err(e),
    };
    let price_ct = match parse_u32(soul.price_ct.as_str()) {
        Some(v) => v,
        None => return Err(BuildError::Number(soul.price_ct.clone())),
    };
    Ok(
        Equipment {
            name: soul.name,
            kind,
            price_ct,
            purchase_date,
            decommission_date,
            timestamp: Stamp::now(),
        },
    )
}

/// Where building equipment would panic on the kind, says so with `None`;
/// otherwise gives what `build` gives.
pub fn build_checked(soul: EquipmentSoul) -> (res: Option<Result<Equipment, BuildError>>)
    ensures
        match res {
            None => !kind_parses(soul.kind@),
            Some(r) => kind_parses(soul.kind@) && equipment_built(
                r,
                soul.name@,
                soul.kind@,
                soul.purchase_date@,
                soul.decommission_date@,
                soul.price_ct@,
            ),
        },
{
    match EquipmentKind::from_str(soul.kind.as_str()) {
        Ok(_) => Some(build(soul)),
        Err(()) => None,
    }
}

/// The record has a cell under every column that equipment is read from
/// (building from CSV panics otherwise).
pub open spec fn has_equipment_cells(record: csv::StringRecord, headers: csv::StringRecord) -> bool {
    &&& record_cell(record, headers, "name"@) is Some
    &&& record_cell(record, headers, "kind"@) is Some
    &&& record_cell(record, headers, "purchase_date"@) is Some
    &&& record_cell(record, headers, "decomission_date"@) is Some
    &&& record_cell(record, headers, "price_ct"@) is Some
}

/// Reads the fields of a piece of equipment from a CSV record.
fn soul_of(record: &csv::StringRecord, headers: &csv::StringRecord) -> (res: EquipmentSoul)
    requires
        has_equipment_cells(*record, *headers),
    ensures
        res.name@ == cell_text(*record, *headers, "name"@),
        res.kind@ == cell_text(*record, *headers, "kind"@),
        res.purchase_date@ == cell_text(*record, *headers, "purchase_date"@),
        res.decommission_date@ == cell_text(*record, *headers, "decomission_date"@),
        res.price_ct@ == cell_text(*record, *headers, "price_ct"@),
{
    EquipmentSoul {
        name: required_cell(record, headers, "name"),
        kind: required_cell(record, headers, "kind"),
        purchase_date: required_cell(record, headers, "purchase_date"),
        decommission_date: required_cell(record, headers, "decomission_date"),
        price_ct: required_cell(record, headers, "price_ct"),
    }
}

/// Builds equipment from a CSV record whose columns are named by `headers`.
pub fn build_csv(record: &csv::StringRecord, headers: &csv::StringRecord) -> (res: Result<
    Equipment,
    BuildError,
>)
    requires
        has_equipment_cells(*record, *headers),
        kind_parses(cell_text(*record, *headers, "kind"@)),
    ensures
        equipment_built(
            res,
            cell_text(*record, *headers, "name"@),
            cell_text(*record, *headers, "kind"@),
            cell_text(*record, *headers, "purchase_date"@),
            cell_text(*record, *headers, "decomission_date"@),
            cell_text(*record, *headers, "price_ct"@),
        ),
{
    build(soul_of(record, headers))
}

/// Why equipment cannot be read from a CSV record (the command panics on these).
#[derive(Debug, Clone, Copy, PartialEq, Eq, Structural)]
pub enum CsvDefect {
    /// A column is missing or the record does not reach it.
    MissingCell,
    /// The kind names no kind.
    Kind,
}

/// `build_csv`, or the reason it would panic.
pub fn build_csv_checked(record: &csv::StringRecord, headers: &csv::StringRecord) -> (res: Result<
    Result<Equipment, BuildError>,
    CsvDefect,
>)
    ensures
        match res {
            Err(CsvDefect::MissingCell) => !has_equipment_cells(*record, *headers),
            Err(CsvDefect::Kind) => has_equipment_cells(*record, *headers) && !kind_parses(
                cell_text(*record, *headers, "kind"@),
            ),
            Ok(r) => has_equipment_cells(*record, *headers) && kind_parses(
                cell_text(*record, *headers, "kind"@),
            ) && equipment_built(
                r,
                cell_text(*record, *headers, "name"@),
                cell_text(*record, *headers, "kind"@),
                cell_text(*record, *headers, "purchase_date"@),
                cell_text(*record, *headers, "decomission_date"@),
                cell_text(*record, *headers, "price_ct"@),
            ),
        },
{
    let names = crate::record::cell(record, headers, "name").is_some();
    let kinds = crate::record::cell(record, headers, "kind").is_some();
    let bought = crate::record::cell(record, headers, "purchase_date").is_some();
    let retired = crate::record::cell(record, headers, "decomission_date").is_some();
    let priced = crate::record::cell(record, headers, "price_ct").is_some();
    if !(names && kinds && bought && retired && priced) {
        return Err(CsvDefect::MissingCell);
    }
    let kind = required_cell(record, headers, "kind");
    if EquipmentKind::from_str(kind.as_str()).is_err() {
        return Err(CsvDefect::Kind);
    }
    Ok(build_csv(record, headers))
}

} // verus!
