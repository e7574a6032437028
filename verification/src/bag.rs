//! Bags of coffee: when one was roasted, opened and emptied, its weight and
//! its price.

use vstd::prelude::*;
use crate::error::{BuildError, timestamp_error, number_error};
use crate::lookup::{IdLookup, id_lookup};
use crate::record::{record_cell, cell_text, required_cell};
use crate::sql::{
    insert_sql,
    insert_statement,
    lemma_decimal_unquoted,
    lemma_insert_reads_back,
    lemma_insert_value,
    no_quote,
    sql_values,
};
use crate::stamp::{
    Stamp,
    stamp_text,
    optional_stamp_text,
    optional_text,
    midnight_text,
    optional_day,
    read_day,
    read_optional_day,
    stamp_option_view,
    timestamp_parse,
};
use crate::text::{decimal, decimal_text, parse_u16, parsed_unsigned};

verus! {

/// A bag of a stored coffee, weighed in grams and priced in cents.
#[derive(Debug)]
pub struct Bag {
    pub coffee_id: u32,
    pub roast_date: Stamp,
    pub open_date: Option<Stamp>,
    pub empty_date: Option<Stamp>,
    pub weight_g: u16,
    pub price_ct: u16,
    pub timestamp: Stamp,
}

/// The opening of the statement that stores a bag.
pub open spec fn bag_head() -> Seq<char> {
    "INSERT INTO bag (coffee_id, roast_date, open_date, empty_date, weight_g, price_ct, timestamp) \n            VALUES ("@
}

/// The statement that stores `b`; dates that are not set are empty.
pub open spec fn bag_sql(b: Bag) -> Seq<char> {
    insert_sql(
        bag_head(),
        seq![
            decimal(b.coffee_id as nat),
            stamp_text(b.roast_date),
            optional_stamp_text(b.open_date),
            optional_stamp_text(b.empty_date),
            decimal(b.weight_g as nat),
            decimal(b.price_ct as nat),
            stamp_text(b.timestamp),
        ],
    )
}

impl Bag {
    /// The SQL statement that stores this bag.
    pub fn to_sql(&self) -> (res: String)
        ensures
            res@ == bag_sql(*self),
    {
        let mut values: Vec<String> = Vec::new();
        values.push(decimal_text(self.coffee_id as u64));
        values.push(self.roast_date.to_text());
        values.push(optional_text(&self.open_date));
        values.push(optional_text(&self.empty_date));
        values.push(decimal_text(self.weight_g as u64));
        values.push(decimal_text(self.price_ct as u64));
        values.push(self.timestamp.to_text());
        let res = insert_statement(
            "INSERT INTO bag (coffee_id, roast_date, open_date, empty_date, weight_g, price_ct, timestamp) \n            VALUES (",
            &values,
        );
        assert(values.deep_view() =~= seq![
            decimal(self.coffee_id as nat),
            stamp_text(self.roast_date),
            optional_stamp_text(self.open_date),
            optional_stamp_text(self.empty_date),
            decimal(self.weight_g as nat),
            decimal(self.price_ct as nat),
            stamp_text(self.timestamp),
        ]);
        res
    }
}

/// Reading back the statement that stores a bag gives each field under its
/// own column: coffee id, roast date, open date, empty date, weight, price
/// and timestamp, a date that is not set reading as empty. This holds while
/// no text written before a column holds a single quote, since values are
/// written without escaping.
pub proof fn lemma_bag_sql_columns(b: Bag)
    requires
        no_quote(stamp_text(b.roast_date)),
        no_quote(optional_stamp_text(b.open_date)),
        no_quote(optional_stamp_text(b.empty_date)),
    ensures
        ({
            let v = sql_values(bag_sql(b), bag_head());
            &&& v.len() >= 6
            &&& v[0] == decimal(b.coffee_id as nat)
            &&& v[1] == stamp_text(b.roast_date)
            &&& v[2] == (match b.open_date {
                Some(d) => stamp_text(d),
                None => Seq::<char>::empty(),
            })
            &&& v[3] == (match b.empty_date {
                Some(d) => stamp_text(d),
                None => Seq::<char>::empty(),
            })
            &&& v[4] == decimal(b.weight_g as nat)
            &&& v[5] == decimal(b.price_ct as nat)
            &&& no_quote(stamp_text(b.timestamp)) ==> v.len() == 7 && v[6] == stamp_text(
                b.timestamp,
            )
        }),
{
    let vals = seq![
        decimal(b.coffee_id as nat),
        stamp_text(b.roast_date),
        optional_stamp_text(b.open_date),
        optional_stamp_text(b.empty_date),
        decimal(b.weight_g as nat),
        decimal(b.price_ct as nat),
        stamp_text(b.timestamp),
    ];
    assert(bag_sql(b) == insert_sql(bag_head(), vals));
    lemma_decimal_unquoted(b.coffee_id as nat);
    lemma_decimal_unquoted(b.weight_g as nat);
    lemma_decimal_unquoted(b.price_ct as nat);
    let v = sql_values(insert_sql(bag_head(), vals), bag_head());
    assert forall|k: int| 0 <= k < 6 implies k < v.len() && #[trigger] v[k] == vals[k] by {
        lemma_insert_value(bag_head(), vals, k);
    }
    assert(v[0] == vals[0] && v[1] == vals[1] && v[2] == vals[2]);
    assert(v[3] == vals[3] && v[4] == vals[4] && v[5] == vals[5]);
    if no_quote(stamp_text(b.timestamp)) {
        lemma_insert_reads_back(bag_head(), vals);
    }
}

/// The text of each field of a bag, as entered.
pub struct BagSoul {
    pub coffee_id: String,
    pub roast_date: String,
    pub open_date: String,
    pub empty_date: String,
    pub weight_g: String,
    pub price_ct: String,
}

/// The lookup that finds the stored coffee a bag belongs to.
pub fn coffee_lookup(soul: &BagSoul) -> (res: IdLookup)
    ensures
        res.sql@ == "SELECT id FROM coffee WHERE id = ?1"@,
        res.key@ == soul.coffee_id@,
{
    id_lookup("SELECT id FROM coffee WHERE id = ?1", soul.coffee_id.as_str())
}

/// `res` is what building a bag of coffee `coffee_id` from these field
/// texts gives: the first field that does not read (roast date, open date,
/// empty date, weight, price) is the error; otherwise the bag carries the
/// id, the dates read as midnight UTC of their days, weight and price.
pub open spec fn bag_built(
    res: Result<Bag, BuildError>,
    coffee_id: u32,
    roast: Seq<char>,
    opened: Seq<char>,
    emptied: Seq<char>,
    weight: Seq<char>,
    price: Seq<char>,
) -> bool {
    let r = timestamp_parse(midnight_text(roast));
    let o = optional_day(opened);
    let e = optional_day(emptied);
    let w = parsed_unsigned(weight, 65535);
    let p = parsed_unsigned(price, 65535);
    match res {
        Err(err) => if r is None {
            timestamp_error(err, midnight_text(roast))
        } else if o is None {
            timestamp_error(err, midnight_text(opened))
        } else if e is None {
            timestamp_error(err, midnight_text(emptied))
        } else if w is None {
            number_error(err, weight)
        } else if p is None {
            number_error(err, price)
        } else {
            false
        },
        Ok(b) => {
            &&& r is Some && o is Some && e is Some && w is Some && p is Some
            &&& b.coffee_id == coffee_id
            &&& b.roast_date@ == r.unwrap()
            &&& stamp_option_view(b.open_date) == o.unwrap()
            &&& stamp_option_view(b.empty_date) == e.unwrap()
            &&& b.weight_g == w.unwrap()
            &&& b.price_ct == p.unwrap()
        },
    }
}

/// What building a bag gives: a bag exactly when the roast date reads, the
/// open and empty dates are empty or read, and weight and price are numbers
/// that fit 16 bits. The bag belongs to the given coffee; its roast date is
/// midnight UTC of the roast day; its open and empty dates are absent for
/// an empty field and otherwise midnight UTC of the day the field names; its
/// weight and price are the numbers their fields spell.
pub proof fn lemma_bag_fields(
    res: Result<Bag, BuildError>,
    coffee_id: u32,
    roast: Seq<char>,
    opened: Seq<char>,
    emptied: Seq<char>,
    weight: Seq<char>,
    price: Seq<char>,
)
    requires
        bag_built(res, coffee_id, roast, opened, emptied, weight, price),
    ensures
        (res is Ok) == (timestamp_parse(midnight_text(roast)) is Some && (opened.len() == 0
            || timestamp_parse(midnight_text(opened)) is Some) && (emptied.len() == 0
            || timestamp_parse(midnight_text(emptied)) is Some) && parsed_unsigned(weight, 65535)
            is Some && parsed_unsigned(price, 65535) is Some),
        res matches Ok(b) ==> {
            &&& b.coffee_id == coffee_id
            &&& timestamp_parse(midnight_text(roast)) == Some(b.roast_date@)
            &&& (b.open_date is None) == (opened.len() == 0)
            &&& (b.open_date matches Some(d) ==> timestamp_parse(midnight_text(opened)) == Some(
                d@,
            ))
            &&& (b.empty_date is None) == (emptied.len() == 0)
            &&& (b.empty_date matches Some(d) ==> timestamp_parse(midnight_text(emptied)) == Some(
                d@,
            ))
            &&& parsed_unsigned(weight, 65535) == Some(b.weight_g as nat)
            &&& parsed_unsigned(price, 65535) == Some(b.price_ct as nat)
        },
{
}

fn read_u16(text: &str) -> (res: Result<u16, BuildError>)
    ensures
        match res {
            Ok(v) => parsed_unsigned(text@, 65535) == Some(v as nat),
            Err(e) => parsed_unsigned(text@, 65535) is None && number_error(e, text@),
        },
{
    match parse_u16(text) {
        Some(v) => Ok(v),
        None => Err(BuildError::Number(text.to_owned())),
    }
}

/// Builds a bag of the coffee stored under `coffee_id` from the text of its
/// fields, stamped with the current time.
pub fn build(soul: BagSoul, coffee_id: u32) -> (res: Result<Bag, BuildError>)
    ensures
        bag_built(
            res,
            coffee_id,
            soul.roast_date@,
            soul.open_date@,
            soul.empty_date@,
            soul.weight_g@,
            soul.price_ct@,
        ),
{
    let roast_date = match read_day(soul.roast_date.as_str()) {
        Ok(t) => t,
        Err(e) => return Err(e),
    };
    let open_date = match read_optional_day(soul.open_date.as_str()) {
        Ok(t) => t,
        Err(e) => return Err(e),
    };
    let empty_date = match read_optional_day(soul.empty_date.as_str()) {
        Ok(t) => t,
        Err(e) => return Err(e),
    };
    let weight_g = match read_u16(soul.weight_g.as_str()) {
        Ok(v) => v,
        Err(e) => return Err(e),
    };
    let price_ct = match read_u16(soul.price_ct.as_str()) {
        Ok(v) => v,
        Err(e) => return Err(e),
    };
    Ok(
        Bag {
            coffee_id,
            roast_date,
            open_date,
            empty_date,
            weight_g,
            price_ct,
            timestamp: Stamp::now(),
        },
    )
}

/// The record has a cell under every column that a bag is read from.
pub open spec fn has_bag_cells(record: csv::StringRecord, headers: csv::StringRecord) -> bool {
    &&& record_cell(record, headers, "coffee_id"@) is Some
    &&& record_cell(record, headers, "roast_date"@) is Some
    &&& record_cell(record, headers, "open_date"@) is Some
    &&& record_cell(record, headers, "empty_date"@) is Some
    &&& record_cell(record, headers, "weight_g"@) is Some
    &&& record_cell(record, headers, "price_ct"@) is Some
}

fn soul_of(record: &csv::StringRecord, headers: &csv::StringRecord) -> (res: BagSoul)
    requires
        has_bag_cells(*record, *headers),
    ensures
        res.coffee_id@ == cell_text(*record, *headers, "coffee_id"@),
        res.roast_date@ == cell_text(*record, *headers, "roast_date"@),
        res.open_date@ == cell_text(*record, *headers, "open_date"@),
        res.empty_date@ == cell_text(*record, *headers, "empty_date"@),
        res.weight_g@ == cell_text(*record, *headers, "weight_g"@),
        res.price_ct@ == cell_text(*record, *headers, "price_ct"@),
{
    BagSoul {
        coffee_id: required_cell(record, headers, "coffee_id"),
        roast_date: required_cell(record, headers, "roast_date"),
        open_date: required_cell(record, headers, "open_date"),
        empty_date: required_cell(record, headers, "empty_date"),
        weight_g: required_cell(record, headers, "weight_g"),
        price_ct: required_cell(record, headers, "price_ct"),
    }
}

/// The fields of a bag in a CSV record, or `None` when a column is missing or
/// the record does not reach it.
pub fn csv_soul(record: &csv::StringRecord, headers: &csv::StringRecord) -> (res: Option<BagSoul>)
    ensures
        match res {
            None => !has_bag_cells(*record, *headers),
            Some(s) => has_bag_cells(*record, *headers) && s.coffee_id@ == cell_text(
                *record,
                *headers,
                "coffee_id"@,
            ) && s.roast_date@ == cell_text(*record, *headers, "roast_date"@) && s.open_date@
                == cell_text(*record, *headers, "open_date"@) && s.empty_date@ == cell_text(
                *record,
                *headers,
                "empty_date"@,
            ) && s.weight_g@ == cell_text(*record, *headers, "weight_g"@) && s.price_ct@
                == cell_text(*record, *headers, "price_ct"@),
        },
{
    let a = crate::record::cell(record, headers, "coffee_id").is_some();
    let b = crate::record::cell(record, headers, "roast_date").is_some();
    let c = crate::record::cell(record, headers, "open_date").is_some();
    let d = crate::record::cell(record, headers, "empty_date").is_some();
    let e = crate::record::cell(record, headers, "weight_g").is_some();
    let f = crate::record::cell(record, headers, "price_ct").is_some();
    if a && b && c && d && e && f {
        Some(soul_of(record, headers))
    } else {
        None
    }
}

/// Builds a bag of the coffee stored under `coffee_id` from a CSV record
/// whose columns are named by `headers`.
pub fn build_csv(record: &csv::StringRecord, headers: &csv::StringRecord, coffee_id: u32) -> (res:
    Result<Bag, BuildError>)
    requires
        has_bag_cells(*record, *headers),
    ensures
        bag_built(
            res,
            coffee_id,
            cell_text(*record, *headers, "roast_date"@),
            cell_text(*record, *headers, "open_date"@),
            cell_text(*record, *headers, "empty_date"@),
            cell_text(*record, *headers, "weight_g"@),
            cell_text(*record, *headers, "price_ct"@),
        ),
{
    build(soul_of(record, headers), coffee_id)
}

} // verus!
