//! CSV records and the header row that names their columns.

use vstd::prelude::*;
use crate::text::same_text;

verus! {

#[verifier::external_type_specification]
#[verifier::external_body]
pub struct ExStringRecord(csv::StringRecord);

/// The fields of a CSV record, in order.
pub uninterp spec fn record_fields(record: csv::StringRecord) -> Seq<Seq<char>>;

/// Calls `csv::StringRecord::len`. Claimed: the number of fields.
#[verifier::external_body]
fn record_len(record: &csv::StringRecord) -> (res: usize)
    ensures
        res == record_fields(*record).len(),
{
    record.len()
}

/// Calls `csv::StringRecord::get`. Claimed: the field at `i` when there is
/// one, `None` past the last field.
#[verifier::external_body]
fn record_get(record: &csv::StringRecord, i: usize) -> (res: Option<&str>)
    ensures
        match res {
            Some(f) => i < record_fields(*record).len() && f@ == record_fields(*record)[i as int],
            None => i >= record_fields(*record).len(),
        },
{
    record.get(i)
}

/// `c` is whitespace as `char::is_whitespace` says: Unicode's `White_Space`
/// property.
pub open spec fn is_white_space(c: char) -> bool {
    let u = c as u32;
    ||| 0x09 <= u <= 0x0d
    ||| u == 0x20
    ||| u == 0x85
    ||| u == 0xa0
    ||| u == 0x1680
    ||| 0x2000 <= u <= 0x200a
    ||| u == 0x2028
    ||| u == 0x2029
    ||| u == 0x202f
    ||| u == 0x205f
    ||| u == 0x3000
}

/// `s` without its leading whitespace.
pub open spec fn trim_start_text(s: Seq<char>) -> Seq<char>
    decreases s.len(),
{
    if s.len() > 0 && is_white_space(s[0]) {
        trim_start_text(s.skip(1))
    } else {
        s
    }
}

/// `s` without its trailing whitespace.
pub open spec fn trim_end_text(s: Seq<char>) -> Seq<char>
    decreases s.len(),
{
    if s.len() > 0 && is_white_space(s.last()) {
        trim_end_text(s.drop_last())
    } else {
        s
    }
}

/// What `str::trim` gives: the text without leading and trailing whitespace.
pub open spec fn trimmed_field(field: Seq<char>) -> Seq<char> {
    trim_end_text(trim_start_text(field))
}

/// Calls `csv::StringRecord::trim`, which rebuilds the record from
/// `str::trim` of each field. Claimed: the record keeps its number of fields
/// and each field loses its leading and trailing whitespace, as `trimmed_field`
/// says.
#[verifier::external_body]
fn record_trim(record: &mut csv::StringRecord)
    ensures
        record_fields(*final(record)).len() == record_fields(*old(record)).len(),
        forall|i: int|
            0 <= i < record_fields(*old(record)).len() ==> #[trigger] record_fields(
                *final(record),
            )[i] == trimmed_field(record_fields(*old(record))[i]),
{
    record.trim()
}

/// Trims leading and trailing whitespace from every field of `record`.
pub fn trim_fields(record: &mut csv::StringRecord)
    ensures
        record_fields(*final(record)).len() == record_fields(*old(record)).len(),
        forall|i: int|
            0 <= i < record_fields(*old(record)).len() ==> #[trigger] record_fields(
                *final(record),
            )[i] == trimmed_field(record_fields(*old(record))[i]),
{
    record_trim(record)
}

/// The column that a map from header name to position, filled by walking the
/// header row in order, gives `name`: its last occurrence.
pub open spec fn column_of(headers: Seq<Seq<char>>, name: Seq<char>) -> Option<int>
    decreases headers.len(),
{
    if headers.len() == 0 {
        None
    } else if headers.last() == name {
        Some(headers.len() - 1)
    } else {
        column_of(headers.drop_last(), name)
    }
}

/// The column of a name is its last occurrence in the header row: a found
/// column lies inside the row, carries the name, and no later header carries
/// it; no column is found exactly when no header carries the name.
pub proof fn lemma_column_of(headers: Seq<Seq<char>>, name: Seq<char>)
    ensures
        column_of(headers, name) matches Some(i) ==> 0 <= i < headers.len() && headers[i] == name
            && forall|j: int| i < j < headers.len() ==> headers[j] != name,
        column_of(headers, name) is None <==> !headers.contains(name),
    decreases headers.len(),
{
    if headers.len() > 0 {
        let d = headers.drop_last();
        if headers.last() != name {
            lemma_column_of(d, name);
            if let Some(i) = column_of(d, name) {
                assert forall|j: int| i < j < headers.len() implies headers[j] != name by {
                    if j < d.len() {
                        assert(headers[j] == d[j]);
                    }
                }
            }
            if headers.contains(name) {
                let k = choose|k: int| 0 <= k < headers.len() && headers[k] == name;
                assert(d[k] == name);
            }
            if d.contains(name) {
                let k = choose|k: int| 0 <= k < d.len() && d[k] == name;
                assert(headers[k] == name);
            }
        } else {
            assert(headers[headers.len() - 1] == name);
        }
    }
}

/// The cell of `fields` under the column named `name`, or `None` when there
/// is no such column or the record is too short to reach it.
pub open spec fn cell_of(fields: Seq<Seq<char>>, headers: Seq<Seq<char>>, name: Seq<char>) -> Option<
    Seq<char>,
> {
    match column_of(headers, name) {
        Some(i) => if i < fields.len() {
            Some(fields[i])
        } else {
            None
        },
        None => None,
    }
}

/// The cell of `record` under `name`, as `cell_of` says.
pub open spec fn record_cell(
    record: csv::StringRecord,
    headers: csv::StringRecord,
    name: Seq<char>,
) -> Option<Seq<char>> {
    cell_of(record_fields(record), record_fields(headers), name)
}

/// The text of `record`'s cell under `name`, which must be there.
pub open spec fn cell_text(
    record: csv::StringRecord,
    headers: csv::StringRecord,
    name: Seq<char>,
) -> Seq<char> {
    record_cell(record, headers, name).unwrap()
}

/// The position of the column named `name` in the header row: the last one
/// so named.
pub fn column(headers: &csv::StringRecord, name: &str) -> (res: Option<usize>)
    ensures
        match res {
            Some(i) => column_of(record_fields(*headers), name@) == Some(i as int),
            None => column_of(record_fields(*headers), name@) is None,
        },
{
    let ghost h = record_fields(*headers);
    let mut i = record_len(headers);
    assert(h.take(i as int) =~= h);
    while i > 0
        invariant
            h == record_fields(*headers),
            i <= h.len(),
            column_of(h, name@) == column_of(h.take(i as int), name@),
        decreases i,
    {
        i -= 1;
        assert(h.take(i + 1).last() == h[i as int]);
        assert(h.take(i + 1).drop_last() =~= h.take(i as int));
        match record_get(headers, i) {
            Some(f) => {
                if same_text(f, name) {
                    return Some(i);
                }
            },
            None => {},
        }
    }
    None
}

/// The text of `record`'s cell under the column named `name`.
pub fn cell(record: &csv::StringRecord, headers: &csv::StringRecord, name: &str) -> (res: Option<
    String,
>)
    ensures
        match res {
            Some(c) => record_cell(*record, *headers, name@) == Some(c@),
            None => record_cell(*record, *headers, name@) is None,
        },
{
    match column(headers, name) {
        Some(i) => match record_get(record, i) {
            Some(f) => Some(f.to_owned()),
            None => None,
        },
        None => None,
    }
}

/// The text of a cell that is known to be there.
pub(crate) fn required_cell(
    record: &csv::StringRecord,
    headers: &csv::StringRecord,
    name: &str,
) -> (res: String)
    requires
        record_cell(*record, *headers, name@) is Some,
    ensures
        res@ == cell_text(*record, *headers, name@),
{
    match cell(record, headers, name) {
        Some(c) => c,
        None => String::new(),
    }
}

} // verus!
