//! Importing records from CSV: the width of the header row tells which kind
//! of record a file holds.

use vstd::prelude::*;

verus! {

/// The kinds of record that can be imported.
#[derive(Debug, Clone, Copy, PartialEq, Eq, Structural)]
pub enum Table {
    Equipment,
    Coffee,
    Bag,
    Brew,
}

/// The kind of record whose CSV files have `width` columns: 5 for equipment,
/// 15 for coffees, 6 for bags and 11 for brews; none for any other width.
pub open spec fn table_of_width(width: nat) -> Option<Table> {
    if width == 5 {
        Some(Table::Equipment)
    } else if width == 15 {
        Some(Table::Coffee)
    } else if width == 6 {
        Some(Table::Bag)
    } else if width == 11 {
        Some(Table::Brew)
    } else {
        None
    }
}

/// The kind of record a CSV file holds, from the width of its header row.
pub fn table_for(width: usize) -> (res: Option<Table>)
    ensures
        res == table_of_width(width as nat),
{
    if width == 5 {
        Some(Table::Equipment)
    } else if width == 15 {
        Some(Table::Coffee)
    } else if width == 6 {
        Some(Table::Bag)
    } else if width == 11 {
        Some(Table::Brew)
    } else {
        None
    }
}

} // verus!
