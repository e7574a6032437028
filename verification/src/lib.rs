//! Coffee tracking: the rules by which raw text (CSV cells, wizard answers)
//! becomes equipment, coffee, bag and brew records, and how each record is
//! rendered as an SQL `INSERT` statement.

pub mod bag;
pub mod brew;
pub mod coffee;
pub mod equipment;
pub mod error;
pub mod import;
pub mod lookup;
pub mod record;
pub mod sql;
pub mod stamp;
pub mod text;
pub mod wizard;
