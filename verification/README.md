# kaffe

A self-hosted coffee tracking tool. The library (`src/`, verified with Verus)
holds the rules: how equipment, coffees, bags and brews are read from CSV cells
and wizard answers, how each is written as an SQL `INSERT`, which kind of record
a CSV file holds, which questions the wizards ask next, and how autocompletion
suggestions are picked from stored values. The command (`app/`) reads files,
asks the questions, talks to SQLite and prints.

- `src/text.rs` — emptiness, splitting on `;`, decimal numbers, lowercase, substring search
- `src/stamp.rs` — instants, rendered, parsed and read from the clock through jiff
- `src/record.rs` — CSV records and header lookup
- `src/sql.rs` — `INSERT` statements
- `src/equipment.rs`, `src/coffee.rs`, `src/bag.rs`, `src/brew.rs` — the records
- `src/import.rs` — the record kind of a CSV file
- `src/wizard.rs` — the interactive wizards as state machines
