# tabletop

Card data, hex grids and editor logic for a tabletop game, kept in SQLite.
Verus proves the editor's and the simulator's state machines, the form
parsing, and what the library makes of what SQLite returns. Every
statement handed to SQLite, query or write, is built by a statement
builder whose contract fixes its SQL text and parameters, and each read
states that what it returns decodes from some row; that a storage
operation runs its builder's statement is plain from its body, not stated
in its contract, and what SQLite itself stores and returns is not
modelled.

- `src/` is the verified library:
  - `cards/`: units, items, levels, actions with their attacks and
    interactions, armor and stat modifiers; validation, row decoding and
    the SQL each operation runs.
  - `hex_grids.rs`: named grids of tile spaces and their tiles.
  - `migrations.rs`: schema migrations, recorded by file name or by the
    SHA-256 of their text.
  - `simulator/`: the simulator's navigation state machine and its
    campaign database.
  - `tools/`: the card editor: form parsing, the editor state machine
    (`gui::update`, `gui::dispatch`), the pickers and canvas decisions, and
    the laws every decision keeps (`gui::laws`).
  - `db.rs`, `text.rs`, `num.rs`, `shared.rs`: the SQLite boundary, text
    and number helpers, and the error type.
- `app/` is the program around it: command-line arguments, file-system
  paths, opening databases, reading migration files, the hosts that run the
  editor and simulator state machines, and the floating-point canvas
  geometry.
- `tests/` exercises the library against in-memory SQLite databases.
