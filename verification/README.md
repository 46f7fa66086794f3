# moda

A mod manager for games (Stardew Valley and Marvel Rivals can be managed; Mad Max
is registered but not yet managed). Mods are
downloaded as directories or zip/rar archives, copied ("staged") into a staging
folder, and enabled by linking their staged copy into the game's mods folder.

The library in `src/` is written in Verus and verified: every public function
states what it returns or changes, and `src/laws.rs` proves properties that
relate the operations (an enable undone by a disable, a stored record read
back unchanged, and so on).

Layout:

- `src/text.rs`, `src/types.rs`, `src/error.rs`: names, paths, records, errors.
- `src/mod_state.rs`: the known mods of a game, and the database writes each change queues.
- `src/catalog.rs`, `src/registry.rs`: what the downloads, staging and game folders
  hold, and how they reconcile into one state.
- `src/archive.rs`: which directory wraps an archive, and what extracting it does.
- `src/staging.rs`, `src/sync_manager.rs`: plans for staging, linking and unlinking mods,
  with bulk operations that act on the records of the state.
- `src/folder_sync.rs`: the same operations driven by what the folders hold: bulk
  operations act on every mod found in a folder, a sync makes one pass, and a mod is
  looked up again in the folders after it is unstaged or disabled.
- `src/games.rs`, `src/setup.rs`, `src/config.rs`: the games, what they need installed
  before modding, and the settings.
- `src/repository.rs`: the table rows that records are stored in.
- `src/ui.rs`, `src/moda_app.rs`, `src/browser.rs`: the front ends' state and how
  they answer requests.
- `src/nexus.rs`: requests to the Nexus Mods API.

`app/` holds the program around the library: a terminal front end, file system
work, downloads, and the Turso database. It reads and writes; the library decides.
