//! The table rows in which mod records are persisted, and the conversions
//! between a record and its row.
use vstd::prelude::*;
use vstd::string::*;
use crate::error::ModManagerError;
use crate::text::{copy_string, str_eq};
use crate::types::{ModEntry, ModEntryKind, ModEntryView, ModStatus, ReconciledMod, ReconciledModView};

verus! {

/// One cell of a stored row: text, SQL `NULL`, or a value of another type.
#[derive(Debug, Clone, PartialEq, Eq)]
pub enum DbValue {
    Text(String),
    Null,
    Other,
}

/// The mathematical content of a cell.
pub enum DbValueView {
    Text(Seq<char>),
    Null,
    Other,
}

impl View for DbValue {
    type V = DbValueView;

    open spec fn view(&self) -> DbValueView {
        match self {
            DbValue::Text(s) => DbValueView::Text(s@),
            DbValue::Null => DbValueView::Null,
            DbValue::Other => DbValueView::Other,
        }
    }
}

/// A stored mod record: the columns of the `mods` table that the manager reads
/// and writes, for one game.
pub struct ModRow {
    pub game_registry_id: DbValue,
    pub name: DbValue,
    pub status: DbValue,
    pub source_path: DbValue,
    pub source_kind: DbValue,
    pub staging_path: DbValue,
    pub staging_kind: DbValue,
    pub game_path: DbValue,
    pub game_kind: DbValue,
    pub enabler_type: DbValue,
}

/// The mathematical content of a row.
pub struct ModRowView {
    pub game_registry_id: DbValueView,
    pub name: DbValueView,
    pub status: DbValueView,
    pub source_path: DbValueView,
    pub source_kind: DbValueView,
    pub staging_path: DbValueView,
    pub staging_kind: DbValueView,
    pub game_path: DbValueView,
    pub game_kind: DbValueView,
    pub enabler_type: DbValueView,
}

impl View for ModRow {
    type V = ModRowView;

    open spec fn view(&self) -> ModRowView {
        ModRowView {
            game_registry_id: self.game_registry_id@,
            name: self.name@,
            status: self.status@,
            source_path: self.source_path@,
            source_kind: self.source_kind@,
            staging_path: self.staging_path@,
            staging_kind: self.staging_kind@,
            game_path: self.game_path@,
            game_kind: self.game_kind@,
            enabler_type: self.enabler_type@,
        }
    }
}

/// Where mod records are persisted, per game. A `ModState` queues the writes that
/// mirror its changes; whoever holds the state hands them to an implementation of
/// this trait, which talks to a database.
pub trait ModRepository {
    /// Reads all records of a game.
    fn get_mods(&self, game_registry_id: &str) -> Result<Vec<ReconciledMod>, ModManagerError>;

    /// Inserts or replaces the record of `mod_entry.name` for a game.
    fn upsert_mod(&self, game_registry_id: &str, mod_entry: &ReconciledMod) -> Result<(), ModManagerError>;

    /// Deletes the record of `name` for a game.
    fn remove_mod(&self, game_registry_id: &str, name: &str) -> Result<(), ModManagerError>;

    /// Replaces all records of a game by `mods`.
    fn set_mods(&self, game_registry_id: &str, mods: &[ReconciledMod]) -> Result<(), ModManagerError>;
}

/// The text under which a status is stored.
pub open spec fn status_text(s: ModStatus) -> Seq<char> {
    match s {
        ModStatus::Downloaded => "Downloaded"@,
        ModStatus::Staged => "Staged"@,
        ModStatus::Enabled => "Enabled"@,
        ModStatus::Modified => "Modified"@,
    }
}

/// The status that a stored text stands for; unknown text reads as `Downloaded`.
pub open spec fn status_of_text(t: Seq<char>) -> ModStatus {
    if t == "Downloaded"@ {
        ModStatus::Downloaded
    } else if t == "Staged"@ {
        ModStatus::Staged
    } else if t == "Enabled"@ {
        ModStatus::Enabled
    } else if t == "Modified"@ {
        ModStatus::Modified
    } else {
        ModStatus::Downloaded
    }
}

/// The text under which an entry kind is stored.
pub open spec fn kind_text(k: ModEntryKind) -> Seq<char> {
    match k {
        ModEntryKind::Directory => "Directory"@,
        ModEntryKind::ZipArchive => "ZipArchive"@,
        ModEntryKind::RarArchive => "RarArchive"@,
        ModEntryKind::Other => "Other"@,
    }
}

/// The kind that a stored text stands for; any other text reads as `Directory`.
pub open spec fn kind_of_text(t: Seq<char>) -> ModEntryKind {
    if t == "Directory"@ {
        ModEntryKind::Directory
    } else if t == "ZipArchive"@ {
        ModEntryKind::ZipArchive
    } else if t == "RarArchive"@ {
        ModEntryKind::RarArchive
    } else {
        ModEntryKind::Directory
    }
}

/// The text of a cell: `NULL` reads as the empty text, any non-text value fails.
pub open spec fn cell_text(v: DbValueView) -> Option<Seq<char>> {
    match v {
        DbValueView::Text(s) => Some(s),
        DbValueView::Null => Some(Seq::empty()),
        DbValueView::Other => None,
    }
}

/// The message of the error for a non-text cell.
pub open spec fn non_text_message() -> Seq<char> {
    "Unexpected non-text value in database"@
}

/// The entry that a path cell and a kind cell describe for the mod `name`:
/// none where the path is missing or empty.
pub open spec fn entry_of_cells(path: DbValueView, kind: DbValueView, name: Seq<char>) -> Option<ModEntryView> {
    match cell_text(path) {
        Some(p) => if p.len() == 0 {
            None
        } else {
            let k = match cell_text(kind) {
                Some(t) => kind_of_text(t),
                None => ModEntryKind::Directory,
            };
            Some(ModEntryView { name, path: p, kind: k, metadata: None })
        },
        None => None,
    }
}

/// The path cell and the kind cell under which an optional entry is stored.
pub open spec fn cells_of_entry(e: Option<ModEntryView>) -> (DbValueView, DbValueView) {
    match e {
        Some(e) => (DbValueView::Text(e.path), DbValueView::Text(kind_text(e.kind))),
        None => (DbValueView::Null, DbValueView::Null),
    }
}

/// The row under which `m` is stored for the game `rid`.
pub open spec fn row_of(rid: Seq<char>, m: ReconciledModView) -> ModRowView {
    ModRowView {
        game_registry_id: DbValueView::Text(rid),
        name: DbValueView::Text(m.name),
        status: DbValueView::Text(status_text(m.status)),
        source_path: cells_of_entry(m.source_entry).0,
        source_kind: cells_of_entry(m.source_entry).1,
        staging_path: cells_of_entry(m.staging_entry).0,
        staging_kind: cells_of_entry(m.staging_entry).1,
        game_path: cells_of_entry(m.game_entry).0,
        game_kind: cells_of_entry(m.game_entry).1,
        enabler_type: DbValueView::Text("symlink"@),
    }
}

/// The record that a row holds for the game `rid`, or none where its name or
/// status cell is not text.
pub open spec fn record_of(rid: Seq<char>, r: ModRowView) -> Option<ReconciledModView> {
    match (cell_text(r.name), cell_text(r.status)) {
        (Some(name), Some(status)) => Some(ReconciledModView {
            name,
            status: status_of_text(status),
            source_entry: entry_of_cells(r.source_path, r.source_kind, name),
            staging_entry: entry_of_cells(r.staging_path, r.staging_kind, name),
            game_entry: entry_of_cells(r.game_path, r.game_kind, name),
            register_id: rid,
        }),
        _ => None,
    }
}

/// The stored text of a status.
pub fn status_to_str(s: ModStatus) -> (r: &'static str)
    ensures
        r@ == status_text(s),
{
    proof {
        reveal_strlit("Downloaded");
        reveal_strlit("Staged");
        reveal_strlit("Enabled");
        reveal_strlit("Modified");
    }
    match s {
        ModStatus::Downloaded => "Downloaded",
        ModStatus::Staged => "Staged",
        ModStatus::Enabled => "Enabled",
        ModStatus::Modified => "Modified",
    }
}

/// The status that a stored text stands for.
pub fn parse_status(s: &str) -> (r: ModStatus)
    ensures
        r == status_of_text(s@),
{
    if str_eq(s, "Downloaded") {
        ModStatus::Downloaded
    } else if str_eq(s, "Staged") {
        ModStatus::Staged
    } else if str_eq(s, "Enabled") {
        ModStatus::Enabled
    } else if str_eq(s, "Modified") {
        ModStatus::Modified
    } else {
        ModStatus::Downloaded
    }
}

/// The stored text of an entry kind.
pub fn kind_to_str(k: ModEntryKind) -> (r: &'static str)
    ensures
        r@ == kind_text(k),
{
    proof {
        reveal_strlit("Directory");
        reveal_strlit("ZipArchive");
        reveal_strlit("RarArchive");
        reveal_strlit("Other");
    }
    match k {
        ModEntryKind::Directory => "Directory",
        ModEntryKind::ZipArchive => "ZipArchive",
        ModEntryKind::RarArchive => "RarArchive",
        ModEntryKind::Other => "Other",
    }
}

/// The entry kind that a stored text stands for.
pub fn parse_kind(s: &str) -> (r: ModEntryKind)
    ensures
        r == kind_of_text(s@),
{
    if str_eq(s, "Directory") {
        ModEntryKind::Directory
    } else if str_eq(s, "ZipArchive") {
        ModEntryKind::ZipArchive
    } else if str_eq(s, "RarArchive") {
        ModEntryKind::RarArchive
    } else {
        ModEntryKind::Directory
    }
}

/// A copy of a cell.
pub fn copy_value(v: &DbValue) -> (r: DbValue)
    ensures
        r@ == v@,
{
    match v {
        DbValue::Text(s) => DbValue::Text(copy_string(s)),
        DbValue::Null => DbValue::Null,
        DbValue::Other => DbValue::Other,
    }
}

/// The text of a cell; `NULL` reads as the empty text and any other value is
/// a database error.
pub fn row_text(v: &DbValue) -> (r: Result<String, ModManagerError>)
    ensures
        match cell_text(v@) {
            Some(t) => r matches Ok(s) && s@ == t,
            None => r matches Err(ModManagerError::DatabaseError(m)) && m@ == non_text_message(),
        },
{
    match v {
        DbValue::Text(s) => Ok(copy_string(s)),
        DbValue::Null => Ok(String::new()),
        DbValue::Other => {
            proof {
                reveal_strlit("Unexpected non-text value in database");
            }
            Err(ModManagerError::DatabaseError("Unexpected non-text value in database".to_string()))
        },
    }
}

/// The entry that a path cell and a kind cell describe for the mod `name`.
pub fn entry_from_row(path: &DbValue, kind: &DbValue, name: &str) -> (r: Option<ModEntry>)
    ensures
        crate::types::entry_opt_view(r) == entry_of_cells(path@, kind@, name@),
{
    let p = match row_text(path) {
        Ok(p) => p,
        Err(_) => {
            return None;
        },
    };
    if p.as_str().is_empty() {
        return None;
    }
    let k = match row_text(kind) {
        Ok(t) => parse_kind(t.as_str()),
        Err(_) => ModEntryKind::Directory,
    };
    Some(ModEntry { name: name.to_string(), path: p, kind: k, metadata: None })
}

/// The path cell and the kind cell under which an optional entry is stored.
pub fn entry_values(entry: &Option<ModEntry>) -> (r: (DbValue, DbValue))
    ensures
        (r.0@, r.1@) == cells_of_entry(crate::types::entry_opt_view(*entry)),
{
    match entry {
        Some(e) => (DbValue::Text(copy_string(&e.path)), DbValue::Text(kind_to_str(e.kind).to_string())),
        None => (DbValue::Null, DbValue::Null),
    }
}

/// The row under which `mod_entry` is stored for the game `game_registry_id`.
pub fn mod_row(game_registry_id: &str, mod_entry: &ReconciledMod) -> (r: ModRow)
    ensures
        r@ == row_of(game_registry_id@, mod_entry@),
{
    let (source_path, source_kind) = entry_values(&mod_entry.source_entry);
    let (staging_path, staging_kind) = entry_values(&mod_entry.staging_entry);
    let (game_path, game_kind) = entry_values(&mod_entry.game_entry);
    proof {
        reveal_strlit("symlink");
    }
    ModRow {
        game_registry_id: DbValue::Text(game_registry_id.to_string()),
        name: DbValue::Text(copy_string(&mod_entry.name)),
        status: DbValue::Text(status_to_str(mod_entry.status).to_string()),
        source_path,
        source_kind,
        staging_path,
        staging_kind,
        game_path,
        game_kind,
        enabler_type: DbValue::Text("symlink".to_string()),
    }
}

/// The record that a row read for the game `game_registry_id` holds; a row whose
/// name or status cell is not text is a database error.
pub fn mod_from_row(game_registry_id: &str, row: &ModRow) -> (r: Result<ReconciledMod, ModManagerError>)
    ensures
        match record_of(game_registry_id@, row@) {
            Some(m) => r matches Ok(x) && x@ == m,
            None => r matches Err(ModManagerError::DatabaseError(msg)) && msg@ == non_text_message(),
        },
{
    let name = match row_text(&row.name) {
        Ok(n) => n,
        Err(e) => {
            return Err(e);
        },
    };
    let status_text = match row_text(&row.status) {
        Ok(s) => s,
        Err(e) => {
            return Err(e);
        },
    };
    let status = parse_status(status_text.as_str());
    let source_entry = entry_from_row(&row.source_path, &row.source_kind, name.as_str());
    let staging_entry = entry_from_row(&row.staging_path, &row.staging_kind, name.as_str());
    let game_entry = entry_from_row(&row.game_path, &row.game_kind, name.as_str());
    Ok(ReconciledMod {
        name,
        status,
        source_entry,
        staging_entry,
        game_entry,
        register_id: game_registry_id.to_string(),
    })
}

/// The records that rows read for a game hold, in the order of the rows; the
/// first row that cannot be read is the error.
pub fn mods_from_rows(game_registry_id: &str, rows: &Vec<ModRow>) -> (r: Result<Vec<ReconciledMod>, ModManagerError>)
    ensures
        r is Ok <==> (forall|i: int| 0 <= i < rows.len() ==> #[trigger] record_of(game_registry_id@, rows@[i]@) is Some),
        r matches Ok(v) ==> v.len() == rows.len()
            && (forall|i: int| 0 <= i < rows.len() ==> Some(#[trigger] v@[i]@) == record_of(game_registry_id@, rows@[i]@)),
        r matches Err(e) ==> e matches ModManagerError::DatabaseError(msg) && msg@ == non_text_message(),
{
    let mut out: Vec<ReconciledMod> = Vec::new();
    let mut i: usize = 0;
    while i < rows.len()
        invariant
            i <= rows.len(),
            out.len() == i,
            forall|j: int| 0 <= j < i ==> Some(#[trigger] out@[j]@) == record_of(game_registry_id@, rows@[j]@),
        decreases rows.len() - i,
    {
        match mod_from_row(game_registry_id, &rows[i]) {
            Ok(m) => out.push(m),
            Err(e) => {
                assert(record_of(game_registry_id@, rows@[i as int]@) is None);
                return Err(e);
            },
        }
        i = i + 1;
    }
    assert forall|j: int| 0 <= j < rows.len() implies #[trigger] record_of(game_registry_id@, rows@[j]@) is Some by {
        assert(Some(out@[j]@) == record_of(game_registry_id@, rows@[j]@));
    }
    Ok(out)
}

/// The rows under which `mods` are stored for a game, in the same order.
pub fn mods_rows(game_registry_id: &str, mods: &[ReconciledMod]) -> (r: Vec<ModRow>)
    ensures
        r.len() == mods@.len(),
        forall|i: int| 0 <= i < mods@.len() ==> #[trigger] r@[i]@ == row_of(game_registry_id@, mods@[i]@),
{
    let mut out: Vec<ModRow> = Vec::new();
    let mut i: usize = 0;
    while i < mods.len()
        invariant
            i <= mods@.len(),
            out.len() == i,
            forall|j: int| 0 <= j < i ==> #[trigger] out@[j]@ == row_of(game_registry_id@, mods@[j]@),
        decreases mods@.len() - i,
    {
        out.push(mod_row(game_registry_id, &mods[i]));
        i = i + 1;
    }
    out
}

} // verus!
