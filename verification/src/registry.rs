//! A per-game view of the downloads and staging folders that finds mods by name.
use vstd::prelude::*;
use vstd::string::*;
use core::marker::PhantomData;
use crate::catalog::{dir_views, entry_views, folder_mod, folder_mods, Catalog, DirEntryInfo, DirEntryView, SourceMod, StagedMod};
use crate::config::Config;
use crate::error::ModManagerError;
use crate::games::{registry_id_of, Game};
use crate::mod_state::ModState;
use crate::text::{copy_string, path_join, str_eq};
use crate::types::{ModEntry, ModEntryKind, ModEntryView};

verus! {

/// The first entry of a listing that is named `name` and is a mod.
pub open spec fn find_named_mod(s: Seq<DirEntryView>, name: Seq<char>) -> Option<ModEntryView>
    decreases s.len(),
{
    if s.len() == 0 {
        None
    } else if s[0].name == name && folder_mod(s[0]) is Some {
        folder_mod(s[0])
    } else {
        find_named_mod(s.drop_first(), name)
    }
}

/// What looking up `name` in a folder gives: the folder is missing (`None`), or
/// it holds no mod of that name, or it does.
pub open spec fn lookup_result(listing: Option<Seq<DirEntryView>>, name: Seq<char>, r: Result<ModEntry, ModManagerError>) -> bool {
    let found = match listing {
        Some(s) => find_named_mod(s, name),
        None => None,
    };
    match found {
        Some(m) => r matches Ok(e) && e@ == m,
        None => r matches Err(ModManagerError::ModNotFound(n)) && n@ == name,
    }
}

/// What an entry of the game's mods folder is for the registry: a directory or a
/// link is an enabled mod.
pub open spec fn registry_game_mod(e: DirEntryView) -> Option<ModEntryView> {
    if e.is_dir || e.is_symlink {
        Some(ModEntryView { name: e.name, path: e.path, kind: ModEntryKind::Directory, metadata: None })
    } else {
        None
    }
}

/// The enabled mods that a game mods folder listing holds for the registry, in listing order.
pub open spec fn registry_game_mods(s: Seq<DirEntryView>) -> Seq<ModEntryView>
    decreases s.len(),
{
    if s.len() == 0 {
        Seq::empty()
    } else {
        let rest = registry_game_mods(s.drop_last());
        match registry_game_mod(s.last()) {
            Some(m) => rest.push(m),
            None => rest,
        }
    }
}

/// The listing of an optional folder.
pub open spec fn opt_listing(o: Option<Vec<DirEntryInfo>>) -> Option<Seq<DirEntryView>> {
    match o {
        Some(v) => Some(dir_views(v@)),
        None => None,
    }
}

/// The downloads and staging folders of the game `G`, and the mods in them.
pub struct ModRegistry<G: Game> {
    catalog: Catalog,
    _game: PhantomData<G>,
}

/// The first mod named `name` in `listing`, or `ModNotFound(name)`; a missing
/// folder (`None`) holds no mod.
pub fn get_one_mod(listing: &Option<Vec<DirEntryInfo>>, name: &str) -> (r: Result<ModEntry, ModManagerError>)
    ensures
        lookup_result(opt_listing(*listing), name@, r),
{
    proof {
        reveal_strlit(".zip");
    }
    match listing {
        None => Err(ModManagerError::ModNotFound(name.to_string())),
        Some(v) => {
            let ghost s = dir_views(v@);
            assert(opt_listing(*listing) == Some(s));
            let mut i: usize = 0;
            assert(s.skip(0) =~= s);
            while i < v.len()
                invariant
                    i <= v@.len(),
                    s == dir_views(v@),
                    opt_listing(*listing) == Some(s),
                    find_named_mod(s, name@) == find_named_mod(s.skip(i as int), name@),
                decreases v@.len() - i,
            {
                let e = &v[i];
                proof {
                    assert(s.skip(i as int)[0] == e@);
                    assert(s.skip(i as int).drop_first() =~= s.skip(i + 1));
                }
                if str_eq(e.name.as_str(), name) {
                    assert(s.skip(i as int).len() > 0 && s.skip(i as int)[0].name == name@);
                    if crate::text::str_ends_with(e.name.as_str(), ".zip") && e.name.unicode_len() > 4 {
                        return Ok(ModEntry::new(copy_string(&e.name), copy_string(&e.path), ModEntryKind::ZipArchive));
                    } else if e.is_dir {
                        return Ok(ModEntry::new(copy_string(&e.name), copy_string(&e.path), ModEntryKind::Directory));
                    }
                }
                i = i + 1;
            }
            Err(ModManagerError::ModNotFound(name.to_string()))
        },
    }
}

impl<G: Game> ModRegistry<G> {
    /// The registry of the game `game` under the folders that `config` names.
    pub fn new(config: Config, game: &G) -> (r: Self)
        ensures
            r.registry_id() == registry_id_of(game.spec_kind()),
            r.config() == config,
    {
        let d = game.descriptor();
        ModRegistry { catalog: Catalog::new(config, d.registry_id.as_str()), _game: PhantomData }
    }

    /// The game whose mods the registry reads.
    pub closed spec fn registry_id(&self) -> Seq<char> {
        self.catalog.registry_id()
    }

    /// The configuration the registry was made with.
    pub closed spec fn config(&self) -> Config {
        self.catalog.config()
    }

    /// The folder that holds the game's downloaded mods.
    pub fn get_mod_path(&self) -> (r: String)
        ensures
            r@ == path_join(self.config().mods_root_path@, self.registry_id()),
    {
        self.catalog.mods_folder()
    }

    /// The folder that holds the game's staged mods.
    pub fn get_staging_path(&self) -> (r: String)
        ensures
            r@ == path_join(self.config().staging_root_path@, self.registry_id()),
    {
        self.catalog.staging_folder()
    }

    /// The mods in a listing of the downloads folder (`get_mod_path`).
    pub fn list_mods_folder(&self, listing: &Vec<DirEntryInfo>) -> (r: Vec<ModEntry>)
        ensures
            entry_views(r@) == folder_mods(dir_views(listing@)),
    {
        Catalog::list_folder(listing)
    }

    /// The mods in a listing of the staging folder (`get_staging_path`).
    pub fn list_staging_folder(&self, listing: &Vec<DirEntryInfo>) -> (r: Vec<ModEntry>)
        ensures
            entry_views(r@) == folder_mods(dir_views(listing@)),
    {
        Catalog::list_folder(listing)
    }

    /// The downloaded mod named `name`, found in a listing of the downloads folder
    /// (`None` where the folder does not exist).
    pub fn get_mod_by_name(&self, listing: &Option<Vec<DirEntryInfo>>, name: &str) -> (r: Result<ModEntry, ModManagerError>)
        ensures
            lookup_result(opt_listing(*listing), name@, r),
    {
        get_one_mod(listing, name)
    }

    /// The staged mod named `name`, found in a listing of the staging folder
    /// (`None` where the folder does not exist).
    pub fn get_staged_mod_by_name(&self, listing: &Option<Vec<DirEntryInfo>>, name: &str) -> (r: Result<ModEntry, ModManagerError>)
        ensures
            lookup_result(opt_listing(*listing), name@, r),
    {
        get_one_mod(listing, name)
    }

    /// The enabled mods in a listing of the game's mods folder: its directories and links.
    pub fn list_game_mods_folder(&self, listing: &Vec<DirEntryInfo>) -> (r: Vec<ModEntry>)
        ensures
            entry_views(r@) == registry_game_mods(dir_views(listing@)),
    {
        let mut out: Vec<ModEntry> = Vec::new();
        let mut i: usize = 0;
        while i < listing.len()
            invariant
                i <= listing@.len(),
                entry_views(out@) == registry_game_mods(dir_views(listing@.take(i as int))),
            decreases listing@.len() - i,
        {
            let e = &listing[i];
            let ghost before = out@;
            if e.is_dir || e.is_symlink {
                out.push(ModEntry::new(copy_string(&e.name), copy_string(&e.path), ModEntryKind::Directory));
            }
            proof {
                let t = dir_views(listing@.take(i + 1));
                assert(t.drop_last() =~= dir_views(listing@.take(i as int)));
                assert(t.last() == listing@[i as int]@);
                if out@.len() > before.len() {
                    assert(entry_views(out@) =~= entry_views(before).push(out@.last()@));
                } else {
                    assert(out@ == before);
                }
            }
            i = i + 1;
        }
        assert(listing@.take(listing@.len() as int) =~= listing@);
        out
    }

    /// Reconciles the three folders of the game into one record per mod name, as
    /// `Catalog::reconcile` does for the same game and configuration.
    pub fn reconcile(&self, source: &Vec<SourceMod>, staged: &Vec<StagedMod>, enabled: &Vec<ModEntry>) -> (r: ModState)
        ensures
            r@ == crate::catalog::reconcile_map(
                self.registry_id(),
                crate::catalog::source_views(source@),
                crate::catalog::staged_views(staged@),
                entry_views(enabled@),
            ),
            r.pending_writes() == Seq::<crate::mod_state::RepoWriteView>::empty(),
    {
        self.catalog.reconcile(source, staged, enabled)
    }
}

} // verus!
