//! The settings of the mod manager: where mods live and where games may be found.
use vstd::prelude::*;
use vstd::string::*;
use crate::text::{concat2, copy_string, copy_strings, join_path, path_join, str_eq, strings_view};

verus! {

/// The places where one game may be installed, in the order they are tried.
#[derive(Clone, Debug)]
pub struct GameSearchPaths {
    pub game: String,
    pub paths: Vec<String>,
}

/// The settings of the mod manager.
#[derive(Clone, Debug)]
pub struct Config {
    pub nexus_api_key: String,
    pub mods_root_path: String,
    pub staging_root_path: String,
    pub game_search_paths: Vec<GameSearchPaths>,
    pub actual_config_path: String,
}

/// The views of a list of paths.
pub open spec fn paths_view(v: Seq<String>) -> Seq<Seq<char>> {
    strings_view(v)
}

/// The search paths of `game`: those of the first entry for it, or none.
pub open spec fn search_paths_of(s: Seq<GameSearchPaths>, game: Seq<char>) -> Option<Seq<Seq<char>>>
    decreases s.len(),
{
    if s.len() == 0 {
        None
    } else if s[0].game@ == game {
        Some(paths_view(s[0].paths@))
    } else {
        search_paths_of(s.drop_first(), game)
    }
}

impl Config {
    /// The search paths configured for `game`, as `Config` holds them.
    pub open spec fn spec_search_paths(&self, game: Seq<char>) -> Option<Seq<Seq<char>>> {
        search_paths_of(self.game_search_paths@, game)
    }

    /// Whether `self` is the configuration used when none could be read, rooted at `base_dir`.
    pub open spec fn is_default_under(&self, base_dir: Seq<char>) -> bool {
        &&& self.nexus_api_key@ == Seq::<char>::empty()
        &&& self.mods_root_path@ == base_dir + "/.moda/mods"@
        &&& self.staging_root_path@ == base_dir + "/.moda/staging"@
        &&& self.game_search_paths@.len() == 0
        &&& self.actual_config_path@ == path_join(path_join(path_join(base_dir, ".config"@), "moda"@), "config.toml"@)
    }

    /// The configuration used when none could be read, rooted at the directory `base_dir`.
    pub fn load_default_config(base_dir: &str) -> (r: Config)
        ensures
            r.is_default_under(base_dir@),
            r.nexus_api_key@ == Seq::<char>::empty(),
            r.mods_root_path@ == base_dir@ + "/.moda/mods"@,
            r.staging_root_path@ == base_dir@ + "/.moda/staging"@,
            r.game_search_paths@.len() == 0,
            r.actual_config_path@ == path_join(path_join(path_join(base_dir@, ".config"@), "moda"@), "config.toml"@),
    {
        let a = join_path(base_dir, ".config");
        let b = join_path(a.as_str(), "moda");
        let c = join_path(b.as_str(), "config.toml");
        Config {
            nexus_api_key: String::new(),
            mods_root_path: concat2(base_dir, "/.moda/mods"),
            staging_root_path: concat2(base_dir, "/.moda/staging"),
            game_search_paths: Vec::new(),
            actual_config_path: c,
        }
    }

    /// Where the configuration file lives under the home directory `base_dir`.
    pub fn config_file_path(base_dir: &str) -> (r: String)
        ensures
            r@ == path_join(path_join(path_join(base_dir@, ".config"@), "moda"@), "config.toml"@),
    {
        proof {
            reveal_strlit(".config");
            reveal_strlit("moda");
            reveal_strlit("config.toml");
        }
        let a = join_path(base_dir, ".config");
        let b = join_path(a.as_str(), "moda");
        join_path(b.as_str(), "config.toml")
    }

    /// The configuration in effect: the one read from the configuration file when it
    /// could be read (`loaded`), else the default one under the home directory `base_dir`.
    pub fn new(base_dir: &str, loaded: Option<Config>) -> (r: Config)
        ensures
            match loaded {
                Some(c) => r == c,
                None => r.is_default_under(base_dir@),
            },
    {
        match loaded {
            Some(c) => c,
            None => Config::load_default_config(base_dir),
        }
    }

    /// The search paths configured for `game`.
    pub fn search_paths(&self, game: &str) -> (r: Option<Vec<String>>)
        ensures
            match r {
                Some(v) => self.spec_search_paths(game@) == Some(paths_view(v@)),
                None => self.spec_search_paths(game@) is None,
            },
    {
        let mut i: usize = 0;
        let ghost s = self.game_search_paths@;
        assert(s.skip(0) =~= s);
        while i < self.game_search_paths.len()
            invariant
                i <= s.len(),
                s == self.game_search_paths@,
                search_paths_of(s, game@) == search_paths_of(s.skip(i as int), game@),
            decreases s.len() - i,
        {
            let entry = &self.game_search_paths[i];
            assert(s.skip(i as int)[0] == s[i as int]);
            if str_eq(entry.game.as_str(), game) {
                return Some(copy_strings(&entry.paths));
            }
            assert(s.skip(i as int).drop_first() =~= s.skip(i + 1));
            i = i + 1;
        }
        None
    }

    /// Records `path` as a further place where `game_name` may be installed.
    pub fn add_game_path(&mut self, game_name: &str, path: String)
        ensures
            final(self).spec_search_paths(game_name@) == Some(match old(self).spec_search_paths(game_name@) {
                Some(ps) => ps.push(path@),
                None => seq![path@],
            }),
            forall|g: Seq<char>| g != game_name@ ==> final(self).spec_search_paths(g) == old(self).spec_search_paths(g),
            final(self).nexus_api_key == old(self).nexus_api_key,
            final(self).mods_root_path == old(self).mods_root_path,
            final(self).staging_root_path == old(self).staging_root_path,
            final(self).actual_config_path == old(self).actual_config_path,
    {
        let ghost s = self.game_search_paths@;
        let mut i: usize = 0;
        while i < self.game_search_paths.len()
            invariant
                i <= s.len(),
                s == self.game_search_paths@,
                forall|j: int| 0 <= j < i ==> (#[trigger] s[j]).game@ != game_name@,
            ensures
                i <= s.len(),
                forall|j: int| 0 <= j < i ==> (#[trigger] s[j]).game@ != game_name@,
                i < s.len() ==> s[i as int].game@ == game_name@,
            decreases s.len() - i,
        {
            if str_eq(self.game_search_paths[i].game.as_str(), game_name) {
                break;
            }
            i = i + 1;
        }
        proof {
            lemma_search_paths_prefix(s, i as int, game_name@);
        }
        if i < self.game_search_paths.len() {
            let mut entry = GameSearchPaths {
                game: copy_string(&self.game_search_paths[i].game),
                paths: copy_strings(&self.game_search_paths[i].paths),
            };
            let ghost old_paths = entry.paths@;
            entry.paths.push(path);
            proof {
                assert(paths_view(entry.paths@) =~= paths_view(old_paths).push(path@));
                lemma_search_paths_update(s, i as int, entry);
            }
            self.game_search_paths.set(i, entry);
        } else {
            let v: Vec<String> = vec![path];
            let entry = GameSearchPaths { game: String::from_str(game_name), paths: v };
            proof {
                assert(paths_view(entry.paths@) =~= seq![path@]);
                lemma_search_paths_push(s, entry);
            }
            self.game_search_paths.push(entry);
        }
    }
}

proof fn lemma_search_paths_prefix(s: Seq<GameSearchPaths>, i: int, g: Seq<char>)
    requires
        0 <= i <= s.len(),
        forall|j: int| 0 <= j < i ==> (#[trigger] s[j]).game@ != g,
    ensures
        search_paths_of(s, g) == search_paths_of(s.skip(i), g),
    decreases i,
{
    if i > 0 {
        lemma_search_paths_prefix(s.drop_first(), i - 1, g);
        assert(s.drop_first().skip(i - 1) =~= s.skip(i));
    } else {
        assert(s.skip(0) =~= s);
    }
}

proof fn lemma_search_paths_update(s: Seq<GameSearchPaths>, i: int, e: GameSearchPaths)
    requires
        0 <= i < s.len(),
        e.game@ == s[i].game@,
        forall|j: int| 0 <= j < i ==> (#[trigger] s[j]).game@ != e.game@,
    ensures
        search_paths_of(s.update(i, e), e.game@) == Some(paths_view(e.paths@)),
        forall|g: Seq<char>| g != e.game@ ==> search_paths_of(s.update(i, e), g) == search_paths_of(s, g),
    decreases i,
{
    if i > 0 {
        lemma_search_paths_update(s.drop_first(), i - 1, e);
        assert(s.update(i, e).drop_first() =~= s.drop_first().update(i - 1, e));
        assert forall|g: Seq<char>| g != e.game@ implies search_paths_of(s.update(i, e), g) == search_paths_of(s, g) by {
            assert(s.update(i, e)[0] == s[0]);
            assert(search_paths_of(s.drop_first().update(i - 1, e), g) == search_paths_of(s.drop_first(), g));
        }
    } else {
        assert(s.update(0, e).drop_first() =~= s.drop_first());
    }
}

proof fn lemma_search_paths_push(s: Seq<GameSearchPaths>, e: GameSearchPaths)
    requires
        forall|j: int| 0 <= j < s.len() ==> (#[trigger] s[j]).game@ != e.game@,
    ensures
        search_paths_of(s.push(e), e.game@) == Some(paths_view(e.paths@)),
        forall|g: Seq<char>| g != e.game@ ==> search_paths_of(s.push(e), g) == search_paths_of(s, g),
    decreases s.len(),
{
    if s.len() > 0 {
        lemma_search_paths_push(s.drop_first(), e);
        assert(s.push(e).drop_first() =~= s.drop_first().push(e));
        assert forall|g: Seq<char>| g != e.game@ implies search_paths_of(s.push(e), g) == search_paths_of(s, g) by {
            assert(s.push(e)[0] == s[0]);
            assert(search_paths_of(s.drop_first().push(e), g) == search_paths_of(s.drop_first(), g));
        }
    } else {
        assert(s.push(e).drop_first() =~= s);
        assert forall|g: Seq<char>| g != e.game@ implies search_paths_of(s.push(e), g) == search_paths_of(s, g) by {
            assert(s.push(e).drop_first().len() == 0);
        }
    }
}

} // verus!
