//! The games whose mods can be managed, and where their mods go.
use vstd::prelude::*;
use vstd::string::*;
use crate::config::Config;
use crate::text::{copy_string, join_path, path_join, str_eq, strings_view};

verus! {

/// How a game takes its mods.
#[derive(Debug, Clone, Copy, PartialEq, Eq, Structural)]
pub enum ModMode {
    Symlink,
    Pak,
    DirectCopy,
}

/// Which game a descriptor stands for.
#[derive(Debug, Clone, Copy, PartialEq, Eq, Structural)]
pub enum GameKind {
    StardewValley,
    MarvelRivals,
    MadMax,
}

/// What the game selection shows of a game, and which game it builds.
#[derive(Clone, Debug)]
pub struct GameDescriptor {
    pub name: String,
    pub registry_id: String,
    pub description: String,
    pub icon: String,
    pub kind: GameKind,
}

/// The registry id of each game.
pub open spec fn registry_id_of(kind: GameKind) -> Seq<char> {
    match kind {
        GameKind::StardewValley => "stardew_valley"@,
        GameKind::MarvelRivals => "marvel_rivals"@,
        GameKind::MadMax => "mad_max"@,
    }
}

/// The display name of each game.
pub open spec fn game_name_of(kind: GameKind) -> Seq<char> {
    match kind {
        GameKind::StardewValley => "Stardew Valley"@,
        GameKind::MarvelRivals => "Marvel Rivals"@,
        GameKind::MadMax => "Mad Max: Fury Road"@,
    }
}

/// The first of `candidates` that is among `existing`.
pub open spec fn first_existing(candidates: Seq<Seq<char>>, existing: Seq<Seq<char>>) -> Option<Seq<char>>
    decreases candidates.len(),
{
    if candidates.len() == 0 {
        None
    } else if existing.contains(candidates[0]) {
        Some(candidates[0])
    } else {
        first_existing(candidates.drop_first(), existing)
    }
}

/// Whether `s` is among `v`.
pub fn contains_string(v: &Vec<String>, s: &str) -> (r: bool)
    ensures
        r == strings_view(v@).contains(s@),
{
    let mut i: usize = 0;
    while i < v.len()
        invariant
            i <= v@.len(),
            forall|j: int| 0 <= j < i ==> v@[j]@ != s@,
        decreases v@.len() - i,
    {
        if str_eq(v[i].as_str(), s) {
            assert(strings_view(v@)[i as int] == s@);
            return true;
        }
        i = i + 1;
    }
    proof {
        if strings_view(v@).contains(s@) {
            let j = choose|j: int| 0 <= j < strings_view(v@).len() && strings_view(v@)[j] == s@;
            assert(v@[j]@ == s@);
        }
    }
    false
}

impl GameDescriptor {
    /// The descriptor of Stardew Valley.
    pub fn stardew_valley() -> (r: GameDescriptor)
        ensures
            r.kind == GameKind::StardewValley,
            r.name@ == game_name_of(r.kind),
            r.registry_id@ == registry_id_of(r.kind),
            r.description@ == "Farming simulator with deep modding support via SMAPI"@,
            r.icon@ == "\u{1F33E}"@,
    {
        GameDescriptor {
            name: String::from_str("Stardew Valley"),
            registry_id: String::from_str("stardew_valley"),
            description: String::from_str("Farming simulator with deep modding support via SMAPI"),
            icon: String::from_str("\u{1F33E}"),
            kind: GameKind::StardewValley,
        }
    }

    /// The descriptor of Marvel Rivals.
    pub fn marvel_rivals() -> (r: GameDescriptor)
        ensures
            r.kind == GameKind::MarvelRivals,
            r.name@ == game_name_of(r.kind),
            r.registry_id@ == registry_id_of(r.kind),
            r.description@ == "Hero shooter by NetEase \u{2014} bypass enabled"@,
            r.icon@ == "\u{2694}\u{FE0F}"@,
    {
        GameDescriptor {
            name: String::from_str("Marvel Rivals"),
            registry_id: String::from_str("marvel_rivals"),
            description: String::from_str("Hero shooter by NetEase \u{2014} bypass enabled"),
            icon: String::from_str("\u{2694}\u{FE0F}"),
            kind: GameKind::MarvelRivals,
        }
    }

    /// The descriptor of Mad Max.
    pub fn mad_max() -> (r: GameDescriptor)
        ensures
            r.kind == GameKind::MadMax,
            r.name@ == game_name_of(r.kind),
            r.registry_id@ == registry_id_of(r.kind),
            r.description@ == "Open-world vehicular combat action-adventure set in a post-apocalyptic wasteland"@,
            r.icon@ == "\u{1F480}\u{1F525}\u{1F697}"@,
    {
        GameDescriptor {
            name: String::from_str("Mad Max: Fury Road"),
            registry_id: String::from_str("mad_max"),
            description: String::from_str(
                "Open-world vehicular combat action-adventure set in a post-apocalyptic wasteland",
            ),
            icon: String::from_str("\u{1F480}\u{1F525}\u{1F697}"),
            kind: GameKind::MadMax,
        }
    }

    /// The descriptor of a game.
    pub fn of(kind: GameKind) -> (r: GameDescriptor)
        ensures
            r.kind == kind,
            r.name@ == game_name_of(kind),
            r.registry_id@ == registry_id_of(kind),
    {
        match kind {
            GameKind::StardewValley => GameDescriptor::stardew_valley(),
            GameKind::MarvelRivals => GameDescriptor::marvel_rivals(),
            GameKind::MadMax => GameDescriptor::mad_max(),
        }
    }

    /// The places the configuration lists for this game, in order.
    pub fn search_paths(&self, config: &Config) -> (r: Vec<String>)
        ensures
            strings_view(r@) == match config.spec_search_paths(self.registry_id@) {
                Some(ps) => ps,
                None => Seq::<Seq<char>>::empty(),
            },
    {
        match config.search_paths(self.registry_id.as_str()) {
            Some(v) => v,
            None => {
                let v: Vec<String> = Vec::new();
                assert(strings_view(v@) =~= Seq::<Seq<char>>::empty());
                v
            },
        }
    }

    /// The first place listed for this game that exists, given the places found to exist.
    pub fn discover_path(&self, config: &Config, existing: &Vec<String>) -> (r: Option<String>)
        ensures
            match r {
                Some(p) => config.spec_search_paths(self.registry_id@) matches Some(ps)
                    && first_existing(ps, strings_view(existing@)) == Some(p@),
                None => config.spec_search_paths(self.registry_id@) matches Some(ps)
                    ==> first_existing(ps, strings_view(existing@)) is None,
            },
    {
        let candidates = match config.search_paths(self.registry_id.as_str()) {
            Some(v) => v,
            None => {
                return None;
            },
        };
        let ghost cs = strings_view(candidates@);
        let mut i: usize = 0;
        assert(cs.skip(0) =~= cs);
        while i < candidates.len()
            invariant
                i <= candidates@.len(),
                cs == strings_view(candidates@),
                config.spec_search_paths(self.registry_id@) == Some(cs),
                first_existing(cs, strings_view(existing@)) == first_existing(cs.skip(i as int), strings_view(existing@)),
            decreases candidates@.len() - i,
        {
            assert(cs.skip(i as int)[0] == candidates@[i as int]@);
            if contains_string(existing, candidates[i].as_str()) {
                return Some(copy_string(&candidates[i]));
            }
            assert(cs.skip(i as int).drop_first() =~= cs.skip(i + 1));
            i = i + 1;
        }
        None
    }
}

/// The games offered for selection, in the order they are shown.
pub fn registered_games() -> (r: Vec<GameDescriptor>)
    ensures
        r@.len() == 2,
        r@[0].kind == GameKind::StardewValley,
        r@[1].kind == GameKind::MadMax,
        forall|i: int| 0 <= i < 2 ==> (#[trigger] r@[i]).registry_id@ == registry_id_of(r@[i].kind)
            && r@[i].name@ == game_name_of(r@[i].kind),
{
    let mut v: Vec<GameDescriptor> = Vec::new();
    v.push(GameDescriptor::stardew_valley());
    v.push(GameDescriptor::mad_max());
    v
}

/// A game installation whose mods are managed.
pub trait Game {
    /// Which game this is.
    spec fn spec_kind(&self) -> GameKind;

    /// Where the game is installed.
    spec fn spec_game_path(&self) -> Seq<char>;

    /// Where the game looks for its mods.
    spec fn spec_game_mod_path(&self) -> Seq<char>;

    /// The descriptor of the game.
    fn descriptor(&self) -> (r: GameDescriptor)
        ensures
            r.kind == self.spec_kind(),
            r.registry_id@ == registry_id_of(self.spec_kind()),
            r.name@ == game_name_of(self.spec_kind()),
    ;

    /// How the game takes its mods.
    fn mod_mode(&self) -> (r: ModMode)
        ensures
            r == ModMode::Symlink,
    ;

    /// Where the game is installed.
    fn game_path(&self) -> (r: String)
        ensures
            r@ == self.spec_game_path(),
    ;

    /// Moves the game to another installation directory.
    fn set_game_path(&mut self, game_path: String)
        ensures
            final(self).spec_game_path() == game_path@,
            final(self).spec_kind() == old(self).spec_kind(),
    ;

    /// Where the game looks for its mods.
    fn game_mod_path(&self) -> (r: String)
        ensures
            r@ == self.spec_game_mod_path(),
    ;
}

/// Stardew Valley, modded through SMAPI; its mods go in `Mods` under the game.
pub struct StardewValley {
    game_path: String,
}

/// Marvel Rivals; its mods go in the `~mods` folder of its paks.
pub struct MarvelRivals {
    game_path: String,
}

/// Mad Max; its mods go straight into the game's directory.
pub struct MadMax {
    game_path: String,
}

impl StardewValley {
    /// The game installed at `game_path`.
    pub fn new(game_path: String) -> (r: StardewValley)
        ensures
            r.spec_game_path() == game_path@,
            r.spec_game_mod_path() == path_join(game_path@, "Mods"@),
    {
        StardewValley { game_path }
    }
}

impl MarvelRivals {
    /// The game installed at `game_path`.
    pub fn new(game_path: String) -> (r: MarvelRivals)
        ensures
            r.spec_game_path() == game_path@,
            r.spec_game_mod_path() == path_join(game_path@, "MarvelGame/Marvel/Content/Paks/~mods"@),
    {
        MarvelRivals { game_path }
    }
}

impl MadMax {
    /// The game installed at `game_path`.
    pub fn new(game_path: String) -> (r: MadMax)
        ensures
            r.spec_game_path() == game_path@,
            r.spec_game_mod_path() == game_path@,
    {
        MadMax { game_path }
    }
}

impl Game for StardewValley {
    open spec fn spec_kind(&self) -> GameKind {
        GameKind::StardewValley
    }

    closed spec fn spec_game_path(&self) -> Seq<char> {
        self.game_path@
    }

    closed spec fn spec_game_mod_path(&self) -> Seq<char> {
        path_join(self.game_path@, "Mods"@)
    }

    fn descriptor(&self) -> (r: GameDescriptor) {
        GameDescriptor::stardew_valley()
    }

    fn mod_mode(&self) -> (r: ModMode) {
        ModMode::Symlink
    }

    fn game_path(&self) -> (r: String) {
        copy_string(&self.game_path)
    }

    fn set_game_path(&mut self, game_path: String) {
        self.game_path = game_path;
    }

    fn game_mod_path(&self) -> (r: String) {
        join_path(self.game_path.as_str(), "Mods")
    }
}

impl Game for MarvelRivals {
    open spec fn spec_kind(&self) -> GameKind {
        GameKind::MarvelRivals
    }

    closed spec fn spec_game_path(&self) -> Seq<char> {
        self.game_path@
    }

    closed spec fn spec_game_mod_path(&self) -> Seq<char> {
        path_join(self.game_path@, "MarvelGame/Marvel/Content/Paks/~mods"@)
    }

    fn descriptor(&self) -> (r: GameDescriptor) {
        GameDescriptor::marvel_rivals()
    }

    fn mod_mode(&self) -> (r: ModMode) {
        ModMode::Symlink
    }

    fn game_path(&self) -> (r: String) {
        copy_string(&self.game_path)
    }

    fn set_game_path(&mut self, game_path: String) {
        self.game_path = game_path;
    }

    fn game_mod_path(&self) -> (r: String) {
        join_path(self.game_path.as_str(), "MarvelGame/Marvel/Content/Paks/~mods")
    }
}

impl Game for MadMax {
    open spec fn spec_kind(&self) -> GameKind {
        GameKind::MadMax
    }

    closed spec fn spec_game_path(&self) -> Seq<char> {
        self.game_path@
    }

    closed spec fn spec_game_mod_path(&self) -> Seq<char> {
        self.game_path@
    }

    fn descriptor(&self) -> (r: GameDescriptor) {
        GameDescriptor::mad_max()
    }

    fn mod_mode(&self) -> (r: ModMode) {
        ModMode::Symlink
    }

    fn game_path(&self) -> (r: String) {
        copy_string(&self.game_path)
    }

    fn set_game_path(&mut self, game_path: String) {
        self.game_path = game_path;
    }

    fn game_mod_path(&self) -> (r: String) {
        copy_string(&self.game_path)
    }
}

} // verus!
