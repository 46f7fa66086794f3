//! What a game needs before it can be modded: SMAPI for Stardew Valley, the UTOC
//! signature bypass for Marvel Rivals. Downloading, writing files and walking
//! directories happen outside; this module decides what to fetch, where it goes
//! and what a failure is reported as.
use vstd::prelude::*;
use vstd::string::*;
use crate::archive::{extract_views, extract_zip, extracts, writes_under, zip_read, Extraction};
use crate::error::ModManagerError;
use crate::games::{Game, MarvelRivals, StardewValley};
use crate::staging::opt_view;
use crate::text::{concat2, concat3, copy_string, join_path, path_join};

verus! {

/// The first step of a game's setup: nothing to do, or a download of `url`
/// to be extracted under `temp_dir`.
#[derive(Clone, Debug)]
pub enum SetupStart {
    AlreadyInstalled,
    Download { url: String, temp_dir: String },
}

/// The mathematical content of a `SetupStart`.
pub enum SetupStartView {
    AlreadyInstalled,
    Download { url: Seq<char>, temp_dir: Seq<char> },
}

impl View for SetupStart {
    type V = SetupStartView;

    open spec fn view(&self) -> SetupStartView {
        match self {
            SetupStart::AlreadyInstalled => SetupStartView::AlreadyInstalled,
            SetupStart::Download { url, temp_dir } => SetupStartView::Download { url: url@, temp_dir: temp_dir@ },
        }
    }
}

/// The SMAPI release that is installed.
pub open spec fn smapi_version() -> Seq<char> {
    "4.5.2"@
}

/// Where the installer of SMAPI release `v` is published.
pub open spec fn smapi_url(v: Seq<char>) -> Seq<char> {
    "https://github.com/Pathoschild/SMAPI/releases/download/"@ + v + "/SMAPI-"@ + v + "-installer.zip"@
}

/// Where the UTOC signature bypass is published.
pub open spec fn utoc_url() -> Seq<char> {
    "https://github.com/DeathChaos25/MarvelRivalsUTOCSignatureBypass/releases/download/1.0.0/Marvel.Rivals.UTOC.Signature.Bypass.Patch.zip"@
}

/// How a setup starts: nothing when the marker file exists, else a download from
/// the override URL if one is set, else from `default_url`.
pub open spec fn setup_start(marker_exists: bool, url_override: Option<Seq<char>>, default_url: Seq<char>, temp_dir: Seq<char>) -> SetupStartView {
    if marker_exists {
        SetupStartView::AlreadyInstalled
    } else {
        SetupStartView::Download {
            url: match url_override {
                Some(u) => u,
                None => default_url,
            },
            temp_dir,
        }
    }
}

/// The message of a failed download of `what`.
pub open spec fn download_failed_message(what: Seq<char>, detail: Seq<char>) -> Seq<char> {
    "Failed to download "@ + what + ": "@ + detail
}

/// The message of a downloaded archive of `what` that cannot be opened.
pub open spec fn parse_failed_message(what: Seq<char>, detail: Seq<char>) -> Seq<char> {
    "Failed to parse "@ + what + " archive: "@ + detail
}

/// The platform directories of SMAPI, in the order in which they are looked for.
pub open spec fn smapi_platforms() -> Seq<Seq<char>> {
    seq!["Linux"@, "Unix"@, "Mono"@, "linux"@]
}

/// The candidate platform directories under the `internal` directory of `parent`.
pub open spec fn smapi_candidates(parent: Seq<char>) -> Seq<Seq<char>> {
    smapi_platforms().map_values(|p: Seq<char>| path_join(path_join(parent, "internal"@), p))
}

/// The message when the archive has no `internal` directory.
pub open spec fn missing_internal_message() -> Seq<char> {
    "SMAPI archive missing 'internal' directory"@
}

/// The message when no platform directory exists.
pub open spec fn missing_platform_message() -> Seq<char> {
    "SMAPI archive missing Linux/Unix/Mono platform directory"@
}

/// The index of the first candidate that is among `dirs`, if any.
pub open spec fn first_existing_index(cands: Seq<Seq<char>>, dirs: Seq<Seq<char>>) -> Option<int> {
    if exists|i: int| 0 <= i < cands.len() && dirs.contains(#[trigger] cands[i]) {
        Some(choose|i: int| 0 <= i < cands.len() && dirs.contains(#[trigger] cands[i])
            && forall|j: int| 0 <= j < i ==> !dirs.contains(#[trigger] cands[j]))
    } else {
        None
    }
}

/// The text of the error of a failed download of `what`.
pub fn setup_download_error(what: &str, detail: &str) -> (r: ModManagerError)
    ensures
        r matches ModManagerError::GameSetupFailed(m) && m@ == download_failed_message(what@, detail@),
{
    proof {
        reveal_strlit("Failed to download ");
        reveal_strlit(": ");
    }
    let head = concat2("Failed to download ", what);
    ModManagerError::GameSetupFailed(concat3(head.as_str(), ": ", detail))
}

/// The changes that extracting the downloaded archive of `what` under `dest` makes;
/// an archive that cannot be opened fails the setup with no change.
pub fn setup_extraction(bytes: Vec<u8>, dest: &str, what: &str) -> (r: Extraction)
    ensures
        match zip_read(bytes@) {
            Some(es) => extracts(es, dest@, r),
            None => r.actions@.len() == 0 && (r.failure matches Some(ModManagerError::GameSetupFailed(m))
                && exists|d: Seq<char>| m@ == parse_failed_message(what@, d)),
        },
        writes_under(extract_views(r.actions@), dest@),
{
    match extract_zip(bytes, dest) {
        Ok(x) => x,
        Err(t) => {
            proof {
                reveal_strlit("Failed to parse ");
                reveal_strlit(" archive: ");
            }
            let head = concat2("Failed to parse ", what);
            let m = concat3(head.as_str(), " archive: ", t.as_str());
            assert(m@ == parse_failed_message(what@, t@));
            let x = Extraction { actions: Vec::new(), failure: Some(ModManagerError::GameSetupFailed(m)) };
            assert(extract_views(x.actions@) =~= Seq::<crate::archive::ExtractActionView>::empty());
            x
        },
    }
}

/// The platform directories of SMAPI that may exist under the `internal` directory
/// of `parent`, in the order in which they are looked for.
pub fn smapi_platform_candidates(parent: &str) -> (r: Vec<String>)
    ensures
        crate::text::strings_view(r@) == smapi_candidates(parent@),
{
    proof {
        reveal_strlit("internal");
        reveal_strlit("Linux");
        reveal_strlit("Unix");
        reveal_strlit("Mono");
        reveal_strlit("linux");
    }
    let internal = join_path(parent, "internal");
    let v = vec![
        join_path(internal.as_str(), "Linux"),
        join_path(internal.as_str(), "Unix"),
        join_path(internal.as_str(), "Mono"),
        join_path(internal.as_str(), "linux"),
    ];
    assert(crate::text::strings_view(v@) =~= smapi_candidates(parent@));
    v
}

/// The platform directory of an extracted SMAPI archive, given the directory that
/// holds its `internal` directory (`None` when none was found) and the candidates
/// that exist as directories: the first existing candidate.
pub fn smapi_platform_dir(found: Option<String>, existing_dirs: &Vec<String>) -> (r: Result<String, ModManagerError>)
    ensures
        match found {
            None => r matches Err(ModManagerError::InvalidConfiguration(m)) && m@ == missing_internal_message(),
            Some(p) => match first_existing_index(smapi_candidates(p@), crate::text::strings_view(existing_dirs@)) {
                Some(i) => r matches Ok(d) && d@ == smapi_candidates(p@)[i],
                None => r matches Err(ModManagerError::InvalidConfiguration(m)) && m@ == missing_platform_message(),
            },
        },
{
    let parent = match found {
        Some(p) => p,
        None => {
            proof {
                reveal_strlit("SMAPI archive missing 'internal' directory");
            }
            return Err(ModManagerError::InvalidConfiguration("SMAPI archive missing 'internal' directory".to_string()));
        },
    };
    let cands = smapi_platform_candidates(parent.as_str());
    let ghost cs = smapi_candidates(parent@);
    let ghost ds = crate::text::strings_view(existing_dirs@);
    let mut i: usize = 0;
    while i < cands.len()
        invariant
            i <= cands@.len(),
            crate::text::strings_view(cands@) == cs,
            cs == smapi_candidates(parent@),
            found matches Some(p) && p@ == parent@,
            ds == crate::text::strings_view(existing_dirs@),
            forall|j: int| 0 <= j < i ==> !ds.contains(#[trigger] cs[j]),
        decreases cands@.len() - i,
    {
        if crate::games::contains_string(existing_dirs, &cands[i]) {
            let d = copy_string(&cands[i]);
            proof {
                assert(cs[i as int] == cands@[i as int]@);
                assert(ds.contains(cs[i as int]));
                let k = first_existing_index(cs, ds)->0;
                if k < i {
                    assert(!ds.contains(cs[k]));
                }
                if k > i {
                    assert(!ds.contains(cs[i as int]));
                }
            }
            return Ok(d);
        }
        proof {
            assert(cs[i as int] == cands@[i as int]@);
        }
        i = i + 1;
    }
    proof {
        reveal_strlit("SMAPI archive missing Linux/Unix/Mono platform directory");
    }
    Err(ModManagerError::InvalidConfiguration("SMAPI archive missing Linux/Unix/Mono platform directory".to_string()))
}

impl StardewValley {
    /// The name of what makes the game take mods, as setup messages name it.
    pub fn setup_name(&self) -> (r: &'static str)
        ensures
            r@ == "SMAPI"@,
    {
        proof {
            reveal_strlit("SMAPI");
        }
        "SMAPI"
    }

    /// The file whose presence shows that SMAPI is installed.
    pub fn smapi_marker(&self) -> (r: String)
        ensures
            r@ == path_join(self.spec_game_path(), "SMAPI.Installer.dll"@),
    {
        proof {
            reveal_strlit("SMAPI.Installer.dll");
        }
        let g = self.game_path();
        join_path(g.as_str(), "SMAPI.Installer.dll")
    }

    /// How installing SMAPI starts, given whether its marker exists, the URL set
    /// to override the default one, and the system's temporary directory.
    pub fn pre_setup_start(&self, marker_exists: bool, url_override: Option<String>, temp_root: &str) -> (r: SetupStart)
        ensures
            r@ == setup_start(marker_exists, opt_view(url_override), smapi_url(smapi_version()),
                path_join(temp_root@, "moda-smapi"@)),
    {
        if marker_exists {
            return SetupStart::AlreadyInstalled;
        }
        proof {
            reveal_strlit("moda-smapi");
            reveal_strlit("4.5.2");
            reveal_strlit("https://github.com/Pathoschild/SMAPI/releases/download/");
            reveal_strlit("/SMAPI-");
            reveal_strlit("-installer.zip");
        }
        let url = match url_override {
            Some(u) => u,
            None => {
                let v = "4.5.2";
                let a = concat3("https://github.com/Pathoschild/SMAPI/releases/download/", v, "/SMAPI-");
                let u = concat3(a.as_str(), v, "-installer.zip");
                assert(u@ == smapi_url(smapi_version()));
                u
            },
        };
        SetupStart::Download { url, temp_dir: join_path(temp_root, "moda-smapi") }
    }
}

impl MarvelRivals {
    /// The name of what makes the game take mods, as setup messages name it.
    pub fn setup_name(&self) -> (r: &'static str)
        ensures
            r@ == "UTOC signature bypass"@,
    {
        proof {
            reveal_strlit("UTOC signature bypass");
        }
        "UTOC signature bypass"
    }

    /// The directory into which the UTOC signature bypass is installed.
    pub fn utoc_target_dir(&self) -> (r: String)
        ensures
            r@ == path_join(self.spec_game_path(), "MarvelGame/Marvel/Binaries/Win64"@),
    {
        proof {
            reveal_strlit("MarvelGame/Marvel/Binaries/Win64");
        }
        let g = self.game_path();
        join_path(g.as_str(), "MarvelGame/Marvel/Binaries/Win64")
    }

    /// The file whose presence shows that the UTOC signature bypass is installed.
    pub fn utoc_marker(&self) -> (r: String)
        ensures
            r@ == path_join(
                path_join(self.spec_game_path(), "MarvelGame/Marvel/Binaries/Win64"@),
                "plugins/MarvelRivalsUTOCSignatureBypass.asi"@,
            ),
    {
        proof {
            reveal_strlit("plugins/MarvelRivalsUTOCSignatureBypass.asi");
        }
        let t = self.utoc_target_dir();
        join_path(t.as_str(), "plugins/MarvelRivalsUTOCSignatureBypass.asi")
    }

    /// How installing the UTOC signature bypass starts, given whether its marker
    /// exists, the URL set to override the default one, and the system's temporary directory.
    pub fn pre_setup_start(&self, marker_exists: bool, url_override: Option<String>, temp_root: &str) -> (r: SetupStart)
        ensures
            r@ == setup_start(marker_exists, opt_view(url_override), utoc_url(),
                path_join(temp_root@, "moda-marvel-rivals-utoc"@)),
    {
        if marker_exists {
            return SetupStart::AlreadyInstalled;
        }
        proof {
            reveal_strlit("moda-marvel-rivals-utoc");
            reveal_strlit("https://github.com/DeathChaos25/MarvelRivalsUTOCSignatureBypass/releases/download/1.0.0/Marvel.Rivals.UTOC.Signature.Bypass.Patch.zip");
        }
        let url = match url_override {
            Some(u) => u,
            None => "https://github.com/DeathChaos25/MarvelRivalsUTOCSignatureBypass/releases/download/1.0.0/Marvel.Rivals.UTOC.Signature.Bypass.Patch.zip".to_string(),
        };
        SetupStart::Download { url, temp_dir: join_path(temp_root, "moda-marvel-rivals-utoc") }
    }
}

} // verus!
