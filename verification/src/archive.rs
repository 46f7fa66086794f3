//! Reading mod archives: which single directory, if any, wraps their content.
use vstd::prelude::*;
use std::io::Cursor;
use zip::read::ZipArchive;
use zip::result::ZipError;
use crate::error::{IoErrorKind, ModManagerError};
use crate::staging::{parent_of, path_parent};
use crate::text::{concat3, is_absolute, join_path, path_join, str_eq};

verus! {

#[verifier::external_type_specification]
#[verifier::external_body]
#[verifier::reject_recursive_types(R)]
pub struct ExZipArchive<R>(zip::read::ZipArchive<R>);

#[verifier::external_type_specification]
#[verifier::external_body]
pub struct ExZipError(zip::result::ZipError);

#[verifier::external_type_specification]
#[verifier::external_body]
#[verifier::reject_recursive_types(T)]
pub struct ExCursor<T>(std::io::Cursor<T>);

/// What `ZipArchive::new` makes of the bytes of an archive: `None` when it refuses
/// them; else, for each entry in index order, `None` when `by_index` fails on it,
/// else its `enclosed_name` as text (`None` when the crate deems the name unsafe)
/// and whether `is_dir` holds of it.
pub uninterp spec fn zip_read(bytes: Seq<u8>) -> Option<Seq<Option<(Option<Seq<char>>, bool)>>>;

/// The entries of an open archive, in the form of `zip_read`.
pub uninterp spec fn zip_entries(archive: ZipArchive<Cursor<Vec<u8>>>) -> Seq<Option<(Option<Seq<char>>, bool)>>;

/// The components into which `Path::components` splits a path, as text.
pub uninterp spec fn path_components(path: Seq<char>) -> Seq<Seq<char>>;

/// The views of a vector of strings.
pub open spec fn string_views(v: Seq<String>) -> Seq<Seq<char>> {
    v.map_values(|s: String| s@)
}

/// The view of an optional string.
pub open spec fn opt_string_view(o: Option<String>) -> Option<Seq<char>> {
    match o {
        Some(s) => Some(s@),
        None => None,
    }
}

/// Opens an archive held in memory with `zip::ZipArchive::new`. The archive's
/// entries are those that `zip_read` names for the bytes.
#[verifier::external_body]
fn zip_open(bytes: Vec<u8>) -> (r: Result<ZipArchive<Cursor<Vec<u8>>>, ZipError>)
    ensures
        match r {
            Ok(a) => zip_read(bytes@) == Some(zip_entries(a)),
            Err(_) => zip_read(bytes@) is None,
        },
{
    ZipArchive::new(Cursor::new(bytes))
}

/// The number of entries of an archive, from `ZipArchive::len`.
#[verifier::external_body]
fn zip_len(archive: &ZipArchive<Cursor<Vec<u8>>>) -> (r: usize)
    ensures
        r == zip_entries(*archive).len(),
{
    archive.len()
}

/// The enclosed name of entry `i`, converted to text, and whether it is a directory,
/// from `ZipArchive::by_index`, `ZipFile::enclosed_name` and `ZipFile::is_dir`.
/// Reading an entry leaves the archive's entries as they were; as the crate documents,
/// an enclosed name is never an absolute path.
#[verifier::external_body]
fn zip_entry(archive: &mut ZipArchive<Cursor<Vec<u8>>>, i: usize) -> (r: Result<(Option<String>, bool), ZipError>)
    requires
        i < zip_entries(*old(archive)).len(),
    ensures
        zip_entries(*final(archive)) == zip_entries(*old(archive)),
        match r {
            Ok((name, is_dir)) => zip_entries(*old(archive))[i as int] == Some((opt_string_view(name), is_dir))
                && (name matches Some(n) ==> !is_absolute(n@)),
            Err(_) => zip_entries(*old(archive))[i as int] is None,
        },
{
    archive.by_index(i).map(|f| (f.enclosed_name().map(|p| p.to_string_lossy().into_owned()), f.is_dir()))
}

/// The text of a zip error, from its `Display`. Nothing is stated of the text.
#[verifier::external_body]
fn zip_error_text(e: &ZipError) -> String {
    e.to_string()
}

/// The components of a path, from `Path::components`, each converted to text.
#[verifier::external_body]
fn components_of(path: &str) -> (r: Vec<String>)
    ensures
        string_views(r@) == path_components(path@),
{
    std::path::Path::new(path).components().map(|c| c.as_os_str().to_string_lossy().into_owned()).collect()
}

/// `n` is the one directory that wraps every entry: every entry that has components
/// starts with `n`, and some entry lies below the top level.
pub open spec fn wraps_in(cs: Seq<Seq<Seq<char>>>, n: Seq<char>) -> bool {
    &&& forall|i: int| 0 <= i < cs.len() && (#[trigger] cs[i]).len() > 0 ==> cs[i][0] == n
    &&& exists|i: int| 0 <= i < cs.len() && (#[trigger] cs[i]).len() > 1
}

/// The result of a wrap analysis over the components `cs` of an archive's entries.
pub open spec fn wrap_result(cs: Seq<Seq<Seq<char>>>, r: Option<Seq<char>>) -> bool {
    match r {
        Some(n) => wraps_in(cs, n),
        None => forall|n: Seq<char>| !wraps_in(cs, n),
    }
}

/// The components of an entry given its enclosed name; none for an unsafe name.
pub open spec fn entry_components(name: Option<Seq<char>>) -> Seq<Seq<char>> {
    match name {
        Some(p) => path_components(p),
        None => Seq::empty(),
    }
}

/// The components of each entry of a readable archive listing.
pub open spec fn listing_components(es: Seq<Option<(Option<Seq<char>>, bool)>>) -> Seq<Seq<Seq<char>>> {
    Seq::new(es.len(), |i: int| entry_components(es[i].unwrap().0))
}

/// Every entry of the listing could be read.
pub open spec fn all_readable(es: Seq<Option<(Option<Seq<char>>, bool)>>) -> bool {
    forall|i: int| 0 <= i < es.len() ==> (#[trigger] es[i]) is Some
}

/// The views of a list of component lists.
pub open spec fn components_views(v: Seq<Vec<String>>) -> Seq<Seq<Seq<char>>> {
    v.map_values(|c: Vec<String>| string_views(c@))
}

fn contains_str(v: &Vec<String>, s: &String) -> (r: bool)
    ensures
        r == string_views(v@).contains(s@),
{
    let mut i: usize = 0;
    while i < v.len()
        invariant
            i <= v@.len(),
            forall|j: int| 0 <= j < i ==> v@[j]@ != s@,
        decreases v@.len() - i,
    {
        if str_eq(v[i].as_str(), s.as_str()) {
            assert(string_views(v@)[i as int] == s@);
            return true;
        }
        i = i + 1;
    }
    proof {
        if string_views(v@).contains(s@) {
            let j = choose|j: int| 0 <= j < string_views(v@).len() && string_views(v@)[j] == s@;
            assert(v@[j]@ == s@);
        }
    }
    false
}

/// Decides which single top-level directory, if any, wraps the entries whose path
/// components are `components` (an entry without components is skipped).
pub fn wrap_directory(components: &Vec<Vec<String>>) -> (r: Option<String>)
    ensures
        wrap_result(components_views(components@), opt_string_view(r)),
{
    let ghost cs = components_views(components@);
    let mut top_names: Vec<String> = Vec::new();
    let ghost mut witness: Seq<int> = Seq::empty();
    let mut has_subdir = false;
    let mut i: usize = 0;
    while i < components.len()
        invariant
            i <= components@.len(),
            cs == components_views(components@),
            witness.len() == top_names@.len(),
            forall|a: int| 0 <= a < witness.len() ==> 0 <= #[trigger] witness[a] < i && cs[witness[a]].len() > 0
                && top_names@[a]@ == cs[witness[a]][0],
            forall|j: int| 0 <= j < i && (#[trigger] cs[j]).len() > 0 ==> string_views(top_names@).contains(cs[j][0]),
            forall|a: int, b: int| 0 <= a < b < top_names@.len() ==> (#[trigger] top_names@[a])@ != (#[trigger] top_names@[b])@,
            has_subdir == exists|j: int| 0 <= j < i && (#[trigger] cs[j]).len() > 1,
        decreases components@.len() - i,
    {
        let comps = &components[i];
        assert(cs[i as int] == string_views(comps@));
        if comps.len() > 0 {
            let first = &comps[0];
            if !contains_str(&top_names, first) {
                let ghost old_names = top_names@;
                top_names.push(first.clone());
                proof {
                    assert forall|j: int| 0 <= j < i + 1 && (#[trigger] cs[j]).len() > 0 implies string_views(top_names@).contains(cs[j][0]) by {
                        if j < i {
                            let a = choose|a: int| 0 <= a < string_views(old_names).len() && string_views(old_names)[a] == cs[j][0];
                            assert(string_views(top_names@)[a] == cs[j][0]);
                        } else {
                            assert(string_views(top_names@)[old_names.len() as int] == cs[j][0]);
                        }
                    }
                    witness = witness.push(i as int);
                    assert forall|a: int, b: int| 0 <= a < b < top_names@.len() implies (#[trigger] top_names@[a])@ != (#[trigger] top_names@[b])@ by {
                        if b == old_names.len() {
                            assert(string_views(old_names)[a] == top_names@[a]@);
                        }
                    }
                }
            } else {
                proof {
                    assert forall|j: int| 0 <= j < i + 1 && (#[trigger] cs[j]).len() > 0 implies string_views(top_names@).contains(cs[j][0]) by {
                    }
                }
            }
            if comps.len() > 1 {
                has_subdir = true;
            }
        }
        i = i + 1;
    }
    if top_names.len() == 1 && has_subdir {
        let n = top_names[0].clone();
        proof {
            assert forall|j: int| 0 <= j < cs.len() && (#[trigger] cs[j]).len() > 0 implies cs[j][0] == n@ by {
                let a = choose|a: int| 0 <= a < string_views(top_names@).len() && string_views(top_names@)[a] == cs[j][0];
            }
        }
        Some(n)
    } else {
        proof {
            assert forall|n: Seq<char>| !wraps_in(cs, n) by {
                if wraps_in(cs, n) {
                    let j = choose|j: int| 0 <= j < cs.len() && (#[trigger] cs[j]).len() > 1;
                    assert(string_views(top_names@).contains(cs[j][0]));
                    if top_names@.len() > 1 {
                        assert(witness[0] >= 0);
                        assert(witness[1] >= 0);
                        assert(top_names@[0]@ == n);
                        assert(top_names@[1]@ == n);
                    }
                }
            }
        }
        None
    }
}

/// Collects the path components of every entry of an archive held in memory,
/// stopping at the first entry that cannot be read.
fn zip_components(bytes: Vec<u8>) -> (r: Result<Vec<Vec<String>>, ModManagerError>)
    ensures
        match r {
            Ok(cs) => zip_read(bytes@) matches Some(es) && all_readable(es)
                && components_views(cs@) == listing_components(es),
            Err(e) => (e matches ModManagerError::IoError(kind, _) && kind == IoErrorKind::InvalidData) && (zip_read(bytes@) matches Some(es) ==> !all_readable(es)),
        },
{
    let ghost b = bytes@;
    let mut archive = match zip_open(bytes) {
        Ok(a) => a,
        Err(e) => {
            return Err(ModManagerError::IoError(IoErrorKind::InvalidData, zip_error_text(&e)));
        },
    };
    let ghost es = zip_entries(archive);
    let n = zip_len(&archive);
    let mut out: Vec<Vec<String>> = Vec::new();
    let mut i: usize = 0;
    while i < n
        invariant
            i <= n,
            n == es.len(),
            zip_read(b) == Some(es),
            b == bytes@,
            zip_entries(archive) == es,
            out@.len() == i,
            forall|j: int| 0 <= j < i ==> (#[trigger] es[j]) is Some,
            forall|j: int| 0 <= j < i ==> string_views((#[trigger] out@[j])@) == entry_components(es[j].unwrap().0),
        decreases n - i,
    {
        let name = match zip_entry(&mut archive, i) {
            Ok((name, _)) => name,
            Err(e) => {
                assert(es[i as int] is None);
                return Err(ModManagerError::IoError(IoErrorKind::InvalidData, zip_error_text(&e)));
            },
        };
        let comps = match name {
            Some(p) => components_of(p.as_str()),
            None => {
                let v: Vec<String> = Vec::new();
                assert(string_views(v@) =~= Seq::<Seq<char>>::empty());
                v
            },
        };
        out.push(comps);
        i = i + 1;
    }
    assert(components_views(out@) =~= listing_components(es));
    Ok(out)
}

/// One change that extracting an archive makes: a directory to create, or a file
/// to write with the content of the entry at `index`.
#[derive(Clone, Debug)]
pub enum ExtractAction {
    CreateDir(String),
    WriteFile { index: usize, path: String },
}

/// The mathematical content of an `ExtractAction`.
pub enum ExtractActionView {
    CreateDir(Seq<char>),
    WriteFile { index: int, path: Seq<char> },
}

impl View for ExtractAction {
    type V = ExtractActionView;

    open spec fn view(&self) -> ExtractActionView {
        match self {
            ExtractAction::CreateDir(p) => ExtractActionView::CreateDir(p@),
            ExtractAction::WriteFile { index, path } => ExtractActionView::WriteFile { index: *index as int, path: path@ },
        }
    }
}

/// The views of a sequence of extraction actions.
pub open spec fn extract_views(s: Seq<ExtractAction>) -> Seq<ExtractActionView> {
    s.map_values(|a: ExtractAction| a@)
}

/// What extracting entry `i` under `dest` does: nothing for an unsafe name; a
/// directory for a directory entry; else the file's parent directory, then the file.
pub open spec fn entry_actions(i: int, e: (Option<Seq<char>>, bool), dest: Seq<char>) -> Seq<ExtractActionView> {
    match e.0 {
        None => Seq::empty(),
        Some(p) => {
            let t = path_join(dest, p);
            if e.1 {
                seq![ExtractActionView::CreateDir(t)]
            } else {
                match path_parent(t) {
                    Some(q) => seq![ExtractActionView::CreateDir(q), ExtractActionView::WriteFile { index: i, path: t }],
                    None => seq![ExtractActionView::WriteFile { index: i, path: t }],
                }
            }
        },
    }
}

/// What extracting the first `k` entries of a listing under `dest` does, in order.
pub open spec fn extract_actions(es: Seq<Option<(Option<Seq<char>>, bool)>>, dest: Seq<char>, k: nat) -> Seq<ExtractActionView>
    decreases k,
{
    if k == 0 {
        Seq::empty()
    } else {
        extract_actions(es, dest, (k - 1) as nat) + entry_actions(k - 1, es[k - 1].unwrap(), dest)
    }
}

/// The changes that extracting an archive makes, and the error that stopped it
/// at an entry that could not be read, if one did.
pub struct Extraction {
    pub actions: Vec<ExtractAction>,
    pub failure: Option<ModManagerError>,
}

/// `x` extracts the listing `es` under `dest`: every entry when all can be read,
/// else the entries before the first unreadable one, then fails with an `IoError`.
pub open spec fn extracts(es: Seq<Option<(Option<Seq<char>>, bool)>>, dest: Seq<char>, x: Extraction) -> bool {
    match x.failure {
        None => all_readable(es) && extract_views(x.actions@) == extract_actions(es, dest, es.len()),
        Some(e) => (e matches ModManagerError::IoError(kind, _) && kind == IoErrorKind::InvalidData) && exists|k: int| 0 <= k < es.len() && #[trigger] es[k] is None
            && (forall|j: int| 0 <= j < k ==> (#[trigger] es[j]) is Some)
            && extract_views(x.actions@) == extract_actions(es, dest, k as nat),
    }
}

/// Every file that the actions write lies under `dest`: its path starts with `dest`.
pub open spec fn writes_under(s: Seq<ExtractActionView>, dest: Seq<char>) -> bool {
    forall|k: int| 0 <= k < s.len() ==> (#[trigger] s[k] matches ExtractActionView::WriteFile { path, .. } ==> dest.is_prefix_of(path))
}

proof fn lemma_join_under(dest: Seq<char>, p: Seq<char>)
    requires
        !is_absolute(p),
    ensures
        dest.is_prefix_of(path_join(dest, p)),
{
    let j = path_join(dest, p);
    assert(j.subrange(0, dest.len() as int) =~= dest);
}

proof fn lemma_entry_writes_under(i: int, e: (Option<Seq<char>>, bool), dest: Seq<char>)
    requires
        e.0 matches Some(p) ==> !is_absolute(p),
    ensures
        writes_under(entry_actions(i, e, dest), dest),
{
    if let Some(p) = e.0 {
        lemma_join_under(dest, p);
    }
}

fn entry_actions_exec(i: usize, name: Option<String>, is_dir: bool, dest: &str, out: &mut Vec<ExtractAction>)
    ensures
        extract_views(final(out)@) == extract_views(old(out)@) + entry_actions(i as int, (opt_string_view(name), is_dir), dest@),
{
    let ghost before = extract_views(out@);
    match name {
        None => {
            assert(extract_views(out@) =~= before + Seq::<ExtractActionView>::empty());
        },
        Some(p) => {
            let t = join_path(dest, p.as_str());
            if is_dir {
                out.push(ExtractAction::CreateDir(t));
                assert(extract_views(out@) =~= before + seq![ExtractActionView::CreateDir(path_join(dest@, p@))]);
            } else {
                match parent_of(t.as_str()) {
                    Some(q) => {
                        out.push(ExtractAction::CreateDir(q));
                        out.push(ExtractAction::WriteFile { index: i, path: t });
                    },
                    None => {
                        out.push(ExtractAction::WriteFile { index: i, path: t });
                    },
                }
                assert(extract_views(out@) =~= before + entry_actions(i as int, (opt_string_view(Some(p)), is_dir), dest@));
            }
        },
    }
}

/// What extracting one entry, at position `index` and named `name` (`None` when its
/// name is unsafe), does under `dest`.
pub fn entry_extraction(index: usize, name: Option<String>, is_dir: bool, dest: &str) -> (r: Vec<ExtractAction>)
    ensures
        extract_views(r@) == entry_actions(index as int, (opt_string_view(name), is_dir), dest@),
{
    let mut out: Vec<ExtractAction> = Vec::new();
    entry_actions_exec(index, name, is_dir, dest, &mut out);
    assert(extract_views(out@) =~= Seq::<ExtractActionView>::empty() + entry_actions(index as int, (opt_string_view(name), is_dir), dest@));
    out
}

/// Extracting an archive held in memory under `dest`: `Err` with the text of the
/// crate's error when the archive cannot be opened; else the changes to make.
pub fn extract_zip(bytes: Vec<u8>, dest: &str) -> (r: Result<Extraction, String>)
    ensures
        match r {
            Ok(x) => zip_read(bytes@) matches Some(es) && extracts(es, dest@, x)
                && writes_under(extract_views(x.actions@), dest@),
            Err(_) => zip_read(bytes@) is None,
        },
{
    let ghost b = bytes@;
    let mut archive = match zip_open(bytes) {
        Ok(a) => a,
        Err(e) => {
            return Err(zip_error_text(&e));
        },
    };
    let ghost es = zip_entries(archive);
    let n = zip_len(&archive);
    let mut out: Vec<ExtractAction> = Vec::new();
    let mut i: usize = 0;
    while i < n
        invariant
            i <= n,
            n == es.len(),
            zip_read(b) == Some(es),
            b == bytes@,
            zip_entries(archive) == es,
            forall|j: int| 0 <= j < i ==> (#[trigger] es[j]) is Some,
            extract_views(out@) == extract_actions(es, dest@, i as nat),
            writes_under(extract_views(out@), dest@),
        decreases n - i,
    {
        match zip_entry(&mut archive, i) {
            Ok((name, is_dir)) => {
                let ghost before = extract_views(out@);
                proof {
                    lemma_entry_writes_under(i as int, (opt_string_view(name), is_dir), dest@);
                }
                entry_actions_exec(i, name, is_dir, dest, &mut out);
                proof {
                    let added = entry_actions(i as int, (opt_string_view(name), is_dir), dest@);
                    assert forall|k: int| 0 <= k < extract_views(out@).len() implies
                        (#[trigger] extract_views(out@)[k] matches ExtractActionView::WriteFile { path, .. } ==> dest@.is_prefix_of(path)) by {
                        if k >= before.len() {
                            assert(extract_views(out@)[k] == added[k - before.len()]);
                        } else {
                            assert(extract_views(out@)[k] == before[k]);
                        }
                    }
                }
            },
            Err(e) => {
                let x = Extraction { actions: out, failure: Some(ModManagerError::IoError(IoErrorKind::InvalidData, zip_error_text(&e))) };
                assert(es[i as int] is None);
                return Ok(x);
            },
        }
        i = i + 1;
    }
    Ok(Extraction { actions: out, failure: None })
}

/// Zip archives and the checks made on their layout.
pub struct Installer;

impl Installer {
    /// Checks whether a zip archive, given by its bytes, wraps its content in a single
    /// top-level directory: `Some(dir_name)` if it does, `None` if files are scattered at its root.
    pub fn zip_wrap_directory(bytes: Vec<u8>) -> (r: Result<Option<String>, ModManagerError>)
        ensures
            match r {
                Ok(o) => zip_read(bytes@) matches Some(es) && all_readable(es)
                    && wrap_result(listing_components(es), opt_string_view(o)),
                Err(e) => (e matches ModManagerError::IoError(kind, _) && kind == IoErrorKind::InvalidData) && (zip_read(bytes@) matches Some(es) ==> !all_readable(es)),
            },
    {
        let cs = zip_components(bytes)?;
        Ok(wrap_directory(&cs))
    }

    /// The changes that installing the zip archive, given by its bytes, into `target`
    /// makes; an archive that cannot be opened is an `IoError` with no change.
    pub fn install_from_zip(bytes: Vec<u8>, target: &str) -> (r: Extraction)
        ensures
            match zip_read(bytes@) {
                Some(es) => extracts(es, target@, r),
                None => r.actions@.len() == 0 && (r.failure matches Some(e) && (e matches ModManagerError::IoError(kind, _) && kind == IoErrorKind::InvalidData)),
            },
            writes_under(extract_views(r.actions@), target@),
    {
        match extract_zip(bytes, target) {
            Ok(x) => x,
            Err(t) => {
                let x = Extraction { actions: Vec::new(), failure: Some(ModManagerError::IoError(IoErrorKind::InvalidData, t)) };
                assert(extract_views(x.actions@) =~= Seq::<ExtractActionView>::empty());
                x
            },
        }
    }
}

/// The message of an archive without a single wrapping directory.
pub open spec fn not_wrapped_message(label: Seq<char>, path: Seq<char>) -> Seq<char> {
    label + " "@ + path + " does not have a single wrapping directory"@
}

/// Staging of zip archives.
pub struct ZipStager;

impl ZipStager {
    /// The directory that wraps the content of the zip archive at `zip_path`, given by its bytes.
    pub fn get_mod_name(zip_path: &str, bytes: Vec<u8>) -> (r: Result<String, ModManagerError>)
        ensures
            match r {
                Ok(n) => zip_read(bytes@) matches Some(es) && all_readable(es)
                    && wraps_in(listing_components(es), n@),
                Err(ModManagerError::InvalidMod(m)) => zip_read(bytes@) matches Some(es) && all_readable(es)
                    && (forall|n: Seq<char>| !wraps_in(listing_components(es), n))
                    && m@ == not_wrapped_message("Zip"@, zip_path@),
                Err(e) => (e matches ModManagerError::IoError(kind, _) && kind == IoErrorKind::InvalidData) && (zip_read(bytes@) matches Some(es) ==> !all_readable(es)),
            },
    {
        match Installer::zip_wrap_directory(bytes)? {
            Some(n) => Ok(n),
            None => {
                proof {
                    reveal_strlit("Zip ");
                    reveal_strlit("Zip");
                    reveal_strlit(" ");
                }
                Err(ModManagerError::InvalidMod(concat3("Zip ", zip_path, " does not have a single wrapping directory")))
            },
        }
    }
}

impl ZipStager {
    /// The directory that the zip archive at `zip_path` is staged under, given its bytes
    /// when the file could be read: the directory that wraps its content, or none when the
    /// file or the archive cannot be read or no single directory wraps it; staging then
    /// goes by the archive's name.
    pub fn stage_root(zip_path: &str, bytes: Option<Vec<u8>>) -> (r: Option<String>)
        ensures
            r matches Some(n) ==> (bytes matches Some(b) && zip_read(b@) matches Some(es) && all_readable(es)
                && wraps_in(listing_components(es), n@)),
            (bytes matches Some(b) && zip_read(b@) matches Some(es) && all_readable(es)
                && exists|n: Seq<char>| #[trigger] wraps_in(listing_components(es), n)) ==> r is Some,
    {
        match bytes {
            None => None,
            Some(b) => match ZipStager::get_mod_name(zip_path, b) {
                Ok(n) => Some(n),
                Err(_) => None,
            },
        }
    }
}

/// Staging of rar archives.
pub struct RarStager;

impl RarStager {
    /// The directory that wraps the content of the rar archive at `rar_path`, given the
    /// file names that listing it gave, or the text of the error that stopped the listing.
    pub fn get_mod_name(rar_path: &str, listing: Result<Vec<String>, String>) -> (r: Result<String, ModManagerError>)
        ensures
            match listing {
                Err(msg) => r == Err::<String, ModManagerError>(ModManagerError::IoError(IoErrorKind::InvalidData, msg)),
                Ok(names) => {
                    let cs = Seq::new(names@.len(), |i: int| path_components(names@[i]@));
                    match r {
                        Ok(n) => wraps_in(cs, n@),
                        Err(ModManagerError::InvalidMod(m)) => (forall|n: Seq<char>| !wraps_in(cs, n))
                            && m@ == not_wrapped_message("RAR"@, rar_path@),
                        Err(_) => false,
                    }
                },
            },
    {
        let names = match listing {
            Ok(names) => names,
            Err(msg) => {
                return Err(ModManagerError::IoError(IoErrorKind::InvalidData, msg));
            },
        };
        let mut cs: Vec<Vec<String>> = Vec::new();
        let mut i: usize = 0;
        while i < names.len()
            invariant
                i <= names@.len(),
                cs@.len() == i,
                forall|j: int| 0 <= j < i ==> string_views((#[trigger] cs@[j])@) == path_components(names@[j]@),
            decreases names@.len() - i,
        {
            cs.push(components_of(names[i].as_str()));
            i = i + 1;
        }
        let ghost want = Seq::new(names@.len(), |i: int| path_components(names@[i]@));
        assert(components_views(cs@) =~= want);
        match wrap_directory(&cs) {
            Some(n) => Ok(n),
            None => {
                proof {
                    reveal_strlit("RAR ");
                    reveal_strlit("RAR");
                    reveal_strlit(" ");
                }
                Err(ModManagerError::InvalidMod(concat3("RAR ", rar_path, " does not have a single wrapping directory")))
            },
        }
    }
}

/// The components of each of a listing's file names.
pub open spec fn name_components(names: Seq<String>) -> Seq<Seq<Seq<char>>> {
    Seq::new(names.len(), |i: int| path_components(names[i]@))
}

impl RarStager {
    /// The directory that the rar archive at `rar_path` is staged under, given the file
    /// names that listing it gave: the directory that wraps its content, or none when the
    /// listing failed or no single directory wraps it; staging then goes by the archive's name.
    pub fn stage_root(rar_path: &str, listing: Result<Vec<String>, String>) -> (r: Option<String>)
        ensures
            r matches Some(n) ==> (listing matches Ok(names) && wraps_in(name_components(names@), n@)),
            (listing matches Ok(names) && exists|n: Seq<char>| #[trigger] wraps_in(name_components(names@), n))
                ==> r is Some,
    {
        match RarStager::get_mod_name(rar_path, listing) {
            Ok(n) => Some(n),
            Err(_) => None,
        }
    }
}

} // verus!
