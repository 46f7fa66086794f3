//! A browser of directories, used to pick where a game is installed.
use vstd::prelude::*;
use vstd::string::*;
use vstd::seq_lib::to_multiset_insert;
use crate::catalog::{dir_views, DirEntryInfo, DirEntryView};
use crate::staging::{file_name_of, opt_view, parent_of, path_file_name, path_parent};
use crate::text::{concat2, copy_string, lemma_seq_lt_total, lemma_seq_lt_transitive, seq_lt, str_lt, strings_view};

verus! {

/// Each element is no greater than the ones after it.
pub open spec fn sorted_le(s: Seq<Seq<char>>) -> bool {
    forall|i: int, j: int| 0 <= i < j < s.len() ==> !seq_lt(#[trigger] s[j], #[trigger] s[i])
}

/// The paths of the directories of a listing, in listing order.
pub open spec fn dir_paths(s: Seq<DirEntryView>) -> Seq<Seq<char>>
    decreases s.len(),
{
    if s.len() == 0 {
        Seq::empty()
    } else {
        let rest = dir_paths(s.drop_last());
        if s.last().is_dir { rest.push(s.last().path) } else { rest }
    }
}

/// The same paths, sorted.
pub open spec fn sorts(r: Seq<Seq<char>>, s: Seq<Seq<char>>) -> bool {
    sorted_le(r) && r.to_multiset() == s.to_multiset()
}

/// A name that the browser does not show: one that starts with a dot.
pub open spec fn hidden_name(n: Seq<char>) -> bool {
    n.len() > 0 && n[0] == '.'
}

/// The name under which a path is shown: its file name, or the empty text.
pub open spec fn shown_name(p: Seq<char>) -> Seq<char> {
    match path_file_name(p) {
        Some(n) => n,
        None => Seq::empty(),
    }
}

/// The entries the browser shows, as (name, path), in the order of `entries`.
pub open spec fn shown_entries(entries: Seq<Seq<char>>) -> Seq<(Seq<char>, Seq<char>)>
    decreases entries.len(),
{
    if entries.len() == 0 {
        Seq::empty()
    } else {
        let rest = shown_entries(entries.drop_last());
        let p = entries.last();
        if hidden_name(shown_name(p)) { rest } else { rest.push((shown_name(p), p)) }
    }
}

/// The message of a directory that cannot be read.
pub open spec fn unreadable_message(e: Seq<char>) -> Seq<char> {
    "Cannot read directory: "@ + e
}

/// Sorts paths: the result holds the same paths, each no greater than the next.
pub fn sort_paths(v: Vec<String>) -> (r: Vec<String>)
    ensures
        sorts(strings_view(r@), strings_view(v@)),
{
    let mut out: Vec<String> = Vec::new();
    let mut i: usize = 0;
    assert(strings_view(out@) =~= strings_view(v@).take(0));
    while i < v.len()
        invariant
            i <= v@.len(),
            sorted_le(strings_view(out@)),
            strings_view(out@).to_multiset() == strings_view(v@).take(i as int).to_multiset(),
        decreases v@.len() - i,
    {
        let x = copy_string(&v[i]);
        let ghost before = strings_view(out@);
        let mut k: usize = 0;
        while k < out.len()
            invariant
                k <= out@.len(),
                before == strings_view(out@),
                forall|j: int| 0 <= j < k ==> !seq_lt(x@, #[trigger] before[j]),
            ensures
                k <= out@.len(),
                forall|j: int| 0 <= j < k ==> !seq_lt(x@, #[trigger] before[j]),
                k < out@.len() ==> seq_lt(x@, before[k as int]),
            decreases out@.len() - k,
        {
            if str_lt(x.as_str(), out[k].as_str()) {
                break;
            }
            k = k + 1;
        }
        let ghost xv = x@;
        out.insert(k, x);
        proof {
            let after = strings_view(out@);
            assert(after =~= before.insert(k as int, xv));
            assert forall|a: int, b: int| 0 <= a < b < after.len() implies !seq_lt(#[trigger] after[b], #[trigger] after[a]) by {
                if a < k && b < k {
                } else if a < k && b == k {
                } else if a < k && b > k {
                    assert(after[b] == before[b - 1]);
                    if seq_lt(after[b], after[a]) {
                        lemma_seq_lt_total(after[b], after[a]);
                    }
                } else if a == k {
                    assert(after[b] == before[b - 1]);
                    if seq_lt(before[b - 1], xv) {
                        if (k as int) < b - 1 {
                            lemma_seq_lt_transitive(before[b - 1], xv, before[k as int]);
                        } else {
                            lemma_seq_lt_total(before[b - 1], xv);
                        }
                    }
                } else {
                    assert(after[a] == before[a - 1]);
                    assert(after[b] == before[b - 1]);
                }
            }
            to_multiset_insert(before, k as int, xv);
            assert(strings_view(v@).take(i + 1) =~= strings_view(v@).take(i as int).push(xv));
            vstd::seq_lib::to_multiset_build(strings_view(v@).take(i as int), xv);
        }
        i = i + 1;
    }
    assert(strings_view(v@).take(v@.len() as int) =~= strings_view(v@));
    out
}

/// A directory browser: the directory it is in, the subdirectories it found there,
/// and the error of the last listing, if it failed.
pub struct DirBrowser {
    visible: bool,
    current_dir: String,
    entries: Vec<String>,
    error: Option<String>,
}

impl DirBrowser {
    /// Whether the browser is shown.
    pub closed spec fn spec_visible(&self) -> bool {
        self.visible
    }

    /// Whether the browser is shown.
    pub fn is_visible(&self) -> (r: bool)
        ensures
            r == self.spec_visible(),
    {
        self.visible
    }

    /// Shows or hides the browser, leaving where it is and what it found.
    pub fn set_visible(&mut self, visible: bool)
        ensures
            final(self).spec_visible() == visible,
            final(self).spec_current_dir() == old(self).spec_current_dir(),
            final(self).spec_entries() == old(self).spec_entries(),
            final(self).spec_error() == old(self).spec_error(),
    {
        self.visible = visible;
    }

    /// The directory the browser is in.
    pub closed spec fn spec_current_dir(&self) -> Seq<char> {
        self.current_dir@
    }

    /// The subdirectories of the last listing that could be read, sorted.
    pub closed spec fn spec_entries(&self) -> Seq<Seq<char>> {
        strings_view(self.entries@)
    }

    /// The error of the last listing, if it failed.
    pub closed spec fn spec_error(&self) -> Option<Seq<char>> {
        opt_view(self.error)
    }

    /// A hidden browser in the home directory (or `/` where there is none), with
    /// nothing listed yet.
    pub fn new(home: Option<String>) -> (r: DirBrowser)
        ensures
            !r.spec_visible(),
            r.spec_current_dir() == match home {
                Some(h) => h@,
                None => "/"@,
            },
            r.spec_entries().len() == 0,
            r.spec_error() is None,
    {
        let start = match home {
            Some(h) => h,
            None => "/".to_string(),
        };
        let entries: Vec<String> = Vec::new();
        assert(strings_view(entries@) =~= Seq::<Seq<char>>::empty());
        DirBrowser { visible: false, current_dir: start, entries, error: None }
    }

    /// The directory the browser is in.
    pub fn current_dir(&self) -> (r: String)
        ensures
            r@ == self.spec_current_dir(),
    {
        copy_string(&self.current_dir)
    }

    /// The error of the last listing, if it failed.
    pub fn error(&self) -> (r: Option<String>)
        ensures
            opt_view(r) == self.spec_error(),
    {
        match &self.error {
            Some(e) => Some(copy_string(e)),
            None => None,
        }
    }

    /// Takes the listing of the current directory: its subdirectories, sorted, or the
    /// error that reading it gave, in which case the entries stay as they were.
    pub fn refresh(&mut self, listing: Result<Vec<DirEntryInfo>, String>)
        ensures
            final(self).spec_visible() == old(self).spec_visible(),
            final(self).spec_current_dir() == old(self).spec_current_dir(),
            match listing {
                Ok(l) => sorts(final(self).spec_entries(), dir_paths(dir_views(l@)))
                    && final(self).spec_error() is None,
                Err(e) => final(self).spec_entries() == old(self).spec_entries()
                    && final(self).spec_error() == Some(unreadable_message(e@)),
            },
    {
        match listing {
            Ok(l) => {
                let mut paths: Vec<String> = Vec::new();
                let mut i: usize = 0;
                while i < l.len()
                    invariant
                        i <= l@.len(),
                        strings_view(paths@) == dir_paths(dir_views(l@.take(i as int))),
                    decreases l@.len() - i,
                {
                    let ghost before = strings_view(paths@);
                    if l[i].is_dir {
                        paths.push(copy_string(&l[i].path));
                    }
                    proof {
                        let t = dir_views(l@.take(i + 1));
                        assert(t.drop_last() =~= dir_views(l@.take(i as int)));
                        assert(t.last() == l@[i as int]@);
                        if l@[i as int].is_dir {
                            assert(strings_view(paths@) =~= before.push(l@[i as int].path@));
                        } else {
                            assert(strings_view(paths@) =~= before);
                        }
                    }
                    i = i + 1;
                }
                assert(l@.take(l@.len() as int) =~= l@);
                self.entries = sort_paths(paths);
                self.error = None;
            },
            Err(e) => {
                proof {
                    reveal_strlit("Cannot read directory: ");
                }
                self.error = Some(concat2("Cannot read directory: ", e.as_str()));
            },
        }
    }

    /// Moves into `path` when it is a directory; says whether it moved, in which case
    /// the new directory is to be listed.
    pub fn navigate_to(&mut self, path: &str, is_dir: bool) -> (moved: bool)
        ensures
            moved == is_dir,
            final(self).spec_current_dir() == if is_dir { path@ } else { old(self).spec_current_dir() },
            final(self).spec_entries() == old(self).spec_entries(),
            final(self).spec_error() == old(self).spec_error(),
            final(self).spec_visible() == old(self).spec_visible(),
    {
        if is_dir {
            self.current_dir = path.to_string();
        }
        is_dir
    }

    /// Moves into the parent directory, when there is one; says whether it moved.
    pub fn navigate_up(&mut self) -> (moved: bool)
        ensures
            moved == path_parent(old(self).spec_current_dir()) is Some,
            final(self).spec_current_dir() == match path_parent(old(self).spec_current_dir()) {
                Some(p) => p,
                None => old(self).spec_current_dir(),
            },
            final(self).spec_entries() == old(self).spec_entries(),
            final(self).spec_error() == old(self).spec_error(),
            final(self).spec_visible() == old(self).spec_visible(),
    {
        match parent_of(self.current_dir.as_str()) {
            Some(p) => {
                self.current_dir = p;
                true
            },
            None => false,
        }
    }

    /// Takes a path typed by the user: the browser moves there when the text is not
    /// empty and names a directory; says whether it moved.
    pub fn set_path_text(&mut self, text: &str, is_dir: bool) -> (moved: bool)
        ensures
            moved == (text@.len() > 0 && is_dir),
            final(self).spec_current_dir() == if moved { text@ } else { old(self).spec_current_dir() },
            final(self).spec_entries() == old(self).spec_entries(),
            final(self).spec_error() == old(self).spec_error(),
            final(self).spec_visible() == old(self).spec_visible(),
    {
        if !text.is_empty() && is_dir {
            self.current_dir = text.to_string();
            true
        } else {
            false
        }
    }

    /// The subdirectories shown to the user, as (name, path), hidden ones left out.
    pub fn shown(&self) -> (r: Vec<(String, String)>)
        ensures
            r@.map_values(|e: (String, String)| (e.0@, e.1@)) == shown_entries(self.spec_entries()),
    {
        let ghost s = self.spec_entries();
        let mut out: Vec<(String, String)> = Vec::new();
        let mut i: usize = 0;
        while i < self.entries.len()
            invariant
                i <= s.len(),
                s == strings_view(self.entries@),
                out@.map_values(|e: (String, String)| (e.0@, e.1@)) == shown_entries(s.take(i as int)),
            decreases s.len() - i,
        {
            let p = &self.entries[i];
            let name = match file_name_of(p.as_str()) {
                Some(n) => n,
                None => String::new(),
            };
            let ghost before = out@.map_values(|e: (String, String)| (e.0@, e.1@));
            proof {
                let t = s.take(i + 1);
                assert(t.drop_last() =~= s.take(i as int));
                assert(t.last() == p@);
                assert(name@ == shown_name(p@));
            }
            let hidden = name.as_str().unicode_len() > 0 && name.as_str().get_char(0) == '.';
            if !hidden {
                out.push((name, copy_string(p)));
                proof {
                    assert(out@.map_values(|e: (String, String)| (e.0@, e.1@)) =~= before.push((shown_name(p@), p@)));
                }
            }
            i = i + 1;
        }
        assert(s.take(s.len() as int) =~= s);
        out
    }

    /// Chooses the current directory: the browser hides and gives it.
    pub fn select(&mut self) -> (r: String)
        ensures
            r@ == old(self).spec_current_dir(),
            !final(self).spec_visible(),
            final(self).spec_current_dir() == old(self).spec_current_dir(),
            final(self).spec_entries() == old(self).spec_entries(),
            final(self).spec_error() == old(self).spec_error(),
    {
        self.visible = false;
        copy_string(&self.current_dir)
    }
}

} // verus!
