//! Properties that relate the operations of the library to one another.
use vstd::prelude::*;
use crate::archive::wraps_in;
use crate::catalog::{reconcile_map, SourceModView, StagedModView};
use crate::mod_state::{
    apply_disabled, apply_downloaded, apply_enabled, apply_remove, apply_staged, apply_unstaged, disabled, enabled,
    staged, unstaged, distinct_names, keyed_by_name, lists, ModStateView, RepoWriteView,
};
use crate::text::{lemma_seq_lt_irreflexive, seq_lt};
use crate::sync_manager::{after_disable, after_unstage, selected, selection, Selection};
use crate::repository::{kind_of_text, kind_text, record_of, row_of, status_of_text, status_text};
use crate::text::{ends_with, strip_suffix};
use crate::types::{ModEntryKind, ModEntryView, ModStatus, ReconciledModView};

verus! {

/// Disabling a mod right after enabling it gives back the record of the staged,
/// unlinked mod it was.
pub proof fn law_disable_undoes_enable(m: ReconciledModView, e: ModEntryView)
    requires
        m.status == ModStatus::Staged,
        m.game_entry is None,
    ensures
        disabled(enabled(m, e)) == m,
{
}

/// In a state, disabling a staged, unlinked mod right after enabling it leaves the
/// records as they were.
pub proof fn law_state_disable_undoes_enable(s: ModStateView, e: ModEntryView)
    requires
        s.mods.contains_key(e.name),
        s.mods[e.name].status == ModStatus::Staged,
        s.mods[e.name].game_entry is None,
    ensures
        apply_disabled(apply_enabled(s, e), e.name).mods == s.mods,
{
    assert(apply_disabled(apply_enabled(s, e), e.name).mods =~= s.mods);
}

/// Unstaging a mod right after staging it gives back the record of the merely
/// downloaded mod it was.
pub proof fn law_unstage_undoes_stage(m: ReconciledModView, e: ModEntryView)
    requires
        m.status == ModStatus::Downloaded,
        m.staging_entry is None,
        m.game_entry is None,
    ensures
        unstaged(staged(m, e)) == m,
{
}

/// In a state, unstaging a merely downloaded mod right after staging it leaves the
/// records as they were.
pub proof fn law_state_unstage_undoes_stage(s: ModStateView, e: ModEntryView)
    requires
        s.mods.contains_key(e.name),
        s.mods[e.name].status == ModStatus::Downloaded,
        s.mods[e.name].staging_entry is None,
        s.mods[e.name].game_entry is None,
    ensures
        apply_unstaged(apply_staged(s, e), e.name).mods == s.mods,
{
    assert(apply_unstaged(apply_staged(s, e), e.name).mods =~= s.mods);
}

/// Each change of a state touches only the record of the mod it names: every other
/// name keeps its record, or its absence.
pub proof fn law_changes_are_local(s: ModStateView, e: ModEntryView, name: Seq<char>, k: Seq<char>)
    requires
        k != e.name,
        k != name,
    ensures
        apply_staged(s, e).mods.contains_key(k) == s.mods.contains_key(k),
        apply_downloaded(s, e).mods.contains_key(k) == s.mods.contains_key(k),
        apply_enabled(s, e).mods.contains_key(k) == s.mods.contains_key(k),
        apply_unstaged(s, name).mods.contains_key(k) == s.mods.contains_key(k),
        apply_disabled(s, name).mods.contains_key(k) == s.mods.contains_key(k),
        apply_remove(s, name).mods.contains_key(k) == s.mods.contains_key(k),
        s.mods.contains_key(k) ==> {
            &&& apply_staged(s, e).mods[k] == s.mods[k]
            &&& apply_downloaded(s, e).mods[k] == s.mods[k]
            &&& apply_enabled(s, e).mods[k] == s.mods[k]
            &&& apply_unstaged(s, name).mods[k] == s.mods[k]
            &&& apply_disabled(s, name).mods[k] == s.mods[k]
            &&& apply_remove(s, name).mods[k] == s.mods[k]
        },
{
}

/// A change that finds its mod keeps the set of known mods, stores the new record,
/// and queues exactly one upsert of that record; one that does not find it changes nothing.
pub open spec fn queues_its_upsert(s: ModStateView, t: ModStateView, name: Seq<char>) -> bool {
    if s.mods.contains_key(name) {
        &&& t.mods.dom() == s.mods.dom()
        &&& t.pending == s.pending.push(RepoWriteView::Upsert(t.mods[name]))
    } else {
        t == s
    }
}

/// Every change of a record, but removal, queues the upsert that mirrors it.
pub proof fn law_change_queues_its_upsert(s: ModStateView, e: ModEntryView, name: Seq<char>)
    ensures
        queues_its_upsert(s, apply_staged(s, e), e.name),
        queues_its_upsert(s, apply_downloaded(s, e), e.name),
        queues_its_upsert(s, apply_enabled(s, e), e.name),
        queues_its_upsert(s, apply_unstaged(s, name), name),
        queues_its_upsert(s, apply_disabled(s, name), name),
{
    if s.mods.contains_key(e.name) {
        assert(apply_staged(s, e).mods.dom() =~= s.mods.dom());
        assert(apply_downloaded(s, e).mods.dom() =~= s.mods.dom());
        assert(apply_enabled(s, e).mods.dom() =~= s.mods.dom());
    }
    if s.mods.contains_key(name) {
        assert(apply_unstaged(s, name).mods.dom() =~= s.mods.dom());
        assert(apply_disabled(s, name).mods.dom() =~= s.mods.dom());
    }
}

/// Removing a mod forgets it and queues its deletion under the game of its record.
pub proof fn law_remove_forgets(s: ModStateView, name: Seq<char>)
    ensures
        !apply_remove(s, name).mods.contains_key(name),
        apply_remove(s, name).pending.len() == s.pending.len() + 1,
        s.mods.contains_key(name) ==> apply_remove(s, name).pending.last()
            == (RepoWriteView::Remove { registry_id: s.mods[name].register_id, name }),
{
}

/// A stored status reads back as itself.
pub proof fn law_status_text_round_trip(s: ModStatus)
    ensures
        status_of_text(status_text(s)) == s,
{
    reveal_strlit("Downloaded");
    reveal_strlit("Staged");
    reveal_strlit("Enabled");
    reveal_strlit("Modified");
    assert("Staged"@.len() == 6);
    assert("Downloaded"@.len() == 10);
    assert("Enabled"@.len() == 7);
    assert("Modified"@.len() == 8);
}

/// A stored entry kind reads back as itself, except `Other`, which reads back as `Directory`.
pub proof fn law_kind_text_round_trip(k: ModEntryKind)
    ensures
        kind_of_text(kind_text(k)) == (if k == ModEntryKind::Other { ModEntryKind::Directory } else { k }),
{
    reveal_strlit("Directory");
    reveal_strlit("ZipArchive");
    reveal_strlit("RarArchive");
    reveal_strlit("Other");
    assert("Directory"@.len() == 9);
    assert("ZipArchive"@.len() == 10 && "ZipArchive"@[0] == 'Z');
    assert("RarArchive"@.len() == 10 && "RarArchive"@[0] == 'R');
    assert("Other"@.len() == 5);
}

/// The form in which an entry of the mod `name` survives the table: none when its
/// path is empty, else named after the mod, without metadata, and `Other` read as `Directory`.
pub open spec fn stored_entry(name: Seq<char>, e: Option<ModEntryView>) -> Option<ModEntryView> {
    match e {
        None => None,
        Some(x) => if x.path.len() == 0 {
            None
        } else {
            Some(ModEntryView {
                name,
                path: x.path,
                kind: if x.kind == ModEntryKind::Other { ModEntryKind::Directory } else { x.kind },
                metadata: None,
            })
        },
    }
}

/// The form in which a record survives the table of the game `rid`.
pub open spec fn stored_record(rid: Seq<char>, m: ReconciledModView) -> ReconciledModView {
    ReconciledModView {
        name: m.name,
        status: m.status,
        source_entry: stored_entry(m.name, m.source_entry),
        staging_entry: stored_entry(m.name, m.staging_entry),
        game_entry: stored_entry(m.name, m.game_entry),
        register_id: rid,
    }
}

/// A record stored for a game and read back for the same game is the record in the
/// form in which the table keeps it.
pub proof fn law_row_round_trip(rid: Seq<char>, m: ReconciledModView)
    ensures
        record_of(rid, row_of(rid, m)) == Some(stored_record(rid, m)),
{
    law_status_text_round_trip(m.status);
    if let Some(x) = m.source_entry {
        law_kind_text_round_trip(x.kind);
    }
    if let Some(x) = m.staging_entry {
        law_kind_text_round_trip(x.kind);
    }
    if let Some(x) = m.game_entry {
        law_kind_text_round_trip(x.kind);
    }
}

/// An entry that the table keeps whole: named after its mod, with a path, a kind
/// other than `Other`, and no metadata.
pub open spec fn storable_entry(name: Seq<char>, e: Option<ModEntryView>) -> bool {
    match e {
        None => true,
        Some(x) => x.name == name && x.path.len() > 0 && x.kind != ModEntryKind::Other && x.metadata is None,
    }
}

/// A record of the game `rid` whose entries the table keeps whole reads back unchanged.
pub proof fn law_row_round_trip_exact(rid: Seq<char>, m: ReconciledModView)
    requires
        m.register_id == rid,
        storable_entry(m.name, m.source_entry),
        storable_entry(m.name, m.staging_entry),
        storable_entry(m.name, m.game_entry),
    ensures
        record_of(rid, row_of(rid, m)) == Some(m),
{
    law_row_round_trip(rid, m);
}

/// Stripping `.zip` from a name that was given it gives back the name.
pub proof fn law_strip_zip_ext_inverse(n: Seq<char>)
    ensures
        strip_suffix(n + ".zip"@, ".zip"@) == n,
{
    reveal_strlit(".zip");
    let s = n + ".zip"@;
    assert(s.subrange(s.len() - 4, s.len() as int) =~= ".zip"@);
    assert(ends_with(s, ".zip"@));
    assert(s.subrange(0, s.len() - 4) =~= n);
}

/// At most one directory wraps the entries of an archive.
pub proof fn law_wrapping_directory_unique(cs: Seq<Seq<Seq<char>>>, a: Seq<char>, b: Seq<char>)
    requires
        wraps_in(cs, a),
        wraps_in(cs, b),
    ensures
        a == b,
{
    let i = choose|i: int| 0 <= i < cs.len() && (#[trigger] cs[i]).len() > 1;
    assert(cs[i][0] == a);
    assert(cs[i][0] == b);
}

/// Reconciling gives one record per name found in any of the three folders, stored
/// under its own name and marked with the game; a mod is `Modified` only where it is
/// both downloaded and staged, `Enabled` only where it is linked, `Staged` only where
/// it is staged, and `Downloaded` only where it is in none of staging and the game.
pub proof fn law_reconcile_classifies(
    rid: Seq<char>,
    srcs: Seq<SourceModView>,
    stgs: Seq<StagedModView>,
    enas: Seq<ModEntryView>,
    k: Seq<char>,
)
    requires
        reconcile_map(rid, srcs, stgs, enas).contains_key(k),
    ensures
        ({
            let r = reconcile_map(rid, srcs, stgs, enas)[k];
            &&& r.name == k
            &&& r.register_id == rid
            &&& r.status == ModStatus::Modified ==> r.source_entry is Some && r.staging_entry is Some
            &&& r.status == ModStatus::Enabled ==> r.game_entry is Some
            &&& r.status == ModStatus::Staged ==> r.staging_entry is Some && r.game_entry is None
            &&& r.status == ModStatus::Downloaded ==> r.staging_entry is None && r.game_entry is None
                && r.source_entry is Some
        }),
{
}

/// After unstaging, a mod is neither staged nor linked: it is known as downloaded,
/// or forgotten.
pub proof fn law_unstage_leaves_nothing_staged(s: ModStateView, e: ModEntryView)
    ensures
        ({
            let t = after_unstage(s, e);
            t.mods.contains_key(e.name) ==> t.mods[e.name].status == ModStatus::Downloaded
                && t.mods[e.name].staging_entry is None && t.mods[e.name].game_entry is None
        }),
{
}

/// After disabling, a known mod is not linked into the game.
pub proof fn law_disable_leaves_nothing_linked(s: ModStateView, name: Seq<char>, existing: Seq<Seq<char>>)
    requires
        s.mods.contains_key(name),
    ensures
        ({
            let t = after_disable(s, name, existing);
            t.mods.contains_key(name) ==> t.mods[name].game_entry is None && t.mods[name].status != ModStatus::Enabled
        }),
{
}

/// The record stored under `k`, if any.
pub open spec fn record_at(m: Map<Seq<char>, ReconciledModView>, k: Seq<char>) -> Option<ReconciledModView> {
    if m.contains_key(k) { Some(m[k]) } else { None }
}

/// The state after `f` is applied for each entry of `es`, in order.
pub open spec fn fold_steps(
    s: ModStateView,
    es: Seq<ModEntryView>,
    f: spec_fn(ModStateView, ModEntryView) -> ModStateView,
) -> ModStateView
    decreases es.len(),
{
    if es.len() == 0 {
        s
    } else {
        f(fold_steps(s, es.drop_last(), f), es.last())
    }
}

/// A step for an entry touches at most the record of the entry's name.
pub open spec fn local_step(f: spec_fn(ModStateView, ModEntryView) -> ModStateView) -> bool {
    forall|t: ModStateView, e: ModEntryView, k: Seq<char>|
        k != e.name ==> #[trigger] record_at(f(t, e).mods, k) == record_at(t.mods, k)
}

/// The staged copy and the game link of a record are named after the record.
pub open spec fn entries_named(m: ReconciledModView) -> bool {
    &&& (m.staging_entry matches Some(e) ==> e.name == m.name)
    &&& (m.game_entry matches Some(e) ==> e.name == m.name)
}

/// Every record of a map is stored under its name, with its staged copy and game link
/// named after it.
pub open spec fn map_entries_named(m: Map<Seq<char>, ReconciledModView>) -> bool {
    forall|k: Seq<char>| #[trigger] m.contains_key(k) ==> m[k].name == k && entries_named(m[k])
}

proof fn lemma_fold_untouched(
    s: ModStateView,
    es: Seq<ModEntryView>,
    f: spec_fn(ModStateView, ModEntryView) -> ModStateView,
    k: Seq<char>,
)
    requires
        local_step(f),
        forall|j: int| 0 <= j < es.len() ==> (#[trigger] es[j]).name != k,
    ensures
        record_at(fold_steps(s, es, f).mods, k) == record_at(s.mods, k),
    decreases es.len(),
{
    if es.len() > 0 {
        let p = es.drop_last();
        assert forall|j: int| 0 <= j < p.len() implies (#[trigger] p[j]).name != k by {
            assert(p[j] == es[j]);
        }
        lemma_fold_untouched(s, p, f, k);
        assert(es.last() == es[es.len() - 1]);
        assert(record_at(f(fold_steps(s, p, f), es.last()).mods, k) == record_at(fold_steps(s, p, f).mods, k));
    }
}

proof fn lemma_fold_done(
    s: ModStateView,
    es: Seq<ModEntryView>,
    f: spec_fn(ModStateView, ModEntryView) -> ModStateView,
    q: spec_fn(Option<ReconciledModView>) -> bool,
    j: int,
)
    requires
        local_step(f),
        forall|t: ModStateView, e: ModEntryView| #[trigger] q(record_at(f(t, e).mods, e.name)),
        0 <= j < es.len(),
        forall|i: int| 0 <= i < es.len() && i != j ==> (#[trigger] es[i]).name != es[j].name,
    ensures
        q(record_at(fold_steps(s, es, f).mods, es[j].name)),
    decreases es.len(),
{
    let p = es.drop_last();
    if j == es.len() - 1 {
        assert(q(record_at(f(fold_steps(s, p, f), es.last()).mods, es.last().name)));
    } else {
        assert forall|i: int| 0 <= i < p.len() && i != j implies (#[trigger] p[i]).name != p[j].name by {
            assert(p[i] == es[i]);
        }
        lemma_fold_done(s, p, f, q, j);
        assert(es.last() == es[es.len() - 1]);
        assert(p[j] == es[j]);
        assert(record_at(f(fold_steps(s, p, f), es.last()).mods, es[j].name)
            == record_at(fold_steps(s, p, f).mods, es[j].name));
    }
}

/// Each entry that a bulk operation selects comes from a record and is named after it.
proof fn lemma_selection_from(sel: Selection, l: Seq<ReconciledModView>)
    requires
        sel != Selection::ToStage,
        forall|i: int| 0 <= i < l.len() ==> entries_named(#[trigger] l[i]),
    ensures
        forall|j: int| 0 <= j < selection(sel, l).len() ==> exists|i: int| 0 <= i < l.len()
            && selected(sel, l[i]) == Some(#[trigger] selection(sel, l)[j]) && l[i].name == selection(sel, l)[j].name,
    decreases l.len(),
{
    if l.len() > 0 {
        let p = l.drop_last();
        assert forall|i: int| 0 <= i < p.len() implies entries_named(#[trigger] p[i]) by {
            assert(p[i] == l[i]);
        }
        lemma_selection_from(sel, p);
        let sp = selection(sel, p);
        let sl = selection(sel, l);
        let n = l.len() - 1;
        assert(l.last() == l[n]);
        assert(entries_named(l[n]));
        assert forall|j: int| 0 <= j < sl.len() implies exists|i: int| 0 <= i < l.len()
            && selected(sel, l[i]) == Some(#[trigger] sl[j]) && l[i].name == sl[j].name by {
            if j < sp.len() {
                assert(sl[j] == sp[j]);
                let i = choose|i: int| 0 <= i < p.len() && selected(sel, p[i]) == Some(sp[j]) && p[i].name == sp[j].name;
                assert(p[i] == l[i]);
            } else {
                assert(selected(sel, l[n]) == Some(sl[j]));
            }
        }
    }
}

/// Every record that a bulk operation takes from gives its entry to the selection.
proof fn lemma_selection_covers(sel: Selection, l: Seq<ReconciledModView>)
    ensures
        forall|i: int| 0 <= i < l.len() && (#[trigger] selected(sel, l[i])) is Some ==> exists|j: int|
            0 <= j < selection(sel, l).len() && selection(sel, l)[j] == selected(sel, l[i])->0,
    decreases l.len(),
{
    if l.len() > 0 {
        let p = l.drop_last();
        lemma_selection_covers(sel, p);
        let sp = selection(sel, p);
        let sl = selection(sel, l);
        let n = l.len() - 1;
        assert(l.last() == l[n]);
        assert forall|i: int| 0 <= i < l.len() && (#[trigger] selected(sel, l[i])) is Some implies exists|j: int|
            0 <= j < sl.len() && sl[j] == selected(sel, l[i])->0 by {
            if i < n {
                assert(p[i] == l[i]);
                let j = choose|j: int| 0 <= j < sp.len() && sp[j] == selected(sel, p[i])->0;
                assert(sl[j] == sp[j]);
            } else {
                assert(sl[sl.len() - 1] == selected(sel, l[n])->0);
            }
        }
    }
}

/// The entries that a bulk operation selects from records of distinct names have distinct names.
proof fn lemma_selection_distinct(sel: Selection, l: Seq<ReconciledModView>)
    requires
        sel != Selection::ToStage,
        forall|i: int| 0 <= i < l.len() ==> entries_named(#[trigger] l[i]),
        distinct_names(l),
    ensures
        forall|a: int, b: int| 0 <= a < b < selection(sel, l).len()
            ==> (#[trigger] selection(sel, l)[a]).name != (#[trigger] selection(sel, l)[b]).name,
    decreases l.len(),
{
    if l.len() > 0 {
        let p = l.drop_last();
        assert forall|i: int| 0 <= i < p.len() implies entries_named(#[trigger] p[i]) by {
            assert(p[i] == l[i]);
        }
        assert forall|a: int, b: int| 0 <= a < b < p.len() implies (#[trigger] p[a]).name != (#[trigger] p[b]).name by {
            assert(p[a] == l[a] && p[b] == l[b]);
        }
        lemma_selection_distinct(sel, p);
        lemma_selection_from(sel, p);
        let sp = selection(sel, p);
        let sl = selection(sel, l);
        let n = l.len() - 1;
        assert(l.last() == l[n]);
        assert(entries_named(l[n]));
        assert forall|a: int, b: int| 0 <= a < b < sl.len() implies (#[trigger] sl[a]).name != (#[trigger] sl[b]).name by {
            if b < sp.len() {
                assert(sl[a] == sp[a] && sl[b] == sp[b]);
            } else {
                assert(sl[a] == sp[a]);
                let i = choose|i: int| 0 <= i < p.len() && selected(sel, p[i]) == Some(sp[a]) && p[i].name == sp[a].name;
                assert(p[i] == l[i]);
                assert(selected(sel, l[n]) == Some(sl[b]));
                assert(l[i].name != l[n].name);
            }
        }
    }
}

/// What a bulk operation selects, related to the records it was selected from.
proof fn lemma_selection(sel: Selection, l: Seq<ReconciledModView>)
    requires
        sel != Selection::ToStage,
        forall|i: int| 0 <= i < l.len() ==> entries_named(#[trigger] l[i]),
        distinct_names(l),
    ensures
        forall|j: int| 0 <= j < selection(sel, l).len() ==> exists|i: int| 0 <= i < l.len()
            && selected(sel, l[i]) == Some(#[trigger] selection(sel, l)[j]) && l[i].name == selection(sel, l)[j].name,
        forall|i: int| 0 <= i < l.len() && (#[trigger] selected(sel, l[i])) is Some ==> exists|j: int|
            0 <= j < selection(sel, l).len() && selection(sel, l)[j] == selected(sel, l[i])->0,
        forall|a: int, b: int| 0 <= a < b < selection(sel, l).len()
            ==> (#[trigger] selection(sel, l)[a]).name != (#[trigger] selection(sel, l)[b]).name,
{
    lemma_selection_from(sel, l);
    lemma_selection_covers(sel, l);
    lemma_selection_distinct(sel, l);
}

proof fn lemma_lists_facts(l: Seq<ReconciledModView>, m: Map<Seq<char>, ReconciledModView>)
    requires
        lists(l, m),
        map_entries_named(m),
    ensures
        distinct_names(l),
        forall|i: int| 0 <= i < l.len() ==> entries_named(#[trigger] l[i]),
{
    assert forall|a: int, b: int| 0 <= a < b < l.len() implies (#[trigger] l[a]).name != (#[trigger] l[b]).name by {
        assert(seq_lt(l[a].name, l[b].name));
        lemma_seq_lt_irreflexive(l[a].name);
    }
    assert forall|i: int| 0 <= i < l.len() implies entries_named(#[trigger] l[i]) by {
        assert(m.contains_key(l[i].name));
    }
}

/// Unstaging every mod that a bulk unstage selects, as each unstage records it.
pub open spec fn unstage_all(s: ModStateView, l: Seq<ReconciledModView>) -> ModStateView {
    fold_steps(s, selection(Selection::ToUnstage, l), |t: ModStateView, e: ModEntryView| after_unstage(t, e))
}

/// After a bulk unstage of the mods of a state, listed by `l`, each mod that was staged
/// or enabled with a staged copy is downloaded with nothing staged or linked, or gone;
/// every other record is unchanged.
pub proof fn law_bulk_unstage(s: ModStateView, l: Seq<ReconciledModView>)
    requires
        lists(l, s.mods),
        map_entries_named(s.mods),
    ensures
        forall|k: Seq<char>| #![trigger record_at(unstage_all(s, l).mods, k)]
            s.mods.contains_key(k) && selected(Selection::ToUnstage, s.mods[k]) is Some ==> match record_at(unstage_all(s, l).mods, k) {
                None => true,
                Some(r) => r.status == ModStatus::Downloaded && r.staging_entry is None && r.game_entry is None,
            },
        forall|k: Seq<char>| #![trigger record_at(unstage_all(s, l).mods, k)]
            !(s.mods.contains_key(k) && selected(Selection::ToUnstage, s.mods[k]) is Some)
            ==> record_at(unstage_all(s, l).mods, k) == record_at(s.mods, k),
{
    let f = |t: ModStateView, e: ModEntryView| after_unstage(t, e);
    let q = |o: Option<ReconciledModView>| match o {
        None => true,
        Some(r) => r.status == ModStatus::Downloaded && r.staging_entry is None && r.game_entry is None,
    };
    let es = selection(Selection::ToUnstage, l);
    lemma_lists_facts(l, s.mods);
    lemma_selection(Selection::ToUnstage, l);
    assert forall|t: ModStateView, e: ModEntryView, k: Seq<char>| k != e.name implies
        #[trigger] record_at(f(t, e).mods, k) == record_at(t.mods, k) by {}
    assert forall|t: ModStateView, e: ModEntryView| #[trigger] q(record_at(f(t, e).mods, e.name)) by {}
    assert forall|k: Seq<char>| s.mods.contains_key(k) && selected(Selection::ToUnstage, s.mods[k]) is Some implies
        q(#[trigger] record_at(unstage_all(s, l).mods, k)) by {
        let i = choose|i: int| 0 <= i < l.len() && l[i].name == k;
        assert(l[i] == s.mods[k]);
        assert(selected(Selection::ToUnstage, l[i]) is Some);
        let j = choose|j: int| 0 <= j < es.len() && es[j] == selected(Selection::ToUnstage, l[i])->0;
        assert(entries_named(l[i]));
        assert(es[j].name == k);
        lemma_fold_done(s, es, f, q, j);
    }
    assert forall|k: Seq<char>| !(s.mods.contains_key(k) && selected(Selection::ToUnstage, s.mods[k]) is Some) implies
        #[trigger] record_at(unstage_all(s, l).mods, k) == record_at(s.mods, k) by {
        assert forall|j: int| 0 <= j < es.len() implies (#[trigger] es[j]).name != k by {
            let i = choose|i: int| 0 <= i < l.len() && selected(Selection::ToUnstage, l[i]) == Some(es[j]) && l[i].name == es[j].name;
            if es[j].name == k {
                assert(s.mods.contains_key(l[i].name) && s.mods[l[i].name] == l[i]);
            }
        }
        lemma_fold_untouched(s, es, f, k);
    }
}
/// Disabling every mod that a bulk disable selects, as each disable records it, given
/// the paths found to exist.
pub open spec fn disable_all(s: ModStateView, l: Seq<ReconciledModView>, existing: Seq<Seq<char>>) -> ModStateView {
    fold_steps(s, selection(Selection::ToDisable, l), |t: ModStateView, e: ModEntryView| after_disable(t, e.name, existing))
}

/// After a bulk disable of the mods of a state, listed by `l`, no mod that was enabled
/// with a link is still enabled or linked (it is staged, downloaded, or gone); every
/// other record is unchanged.
pub proof fn law_bulk_disable(s: ModStateView, l: Seq<ReconciledModView>, existing: Seq<Seq<char>>)
    requires
        lists(l, s.mods),
        map_entries_named(s.mods),
    ensures
        forall|k: Seq<char>| #![trigger record_at(disable_all(s, l, existing).mods, k)]
            s.mods.contains_key(k) && selected(Selection::ToDisable, s.mods[k]) is Some
            ==> match record_at(disable_all(s, l, existing).mods, k) {
                None => true,
                Some(r) => r.status != ModStatus::Enabled && r.game_entry is None,
            },
        forall|k: Seq<char>| #![trigger record_at(disable_all(s, l, existing).mods, k)]
            !(s.mods.contains_key(k) && selected(Selection::ToDisable, s.mods[k]) is Some)
            ==> record_at(disable_all(s, l, existing).mods, k) == record_at(s.mods, k),
{
    let f = |t: ModStateView, e: ModEntryView| after_disable(t, e.name, existing);
    let q = |o: Option<ReconciledModView>| match o {
        None => true,
        Some(r) => r.status != ModStatus::Enabled && r.game_entry is None,
    };
    let es = selection(Selection::ToDisable, l);
    lemma_lists_facts(l, s.mods);
    lemma_selection(Selection::ToDisable, l);
    assert forall|t: ModStateView, e: ModEntryView, k: Seq<char>| k != e.name implies
        #[trigger] record_at(f(t, e).mods, k) == record_at(t.mods, k) by {}
    assert forall|t: ModStateView, e: ModEntryView| #[trigger] q(record_at(f(t, e).mods, e.name)) by {}
    assert forall|k: Seq<char>| s.mods.contains_key(k) && selected(Selection::ToDisable, s.mods[k]) is Some implies
        q(#[trigger] record_at(disable_all(s, l, existing).mods, k)) by {
        let i = choose|i: int| 0 <= i < l.len() && l[i].name == k;
        assert(l[i] == s.mods[k]);
        assert(selected(Selection::ToDisable, l[i]) is Some);
        let j = choose|j: int| 0 <= j < es.len() && es[j] == selected(Selection::ToDisable, l[i])->0;
        assert(entries_named(l[i]));
        assert(es[j].name == k);
        lemma_fold_done(s, es, f, q, j);
    }
    assert forall|k: Seq<char>| !(s.mods.contains_key(k) && selected(Selection::ToDisable, s.mods[k]) is Some) implies
        #[trigger] record_at(disable_all(s, l, existing).mods, k) == record_at(s.mods, k) by {
        assert forall|j: int| 0 <= j < es.len() implies (#[trigger] es[j]).name != k by {
            let i = choose|i: int| 0 <= i < l.len() && selected(Selection::ToDisable, l[i]) == Some(es[j]) && l[i].name == es[j].name;
            if es[j].name == k {
                assert(s.mods.contains_key(l[i].name) && s.mods[l[i].name] == l[i]);
            }
        }
        lemma_fold_untouched(s, es, f, k);
    }
}

/// The record, if any, is not staged with a staged copy and left unlinked.
pub open spec fn not_left_staged(o: Option<ReconciledModView>) -> bool {
    match o {
        Some(r) => !(r.status == ModStatus::Staged && r.staging_entry is Some),
        None => true,
    }
}

/// Each staged entry goes by the name of a mod of `l` that is selected for staging.
pub open spec fn stages_selected(staged_entries: Seq<ModEntryView>, l: Seq<ReconciledModView>) -> bool {
    forall|j: int| 0 <= j < staged_entries.len() ==> exists|i: int| 0 <= i < l.len()
        && (#[trigger] selected(Selection::ToStage, l[i])) is Some && l[i].name == (#[trigger] staged_entries[j]).name
}

/// The stage phase of a sync: each staged entry recorded, in order.
pub open spec fn stage_all(s: ModStateView, staged_entries: Seq<ModEntryView>) -> ModStateView {
    fold_steps(s, staged_entries, |t: ModStateView, e: ModEntryView| apply_staged(t, e))
}

/// The enable phase of a sync: each enabled entry recorded, in order.
pub open spec fn enable_all(s: ModStateView, enabled_entries: Seq<ModEntryView>) -> ModStateView {
    fold_steps(s, enabled_entries, |t: ModStateView, e: ModEntryView| apply_enabled(t, e))
}

/// The entries `r` go by the same names as the selected entries `sel`, in order.
pub open spec fn same_names(r: Seq<ModEntryView>, sel: Seq<ModEntryView>) -> bool {
    r.len() == sel.len() && forall|j: int| 0 <= j < r.len() ==> (#[trigger] r[j]).name == sel[j].name
}

proof fn lemma_stage_all_named(s: ModStateView, es: Seq<ModEntryView>)
    requires
        map_entries_named(s.mods),
    ensures
        map_entries_named(stage_all(s, es).mods),
    decreases es.len(),
{
    if es.len() > 0 {
        lemma_stage_all_named(s, es.drop_last());
        let t = stage_all(s, es.drop_last());
        assert(stage_all(s, es) == apply_staged(t, es.last()));
    }
}

/// The stage phase touches only the mods it selects, and keeps records named.
proof fn lemma_stage_phase(s: ModStateView, l: Seq<ReconciledModView>, staged_entries: Seq<ModEntryView>)
    requires
        lists(l, s.mods),
        map_entries_named(s.mods),
        stages_selected(staged_entries, l),
    ensures
        map_entries_named(stage_all(s, staged_entries).mods),
        forall|k: Seq<char>| #![trigger record_at(stage_all(s, staged_entries).mods, k)]
            !(s.mods.contains_key(k) && selected(Selection::ToStage, s.mods[k]) is Some)
            ==> record_at(stage_all(s, staged_entries).mods, k) == record_at(s.mods, k),
{
    let f1 = |t: ModStateView, e: ModEntryView| apply_staged(t, e);
    lemma_stage_all_named(s, staged_entries);
    assert forall|t0: ModStateView, e: ModEntryView, k: Seq<char>| k != e.name implies
        #[trigger] record_at(f1(t0, e).mods, k) == record_at(t0.mods, k) by {}
    assert forall|k: Seq<char>| !(s.mods.contains_key(k) && selected(Selection::ToStage, s.mods[k]) is Some)
        implies #[trigger] record_at(stage_all(s, staged_entries).mods, k) == record_at(s.mods, k) by {
        assert forall|j: int| 0 <= j < staged_entries.len() implies (#[trigger] staged_entries[j]).name != k by {
            let i = choose|i: int| 0 <= i < l.len()
                && (#[trigger] selected(Selection::ToStage, l[i])) is Some && l[i].name == staged_entries[j].name;
            if staged_entries[j].name == k {
                assert(s.mods.contains_key(l[i].name) && s.mods[l[i].name] == l[i]);
            }
        }
        lemma_fold_untouched(s, staged_entries, f1, k);
    }
}

/// The enable phase touches only the mods it selects.
proof fn lemma_enable_phase_local(t: ModStateView, l2: Seq<ReconciledModView>, enabled_entries: Seq<ModEntryView>)
    requires
        lists(l2, t.mods),
        map_entries_named(t.mods),
        same_names(enabled_entries, selection(Selection::ToEnable, l2)),
    ensures
        forall|k: Seq<char>| #![trigger record_at(enable_all(t, enabled_entries).mods, k)]
            !(t.mods.contains_key(k) && selected(Selection::ToEnable, t.mods[k]) is Some)
            ==> record_at(enable_all(t, enabled_entries).mods, k) == record_at(t.mods, k),
{
    let f2 = |t0: ModStateView, e: ModEntryView| apply_enabled(t0, e);
    let es2 = selection(Selection::ToEnable, l2);
    lemma_lists_facts(l2, t.mods);
    lemma_selection_from(Selection::ToEnable, l2);
    assert forall|t0: ModStateView, e: ModEntryView, k: Seq<char>| k != e.name implies
        #[trigger] record_at(f2(t0, e).mods, k) == record_at(t0.mods, k) by {}
    assert forall|k: Seq<char>| !(t.mods.contains_key(k) && selected(Selection::ToEnable, t.mods[k]) is Some)
        implies #[trigger] record_at(enable_all(t, enabled_entries).mods, k) == record_at(t.mods, k) by {
        assert forall|j: int| 0 <= j < enabled_entries.len() implies (#[trigger] enabled_entries[j]).name != k by {
            assert(enabled_entries[j].name == es2[j].name);
            let i = choose|i: int| 0 <= i < l2.len() && selected(Selection::ToEnable, l2[i]) == Some(es2[j]) && l2[i].name == es2[j].name;
            if es2[j].name == k {
                assert(t.mods.contains_key(l2[i].name) && t.mods[l2[i].name] == l2[i]);
            }
        }
        lemma_fold_untouched(t, enabled_entries, f2, k);
    }
}

/// A mod that the enable phase selects ends enabled, or gone.
proof fn lemma_enable_phase_done(t: ModStateView, l2: Seq<ReconciledModView>, enabled_entries: Seq<ModEntryView>, k: Seq<char>)
    requires
        lists(l2, t.mods),
        map_entries_named(t.mods),
        same_names(enabled_entries, selection(Selection::ToEnable, l2)),
        t.mods.contains_key(k),
        selected(Selection::ToEnable, t.mods[k]) is Some,
    ensures
        not_left_staged(record_at(enable_all(t, enabled_entries).mods, k)),
{
    let f2 = |t0: ModStateView, e: ModEntryView| apply_enabled(t0, e);
    let es2 = selection(Selection::ToEnable, l2);
    lemma_lists_facts(l2, t.mods);
    lemma_selection(Selection::ToEnable, l2);
    assert forall|t0: ModStateView, e: ModEntryView, k0: Seq<char>| k0 != e.name implies
        #[trigger] record_at(f2(t0, e).mods, k0) == record_at(t0.mods, k0) by {}
    let q = |o: Option<ReconciledModView>| not_left_staged(o);
    assert forall|t0: ModStateView, e: ModEntryView| #[trigger] q(record_at(f2(t0, e).mods, e.name)) by {}
    let i = choose|i: int| 0 <= i < l2.len() && l2[i].name == k;
    assert(l2[i] == t.mods[k]);
    let j = choose|j: int| 0 <= j < es2.len() && es2[j] == selected(Selection::ToEnable, l2[i])->0;
    assert(entries_named(l2[i]));
    assert(enabled_entries[j].name == k);
    assert forall|a: int| 0 <= a < enabled_entries.len() && a != j implies
        (#[trigger] enabled_entries[a]).name != enabled_entries[j].name by {
        assert(enabled_entries[a].name == es2[a].name);
    }
    lemma_fold_done(t, enabled_entries, f2, q, j);
}

/// The enable phase leaves no mod staged with a staged copy, and touches only the mods
/// it selects.
proof fn lemma_enable_phase(t: ModStateView, l2: Seq<ReconciledModView>, enabled_entries: Seq<ModEntryView>)
    requires
        lists(l2, t.mods),
        map_entries_named(t.mods),
        same_names(enabled_entries, selection(Selection::ToEnable, l2)),
    ensures
        forall|k: Seq<char>| #![trigger record_at(enable_all(t, enabled_entries).mods, k)]
            not_left_staged(record_at(enable_all(t, enabled_entries).mods, k)),
        forall|k: Seq<char>| #![trigger record_at(enable_all(t, enabled_entries).mods, k)]
            !(t.mods.contains_key(k) && selected(Selection::ToEnable, t.mods[k]) is Some)
            ==> record_at(enable_all(t, enabled_entries).mods, k) == record_at(t.mods, k),
{
    lemma_enable_phase_local(t, l2, enabled_entries);
    assert forall|k: Seq<char>| #![trigger record_at(enable_all(t, enabled_entries).mods, k)]
        not_left_staged(record_at(enable_all(t, enabled_entries).mods, k)) by {
        if t.mods.contains_key(k) && selected(Selection::ToEnable, t.mods[k]) is Some {
            lemma_enable_phase_done(t, l2, enabled_entries, k);
        } else {
            assert(record_at(enable_all(t, enabled_entries).mods, k) == record_at(t.mods, k));
        }
    }
}

/// A sync that succeeds: every mod selected for staging is staged (as `staged_entries`,
/// each named as a mod selected for staging), then every mod selected for enabling in the state that
/// staging left, listed by `l2`, is enabled (as `enabled_entries`). Afterwards no mod
/// is staged with a staged copy and still unlinked, and every mod that was enabled or
/// modified before is unchanged.
pub proof fn law_sync_all(
    s: ModStateView,
    l: Seq<ReconciledModView>,
    staged_entries: Seq<ModEntryView>,
    l2: Seq<ReconciledModView>,
    enabled_entries: Seq<ModEntryView>,
)
    requires
        lists(l, s.mods),
        map_entries_named(s.mods),
        stages_selected(staged_entries, l),
        lists(l2, stage_all(s, staged_entries).mods),
        same_names(enabled_entries, selection(Selection::ToEnable, l2)),
    ensures
        forall|k: Seq<char>| #![trigger record_at(enable_all(stage_all(s, staged_entries), enabled_entries).mods, k)]
            not_left_staged(record_at(enable_all(stage_all(s, staged_entries), enabled_entries).mods, k)),
        forall|k: Seq<char>| #![trigger record_at(enable_all(stage_all(s, staged_entries), enabled_entries).mods, k)]
            s.mods.contains_key(k) && (s.mods[k].status == ModStatus::Enabled || s.mods[k].status == ModStatus::Modified)
            ==> record_at(enable_all(stage_all(s, staged_entries), enabled_entries).mods, k) == record_at(s.mods, k),
{
    let t = stage_all(s, staged_entries);
    let u = enable_all(t, enabled_entries);
    lemma_stage_phase(s, l, staged_entries);
    lemma_enable_phase(t, l2, enabled_entries);
    assert forall|k: Seq<char>| s.mods.contains_key(k) && (s.mods[k].status == ModStatus::Enabled || s.mods[k].status == ModStatus::Modified)
        implies #[trigger] record_at(u.mods, k) == record_at(s.mods, k) by {
        assert(record_at(t.mods, k) == record_at(s.mods, k));
        assert(record_at(u.mods, k) == record_at(t.mods, k));
    }
}

/// A change of a mod's status that a state records.
pub enum StatusChange {
    Staged(ModEntryView),
    Downloaded(ModEntryView),
    Enabled(ModEntryView),
    Unstaged(Seq<char>),
    Disabled(Seq<char>),
}

/// What recording a change makes of a state.
pub open spec fn apply_change(s: ModStateView, c: StatusChange) -> ModStateView {
    match c {
        StatusChange::Staged(e) => apply_staged(s, e),
        StatusChange::Downloaded(e) => apply_downloaded(s, e),
        StatusChange::Enabled(e) => apply_enabled(s, e),
        StatusChange::Unstaged(n) => apply_unstaged(s, n),
        StatusChange::Disabled(n) => apply_disabled(s, n),
    }
}

/// What recording changes in order makes of a state.
pub open spec fn apply_changes(s: ModStateView, cs: Seq<StatusChange>) -> ModStateView
    decreases cs.len(),
{
    if cs.len() == 0 {
        s
    } else {
        apply_change(apply_changes(s, cs.drop_last()), cs.last())
    }
}

/// Whatever status changes a state records, in whatever order, it knows the same mods
/// as before, and each record stays stored under its own name.
pub proof fn law_status_changes_keep_the_mods(s: ModStateView, cs: Seq<StatusChange>)
    requires
        keyed_by_name(s.mods),
    ensures
        apply_changes(s, cs).mods.dom() == s.mods.dom(),
        keyed_by_name(apply_changes(s, cs).mods),
    decreases cs.len(),
{
    if cs.len() > 0 {
        law_status_changes_keep_the_mods(s, cs.drop_last());
        let t = apply_changes(s, cs.drop_last());
        let u = apply_change(t, cs.last());
        assert(u.mods.dom() =~= t.mods.dom());
        assert forall|k: Seq<char>| #[trigger] u.mods.contains_key(k) implies u.mods[k].name == k by {
            assert(t.mods.contains_key(k));
        }
    }
}


} // verus!
