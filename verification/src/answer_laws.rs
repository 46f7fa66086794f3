//! Properties of what the mod manager answers: how reconciling classifies a mod, what
//! linking does, which entry each per-mod request acts on, and what each tab lists.
use vstd::prelude::*;
use crate::catalog::{last_entry, last_source, last_staged, reconcile_map, SourceModView, StagedModView};
use crate::staging::{activation_actions, activation_error, activation_prelude, deactivation_error, path_parent, LinkActionView, LinkFacts};
use crate::types::{ModEntryView, ModStatus, ReconciledModView};
use crate::ui::{log_view, names_with_status, per_mod_answer, tab_actions, tab_status, App, Command, Message, ModsTab, RowAction};

verus! {

proof fn lemma_last_source_at(s: Seq<SourceModView>, k: Seq<char>, i: int)
    requires
        0 <= i < s.len(),
        s[i].effective_name == k,
        forall|x: int| i < x < s.len() ==> (#[trigger] s[x]).effective_name != k,
    ensures
        last_source(s, k) == Some(s[i]),
    decreases s.len(),
{
    if i < s.len() - 1 {
        let t = s.drop_last();
        assert(s[s.len() - 1].effective_name != k);
        assert forall|x: int| i < x < t.len() implies (#[trigger] t[x]).effective_name != k by {
            assert(t[x] == s[x]);
        }
        lemma_last_source_at(t, k, i);
        assert(t[i] == s[i]);
    }
}

proof fn lemma_last_staged_at(s: Seq<StagedModView>, k: Seq<char>, i: int)
    requires
        0 <= i < s.len(),
        s[i].entry.name == k,
        forall|x: int| i < x < s.len() ==> (#[trigger] s[x]).entry.name != k,
    ensures
        last_staged(s, k) == Some(s[i]),
    decreases s.len(),
{
    if i < s.len() - 1 {
        let t = s.drop_last();
        assert(s[s.len() - 1].entry.name != k);
        assert forall|x: int| i < x < t.len() implies (#[trigger] t[x]).entry.name != k by {
            assert(t[x] == s[x]);
        }
        lemma_last_staged_at(t, k, i);
        assert(t[i] == s[i]);
    }
}

proof fn lemma_last_entry_found(s: Seq<ModEntryView>, k: Seq<char>)
    ensures
        last_entry(s, k) is Some <==> exists|x: int| 0 <= x < s.len() && (#[trigger] s[x]).name == k,
    decreases s.len(),
{
    if s.len() > 0 {
        let t = s.drop_last();
        lemma_last_entry_found(t, k);
        if exists|x: int| 0 <= x < s.len() && (#[trigger] s[x]).name == k {
            let x = choose|x: int| 0 <= x < s.len() && (#[trigger] s[x]).name == k;
            if x < s.len() - 1 {
                assert(t[x] == s[x]);
            }
        }
        if exists|x: int| 0 <= x < t.len() && (#[trigger] t[x]).name == k {
            let x = choose|x: int| 0 <= x < t.len() && (#[trigger] t[x]).name == k;
            assert(s[x] == t[x]);
        }
    }
}

/// A mod found in downloads and in staging is reported as modified when its download
/// (the last one that goes by its name) was changed after its staged copy (the last one of
/// its name), whether or not it is linked in the game; when it was not, it is enabled if
/// some entry of the game's mods folder has its name, and staged otherwise.
pub proof fn law_changed_download_is_modified(
    rid: Seq<char>,
    srcs: Seq<SourceModView>,
    stgs: Seq<StagedModView>,
    enas: Seq<ModEntryView>,
    k: Seq<char>,
    i: int,
    j: int,
)
    requires
        0 <= i < srcs.len(),
        srcs[i].effective_name == k,
        forall|x: int| i < x < srcs.len() ==> (#[trigger] srcs[x]).effective_name != k,
        0 <= j < stgs.len(),
        stgs[j].entry.name == k,
        forall|x: int| j < x < stgs.len() ==> (#[trigger] stgs[x]).entry.name != k,
    ensures
        reconcile_map(rid, srcs, stgs, enas).contains_key(k),
        (srcs[i].modified matches Some(a) && stgs[j].modified matches Some(b) && a > b)
            ==> reconcile_map(rid, srcs, stgs, enas)[k].status == ModStatus::Modified,
        !(srcs[i].modified matches Some(a) && stgs[j].modified matches Some(b) && a > b)
            ==> reconcile_map(rid, srcs, stgs, enas)[k].status == if exists|x: int| 0 <= x < enas.len()
                && (#[trigger] enas[x]).name == k {
                ModStatus::Enabled
            } else {
                ModStatus::Staged
            },
{
    lemma_last_source_at(srcs, k, i);
    lemma_last_staged_at(stgs, k, j);
    lemma_last_entry_found(enas, k);
}

/// Linking goes ahead exactly when the source exists and nothing but an old link is at
/// the target; then its last change links the target to the source. When it fails, it
/// makes no link.
pub proof fn law_activation_makes_the_link(source: Seq<char>, target: Seq<char>, f: LinkFacts)
    ensures
        activation_error(source, target, f) is None <==> (f.source_exists && (f.target_is_symlink || !f.target_exists)),
        activation_error(source, target, f) is None ==> ({
            let a = activation_actions(source, target, f);
            a.len() > 0 && a.last() == (LinkActionView::CreateLink { source, target })
        }),
        activation_error(source, target, f) is Some ==> forall|x: int|
            0 <= x < activation_actions(source, target, f).len()
                ==> !(#[trigger] activation_actions(source, target, f)[x] is CreateLink),
{
    let a = activation_actions(source, target, f);
    if activation_error(source, target, f) is Some && f.source_exists {
        let p = activation_prelude(target, f);
        assert(a == p);
        assert forall|x: int| 0 <= x < p.len() implies !(#[trigger] p[x] is CreateLink) by {
            match path_parent(target) {
                Some(q) => {},
                None => {},
            }
        }
    }
}

/// A request to disable a known mod that is linked in the game is answered with the
/// command to disable it through that link, and nothing is logged.
pub proof fn law_disable_request_takes_the_link(before: App, after: App, n: String, r: Command, e: ModEntryView)
    requires
        per_mod_answer(before, after, Message::DisableMod(n), r),
        before.active matches Some(g) && g.spec_state()@.contains_key(n@) && g.spec_state()@[n@].game_entry == Some(e),
    ensures
        r matches Command::Disable { name, entry } && name@ == n@ && entry@ == e,
        log_view(after.log@) == log_view(before.log@),
{
}

/// A request to unstage a known mod that has a staged copy is answered with the command
/// to unstage that copy, and nothing is logged.
pub proof fn law_unstage_request_takes_the_staged_copy(before: App, after: App, n: String, r: Command, e: ModEntryView)
    requires
        per_mod_answer(before, after, Message::UnstageMod(n), r),
        before.active matches Some(g) && g.spec_state()@.contains_key(n@) && g.spec_state()@[n@].staging_entry == Some(e),
    ensures
        r matches Command::Unstage { name, entry } && name@ == n@ && entry@ == e,
        log_view(after.log@) == log_view(before.log@),
{
}

/// A request to enable a known mod that has a staged copy is answered with the command
/// to link that copy, and nothing is logged.
pub proof fn law_enable_request_takes_the_staged_copy(before: App, after: App, n: String, r: Command, e: ModEntryView)
    requires
        per_mod_answer(before, after, Message::EnableMod(n), r),
        before.active matches Some(g) && g.spec_state()@.contains_key(n@) && g.spec_state()@[n@].staging_entry == Some(e),
    ensures
        r matches Command::Enable { name, entry } && name@ == n@ && entry@ == e,
        log_view(after.log@) == log_view(before.log@),
{
}

/// A request to stage a known mod that has a download is answered with the command to
/// stage that download, and nothing is logged.
pub proof fn law_stage_request_takes_the_download(before: App, after: App, n: String, r: Command, e: ModEntryView)
    requires
        per_mod_answer(before, after, Message::StageMod(n), r),
        before.active matches Some(g) && g.spec_state()@.contains_key(n@) && g.spec_state()@[n@].source_entry == Some(e),
    ensures
        r matches Command::Stage { name, entry } && name@ == n@ && entry@ == e,
        log_view(after.log@) == log_view(before.log@),
{
}

proof fn lemma_names_filter(s: Seq<ReconciledModView>, st: ModStatus)
    ensures
        names_with_status(s, st) == s.filter(|m: ReconciledModView| m.status == st).map_values(|m: ReconciledModView| m.name),
    decreases s.len(),
{
    reveal_with_fuel(Seq::filter, 2);
    if s.len() > 0 {
        lemma_names_filter(s.drop_last(), st);
        let f = s.drop_last().filter(|m: ReconciledModView| m.status == st);
        if s.last().status == st {
            assert(f.push(s.last()).map_values(|m: ReconciledModView| m.name)
                =~= f.map_values(|m: ReconciledModView| m.name).push(s.last().name));
        }
    } else {
        assert(s.filter(|m: ReconciledModView| m.status == st) =~= Seq::<ReconciledModView>::empty());
    }
}

/// Each tab of the mods page lists, in the order of the records, the names of exactly
/// the records of its own status: downloads the downloaded ones, staging the staged ones,
/// enabled the enabled ones, modified the modified ones.
pub proof fn law_tabs_list_their_status(s: Seq<ReconciledModView>)
    ensures
        names_with_status(s, tab_status(ModsTab::Downloads))
            == s.filter(|m: ReconciledModView| m.status == ModStatus::Downloaded).map_values(|m: ReconciledModView| m.name),
        names_with_status(s, tab_status(ModsTab::Staging))
            == s.filter(|m: ReconciledModView| m.status == ModStatus::Staged).map_values(|m: ReconciledModView| m.name),
        names_with_status(s, tab_status(ModsTab::Enabled))
            == s.filter(|m: ReconciledModView| m.status == ModStatus::Enabled).map_values(|m: ReconciledModView| m.name),
        names_with_status(s, tab_status(ModsTab::Modified))
            == s.filter(|m: ReconciledModView| m.status == ModStatus::Modified).map_values(|m: ReconciledModView| m.name),
{
    lemma_names_filter(s, ModStatus::Downloaded);
    lemma_names_filter(s, ModStatus::Staged);
    lemma_names_filter(s, ModStatus::Enabled);
    lemma_names_filter(s, ModStatus::Modified);
}



proof fn lemma_last_source_found(s: Seq<SourceModView>, k: Seq<char>)
    ensures
        last_source(s, k) is Some <==> exists|x: int| 0 <= x < s.len() && (#[trigger] s[x]).effective_name == k,
    decreases s.len(),
{
    if s.len() > 0 {
        let t = s.drop_last();
        lemma_last_source_found(t, k);
        if exists|x: int| 0 <= x < s.len() && (#[trigger] s[x]).effective_name == k {
            let x = choose|x: int| 0 <= x < s.len() && (#[trigger] s[x]).effective_name == k;
            if x < s.len() - 1 {
                assert(t[x] == s[x]);
            }
        }
        if exists|x: int| 0 <= x < t.len() && (#[trigger] t[x]).effective_name == k {
            let x = choose|x: int| 0 <= x < t.len() && (#[trigger] t[x]).effective_name == k;
            assert(s[x] == t[x]);
        }
    }
}

proof fn lemma_last_staged_found(s: Seq<StagedModView>, k: Seq<char>)
    ensures
        last_staged(s, k) is Some <==> exists|x: int| 0 <= x < s.len() && (#[trigger] s[x]).entry.name == k,
    decreases s.len(),
{
    if s.len() > 0 {
        let t = s.drop_last();
        lemma_last_staged_found(t, k);
        if exists|x: int| 0 <= x < s.len() && (#[trigger] s[x]).entry.name == k {
            let x = choose|x: int| 0 <= x < s.len() && (#[trigger] s[x]).entry.name == k;
            if x < s.len() - 1 {
                assert(t[x] == s[x]);
            }
        }
        if exists|x: int| 0 <= x < t.len() && (#[trigger] t[x]).entry.name == k {
            let x = choose|x: int| 0 <= x < t.len() && (#[trigger] t[x]).entry.name == k;
            assert(s[x] == t[x]);
        }
    }
}

/// Reconciling knows a mod exactly when some download goes by its name, or some staged
/// copy or game entry has it. A mod that is not both downloaded and staged is enabled
/// when the game has an entry of its name, else staged when staging has one, else
/// downloaded.
pub proof fn law_reconcile_status(
    rid: Seq<char>,
    srcs: Seq<SourceModView>,
    stgs: Seq<StagedModView>,
    enas: Seq<ModEntryView>,
    k: Seq<char>,
)
    ensures
        ({
            let in_src = exists|x: int| 0 <= x < srcs.len() && (#[trigger] srcs[x]).effective_name == k;
            let in_stg = exists|x: int| 0 <= x < stgs.len() && (#[trigger] stgs[x]).entry.name == k;
            let in_ena = exists|x: int| 0 <= x < enas.len() && (#[trigger] enas[x]).name == k;
            &&& reconcile_map(rid, srcs, stgs, enas).contains_key(k) <==> (in_src || in_stg || in_ena)
            &&& (in_src || in_stg || in_ena) && !(in_src && in_stg) ==> reconcile_map(rid, srcs, stgs, enas)[k].status
                == if in_ena { ModStatus::Enabled } else if in_stg { ModStatus::Staged } else { ModStatus::Downloaded }
        }),
{
    lemma_last_source_found(srcs, k);
    lemma_last_staged_found(stgs, k);
    lemma_last_entry_found(enas, k);
}

/// Removing a link goes ahead exactly when the path is a link.
pub proof fn law_deactivation_needs_a_link(path: Seq<char>, is_symlink: bool, exists: bool)
    ensures
        deactivation_error(path, is_symlink, exists) is None <==> is_symlink,
{
}

/// Each tab's rows offer the actions that fit its status: a download can be staged, a
/// staged mod enabled or unstaged, an enabled mod disabled, a modified one staged again
/// or disabled.
pub proof fn law_tab_actions_fit_their_status(t: ModsTab)
    ensures
        tab_status(t) == ModStatus::Downloaded ==> tab_actions(t) == seq![RowAction::Stage],
        tab_status(t) == ModStatus::Staged ==> tab_actions(t) == seq![RowAction::Enable, RowAction::Unstage],
        tab_status(t) == ModStatus::Enabled ==> tab_actions(t) == seq![RowAction::Disable],
        tab_status(t) == ModStatus::Modified ==> tab_actions(t) == seq![RowAction::Restage, RowAction::Disable],
{
}

} // verus!
