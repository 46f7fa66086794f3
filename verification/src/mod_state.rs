//! The set of known mods of one game, keyed by name, with the writes that
//! the mod repository still has to receive.
use vstd::prelude::*;
use crate::text::{copy_string, lemma_seq_lt_irreflexive, lemma_seq_lt_total, lemma_seq_lt_transitive, seq_lt, str_eq, str_lt};
use crate::types::{ModEntry, ModEntryView, ModStatus, ReconciledMod, ReconciledModView};

verus! {

/// A write that the mod repository has to receive to mirror the state.
#[derive(Clone, Debug)]
pub enum RepoWrite {
    /// Insert or replace this record, under the game named by its `register_id`.
    Upsert(ReconciledMod),
    /// Delete the record of `name` under the game `registry_id`.
    Remove { registry_id: String, name: String },
}

/// The mathematical content of a `RepoWrite`.
pub enum RepoWriteView {
    Upsert(ReconciledModView),
    Remove { registry_id: Seq<char>, name: Seq<char> },
}

impl View for RepoWrite {
    type V = RepoWriteView;

    open spec fn view(&self) -> RepoWriteView {
        match self {
            RepoWrite::Upsert(m) => RepoWriteView::Upsert(m@),
            RepoWrite::Remove { registry_id, name } => RepoWriteView::Remove {
                registry_id: registry_id@,
                name: name@,
            },
        }
    }
}

/// The views of a sequence of records.
pub open spec fn record_views(s: Seq<ReconciledMod>) -> Seq<ReconciledModView> {
    s.map_values(|m: ReconciledMod| m@)
}

/// The views of a sequence of repository writes.
pub open spec fn write_views(s: Seq<RepoWrite>) -> Seq<RepoWriteView> {
    s.map_values(|w: RepoWrite| w@)
}

/// Records are in strictly increasing order of name.
pub open spec fn sorted_by_name(s: Seq<ReconciledModView>) -> bool {
    forall|i: int, j: int| 0 <= i < j < s.len() ==> seq_lt(#[trigger] s[i].name, #[trigger] s[j].name)
}

/// `s` lists the records of `m` exactly once each, in order of name.
pub open spec fn lists(s: Seq<ReconciledModView>, m: Map<Seq<char>, ReconciledModView>) -> bool {
    &&& sorted_by_name(s)
    &&& forall|i: int| 0 <= i < s.len() ==> m.contains_key(#[trigger] s[i].name) && m[s[i].name] == s[i]
    &&& forall|k: Seq<char>| #[trigger] m.contains_key(k) ==> exists|i: int| 0 <= i < s.len() && s[i].name == k
}

/// Every record is stored under its own name.
pub open spec fn keyed_by_name(m: Map<Seq<char>, ReconciledModView>) -> bool {
    forall|k: Seq<char>| #[trigger] m.contains_key(k) ==> m[k].name == k
}

/// The map that storing `s` in order gives, a later record replacing an earlier one of the same name.
pub open spec fn records_map(s: Seq<ReconciledModView>) -> Map<Seq<char>, ReconciledModView>
    decreases s.len(),
{
    if s.len() == 0 {
        Map::empty()
    } else {
        records_map(s.drop_last()).insert(s.last().name, s.last())
    }
}

/// No two records share a name.
pub open spec fn distinct_names(s: Seq<ReconciledModView>) -> bool {
    forall|i: int, j: int| 0 <= i < j < s.len() ==> (#[trigger] s[i]).name != (#[trigger] s[j]).name
}

/// Storing records of distinct names keeps each of them, and nothing else.
pub proof fn lemma_records_map_distinct(s: Seq<ReconciledModView>)
    requires
        distinct_names(s),
    ensures
        forall|i: int| 0 <= i < s.len() ==> records_map(s).contains_key(#[trigger] s[i].name)
            && records_map(s)[s[i].name] == s[i],
        forall|k: Seq<char>| #[trigger] records_map(s).contains_key(k) ==> exists|i: int| 0 <= i < s.len() && s[i].name == k,
    decreases s.len(),
{
    if s.len() > 0 {
        let t = s.drop_last();
        lemma_records_map_distinct(t);
        assert forall|i: int| 0 <= i < s.len() implies records_map(s).contains_key(#[trigger] s[i].name)
            && records_map(s)[s[i].name] == s[i] by {
            if i < s.len() - 1 {
                assert(t[i] == s[i]);
                assert(s[i].name != s[s.len() - 1].name);
            }
        }
        assert forall|k: Seq<char>| #[trigger] records_map(s).contains_key(k) implies exists|i: int| 0 <= i < s.len() && s[i].name == k by {
            if k != s.last().name {
                assert(records_map(t).contains_key(k));
                let i = choose|i: int| 0 <= i < t.len() && t[i].name == k;
                assert(s[i].name == k);
            } else {
                assert(s[s.len() - 1].name == k);
            }
        }
    }
}

/// The record after its mod was copied to staging as `e`.
pub open spec fn staged(m: ReconciledModView, e: ModEntryView) -> ReconciledModView {
    ReconciledModView { status: ModStatus::Staged, staging_entry: Some(e), game_entry: None, ..m }
}

/// The record after its mod was found in downloads as `e`.
pub open spec fn downloaded(m: ReconciledModView, e: ModEntryView) -> ReconciledModView {
    ReconciledModView {
        status: ModStatus::Downloaded,
        source_entry: Some(e),
        staging_entry: None,
        game_entry: None,
        ..m
    }
}

/// The record after its mod was linked into the game as `e`.
pub open spec fn enabled(m: ReconciledModView, e: ModEntryView) -> ReconciledModView {
    ReconciledModView { status: ModStatus::Enabled, game_entry: Some(e), ..m }
}

/// The record after its staged copy was removed.
pub open spec fn unstaged(m: ReconciledModView) -> ReconciledModView {
    ReconciledModView { status: ModStatus::Downloaded, staging_entry: None, game_entry: None, ..m }
}

/// The record after its link in the game was removed.
pub open spec fn disabled(m: ReconciledModView) -> ReconciledModView {
    ReconciledModView { status: ModStatus::Staged, game_entry: None, ..m }
}

/// The content of a `ModState`: its records by name and the repository writes it has queued.
pub struct ModStateView {
    pub mods: Map<Seq<char>, ReconciledModView>,
    pub pending: Seq<RepoWriteView>,
}

/// Stores `r` as the record of `name` and queues its upsert.
pub open spec fn with_record(s: ModStateView, name: Seq<char>, r: ReconciledModView) -> ModStateView {
    ModStateView { mods: s.mods.insert(name, r), pending: s.pending.push(RepoWriteView::Upsert(r)) }
}

/// What `set_staged` makes of a state.
pub open spec fn apply_staged(s: ModStateView, e: ModEntryView) -> ModStateView {
    if s.mods.contains_key(e.name) { with_record(s, e.name, staged(s.mods[e.name], e)) } else { s }
}

/// What `set_downloaded` makes of a state.
pub open spec fn apply_downloaded(s: ModStateView, e: ModEntryView) -> ModStateView {
    if s.mods.contains_key(e.name) { with_record(s, e.name, downloaded(s.mods[e.name], e)) } else { s }
}

/// What `set_enabled` makes of a state.
pub open spec fn apply_enabled(s: ModStateView, e: ModEntryView) -> ModStateView {
    if s.mods.contains_key(e.name) { with_record(s, e.name, enabled(s.mods[e.name], e)) } else { s }
}

/// What `set_unstaged` makes of a state.
pub open spec fn apply_unstaged(s: ModStateView, name: Seq<char>) -> ModStateView {
    if s.mods.contains_key(name) { with_record(s, name, unstaged(s.mods[name])) } else { s }
}

/// What `set_disabled` makes of a state.
pub open spec fn apply_disabled(s: ModStateView, name: Seq<char>) -> ModStateView {
    if s.mods.contains_key(name) { with_record(s, name, disabled(s.mods[name])) } else { s }
}

/// What `remove` makes of a state: the record is gone and its deletion is queued under
/// the game of the record, or under the empty name when there was none.
pub open spec fn apply_remove(s: ModStateView, name: Seq<char>) -> ModStateView {
    ModStateView {
        mods: s.mods.remove(name),
        pending: s.pending.push(RepoWriteView::Remove {
            registry_id: if s.mods.contains_key(name) { s.mods[name].register_id } else { Seq::<char>::empty() },
            name,
        }),
    }
}

/// The known mods of a game. Each mutation that changes a record queues the
/// repository write that mirrors it.
pub struct ModState {
    mods: Vec<ReconciledMod>,
    pending: Vec<RepoWrite>,
}

/// The map from names to records that a name-sorted sequence stands for.
pub closed spec fn map_of(s: Seq<ReconciledMod>) -> Map<Seq<char>, ReconciledModView> {
    Map::new(
        |k: Seq<char>| exists|i: int| 0 <= i < s.len() && #[trigger] s[i].name@ == k,
        |k: Seq<char>| s[index_of(s, k)]@,
    )
}

/// A position of a record named `k`, when there is one.
closed spec fn index_of(s: Seq<ReconciledMod>, k: Seq<char>) -> int {
    choose|i: int| 0 <= i < s.len() && #[trigger] s[i].name@ == k
}

/// Strictly increasing names.
pub closed spec fn sorted_records(s: Seq<ReconciledMod>) -> bool {
    forall|i: int, j: int| 0 <= i < j < s.len() ==> seq_lt(#[trigger] s[i].name@, #[trigger] s[j].name@)
}

proof fn lemma_lookup(s: Seq<ReconciledMod>, i: int)
    requires
        sorted_records(s),
        0 <= i < s.len(),
    ensures
        map_of(s).contains_key(s[i].name@),
        map_of(s)[s[i].name@] == s[i]@,
{
    let k = s[i].name@;
    assert(s[i].name@ == k);
    let j = index_of(s, k);
    if j != i {
        lemma_seq_lt_irreflexive(k);
        if j < i {
            assert(seq_lt(s[j].name@, s[i].name@));
        } else {
            assert(seq_lt(s[i].name@, s[j].name@));
        }
    }
}

proof fn lemma_keyed(s: Seq<ReconciledMod>)
    requires
        sorted_records(s),
    ensures
        keyed_by_name(map_of(s)),
{
    assert forall|k: Seq<char>| #[trigger] map_of(s).contains_key(k) implies map_of(s)[k].name == k by {
        let i = index_of(s, k);
        lemma_lookup(s, i);
    }
}

proof fn lemma_lists(s: Seq<ReconciledMod>)
    requires
        sorted_records(s),
    ensures
        lists(record_views(s), map_of(s)),
{
    let v = record_views(s);
    assert forall|i: int| 0 <= i < v.len() implies map_of(s).contains_key(#[trigger] v[i].name)
        && map_of(s)[v[i].name] == v[i] by {
        lemma_lookup(s, i);
    }
    assert forall|k: Seq<char>| #[trigger] map_of(s).contains_key(k) implies exists|i: int|
        0 <= i < v.len() && v[i].name == k by {
        let i = choose|i: int| 0 <= i < s.len() && #[trigger] s[i].name@ == k;
        assert(v[i].name == k);
    }
}

proof fn lemma_update(s: Seq<ReconciledMod>, i: int, r: ReconciledMod)
    requires
        sorted_records(s),
        0 <= i < s.len(),
        s[i].name@ == r.name@,
    ensures
        sorted_records(s.update(i, r)),
        map_of(s.update(i, r)) == map_of(s).insert(r.name@, r@),
{
    let t = s.update(i, r);
    assert(sorted_records(t));
    let m = map_of(s).insert(r.name@, r@);
    assert forall|k: Seq<char>| map_of(t).contains_key(k) <==> m.contains_key(k) by {
        if map_of(t).contains_key(k) {
            let j = choose|j: int| 0 <= j < t.len() && #[trigger] t[j].name@ == k;
            if j != i {
                assert(s[j].name@ == k);
            }
        }
        if m.contains_key(k) {
            if k == r.name@ {
                assert(t[i].name@ == k);
            } else {
                let j = choose|j: int| 0 <= j < s.len() && #[trigger] s[j].name@ == k;
                assert(t[j].name@ == k);
            }
        }
    }
    assert forall|k: Seq<char>| #[trigger] map_of(t).contains_key(k) implies map_of(t)[k] == m[k] by {
        if k == r.name@ {
            lemma_lookup(t, i);
        } else {
            let j = index_of(t, k);
            assert(0 <= j < t.len() && t[j].name@ == k);
            lemma_lookup(t, j);
            assert(j != i);
            assert(t[j] == s[j]);
            lemma_lookup(s, j);
        }
    }
    assert(map_of(t) =~= m);
}

proof fn lemma_insert(s: Seq<ReconciledMod>, i: int, r: ReconciledMod)
    requires
        sorted_records(s),
        0 <= i <= s.len(),
        forall|j: int| 0 <= j < i ==> seq_lt(#[trigger] s[j].name@, r.name@),
        forall|j: int| i <= j < s.len() ==> seq_lt(r.name@, #[trigger] s[j].name@),
    ensures
        sorted_records(s.insert(i, r)),
        map_of(s.insert(i, r)) == map_of(s).insert(r.name@, r@),
{
    let t = s.insert(i, r);
    assert forall|a: int, b: int| 0 <= a < b < t.len() implies seq_lt(#[trigger] t[a].name@, #[trigger] t[b].name@) by {
        if a < i && b < i {
        } else if a < i && b == i {
        } else if a < i && b > i {
            assert(t[b] == s[b - 1]);
        } else if a == i {
            assert(t[b] == s[b - 1]);
        } else {
            assert(t[a] == s[a - 1]);
            assert(t[b] == s[b - 1]);
        }
    }
    let m = map_of(s).insert(r.name@, r@);
    assert forall|k: Seq<char>| map_of(t).contains_key(k) <==> m.contains_key(k) by {
        if map_of(t).contains_key(k) {
            let j = choose|j: int| 0 <= j < t.len() && #[trigger] t[j].name@ == k;
            if j < i {
                assert(s[j].name@ == k);
            } else if j > i {
                assert(s[j - 1].name@ == k);
            }
        }
        if m.contains_key(k) {
            if k == r.name@ {
                assert(t[i].name@ == k);
            } else {
                let j = choose|j: int| 0 <= j < s.len() && #[trigger] s[j].name@ == k;
                if j < i {
                    assert(t[j].name@ == k);
                } else {
                    assert(t[j + 1].name@ == k);
                }
            }
        }
    }
    assert forall|k: Seq<char>| #[trigger] map_of(t).contains_key(k) implies map_of(t)[k] == m[k] by {
        if k == r.name@ {
            lemma_lookup(t, i);
        } else {
            let j = index_of(t, k);
            assert(0 <= j < t.len() && t[j].name@ == k);
            lemma_lookup(t, j);
            assert(j != i);
            if j < i {
                assert(t[j] == s[j]);
                lemma_lookup(s, j);
            } else {
                assert(t[j] == s[j - 1]);
                lemma_lookup(s, j - 1);
            }
        }
    }
    assert(map_of(t) =~= m);
}

proof fn lemma_remove(s: Seq<ReconciledMod>, i: int)
    requires
        sorted_records(s),
        0 <= i < s.len(),
    ensures
        sorted_records(s.remove(i)),
        map_of(s.remove(i)) == map_of(s).remove(s[i].name@),
{
    let t = s.remove(i);
    let n = s[i].name@;
    assert forall|a: int, b: int| 0 <= a < b < t.len() implies seq_lt(#[trigger] t[a].name@, #[trigger] t[b].name@) by {
        if a < i && b >= i {
            assert(t[b] == s[b + 1]);
        } else if a >= i {
            assert(t[a] == s[a + 1]);
            assert(t[b] == s[b + 1]);
        }
    }
    let m = map_of(s).remove(n);
    assert forall|k: Seq<char>| map_of(t).contains_key(k) <==> m.contains_key(k) by {
        if map_of(t).contains_key(k) {
            let j = choose|j: int| 0 <= j < t.len() && #[trigger] t[j].name@ == k;
            lemma_seq_lt_irreflexive(k);
            if j < i {
                assert(s[j].name@ == k);
                assert(seq_lt(s[j].name@, s[i].name@));
            } else {
                assert(s[j + 1].name@ == k);
                assert(seq_lt(s[i].name@, s[j + 1].name@));
            }
        }
        if m.contains_key(k) {
            let j = choose|j: int| 0 <= j < s.len() && #[trigger] s[j].name@ == k;
            if j < i {
                assert(t[j].name@ == k);
            } else {
                assert(j != i);
                assert(t[j - 1].name@ == k);
            }
        }
    }
    assert forall|k: Seq<char>| #[trigger] map_of(t).contains_key(k) implies map_of(t)[k] == m[k] by {
        let j = index_of(t, k);
        assert(0 <= j < t.len() && t[j].name@ == k);
        lemma_lookup(t, j);
        lemma_seq_lt_irreflexive(k);
        if j < i {
            assert(t[j] == s[j]);
            assert(seq_lt(s[j].name@, s[i].name@));
            lemma_lookup(s, j);
        } else {
            assert(t[j] == s[j + 1]);
            assert(seq_lt(s[i].name@, s[j + 1].name@));
            lemma_lookup(s, j + 1);
        }
        assert(k != n);
    }
    assert(map_of(t) =~= m);
}

proof fn lemma_not_found(s: Seq<ReconciledMod>, i: int, k: Seq<char>)
    requires
        sorted_records(s),
        0 <= i <= s.len(),
        forall|j: int| 0 <= j < i ==> seq_lt(#[trigger] s[j].name@, k),
        forall|j: int| i <= j < s.len() ==> seq_lt(k, #[trigger] s[j].name@),
    ensures
        !map_of(s).contains_key(k),
{
    assert forall|j: int| 0 <= j < s.len() implies (#[trigger] s[j].name@) != k by {
        lemma_seq_lt_irreflexive(k);
    }
    lemma_absent(s, k);
}

proof fn lemma_absent(s: Seq<ReconciledMod>, k: Seq<char>)
    requires
        forall|j: int| 0 <= j < s.len() ==> (#[trigger] s[j].name@) != k,
    ensures
        !map_of(s).contains_key(k),
{
}

impl View for ModState {
    type V = Map<Seq<char>, ReconciledModView>;

    closed spec fn view(&self) -> Map<Seq<char>, ReconciledModView> {
        map_of(self.mods@)
    }
}

impl ModState {
    #[verifier::type_invariant]
    spec fn inv(self) -> bool {
        sorted_records(self.mods@)
    }

    /// The repository writes queued so far, oldest first.
    pub closed spec fn pending_writes(&self) -> Seq<RepoWriteView> {
        write_views(self.pending@)
    }

    /// The records in order of name.
    pub closed spec fn listing(&self) -> Seq<ReconciledModView> {
        record_views(self.mods@)
    }

    /// The whole content of the state.
    pub open spec fn state(&self) -> ModStateView {
        ModStateView { mods: self@, pending: self.pending_writes() }
    }

    /// The state built from `mods`, a later record replacing an earlier one of the same name.
    pub fn new(mods: Vec<ReconciledMod>) -> (r: ModState)
        ensures
            r@ == records_map(record_views(mods@)),
            r.pending_writes() == Seq::<RepoWriteView>::empty(),
    {
        let mut state = ModState { mods: Vec::new(), pending: Vec::new() };
        assert(state@ =~= Map::<Seq<char>, ReconciledModView>::empty());
        let mut i: usize = 0;
        while i < mods.len()
            invariant
                i <= mods.len(),
                state@ == records_map(record_views(mods@.take(i as int))),
                state.pending_writes() == Seq::<RepoWriteView>::empty(),
            decreases mods.len() - i,
        {
            let rec = mods[i].duplicate();
            state.put(rec);
            proof {
                let vs = record_views(mods@.take(i + 1));
                assert(vs.drop_last() =~= record_views(mods@.take(i as int)));
                assert(vs.last() == mods@[i as int]@);
            }
            i = i + 1;
        }
        assert(mods@.take(mods.len() as int) =~= mods@);
        state
    }

    /// Finds the record named `name`, or where it would be inserted.
    fn find(&self, name: &str) -> (r: Result<usize, usize>)
        ensures
            match r {
                Ok(i) => i < self.mods@.len() && self.mods@[i as int].name@ == name@,
                Err(i) => i <= self.mods@.len()
                    && (forall|j: int| 0 <= j < i ==> seq_lt(#[trigger] self.mods@[j].name@, name@))
                    && (forall|j: int| i <= j < self.mods@.len() ==> seq_lt(name@, #[trigger] self.mods@[j].name@)),
            },
    {
        proof {
            use_type_invariant(self);
        }
        let mut i: usize = 0;
        while i < self.mods.len()
            invariant
                i <= self.mods@.len(),
                sorted_records(self.mods@),
                forall|j: int| 0 <= j < i ==> seq_lt(#[trigger] self.mods@[j].name@, name@),
            decreases self.mods@.len() - i,
        {
            let cur = self.mods[i].name.as_str();
            if str_eq(cur, name) {
                return Ok(i);
            }
            if str_lt(name, cur) {
                proof {
                    assert forall|j: int| i <= j < self.mods@.len() implies seq_lt(name@, #[trigger] self.mods@[j].name@) by {
                        if j > i {
                            lemma_seq_lt_transitive(name@, self.mods@[i as int].name@, self.mods@[j].name@);
                        }
                    }
                }
                return Err(i);
            }
            proof {
                lemma_seq_lt_total(name@, cur@);
            }
            i = i + 1;
        }
        Err(i)
    }

    /// Stores `rec` under its name, replacing any record of that name.
    fn put(&mut self, rec: ReconciledMod)
        ensures
            final(self)@ == old(self)@.insert(rec.name@, rec@),
            final(self).pending_writes() == old(self).pending_writes(),
    {
        proof {
            use_type_invariant(&*self);
        }
        let found = self.find(rec.name.as_str());
        let mut mods: Vec<ReconciledMod> = Vec::new();
        std::mem::swap(&mut mods, &mut self.mods);
        match found {
            Ok(i) => {
                proof {
                    lemma_update(mods@, i as int, rec);
                }
                mods.set(i, rec);
            },
            Err(i) => {
                proof {
                    lemma_insert(mods@, i as int, rec);
                }
                mods.insert(i, rec);
            },
        }
        self.mods = mods;
    }

    /// The record named `name`, if there is one.
    pub fn get_mod(&self, name: &str) -> (r: Option<&ReconciledMod>)
        ensures
            match r {
                Some(m) => self@.contains_key(name@) && m@ == self@[name@],
                None => !self@.contains_key(name@),
            },
    {
        proof {
            use_type_invariant(self);
        }
        match self.find(name) {
            Ok(i) => {
                proof {
                    lemma_lookup(self.mods@, i as int);
                }
                Some(&self.mods[i])
            },
            Err(i) => {
                proof {
                    lemma_not_found(self.mods@, i as int, name@);
                }
                None
            },
        }
    }

    /// Replaces the record of `name` by `f` of it and queues its upsert; does nothing
    /// when there is no such record.
    fn update_with(&mut self, name: &str, rec: Option<ReconciledMod>)
        requires
            match rec {
                Some(r) => old(self)@.contains_key(name@) && r.name@ == name@,
                None => !old(self)@.contains_key(name@),
            },
        ensures
            match rec {
                Some(r) => final(self)@ == old(self)@.insert(name@, r@)
                    && final(self).pending_writes() == old(self).pending_writes().push(RepoWriteView::Upsert(r@)),
                None => final(self)@ == old(self)@ && final(self).pending_writes() == old(self).pending_writes(),
            },
    {
        if let Some(r) = rec {
            let w = RepoWrite::Upsert(r.duplicate());
            self.put(r);
            proof {
                use_type_invariant(&*self);
            }
            let mut pending: Vec<RepoWrite> = Vec::new();
            std::mem::swap(&mut pending, &mut self.pending);
            pending.push(w);
            self.pending = pending;
            proof {
                assert(write_views(self.pending@) =~= write_views(old(self).pending@).push(w@));
            }
        }
    }

    /// Marks the mod named like `mod_entry` as staged at `mod_entry`; it is no longer in the game.
    pub fn set_staged(&mut self, mod_entry: &ModEntry)
        ensures
            final(self).state() == apply_staged(old(self).state(), mod_entry@),
    {
        let rec = match self.get_mod(mod_entry.name.as_str()) {
            Some(m) => {
                let mut r = m.duplicate();
                r.status = ModStatus::Staged;
                r.staging_entry = Some(mod_entry.duplicate());
                r.game_entry = None;
                proof {
                    use_type_invariant(&*self);
                    lemma_keyed(self.mods@);
                }
                Some(r)
            },
            None => None,
        };
        self.update_with(mod_entry.name.as_str(), rec);
    }

    /// Marks the mod named like `mod_entry` as downloaded at `mod_entry`, with no staged copy and no link.
    pub fn set_downloaded(&mut self, mod_entry: &ModEntry)
        ensures
            final(self).state() == apply_downloaded(old(self).state(), mod_entry@),
    {
        let rec = match self.get_mod(mod_entry.name.as_str()) {
            Some(m) => {
                let mut r = m.duplicate();
                r.status = ModStatus::Downloaded;
                r.source_entry = Some(mod_entry.duplicate());
                r.staging_entry = None;
                r.game_entry = None;
                proof {
                    use_type_invariant(&*self);
                    lemma_keyed(self.mods@);
                }
                Some(r)
            },
            None => None,
        };
        self.update_with(mod_entry.name.as_str(), rec);
    }

    /// Marks the mod named like `mod_entry` as enabled, linked in the game at `mod_entry`.
    pub fn set_enabled(&mut self, mod_entry: &ModEntry)
        ensures
            final(self).state() == apply_enabled(old(self).state(), mod_entry@),
    {
        let rec = match self.get_mod(mod_entry.name.as_str()) {
            Some(m) => {
                let mut r = m.duplicate();
                r.status = ModStatus::Enabled;
                r.game_entry = Some(mod_entry.duplicate());
                proof {
                    use_type_invariant(&*self);
                    lemma_keyed(self.mods@);
                }
                Some(r)
            },
            None => None,
        };
        self.update_with(mod_entry.name.as_str(), rec);
    }

    /// Marks the mod `name` as downloaded only: its staged copy and its link are gone.
    pub fn set_unstaged(&mut self, name: &str)
        ensures
            final(self).state() == apply_unstaged(old(self).state(), name@),
    {
        let rec = match self.get_mod(name) {
            Some(m) => {
                let mut r = m.duplicate();
                r.staging_entry = None;
                r.game_entry = None;
                r.status = ModStatus::Downloaded;
                proof {
                    use_type_invariant(&*self);
                    lemma_keyed(self.mods@);
                }
                Some(r)
            },
            None => None,
        };
        self.update_with(name, rec);
    }

    /// Marks the mod `name` as staged only: its link in the game is gone.
    pub fn set_disabled(&mut self, name: &str)
        ensures
            final(self).state() == apply_disabled(old(self).state(), name@),
    {
        let rec = match self.get_mod(name) {
            Some(m) => {
                let mut r = m.duplicate();
                r.game_entry = None;
                r.status = ModStatus::Staged;
                proof {
                    use_type_invariant(&*self);
                    lemma_keyed(self.mods@);
                }
                Some(r)
            },
            None => None,
        };
        self.update_with(name, rec);
    }

    /// Forgets the mod `name` and queues its deletion, under the game of its record
    /// (the empty name when there was no record).
    pub fn remove(&mut self, name: &str)
        ensures
            final(self).state() == apply_remove(old(self).state(), name@),
    {
        proof {
            use_type_invariant(&*self);
        }
        let registry_id = match self.get_mod(name) {
            Some(m) => copy_string(&m.register_id),
            None => String::new(),
        };
        match self.find(name) {
            Ok(i) => {
                let mut mods: Vec<ReconciledMod> = Vec::new();
                std::mem::swap(&mut mods, &mut self.mods);
                proof {
                    lemma_remove(mods@, i as int);
                }
                mods.remove(i);
                self.mods = mods;
            },
            Err(i) => {
                proof {
                    lemma_not_found(self.mods@, i as int, name@);
                    assert(!self@.contains_key(name@));
                    assert(self@.remove(name@) =~= self@);
                }
            },
        }
        let w = RepoWrite::Remove { registry_id, name: String::from_str(name) };
        proof {
            use_type_invariant(&*self);
        }
        let mut pending: Vec<RepoWrite> = Vec::new();
        std::mem::swap(&mut pending, &mut self.pending);
        pending.push(w);
        self.pending = pending;
        proof {
            assert(write_views(self.pending@) =~= write_views(old(self).pending@).push(w@));
        }
    }

    /// The records, in order of name.
    pub fn get_mods(&self) -> (r: &Vec<ReconciledMod>)
        ensures
            lists(record_views(r@), self@),
            record_views(r@) == self.listing(),
    {
        proof {
            use_type_invariant(self);
            lemma_lists(self.mods@);
        }
        &self.mods
    }

    /// Copies of the records, in order of name.
    pub fn snapshot(&self) -> (r: Vec<ReconciledMod>)
        ensures
            lists(record_views(r@), self@),
            record_views(r@) == self.listing(),
    {
        proof {
            use_type_invariant(self);
            lemma_lists(self.mods@);
        }
        let mut out: Vec<ReconciledMod> = Vec::new();
        let mut i: usize = 0;
        while i < self.mods.len()
            invariant
                i <= self.mods@.len(),
                out@.len() == i,
                record_views(out@) == record_views(self.mods@.take(i as int)),
            decreases self.mods@.len() - i,
        {
            let ghost before = out@;
            out.push(self.mods[i].duplicate());
            proof {
                assert(self.mods@.take(i + 1) =~= self.mods@.take(i as int).push(self.mods@[i as int]));
                assert(out@ =~= before.push(out@[i as int]));
                assert(record_views(out@) =~= record_views(before).push(out@[i as int]@));
                assert(record_views(self.mods@.take(i + 1)) =~= record_views(self.mods@.take(i as int)).push(self.mods@[i as int]@));
            }
            i = i + 1;
        }
        proof {
            assert(self.mods@.take(self.mods@.len() as int) =~= self.mods@);
        }
        out
    }

    /// Hands over the queued repository writes, oldest first, and empties the queue.
    pub fn take_pending(&mut self) -> (r: Vec<RepoWrite>)
        ensures
            write_views(r@) == old(self).pending_writes(),
            final(self)@ == old(self)@,
            final(self).pending_writes() == Seq::<RepoWriteView>::empty(),
    {
        proof {
            use_type_invariant(&*self);
        }
        let mut r: Vec<RepoWrite> = Vec::new();
        std::mem::swap(&mut r, &mut self.pending);
        proof {
            assert(write_views(self.pending@) =~= Seq::<RepoWriteView>::empty());
        }
        r
    }
}

impl Default for ModState {
    fn default() -> (r: ModState)
        ensures
            r@ == Map::<Seq<char>, ReconciledModView>::empty(),
            r.pending_writes() == Seq::<RepoWriteView>::empty(),
    {
        let r = ModState { mods: Vec::new(), pending: Vec::new() };
        proof {
            assert(r@ =~= Map::<Seq<char>, ReconciledModView>::empty());
            assert(r.pending_writes() =~= Seq::<RepoWriteView>::empty());
        }
        r
    }
}

} // verus!
