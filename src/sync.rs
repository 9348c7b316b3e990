use vstd::prelude::*;

verus! {

/// What reconciling one album with its mirror amounts to, over file names.
pub enum PlanView {
    NothingToDo,
    CopyDirectory,
    CopyFiles(Seq<Seq<char>>),
}

/// What reconciling one album with its mirror calls for.
pub enum SyncPlan {
    /// The mirror is complete as far as the count of entries shows.
    NothingToDo,
    /// The mirror is absent: copy the album directory whole under the artist directory.
    CopyDirectory,
    /// The mirror exists: copy these files of the source, in source order.
    CopyFiles(Vec<String>),
}

impl View for SyncPlan {
    type V = PlanView;

    open spec fn view(&self) -> PlanView {
        match self {
            SyncPlan::NothingToDo => PlanView::NothingToDo,
            SyncPlan::CopyDirectory => PlanView::CopyDirectory,
            SyncPlan::CopyFiles(v) => PlanView::CopyFiles(v.deep_view()),
        }
    }
}

/// The names of `source` that `target` lacks, in source order. Matching is by
/// name alone.
pub open spec fn missing_names(source: Seq<Seq<char>>, target: Seq<Seq<char>>) -> Seq<Seq<char>> {
    source.filter(absent_from(target))
}

/// Holds of the names that `target` lacks.
pub open spec fn absent_from(target: Seq<Seq<char>>) -> spec_fn(Seq<char>) -> bool {
    |n: Seq<char>| !target.contains(n)
}

/// The entries of an album mirror, if it exists.
pub open spec fn mirror_names(target: Option<&Vec<String>>) -> Option<Seq<Seq<char>>> {
    match target {
        Some(t) => Some(t.deep_view()),
        None => None,
    }
}

/// The staleness heuristic: a sync is due when artwork was written or the source
/// holds more entries than the mirror (an absent mirror holds none).
pub open spec fn stale(did_write: bool, source: Seq<Seq<char>>, target: Option<Seq<Seq<char>>>) -> bool {
    match target {
        Some(t) => did_write || source.len() > t.len(),
        None => did_write || source.len() > 0,
    }
}

/// The plan for a source album with entries `source` and a mirror `target`.
pub open spec fn planned(did_write: bool, source: Seq<Seq<char>>, target: Option<Seq<Seq<char>>>) -> PlanView {
    if !stale(did_write, source, target) {
        PlanView::NothingToDo
    } else {
        match target {
            Some(t) => PlanView::CopyFiles(missing_names(source, t)),
            None => PlanView::CopyDirectory,
        }
    }
}

/// The entries of the mirror once `plan` has been carried out.
pub open spec fn mirror_after(source: Seq<Seq<char>>, target: Option<Seq<Seq<char>>>, plan: PlanView) -> Option<Seq<Seq<char>>> {
    match plan {
        PlanView::NothingToDo => target,
        PlanView::CopyDirectory => Some(source),
        PlanView::CopyFiles(m) => Some(target.unwrap_or(Seq::empty()) + m),
    }
}

/// Whether a mirrored album must be brought up to date: new artwork was
/// written, or the source holds more entries than the target.
pub fn needs_sync(did_write: bool, source_count: usize, target_count: usize) -> (r: bool)
    ensures
        r == (did_write || source_count > target_count),
{
    did_write || source_count > target_count
}

/// Whether `names` holds `name`.
pub fn contains_name(names: &Vec<String>, name: &String) -> (r: bool)
    ensures
        r == names.deep_view().contains(name@),
{
    let mut i: usize = 0;
    while i < names.len()
        invariant
            i <= names.len(),
            forall|k: int| 0 <= k < i ==> names.deep_view()[k] != name@,
        decreases names.len() - i,
    {
        if names[i] == *name {
            assert(names.deep_view()[i as int] == name@);
            return true;
        }
        i = i + 1;
    }
    false
}

/// The files of `source` whose name `target` lacks, in source order.
pub fn missing_files(source: &Vec<String>, target: &Vec<String>) -> (r: Vec<String>)
    ensures
        r.deep_view() == missing_names(source.deep_view(), target.deep_view()),
{
    let ghost keep = absent_from(target.deep_view());
    let mut out: Vec<String> = Vec::new();
    let mut i: usize = 0;
    while i < source.len()
        invariant
            i <= source.len(),
            keep == absent_from(target.deep_view()),
            out.deep_view() == source.deep_view().subrange(0, i as int).filter(keep),
        decreases source.len() - i,
    {
        let ghost before = source.deep_view().subrange(0, i as int);
        assert(source.deep_view().subrange(0, i + 1) == before.push(source.deep_view()[i as int]));
        proof {
            before.lemma_filter_push(source.deep_view()[i as int], keep);
        }
        assert(source.deep_view()[i as int] == source@[i as int]@);
        let found = contains_name(target, &source[i]);
        assert(keep(source.deep_view()[i as int]) == !found);
        if !found {
            let ghost prev = out.deep_view();
            out.push(source[i].clone());
            assert(out.deep_view() =~= prev.push(source.deep_view()[i as int]));
        }
        assert(out.deep_view() == before.push(source.deep_view()[i as int]).filter(keep));
        i = i + 1;
    }
    assert(source.deep_view().subrange(0, source.len() as int) == source.deep_view());
    out
}

/// Decides whether and what to copy for one album: `source` lists the album
/// directory's entries, `target` those of its mirror if the mirror exists, and
/// `did_write` says whether artwork was written into the source this run.
pub fn plan_sync(did_write: bool, source: &Vec<String>, target: Option<&Vec<String>>) -> (r: SyncPlan)
    ensures
        r@ == planned(did_write, source.deep_view(), mirror_names(target)),
{
    match target {
        None => {
            if needs_sync(did_write, source.len(), 0) {
                SyncPlan::CopyDirectory
            } else {
                SyncPlan::NothingToDo
            }
        },
        Some(t) => {
            if needs_sync(did_write, source.len(), t.len()) {
                SyncPlan::CopyFiles(missing_files(source, t))
            } else {
                SyncPlan::NothingToDo
            }
        },
    }
}

/// With as many entries in the mirror as in the source and no new artwork,
/// nothing is copied, whatever the files hold.
pub proof fn lemma_equal_counts_need_nothing(source: Seq<Seq<char>>, target: Seq<Seq<char>>)
    requires
        source.len() == target.len(),
    ensures
        planned(false, source, Some(target)) == PlanView::NothingToDo,
{
}

/// Carrying out a plan and reconciling again, with no artwork written and the
/// source unchanged, gives nothing to do.
pub proof fn lemma_second_run_needs_nothing(source: Seq<Seq<char>>, target: Option<Seq<Seq<char>>>, did_write: bool)
    requires
        source.no_duplicates(),
    ensures
        planned(false, source, mirror_after(source, target, planned(did_write, source, target)))
            == PlanView::NothingToDo,
{
    if let Some(t) = target {
        if stale(did_write, source, target) {
            let keep = absent_from(t);
            let m = missing_names(source, t);
            let after = t + m;
            assert forall|n: Seq<char>| source.to_set().contains(n) implies after.to_set().contains(n) by {
                let i = choose|i: int| 0 <= i < source.len() && source[i] == n;
                if t.contains(n) {
                    let k = choose|k: int| 0 <= k < t.len() && t[k] == n;
                    assert(after[k] == n);
                } else {
                    source.lemma_filter_contains(keep, i);
                    let k = choose|k: int| 0 <= k < m.len() && m[k] == n;
                    assert(after[t.len() + k] == n);
                }
                assert(after.contains(n));
            }
            source.unique_seq_to_set();
            after.lemma_cardinality_of_set();
            vstd::set_lib::lemma_len_subset(source.to_set(), after.to_set());
        }
    }
}

} // verus!
