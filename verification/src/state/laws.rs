//! Properties that hold across the roadmap operations.
use vstd::prelude::*;
use crate::state::store::restamped;
use crate::state::roadmap::{
    PhraseView, RoadmapView, RoadmapError, is_first_named, first_named, all_finished, dev_started,
    marked_finished, pointed_at, planned, advance_post, valid_phase_status, with_status,
    lemma_first_named_is, advanced,
};

verus! {

/// Phase names are pairwise distinct.
pub open spec fn distinct_names(ps: Seq<PhraseView>) -> bool {
    forall|i: int, j: int| 0 <= i < ps.len() && 0 <= j < ps.len() && i != j ==> ps[i].name != ps[j].name
}

/// The roadmap is being worked through in order: names are distinct, every
/// phase before the current one has finished, and with no current phase every
/// phase has finished.
pub open spec fn in_order(s: RoadmapView) -> bool {
    &&& distinct_names(s.phrases)
    &&& match s.current_phase {
        Some(n) => match first_named(s.phrases, n) {
            Some(i) => forall|j: int| 0 <= j < i ==> #[trigger] s.phrases[j].status == "finished"@,
            None => false,
        },
        None => all_finished(s.phrases),
    }
}

/// Every operation that changes a roadmap keeps a valid roadmap valid, and an
/// accepted plan is valid whatever came before.
pub proof fn law_operations_keep_roadmap_valid(
    s: RoadmapView,
    name: Seq<char>,
    files: Seq<(String, String)>,
)
    requires
        s.is_valid(),
    ensures
        dev_started(s, name).is_valid(),
        marked_finished(s, name).is_valid(),
        forall|i: int| 0 <= i < s.phrases.len() ==> (#[trigger] pointed_at(s, i)).is_valid(),
        planned(s, files).is_valid(),
        forall|t: RoadmapView, r: Result<Option<PhraseView>, RoadmapError>|
            #[trigger] advance_post(s, t, r) ==> t.is_valid(),
{
    reveal_strlit("dev");
    reveal_strlit("finished");
    reveal_strlit("init");
    reveal_strlit("ready");
    reveal_strlit("verifying");
    reveal_strlit("archived");
    assert(planned(s, files).is_valid()) by {
        let p = planned(s, files);
        assert forall|i: int| 0 <= i < p.phrases.len() implies valid_phase_status(
            #[trigger] p.phrases[i].status,
        ) by {}
    }
}

/// Accepting a plan whose phase names are distinct starts an in-order roadmap.
pub proof fn law_plan_starts_in_order(s: RoadmapView, files: Seq<(String, String)>)
    requires
        forall|i: int, j: int|
            0 <= i < files.len() && 0 <= j < files.len() && i != j ==> files[i].0@ != files[j].0@,
    ensures
        in_order(planned(s, files)),
{
    let p = planned(s, files);
    assert forall|i: int, j: int|
        0 <= i < p.phrases.len() && 0 <= j < p.phrases.len() && i != j implies p.phrases[i].name
        != p.phrases[j].name by {
        assert(p.phrases[i].name == files[i].0@);
        assert(p.phrases[j].name == files[j].0@);
    }
    if files.len() > 0 {
        assert(is_first_named(p.phrases, files[0].0@, 0));
        lemma_first_named_is(p.phrases, files[0].0@, 0);
    }
}

/// Advancing an in-order roadmap never fails, finishes the current phase and
/// leaves the roadmap in order.
pub proof fn law_advance_keeps_order(
    s: RoadmapView,
    t: RoadmapView,
    r: Result<Option<PhraseView>, RoadmapError>,
)
    requires
        in_order(s),
        advance_post(s, t, r),
    ensures
        r is Ok,
        in_order(t),
{
    match s.current_phase {
        None => {
            assert(t == s);
        },
        Some(n) => {
            let i = first_named(s.phrases, n)->0;
            let ps = with_status(s.phrases, i, "finished"@);
            assert(t.phrases == ps);
            assert(distinct_names(ps));
            if i + 1 < s.phrases.len() {
                let m = s.phrases[i + 1].name;
                assert(is_first_named(ps, m, i + 1));
                lemma_first_named_is(ps, m, i + 1);
                assert forall|j: int| 0 <= j < i + 1 implies #[trigger] ps[j].status
                    == "finished"@ by {}
            } else {
                assert forall|j: int| 0 <= j < ps.len() implies #[trigger] ps[j].status
                    == "finished"@ by {}
            }
        },
    }
}

/// An in-order roadmap with no current phase is complete.
pub proof fn law_in_order_without_current_is_complete(s: RoadmapView)
    requires
        in_order(s),
        s.current_phase is None,
    ensures
        all_finished(s.phrases),
{
}

/// Advancing never takes a finished phase back, and never changes which
/// phases there are, their names, files or fixes.
pub proof fn law_advance_only_finishes(
    s: RoadmapView,
    t: RoadmapView,
    r: Result<Option<PhraseView>, RoadmapError>,
)
    requires
        advance_post(s, t, r),
    ensures
        t.phrases.len() == s.phrases.len(),
        forall|i: int|
            0 <= i < s.phrases.len() ==> {
                &&& (#[trigger] t.phrases[i]).name == s.phrases[i].name
                &&& t.phrases[i].file == s.phrases[i].file
                &&& t.phrases[i].fixes == s.phrases[i].fixes
                &&& (s.phrases[i].status == "finished"@ ==> t.phrases[i].status == "finished"@)
            },
        t.workflow == s.workflow,
        t.doc_ready == s.doc_ready,
{
}

/// What saving writes is what loading accepts: the stamped copy of a valid
/// roadmap is valid, so loading hands it back unchanged; and it differs from
/// the roadmap that was saved in its time stamp alone.
pub proof fn law_saved_roadmap_loads_back(s: RoadmapView, t: RoadmapView)
    requires
        s.is_valid(),
        restamped(s, t),
    ensures
        t.is_valid(),
        t.workflow == s.workflow,
        t.phrases == s.phrases,
        t.current_phase == s.current_phase,
        t.doc_ready == s.doc_ready,
        t.version == s.version,
{
}

/// One confirmation's worth of advancing: the phase the pointer names is
/// finished and the pointer moves on; without such a phase nothing changes.
pub open spec fn advance_once(s: RoadmapView) -> RoadmapView {
    match s.current_phase {
        Some(n) => match first_named(s.phrases, n) {
            Some(i) => advanced(s, i),
            None => s,
        },
        None => s,
    }
}

/// The roadmap after advancing `k` times.
pub open spec fn advance_times(s: RoadmapView, k: nat) -> RoadmapView
    decreases k,
{
    if k == 0 {
        s
    } else {
        advance_once(advance_times(s, (k - 1) as nat))
    }
}

/// Every file name pair of a plan has a name of its own.
pub open spec fn distinct_plan(files: Seq<(String, String)>) -> bool {
    forall|i: int, j: int|
        0 <= i < files.len() && 0 <= j < files.len() && i != j ==> files[i].0@ != files[j].0@
}

/// After `k` advances of a freshly accepted plan: the first `k` phases are
/// finished, the others still `init`, and the pointer names phase `k`, or is
/// cleared once `k` reaches the number of phases.
proof fn lemma_advance_times_planned(s: RoadmapView, files: Seq<(String, String)>, k: nat)
    requires
        distinct_plan(files),
    ensures
        advance_times(planned(s, files), k).phrases.len() == files.len(),
        forall|j: int|
            0 <= j < files.len() ==> (#[trigger] advance_times(planned(s, files), k).phrases[j]).name
                == files[j].0@,
        forall|j: int|
            0 <= j < files.len() ==> (#[trigger] advance_times(planned(s, files), k).phrases[j]).status
                == if j < k {
                "finished"@
            } else {
                "init"@
            },
        advance_times(planned(s, files), k).current_phase == if k < files.len() {
            Some(files[k as int].0@)
        } else {
            None::<Seq<char>>
        },
    decreases k,
{
    let p = planned(s, files);
    if k > 0 {
        lemma_advance_times_planned(s, files, (k - 1) as nat);
        let t = advance_times(p, (k - 1) as nat);
        if k - 1 < files.len() {
            let m = files[k - 1].0@;
            assert(is_first_named(t.phrases, m, k - 1));
            lemma_first_named_is(t.phrases, m, k - 1);
        }
    }
}

/// A freshly accepted plan of `n` phases with distinct names is complete
/// exactly once it has been advanced `n` times (and stays complete after);
/// each advance is what `advance_phase` does to the roadmap.
pub proof fn law_complete_after_one_advance_per_phase(
    s: RoadmapView,
    files: Seq<(String, String)>,
    k: nat,
)
    requires
        distinct_plan(files),
    ensures
        all_finished(advance_times(planned(s, files), k).phrases) <==> k >= files.len(),
        k >= files.len() ==> advance_times(planned(s, files), k).current_phase is None,
        forall|a: RoadmapView, b: RoadmapView, r: Result<Option<PhraseView>, RoadmapError>|
            #[trigger] advance_post(a, b, r) ==> b == advance_once(a),
{
    lemma_advance_times_planned(s, files, k);
    let t = advance_times(planned(s, files), k);
    if k < files.len() {
        assert(t.phrases[k as int].status == "init"@);
        reveal_strlit("init");
        reveal_strlit("finished");
        assert(t.phrases[k as int].status != "finished"@);
    }
}

} // verus!
