//! Finding where work was interrupted.
use vstd::prelude::*;
use crate::commands::fix_plan::{find_fix, status_test};
use crate::state::roadmap::{
    FixView, PhraseView, RoadmapState, first_where, lemma_first_where_is,
};
use crate::text::same_text;

verus! {

/// A phase that work was interrupted in: in development, with an issue found,
/// or being fixed.
pub open spec fn in_progress(p: PhraseView) -> bool {
    p.status == "dev"@ || p.status == "issue_found"@ || p.status == "fixing"@
}

/// The first executing fix, going through the phases in order.
pub open spec fn first_executing(ps: Seq<PhraseView>) -> Option<FixView>
    decreases ps.len(),
{
    if ps.len() == 0 {
        None
    } else {
        match first_where(ps[0].fixes, status_test("executing"@, true)) {
            Some(k) => Some(ps[0].fixes[k]),
            None => first_executing(ps.drop_first()),
        }
    }
}

/// The report of an interrupted phase, with the executing fix if there is one.
pub open spec fn breakpoint_text(p: PhraseView, fix: Option<FixView>) -> Seq<char> {
    "📍 发现断点:\n  当前阶段: "@ + p.name + "\n  阶段状态: "@ + p.status + "\n  文件: "@ + p.file
        + "\n"@ + match fix {
        Some(f) => "  修复任务: "@ + f.plan_file + " (executing)\n"@,
        None => Seq::empty(),
    } + "\n请选择下一步操作:\n  /ddd-exec - 继续当前阶段开发\n  /ddd-verify - 审核当前阶段成果\n"@
}

/// The report when no work was interrupted.
pub open spec fn no_breakpoint_text(workflow: Seq<char>) -> Seq<char> {
    "没有发现断点，所有阶段已完成。\n当前工作流状态: "@ + workflow + "\n"@
}

fn is_in_progress(status: &str) -> (r: bool)
    ensures
        r == (status@ == "dev"@ || status@ == "issue_found"@ || status@ == "fixing"@),
{
    same_text(status, "dev") || same_text(status, "issue_found") || same_text(status, "fixing")
}

/// What `resume` prints: the first interrupted phase, with the first
/// executing fix of the roadmap, and the next steps; or, when no phase was
/// interrupted, the workflow state.
pub fn resume_report(state: &RoadmapState) -> (r: String)
    ensures
        match first_where(state@.phrases, |p: PhraseView| in_progress(p)) {
            Some(i) => r@ == breakpoint_text(
                state@.phrases[i],
                first_executing(state@.phrases),
            ),
            None => r@ == no_breakpoint_text(state@.workflow),
        },
{
    let ghost ps = state@.phrases;
    let ghost p = |q: PhraseView| in_progress(q);
    let mut found: Option<usize> = None;
    let mut i: usize = 0;
    while found.is_none() && i < state.phrases.len()
        invariant
            ps == state@.phrases,
            p == (|q: PhraseView| in_progress(q)),
            i <= ps.len(),
            found is None ==> forall|j: int| 0 <= j < i ==> !p(#[trigger] ps[j]),
            found matches Some(k) ==> k < ps.len() && first_where(ps, p) == Some(k as int),
        decreases ps.len() - i,
    {
        if is_in_progress(state.phrases[i].status.as_str()) {
            proof {
                assert(p(ps[i as int]));
                lemma_first_where_is(ps, p, i as int);
            }
            found = Some(i);
        }
        i = i + 1;
    }
    let k = match found {
        Some(k) => k,
        None => {
            return "没有发现断点，所有阶段已完成。\n当前工作流状态: ".to_owned().concat(
                state.workflow.as_str(),
            ).concat("\n");
        },
    };
    let mut fix_file: Option<String> = None;
    let mut m: usize = 0;
    assert(ps.skip(0) =~= ps);
    while fix_file.is_none() && m < state.phrases.len()
        invariant
            ps == state@.phrases,
            m <= ps.len(),
            fix_file is None ==> first_executing(ps) == first_executing(ps.skip(m as int)),
            fix_file matches Some(f) ==> first_executing(ps) matches Some(fx) && fx.plan_file == f@,
        decreases ps.len() - m,
    {
        let phase = &state.phrases[m];
        assert(ps.skip(m as int)[0] == phase@);
        assert(ps.skip(m as int).drop_first() =~= ps.skip(m + 1));
        match find_fix(&phase.fixes, "executing", true) {
            Some(x) => {
                assert(phase.fixes@[x as int]@ == phase@.fixes[x as int]);
                fix_file = Some(phase.fixes[x].plan_file.clone());
            },
            None => {},
        }
        m = m + 1;
    }
    let phase = &state.phrases[k];
    let mut out = "📍 发现断点:\n  当前阶段: ".to_owned().concat(phase.name.as_str()).concat(
        "\n  阶段状态: ",
    ).concat(phase.status.as_str()).concat("\n  文件: ").concat(phase.file.as_str()).concat("\n");
    match fix_file {
        Some(f) => {
            out = out.concat("  修复任务: ").concat(f.as_str()).concat(" (executing)\n");
        },
        None => {},
    }
    out.concat("\n请选择下一步操作:\n  /ddd-exec - 继续当前阶段开发\n  /ddd-verify - 审核当前阶段成果\n")
}

} // verus!
