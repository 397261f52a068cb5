//! Planning a fix for the current phase.
use vstd::prelude::*;
use crate::prompts::{PromptParams, render, render_spec, render_text};
use crate::state::roadmap::{
    Fix, FixView, PhraseView, RoadmapState, first_where, lemma_first_where_is, pointed_phase,
    position_of,
};
use crate::text::{decimal, decimal_string, replace_all, replace_text, same_text};

verus! {

/// The fix planning prompt.
pub const FIX_PLAN_PROMPT: &'static str = r#"根据开发计划 @project_docs/phrases/{Phrase Name}.md 中提取对应的 spec 文档作为资料, 根据前面总结的问题, 调用 @Plan 生成fix的计划, 存到 @{plan_file}.
接下来询问是否要 执行 /ddd-fix-exec 来执行修复计划. 或者手动修改 @{plan_file} 后, 执行 /ddd-fix-exec 来执行修复计划."#;

/// Whether a fix's status equals `st` (when `equal`) or differs from it.
pub open spec fn status_test(st: Seq<char>, equal: bool) -> spec_fn(FixView) -> bool {
    |f: FixView| (f.status == st) == equal
}

/// The index of the first fix whose status equals `st` (when `equal`) or
/// differs from it (otherwise).
pub fn find_fix(fixes: &Vec<Fix>, st: &str, equal: bool) -> (r: Option<usize>)
    ensures
        match r {
            Some(k) => first_where(fixes@.map_values(|f: Fix| f@), status_test(st@, equal)) == Some(
                k as int,
            ),
            None => first_where(fixes@.map_values(|f: Fix| f@), status_test(st@, equal)) is None,
        },
        r matches Some(k) ==> k < fixes@.len(),
{
    let ghost fv = fixes@.map_values(|f: Fix| f@);
    let ghost p = status_test(st@, equal);
    let mut i: usize = 0;
    while i < fixes.len()
        invariant
            fv == fixes@.map_values(|f: Fix| f@),
            p == status_test(st@, equal),
            i <= fixes@.len(),
            forall|j: int| 0 <= j < i ==> !p(#[trigger] fv[j]),
        decreases fixes@.len() - i,
    {
        if same_text(fixes[i].status.as_str(), st) == equal {
            proof {
                assert(p(fv[i as int]));
                lemma_first_where_is(fv, p, i as int);
            }
            return Some(i);
        }
        i = i + 1;
    }
    None
}

/// The plan file of a new fix of a phase, numbered by how many fixes it has.
pub open spec fn new_plan_file(name: Seq<char>, count: u32) -> Seq<char> {
    "@project_docs/fixes/"@ + replace_text(name, "Phrase"@, "phrase"@) + "_fix"@ + decimal(
        count as nat,
    ) + ".md"@
}

/// The plan file of the fix to plan: that of the first fix not done, else
/// that of a new fix.
pub open spec fn fix_plan_file(p: PhraseView) -> Seq<char> {
    match first_where(p.fixes, status_test("done"@, false)) {
        Some(k) => p.fixes[k].plan_file,
        None => new_plan_file(p.name, p.fixes.len() as u32),
    }
}

/// The parameters of the fix planning prompt.
pub open spec fn fix_plan_params(name: String, plan_file: String) -> PromptParams {
    PromptParams {
        context: None,
        file: None,
        phase_name: Some(name),
        plan_file: Some(plan_file),
        name: None,
    }
}

/// What `fix-plan` prints. The current phase must exist and have found an
/// issue; then the fix planning prompt is rendered for the phase and the plan
/// file of the fix to plan, followed by an empty line and the plan file.
pub fn fix_plan_step(state: &RoadmapState) -> (r: String)
    ensures
        match pointed_phase(state@) {
            None => r@ == "请先完成开发阶段"@,
            Some(i) => if state@.phrases[i].status != "issue_found"@ {
                r@ == "请先完成开发阶段"@
            } else {
                exists|n: String, pf: String|
                    n@ == state@.phrases[i].name && pf@ == fix_plan_file(state@.phrases[i]) && r@
                        == render_text(render_spec(FIX_PLAN_PROMPT@, #[trigger] fix_plan_params(n, pf)))
                        + "\n\n修复计划文件: "@ + pf@
            },
        },
{
    let i = match &state.current_phase {
        Some(name) => match position_of(&state.phrases, name.as_str()) {
            Some(i) => i,
            None => {
                return "请先完成开发阶段".to_owned();
            },
        },
        None => {
            return "请先完成开发阶段".to_owned();
        },
    };
    let phase = &state.phrases[i];
    if !same_text(phase.status.as_str(), "issue_found") {
        return "请先完成开发阶段".to_owned();
    }
    let ghost pv = state@.phrases[i as int];
    assert(pv == phase@);
    let plan_file = match find_fix(&phase.fixes, "done", false) {
        Some(k) => {
            assert(phase.fixes@[k as int]@ == pv.fixes[k as int]);
            phase.fixes[k].plan_file.clone()
        },
        None => {
            proof {
                reveal_strlit("Phrase");
            }
            let count = #[verifier::truncate] (phase.fixes.len() as u32);
            "@project_docs/fixes/".to_owned().concat(
                replace_all(phase.name.as_str(), "Phrase", "phrase").as_str(),
            ).concat("_fix").concat(decimal_string(count as u64).as_str()).concat(".md")
        },
    };
    let name = phase.name.clone();
    let params = PromptParams::new().with_phase_name(name.clone()).with_plan_file(plan_file.clone());
    assert(params == fix_plan_params(name, plan_file));
    let text = match render(FIX_PLAN_PROMPT, &params) {
        Ok(t) => t,
        Err(e) => e,
    };
    text.concat("\n\n修复计划文件: ").concat(plan_file.as_str())
}

} // verus!
