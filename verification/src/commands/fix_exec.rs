//! Executing the planned fix of the current phase.
use vstd::prelude::*;
use crate::commands::fix_plan::{find_fix, status_test};
use crate::prompts::{PromptParams, render, render_spec, render_text};
use crate::state::roadmap::{RoadmapState, first_where, pointed_phase, position_of};
use crate::text::same_text;

verus! {

/// The fix execution prompt.
pub const FIX_EXEC_PROMPT: &'static str = r#"根据fix计划  @{plan_file} 再根据 相关开发计划 @{file}, 并从开发计划中提取对应的 spec 文档作为资料, 启动开发子代理执行修复计划. 完成后再:
1. 对第一阶段开发进行代码审核.
2. 运行所有单元测试
3. 核对spec对代码进行深度事实审核
如果所有验证项目均没有issuse, 就执行 !`ddd-tool finish_fix` 然后输出 "太开心啦, 通过啦!""#;

/// The parameters of the fix execution prompt.
pub open spec fn fix_exec_params(plan_file: String, file: String) -> PromptParams {
    PromptParams {
        context: None,
        file: Some(file),
        phase_name: None,
        plan_file: Some(plan_file),
        name: None,
    }
}

/// What `fix-exec` prints. The current phase must exist and have found an
/// issue, and one of its fixes must be planned; then the fix execution prompt
/// is rendered for the first planned fix and the phase document.
pub fn fix_exec_step(state: &RoadmapState) -> (r: String)
    ensures
        match pointed_phase(state@) {
            None => r@ == "请先完成开发阶段"@,
            Some(i) => if state@.phrases[i].status != "issue_found"@ {
                r@ == "请先完成开发阶段"@
            } else {
                match first_where(state@.phrases[i].fixes, status_test("planned"@, true)) {
                    None => r@ == "请先完成修复计划阶段"@,
                    Some(k) => exists|pf: String, f: String|
                        pf@ == state@.phrases[i].fixes[k].plan_file && f@ == state@.phrases[i].file
                            && r@ == render_text(
                            render_spec(FIX_EXEC_PROMPT@, #[trigger] fix_exec_params(pf, f)),
                        ),
                }
            },
        },
{
    let i = match &state.current_phase {
        Some(name) => match position_of(&state.phrases, name.as_str()) {
            Some(i) => i,
            None => {
                return "请先完成开发阶段".to_owned();
            },
        },
        None => {
            return "请先完成开发阶段".to_owned();
        },
    };
    let phase = &state.phrases[i];
    if !same_text(phase.status.as_str(), "issue_found") {
        return "请先完成开发阶段".to_owned();
    }
    let ghost pv = state@.phrases[i as int];
    assert(pv == phase@);
    let k = match find_fix(&phase.fixes, "planned", true) {
        Some(k) => k,
        None => {
            return "请先完成修复计划阶段".to_owned();
        },
    };
    assert(phase.fixes@[k as int]@ == pv.fixes[k as int]);
    let plan_file = phase.fixes[k].plan_file.clone();
    let file = phase.file.clone();
    let params = PromptParams::new().with_plan_file(plan_file.clone()).with_file(file.clone());
    assert(params == fix_exec_params(plan_file, file));
    match render(FIX_EXEC_PROMPT, &params) {
        Ok(t) => t,
        Err(e) => e,
    }
}

} // verus!
