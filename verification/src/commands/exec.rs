//! Starting or resuming development of the current phase.
use vstd::prelude::*;
use crate::commands::trait_def::DddCommand;
use crate::commands::confirm_phase::ALL_DONE_MESSAGE;
use crate::prompts::{PromptParams, render, render_spec, render_text};
use crate::state::roadmap::{RoadmapState, RoadmapView, current_index, dev_started, all_finished};

verus! {

/// The development prompt.
pub const EXEC_PROMPT: &'static str = r#"根据开发计划文档 @{file} 开始{name}的开发, 从开发计划中提取对应的规格文档作为资料,
开发必须遵守下面的原则:
1. 必须完整实现
2. 禁止mock
3. 禁止桩实现
4. 必须先按照规则实现单元测试, 再实现业务逻辑
将开发任务生成任务列表, 并将每个任务按照顺序委托给子代理串行执行.
当开发完成后, 立即执行 `ddd-tool verify`"#;

/// The parameters of the development prompt for a phase.
pub open spec fn exec_params(file: String, name: String) -> PromptParams {
    PromptParams { context: None, file: Some(file), phase_name: None, plan_file: None, name: Some(name) }
}

/// What `exec` decides: the text to print, if any, and the roadmap to save,
/// if any.
pub struct ExecOutcome {
    pub output: Option<String>,
    pub save: Option<RoadmapState>,
}

/// Starts the current phase. Without ready documents it says so. Otherwise
/// the current phase (the one the pointer names) is put into
/// development, to be saved, and the development prompt for it is printed;
/// with no current phase nothing is saved, and the completion message is
/// printed when every phase has finished.
pub fn exec_step(state: &RoadmapState) -> (r: ExecOutcome)
    ensures
        !state@.doc_ready ==> r.save is None && (r.output matches Some(o) && o@
            == "请先完成文档准备阶段"@),
        state@.doc_ready ==> match current_index(state@) {
            Some(i) => {
                &&& r.save matches Some(s) && s@ == dev_started(state@, state@.phrases[i].name)
                &&& r.output matches Some(o) && exists|file: String, name: String|
                    file@ == state@.phrases[i].file && name@ == state@.phrases[i].name && o@
                        == render_text(render_spec(EXEC_PROMPT@, #[trigger] exec_params(file, name)))
            },
            None => {
                &&& r.save is None
                &&& all_finished(state@.phrases) ==> (r.output matches Some(o) && o@
                    == ALL_DONE_MESSAGE@)
                &&& !all_finished(state@.phrases) ==> r.output is None
            },
        },
{
    if !state.doc_ready {
        return ExecOutcome { output: Some("请先完成文档准备阶段".to_owned()), save: None };
    }
    let mut probe = state.duplicate();
    let mut new_state = state.duplicate();
    match probe.fetch_current_phase() {
        Some(current) => {
            new_state.set_phase_dev(current.name.as_str());
            let file = current.file.clone();
            let name = current.name.clone();
            let params = PromptParams::new().with_file(file.clone()).with_name(name.clone());
            assert(params == exec_params(file, name));
            let text = match render(EXEC_PROMPT, &params) {
                Ok(t) => t,
                Err(e) => e,
            };
            ExecOutcome { output: Some(text), save: Some(new_state) }
        },
        None => {
            if state.is_all_phases_complete() {
                ExecOutcome { output: Some(ALL_DONE_MESSAGE.to_owned()), save: None }
            } else {
                ExecOutcome { output: None, save: None }
            }
        },
    }
}

/// The `exec` command.
pub struct ExecCommand;

impl DddCommand for ExecCommand {
    open spec fn spec_name(&self) -> Seq<char> {
        "exec"@
    }

    open spec fn spec_cli_visible(&self) -> bool {
        true
    }

    fn is_cli_visible(&self) -> (r: bool) {
        true
    }

    fn name(&self) -> (r: &'static str)
        ensures
            r@ == "exec"@,
    {
        "exec"
    }

    fn description(&self) -> (r: &'static str)
        ensures
            r@ == "Execute current phase"@,
    {
        "Execute current phase"
    }

    fn prompt_template(&self) -> (r: Option<&'static str>)
        ensures
            r == Some(EXEC_PROMPT),
    {
        Some(EXEC_PROMPT)
    }

    fn command_prompt(&self, _bin: &str, name: &str) -> (r: Option<String>)
        ensures
            r matches Some(p) && p@ == "加载 Skill ddd-"@ + name@ + ", 执行技能"@,
    {
        Some("加载 Skill ddd-".to_owned().concat(name).concat(", 执行技能"))
    }

    fn skill_prompt(&self, bin: &str, name: &str) -> (r: Option<String>)
        ensures
            r matches Some(p) && p@ == "---\nname: \"ddd-"@ + name@
                + "\"\ndescription: \"执行当前阶段的开发\"\n---\n调用 !`"@ + bin@ + " "@ + name@
                + " 2>&1` 获取当前阶段的开发指令\n按照返回的指令开始开发\n"@,
    {
        Some(
            "---\nname: \"ddd-".to_owned().concat(name).concat(
                "\"\ndescription: \"执行当前阶段的开发\"\n---\n调用 !`",
            ).concat(bin).concat(" ").concat(name).concat(" 2>&1` 获取当前阶段的开发指令\n按照返回的指令开始开发\n"),
        )
    }
}

} // verus!
