//! The final cross-verification of all phases.
use vstd::prelude::*;
use crate::commands::trait_def::{CommandResult, DddCommand};
use crate::prompts::{PromptParams, render, render_spec};
use crate::state::roadmap::{RoadmapState, all_finished};

verus! {

/// The final verification prompt.
pub const VERIFY_PROMPT: &'static str = r#"根据全部开发计划: @project_docs/phases/ 以及全部开发规格 @project_docs/specs/ 对当前已经实现的代码进行
1. 进行代码审核.
2. 运行所有单元测试
3. 核对开发规格对代码进行深度事实审核
4. 保证所有功能均已经完整实现, 没有任何占位符实现, 桩实现, 禁止任何的mock
5. 冷启动冒烟测试
6. 针对启动入口的初始化顺序显式审核
审核完成后输出审核结果. 如果有问题, 先生成修复计划, 并将修复任务按顺序委托给子代理串行执行.
修复完成后重新执行审核任务, 有问题计划并修复, 一直到完全没有问题产生.
也就是按照:
```
while:
  审核
  if 有问题
    修复
  else
    break
```
的逻辑执行, 对所有已完成阶段进行最终交叉验证。检查各阶段之间的集成一致性、整体规格覆盖率。完成后输出最终验证报告。
"#;

/// Verifies all phases together once they have finished.
pub struct FinalVerifyCommand;

impl DddCommand for FinalVerifyCommand {
    open spec fn spec_name(&self) -> Seq<char> {
        "final"@
    }

    open spec fn spec_cli_visible(&self) -> bool {
        true
    }

    fn is_cli_visible(&self) -> (r: bool) {
        true
    }

    fn name(&self) -> (r: &'static str)
        ensures
            r@ == "final"@,
    {
        "final"
    }

    fn description(&self) -> (r: &'static str)
        ensures
            r@ == "Finalize verify for all phases"@,
    {
        "Finalize verify for all phases"
    }

    fn prompt_template(&self) -> (r: Option<&'static str>)
        ensures
            r == Some(VERIFY_PROMPT),
    {
        Some(VERIFY_PROMPT)
    }

    fn command_prompt(&self, _bin: &str, name: &str) -> (r: Option<String>)
        ensures
            r matches Some(p) && p@ == "加载 Skill ddd-"@ + name@ + ", 执行技能"@,
    {
        Some("加载 Skill ddd-".to_owned().concat(name).concat(", 执行技能"))
    }

    fn skill_prompt(&self, _bin: &str, name: &str) -> (r: Option<String>)
        ensures
            r matches Some(p) && p@ == "---\nname: \"ddd-"@ + name@
                + "\"\ndescription: \"对所有阶段进行最终交叉验证\"\n---\n"@ + VERIFY_PROMPT@
                + ",\n完成后询问是否要执行 /ddd-archive 归档本次开发任务\n"@,
    {
        Some(
            "---\nname: \"ddd-".to_owned().concat(name).concat(
                "\"\ndescription: \"对所有阶段进行最终交叉验证\"\n---\n",
            ).concat(VERIFY_PROMPT).concat(",\n完成后询问是否要执行 /ddd-archive 归档本次开发任务\n"),
        )
    }
}

/// The parameters of the final verification prompt: the name `all`.
pub open spec fn final_params(all: String) -> PromptParams {
    PromptParams { context: None, file: None, phase_name: None, plan_file: None, name: Some(all) }
}

/// The rendered text, or the rendering error behind a prefix.
pub open spec fn rendered_or_error(res: Result<Seq<char>, Seq<char>>) -> Seq<char> {
    match res {
        Ok(s) => s,
        Err(e) => "渲染错误: "@ + e,
    }
}

/// What the final verification reports: a failure until every phase has
/// finished; then the rendered prompt, as message and as prompt.
pub fn final_verify_result(state: &RoadmapState) -> (r: CommandResult)
    ensures
        !all_finished(state@.phrases) ==> !r.success && r.message@
            == "请先完成所有开发阶段, 停止执行!"@ && r.prompt is None,
        all_finished(state@.phrases) ==> r.success && (r.prompt matches Some(p) && p@
            == r.message@) && exists|all: String|
            all@ == "all"@ && r.message@ == rendered_or_error(
                #[trigger] render_spec(VERIFY_PROMPT@, final_params(all)),
            ),
{
    if !state.is_all_phases_complete() {
        return CommandResult::err("请先完成所有开发阶段, 停止执行!");
    }
    let all = "all".to_owned();
    let params = PromptParams::new().with_name(all.clone());
    assert(params == final_params(all));
    let rendered = match render(VERIFY_PROMPT, &params) {
        Ok(s) => s,
        Err(e) => "渲染错误: ".to_owned().concat(e.as_str()),
    };
    CommandResult::ok_with_prompt(rendered.as_str(), rendered.as_str())
}

} // verus!
