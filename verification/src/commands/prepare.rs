//! Planning the development phases from the specifications.
use vstd::prelude::*;
use crate::commands::trait_def::DddCommand;
use crate::state::roadmap::{RoadmapState, WORKFLOW_INIT};
use crate::text::same_text;

verus! {

/// The planning prompt.
pub const PREPARE_PROMPT: &'static str = r#"根据 @project_docs/specs/ 下的spec, 按照开发计划的需求:
### 必须
1. **ID全链路绑定**：需求(REQ)、任务(TASK)、验收(AC)必须使用唯一标识贯穿，严禁脱离追溯。
2. **结构化拆解**：WBS（任务分解）必须使用列表或表格，每个任务节点必须指向具体的实施动作。
3. **显式划界**：必须明确当前计划的 In-Scope、Out-of-Scope 及前置假设条件。
4. **闭环验证**：每个任务/模块必须附带具体的验证步骤与可直接勾选的验收清单。
5. **高内聚低耦合**: 模块设计必须满足高内聚低耦合的原则

### 建议
1. **元数据前置**：在计划顶部集中声明阶段目标、架构约束及技术栈选型。
2. **机读化表达**：配置、依赖、接口等结构化数据，优先使用 YAML/JSON 代码块或 Markdown 表格呈现。
3. **指令数据隔离**：若用于喂给AI，必须将“生成规则（Prompt）”与“业务输入数据”物理分区块存放。

### 禁止
1. **禁止模糊动词**：任务描述中不允许出现“优化”“完善”“处理”等无法直接判定完成状态的词汇。
2. **禁止上下文缺失**：不允许在未声明架构与技术栈的情况下，直接输出孤立的任务列表。

委托任务到子代理, 规划开发阶段, 串行按照顺序生成每个阶段的开发计划文件, 其中必须包含
1  任务清单(包含详细的执行步骤)以及要在头部列表引用的规格文件(index是一定每一个都要引用的).
2. 该阶段结束需要验证的验证清单,
将开发计划按照 {idx}_{name}.md 的命名规则, 存到 @project_docs/phases/ 下.
**important** idx 从1开始.
完成后提示调用 /ddd-accept 生成状态机."#;

/// What `prepare` decides: outside the `init` workflow it refuses, with a
/// message, and neither clears the phases nor saves; otherwise the phases
/// directory is to be cleared, the planning prompt is printed as it stands
/// (its `{idx}_{name}.md` naming rule is text for the assistant, not a
/// placeholder), and the roadmap is saved unchanged.
pub fn prepare_step(state: &RoadmapState) -> (r: (String, bool))
    ensures
        state@.workflow != "init"@ ==> r.0@ == "当前已进入开发阶段, 请先完成当前开发任务"@ && !r.1,
        state@.workflow == "init"@ ==> r.1 && r.0@ == PREPARE_PROMPT@,
{
    if !same_text(state.workflow.as_str(), WORKFLOW_INIT) {
        return ("当前已进入开发阶段, 请先完成当前开发任务".to_owned(), false);
    }
    (PREPARE_PROMPT.to_owned(), true)
}

/// The `prepare` command.
pub struct PrepareCommand;

impl DddCommand for PrepareCommand {
    open spec fn spec_name(&self) -> Seq<char> {
        "prepare"@
    }

    open spec fn spec_cli_visible(&self) -> bool {
        true
    }

    fn is_cli_visible(&self) -> (r: bool) {
        true
    }

    fn name(&self) -> (r: &'static str)
        ensures
            r@ == "prepare"@,
    {
        "prepare"
    }

    fn description(&self) -> (r: &'static str)
        ensures
            r@ == "Generate phased development plan"@,
    {
        "Generate phased development plan"
    }

    fn prompt_template(&self) -> (r: Option<&'static str>)
        ensures
            r == Some(PREPARE_PROMPT),
    {
        Some(PREPARE_PROMPT)
    }

    fn command_prompt(&self, _bin: &str, name: &str) -> (r: Option<String>)
        ensures
            r matches Some(p) && p@ == "加载 Skill ddd-"@ + name@ + ", 执行技能"@,
    {
        Some("加载 Skill ddd-".to_owned().concat(name).concat(", 执行技能"))
    }

    fn skill_prompt(&self, bin: &str, name: &str) -> (r: Option<String>)
        ensures
            r matches Some(p) && p@ == "---\nname: \"ddd-"@ + name@
                + "\"\ndescription: \"根据规格文档生成分阶段开发计划\"\n---\n调用 !`"@ + bin@ + " "@ + name@
                + " 2>&1` 获取开发计划指令\n按照返回的指令生成开发计划\n"@,
    {
        Some(
            "---\nname: \"ddd-".to_owned().concat(name).concat(
                "\"\ndescription: \"根据规格文档生成分阶段开发计划\"\n---\n调用 !`",
            ).concat(bin).concat(" ").concat(name).concat(" 2>&1` 获取开发计划指令\n按照返回的指令生成开发计划\n"),
        )
    }
}

} // verus!
