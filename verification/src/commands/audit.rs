//! Auditing the specifications and plans against the code.
use vstd::prelude::*;
use crate::commands::trait_def::{CommandResult, DddCommand};

verus! {

/// The audit prompt.
pub const AUDIT_PROMPT: &'static str = r#"根据 @project_docs/specs/ 目录下的所有的规格文件, 和 @project_docs/phases/ 的开发计划作为资料,
结合当前实现的代码, 进行交叉事实审核, 高精度代码评审.
审核要点:
1. 规格文档与实际代码的一致性
2. 开发计划是否完整覆盖所有规格
3. 代码实现是否符合规格要求
4. 是否有遗漏的功能点
5. 是否有违反设计原则的实现
将评审的任务委托给子代理执行.
当评审完成后, 如果有问题, 就按照优先级,委托给子代理串行执行修复.
"#;

/// Audits the specifications and plans.
pub struct AuditCommand;

impl DddCommand for AuditCommand {
    open spec fn spec_name(&self) -> Seq<char> {
        "audit"@
    }

    open spec fn spec_cli_visible(&self) -> bool {
        true
    }

    fn is_cli_visible(&self) -> (r: bool) {
        true
    }

    fn name(&self) -> (r: &'static str)
        ensures
            r@ == "audit"@,
    {
        "audit"
    }

    fn description(&self) -> (r: &'static str)
        ensures
            r@ == "Audit specs and plans"@,
    {
        "Audit specs and plans"
    }

    fn prompt_template(&self) -> (r: Option<&'static str>)
        ensures
            r == Some(AUDIT_PROMPT),
    {
        Some(AUDIT_PROMPT)
    }

    fn command_prompt(&self, bin: &str, name: &str) -> (r: Option<String>)
        ensures
            r matches Some(p) && p@ == "加载 Skill ddd-"@ + name@
                + ", 执行技能开始评审, 执行完成后, 调用 Skill ddd-accept"@,
    {
        Some(
            "加载 Skill ddd-".to_owned().concat(name).concat(
                ", 执行技能开始评审, 执行完成后, 调用 Skill ddd-accept",
            ),
        )
    }

    fn skill_prompt(&self, bin: &str, name: &str) -> (r: Option<String>)
        ensures
            r matches Some(p) && p@ == "---\nname: \"ddd-"@ + name@
                + "\"\ndescription: \"审核规格文件的质量和一致性\"\n---\n"@ + AUDIT_PROMPT@ + "\n"@,
    {
        Some(
            "---\nname: \"ddd-".to_owned().concat(name).concat(
                "\"\ndescription: \"审核规格文件的质量和一致性\"\n---\n",
            ).concat(AUDIT_PROMPT).concat("\n"),
        )
    }
}

/// What the audit command reports: success, with an empty message.
pub fn audit_result() -> (r: CommandResult)
    ensures
        r.success,
        r.message@ == ""@,
        r.prompt is None,
{
    CommandResult::ok("")
}

} // verus!
