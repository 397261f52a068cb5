//! Verifying the current phase.
use vstd::prelude::*;
use crate::commands::trait_def::{CommandResult, DddCommand};
use crate::state::roadmap::{
    RoadmapState, first_named, status_changed, pointer_name, position_of, lemma_set_status_view,
    PHASE_VERIFYING,
};

verus! {

/// The verification prompt for one phase.
pub const VERIFY_PROMPT: &'static str = r#"根据本阶段开发计划文档, 并从开发计划中提取对应的规格文档作为资料,然后
1. 对当前阶段的成果代码进行代码审核.
2. 运行所有单元测试
3. 核对spec对代码进行深度事实审核
4. 保证所有功能均已经完整实现, 没有任何占位符实现, 桩实现, 禁止任何的mock
审核完成后输出审核结果. 如果有问题, 先生成修复计划, 并将修复任务按顺序委托给子代理串行执行.
修复完成后重新执行审核任务, 有问题计划并修复, 一直到完全没有问题产生.
也就是按照:
```
while:
  审核
  if 有问题
    修复
  else
    break
```
的逻辑执行"#;

/// Verifies the work of the current phase.
pub struct VerifyCommand;

impl DddCommand for VerifyCommand {
    open spec fn spec_name(&self) -> Seq<char> {
        "ddd-verify"@
    }

    open spec fn spec_cli_visible(&self) -> bool {
        true
    }

    fn is_cli_visible(&self) -> (r: bool) {
        true
    }

    fn name(&self) -> (r: &'static str)
        ensures
            r@ == "ddd-verify"@,
    {
        "ddd-verify"
    }

    fn description(&self) -> (r: &'static str)
        ensures
            r@ == "Verify phase成果"@,
    {
        "Verify phase成果"
    }

    fn prompt_template(&self) -> (r: Option<&'static str>)
        ensures
            r == Some(VERIFY_PROMPT),
    {
        Some(VERIFY_PROMPT)
    }

    fn command_prompt(&self, _bin: &str, name: &str) -> (r: Option<String>)
        ensures
            r matches Some(p) && p@ == "加载Skill "@ + name@ + ", 执行技能"@,
    {
        Some("加载Skill ".to_owned().concat(name).concat(", 执行技能"))
    }

    fn skill_prompt(&self, bin: &str, name: &str) -> (r: Option<String>)
        ensures
            r matches Some(p) && p@ == "---\nname: \""@ + name@
                + "\"\ndescription: \"验证当前阶段开发成果是否符合规格要求\"\n---\n调用 Base !`"@ + bin@
                + " "@ + name@ + " 2>&1` 从返回里获得当前阶段名称,\n如果返回的阶段名称:\n  根据:"@
                + VERIFY_PROMPT@
                + " 验证当前阶段代码质量和规格符合度\n  如果执行完毕通过审核, 就 加载 Skill ddd-confirm 并执行;\n如果返回\"请先完成开发阶段...\"就停止,等待用户介入,并提示: 请先完成开发阶段\"阶段名称\"\n"@,
    {
        Some(
            "---\nname: \"".to_owned().concat(name).concat(
                "\"\ndescription: \"验证当前阶段开发成果是否符合规格要求\"\n---\n调用 Base !`",
            ).concat(bin).concat(" ").concat(name).concat(
                " 2>&1` 从返回里获得当前阶段名称,\n如果返回的阶段名称:\n  根据:",
            ).concat(VERIFY_PROMPT).concat(
                " 验证当前阶段代码质量和规格符合度\n  如果执行完毕通过审核, 就 加载 Skill ddd-confirm 并执行;\n如果返回\"请先完成开发阶段...\"就停止,等待用户介入,并提示: 请先完成开发阶段\"阶段名称\"\n",
            ),
        )
    }
}

/// Puts the current phase under verification. The phase is the first one
/// named by the pointer (the empty name without a pointer); when there is
/// one, it becomes `verifying`, the roadmap is to be saved, and the result
/// carries the phase name; otherwise nothing changes and the result is a
/// failure naming the pointer.
pub fn verify_step(state: &mut RoadmapState) -> (r: (CommandResult, bool))
    ensures
        r.0.prompt is None,
        match first_named(old(state)@.phrases, pointer_name(old(state)@)) {
            Some(i) => {
                &&& final(state)@ == status_changed(old(state)@, i, "verifying"@)
                &&& r.1
                &&& r.0.success
                &&& r.0.message@ == pointer_name(old(state)@)
            },
            None => {
                &&& final(state)@ == old(state)@
                &&& !r.1
                &&& !r.0.success
                &&& r.0.message@ == "请先完成开发阶段: "@ + pointer_name(old(state)@)
                    + ", 停止执行等待用户介入"@
            },
        },
{
    let current_name = match &state.current_phase {
        Some(n) => n.clone(),
        None => String::new(),
    };
    match position_of(&state.phrases, current_name.as_str()) {
        Some(i) => {
            let ghost before = state.phrases@;
            state.phrases[i].status = PHASE_VERIFYING.to_owned();
            proof {
                lemma_set_status_view(before, state.phrases@, i as int, "verifying"@);
            }
            (CommandResult::ok(current_name.as_str()), true)
        },
        None => {
            let msg = "请先完成开发阶段: ".to_owned().concat(current_name.as_str()).concat(
                ", 停止执行等待用户介入",
            );
            (CommandResult::err(msg.as_str()), false)
        },
    }
}

} // verus!
