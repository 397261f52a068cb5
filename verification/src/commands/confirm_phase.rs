//! Confirming that the current phase is done and moving to the next.
use vstd::prelude::*;
use crate::commands::trait_def::{CommandResult, DddCommand};
use crate::state::roadmap::{
    RoadmapState, RoadmapView, RoadmapError, first_named, advanced, all_finished, current_is_init,
    marked_finished, with_status, lemma_first_named_is,
};

verus! {

/// Confirms the completion of the current phase.
pub struct ConfirmCommand;

impl DddCommand for ConfirmCommand {
    open spec fn spec_name(&self) -> Seq<char> {
        "confirm"@
    }

    open spec fn spec_cli_visible(&self) -> bool {
        true
    }

    fn is_cli_visible(&self) -> (r: bool) {
        true
    }

    fn name(&self) -> (r: &'static str)
        ensures
            r@ == "confirm"@,
    {
        "confirm"
    }

    fn description(&self) -> (r: &'static str)
        ensures
            r@ == "Confirm phase completion, advance to next"@,
    {
        "Confirm phase completion, advance to next"
    }

    fn prompt_template(&self) -> (r: Option<&'static str>)
        ensures
            r is None,
    {
        None
    }

    fn command_prompt(&self, _bin: &str, _name: &str) -> (r: Option<String>)
        ensures
            r is None,
    {
        None
    }

    fn skill_prompt(&self, _bin: &str, _name: &str) -> (r: Option<String>)
        ensures
            r is None,
    {
        None
    }
}

/// The message once every phase is complete.
pub const ALL_DONE_MESSAGE: &'static str = "全部阶段已经开发完成, 根据 @project_docs/specs/ 目录下的所有的规格文件 和 @project_docs/phases/ 的开发计划作为资料,结合当前实现的代码,进行交叉事实审核,高精度代码评审. 结束后询问是否执行 /ddd-achive 归档此轮开发";

/// The message when the documents are not ready.
pub const DOCS_NOT_READY_MESSAGE: &'static str = "ECHO:请先完成文档准备阶段: 调用 /ddd-accept` 批准开发计划. 停止执行, 等待用户确认!";

/// Why confirmation does not go ahead, if it does not: the documents are not
/// ready, no phase is under way, or the current phase has not started.
pub open spec fn confirm_gate(s: RoadmapView) -> Option<Seq<char>> {
    if !s.doc_ready {
        Some(DOCS_NOT_READY_MESSAGE@)
    } else if s.current_phase is None {
        Some("尚未启动开发"@)
    } else if current_is_init(s) {
        Some("等待用户输入"@)
    } else {
        None
    }
}

/// The message after confirming phase `i` of `s`.
pub open spec fn confirm_message(s: RoadmapView, i: int) -> Seq<char> {
    if i + 1 < s.phrases.len() {
        "开始实现 "@ + s.phrases[i + 1].name + ", 立即调用 `ddd-tool exec`"@
    } else if all_finished(advanced(s, i).phrases) {
        ALL_DONE_MESSAGE@
    } else {
        "阶段 "@ + s.phrases[i].name + " 已完成"@
    }
}

/// Confirms the current phase. When a gate stops it, nothing changes and the
/// result says why. Otherwise the current phase is finished and the pointer
/// moves on, the roadmap is to be saved, and the result names the next phase
/// or reports the end; a pointer that names no phase is an error.
pub fn confirm_step(state: &mut RoadmapState) -> (r: Result<(CommandResult, bool), RoadmapError>)
    ensures
        match confirm_gate(old(state)@) {
            Some(m) => {
                &&& final(state)@ == old(state)@
                &&& r matches Ok((c, save)) && !save && c.success && c.message@ == m
                    && c.prompt is None
            },
            None => match first_named(old(state)@.phrases, old(state)@.current_phase->0) {
                None => {
                    &&& final(state)@ == old(state)@
                    &&& r matches Err(RoadmapError::MissingCurrentPhrase)
                },
                Some(i) => {
                    &&& final(state)@ == advanced(old(state)@, i)
                    &&& r matches Ok((c, save)) && save && c.success && c.message@
                        == confirm_message(old(state)@, i) && c.prompt is None
                },
            },
        },
{
    if !state.doc_ready {
        return Ok((CommandResult::ok(DOCS_NOT_READY_MESSAGE), false));
    }
    if state.current_phase.is_none() {
        return Ok((CommandResult::ok("尚未启动开发"), false));
    }
    if state.is_current_init() {
        return Ok((CommandResult::ok("等待用户输入"), false));
    }
    let this_name = match &state.current_phase {
        Some(n) => n.clone(),
        None => String::new(),
    };
    let ghost old_v = state@;
    let next_name = match state.advance_phase() {
        Ok(Some(next)) => Some(next.name.clone()),
        Ok(None) => None,
        Err(e) => {
            return Err(e);
        },
    };
    let ghost i = first_named(old_v.phrases, this_name@)->0;
    match next_name {
        Some(n) => {
            let msg = "开始实现 ".to_owned().concat(n.as_str()).concat(", 立即调用 `ddd-tool exec`");
            Ok((CommandResult::ok(msg.as_str()), true))
        },
        None => {
            state.set_phase_finished(this_name.as_str());
            proof {
                let mid = advanced(old_v, i);
                lemma_first_named_is(mid.phrases, this_name@, i);
                assert(with_status(mid.phrases, i, "finished"@) =~= mid.phrases);
                assert(marked_finished(mid, this_name@) == mid);
            }
            if state.is_all_phases_complete() {
                Ok((CommandResult::ok(ALL_DONE_MESSAGE), true))
            } else {
                let msg = "阶段 ".to_owned().concat(this_name.as_str()).concat(" 已完成");
                Ok((CommandResult::ok(msg.as_str()), true))
            }
        },
    }
}

} // verus!
