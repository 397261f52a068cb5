//! The project progress report.
use vstd::prelude::*;
use crate::clock::{local_now_formatted, time_stamp};
use crate::commands::trait_def::{CommandResult, DddCommand};
use crate::state::roadmap::{PhraseView, RoadmapState, RoadmapView};

verus! {

/// The table row of a phase: its name, status and file.
pub open spec fn table_row(p: PhraseView) -> Seq<char> {
    "| "@ + p.name + " | "@ + p.status + " | "@ + p.file + " |\n"@
}

/// One table row per phase: name, status and file.
pub open spec fn phase_rows(ps: Seq<PhraseView>) -> Seq<char>
    decreases ps.len(),
{
    if ps.len() == 0 {
        Seq::empty()
    } else {
        phase_rows(ps.drop_last()) + "| "@ + ps.last().name + " | "@ + ps.last().status + " | "@
            + ps.last().file + " |\n"@
    }
}

/// The report of a roadmap generated at the given time.
pub open spec fn report_text(s: RoadmapView, time: Seq<char>) -> Seq<char> {
    "# DocDriven 项目报告\n\n**生成时间**: "@ + time + "\n\n**工作流状态**: "@ + s.workflow
        + "\n\n## 阶段进度\n\n| 阶段 | 状态 | 文件 |\n|------|------|------|\n"@ + phase_rows(s.phrases)
        + "\n---\n\n*报告由 DocDriven CLI 自动生成*\n"@
}

/// The report of a roadmap, stamped with the given time.
pub fn report_with_time(state: &RoadmapState, time: &str) -> (r: String)
    ensures
        r@ == report_text(state@, time@),
        r@ == "# DocDriven 项目报告\n\n**生成时间**: "@ + time@ + "\n\n**工作流状态**: "@
            + state@.workflow
            + "\n\n## 阶段进度\n\n| 阶段 | 状态 | 文件 |\n|------|------|------|\n"@
            + state@.phrases.map_values(|p: PhraseView| table_row(p)).flatten()
            + "\n---\n\n*报告由 DocDriven CLI 自动生成*\n"@,
{
    proof {
        crate::commands::laws::law_report_has_a_row_per_phase(state@, time@);
    }
    let mut rows = String::new();
    let mut i: usize = 0;
    while i < state.phrases.len()
        invariant
            i <= state@.phrases.len(),
            rows@ == phase_rows(state@.phrases.take(i as int)),
        decreases state@.phrases.len() - i,
    {
        let p = &state.phrases[i];
        proof {
            let t = state@.phrases.take(i + 1);
            assert(t.drop_last() =~= state@.phrases.take(i as int));
            assert(t.last() == p@);
        }
        rows = rows.concat("| ").concat(p.name.as_str()).concat(" | ").concat(p.status.as_str()).concat(
            " | ",
        ).concat(p.file.as_str()).concat(" |\n");
        i = i + 1;
    }
    assert(state@.phrases.take(state@.phrases.len() as int) =~= state@.phrases);
    "# DocDriven 项目报告\n\n**生成时间**: ".to_owned().concat(time).concat("\n\n**工作流状态**: ").concat(
        state.workflow.as_str(),
    ).concat("\n\n## 阶段进度\n\n| 阶段 | 状态 | 文件 |\n|------|------|------|\n").concat(
        rows.as_str(),
    ).concat("\n---\n\n*报告由 DocDriven CLI 自动生成*\n")
}

/// The report of a roadmap, stamped with the current local time.
pub fn generate_report(state: &RoadmapState) -> (r: String)
    ensures
        exists|time: Seq<char>| time_stamp(time) && r@ == #[trigger] report_text(state@, time),
{
    let time = local_now_formatted("%Y-%m-%d %H:%M:%S");
    report_with_time(state, time.as_str())
}

/// What the report command gives: success, with the report as message.
pub fn report_result(state: &RoadmapState) -> (r: CommandResult)
    ensures
        r.success,
        r.prompt is None,
        exists|time: Seq<char>|
            time_stamp(time) && r.message@ == #[trigger] report_text(state@, time),
{
    let report = generate_report(state);
    CommandResult::ok(report.as_str())
}

/// Generates the project report.
pub struct ReportCommand;

impl DddCommand for ReportCommand {
    open spec fn spec_name(&self) -> Seq<char> {
        "report"@
    }

    open spec fn spec_cli_visible(&self) -> bool {
        true
    }

    fn is_cli_visible(&self) -> (r: bool) {
        true
    }

    fn name(&self) -> (r: &'static str)
        ensures
            r@ == "report"@,
    {
        "report"
    }

    fn description(&self) -> (r: &'static str)
        ensures
            r@ == "Generate project report"@,
    {
        "Generate project report"
    }

    fn prompt_template(&self) -> (r: Option<&'static str>)
        ensures
            r is None,
    {
        None
    }

    fn command_prompt(&self, _bin: &str, name: &str) -> (r: Option<String>)
        ensures
            r matches Some(p) && p@ == "加载 Skill ddd-"@ + name@ + ", 执行技能"@,
    {
        Some("加载 Skill ddd-".to_owned().concat(name).concat(", 执行技能"))
    }

    fn skill_prompt(&self, bin: &str, name: &str) -> (r: Option<String>)
        ensures
            r matches Some(p) && p@ == "---\nname: \"ddd-"@ + name@
                + "\"\ndescription: \"生成项目开发进度报告\"\n---\n调用 !`"@ + bin@ + " "@ + name@
                + " 2>&1` 获取返回报告内容\n直接提示报告内容\n"@,
    {
        Some(
            "---\nname: \"ddd-".to_owned().concat(name).concat(
                "\"\ndescription: \"生成项目开发进度报告\"\n---\n调用 !`",
            ).concat(bin).concat(" ").concat(name).concat(" 2>&1` 获取返回报告内容\n直接提示报告内容\n"),
        )
    }
}

} // verus!
