//! Archiving a completed project.
use vstd::prelude::*;
use crate::clock::{date_stamp, local_now_formatted};
use crate::commands::trait_def::DddCommand;
use crate::state::roadmap::{PhraseView, RoadmapState, PHASE_FINISHED, all_finished};
use crate::text::{decimal, decimal_string, same_text, views_of};

verus! {

/// The line that names an unfinished phase, with its status.
pub open spec fn unfinished_line(p: PhraseView) -> Seq<char> {
    "  - "@ + p.name + " (状态: "@ + p.status + ")\n"@
}

/// One line per unfinished phase, with its status.
pub open spec fn unfinished_lines(ps: Seq<PhraseView>) -> Seq<char>
    decreases ps.len(),
{
    if ps.len() == 0 {
        Seq::empty()
    } else if ps.last().status != "finished"@ {
        unfinished_lines(ps.drop_last()) + "  - "@ + ps.last().name + " (状态: "@ + ps.last().status
            + ")\n"@
    } else {
        unfinished_lines(ps.drop_last())
    }
}

/// Some phase has not finished.
pub open spec fn has_unfinished(ps: Seq<PhraseView>) -> bool {
    exists|i: int| 0 <= i < ps.len() && #[trigger] ps[i].status != "finished"@
}

/// Why the project cannot be archived yet: the list of unfinished phases;
/// `None` when every phase has finished.
pub fn unfinished_report(state: &RoadmapState) -> (r: Option<String>)
    ensures
        has_unfinished(state@.phrases) ==> (r matches Some(m) && m@ == "请先完成所有开发阶段:\n"@
            + unfinished_lines(state@.phrases)),
        !has_unfinished(state@.phrases) ==> r is None,
        r is None <==> all_finished(state@.phrases),
        r matches Some(m) ==> m@ == "请先完成所有开发阶段:\n"@ + state@.phrases.filter(
            |p: PhraseView| p.status != "finished"@,
        ).map_values(|p: PhraseView| unfinished_line(p)).flatten(),
{
    proof {
        crate::commands::laws::law_archive_refused_unless_all_finished(state@.phrases);
    }
    let ghost ps = state@.phrases;
    let mut lines = String::new();
    let mut any = false;
    let mut i: usize = 0;
    while i < state.phrases.len()
        invariant
            ps == state@.phrases,
            i <= ps.len(),
            lines@ == unfinished_lines(ps.take(i as int)),
            any == exists|j: int| 0 <= j < i && #[trigger] ps[j].status != "finished"@,
        decreases ps.len() - i,
    {
        let p = &state.phrases[i];
        proof {
            let t = ps.take(i + 1);
            assert(t.drop_last() =~= ps.take(i as int));
            assert(t.last() == p@);
        }
        if !same_text(p.status.as_str(), PHASE_FINISHED) {
            lines = lines.concat("  - ").concat(p.name.as_str()).concat(" (状态: ").concat(
                p.status.as_str(),
            ).concat(")\n");
            any = true;
        }
        proof {
            assert(ps[i as int] == p@);
            if ps[i as int].status != "finished"@ {
                assert(exists|j: int| 0 <= j < i + 1 && #[trigger] ps[j].status != "finished"@);
            } else {
                assert((exists|j: int| 0 <= j < i + 1 && #[trigger] ps[j].status != "finished"@)
                    ==> (exists|j: int| 0 <= j < i && #[trigger] ps[j].status != "finished"@));
            }
        }
        i = i + 1;
    }
    assert(ps.take(ps.len() as int) =~= ps);
    if any {
        Some("请先完成所有开发阶段:\n".to_owned().concat(lines.as_str()))
    } else {
        None
    }
}

/// The name of the next archive made on the given day: the day, a dash, and
/// how many archive directories there already are.
pub open spec fn archive_label_text(names: Seq<Seq<char>>, today: Seq<char>) -> Seq<char> {
    today + "-"@ + decimal(names.len())
}

/// The name of the next archive made on the given day, given the names of
/// the existing archive directories.
pub fn archive_label_for(dirs: &Vec<String>, today: &str) -> (r: String)
    ensures
        r@ == archive_label_text(views_of(dirs@), today@),
{
    assert(views_of(dirs@).len() == dirs@.len());
    today.to_owned().concat("-").concat(decimal_string(dirs.len() as u64).as_str())
}

/// The name of the next archive made today: today's local date as
/// `YYYYMMDD`, a dash, and how many archive directories there already are.
pub fn archive_label(dirs: &Vec<String>) -> (r: String)
    ensures
        exists|today: Seq<char>|
            date_stamp(today) && r@ == #[trigger] archive_label_text(views_of(dirs@), today),
{
    let today = local_now_formatted("%Y%m%d");
    archive_label_for(dirs, today.as_str())
}

/// The file name of the archive of the given name.
pub fn archive_file_name(label: &str) -> (r: String)
    ensures
        r@ == "archive-"@ + label@ + ".tar.gz"@,
{
    "archive-".to_owned().concat(label).concat(".tar.gz")
}

/// The report once the project is archived.
pub fn archive_done_message(label: &str, file_name: &str) -> (r: String)
    ensures
        r@ == "✅ 项目已归档到: @project_docs/archives/"@ + label@ + "/\n  - "@ + file_name@
            + "\nroadmap.json 已重置为初始状态。"@,
{
    "✅ 项目已归档到: @project_docs/archives/".to_owned().concat(label).concat("/\n  - ").concat(
        file_name,
    ).concat("\nroadmap.json 已重置为初始状态。")
}

/// Archives the completed project.
pub struct ArchiveCommand;

impl DddCommand for ArchiveCommand {
    open spec fn spec_name(&self) -> Seq<char> {
        "archive"@
    }

    open spec fn spec_cli_visible(&self) -> bool {
        true
    }

    fn is_cli_visible(&self) -> (r: bool) {
        true
    }

    fn name(&self) -> (r: &'static str)
        ensures
            r@ == "archive"@,
    {
        "archive"
    }

    fn description(&self) -> (r: &'static str)
        ensures
            r@ == "Archive completed project"@,
    {
        "Archive completed project"
    }

    fn prompt_template(&self) -> (r: Option<&'static str>)
        ensures
            r is None,
    {
        None
    }

    fn command_prompt(&self, bin: &str, _name: &str) -> (r: Option<String>)
        ensures
            r matches Some(p) && p@ == "使用 Bash工具 执行: "@ + bin@
                + " archive。归档已完成的项目。将规格文档和阶段计划打包为 tar.gz 存档到 @project_docs/archives/ 目录。归档后项目状态重置, 可开始新项目。"@,
    {
        Some(
            "使用 Bash工具 执行: ".to_owned().concat(bin).concat(
                " archive。归档已完成的项目。将规格文档和阶段计划打包为 tar.gz 存档到 @project_docs/archives/ 目录。归档后项目状态重置, 可开始新项目。",
            ),
        )
    }

    fn skill_prompt(&self, bin: &str, _name: &str) -> (r: Option<String>)
        ensures
            r matches Some(p) && p@
                == "---\nname: \"archive\"\ndescription: \"归档已完成项目, 打包规格和阶段文档\"\n---\n调用 !`"@
                + bin@ + " archive 2>&1`\n打包归档项目文档到 archives/ 目录\n"@,
    {
        Some(
            "---\nname: \"archive\"\ndescription: \"归档已完成项目, 打包规格和阶段文档\"\n---\n调用 !`".to_owned().concat(
                bin,
            ).concat(" archive 2>&1`\n打包归档项目文档到 archives/ 目录\n"),
        )
    }
}

} // verus!
