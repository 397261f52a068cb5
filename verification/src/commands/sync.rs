//! The code-to-documents synchronization log.
use vstd::prelude::*;
use crate::commands::trait_def::DddCommand;
use crate::clock::{local_now_formatted, time_stamp};
use crate::text::{starts_with_text, text_starts_with, same_text, views_of};

verus! {

/// One bullet line per item.
pub open spec fn bullets(items: Seq<Seq<char>>) -> Seq<char>
    decreases items.len(),
{
    if items.len() == 0 {
        Seq::empty()
    } else {
        bullets(items.drop_last()) + "- "@ + items.last() + "\n"@
    }
}

/// The synchronization log for the scanned code modules and specification
/// files, written at the given time.
pub open spec fn sync_log_text(modules: Seq<Seq<char>>, specs: Seq<Seq<char>>, time: Seq<char>) -> Seq<char> {
    "# 代码与文档同步日志\n\n**同步时间**: "@ + time + "\n\n## 代码模块\n\n"@ + bullets(modules)
        + "\n## Spec 文档\n\n"@ + bullets(specs)
        + "\n## 同步状态\n\n- [ ] 代码结构已扫描\n- [ ] Spec 文档已扫描\n- [ ] 差异对比待执行\n- [ ] 文档更新待执行\n"@
}

fn bullet_list(items: &Vec<String>) -> (r: String)
    ensures
        r@ == bullets(views_of(items@)),
{
    let ghost iv = items@.map_values(|s: String| s@);
    let mut out = String::new();
    let mut i: usize = 0;
    while i < items.len()
        invariant
            iv == items@.map_values(|s: String| s@),
            i <= items@.len(),
            out@ == bullets(iv.take(i as int)),
        decreases items@.len() - i,
    {
        proof {
            let t = iv.take(i + 1);
            assert(t.drop_last() =~= iv.take(i as int));
            assert(t.last() == items@[i as int]@);
        }
        out = out.concat("- ").concat(items[i].as_str()).concat("\n");
        i = i + 1;
    }
    assert(iv.take(items@.len() as int) =~= iv);
    out
}

/// The synchronization log, written at the given time.
pub fn sync_log_with_time(modules: &Vec<String>, specs: &Vec<String>, time: &str) -> (r: String)
    ensures
        r@ == sync_log_text(views_of(modules@), views_of(specs@), time@),
{
    "# 代码与文档同步日志\n\n**同步时间**: ".to_owned().concat(time).concat("\n\n## 代码模块\n\n").concat(
        bullet_list(modules).as_str(),
    ).concat("\n## Spec 文档\n\n").concat(bullet_list(specs).as_str()).concat(
        "\n## 同步状态\n\n- [ ] 代码结构已扫描\n- [ ] Spec 文档已扫描\n- [ ] 差异对比待执行\n- [ ] 文档更新待执行\n",
    )
}

/// The synchronization log, written at the current local time.
pub fn sync_log(modules: &Vec<String>, specs: &Vec<String>) -> (r: String)
    ensures
        exists|time: Seq<char>|
            time_stamp(time) && r@ == #[trigger] sync_log_text(
                views_of(modules@),
                views_of(specs@),
                time,
            ),
{
    let time = local_now_formatted("%Y-%m-%d %H:%M:%S");
    sync_log_with_time(modules, specs, time.as_str())
}

/// The entry of a scanned source directory in the module list.
pub fn module_dir_label(name: &str) -> (r: String)
    ensures
        r@ == name@ + "/ (模块)"@,
{
    name.to_owned().concat("/ (模块)")
}

/// Whether a source directory is scanned: neither `target` nor hidden.
pub fn is_scanned_dir(name: &str) -> (r: bool)
    ensures
        r == (name@ != "target"@ && !starts_with_text(name@, "."@)),
{
    !same_text(name, "target") && !text_starts_with(name, ".")
}

/// What `sync` prints once the log is written.
pub fn sync_done_message() -> (r: &'static str)
    ensures
        r@ == "📝 代码实现已反向同步至文档，文档驱动闭环已刷新\n同步日志: @project_docs/sync_log.md"@,
{
    "📝 代码实现已反向同步至文档，文档驱动闭环已刷新\n同步日志: @project_docs/sync_log.md"
}

/// The `sync` command.
pub struct SyncCommand;

impl DddCommand for SyncCommand {
    open spec fn spec_name(&self) -> Seq<char> {
        "sync"@
    }

    open spec fn spec_cli_visible(&self) -> bool {
        true
    }

    fn is_cli_visible(&self) -> (r: bool) {
        true
    }

    fn name(&self) -> (r: &'static str)
        ensures
            r@ == "sync"@,
    {
        "sync"
    }

    fn description(&self) -> (r: &'static str)
        ensures
            r@ == "Sync code back to documents"@,
    {
        "Sync code back to documents"
    }

    fn prompt_template(&self) -> (r: Option<&'static str>)
        ensures
            r is None,
    {
        None
    }

    fn command_prompt(&self, _bin: &str, name: &str) -> (r: Option<String>)
        ensures
            r matches Some(p) && p@ == "加载 Skill ddd-"@ + name@ + ", 执行技能"@,
    {
        Some("加载 Skill ddd-".to_owned().concat(name).concat(", 执行技能"))
    }

    fn skill_prompt(&self, bin: &str, name: &str) -> (r: Option<String>)
        ensures
            r matches Some(p) && p@ == "---\nname: \"ddd-"@ + name@
                + "\"\ndescription: \"反向同步代码实现到规格文档\"\n---\n调用 !`"@ + bin@ + " "@ + name@
                + " 2>&1`\n直接提示返回内容\n"@,
    {
        Some(
            "---\nname: \"ddd-".to_owned().concat(name).concat(
                "\"\ndescription: \"反向同步代码实现到规格文档\"\n---\n调用 !`",
            ).concat(bin).concat(" ").concat(name).concat(" 2>&1`\n直接提示返回内容\n"),
        )
    }
}

} // verus!
