use ddd_tool::commands::archive::{
    archive_done_message, archive_file_name, archive_label_for, unfinished_report, ArchiveCommand,
};
use ddd_tool::commands::audit::{audit_result, AuditCommand, AUDIT_PROMPT};
use ddd_tool::commands::cli::{
    failure_message, hidden_command_message, result_output, route, unknown_command_message,
    usage_hint, Route,
};
use ddd_tool::commands::confirm_phase::{confirm_step, ALL_DONE_MESSAGE, DOCS_NOT_READY_MESSAGE};
use ddd_tool::commands::exec::exec_step;
use ddd_tool::commands::final_verify::final_verify_result;
use ddd_tool::commands::fix_exec::fix_exec_step;
use ddd_tool::commands::fix_plan::fix_plan_step;
use ddd_tool::commands::init::{context_value, init_step};
use ddd_tool::commands::internal::{
    accept_files, accept_plan, accepted_cli_message, extract_sort_key, name_le_exec,
    sort_phase_docs, AcceptCommand,
};
use ddd_tool::commands::prepare::{prepare_step, PREPARE_PROMPT};
use ddd_tool::commands::report::{report_result, report_with_time};
use ddd_tool::commands::resume::resume_report;
use ddd_tool::commands::setup::{
    command_file_name, commands_summary, init_file_name, init_file_text, opencode_command_text,
    opencode_summary,
};
use ddd_tool::commands::sync::{is_scanned_dir, module_dir_label, sync_log_with_time};
use ddd_tool::commands::verify::verify_step;
use ddd_tool::commands::{
    Cli, Command, CommandResult, DddCommand, DddContext, InitCmd, SetupCmd, Tool, VerifyCmd,
};
use ddd_tool::state::{Fix, Phrase, RoadmapState, RoadmapStore};

fn strings(v: &[&str]) -> Vec<String> {
    v.iter().map(|s| s.to_string()).collect()
}

fn phrase(name: &str, status: &str, file: &str, fixes: Vec<Fix>) -> Phrase {
    Phrase { name: name.to_string(), status: status.to_string(), file: file.to_string(), fixes }
}

fn fix(id: u32, status: &str, plan: &str) -> Fix {
    Fix { id, status: status.to_string(), plan_file: plan.to_string() }
}

fn planned_state(names: &[&str]) -> RoadmapState {
    let mut state = RoadmapState::new();
    state.init_phrases_from_files(
        names.iter().map(|n| (n.to_string(), format!("@project_docs/phases/{}.md", n))).collect(),
    );
    state
}

#[test]
fn sort_key_reads_the_first_run_of_digits() {
    assert_eq!(extract_sort_key("P10-file-upload.md"), (Some(10), "P10-file-upload.md".to_string()));
    assert_eq!(extract_sort_key("a1b22.md"), (Some(1), "a1b22.md".to_string()));
    assert_eq!(extract_sort_key("readme.md"), (None, "readme.md".to_string()));
    assert_eq!(extract_sort_key("007_x.md").0, Some(7));
    assert_eq!(extract_sort_key("4294967295.md").0, Some(4294967295));
    assert_eq!(extract_sort_key("4294967296.md").0, None);
    assert_eq!(extract_sort_key("").0, None);
}

#[test]
fn natural_order_puts_numbers_before_later_numbers() {
    assert!(name_le_exec("P2-elder.md", "P10-file-upload.md"));
    assert!(!name_le_exec("P10-file-upload.md", "P2-elder.md"));
    assert!(name_le_exec("notes.md", "P0.md"));
    assert!(name_le_exec("1_a.md", "1_b.md"));
    assert!(name_le_exec("x.md", "x.md"));
}

#[test]
fn phase_documents_sort_naturally_and_skip_others() {
    let names = strings(&[
        "P10-file-upload.md",
        "index.md",
        "P2-elder.md",
        "P11-admin.md",
        "P0-scaffold.md",
        "notes.txt",
        "P1-auth-user.md",
        "index-extra.md",
    ]);
    assert_eq!(
        sort_phase_docs(&names),
        strings(&["P0-scaffold.md", "P1-auth-user.md", "P2-elder.md", "P10-file-upload.md", "P11-admin.md"])
    );
}

#[test]
fn accepted_files_are_named_in_order() {
    let files = accept_files(&strings(&["2_b.md", "1_a.md", "index.md", "10_c.md"]));
    assert_eq!(
        files,
        vec![
            ("Phase1".to_string(), "@project_docs/phases/1_a.md".to_string()),
            ("Phase2".to_string(), "@project_docs/phases/2_b.md".to_string()),
            ("Phase3".to_string(), "@project_docs/phases/10_c.md".to_string()),
        ]
    );
    assert!(accept_files(&strings(&["index.md", "a.txt"])).is_empty());
}

#[test]
fn accept_plan_initializes_or_reports_missing_plan() {
    let mut state = RoadmapState::new();
    let r = accept_plan(&mut state, vec![]);
    assert!(r.success);
    assert!(r.message.starts_with("显示:开发计划未生成"));
    assert!(!state.doc_ready);
    let files = accept_files(&strings(&["1_a.md", "2_b.md"]));
    let r = accept_plan(&mut state, files);
    assert_eq!(r.message, "状态机已生成，共 2 个阶段");
    assert!(state.doc_ready);
    assert_eq!(state.workflow, "ready");
    assert_eq!(state.current_phase, Some("Phase1".to_string()));
    assert_eq!(accepted_cli_message(12), "状态机已生成，共 12 个阶段, 提示: 请执行 /ddd-exec 开始启动实际开发, 然后停止!");
}

#[test]
fn confirm_is_gated_then_advances_to_the_end() {
    let mut state = RoadmapState::new();
    let (r, save) = confirm_step(&mut state).unwrap();
    assert_eq!(r.message, DOCS_NOT_READY_MESSAGE);
    assert!(!save);

    let mut state = planned_state(&["Phase1", "Phase2"]);
    let (r, save) = confirm_step(&mut state).unwrap();
    assert_eq!(r.message, "等待用户输入");
    assert!(!save);

    state.phrases[0].status = "dev".to_string();
    let (r, save) = confirm_step(&mut state).unwrap();
    assert!(save);
    assert_eq!(r.message, "开始实现 Phase2, 立即调用 `ddd-tool exec`");
    assert_eq!(state.phrases[0].status, "finished");
    assert_eq!(state.current_phase, Some("Phase2".to_string()));

    state.phrases[1].status = "dev".to_string();
    let (r, save) = confirm_step(&mut state).unwrap();
    assert!(save);
    assert_eq!(r.message, ALL_DONE_MESSAGE);
    assert_eq!(state.current_phase, None);

    let (r, save) = confirm_step(&mut state).unwrap();
    assert_eq!(r.message, "尚未启动开发");
    assert!(!save);
}

#[test]
fn confirm_reports_the_phase_when_others_remain_unfinished() {
    let mut state = planned_state(&["A", "B"]);
    state.current_phase = Some("B".to_string());
    state.phrases[1].status = "dev".to_string();
    let (r, _) = confirm_step(&mut state).unwrap();
    assert_eq!(r.message, "阶段 B 已完成");
    state.current_phase = Some("Z".to_string());
    assert!(confirm_step(&mut state).is_err());
}

#[test]
fn exec_starts_the_current_phase() {
    let mut state = RoadmapState::new();
    let out = exec_step(&state);
    assert_eq!(out.output, Some("请先完成文档准备阶段".to_string()));
    assert!(out.save.is_none());

    state = planned_state(&["Phase1", "Phase2"]);
    let out = exec_step(&state);
    let saved = out.save.unwrap();
    assert_eq!(saved.workflow, "dev");
    assert_eq!(saved.phrases[0].status, "dev");
    assert_eq!(saved.current_phase, Some("Phase1".to_string()));
    let text = out.output.unwrap();
    assert!(text.starts_with("根据开发计划文档 @@project_docs/phases/Phase1.md 开始Phase1的开发"));
    assert!(!text.contains("{file}"));
}

#[test]
fn exec_after_the_last_phase_reports_completion_and_reopens_nothing() {
    let mut state = planned_state(&["P0", "P1"]);
    state.advance_phase().unwrap();
    state.advance_phase().unwrap();
    assert_eq!(state.current_phase, None);
    let out = exec_step(&state);
    assert_eq!(out.output, Some(ALL_DONE_MESSAGE.to_string()));
    assert!(out.save.is_none());
}

#[test]
fn exec_with_no_phase_reports_completion() {
    let mut state = RoadmapState::new();
    state.doc_ready = true;
    let out = exec_step(&state);
    assert_eq!(out.output, Some(ALL_DONE_MESSAGE.to_string()));
    assert!(out.save.is_none());
}

#[test]
fn verify_marks_the_current_phase() {
    let mut state = planned_state(&["Phase1"]);
    let (r, save) = verify_step(&mut state);
    assert!(r.success && save);
    assert_eq!(r.message, "Phase1");
    assert_eq!(state.phrases[0].status, "verifying");
    assert!(state.validate().is_ok());

    let mut none = RoadmapState::new();
    let (r, save) = verify_step(&mut none);
    assert!(!r.success && !save);
    assert_eq!(r.message, "请先完成开发阶段: , 停止执行等待用户介入");
}

#[test]
fn final_verify_needs_every_phase_finished() {
    let mut state = planned_state(&["A"]);
    let r = final_verify_result(&state);
    assert!(!r.success);
    assert_eq!(r.message, "请先完成所有开发阶段, 停止执行!");
    state.phrases[0].status = "finished".to_string();
    let r = final_verify_result(&state);
    assert!(r.success);
    assert_eq!(r.prompt.as_deref(), Some(r.message.as_str()));
    assert!(r.message.starts_with("根据全部开发计划"));
}

#[test]
fn init_and_prepare_are_refused_after_init() {
    let mut state = RoadmapState::new();
    let (text, save) = init_step(&state, "需求".to_string());
    assert!(save);
    assert!(text.starts_with("分析需求:需求, 按照规格设计原则"));
    let (text, save) = prepare_step(&state);
    assert!(save);
    assert_eq!(text, PREPARE_PROMPT);
    assert!(text.contains("{idx}_{name}.md"));
    state.workflow = "dev".to_string();
    assert_eq!(init_step(&state, String::new()), ("当前已进入开发阶段, 请先完成当前开发任务".to_string(), false));
    assert_eq!(prepare_step(&state), ("当前已进入开发阶段, 请先完成当前开发任务".to_string(), false));
    assert_eq!(context_value(None, None), "未提供需求文档");
    assert_eq!(context_value(Some("p.md".to_string()), None), "p.md");
    assert_eq!(context_value(Some("p.md".to_string()), Some("text".to_string())), "text");
}

#[test]
fn fix_plan_reuses_an_open_fix_or_names_a_new_one() {
    let mut state = planned_state(&["Phrase0"]);
    assert_eq!(fix_plan_step(&state), "请先完成开发阶段");
    state.phrases[0].status = "issue_found".to_string();
    let out = fix_plan_step(&state);
    assert!(out.ends_with("\n\n修复计划文件: @project_docs/fixes/phrase0_fix0.md"));
    assert!(out.contains("存到 @@project_docs/fixes/phrase0_fix0.md."));
    state.phrases[0].fixes.push(fix(0, "done", "a.md"));
    state.phrases[0].fixes.push(fix(1, "failed", "b.md"));
    assert!(fix_plan_step(&state).ends_with("修复计划文件: b.md"));
    state.phrases[0].fixes[1].status = "done".to_string();
    assert!(fix_plan_step(&state).ends_with("修复计划文件: @project_docs/fixes/phrase0_fix2.md"));
}

#[test]
fn fix_exec_needs_a_planned_fix() {
    let mut state = planned_state(&["P"]);
    state.phrases[0].status = "issue_found".to_string();
    assert_eq!(fix_exec_step(&state), "请先完成修复计划阶段");
    state.phrases[0].fixes.push(fix(0, "planned", "plan.md"));
    let out = fix_exec_step(&state);
    assert!(out.starts_with("根据fix计划  @plan.md 再根据 相关开发计划 @@project_docs/phases/P.md,"));
    state.current_phase = None;
    assert_eq!(fix_exec_step(&state), "请先完成开发阶段");
}

#[test]
fn resume_reports_the_breakpoint() {
    let mut state = RoadmapState::new();
    state.phrases.push(phrase("A", "finished", "a.md", vec![fix(0, "executing", "fa.md")]));
    state.phrases.push(phrase("B", "fixing", "b.md", vec![]));
    assert_eq!(
        resume_report(&state),
        "📍 发现断点:\n  当前阶段: B\n  阶段状态: fixing\n  文件: b.md\n  修复任务: fa.md (executing)\n\n请选择下一步操作:\n  /ddd-exec - 继续当前阶段开发\n  /ddd-verify - 审核当前阶段成果\n"
    );
    state.phrases[1].status = "finished".to_string();
    assert_eq!(resume_report(&state), "没有发现断点，所有阶段已完成。\n当前工作流状态: init\n");
}

#[test]
fn report_lists_every_phase() {
    let state = planned_state(&["A", "B"]);
    let r = report_with_time(&state, "2024-01-01 00:00:00");
    assert_eq!(
        r,
        "# DocDriven 项目报告\n\n**生成时间**: 2024-01-01 00:00:00\n\n**工作流状态**: ready\n\n## 阶段进度\n\n| 阶段 | 状态 | 文件 |\n|------|------|------|\n| A | init | @project_docs/phases/A.md |\n| B | init | @project_docs/phases/B.md |\n\n---\n\n*报告由 DocDriven CLI 自动生成*\n"
    );
    let r = report_result(&state);
    assert!(r.success);
    assert!(r.message.contains("| B | init |"));
}

#[test]
fn sync_log_lists_modules_and_specs() {
    let log = sync_log_with_time(&strings(&["main.rs", "cmd/ (模块)"]), &strings(&["a.md"]), "T");
    assert_eq!(
        log,
        "# 代码与文档同步日志\n\n**同步时间**: T\n\n## 代码模块\n\n- main.rs\n- cmd/ (模块)\n\n## Spec 文档\n\n- a.md\n\n## 同步状态\n\n- [ ] 代码结构已扫描\n- [ ] Spec 文档已扫描\n- [ ] 差异对比待执行\n- [ ] 文档更新待执行\n"
    );
    assert_eq!(module_dir_label("cmd"), "cmd/ (模块)");
    assert!(is_scanned_dir("src"));
    assert!(!is_scanned_dir("target"));
    assert!(!is_scanned_dir(".git"));
}

#[test]
fn archive_lists_unfinished_phases_and_names_archives() {
    let mut state = planned_state(&["A", "B"]);
    state.phrases[0].status = "finished".to_string();
    assert_eq!(unfinished_report(&state), Some("请先完成所有开发阶段:\n  - B (状态: init)\n".to_string()));
    state.phrases[1].status = "finished".to_string();
    assert_eq!(unfinished_report(&state), None);
    let dirs = strings(&["20240101-0", "20240101-1", "20231231-0"]);
    assert_eq!(archive_label_for(&dirs, "20240101"), "20240101-3");
    assert_eq!(archive_label_for(&dirs, "20240102"), "20240102-3");
    assert_eq!(archive_label_for(&Vec::new(), "20240102"), "20240102-0");
    assert_eq!(archive_file_name("20240101-2"), "archive-20240101-2.tar.gz");
    assert_eq!(
        archive_done_message("L", "F"),
        "✅ 项目已归档到: @project_docs/archives/L/\n  - F\nroadmap.json 已重置为初始状态。"
    );
}

#[test]
fn command_texts_name_the_command() {
    assert_eq!(ArchiveCommand.name(), "archive");
    assert_eq!(AuditCommand.prompt_template(), Some(AUDIT_PROMPT));
    assert_eq!(
        AcceptCommand.command_prompt("bin", "ddd-accept"),
        Some("加载Skill ddd-accept, 执行技能生成开发任务批次, 完成后提示用户可以执行 /ddd-exec 开始进行开发".to_string())
    );
    assert!(AcceptCommand.skill_prompt("/usr/bin/ddd", "ddd-accept").unwrap().contains("!`/usr/bin/ddd accept 2>&1`"));
    assert_eq!(audit_result().message, "");
}

#[test]
fn setup_texts() {
    assert_eq!(command_file_name("report"), "ddd-report.md");
    assert_eq!(command_file_name("ddd-verify"), "ddd-verify.md");
    assert_eq!(command_file_name("ddd-accept"), "ddd-accept.md");
    assert_eq!(command_file_name("ddd"), "ddd-ddd.md");
    assert_eq!(
        opencode_command_text("Generate project report", "/b", "report"),
        "---\ndescription: Generate project report\nagent: Sisyphus\n---\n\n!`/b report $ARGUMENTS 2>&1`\n"
    );
    assert_eq!(init_file_name("AGENTS"), "AGENTS.md");
    assert!(init_file_text("AGENTS").starts_with("# AGENTS.md\n## **important roles**"));
    assert_eq!(
        opencode_summary(3),
        "OpenCode setup complete!\n  Commands: .opencode/commands/ddd-*.md (3 files)\n  Skills: .opencode/skills/ddd-*.md (3 files)\nRestart OpenCode to use /ddd-<command> syntax"
    );
    assert_eq!(commands_summary("Tool", ".tool/commands", 1), "Tool Code setup complete!\n  Commands: .tool/commands/ddd-*.md (1 files)\nRestart Tool Code to use /ddd-<command> syntax");
}

#[test]
fn command_line_routes() {
    assert!(matches!(route(Cli { command: None }), Route::Usage));
    match route(Cli { command: Some(Command::Init(InitCmd { context: Some("doc.md".to_string()) })) }) {
        Route::Registered(n, a) => {
            assert_eq!(n, "init");
            assert_eq!(a, "doc.md");
        }
        _ => panic!("wrong route"),
    }
    match route(Cli { command: Some(Command::Verify(VerifyCmd)) }) {
        Route::Registered(n, a) => {
            assert_eq!(n, "ddd-verify");
            assert_eq!(a, "");
        }
        _ => panic!("wrong route"),
    }
    assert!(matches!(route(Cli { command: Some(Command::Accept) }), Route::Accept));
    assert!(matches!(
        route(Cli { command: Some(Command::Setup(SetupCmd { tool: Tool::Opencode })) }),
        Route::Setup(Tool::Opencode)
    ));
    assert_eq!(usage_hint(), "请使用 --help 查看可用命令");
}

#[test]
fn results_are_shown_by_kind() {
    let o = result_output(&CommandResult::ok_with_prompt("m", "p"));
    assert_eq!((o.stdout, o.stderr), (Some("p".to_string()), None));
    let o = result_output(&CommandResult::ok("m"));
    assert_eq!((o.stdout, o.stderr), (Some("m".to_string()), None));
    let o = result_output(&CommandResult::ok(""));
    assert_eq!((o.stdout, o.stderr), (None, None));
    let o = result_output(&CommandResult::err("bad"));
    assert_eq!((o.stdout, o.stderr), (None, Some("错误: bad".to_string())));
    assert_eq!(unknown_command_message("x"), "未知命令: x");
    assert_eq!(hidden_command_message("x"), "错误: 命令 'x' 不可直接调用");
    assert_eq!(failure_message("e"), "错误: e");
}

#[test]
fn context_resolves_document_paths() {
    let ctx = DddContext::for_root("/proj".to_string());
    assert_eq!(ctx.store.path(), "/proj/project_docs/roadmap.json");
    assert_eq!(ctx.resolve_path("@project_docs/specs/a.md"), "/proj/project_docs/specs/a.md");
    assert_eq!(ctx.resolve_path("@project_docs/@project_docs/x"), "/proj/project_docs/x");
    assert_eq!(ctx.resolve_path("plain.md"), "/proj/project_docs/plain.md");
    assert_eq!(ctx.docs_dir(), "/proj/project_docs");
    assert_eq!(ctx.docs_entry("phases"), "/proj/project_docs/phases");
    assert_eq!(ctx.root_entry("src"), "/proj/src");
}

#[test]
fn store_checks_what_it_loads_and_saves() {
    let store = RoadmapStore::new("r.json");
    assert_eq!(store.path(), "r.json");
    let fresh = store.accept_loaded(None).unwrap();
    assert_eq!(fresh.workflow, "init");
    let mut state = planned_state(&["A"]);
    state.updated_at = "old".to_string();
    let saved = store.prepare_save(&state).unwrap();
    assert_ne!(saved.updated_at, "old");
    assert_eq!(saved.phrases[0].name, "A");
    assert_eq!(saved.workflow, "ready");
    let loaded = store.accept_loaded(Some(saved)).unwrap();
    assert_eq!(loaded.current_phase, Some("A".to_string()));
    state.workflow = "nope".to_string();
    assert!(store.prepare_save(&state).is_err());
    assert!(store.accept_loaded(Some(state)).is_err());
}
