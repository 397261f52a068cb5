use ddd_tool::commands::cli::{dispatch_decision, route, step_of, Dispatch, Route, Step};
use ddd_tool::commands::internal::missing_plan;
use ddd_tool::commands::exec::{ExecCommand, EXEC_PROMPT};
use ddd_tool::commands::init::{InitCommand, INIT_PROMPT};
use ddd_tool::commands::prepare::{PrepareCommand, PREPARE_PROMPT};
use ddd_tool::commands::setup::command_file_name;
use ddd_tool::commands::sync::SyncCommand;
use ddd_tool::commands::{Cli, Command, CommandRegistry, DddCommand, VerifyCmd};

#[test]
fn every_subcommand_routes_to_a_registered_command() {
    let reg = CommandRegistry::new();
    match route(Cli { command: Some(Command::Verify(VerifyCmd)) }) {
        Route::Registered(n, _) => assert!(matches!(dispatch_decision(&reg, n), Dispatch::Run(_))),
        _ => panic!("wrong route"),
    }
    for n in ["init", "prepare", "exec", "sync", "audit", "confirm", "archive", "report", "final"] {
        assert!(matches!(dispatch_decision(&reg, n), Dispatch::Run(_)), "{}", n);
    }
    match dispatch_decision(&reg, "verify") {
        Dispatch::Unknown(m) => assert_eq!(m, "未知命令: verify"),
        _ => panic!("verify is registered as ddd-verify"),
    }
}

#[test]
fn setup_installs_each_command_once_under_its_slash_name() {
    let reg = CommandRegistry::new();
    let files: Vec<String> = reg.all().iter().map(|c| command_file_name(c.name())).collect();
    assert_eq!(
        files,
        vec![
            "ddd-init.md", "ddd-prepare.md", "ddd-exec.md", "ddd-verify.md", "ddd-audit.md",
            "ddd-final.md", "ddd-confirm.md", "ddd-archive.md", "ddd-report.md", "ddd-sync.md",
            "ddd-accept.md",
        ]
    );
}

#[test]
fn the_workflow_commands_carry_their_texts() {
    assert_eq!(InitCommand.name(), "init");
    assert_eq!(InitCommand.prompt_template(), Some(INIT_PROMPT));
    assert_eq!(PrepareCommand.prompt_template(), Some(PREPARE_PROMPT));
    assert_eq!(ExecCommand.prompt_template(), Some(EXEC_PROMPT));
    assert_eq!(SyncCommand.prompt_template(), None);
    assert_eq!(InitCommand.command_prompt("/b", "init"), Some("加载 Skill ddd-init, 执行技能".to_string()));
    assert_eq!(
        SyncCommand.skill_prompt("/b", "sync"),
        Some("---\nname: \"ddd-sync\"\ndescription: \"反向同步代码实现到规格文档\"\n---\n调用 !`/b sync 2>&1`\n直接提示返回内容\n".to_string())
    );
    assert!(InitCommand.skill_prompt("/b", "init").unwrap().contains("!`/b init $ARGUMENTS 2>&1`"));
    assert!(ExecCommand.is_cli_visible());
}

#[test]
fn each_registered_name_has_its_step() {
    assert!(matches!(step_of("init"), Some(Step::Init)));
    assert!(matches!(step_of("prepare"), Some(Step::Prepare)));
    assert!(matches!(step_of("exec"), Some(Step::Exec)));
    assert!(matches!(step_of("ddd-verify"), Some(Step::Verify)));
    assert!(matches!(step_of("audit"), Some(Step::Audit)));
    assert!(matches!(step_of("final"), Some(Step::Final)));
    assert!(matches!(step_of("confirm"), Some(Step::Confirm)));
    assert!(matches!(step_of("archive"), Some(Step::Archive)));
    assert!(matches!(step_of("report"), Some(Step::Report)));
    assert!(matches!(step_of("sync"), Some(Step::Sync)));
    assert!(matches!(step_of("ddd-accept"), Some(Step::Accept)));
    assert!(step_of("verify").is_none());
    let reg = CommandRegistry::new();
    assert!(matches!(dispatch_decision(&reg, "confirm"), Dispatch::Run(Step::Confirm)));
}

#[test]
fn an_empty_plan_is_stopped_before_acceptance() {
    assert_eq!(
        missing_plan(&Vec::new()),
        Some("显示:开发计划未生成, 请重新执行 /ddd-prepare, **important** 状态机由ddd-tool维护, 不允许修改 roadmap.json")
    );
    assert_eq!(missing_plan(&vec![("Phase1".to_string(), "f".to_string())]), None);
}
