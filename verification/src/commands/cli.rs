//! The command line: its subcommands, where each is sent, and how a command's
//! result is shown.
use vstd::prelude::*;
use crate::commands::trait_def::{CommandResult, DddCommand};
use crate::commands::registry::{CommandRegistry, index_of_name};
use crate::text::same_text;

verus! {

/// The parsed command line.
pub struct Cli {
    pub command: Option<Command>,
}

/// The subcommands.
pub enum Command {
    Init(InitCmd),
    Prepare(PrepareCmd),
    Exec(ExecCmd),
    Verify(VerifyCmd),
    Audit(AuditCmd),
    Confirm(ConfirmCmd),
    Archive(ArchiveCmd),
    Report(ReportCmd),
    Final(FinalCmd),
    Sync(SyncCmd),
    /// Scans the phases directory and builds the phases.
    Accept,
    /// Installs the commands and skills for an assistant.
    Setup(SetupCmd),
}

/// `init`: the requirements document, if given.
pub struct InitCmd {
    pub context: Option<String>,
}

pub struct PrepareCmd;

pub struct ExecCmd;

pub struct VerifyCmd;

pub struct AuditCmd;

pub struct ConfirmCmd;

pub struct ArchiveCmd;

pub struct ReportCmd;

pub struct SyncCmd;

pub struct FinalCmd;

/// `setup`: the assistant to install for.
pub struct SetupCmd {
    pub tool: Tool,
}

/// The assistants that `setup` knows.
#[derive(Debug, Clone, Copy, PartialEq, Eq, Structural)]
pub enum Tool {
    Claude,
    Opencode,
}

/// Where a command line goes: to the usage hint, to a registered command by
/// name with its argument text, to plan acceptance, or to setup.
pub enum Route {
    Usage,
    Registered(&'static str, String),
    Accept,
    Setup(Tool),
}

/// Sends a command line to where it is handled. Without a subcommand, to the
/// usage hint; each other subcommand but `accept` and `setup` to the
/// registered command of its name (`verify` to `ddd-verify`, the name the
/// verify command registers under); `init` passes its document argument, or
/// the empty text; the other registered commands pass the empty text.
pub fn route(cli: Cli) -> (r: Route)
    ensures
        cli.command is None ==> r is Usage,
        cli.command matches Some(Command::Init(c)) ==> (r matches Route::Registered(n, a) && n@
            == "init"@ && a@ == (match c.context {
            Some(x) => x@,
            None => Seq::empty(),
        })),
        cli.command matches Some(Command::Prepare(_)) ==> registered_plain(r, "prepare"@),
        cli.command matches Some(Command::Exec(_)) ==> registered_plain(r, "exec"@),
        cli.command matches Some(Command::Verify(_)) ==> registered_plain(r, "ddd-verify"@),
        cli.command matches Some(Command::Audit(_)) ==> registered_plain(r, "audit"@),
        cli.command matches Some(Command::Confirm(_)) ==> registered_plain(r, "confirm"@),
        cli.command matches Some(Command::Archive(_)) ==> registered_plain(r, "archive"@),
        cli.command matches Some(Command::Report(_)) ==> registered_plain(r, "report"@),
        cli.command matches Some(Command::Final(_)) ==> registered_plain(r, "final"@),
        cli.command matches Some(Command::Sync(_)) ==> registered_plain(r, "sync"@),
        cli.command matches Some(Command::Accept) ==> r is Accept,
        cli.command matches Some(Command::Setup(c)) ==> r == Route::Setup(c.tool),
{
    match cli.command {
        None => Route::Usage,
        Some(Command::Init(c)) => {
            let args = match c.context {
                Some(x) => x,
                None => String::new(),
            };
            Route::Registered("init", args)
        },
        Some(Command::Prepare(_)) => Route::Registered("prepare", String::new()),
        Some(Command::Exec(_)) => Route::Registered("exec", String::new()),
        Some(Command::Verify(_)) => Route::Registered("ddd-verify", String::new()),
        Some(Command::Audit(_)) => Route::Registered("audit", String::new()),
        Some(Command::Confirm(_)) => Route::Registered("confirm", String::new()),
        Some(Command::Archive(_)) => Route::Registered("archive", String::new()),
        Some(Command::Report(_)) => Route::Registered("report", String::new()),
        Some(Command::Final(_)) => Route::Registered("final", String::new()),
        Some(Command::Sync(_)) => Route::Registered("sync", String::new()),
        Some(Command::Accept) => Route::Accept,
        Some(Command::Setup(c)) => Route::Setup(c.tool),
    }
}

/// The route is to the named registered command with the empty argument text.
pub open spec fn registered_plain(r: Route, name: Seq<char>) -> bool {
    r matches Route::Registered(n, a) && n@ == name && a@ == Seq::<char>::empty()
}

/// What to print: a line for standard output and a line for standard error,
/// each if any.
pub struct Output {
    pub stdout: Option<String>,
    pub stderr: Option<String>,
}

/// How a command's result is shown: on success its prompt if it has one,
/// else its message unless empty; on failure the message behind an error
/// prefix, on standard error.
pub fn result_output(r: &CommandResult) -> (o: Output)
    ensures
        r.success && r.prompt is Some ==> o.stdout == r.prompt && o.stderr is None,
        r.success && r.prompt is None && r.message@.len() > 0 ==> o.stdout == Some(r.message)
            && o.stderr is None,
        r.success && r.prompt is None && r.message@.len() == 0 ==> o.stdout is None
            && o.stderr is None,
        !r.success ==> o.stdout is None && (o.stderr matches Some(e) && e@ == "错误: "@
            + r.message@),
{
    if r.success {
        match &r.prompt {
            Some(p) => Output { stdout: Some(p.clone()), stderr: None },
            None => if r.message.as_str().is_empty() {
                Output { stdout: None, stderr: None }
            } else {
                Output { stdout: Some(r.message.clone()), stderr: None }
            },
        }
    } else {
        Output { stdout: None, stderr: Some("错误: ".to_owned().concat(r.message.as_str())) }
    }
}

/// The work of a built-in command, one step per registered name.
pub enum Step {
    Init,
    Prepare,
    Exec,
    Verify,
    Audit,
    Final,
    Confirm,
    Archive,
    Report,
    Sync,
    Accept,
}

/// The step of the built-in command registered under `name`, if any.
pub open spec fn step_named(name: Seq<char>) -> Option<Step> {
    if name == "init"@ {
        Some(Step::Init)
    } else if name == "prepare"@ {
        Some(Step::Prepare)
    } else if name == "exec"@ {
        Some(Step::Exec)
    } else if name == "ddd-verify"@ {
        Some(Step::Verify)
    } else if name == "audit"@ {
        Some(Step::Audit)
    } else if name == "final"@ {
        Some(Step::Final)
    } else if name == "confirm"@ {
        Some(Step::Confirm)
    } else if name == "archive"@ {
        Some(Step::Archive)
    } else if name == "report"@ {
        Some(Step::Report)
    } else if name == "sync"@ {
        Some(Step::Sync)
    } else if name == "ddd-accept"@ {
        Some(Step::Accept)
    } else {
        None
    }
}

/// The step of the built-in command registered under `name`, if any.
pub fn step_of(name: &str) -> (r: Option<Step>)
    ensures
        r == step_named(name@),
{
    proof {
        reveal_strlit("init");
        reveal_strlit("prepare");
        reveal_strlit("exec");
        reveal_strlit("ddd-verify");
        reveal_strlit("audit");
        reveal_strlit("final");
        reveal_strlit("confirm");
        reveal_strlit("archive");
        reveal_strlit("report");
        reveal_strlit("sync");
        reveal_strlit("ddd-accept");
    }
    if same_text(name, "init") {
        Some(Step::Init)
    } else if same_text(name, "prepare") {
        Some(Step::Prepare)
    } else if same_text(name, "exec") {
        Some(Step::Exec)
    } else if same_text(name, "ddd-verify") {
        Some(Step::Verify)
    } else if same_text(name, "audit") {
        Some(Step::Audit)
    } else if same_text(name, "final") {
        Some(Step::Final)
    } else if same_text(name, "confirm") {
        Some(Step::Confirm)
    } else if same_text(name, "archive") {
        Some(Step::Archive)
    } else if same_text(name, "report") {
        Some(Step::Report)
    } else if same_text(name, "sync") {
        Some(Step::Sync)
    } else if same_text(name, "ddd-accept") {
        Some(Step::Accept)
    } else {
        None
    }
}

/// What becomes of a command name: its step is run, or it is refused as not
/// callable from the command line, or refused as unknown; a refusal carries
/// its error line.
pub enum Dispatch {
    Run(Step),
    Hidden(String),
    Unknown(String),
}

/// Decides what becomes of a command name: the registered command of that
/// name is run, by its step, when it reports itself callable from the
/// command line, and refused otherwise; a name with no command, or with no
/// step of a built-in command, is unknown.
pub fn dispatch_decision(reg: &CommandRegistry, name: &str) -> (r: Dispatch)
    ensures
        match index_of_name(reg.names_view(), name@) {
            Some(i) => if !reg.commands_view()[i].spec_cli_visible() {
                r matches Dispatch::Hidden(m) && m@ == "错误: 命令 '"@ + name@ + "' 不可直接调用"@
            } else {
                match step_named(name@) {
                    Some(st) => r == Dispatch::Run(st),
                    None => r matches Dispatch::Unknown(m) && m@ == "未知命令: "@ + name@,
                }
            },
            None => r matches Dispatch::Unknown(m) && m@ == "未知命令: "@ + name@,
        },
{
    match reg.get(name) {
        Some(cmd) => if cmd.is_cli_visible() {
            match step_of(name) {
                Some(st) => Dispatch::Run(st),
                None => Dispatch::Unknown(unknown_command_message(name)),
            }
        } else {
            Dispatch::Hidden(hidden_command_message(name))
        },
        None => Dispatch::Unknown(unknown_command_message(name)),
    }
}

/// The error line for a name that no command is registered under.
pub fn unknown_command_message(name: &str) -> (r: String)
    ensures
        r@ == "未知命令: "@ + name@,
{
    "未知命令: ".to_owned().concat(name)
}

/// The error line for a command that cannot be called directly.
pub fn hidden_command_message(name: &str) -> (r: String)
    ensures
        r@ == "错误: 命令 '"@ + name@ + "' 不可直接调用"@,
{
    "错误: 命令 '".to_owned().concat(name).concat("' 不可直接调用")
}

/// The error line for a command that failed.
pub fn failure_message(error: &str) -> (r: String)
    ensures
        r@ == "错误: "@ + error@,
{
    "错误: ".to_owned().concat(error)
}

/// The hint printed without a subcommand.
pub fn usage_hint() -> (r: &'static str)
    ensures
        r@ == "请使用 --help 查看可用命令"@,
{
    "请使用 --help 查看可用命令"
}

} // verus!
