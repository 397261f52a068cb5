//! The result every command gives, and the interface every command offers.
use vstd::prelude::*;

verus! {

/// What a command reports: whether it succeeded, a message, and an optional
/// prompt for the assistant.
#[derive(Debug, Clone)]
pub struct CommandResult {
    pub success: bool,
    pub message: String,
    pub prompt: Option<String>,
}

impl CommandResult {
    /// A success with a message and no prompt.
    pub fn ok(message: &str) -> (r: Self)
        ensures
            r.success,
            r.message@ == message@,
            r.prompt is None,
    {
        CommandResult { success: true, message: message.to_owned(), prompt: None }
    }

    /// A success with a message and a prompt.
    pub fn ok_with_prompt(message: &str, prompt: &str) -> (r: Self)
        ensures
            r.success,
            r.message@ == message@,
            r.prompt matches Some(p) && p@ == prompt@,
    {
        CommandResult { success: true, message: message.to_owned(), prompt: Some(prompt.to_owned()) }
    }

    /// A failure with a message and no prompt.
    pub fn err(message: &str) -> (r: Self)
        ensures
            !r.success,
            r.message@ == message@,
            r.prompt is None,
    {
        CommandResult { success: false, message: message.to_owned(), prompt: None }
    }
}

/// The interface of a subcommand: its name and description, its prompt
/// template if it has one, and the texts it installs into an assistant's
/// command and skill directories.
pub trait DddCommand {
    /// The name the command reports.
    spec fn spec_name(&self) -> Seq<char>;

    /// Whether the command reports itself callable from the command line.
    spec fn spec_cli_visible(&self) -> bool;

    /// The name under which the command is registered.
    fn name(&self) -> (r: &'static str)
        ensures
            r@ == self.spec_name(),
    ;

    /// A short description for help text.
    fn description(&self) -> &'static str;

    /// The prompt template, for commands that generate one; by default
    /// none.
    fn prompt_template(&self) -> (r: Option<&'static str>)
        default_ensures
            r is None,
    {
        None
    }

    /// The command text installed for an assistant, given the tool's binary
    /// path and the command's name.
    fn command_prompt(&self, bin: &str, name: &str) -> Option<String>;

    /// The skill text installed for an assistant, given the tool's binary
    /// path and the command's name.
    fn skill_prompt(&self, bin: &str, name: &str) -> Option<String>;

    /// Whether the command may be called directly from the command line.
    fn is_cli_visible(&self) -> (r: bool)
        ensures
            r == self.spec_cli_visible(),
    ;
}

} // verus!
