//! The subcommands, their registry, and the decisions each one makes.
pub mod trait_def;
pub mod registry;
pub mod context;
pub mod cli;
pub mod init;
pub mod prepare;
pub mod exec;
pub mod verify;
pub mod audit;
pub mod confirm_phase;
pub mod archive;
pub mod report;
pub mod sync;
pub mod internal;
pub mod setup;
pub mod final_verify;
pub mod fix_plan;
pub mod fix_exec;
pub mod resume;

pub use trait_def::{CommandResult, DddCommand};
pub use registry::CommandRegistry;
pub use context::DddContext;
pub use cli::{
    Cli, Command, InitCmd, PrepareCmd, ExecCmd, VerifyCmd, AuditCmd, ConfirmCmd, ArchiveCmd,
    ReportCmd, SyncCmd, FinalCmd, SetupCmd, Tool,
};
pub mod laws;
