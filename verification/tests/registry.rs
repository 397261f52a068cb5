use ddd_tool::commands::{CommandRegistry, DddCommand};

struct MockCommand {
    cmd_name: &'static str,
    cmd_desc: &'static str,
}

impl DddCommand for MockCommand {
    fn spec_name(&self) -> vstd::seq::Seq<char> {
        panic!("spec_name is a specification function and is never called")
    }
    fn spec_cli_visible(&self) -> bool {
        panic!("spec_cli_visible is a specification function and is never called")
    }
    fn name(&self) -> &'static str {
        self.cmd_name
    }
    fn description(&self) -> &'static str {
        self.cmd_desc
    }
    fn command_prompt(&self, _bin: &str, _name: &str) -> Option<String> {
        Some("mock command".to_string())
    }
    fn skill_prompt(&self, _bin: &str, _name: &str) -> Option<String> {
        Some("mock skill".to_string())
    }
    fn is_cli_visible(&self) -> bool {
        true
    }
}

#[test]
fn new_registry_is_empty() {
    let reg: CommandRegistry = CommandRegistry::empty();
    assert!(reg.all().is_empty());
    assert!(reg.names().is_empty());
    assert!(reg.get("anything").is_none());
}

#[test]
fn register_and_get_command() {
    let mut reg: CommandRegistry = CommandRegistry::empty();
    reg.register(Box::new(MockCommand {
        cmd_name: "test-cmd",
        cmd_desc: "A test command",
    }));

    let cmd = reg.get("test-cmd").expect("command should exist");
    assert_eq!(cmd.name(), "test-cmd");
    assert_eq!(cmd.description(), "A test command");
}

#[test]
fn all_returns_all_registered() {
    let mut reg: CommandRegistry = CommandRegistry::empty();
    reg.register(Box::new(MockCommand {
        cmd_name: "cmd-a",
        cmd_desc: "Command A",
    }));
    reg.register(Box::new(MockCommand {
        cmd_name: "cmd-b",
        cmd_desc: "Command B",
    }));

    let all = reg.all();
    assert_eq!(all.len(), 2);
    let names: Vec<&str> = all.iter().map(|c| c.name()).collect();
    assert!(names.contains(&"cmd-a"));
    assert!(names.contains(&"cmd-b"));
}

#[test]
fn names_returns_all_keys() {
    let mut reg: CommandRegistry = CommandRegistry::empty();
    reg.register(Box::new(MockCommand {
        cmd_name: "alpha",
        cmd_desc: "Alpha",
    }));
    reg.register(Box::new(MockCommand {
        cmd_name: "beta",
        cmd_desc: "Beta",
    }));

    let mut names = reg.names();
    names.sort();
    assert_eq!(names, vec!["alpha", "beta"]);
}

#[test]
fn get_unknown_returns_none() {
    let mut reg: CommandRegistry = CommandRegistry::empty();
    reg.register(Box::new(MockCommand {
        cmd_name: "known",
        cmd_desc: "Known",
    }));

    assert!(reg.get("unknown").is_none());
}

#[test]
fn registering_a_name_again_replaces_its_command() {
    let mut reg: CommandRegistry = CommandRegistry::empty();
    reg.register(Box::new(MockCommand { cmd_name: "x", cmd_desc: "first" }));
    reg.register(Box::new(MockCommand { cmd_name: "x", cmd_desc: "second" }));
    assert_eq!(reg.names(), vec!["x"]);
    assert_eq!(reg.get("x").unwrap().description(), "second");
}

#[test]
fn built_in_registry_holds_the_commands_in_order() {
    let reg = CommandRegistry::new();
    let names = vec![
        "init", "prepare", "exec", "ddd-verify", "audit", "final", "confirm", "archive", "report",
        "sync", "ddd-accept",
    ];
    assert_eq!(reg.names(), names);
    assert_eq!(reg.all().len(), 11);
    assert_eq!(reg.cli_visible_commands().len(), 11);
    for n in &names {
        assert_eq!(reg.get(n).unwrap().name(), *n);
    }
    assert_eq!(reg.get("report").unwrap().description(), "Generate project report");
    assert!(reg.get("verify").is_none());
}

#[test]
fn cli_visible_commands_leave_out_hidden_ones() {
    struct Hidden;
    impl DddCommand for Hidden {
        fn spec_name(&self) -> vstd::seq::Seq<char> {
            panic!("spec_name is a specification function and is never called")
        }
        fn spec_cli_visible(&self) -> bool {
            panic!("spec_cli_visible is a specification function and is never called")
        }
        fn name(&self) -> &'static str {
            "hidden"
        }
        fn description(&self) -> &'static str {
            "Hidden"
        }
        fn command_prompt(&self, _bin: &str, _name: &str) -> Option<String> {
            None
        }
        fn skill_prompt(&self, _bin: &str, _name: &str) -> Option<String> {
            None
        }
        fn is_cli_visible(&self) -> bool {
            false
        }
    }
    let mut reg: CommandRegistry = CommandRegistry::empty();
    reg.register(Box::new(Hidden));
    reg.register(Box::new(MockCommand { cmd_name: "shown", cmd_desc: "Shown" }));
    let visible = reg.cli_visible_commands();
    assert_eq!(visible.len(), 1);
    assert_eq!(visible[0].name(), "shown");
    assert_eq!(reg.all().len(), 2);
}

#[test]
fn registering_in_turn_keeps_the_last_command_of_each_name() {
    let mut reg: CommandRegistry = CommandRegistry::empty();
    reg.register(Box::new(MockCommand { cmd_name: "alpha", cmd_desc: "first alpha" }));
    reg.register(Box::new(MockCommand { cmd_name: "beta", cmd_desc: "beta" }));
    reg.register(Box::new(MockCommand { cmd_name: "alpha", cmd_desc: "second alpha" }));
    assert_eq!(reg.names(), vec!["alpha", "beta"]);
    assert_eq!(reg.names().len(), reg.all().len());
    assert_eq!(reg.get("alpha").unwrap().description(), "second alpha");
    assert_eq!(reg.get("beta").unwrap().description(), "beta");
    assert!(reg.get("gamma").is_none());
}
