//! Installing the commands into an assistant's project directories.
use vstd::prelude::*;
use crate::text::{decimal, starts_with_text, text_starts_with};
use crate::text::decimal_string;

verus! {

/// The guidelines that follow the title of a new assistant instructions file.
pub const INIT_FILE_BODY: &'static str = r#".md
## **important roles**
1. **important** never edit roadmap.json in @project_docs/roadmap.json

Behavioral guidelines to reduce common LLM coding mistakes. Merge with project-specific instructions as needed.

**Tradeoff:** These guidelines bias toward caution over speed. For trivial tasks, use judgment.

## 1. Think Before Coding

**Don't assume. Don't hide confusion. Surface tradeoffs.**

Before implementing:
- State your assumptions explicitly. If uncertain, ask.
- If multiple interpretations exist, present them - don't pick silently.
- If a simpler approach exists, say so. Push back when warranted.
- If something is unclear, stop. Name what's confusing. Ask.

## 2. Simplicity First

**Minimum code that solves the problem. Nothing speculative.**

- No features beyond what was asked.
- No abstractions for single-use code.
- No "flexibility" or "configurability" that wasn't requested.
- No error handling for impossible scenarios.
- If you write 200 lines and it could be 50, rewrite it.

Ask yourself: "Would a senior engineer say this is overcomplicated?" If yes, simplify.

## 3. Surgical Changes

**Touch only what you must. Clean up only your own mess.**

When editing existing code:
- Don't "improve" adjacent code, comments, or formatting.
- Don't refactor things that aren't broken.
- Match existing style, even if you'd do it differently.
- If you notice unrelated dead code, mention it - don't delete it.

When your changes create orphans:
- Remove imports/variables/functions that YOUR changes made unused.
- Don't remove pre-existing dead code unless asked.

The test: Every changed line should trace directly to the user's request.

## 4. Goal-Driven Execution

**Define success criteria. Loop until verified.**

Transform tasks into verifiable goals:
- "Add validation" → "Write tests for invalid inputs, then make them pass"
- "Fix the bug" → "Write a test that reproduces it, then make it pass"
- "Refactor X" → "Ensure tests pass before and after"

For multi-step tasks, state a brief plan:
```
1. [Step] → verify: [check]
2. [Step] → verify: [check]
3. [Step] → verify: [check]
```

Strong success criteria let you loop independently. Weak criteria ("make it work") require constant clarification.

---

**These guidelines are working if:** fewer unnecessary changes in diffs, fewer rewrites due to overcomplication, and clarifying questions come before implementation rather than after mistakes.

"#;

/// A command's name without the `ddd-` that the installed file name adds.
pub open spec fn command_stem(name: Seq<char>) -> Seq<char> {
    if starts_with_text(name, "ddd-"@) {
        name.skip(4)
    } else {
        name
    }
}

/// The file name under which a command is installed: `ddd-`, the name
/// without a `ddd-` of its own, and `.md`; so `ddd-verify` and `verify` both
/// install as `ddd-verify.md`.
pub fn command_file_name(name: &str) -> (r: String)
    ensures
        r@ == "ddd-"@ + command_stem(name@) + ".md"@,
{
    proof {
        reveal_strlit("ddd-");
    }
    let stem = if text_starts_with(name, "ddd-") {
        name.substring_char(4, name.unicode_len())
    } else {
        name
    };
    assert(stem@ == command_stem(name@));
    "ddd-".to_owned().concat(stem).concat(".md")
}

/// The command file installed for the OpenCode assistant: it runs the tool
/// with the command's name and the user's arguments.
pub fn opencode_command_text(description: &str, bin: &str, name: &str) -> (r: String)
    ensures
        r@ == "---\ndescription: "@ + description@ + "\nagent: Sisyphus\n---\n\n!`"@ + bin@ + " "@
            + name@ + " $ARGUMENTS 2>&1`\n"@,
{
    "---\ndescription: ".to_owned().concat(description).concat("\nagent: Sisyphus\n---\n\n!`").concat(
        bin,
    ).concat(" ").concat(name).concat(" $ARGUMENTS 2>&1`\n")
}

/// The name of the assistant instructions file with the given stem.
pub fn init_file_name(stem: &str) -> (r: String)
    ensures
        r@ == stem@ + ".md"@,
{
    stem.to_owned().concat(".md")
}

/// The content of a new assistant instructions file with the given stem: a
/// title naming the file, then the guidelines.
pub fn init_file_text(stem: &str) -> (r: String)
    ensures
        r@ == "# "@ + stem@ + INIT_FILE_BODY@,
{
    "# ".to_owned().concat(stem).concat(INIT_FILE_BODY)
}

/// What `setup` prints after installing `count` commands into the command
/// directory `commands_dir` of the assistant called `assistant`.
pub fn commands_summary(assistant: &str, commands_dir: &str, count: usize) -> (r: String)
    ensures
        r@ == assistant@ + " Code setup complete!\n  Commands: "@ + commands_dir@ + "/ddd-*.md ("@
            + decimal(count as nat) + " files)\nRestart "@ + assistant@
            + " Code to use /ddd-<command> syntax"@,
{
    assistant.to_owned().concat(" Code setup complete!\n  Commands: ").concat(commands_dir).concat(
        "/ddd-*.md (",
    ).concat(decimal_string(count as u64).as_str()).concat(" files)\nRestart ").concat(
        assistant,
    ).concat(" Code to use /ddd-<command> syntax")
}

/// What `setup` prints for OpenCode after installing `count` commands and
/// as many skills.
pub fn opencode_summary(count: usize) -> (r: String)
    ensures
        r@ == "OpenCode setup complete!\n  Commands: .opencode/commands/ddd-*.md ("@ + decimal(
            count as nat,
        ) + " files)\n  Skills: .opencode/skills/ddd-*.md ("@ + decimal(count as nat)
            + " files)\nRestart OpenCode to use /ddd-<command> syntax"@,
{
    let n = decimal_string(count as u64);
    "OpenCode setup complete!\n  Commands: .opencode/commands/ddd-*.md (".to_owned().concat(
        n.as_str(),
    ).concat(" files)\n  Skills: .opencode/skills/ddd-*.md (").concat(n.as_str()).concat(
        " files)\nRestart OpenCode to use /ddd-<command> syntax",
    )
}

} // verus!
