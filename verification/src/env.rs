//! Environment of the agent and the system prompt built from it.
use vstd::prelude::*;
use crate::memory::{memory_type_name, MemoryEntry, MemoryStore};
use crate::mode::{description, ModeState};
use crate::skill::{skill_line, Skill, SkillRegistry};
use crate::text::{
    chars_of, contains, lowercase, to_lowercase, join, join_strings, push_str, replace_all, replace_all_chars, string_of,
    trim, trim_chars,
};

verus! {

/// What the agent knows of the machine it runs on.
pub struct EnvInfo {
    pub platform: String,
    pub os: String,
    pub os_version: String,
    pub default_shell: String,
    pub available_shells: Vec<String>,
    pub python_version: String,
    pub cwd: String,
    /// Developer tools probed on the machine, in the order probed, with
    /// whether each was found.
    pub tools: Vec<(String, bool)>,
}

/// The syntax hint for a shell: cmd, PowerShell, or POSIX.
pub open spec fn shell_hint_text(shell: Seq<char>) -> Seq<char> {
    let lower = lowercase(shell);
    if contains(lower, "cmd"@) {
        "Use cmd.exe syntax: 'dir', 'type file.txt', 'echo %VAR%', 'findstr pattern file'."@
    } else if contains(lower, "powershell"@) {
        "Use PowerShell syntax: 'Get-ChildItem', 'Get-Content', 'Select-String', '$env:VAR'."@
    } else {
        "Use POSIX shell syntax: ls, cat, grep, $VAR."@
    }
}

/// Whether `p` occurs in `s`.
fn contains_str(s: &str, p: &str) -> (r: bool)
    ensures
        r == contains(s@, p@),
{
    let sv = chars_of(s);
    let pv = chars_of(p);
    crate::text::find_chars(sv.as_slice(), pv.as_slice(), 0).is_some()
}

/// The syntax hint for the user's shell (see `shell_hint_text`).
pub fn shell_hint(shell: &str) -> (r: &'static str)
    ensures
        r@ == shell_hint_text(shell@),
{
    let lower = to_lowercase(shell);
    if contains_str(lower.as_str(), "cmd") {
        "Use cmd.exe syntax: 'dir', 'type file.txt', 'echo %VAR%', 'findstr pattern file'."
    } else if contains_str(lower.as_str(), "powershell") {
        "Use PowerShell syntax: 'Get-ChildItem', 'Get-Content', 'Select-String', '$env:VAR'."
    } else {
        "Use POSIX shell syntax: ls, cat, grep, $VAR."
    }
}

/// The template of the system prompt; `{{NAME}}` marks what is filled in.
pub const PROMPT_TEMPLATE: &'static str = "You are Relay, an AI agent running in a terminal environment.

## Environment
- OS: {{OS}} ({{OS_VERSION}})
- Shell: {{SHELL}}
- CWD: {{CWD}}
- Available: {{TOOLS}}
- Python: {{PYTHON_VERSION}}

## Shell Hint
{{SHELL_HINT}}

## Critical: Thinking First, Then Act
DO NOT call any tool immediately. Before every tool call, take time to think:
1. What OS is this? Choose commands that work on {{OS}}.
2. What is the most direct command that answers the question?
3. Write a ROBUST command with fallbacks: `primary_command 2>/dev/null || fallback_command`
4. Anticipate failure — include `||` fallbacks for cross-platform support.

### Anti-patterns to AVOID
- Do NOT run `echo test` or similar \"connection test\" commands — you know the shell works.
- Do NOT run `lsblk` on Windows — it will fail.
- Do NOT run one simple command, wait for result, then run another — batch your work into compound commands.
- Do NOT repeat the same tool with the same arguments after it fails. Try a completely different approach.

### Compound command pattern (Windows)
Instead of trying one command at a time, write robust one-liners:
```
wmic ... 2>nul || powershell -Command \"...\"
```
This tries the first command; if it fails, falls back to PowerShell.

## Capabilities
You have access to shell commands and file reading/writing tools. You can use glob and grep for file discovery.
You can make multiple tool calls in sequence, but prefer to batch work into fewer, more robust commands.
Use the default shell for commands unless you have a specific reason to use another.

## Behavior
{{MODE_BEHAVIOR}}

## Auto Memory
{{MEMORY}}

## Available Skills
{{SKILLS}}
Call use_skill(\"skill-name\") to load a skill's full instructions.
";

/// The names of the tools that were found, in order.
pub open spec fn found_tools(tools: Seq<(String, bool)>) -> Seq<Seq<char>>
    decreases tools.len(),
{
    if tools.len() == 0 {
        Seq::empty()
    } else if tools.last().1 {
        found_tools(tools.drop_last()).push(tools.last().0@)
    } else {
        found_tools(tools.drop_last())
    }
}

/// One line of the memory section: `- [type] name: description`.
pub open spec fn memory_line(e: MemoryEntry) -> Seq<char> {
    "- ["@ + memory_type_name(e.memory_type) + "] "@ + e.name@ + ": "@ + e.description@
}

/// The memory section: one line per entry, or `(none)`.
pub open spec fn memory_section(entries: Seq<MemoryEntry>) -> Seq<char> {
    if entries.len() == 0 {
        "(none)"@
    } else {
        join(entries.map_values(|e: MemoryEntry| memory_line(e)), "\n"@)
    }
}

/// The skills section: the skill list, or `(none)`.
pub open spec fn skills_section(skills: Seq<Skill>) -> Seq<char> {
    if skills.len() == 0 {
        "(none)"@
    } else {
        join(skills.map_values(|s: Skill| skill_line(s)), "\n"@)
    }
}

/// The system prompt: the template with each placeholder replaced, in
/// this order, by the environment, the mode's behaviour, the memory and
/// the skills.
pub open spec fn system_prompt(
    env: &EnvInfo,
    mode: &ModeState,
    memory: &MemoryStore,
    skills: &SkillRegistry,
) -> Seq<char> {
    let p0 = PROMPT_TEMPLATE@;
    let p1 = replace_all(p0, "{{OS}}"@, env.os@);
    let p2 = replace_all(p1, "{{OS_VERSION}}"@, env.os_version@);
    let p3 = replace_all(p2, "{{SHELL}}"@, env.default_shell@);
    let p4 = replace_all(p3, "{{CWD}}"@, env.cwd@);
    let p5 = replace_all(p4, "{{TOOLS}}"@, join(found_tools(env.tools@), ", "@));
    let p6 = replace_all(p5, "{{PYTHON_VERSION}}"@, trim(env.python_version@));
    let p7 = replace_all(p6, "{{SHELL_HINT}}"@, shell_hint_text(env.default_shell@));
    let p8 = replace_all(p7, "{{MODE_BEHAVIOR}}"@, description(mode.current));
    let p9 = replace_all(p8, "{{MEMORY}}"@, memory_section(memory.entries@));
    replace_all(p9, "{{SKILLS}}"@, skills_section(skills.skills@))
}

/// `s` with every `from` replaced by `to`.
fn replace_in(s: Vec<char>, from: &str, to: &[char]) -> (r: Vec<char>)
    requires
        from@.len() > 0,
    ensures
        r@ == replace_all(s@, from@, to@),
{
    let f = chars_of(from);
    replace_all_chars(s.as_slice(), f.as_slice(), to)
}

/// The names of the tools that were found.
fn found_tool_names(tools: &Vec<(String, bool)>) -> (r: Vec<String>)
    ensures
        r.deep_view() == found_tools(tools@),
{
    let mut r: Vec<String> = Vec::new();
    let mut i: usize = 0;
    while i < tools.len()
        invariant
            i <= tools@.len(),
            r.deep_view() == found_tools(tools@.take(i as int)),
        decreases tools@.len() - i,
    {
        proof {
            assert(tools@.take(i + 1).drop_last() =~= tools@.take(i as int));
            assert(tools@.take(i + 1).last() == tools@[i as int]);
        }
        let ghost old_r = r.deep_view();
        if tools[i].1 {
            r.push(tools[i].0.clone());
            assert(r.deep_view() =~= old_r.push(tools@[i as int].0@));
        }
        i = i + 1;
    }
    assert(tools@.take(tools@.len() as int) =~= tools@);
    r
}

/// The memory section of the prompt (see `memory_section`).
fn memory_text(memory: &MemoryStore) -> (r: Vec<char>)
    ensures
        r@ == memory_section(memory.entries@),
{
    if memory.entries.is_empty() {
        return chars_of("(none)");
    }
    let mut out: Vec<String> = Vec::new();
    let mut i: usize = 0;
    while i < memory.entries.len()
        invariant
            i <= memory.entries@.len(),
            out.deep_view() == memory.entries@.take(i as int).map_values(
                |e: MemoryEntry| memory_line(e),
            ),
        decreases memory.entries@.len() - i,
    {
        let e = &memory.entries[i];
        let mut v: Vec<char> = Vec::new();
        push_str(&mut v, "- [");
        push_str(&mut v, e.memory_type_str());
        push_str(&mut v, "] ");
        push_str(&mut v, e.name.as_str());
        push_str(&mut v, ": ");
        push_str(&mut v, e.description.as_str());
        let ghost old_out = out.deep_view();
        out.push(string_of(v.as_slice()));
        assert(out.deep_view() =~= old_out.push(memory_line(*e)));
        assert(memory.entries@.take(i + 1).map_values(|e: MemoryEntry| memory_line(e))
            =~= memory.entries@.take(i as int).map_values(|e: MemoryEntry| memory_line(e)).push(
            memory_line(*e),
        ));
        i = i + 1;
    }
    assert(memory.entries@.take(memory.entries@.len() as int) =~= memory.entries@);
    chars_of(join_strings(&out, "\n").as_str())
}

/// The system prompt for the environment, mode, memory and skills (see
/// `system_prompt`).
pub fn build_system_prompt(
    env: &EnvInfo,
    mode: &ModeState,
    memory: &MemoryStore,
    skills: &SkillRegistry,
) -> (r: String)
    ensures
        r@ == system_prompt(env, mode, memory, skills),
{
    let avail = join_strings(&found_tool_names(&env.tools), ", ");
    let hints = shell_hint(env.default_shell.as_str());
    let memory_text = memory_text(memory);
    let skills_text = if skills.is_empty() {
        chars_of("(none)")
    } else {
        chars_of(skills.available_list().as_str())
    };
    let suffix = mode.system_prompt_suffix();
    proof {
        reveal_strlit("{{OS}}");
        reveal_strlit("{{OS_VERSION}}");
        reveal_strlit("{{SHELL}}");
        reveal_strlit("{{CWD}}");
        reveal_strlit("{{TOOLS}}");
        reveal_strlit("{{PYTHON_VERSION}}");
        reveal_strlit("{{SHELL_HINT}}");
        reveal_strlit("{{MODE_BEHAVIOR}}");
        reveal_strlit("{{MEMORY}}");
        reveal_strlit("{{SKILLS}}");
    }
    let p = chars_of(PROMPT_TEMPLATE);
    let p = replace_in(p, "{{OS}}", chars_of(env.os.as_str()).as_slice());
    let p = replace_in(p, "{{OS_VERSION}}", chars_of(env.os_version.as_str()).as_slice());
    let p = replace_in(p, "{{SHELL}}", chars_of(env.default_shell.as_str()).as_slice());
    let p = replace_in(p, "{{CWD}}", chars_of(env.cwd.as_str()).as_slice());
    let p = replace_in(p, "{{TOOLS}}", chars_of(avail.as_str()).as_slice());
    let py = trim_chars(chars_of(env.python_version.as_str()).as_slice());
    let p = replace_in(p, "{{PYTHON_VERSION}}", py.as_slice());
    let p = replace_in(p, "{{SHELL_HINT}}", chars_of(hints).as_slice());
    let p = replace_in(p, "{{MODE_BEHAVIOR}}", chars_of(suffix.as_str()).as_slice());
    let p = replace_in(p, "{{MEMORY}}", memory_text.as_slice());
    let p = replace_in(p, "{{SKILLS}}", skills_text.as_slice());
    string_of(p.as_slice())
}

} // verus!
