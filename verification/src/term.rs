//! The line-oriented terminal interface: what a line of input is, and what
//! the slash commands do to the session and the mode. Reading lines and
//! printing is done by the program around the library.
use vstd::prelude::*;
use crate::message::{clamp, total_tokens, Message, Session};
use crate::mode::{mode_from_name, mode_label, mode_name, mode_named, switched, AgentMode, ModeState, description};
use crate::text::{
    answer_is_no, answer_no, chars_of, decimal, lowercase, push_decimal, push_str, slice_chars, split_words, str_eq,
    string_of, to_lowercase, trim, trim_chars, words,
};
use crate::tools::{defs_view, full_defs, full_tool_defs};

verus! {

/// A line typed by the user, trimmed.
pub enum InputKind {
    /// Nothing but whitespace.
    Empty,
    /// A slash command.
    Command(String),
    /// A message for the model.
    Message(String),
}

/// Tells commands from messages: the trimmed line, a command when it starts
/// with `/`.
pub fn classify_input(line: &str) -> (r: InputKind)
    ensures
        trim(line@).len() == 0 ==> r is Empty,
        trim(line@).len() > 0 && trim(line@)[0] == '/' ==> (r matches InputKind::Command(c) && c@
            == trim(line@)),
        trim(line@).len() > 0 && trim(line@)[0] != '/' ==> (r matches InputKind::Message(m) && m@
            == trim(line@)),
{
    let t = trim_chars(chars_of(line).as_slice());
    if t.len() == 0 {
        InputKind::Empty
    } else if t[0] == '/' {
        InputKind::Command(string_of(t.as_slice()))
    } else {
        InputKind::Message(string_of(t.as_slice()))
    }
}

/// An answer to the prompt about a proposed call: run it, reject it, or
/// edit its arguments first.
#[derive(Debug, Clone, Copy, PartialEq, Eq, Structural)]
pub enum ConfirmAnswer {
    Yes,
    No,
    Edit,
}

/// What a typed answer asks for: `n` rejects and `e` edits (either case,
/// around whitespace); anything else approves.
pub open spec fn confirm_answer(ans: Seq<char>) -> ConfirmAnswer {
    if answer_no(ans) {
        ConfirmAnswer::No
    } else if trim(ans) == seq!['e'] || trim(ans) == seq!['E'] {
        ConfirmAnswer::Edit
    } else {
        ConfirmAnswer::Yes
    }
}

/// Reads a typed answer to the prompt about a proposed call (see
/// `confirm_answer`).
pub fn classify_answer(ans: &str) -> (r: ConfirmAnswer)
    ensures
        r == confirm_answer(ans@),
{
    if answer_is_no(ans) {
        return ConfirmAnswer::No;
    }
    let t = trim_chars(chars_of(ans).as_slice());
    if t.len() == 1 && (t[0] == 'e' || t[0] == 'E') {
        assert(t@ =~= seq![t@[0]]);
        ConfirmAnswer::Edit
    } else {
        assert(t@.len() != 1 ==> t@ != seq!['e'] && t@ != seq!['E']);
        ConfirmAnswer::Yes
    }
}

/// A slash command.
pub enum Command {
    /// A bare `/`.
    Nothing,
    Exit,
    Clear,
    /// `/model <name>`.
    Model(String),
    Tools,
    Tokens,
    Memory,
    Skill,
    /// `/mode <name>`.
    Mode(AgentMode),
    /// `/auto`, `/confirm` or `/plan`, with the word as typed.
    Switch(AgentMode, String),
    /// Anything else, with its first word.
    Unknown(String),
}

/// Whether `c` is the command of the words after the slash: the first word,
/// lower-cased, names it; `/model` and `/mode` need a second word.
pub open spec fn command_of(parts: Seq<Seq<char>>, c: Command) -> bool {
    if parts.len() == 0 {
        c is Nothing
    } else {
        let w = lowercase(parts[0]);
        if w == "exit"@ || w == "quit"@ {
            c is Exit
        } else if w == "clear"@ {
            c is Clear
        } else if w == "model"@ && parts.len() > 1 {
            c matches Command::Model(m) && m@ == parts[1]
        } else if w == "tools"@ {
            c is Tools
        } else if w == "tokens"@ {
            c is Tokens
        } else if w == "memory"@ {
            c is Memory
        } else if w == "skill"@ {
            c is Skill
        } else if w == "mode"@ && parts.len() > 1 {
            c == Command::Mode(mode_named(parts[1]))
        } else if w == "auto"@ || w == "confirm"@ || w == "plan"@ {
            c matches Command::Switch(m, word) && m == mode_named(parts[0]) && word@ == parts[0]
        } else {
            c matches Command::Unknown(word) && word@ == parts[0]
        }
    }
}

/// The words after the slash of a command line.
pub open spec fn command_words(line: Seq<char>) -> Seq<Seq<char>> {
    words(line.skip(1))
}

/// Reads a command line, which starts with `/` (see `command_of`).
pub fn parse_command(line: &str) -> (r: Command)
    requires
        line@.len() > 0 && line@[0] == '/',
    ensures
        command_of(command_words(line@), r),
{
    let v = chars_of(line);
    let rest = slice_chars(v.as_slice(), 1, v.len());
    assert(rest@ =~= line@.skip(1));
    let parts = split_words(rest.as_slice());
    let ghost pv = parts.deep_view();
    if parts.len() == 0 {
        return Command::Nothing;
    }
    let first = string_of(parts[0].as_slice());
    assert(first@ == pv[0]);
    let w = to_lowercase(first.as_str());
    let w = w.as_str();
    if str_eq(w, "exit") || str_eq(w, "quit") {
        Command::Exit
    } else if str_eq(w, "clear") {
        Command::Clear
    } else if str_eq(w, "model") && parts.len() > 1 {
        let m = string_of(parts[1].as_slice());
        assert(m@ == pv[1]);
        Command::Model(m)
    } else if str_eq(w, "tools") {
        Command::Tools
    } else if str_eq(w, "tokens") {
        Command::Tokens
    } else if str_eq(w, "memory") {
        Command::Memory
    } else if str_eq(w, "skill") {
        Command::Skill
    } else if str_eq(w, "mode") && parts.len() > 1 {
        let m = string_of(parts[1].as_slice());
        assert(m@ == pv[1]);
        Command::Mode(mode_from_name(m.as_str()))
    } else if str_eq(w, "auto") || str_eq(w, "confirm") || str_eq(w, "plan") {
        Command::Switch(mode_from_name(first.as_str()), first)
    } else {
        Command::Unknown(first)
    }
}

/// What a command leaves: whether the session goes on, and the lines to
/// print.
pub struct CommandOutcome {
    pub keep_going: bool,
    pub output: Vec<String>,
}

/// The line `/tools` prints for a tool.
pub open spec fn tool_line(d: (Seq<char>, Seq<char>, Seq<Seq<char>>)) -> Seq<char> {
    "  "@ + d.0 + ": "@ + d.1
}

/// The line printed after a mode change.
pub open spec fn mode_change_line(from: AgentMode, to: Seq<char>) -> Seq<char> {
    "  mode: "@ + mode_label(from) + " → "@ + to
}

/// Switches the mode and tells the model about it.
fn switch_mode(target: AgentMode, session: &mut Session, mode: &mut ModeState)
    ensures
        switched(*old(mode), *final(mode), target),
        final(session).messages@.len() == old(session).messages@.len() + 1,
        final(session).messages@.drop_last() == old(session).messages@,
        final(session).messages@.last() matches Message::System { content } && content@
            == description(target),
        final(session).system_prompt == old(session).system_prompt,
        final(session).max_tokens == old(session).max_tokens,
{
    mode.switch_to(target);
    let suffix = mode.system_prompt_suffix();
    session.inject_system_message(suffix.as_str());
}

/// The lines `/tools` prints: one per tool of Auto mode.
fn tool_lines() -> (r: Vec<String>)
    ensures
        r.deep_view() == full_defs().map_values(|d: (Seq<char>, Seq<char>, Seq<Seq<char>>)| tool_line(d)),
{
    let defs = full_tool_defs();
    let ghost dv = defs_view(defs@);
    let mut out: Vec<String> = Vec::new();
    let mut i: usize = 0;
    while i < defs.len()
        invariant
            dv == defs_view(defs@),
            dv == full_defs(),
            i <= defs@.len(),
            out.deep_view() == dv.take(i as int).map_values(
                |d: (Seq<char>, Seq<char>, Seq<Seq<char>>)| tool_line(d),
            ),
        decreases defs@.len() - i,
    {
        let mut v = chars_of("  ");
        push_str(&mut v, defs[i].function.name.as_str());
        push_str(&mut v, ": ");
        push_str(&mut v, defs[i].function.description.as_str());
        let line = string_of(v.as_slice());
        let ghost before = out;
        let ghost lv = line;
        out.push(line);
        proof {
            crate::text::lemma_deep_push_string(before, out, lv);
            assert(dv[i as int] == crate::tools::def_view(defs@[i as int]));
            assert(out.deep_view() =~= dv.take(i + 1).map_values(
                |d: (Seq<char>, Seq<char>, Seq<Seq<char>>)| tool_line(d),
            ));
        }
        i = i + 1;
    }
    assert(dv.take(defs@.len() as int) =~= dv);
    out
}

/// One line of output.
fn one_line(s: String) -> (r: Vec<String>)
    ensures
        r.deep_view() == seq![s@],
{
    let r = vec![s];
    assert(r.deep_view() =~= seq![s@]);
    r
}

/// What a command does: `/exit` ends the session; `/clear` forgets the
/// conversation; `/model` switches the model the next requests use; `/mode`
/// and the mode words switch the mode and tell the model; the others print
/// information. Only `/clear` and the mode changes change the session or
/// the mode, and only `/model` the model.
pub open spec fn command_effect(
    cmd: Command,
    s0: Session,
    s1: Session,
    m0: ModeState,
    m1: ModeState,
    model0: Seq<char>,
    model1: Seq<char>,
    r: CommandOutcome,
) -> bool {
    &&& r.keep_going == !(cmd is Exit)
    &&& model1 == match cmd {
        Command::Model(m) => m@,
        _ => model0,
    }
    &&& s1.system_prompt == s0.system_prompt
    &&& s1.max_tokens == s0.max_tokens
    &&& !(cmd is Clear || cmd is Mode || cmd is Switch) ==> s1 == s0 && m1 == m0
    &&& match cmd {
        Command::Nothing => r.output@.len() == 0,
        Command::Exit => r.output@.len() == 0,
        Command::Clear => {
            &&& r.output.deep_view() == seq!["  --- cleared"@]
            &&& m1 == m0
            &&& s1.messages@.len() == 1
            &&& s1.messages@[0] matches Message::System { content } && content@ == s0.system_prompt@
        },
        Command::Model(m) => r.output.deep_view() == seq!["  --- switched to "@ + m@],
        Command::Tools => r.output.deep_view() == full_defs().map_values(
            |d: (Seq<char>, Seq<char>, Seq<Seq<char>>)| tool_line(d),
        ),
        Command::Tokens => r.output.deep_view() == seq![
            "  ~"@ + decimal(clamp(total_tokens(s0.messages@)) as nat) + " tokens"@,
        ],
        Command::Memory => r.output.deep_view() == seq![
            "  (memory not available in terminal mode yet)"@,
        ],
        Command::Skill => r.output.deep_view() == seq![
            "  (skills not available in terminal mode yet)"@,
        ],
        Command::Mode(target) => {
            &&& switched(m0, m1, target)
            &&& s1.messages@.drop_last() == s0.messages@
            &&& s1.messages@.len() == s0.messages@.len() + 1
            &&& s1.messages@.last() matches Message::System { content } && content@ == description(target)
            &&& r.output.deep_view() == seq![mode_change_line(m0.current, mode_label(target))]
        },
        Command::Switch(target, word) => {
            &&& switched(m0, m1, target)
            &&& s1.messages@.drop_last() == s0.messages@
            &&& s1.messages@.len() == s0.messages@.len() + 1
            &&& s1.messages@.last() matches Message::System { content } && content@ == description(target)
            &&& r.output.deep_view() == seq![mode_change_line(m0.current, word@)]
        },
        Command::Unknown(w) => r.output.deep_view() == seq!["  unknown command: /"@ + w@],
    }
}

/// Carries out a command (see `command_effect`).
pub fn apply_command(
    cmd: &Command,
    session: &mut Session,
    mode: &mut ModeState,
    model: &mut String,
) -> (r: CommandOutcome)
    ensures
        command_effect(
            *cmd,
            *old(session),
            *final(session),
            *old(mode),
            *final(mode),
            old(model)@,
            final(model)@,
            r,
        ),
{
    match cmd {
        Command::Nothing => CommandOutcome { keep_going: true, output: Vec::new() },
        Command::Exit => CommandOutcome { keep_going: false, output: Vec::new() },
        Command::Clear => {
            session.clear();
            CommandOutcome { keep_going: true, output: one_line("  --- cleared".to_owned()) }
        },
        Command::Model(m) => {
            *model = m.clone();
            let mut v = chars_of("  --- switched to ");
            push_str(&mut v, m.as_str());
            CommandOutcome { keep_going: true, output: one_line(string_of(v.as_slice())) }
        },
        Command::Tools => CommandOutcome { keep_going: true, output: tool_lines() },
        Command::Tokens => {
            let n = session.total_tokens();
            let mut v = chars_of("  ~");
            push_decimal(&mut v, n as u64);
            push_str(&mut v, " tokens");
            CommandOutcome { keep_going: true, output: one_line(string_of(v.as_slice())) }
        },
        Command::Memory => CommandOutcome {
            keep_going: true,
            output: one_line("  (memory not available in terminal mode yet)".to_owned()),
        },
        Command::Skill => CommandOutcome {
            keep_going: true,
            output: one_line("  (skills not available in terminal mode yet)".to_owned()),
        },
        Command::Mode(target) => {
            let from = mode.current;
            switch_mode(*target, session, mode);
            let mut v = chars_of("  mode: ");
            push_str(&mut v, mode_name(from));
            push_str(&mut v, " → ");
            push_str(&mut v, mode_name(*target));
            CommandOutcome { keep_going: true, output: one_line(string_of(v.as_slice())) }
        },
        Command::Switch(target, word) => {
            let from = mode.current;
            switch_mode(*target, session, mode);
            let mut v = chars_of("  mode: ");
            push_str(&mut v, mode_name(from));
            push_str(&mut v, " → ");
            push_str(&mut v, word.as_str());
            CommandOutcome { keep_going: true, output: one_line(string_of(v.as_slice())) }
        },
        Command::Unknown(w) => {
            let mut v = chars_of("  unknown command: /");
            push_str(&mut v, w.as_str());
            CommandOutcome { keep_going: true, output: one_line(string_of(v.as_slice())) }
        },
    }
}

/// Reads and carries out a command line, which starts with `/`: the
/// command read (see `command_of`) and what it did (see `command_effect`).
pub fn handle_command(line: &str, session: &mut Session, mode: &mut ModeState, model: &mut String) -> (r: (
    Command,
    CommandOutcome,
))
    requires
        line@.len() > 0 && line@[0] == '/',
    ensures
        command_of(command_words(line@), r.0),
        command_effect(
            r.0,
            *old(session),
            *final(session),
            *old(mode),
            *final(mode),
            old(model)@,
            final(model)@,
            r.1,
        ),
{
    let cmd = parse_command(line);
    let out = apply_command(&cmd, session, mode, model);
    (cmd, out)
}

} // verus!
