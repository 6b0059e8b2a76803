//! The tools the model can call: their definitions, the validation of a
//! call's arguments, and the parts of their work that compute on data
//! (binary detection, truncation, matching, output assembly). Reading and
//! writing files, walking directories and running commands is done by the
//! program around the library.
use vstd::prelude::*;
use crate::mode::{blocked_in_plan, AgentMode};
use crate::skill::{first_named, SkillRegistry};
use crate::text::{
    starts_with, byte_count, byte_len, chars_of, decimal, find, find_chars, join, join_strings, lemma_find_from_bounds, lines,
    push_all, push_decimal, push_str, slice_chars, split_lines, str_eq, string_of, trim_end,
    trim_end_chars,
};

verus! {

// ------------------------------------------------------------------
// Definitions
// ------------------------------------------------------------------

/// Default value of a parameter.
#[derive(Debug, Clone)]
pub enum ParamDefault {
    Integer(u64),
    Text(String),
}

/// One parameter of a tool: name, JSON type, description, default.
#[derive(Debug, Clone)]
pub struct ParamSpec {
    pub name: String,
    pub type_: String,
    pub description: String,
    pub default: Option<ParamDefault>,
}

/// The parameters of a tool, as a JSON object schema.
#[derive(Debug, Clone)]
pub struct ToolParams {
    pub properties: Vec<ParamSpec>,
    pub required: Vec<String>,
}

/// Name, description and parameters of a tool.
#[derive(Debug, Clone)]
pub struct ToolFn {
    pub name: String,
    pub description: String,
    pub parameters: ToolParams,
}

/// A tool definition in the chat API's function-calling format.
#[derive(Debug, Clone)]
pub struct ToolDef {
    pub type_: String,
    pub function: ToolFn,
}

/// Name, description and required parameters of a definition.
pub open spec fn def_view(d: ToolDef) -> (Seq<char>, Seq<char>, Seq<Seq<char>>) {
    (
        d.function.name@,
        d.function.description@,
        d.function.parameters.required@.map_values(|s: String| s@),
    )
}

/// The view of a parameter's default.
pub enum DefaultView {
    Integer(u64),
    Text(Seq<char>),
}

/// The view of an optional default.
pub open spec fn default_view(d: Option<ParamDefault>) -> Option<DefaultView> {
    match d {
        Some(ParamDefault::Integer(n)) => Some(DefaultView::Integer(n)),
        Some(ParamDefault::Text(t)) => Some(DefaultView::Text(t@)),
        None => None,
    }
}

/// A parameter: name, JSON type, description, default.
pub type ParamView = (Seq<char>, Seq<char>, Seq<char>, Option<DefaultView>);

/// The view of a parameter.
pub open spec fn param_view(p: ParamSpec) -> ParamView {
    (p.name@, p.type_@, p.description@, default_view(p.default))
}

/// The rest of what a definition sends: its type and its parameters, in
/// order.
pub open spec fn schema_view(d: ToolDef) -> (Seq<char>, Seq<ParamView>) {
    (d.type_@, d.function.parameters.properties@.map_values(|p: ParamSpec| param_view(p)))
}

/// The schema views of definitions, in order.
pub open spec fn schemas_view(ds: Seq<ToolDef>) -> Seq<(Seq<char>, Seq<ParamView>)> {
    ds.map_values(|d: ToolDef| schema_view(d))
}

/// The parameters of `shell`.
pub open spec fn shell_params() -> Seq<ParamView> {
    seq![
        ("command"@, "string"@, "The shell command to execute"@, None),
        ("timeout_ms"@, "integer"@, "Timeout in ms"@, Some(DefaultView::Integer(15000))),
    ]
}

/// The parameters of `read`.
pub open spec fn read_params() -> Seq<ParamView> {
    seq![("path"@, "string"@, "File path to read"@, None)]
}

/// The parameters of `write`.
pub open spec fn write_params() -> Seq<ParamView> {
    seq![("path"@, "string"@, "File path to write"@, None), ("content"@, "string"@, "Content to write"@, None)]
}

/// The parameters of `glob`.
pub open spec fn glob_params() -> Seq<ParamView> {
    seq![("pattern"@, "string"@, "Glob pattern to match"@, None)]
}

/// The parameters of `grep`.
pub open spec fn grep_params() -> Seq<ParamView> {
    seq![
        ("pattern"@, "string"@, "Regex pattern to search"@, None),
        ("path"@, "string"@, "File or directory to search"@, None),
        ("glob"@, "string"@, "Optional glob filter"@, Some(DefaultView::Text(Seq::empty()))),
    ]
}

/// The parameters of `use_skill`.
pub open spec fn use_skill_params() -> Seq<ParamView> {
    seq![("name"@, "string"@, "Skill name to load"@, None)]
}

/// The schemas of the tools of Auto and Confirm mode, in the order of
/// `full_defs`; each is of type `function`.
pub open spec fn full_schemas() -> Seq<(Seq<char>, Seq<ParamView>)> {
    seq![
        ("function"@, shell_params()),
        ("function"@, read_params()),
        ("function"@, write_params()),
        ("function"@, glob_params()),
        ("function"@, grep_params()),
        ("function"@, use_skill_params()),
    ]
}

/// The schemas of the tools of Plan mode, in the order of `plan_defs`.
pub open spec fn plan_schemas() -> Seq<(Seq<char>, Seq<ParamView>)> {
    seq![
        ("function"@, read_params()),
        ("function"@, glob_params()),
        ("function"@, grep_params()),
        ("function"@, use_skill_params()),
    ]
}

/// The views of definitions, in order.
pub open spec fn defs_view(ds: Seq<ToolDef>) -> Seq<(Seq<char>, Seq<char>, Seq<Seq<char>>)> {
    ds.map_values(|d: ToolDef| def_view(d))
}

/// The tools of Auto and Confirm mode.
pub open spec fn full_defs() -> Seq<(Seq<char>, Seq<char>, Seq<Seq<char>>)> {
    seq![
        ("shell"@, "Execute a shell command and return output. Use for running programs, scripts, and CLI tools. Blocks until completion or timeout (default 15s, max 300s). Output truncated at 50KB."@, seq!["command"@]),
        ("read"@, "Read a text file from the local filesystem. Binary files (null-byte detected) will be rejected. Max 100K characters."@, seq!["path"@]),
        ("write"@, "Write content to a file. Creates parent directories if missing. Overwrites existing files."@, seq!["path"@, "content"@]),
        ("glob"@, "List files matching a glob pattern (e.g. '**/*.rs'). Max 200 results."@, seq!["pattern"@]),
        ("grep"@, "Search file contents using a regex pattern. Returns matching lines. Max 200 matches. Binary files skipped."@, seq!["pattern"@, "path"@]),
        ("use_skill"@, "Load a skill's full instructions. Call this when you need specialized domain knowledge for a task."@, seq!["name"@]),
    ]
}

/// The tools of Plan mode: only those that do not change the system.
pub open spec fn plan_defs() -> Seq<(Seq<char>, Seq<char>, Seq<Seq<char>>)> {
    seq![
        ("read"@, "Read a text file from the local filesystem."@, seq!["path"@]),
        ("glob"@, "List files matching a glob pattern (e.g. '**/*.rs'). Max 200 results."@, seq!["pattern"@]),
        ("grep"@, "Search file contents using a regex pattern."@, seq!["pattern"@, "path"@]),
        ("use_skill"@, "Load a skill's full instructions."@, seq!["name"@]),
    ]
}

fn param(name: &str, type_: &str, description: &str, default: Option<ParamDefault>) -> (r: ParamSpec)
    ensures
        param_view(r) == (name@, type_@, description@, default_view(default)),
{
    ParamSpec {
        name: name.to_owned(),
        type_: type_.to_owned(),
        description: description.to_owned(),
        default,
    }
}

fn tool_def(name: &str, desc: &str, properties: Vec<ParamSpec>, required: Vec<String>) -> (r: ToolDef)
    ensures
        r.type_@ == "function"@,
        r.function.name@ == name@,
        r.function.description@ == desc@,
        r.function.parameters.required == required,
        r.function.parameters.properties == properties,
{
    ToolDef {
        type_: "function".to_owned(),
        function: ToolFn {
            name: name.to_owned(),
            description: desc.to_owned(),
            parameters: ToolParams { properties, required },
        },
    }
}

fn shell_def(desc: &str) -> (r: ToolDef)
    ensures
        def_view(r) == ("shell"@, desc@, seq!["command"@]),
        schema_view(r) == ("function"@, shell_params()),
{
    let props = vec![
        param("command", "string", "The shell command to execute", None),
        param("timeout_ms", "integer", "Timeout in ms", Some(ParamDefault::Integer(15000))),
    ];
    let req = vec!["command".to_owned()];
    let r = tool_def("shell", desc, props, req);
    assert(def_view(r).2 =~= seq!["command"@]);
    assert(schema_view(r).1 =~= shell_params());
    r
}

fn read_def(desc: &str) -> (r: ToolDef)
    ensures
        def_view(r) == ("read"@, desc@, seq!["path"@]),
        schema_view(r) == ("function"@, read_params()),
{
    let props = vec![param("path", "string", "File path to read", None)];
    let r = tool_def("read", desc, props, vec!["path".to_owned()]);
    assert(def_view(r).2 =~= seq!["path"@]);
    assert(schema_view(r).1 =~= read_params());
    r
}

fn write_def(desc: &str) -> (r: ToolDef)
    ensures
        def_view(r) == ("write"@, desc@, seq!["path"@, "content"@]),
        schema_view(r) == ("function"@, write_params()),
{
    let props = vec![
        param("path", "string", "File path to write", None),
        param("content", "string", "Content to write", None),
    ];
    let r = tool_def("write", desc, props, vec!["path".to_owned(), "content".to_owned()]);
    assert(def_view(r).2 =~= seq!["path"@, "content"@]);
    assert(schema_view(r).1 =~= write_params());
    r
}

fn glob_def(desc: &str) -> (r: ToolDef)
    ensures
        def_view(r) == ("glob"@, desc@, seq!["pattern"@]),
        schema_view(r) == ("function"@, glob_params()),
{
    let props = vec![param("pattern", "string", "Glob pattern to match", None)];
    let r = tool_def("glob", desc, props, vec!["pattern".to_owned()]);
    assert(def_view(r).2 =~= seq!["pattern"@]);
    assert(schema_view(r).1 =~= glob_params());
    r
}

fn grep_def(desc: &str) -> (r: ToolDef)
    ensures
        def_view(r) == ("grep"@, desc@, seq!["pattern"@, "path"@]),
        schema_view(r) == ("function"@, grep_params()),
{
    let props = vec![
        param("pattern", "string", "Regex pattern to search", None),
        param("path", "string", "File or directory to search", None),
        param("glob", "string", "Optional glob filter", Some(ParamDefault::Text(String::new()))),
    ];
    let r = tool_def("grep", desc, props, vec!["pattern".to_owned(), "path".to_owned()]);
    assert(def_view(r).2 =~= seq!["pattern"@, "path"@]);
    assert(schema_view(r).1 =~= grep_params());
    r
}

fn use_skill_def(desc: &str) -> (r: ToolDef)
    ensures
        def_view(r) == ("use_skill"@, desc@, seq!["name"@]),
        schema_view(r) == ("function"@, use_skill_params()),
{
    let props = vec![param("name", "string", "Skill name to load", None)];
    let r = tool_def("use_skill", desc, props, vec!["name".to_owned()]);
    assert(def_view(r).2 =~= seq!["name"@]);
    assert(schema_view(r).1 =~= use_skill_params());
    r
}

/// The six tools of Auto and Confirm mode.
pub fn full_tool_defs() -> (r: Vec<ToolDef>)
    ensures
        defs_view(r@) == full_defs(),
        schemas_view(r@) == full_schemas(),
{
    let r = vec![
        shell_def("Execute a shell command and return output. Use for running programs, scripts, and CLI tools. Blocks until completion or timeout (default 15s, max 300s). Output truncated at 50KB."),
        read_def("Read a text file from the local filesystem. Binary files (null-byte detected) will be rejected. Max 100K characters."),
        write_def("Write content to a file. Creates parent directories if missing. Overwrites existing files."),
        glob_def("List files matching a glob pattern (e.g. '**/*.rs'). Max 200 results."),
        grep_def("Search file contents using a regex pattern. Returns matching lines. Max 200 matches. Binary files skipped."),
        use_skill_def("Load a skill's full instructions. Call this when you need specialized domain knowledge for a task."),
    ];
    assert(defs_view(r@) =~= full_defs());
    assert(schemas_view(r@) =~= full_schemas());
    r
}

/// The four read-only tools of Plan mode.
pub fn plan_tool_defs() -> (r: Vec<ToolDef>)
    ensures
        defs_view(r@) == plan_defs(),
        schemas_view(r@) == plan_schemas(),
{
    let r = vec![
        read_def("Read a text file from the local filesystem."),
        glob_def("List files matching a glob pattern (e.g. '**/*.rs'). Max 200 results."),
        grep_def("Search file contents using a regex pattern."),
        use_skill_def("Load a skill's full instructions."),
    ];
    assert(defs_view(r@) =~= plan_defs());
    assert(schemas_view(r@) =~= plan_schemas());
    r
}

/// The tools offered in a mode: the read-only ones in Plan mode, all of
/// them otherwise.
pub fn active_tool_defs(mode: AgentMode) -> (r: Vec<ToolDef>)
    ensures
        mode == AgentMode::Plan ==> defs_view(r@) == plan_defs() && schemas_view(r@) == plan_schemas(),
        mode != AgentMode::Plan ==> defs_view(r@) == full_defs() && schemas_view(r@) == full_schemas(),
{
    match mode {
        AgentMode::Plan => plan_tool_defs(),
        _ => full_tool_defs(),
    }
}

/// Plan mode offers no tool that Plan mode blocks, and only tools that the
/// other modes offer too.
pub proof fn law_plan_tools_read_only()
    ensures
        forall|i: int| 0 <= i < plan_defs().len() ==> !blocked_in_plan(#[trigger] plan_defs()[i].0),
        forall|i: int|
            0 <= i < plan_defs().len() ==> exists|j: int|
                0 <= j < full_defs().len() && #[trigger] full_defs()[j].0 == #[trigger] plan_defs()[i].0,
{
    reveal_strlit("read");
    reveal_strlit("glob");
    reveal_strlit("grep");
    reveal_strlit("use_skill");
    reveal_strlit("shell");
    reveal_strlit("write");
    let p = plan_defs();
    let f = full_defs();
    assert(p[0].0 == f[1].0);
    assert(p[1].0 == f[3].0);
    assert(p[2].0 == f[4].0);
    assert(p[3].0 == f[5].0);
    assert forall|i: int| 0 <= i < p.len() implies !blocked_in_plan(#[trigger] p[i].0) by {}
}

// ------------------------------------------------------------------
// Small helpers of the tools
// ------------------------------------------------------------------

/// Whether the first 8192 bytes (or all, if fewer) hold a zero byte.
pub open spec fn binary_head(data: Seq<u8>) -> bool {
    exists|i: int| 0 <= i < data.len() && i < 8192 && data[i] == 0
}

/// Whether data looks binary: a zero byte among its first 8192 bytes.
pub fn _is_binary(data: &[u8]) -> (r: bool)
    ensures
        r == binary_head(data@),
{
    let check_len = if data.len() < 8192 {
        data.len()
    } else {
        8192
    };
    let mut i: usize = 0;
    while i < check_len
        invariant
            check_len <= data@.len(),
            check_len <= 8192,
            i <= check_len,
            forall|j: int| 0 <= j < i ==> data@[j] != 0,
        decreases check_len - i,
    {
        if data[i] == 0 {
            return true;
        }
        i = i + 1;
    }
    false
}

/// A successful tool output.
pub fn res(content: String) -> (r: Result<String, String>)
    ensures
        r == Ok::<String, String>(content),
{
    Ok(content)
}

/// A tool failure with the given message.
pub fn err(msg: &str) -> (r: Result<String, String>)
    ensures
        r matches Err(m) && m@ == msg@,
{
    Err(msg.to_owned())
}

// ------------------------------------------------------------------
// Arguments of a call
// ------------------------------------------------------------------

/// One argument of a call, as far as the tools read it.
#[derive(Debug, Clone)]
pub enum ArgValue {
    Text(String),
    /// A number, with its value when it is an unsigned integer.
    Number(Option<u64>),
    Other,
}

/// The view of an argument.
pub enum ArgView {
    Text(Seq<char>),
    /// A number, with its value when it is an unsigned integer.
    Number(Option<u64>),
    Other,
}

/// The view of an argument.
pub open spec fn arg_view(a: ArgValue) -> ArgView {
    match a {
        ArgValue::Text(s) => ArgView::Text(s@),
        ArgValue::Number(n) => ArgView::Number(n),
        ArgValue::Other => ArgView::Other,
    }
}

/// The views of the members of an arguments object, in order.
pub open spec fn args_view(args: Seq<(String, ArgValue)>) -> Seq<(Seq<char>, ArgView)> {
    args.map_values(|p: (String, ArgValue)| (p.0@, arg_view(p.1)))
}

/// `serde_json::from_str` into a JSON object: its members, in the map's
/// order, with strings, numbers (and their value when it is an unsigned
/// integer) and other values told apart, or the parser's message. The
/// result is a function of the text alone.
pub uninterp spec fn json_object(text: Seq<char>) -> Result<Seq<(Seq<char>, ArgView)>, Seq<char>>;

/// `serde_json::from_str::<Map<String, Value>>`: the members of the JSON
/// object the text holds, or the parser's error message (see `json_object`).
#[verifier::external_body]
pub(crate) fn parse_json_object(text: &str) -> (r: Result<Vec<(String, ArgValue)>, String>)
    ensures
        match r {
            Ok(v) => json_object(text@) == Ok::<_, Seq<char>>(args_view(v@)),
            Err(e) => json_object(text@) == Err::<Seq<(Seq<char>, ArgView)>, _>(e@),
        },
{
    let map = match serde_json::from_str::<serde_json::Map<String, serde_json::Value>>(text) {
        Ok(m) => m,
        Err(e) => return Err(e.to_string()),
    };
    let mut out = Vec::new();
    for (k, v) in map {
        out.push((k, match v {
            serde_json::Value::String(s) => ArgValue::Text(s),
            serde_json::Value::Number(n) => ArgValue::Number(n.as_u64()),
            _ => ArgValue::Other,
        }));
    }
    Ok(out)
}

/// The first argument with the given key.
pub open spec fn lookup(args: Seq<(Seq<char>, ArgView)>, key: Seq<char>, i: int) -> Option<ArgView>
    decreases args.len() - i,
{
    if i < 0 || i >= args.len() {
        None
    } else if args[i].0 == key {
        Some(args[i].1)
    } else {
        lookup(args, key, i + 1)
    }
}

/// The text argument with the given key, or the message that it is missing.
pub open spec fn text_arg(args: Seq<(Seq<char>, ArgView)>, key: Seq<char>) -> Result<Seq<char>, Seq<char>> {
    match lookup(args, key, 0) {
        Some(ArgView::Text(s)) => Ok(s),
        _ => Err("missing required param: "@ + key),
    }
}

/// The unsigned argument with the given key, if there is one.
pub open spec fn unsigned_arg(args: Seq<(Seq<char>, ArgView)>, key: Seq<char>) -> Option<u64> {
    match lookup(args, key, 0) {
        Some(ArgView::Number(Some(n))) => Some(n),
        _ => None,
    }
}

pub(crate) fn lookup_exec<'a>(args: &'a Vec<(String, ArgValue)>, key: &str) -> (r: Option<&'a ArgValue>)
    ensures
        match r {
            Some(v) => lookup(args_view(args@), key@, 0) == Some(arg_view(*v)),
            None => lookup(args_view(args@), key@, 0) is None,
        },
{
    let ghost av = args_view(args@);
    let mut i: usize = 0;
    while i < args.len()
        invariant
            av == args_view(args@),
            i <= args@.len(),
            lookup(av, key@, 0) == lookup(av, key@, i as int),
        decreases args@.len() - i,
    {
        if str_eq(args[i].0.as_str(), key) {
            return Some(&args[i].1);
        }
        i = i + 1;
    }
    None
}

/// `get_str`: the text argument with the given key (see `text_arg`).
fn get_str(args: &Vec<(String, ArgValue)>, key: &str) -> (r: Result<String, String>)
    ensures
        match r {
            Ok(s) => text_arg(args_view(args@), key@) == Ok::<_, Seq<char>>(s@),
            Err(e) => text_arg(args_view(args@), key@) == Err::<Seq<char>, _>(e@),
        },
{
    match lookup_exec(args, key) {
        Some(ArgValue::Text(s)) => Ok(s.clone()),
        _ => {
            let mut m = chars_of("missing required param: ");
            push_str(&mut m, key);
            Err(string_of(m.as_slice()))
        },
    }
}

/// `get_u64` without the default: the unsigned argument with the given key.
fn get_u64(args: &Vec<(String, ArgValue)>, key: &str) -> (r: Option<u64>)
    ensures
        r == unsigned_arg(args_view(args@), key@),
{
    match lookup_exec(args, key) {
        Some(ArgValue::Number(Some(n))) => Some(*n),
        _ => None,
    }
}

// ------------------------------------------------------------------
// Regular expressions and glob patterns
// ------------------------------------------------------------------

/// `regex::Regex`, carried through as an opaque value.
#[verifier::external_type_specification]
#[verifier::external_body]
pub struct ExRegex(regex::Regex);

/// `glob::Pattern`, carried through as an opaque value.
#[verifier::external_type_specification]
#[verifier::external_body]
pub struct ExGlobPattern(glob::Pattern);

/// `regex::Regex::new`: `None` when the pattern compiles, else the error's
/// message. A function of the pattern alone.
pub uninterp spec fn regex_error(pattern: Seq<char>) -> Option<Seq<char>>;

/// `regex::Regex::is_match`: whether the regex of `pattern` matches
/// somewhere in `text`. A function of its arguments alone.
pub uninterp spec fn regex_matches(pattern: Seq<char>, text: Seq<char>) -> bool;

/// `glob::Pattern::new`: whether the pattern compiles. A function of the
/// pattern alone, for the path separators of the platform built for.
pub uninterp spec fn glob_valid(pattern: Seq<char>) -> bool;

/// `glob::Pattern::matches`: whether the pattern matches the whole text. A
/// function of its arguments alone, for the path separators of the
/// platform built for (on Windows `/` and `\` match each other).
pub uninterp spec fn glob_matches(pattern: Seq<char>, text: Seq<char>) -> bool;

/// `regex::Regex::new`, with the error as its message (see `regex_error`).
#[verifier::external_body]
fn compile_regex(pattern: &str) -> (r: Result<regex::Regex, String>)
    ensures
        match r {
            Ok(_) => regex_error(pattern@) is None,
            Err(e) => regex_error(pattern@) == Some(e@),
        },
{
    match regex::Regex::new(pattern) {
        Ok(re) => Ok(re),
        Err(e) => Err(e.to_string()),
    }
}

/// `glob::Pattern::new` (see `glob_valid`).
#[verifier::external_body]
fn compile_glob(pattern: &str) -> (r: Option<glob::Pattern>)
    ensures
        r is Some <==> glob_valid(pattern@),
{
    match glob::Pattern::new(pattern) {
        Ok(p) => Some(p),
        Err(_) => None,
    }
}

/// A compiled regular expression, with the pattern it was compiled from.
pub struct TextRegex {
    source: String,
    re: regex::Regex,
}

impl TextRegex {
    /// The pattern the regex was compiled from.
    pub closed spec fn source(&self) -> Seq<char> {
        self.source@
    }

    /// Compiles a pattern, or gives the compiler's message.
    pub fn new(pattern: &str) -> (r: Result<TextRegex, String>)
        ensures
            match r {
                Ok(t) => regex_error(pattern@) is None && t.source() == pattern@,
                Err(e) => regex_error(pattern@) == Some(e@),
            },
    {
        match compile_regex(pattern) {
            Ok(re) => Ok(TextRegex { source: pattern.to_owned(), re }),
            Err(e) => Err(e),
        }
    }

    /// `regex::Regex::is_match` on the regex, which `new` compiled from
    /// `source()` (see `regex_matches`).
    #[verifier::external_body]
    pub(crate) fn is_match(&self, text: &str) -> (r: bool)
        ensures
            r == regex_matches(self.source(), text@),
    {
        self.re.is_match(text)
    }
}

/// A compiled glob pattern, with the pattern it was compiled from.
pub struct GlobPattern {
    source: String,
    pat: glob::Pattern,
}

impl GlobPattern {
    /// The pattern the glob was compiled from.
    pub closed spec fn source(&self) -> Seq<char> {
        self.source@
    }

    /// Compiles a glob pattern, if it is valid.
    pub fn new(pattern: &str) -> (r: Option<GlobPattern>)
        ensures
            r is Some <==> glob_valid(pattern@),
            r matches Some(g) ==> g.source() == pattern@,
    {
        match compile_glob(pattern) {
            Some(pat) => Some(GlobPattern { source: pattern.to_owned(), pat }),
            None => None,
        }
    }

    /// `glob::Pattern::matches` on the pattern, which `new` compiled from
    /// `source()` (see `glob_matches`).
    #[verifier::external_body]
    pub(crate) fn matches(&self, text: &str) -> (r: bool)
        ensures
            r == glob_matches(self.source(), text@),
    {
        self.pat.matches(text)
    }
}

// ------------------------------------------------------------------
// Validating a call
// ------------------------------------------------------------------

/// A validated call, ready to run.
pub enum ToolRequest {
    Shell { command: String, timeout_ms: Option<u64> },
    Read { path: String },
    Write { path: String, content: String },
    Glob { pattern: String },
    Grep { regex: TextRegex, path: String, glob: String },
    UseSkill { name: String },
}

/// Whether a validated call is the one the name and arguments ask for: the
/// required text arguments of the tool, in order, each present; for grep
/// also the optional `glob` text (empty when absent) and a pattern that
/// compiles.
pub open spec fn request_of(name: Seq<char>, args: Seq<(Seq<char>, ArgView)>, r: Result<ToolRequest, String>) -> bool {
    if name == "shell"@ {
        match text_arg(args, "command"@) {
            Err(e) => r matches Err(m) && m@ == e,
            Ok(c) => r matches Ok(ToolRequest::Shell { command, timeout_ms }) && command@ == c
                && timeout_ms == unsigned_arg(args, "timeout_ms"@),
        }
    } else if name == "read"@ {
        match text_arg(args, "path"@) {
            Err(e) => r matches Err(m) && m@ == e,
            Ok(p) => r matches Ok(ToolRequest::Read { path }) && path@ == p,
        }
    } else if name == "write"@ {
        match (text_arg(args, "path"@), text_arg(args, "content"@)) {
            (Err(e), _) => r matches Err(m) && m@ == e,
            (Ok(_), Err(e)) => r matches Err(m) && m@ == e,
            (Ok(p), Ok(c)) => r matches Ok(ToolRequest::Write { path, content }) && path@ == p
                && content@ == c,
        }
    } else if name == "glob"@ {
        match text_arg(args, "pattern"@) {
            Err(e) => r matches Err(m) && m@ == e,
            Ok(p) => r matches Ok(ToolRequest::Glob { pattern }) && pattern@ == p,
        }
    } else if name == "grep"@ {
        match (text_arg(args, "pattern"@), text_arg(args, "path"@)) {
            (Err(e), _) => r matches Err(m) && m@ == e,
            (Ok(_), Err(e)) => r matches Err(m) && m@ == e,
            (Ok(pat), Ok(p)) => match regex_error(pat) {
                Some(e) => r matches Err(m) && m@ == "invalid regex: "@ + e,
                None => r matches Ok(ToolRequest::Grep { regex, path, glob }) && regex.source() == pat
                    && path@ == p && glob@ == match lookup(args, "glob"@, 0) {
                    Some(ArgView::Text(g)) => g,
                    _ => Seq::empty(),
                },
            },
        }
    } else if name == "use_skill"@ {
        match text_arg(args, "name"@) {
            Err(e) => r matches Err(m) && m@ == e,
            Ok(n) => r matches Ok(ToolRequest::UseSkill { name }) && name@ == n,
        }
    } else {
        r matches Err(m) && m@ == "unknown tool: "@ + name
    }
}

/// Validates a call: its arguments must be a JSON object (else `invalid
/// args: ` and the parser's message), the tool must be known (else
/// `unknown tool: ` and its name), and its arguments present (see
/// `request_of`).
pub fn parse_tool_call(name: &str, args_str: &str) -> (r: Result<ToolRequest, String>)
    ensures
        match json_object(args_str@) {
            Err(e) => r matches Err(m) && m@ == "invalid args: "@ + e,
            Ok(args) => request_of(name@, args, r),
        },
{
    let args = match parse_json_object(args_str) {
        Ok(a) => a,
        Err(e) => {
            let mut m = chars_of("invalid args: ");
            push_str(&mut m, e.as_str());
            return Err(string_of(m.as_slice()));
        },
    };
    if str_eq(name, "shell") {
        let command = match get_str(&args, "command") {
            Ok(c) => c,
            Err(e) => return Err(e),
        };
        Ok(ToolRequest::Shell { command, timeout_ms: get_u64(&args, "timeout_ms") })
    } else if str_eq(name, "read") {
        match get_str(&args, "path") {
            Ok(path) => Ok(ToolRequest::Read { path }),
            Err(e) => Err(e),
        }
    } else if str_eq(name, "write") {
        let path = match get_str(&args, "path") {
            Ok(p) => p,
            Err(e) => return Err(e),
        };
        match get_str(&args, "content") {
            Ok(content) => Ok(ToolRequest::Write { path, content }),
            Err(e) => Err(e),
        }
    } else if str_eq(name, "glob") {
        match get_str(&args, "pattern") {
            Ok(pattern) => Ok(ToolRequest::Glob { pattern }),
            Err(e) => Err(e),
        }
    } else if str_eq(name, "grep") {
        let pattern = match get_str(&args, "pattern") {
            Ok(p) => p,
            Err(e) => return Err(e),
        };
        let path = match get_str(&args, "path") {
            Ok(p) => p,
            Err(e) => return Err(e),
        };
        let glob = match lookup_exec(&args, "glob") {
            Some(ArgValue::Text(g)) => g.clone(),
            _ => String::new(),
        };
        match TextRegex::new(pattern.as_str()) {
            Ok(regex) => Ok(ToolRequest::Grep { regex, path, glob }),
            Err(e) => {
                let mut m = chars_of("invalid regex: ");
                push_str(&mut m, e.as_str());
                Err(string_of(m.as_slice()))
            },
        }
    } else if str_eq(name, "use_skill") {
        match get_str(&args, "name") {
            Ok(n) => Ok(ToolRequest::UseSkill { name: n }),
            Err(e) => Err(e),
        }
    } else {
        let mut m = chars_of("unknown tool: ");
        push_str(&mut m, name);
        Err(string_of(m.as_slice()))
    }
}

/// The time a command may run: the requested time, else the default,
/// and never more than 300 s.
pub open spec fn shell_timeout(requested: Option<u64>, default_ms: u64) -> u64 {
    let t = match requested {
        Some(t) => t,
        None => default_ms,
    };
    if t < 300_000 {
        t
    } else {
        300_000
    }
}

/// The time a command may run (see `shell_timeout`).
pub fn shell_timeout_ms(requested: Option<u64>, default_ms: u64) -> (r: u64)
    ensures
        r == shell_timeout(requested, default_ms),
{
    let t = match requested {
        Some(t) => t,
        None => default_ms,
    };
    if t < 300_000 {
        t
    } else {
        300_000
    }
}

/// No command runs longer than 300 s, and a shorter request is honoured.
pub proof fn law_shell_timeout_capped(requested: Option<u64>, default_ms: u64)
    ensures
        shell_timeout(requested, default_ms) <= 300_000,
        requested matches Some(t) ==> (t <= 300_000 ==> shell_timeout(requested, default_ms) == t),
{
}

/// The flag that hands a command to the shell: `/C` for cmd, `-c` otherwise.
pub fn shell_flag(shell: &str) -> (r: &'static str)
    ensures
        crate::text::contains(shell@, "cmd"@) ==> r@ == "/C"@,
        !crate::text::contains(shell@, "cmd"@) ==> r@ == "-c"@,
{
    let s = chars_of(shell);
    let c = chars_of("cmd");
    if find_chars(s.as_slice(), c.as_slice(), 0).is_some() {
        "/C"
    } else {
        "-c"
    }
}

/// What the wait for a command gets from the threads that read its output.
pub enum ShellWaitEvent {
    /// The captured text of a stream; stderr's starts with `(stderr)`.
    Message(String),
    /// Nothing came during one polling interval.
    Quiet,
    /// Both readers are gone.
    Closed,
}

/// The stdout and stderr captured while a command is waited for.
pub struct ShellCapture {
    pub stdout: String,
    pub stderr: String,
}

/// Takes one event of the wait and says whether to keep waiting: text that
/// starts with `(stderr)` is stderr, and the wait goes on; other text is
/// stdout, and the wait ends; a quiet interval ends the wait once anything
/// came; a closed channel ends it.
pub fn shell_wait_step(cap: &mut ShellCapture, ev: ShellWaitEvent) -> (go_on: bool)
    ensures
        match ev {
            ShellWaitEvent::Message(m) => if starts_with(m@, "(stderr)"@) {
                go_on && final(cap).stderr@ == m@ && final(cap).stdout == old(cap).stdout
            } else {
                !go_on && final(cap).stdout@ == m@ && final(cap).stderr == old(cap).stderr
            },
            ShellWaitEvent::Quiet => go_on == (old(cap).stdout@.len() == 0 && old(cap).stderr@.len() == 0)
                && *final(cap) == *old(cap),
            ShellWaitEvent::Closed => !go_on && *final(cap) == *old(cap),
        },
{
    match ev {
        ShellWaitEvent::Message(m) => {
            if crate::text::starts_with_str(chars_of(m.as_str()).as_slice(), "(stderr)") {
                cap.stderr = m;
                true
            } else {
                cap.stdout = m;
                false
            }
        },
        ShellWaitEvent::Quiet => cap.stdout.as_str().is_empty() && cap.stderr.as_str().is_empty(),
        ShellWaitEvent::Closed => false,
    }
}

/// The outcome of a command that was waited for.
#[derive(Debug, Clone, Copy)]
pub enum ShellStatus {
    Success,
    /// A failure with its exit code, when there is one.
    Failed(Option<i32>),
    /// Waiting failed.
    Unknown,
}

/// Decimal notation of an integer, with a minus sign when negative.
pub open spec fn signed_decimal(i: int) -> Seq<char> {
    if i < 0 {
        "-"@ + decimal((-i) as nat)
    } else {
        decimal(i as nat)
    }
}

/// The note on the exit of a command.
pub open spec fn exit_info(status: ShellStatus) -> Seq<char> {
    match status {
        ShellStatus::Success => Seq::empty(),
        ShellStatus::Failed(code) => "\n[exit code: "@ + signed_decimal(
            match code {
                Some(c) => c as int,
                None => -1,
            },
        ) + "]"@,
        ShellStatus::Unknown => "\n[timed out]"@,
    }
}

/// `s` with its first occurrence of `from` replaced by `to` (`replacen(.., 1)`).
pub open spec fn replace_first(s: Seq<char>, from: Seq<char>, to: Seq<char>) -> Seq<char> {
    match find(s, from) {
        Some(i) => s.take(i) + to + s.skip(i + from.len()),
        None => s,
    }
}

/// What a command's run gives the model: its output without trailing
/// whitespace, its error output (marked `(stderr)`) on a line of its own,
/// and a note on how it exited.
pub open spec fn shell_report(stdout: Seq<char>, stderr: Seq<char>, status: ShellStatus) -> Seq<char> {
    let output = if crate::text::starts_with(stderr, "(stderr)"@) {
        trim_end(stdout) + replace_first(stderr, "(stderr)\n"@, "\n(stderr)\n"@)
    } else {
        trim_end(stdout)
    };
    output + exit_info(status)
}

/// The report of a command's run (see `shell_report`).
pub fn shell_output(stdout: &str, stderr: &str, status: ShellStatus) -> (r: String)
    ensures
        r@ == shell_report(stdout@, stderr@, status),
{
    let err = chars_of(stderr);
    let mut out = trim_end_chars(chars_of(stdout).as_slice());
    if crate::text::starts_with_str(err.as_slice(), "(stderr)") {
        let from = chars_of("(stderr)\n");
        match find_chars(err.as_slice(), from.as_slice(), 0) {
            Some(i) => {
                proof {
                    lemma_find_from_bounds(err@, "(stderr)\n"@, 0);
                }
                let elen = err.len();
                assert(i + from@.len() <= elen);
                push_all(&mut out, slice_chars(err.as_slice(), 0, i).as_slice());
                push_str(&mut out, "\n(stderr)\n");
                push_all(&mut out, slice_chars(err.as_slice(), i + from.len(), err.len()).as_slice());
                assert(err@.subrange(0, i as int) =~= err@.take(i as int));
                assert(err@.subrange(i + from@.len(), err@.len() as int) =~= err@.skip(i + from@.len()));
            },
            None => push_all(&mut out, err.as_slice()),
        }
    }
    match status {
        ShellStatus::Success => {},
        ShellStatus::Failed(code) => {
            push_str(&mut out, "\n[exit code: ");
            let c: i64 = match code {
                Some(c) => c as i64,
                None => -1,
            };
            if c < 0 {
                push_str(&mut out, "-");
                push_decimal(&mut out, (-c) as u64);
            } else {
                push_decimal(&mut out, c as u64);
            }
            push_str(&mut out, "]");
        },
        ShellStatus::Unknown => push_str(&mut out, "\n[timed out]"),
    }
    assert(out@ =~= shell_report(stdout@, stderr@, status));
    string_of(out.as_slice())
}

// ------------------------------------------------------------------
// Byte lengths and captured output
// ------------------------------------------------------------------

/// Adds a line of captured output, with its newline, while the capture
/// holds fewer than `max` bytes.
pub fn append_capped_line(out: &mut Vec<char>, line: &str, max: usize)
    ensures
        byte_len(old(out)@) < max ==> final(out)@ == old(out)@ + line@ + seq!['\n'],
        byte_len(old(out)@) >= max ==> final(out)@ == old(out)@,
{
    if byte_count(out.as_slice()) < max {
        push_str(out, line);
        out.push('\n');
    }
}

// ------------------------------------------------------------------
// Reading, writing, skills
// ------------------------------------------------------------------

/// `String::from_utf8_lossy`: the text of the bytes, with U+FFFD for each
/// invalid sequence. A function of the bytes alone.
pub uninterp spec fn lossy_utf8(data: Seq<u8>) -> Seq<char>;

/// `String::from_utf8_lossy` (see `lossy_utf8`).
#[verifier::external_body]
pub(crate) fn utf8_lossy(data: &[u8]) -> (r: String)
    ensures
        r@ == lossy_utf8(data@),
{
    String::from_utf8_lossy(data).into_owned()
}

/// Whether data is binary: a zero byte among its first 8192 bytes.
pub open spec fn binary_file(data: Seq<u8>) -> bool {
    binary_head(data)
}

/// What `read` returns for the bytes of a file: refused when binary; the
/// text, cut at 100 000 characters with a note when longer.
pub open spec fn read_result(data: Seq<u8>) -> Result<Seq<char>, Seq<char>> {
    let text = lossy_utf8(data);
    if binary_file(data) {
        Err("binary file detected, not reading"@)
    } else if text.len() > 100_000 {
        Ok(text.take(100_000) + "...(truncated at 100000 chars)"@)
    } else {
        Ok(text)
    }
}

/// A long text file keeps exactly its first 100 000 characters, and a note
/// is added.
pub proof fn law_read_cut_at_limit(data: Seq<u8>)
    requires
        !binary_file(data),
        lossy_utf8(data).len() > 100_000,
    ensures
        read_result(data) matches Ok(t) && t.take(100_000) == lossy_utf8(data).take(100_000)
            && t.skip(100_000) == "...(truncated at 100000 chars)"@,
{
    let text = lossy_utf8(data);
    let t = text.take(100_000) + "...(truncated at 100000 chars)"@;
    assert(t.take(100_000) =~= text.take(100_000));
    assert(t.skip(100_000) =~= "...(truncated at 100000 chars)"@);
}

/// The result of reading a file with these bytes (see `read_result`).
pub fn read_output(data: &[u8]) -> (r: Result<String, String>)
    ensures
        match r {
            Ok(s) => read_result(data@) == Ok::<_, Seq<char>>(s@),
            Err(e) => read_result(data@) == Err::<Seq<char>, _>(e@),
        },
{
    if _is_binary(data) {
        return err("binary file detected, not reading");
    }
    let text = chars_of(utf8_lossy(data).as_str());
    if text.len() > 100_000 {
        let mut out = slice_chars(text.as_slice(), 0, 100_000);
        push_str(&mut out, "...(truncated at 100000 chars)");
        assert(text@.subrange(0, 100_000) =~= text@.take(100_000));
        return Ok(string_of(out.as_slice()));
    }
    Ok(string_of(text.as_slice()))
}

/// The report of a write: how many bytes went to which path.
pub fn write_report(content: &str, path: &str) -> (r: String)
    ensures
        r@ == "wrote "@ + decimal(crate::message::clamp(byte_len(content@)) as nat) + " bytes to "@ + path@,
{
    let n = byte_count(chars_of(content).as_slice());
    let mut v = chars_of("wrote ");
    push_decimal(&mut v, n as u64);
    push_str(&mut v, " bytes to ");
    push_str(&mut v, path);
    string_of(v.as_slice())
}

/// What `use_skill` returns: the skill's instructions, or why there are none.
pub fn use_skill_result(registry: Option<&SkillRegistry>, name: &str) -> (r: Result<String, String>)
    ensures
        match registry {
            None => r matches Err(m) && m@ == "skill system not initialized"@,
            Some(reg) => match first_named(reg.skills@, name@, 0) {
                Some(i) => r matches Ok(c) && c@ == reg.skills@[i].content@,
                None => r matches Err(m) && m@ == "skill '"@ + name@ + "' not found"@,
            },
        },
{
    match registry {
        Some(reg) => match reg.load_content(name) {
            Some(c) => Ok(c),
            None => {
                let mut m = chars_of("skill '");
                push_str(&mut m, name);
                push_str(&mut m, "' not found");
                Err(string_of(m.as_slice()))
            },
        },
        None => err("skill system not initialized"),
    }
}

// ------------------------------------------------------------------
// Searching
// ------------------------------------------------------------------

/// The tools' answer for a list of results: one per line, or `(no matches)`.
pub fn results_text(results: &Vec<String>) -> (r: String)
    ensures
        results@.len() == 0 ==> r@ == "(no matches)"@,
        results@.len() > 0 ==> r@ == join(results.deep_view(), "\n"@),
{
    if results.len() == 0 {
        "(no matches)".to_owned()
    } else {
        join_strings(results, "\n")
    }
}

/// `Path::parent` of a path given as text, as text: `None` for a root or
/// an empty path. A function of the text alone, for the path syntax of the
/// platform built for.
pub uninterp spec fn path_parent(p: Seq<char>) -> Option<Seq<char>>;

/// `Path::file_name` of a path given as text, as text: `None` when the path
/// ends in `..` or is a root. A function of the text alone, for the path
/// syntax of the platform built for.
pub uninterp spec fn path_file_name(p: Seq<char>) -> Option<Seq<char>>;

/// `std::path::Path::parent` (see `path_parent`).
#[verifier::external_body]
fn parent_of(p: &str) -> (r: Option<String>)
    ensures
        crate::reflect::opt_view(r) == path_parent(p@),
{
    std::path::Path::new(p).parent().map(|q| q.to_string_lossy().into_owned())
}

/// `std::path::Path::file_name` (see `path_file_name`).
#[verifier::external_body]
fn file_name_of(p: &str) -> (r: Option<String>)
    ensures
        crate::reflect::opt_view(r) == path_file_name(p@),
{
    std::path::Path::new(p).file_name().map(|q| q.to_string_lossy().into_owned())
}

/// Where `glob` looks for a pattern: the directory part (`.` when empty)
/// and the file name part (`*` when there is none); nothing when the
/// pattern has no directory part at all.
pub open spec fn glob_scope(pattern: Seq<char>) -> Option<(Seq<char>, Seq<char>)> {
    match path_parent(pattern) {
        None => None,
        Some(dir) => Some(
            (
                if dir.len() == 0 {
                    "."@
                } else {
                    dir
                },
                match path_file_name(pattern) {
                    Some(f) => f,
                    None => "*"@,
                },
            ),
        ),
    }
}

/// The directory to walk and the file name pattern of a `glob` call (see
/// `glob_scope`).
pub fn glob_split(pattern: &str) -> (r: Option<(String, String)>)
    ensures
        match r {
            Some((d, f)) => glob_scope(pattern@) == Some((d@, f@)),
            None => glob_scope(pattern@) is None,
        },
{
    match parent_of(pattern) {
        None => None,
        Some(dir) => {
            let file = match file_name_of(pattern) {
                Some(f) => f,
                None => "*".to_owned(),
            };
            let dir = if dir.as_str().is_empty() {
                ".".to_owned()
            } else {
                dir
            };
            Some((dir, file))
        },
    }
}

/// Takes one entry of the directory walk of `glob`: its path is added when
/// its file name matches the pattern and fewer than 200 results are found.
/// Returns whether the walk should go on.
pub fn glob_visit(
    results: &mut Vec<String>,
    pattern: &Option<GlobPattern>,
    file_name: Option<&str>,
    path: &str,
) -> (go_on: bool)
    ensures
        old(results)@.len() <= 200 ==> final(results)@.len() <= 200,
        old(results)@.len() >= 200 ==> !go_on && final(results)@ == old(results)@,
        old(results)@.len() < 200 ==> go_on && ({
            let hit = pattern matches Some(p) && file_name matches Some(n) && glob_matches(
                p.source(),
                n@,
            );
            &&& hit ==> final(results)@.len() == old(results)@.len() + 1 && final(results)@.drop_last()
                == old(results)@ && final(results)@.last()@ == path@
            &&& !hit ==> final(results)@ == old(results)@
        }),
{
    if results.len() >= 200 {
        return false;
    }
    match pattern {
        Some(p) => match file_name {
            Some(n) => {
                if p.matches(n) {
                    results.push(path.to_owned());
                    assert(results@.drop_last() =~= old(results)@);
                }
            },
            None => {},
        },
        None => {},
    }
    true
}

/// Whether grep reads a file: always without a glob filter; else only
/// when the filter matches its path. An invalid filter is an error.
pub fn grep_accepts_path(glob_filter: &str, path: &str) -> (r: Result<bool, String>)
    ensures
        glob_filter@.len() == 0 ==> r == Ok::<bool, String>(true),
        glob_filter@.len() > 0 && !glob_valid(glob_filter@) ==> (r matches Err(m) && m@
            == "invalid glob"@),
        glob_filter@.len() > 0 && glob_valid(glob_filter@) ==> r == Ok::<bool, String>(
            glob_matches(glob_filter@, path@),
        ),
{
    if glob_filter.is_empty() {
        return Ok(true);
    }
    match GlobPattern::new(glob_filter) {
        Some(g) => Ok(g.matches(path)),
        None => Err("invalid glob".to_owned()),
    }
}

/// A grep hit: path, line number, line.
pub open spec fn grep_line(path: Seq<char>, line_no: nat, line: Seq<char>) -> Seq<char> {
    path + ":"@ + decimal(line_no) + ":"@ + line
}

/// The hits in the lines of a file from line `i` on, while fewer than
/// `room` hits are found.
pub open spec fn grep_hits(
    pattern: Seq<char>,
    path: Seq<char>,
    ls: Seq<Seq<char>>,
    i: int,
    room: nat,
) -> Seq<Seq<char>>
    decreases ls.len() - i, room,
{
    if i < 0 || i >= ls.len() || room == 0 {
        Seq::empty()
    } else if regex_matches(pattern, ls[i]) {
        seq![grep_line(path, (i + 1) as nat, ls[i])] + grep_hits(pattern, path, ls, i + 1, (room - 1) as nat)
    } else {
        grep_hits(pattern, path, ls, i + 1, room)
    }
}

/// A search never gives more hits than it has room for.
pub proof fn law_grep_hits_capped(
    pattern: Seq<char>,
    path: Seq<char>,
    ls: Seq<Seq<char>>,
    i: int,
    room: nat,
)
    ensures
        grep_hits(pattern, path, ls, i, room).len() <= room,
    decreases ls.len() - i, room,
{
    if i < 0 || i >= ls.len() || room == 0 {
    } else if regex_matches(pattern, ls[i]) {
        law_grep_hits_capped(pattern, path, ls, i + 1, (room - 1) as nat);
    } else {
        law_grep_hits_capped(pattern, path, ls, i + 1, room);
    }
}

/// Searches the bytes of one file: binary files are skipped; otherwise
/// each matching line is added as `path:line:text` while fewer than 200
/// hits are found.
pub fn grep_file(regex: &TextRegex, path: &str, data: &[u8], matches: &mut Vec<String>)
    requires
        old(matches)@.len() <= 200,
    ensures
        binary_file(data@) ==> final(matches)@ == old(matches)@,
        !binary_file(data@) ==> final(matches).deep_view() == old(matches).deep_view() + grep_hits(
            regex.source(),
            path@,
            lines(lossy_utf8(data@)),
            0,
            (200 - old(matches)@.len()) as nat,
        ),
{
    if _is_binary(data) {
        return;
    }
    let text = chars_of(utf8_lossy(data).as_str());
    let ls = split_lines(text.as_slice());
    let ghost dv = ls.deep_view();
    let ghost start = old(matches).deep_view();
    let ghost room0 = (200 - old(matches)@.len()) as nat;
    let mut i: usize = 0;
    while i < ls.len() && matches.len() < 200
        invariant
            dv == ls.deep_view(),
            i <= ls@.len(),
            matches@.len() <= 200,
            start.len() <= matches@.len(),
            grep_hits(regex.source(), path@, dv, 0, room0) == matches.deep_view().skip(
                start.len() as int,
            ) + grep_hits(regex.source(), path@, dv, i as int, (200 - matches@.len()) as nat),
            matches.deep_view().take(start.len() as int) == start,
        decreases ls@.len() - i,
    {
        let line = string_of(ls[i].as_slice());
        assert(dv[i as int] == line@);
        let ghost room = (200 - matches@.len()) as nat;
        if regex.is_match(line.as_str()) {
            let mut v = chars_of(path);
            push_str(&mut v, ":");
            push_decimal(&mut v, (i as u64) + 1);
            push_str(&mut v, ":");
            push_str(&mut v, line.as_str());
            let ghost before = *matches;
            let hit = string_of(v.as_slice());
            let ghost hv = hit;
            matches.push(hit);
            proof {
                crate::text::lemma_deep_push_string(before, *matches, hv);
                assert(matches.deep_view().skip(start.len() as int) =~= before.deep_view().skip(
                    start.len() as int,
                ).push(hv@));
                assert(matches.deep_view().take(start.len() as int) =~= before.deep_view().take(
                    start.len() as int,
                ));
            }
        }
        i = i + 1;
    }
    proof {
        assert(grep_hits(regex.source(), path@, dv, i as int, (200 - matches@.len()) as nat)
            =~= Seq::<Seq<char>>::empty());
    }
    assert(matches.deep_view() =~= start + matches.deep_view().skip(start.len() as int));
}

} // verus!
