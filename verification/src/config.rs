//! Agent configuration: the settings that the library's logic reads.
use vstd::prelude::*;
use crate::error::RelayError;
use crate::text::{
    chars_of, contains, find, find_chars, lemma_find_from_bounds, lines, push_all, push_str,
    slice_chars, split_lines, starts_with, starts_with_chars, str_eq, string_of, trim, trim_char,
    trim_char_exec, trim_chars, starts_with_str,
};

use crate::tools::{args_view, json_object, lookup, lookup_exec, parse_json_object, ArgValue, ArgView};

verus! {

/// Settings of the agent. The timing settings that are fractions of a
/// second (retry delays, request and shell timeouts) are kept by the
/// program around the library, which is the only part that waits.
#[derive(Debug, Clone)]
pub struct Config {
    pub api_key: String,
    pub base_url: String,
    pub model: String,
    pub max_tokens: u32,
    pub max_context_tokens: u32,
    pub context_safety_margin: u32,
    pub max_tool_turns: u32,
    pub retry_max_attempts: u32,
    pub max_tool_output: usize,
    pub max_stderr_output: usize,
    pub default_mode: String,
    pub avatar_size: u32,
    pub anti_stuck_enabled: bool,
    pub reflect_after_failures: u32,
    pub max_failures_before_hard_stop: u32,
    pub compress_tool_history: bool,
    pub memory_enabled: bool,
    pub memory_root: String,
    pub skill_enabled: bool,
    pub skill_dirs: Vec<String>,
    pub dual_agent: bool,
    pub supervisor_model: String,
    pub supervisor_max_turns: u32,
    pub enter_sends: bool,
    pub log_level: String,
}

impl Config {
    /// The documented defaults.
    pub open spec fn is_default(&self) -> bool {
        &&& self.api_key@ == Seq::<char>::empty()
        &&& self.base_url@ == "https://api.deepseek.com"@
        &&& self.model@ == "deepseek-chat"@
        &&& self.rest_default()
    }

    /// The documented defaults of all settings but key, URL and model.
    pub open spec fn rest_default(&self) -> bool {
        &&& self.max_tokens == 16384
        &&& self.max_context_tokens == 128_000
        &&& self.context_safety_margin == 4000
        &&& self.max_tool_turns == 20
        &&& self.retry_max_attempts == 3
        &&& self.max_tool_output == 50_000
        &&& self.max_stderr_output == 10_000
        &&& self.default_mode@ == "auto"@
        &&& self.avatar_size == 3
        &&& self.anti_stuck_enabled
        &&& self.reflect_after_failures == 2
        &&& self.max_failures_before_hard_stop == 4
        &&& self.compress_tool_history
        &&& self.memory_enabled
        &&& self.memory_root@ == "auto"@
        &&& self.skill_enabled
        &&& self.skill_dirs@.len() == 1
        &&& self.skill_dirs@[0]@ == "~/.relay/skills"@
        &&& !self.dual_agent
        &&& self.supervisor_model@ == Seq::<char>::empty()
        &&& self.supervisor_max_turns == 3
        &&& self.enter_sends
        &&& self.log_level@ == "WARNING"@
    }
}

impl Default for Config {
    fn default() -> (c: Self)
        ensures
            c.is_default(),
    {
        Config {
            api_key: String::new(),
            base_url: "https://api.deepseek.com".to_owned(),
            model: "deepseek-chat".to_owned(),
            max_tokens: 16384,
            max_context_tokens: 128_000,
            context_safety_margin: 4000,
            max_tool_turns: 20,
            retry_max_attempts: 3,
            max_tool_output: 50_000,
            max_stderr_output: 10_000,
            default_mode: "auto".to_owned(),
            avatar_size: 3,
            anti_stuck_enabled: true,
            reflect_after_failures: 2,
            max_failures_before_hard_stop: 4,
            compress_tool_history: true,
            memory_enabled: true,
            memory_root: "auto".to_owned(),
            skill_enabled: true,
            skill_dirs: vec!["~/.relay/skills".to_owned()],
            dual_agent: false,
            supervisor_model: String::new(),
            supervisor_max_turns: 3,
            enter_sends: true,
            log_level: "WARNING".to_owned(),
        }
    }
}

// ------------------------------------------------------------------
// `key = "value"` files
// ------------------------------------------------------------------

/// The key and value a line assigns: comments (`#`), section headers (`[`)
/// and lines without `=` assign nothing; the value loses its surrounding
/// spaces and double quotes.
pub open spec fn toml_assignment(line: Seq<char>) -> Option<(Seq<char>, Seq<char>)> {
    let l = trim(line);
    if starts_with(l, "#"@) || starts_with(l, "["@) || !contains(l, "="@) {
        None
    } else {
        let i = find(l, "="@)->0;
        Some((trim(l.take(i)), trim_char(trim(l.skip(i + 1)), '"')))
    }
}

/// The value of the last line that assigns `key`.
pub open spec fn last_assignment(ls: Seq<Seq<char>>, key: Seq<char>) -> Option<Seq<char>>
    decreases ls.len(),
{
    if ls.len() == 0 {
        None
    } else {
        match toml_assignment(ls.last()) {
            Some((k, v)) => if k == key {
                Some(v)
            } else {
                last_assignment(ls.drop_last(), key)
            },
            None => last_assignment(ls.drop_last(), key),
        }
    }
}

/// `v` if present, else `d`.
pub open spec fn or_default(v: Option<Seq<char>>, d: Seq<char>) -> Seq<char> {
    match v {
        Some(x) => x,
        None => d,
    }
}

/// The assignment of a line (see `toml_assignment`).
pub fn parse_assignment(line: &[char]) -> (r: Option<(String, String)>)
    ensures
        match r {
            Some((k, v)) => toml_assignment(line@) == Some((k@, v@)),
            None => toml_assignment(line@) is None,
        },
{
    let l = trim_chars(line);
    let eq: Vec<char> = vec!['='];
    proof {
        reveal_strlit("=");
        assert(eq@ =~= "="@);
    }
    if starts_with_str(l.as_slice(), "#") || starts_with_str(l.as_slice(), "[") {
        return None;
    }
    let i = match find_chars(l.as_slice(), eq.as_slice(), 0) {
        Some(i) => i,
        None => return None,
    };
    proof {
        lemma_find_from_bounds(l@, "="@, 0);
    }
    let key = trim_chars(slice_chars(l.as_slice(), 0, i).as_slice());
    let rest = slice_chars(l.as_slice(), i + 1, l.len());
    let val = trim_char_exec(trim_chars(rest.as_slice()).as_slice(), '"');
    assert(l@.subrange(0, i as int) =~= l@.take(i as int));
    assert(rest@ =~= l@.skip(i + 1));
    Some((string_of(key.as_slice()), string_of(val.as_slice())))
}

/// The default settings with `api_key`, `base_url` and `model` taken from the
/// last lines of `ls` that assign them.
pub open spec fn toml_config(c: Config, ls: Seq<Seq<char>>) -> bool {
    &&& c.api_key@ == or_default(last_assignment(ls, "api_key"@), Seq::empty())
    &&& c.base_url@ == or_default(last_assignment(ls, "base_url"@), "https://api.deepseek.com"@)
    &&& c.model@ == or_default(last_assignment(ls, "model"@), "deepseek-chat"@)
    &&& c.rest_default()
}

/// `last_assignment` over one more line: that line's assignment of the key, if any, wins.
pub proof fn lemma_last_assignment_step(ls: Seq<Seq<char>>, i: int, key: Seq<char>)
    requires
        0 <= i < ls.len(),
    ensures
        last_assignment(ls.take(i + 1), key) == match toml_assignment(ls[i]) {
            Some((k, v)) => if k == key {
                Some(v)
            } else {
                last_assignment(ls.take(i), key)
            },
            None => last_assignment(ls.take(i), key),
        },
{
    assert(ls.take(i + 1).drop_last() =~= ls.take(i));
    assert(ls.take(i + 1).last() == ls[i]);
}

/// The value that the last line of `ls` assigning `key` gives, or `default`.
fn assigned_value(ls: &Vec<Vec<char>>, key: &str, default: &str) -> (r: String)
    ensures
        r@ == or_default(last_assignment(ls.deep_view(), key@), default@),
{
    let ghost dv = ls.deep_view();
    let mut val = default.to_owned();
    let mut i: usize = 0;
    while i < ls.len()
        invariant
            dv == ls.deep_view(),
            i <= ls@.len(),
            val@ == or_default(last_assignment(dv.take(i as int), key@), default@),
        decreases ls@.len() - i,
    {
        proof {
            lemma_last_assignment_step(dv, i as int, key@);
            assert(dv[i as int] == ls@[i as int]@);
        }
        match parse_assignment(ls[i].as_slice()) {
            Some((k, v)) => {
                if str_eq(k.as_str(), key) {
                    val = v;
                }
            },
            None => {},
        }
        i = i + 1;
    }
    assert(dv.take(ls@.len() as int) =~= dv);
    val
}

/// Settings read from a `~/.deepseek/config.toml`: the defaults, with the
/// key, URL and model that the file assigns.
pub fn toml_config_fallback(data: &str) -> (cfg: Config)
    ensures
        toml_config(cfg, lines(data@)),
{
    let ls = split_lines(chars_of(data).as_slice());
    let api_key = assigned_value(&ls, "api_key", "");
    let base_url = assigned_value(&ls, "base_url", "https://api.deepseek.com");
    let model = assigned_value(&ls, "model", "deepseek-chat");
    let d = Config::default();
    proof {
        reveal_strlit("");
        assert(""@ =~= Seq::<char>::empty());
    }
    let cfg = Config { api_key, base_url, model, ..d };
    assert(cfg.rest_default());
    assert(cfg.api_key@ == or_default(last_assignment(lines(data@), "api_key"@), Seq::empty()));
    cfg
}

/// The key/value pairs a `config.toml` gives for `api_key`, `base_url` and
/// `model`, in that order, for those it assigns.
pub open spec fn toml_import(ls: Seq<Seq<char>>) -> Seq<(Seq<char>, Seq<char>)> {
    let pick = |key: Seq<char>|
        match last_assignment(ls, key) {
            Some(v) => seq![(key, v)],
            None => Seq::<(Seq<char>, Seq<char>)>::empty(),
        };
    pick("api_key"@) + pick("base_url"@) + pick("model"@)
}

/// The view of a key/value pair.
pub open spec fn pair_view(p: (String, String)) -> (Seq<char>, Seq<char>) {
    (p.0@, p.1@)
}

/// The settings that a `config.toml` of another tool provides (see `toml_import`).
pub fn import_toml_config(data: &str) -> (r: Vec<(String, String)>)
    ensures
        r@.map_values(|p: (String, String)| pair_view(p)) == toml_import(lines(data@)),
{
    let ls = split_lines(chars_of(data).as_slice());
    let api_key = assigned_value(&ls, "api_key", "");
    let base_url = assigned_value(&ls, "base_url", "");
    let model = assigned_value(&ls, "model", "");
    let found_key = last_assigned(&ls, "api_key");
    let found_url = last_assigned(&ls, "base_url");
    let found_model = last_assigned(&ls, "model");
    let mut r: Vec<(String, String)> = Vec::new();
    let ghost ld = lines(data@);
    if found_key {
        r.push(("api_key".to_owned(), api_key));
    }
    let ghost r1 = r@;
    if found_url {
        r.push(("base_url".to_owned(), base_url));
    }
    let ghost r2 = r@;
    if found_model {
        r.push(("model".to_owned(), model));
    }
    assert(r@.map_values(|p: (String, String)| pair_view(p)) =~= toml_import(ld));
    r
}

/// The settings that a JSON settings file of another tool provides: the
/// text members `api_key`, `base_url` and `model`, in that order, for those
/// it has; nothing when the text is not a JSON object.
pub open spec fn json_import(text: Seq<char>) -> Seq<(Seq<char>, Seq<char>)> {
    match json_object(text) {
        Err(_) => Seq::empty(),
        Ok(args) => {
            let pick = |key: Seq<char>|
                match lookup(args, key, 0) {
                    Some(ArgView::Text(v)) => seq![(key, v)],
                    _ => Seq::<(Seq<char>, Seq<char>)>::empty(),
                };
            pick("api_key"@) + pick("base_url"@) + pick("model"@)
        },
    }
}

/// Adds `(key, value)` when the text member `key` is present.
fn pick_text(args: &Vec<(String, ArgValue)>, key: &str, r: &mut Vec<(String, String)>)
    ensures
        match lookup(args_view(args@), key@, 0) {
            Some(ArgView::Text(v)) => final(r)@.len() == old(r)@.len() + 1 && final(r)@.drop_last()
                == old(r)@ && pair_view(final(r)@.last()) == (key@, v),
            _ => final(r)@ == old(r)@,
        },
{
    match lookup_exec(args, key) {
        Some(ArgValue::Text(v)) => {
            r.push((key.to_owned(), v.clone()));
            assert(r@.drop_last() =~= old(r)@);
        },
        _ => {},
    }
}

/// The settings that a JSON settings file provides (see `json_import`).
pub fn import_json_config(data: &str) -> (r: Vec<(String, String)>)
    ensures
        r@.map_values(|p: (String, String)| pair_view(p)) == json_import(data@),
{
    let mut r: Vec<(String, String)> = Vec::new();
    match parse_json_object(data) {
        Err(_) => {
            assert(r@.map_values(|p: (String, String)| pair_view(p)) =~= json_import(data@));
        },
        Ok(args) => {
            pick_text(&args, "api_key", &mut r);
            let ghost r1 = r@;
            pick_text(&args, "base_url", &mut r);
            let ghost r2 = r@;
            pick_text(&args, "model", &mut r);
            assert(r@.map_values(|p: (String, String)| pair_view(p)) =~= json_import(data@));
        },
    }
    r
}

/// `import_config`: the settings another tool's file provides, given its
/// path and its text (none when it could not be read): a `config.toml` is
/// read as TOML, anything else as JSON.
pub fn import_config(path: &str, content: Option<&str>) -> (r: Vec<(String, String)>)
    ensures
        r@.map_values(|p: (String, String)| pair_view(p)) == match content {
            None => Seq::empty(),
            Some(d) => if contains(path@, "config.toml"@) {
                toml_import(lines(d@))
            } else {
                json_import(d@)
            },
        },
{
    match content {
        None => {
            let r: Vec<(String, String)> = Vec::new();
            assert(r@.map_values(|p: (String, String)| pair_view(p)) =~= Seq::empty());
            r
        },
        Some(d) => {
            let pv = chars_of(path);
            let tv = chars_of("config.toml");
            if find_chars(pv.as_slice(), tv.as_slice(), 0).is_some() {
                import_toml_config(d)
            } else {
                import_json_config(d)
            }
        },
    }
}

/// Whether some line of `ls` assigns `key`.
fn last_assigned(ls: &Vec<Vec<char>>, key: &str) -> (r: bool)
    ensures
        r == (last_assignment(ls.deep_view(), key@) is Some),
{
    let ghost dv = ls.deep_view();
    let mut found = false;
    let mut i: usize = 0;
    while i < ls.len()
        invariant
            dv == ls.deep_view(),
            i <= ls@.len(),
            found == (last_assignment(dv.take(i as int), key@) is Some),
        decreases ls@.len() - i,
    {
        proof {
            lemma_last_assignment_step(dv, i as int, key@);
            assert(dv[i as int] == ls@[i as int]@);
        }
        match parse_assignment(ls[i].as_slice()) {
            Some((k, _)) => {
                if str_eq(k.as_str(), key) {
                    found = true;
                }
            },
            None => {},
        }
        i = i + 1;
    }
    assert(dv.take(ls@.len() as int) =~= dv);
    found
}

// ------------------------------------------------------------------
// Paths and environment overrides
// ------------------------------------------------------------------

/// `dirs::home_dir`: the user's home directory, as text. It depends on the
/// environment and the platform, so nothing is stated of it.
#[verifier::external_body]
fn home_dir() -> Option<String> {
    match dirs::home_dir() {
        Some(h) => Some(format!("{}", h.display())),
        None => None,
    }
}

/// `p` with a leading `~` replaced by the home directory, when there is one.
pub open spec fn expanded(p: Seq<char>, home: Option<Seq<char>>) -> Seq<char> {
    if starts_with(p, "~"@) && home is Some {
        home->0 + p.skip(1)
    } else {
        p
    }
}

/// `p` with a leading `~` replaced by `home`, when given.
pub fn expand_path_with(p: &str, home: Option<String>) -> (r: String)
    ensures
        r@ == expanded(
            p@,
            match home {
                Some(h) => Some(h@),
                None => None,
            },
        ),
{
    let v = chars_of(p);
    proof {
        reveal_strlit("~");
    }
    match home {
        Some(h) => {
            if starts_with_str(v.as_slice(), "~") {
                let mut out = chars_of(h.as_str());
                let rest = slice_chars(v.as_slice(), 1, v.len());
                push_all(&mut out, rest.as_slice());
                return string_of(out.as_slice());
            }
            p.to_owned()
        },
        None => p.to_owned(),
    }
}

/// `p` with a leading `~` replaced by the user's home directory.
pub fn expand_path(p: &str) -> (r: String)
    ensures
        exists|home: Option<Seq<char>>| r@ == expanded(p@, home),
{
    let home = home_dir();
    let ghost hv = crate::reflect::opt_view(home);
    let r = expand_path_with(p, home);
    assert(r@ == expanded(p@, hv));
    r
}

/// Where the settings live: `~/.relay/settings.json`.
pub fn settings_path() -> (r: String)
    ensures
        exists|home: Option<Seq<char>>| r@ == expanded("~/.relay/settings.json"@, home),
{
    expand_path("~/.relay/settings.json")
}

/// The older configuration read when there are no settings: `~/.deepseek/config.toml`.
pub fn toml_fallback_path() -> (r: String)
    ensures
        exists|home: Option<Seq<char>>| r@ == expanded("~/.deepseek/config.toml"@, home),
{
    expand_path("~/.deepseek/config.toml")
}

/// The message when no API key is configured.
pub open spec fn missing_key_message() -> Seq<char> {
    "API key not configured. Set DEEPSEEK_API_KEY or run first-time setup."@
}

/// Applies the `DEEPSEEK_API_KEY`, `DEEPSEEK_BASE_URL` and `DEEPSEEK_MODEL`
/// overrides and refuses settings without an API key.
pub fn finalize_config(
    cfg: Config,
    env_api_key: Option<String>,
    env_base_url: Option<String>,
    env_model: Option<String>,
) -> (r: Result<Config, RelayError>)
    ensures
        ({
            let key = match env_api_key {
                Some(k) => k@,
                None => cfg.api_key@,
            };
            match r {
                Ok(c) => key.len() > 0 && c.api_key@ == key && c.base_url@ == (match env_base_url {
                    Some(u) => u@,
                    None => cfg.base_url@,
                }) && c.model@ == (match env_model {
                    Some(m) => m@,
                    None => cfg.model@,
                }) && Config { api_key: cfg.api_key, base_url: cfg.base_url, model: cfg.model, ..c }
                    == cfg,
                Err(e) => key.len() == 0 && (e matches RelayError::Config(m) && m@
                    == missing_key_message()),
            }
        }),
{
    let mut cfg = cfg;
    match env_api_key {
        Some(k) => cfg.api_key = k,
        None => {},
    }
    match env_base_url {
        Some(u) => cfg.base_url = u,
        None => {},
    }
    match env_model {
        Some(m) => cfg.model = m,
        None => {},
    }
    if cfg.api_key.as_str().is_empty() {
        return Err(
            RelayError::Config(
                "API key not configured. Set DEEPSEEK_API_KEY or run first-time setup.".to_owned(),
            ),
        );
    }
    Ok(cfg)
}

} // verus!
