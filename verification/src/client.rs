//! The chat API's streaming protocol: server-sent event lines, the events
//! they carry, partial tool calls assembled across chunks, and the errors
//! that HTTP statuses stand for.
use vstd::prelude::*;
use crate::error::RelayError;
use crate::reflect::opt_view;
use crate::json::{
    as_text, as_unsigned, element, field, get_member, json_value, member, parse_json_value, text_of,
    unsigned_of, JsonValue,
};
use crate::text::{
    chars_of, find_chars, lemma_find_from_bounds, find, push_all, push_str, slice_chars,
    starts_with, starts_with_str, str_eq, string_of, trim, trim_chars, trim_end_char,
    trim_end_char_exec,
};

verus! {

/// One event of a streamed reply.
#[derive(Debug, Clone)]
pub enum StreamEvent {
    Content(String),
    Reasoning(String),
    ToolCall { id: String, name: String, args: String },
    Usage { prompt_tokens: u32, completion_tokens: u32, total_tokens: u32 },
    Warning(String),
    Error(String),
}

/// A piece of a tool call in a chunk's delta: the fields present as text
/// (a field that is absent or not text is `None`).
#[derive(Debug, Clone)]
pub struct ToolCallDelta {
    pub index: Option<u64>,
    pub id: Option<String>,
    pub name: Option<String>,
    pub arguments: Option<String>,
}

/// Token counts of a chunk's `usage` object that has `prompt_tokens`; a
/// count that is not an unsigned integer is `None`.
#[derive(Debug, Clone)]
pub struct UsageInfo {
    pub prompt_tokens: Option<u64>,
    pub completion_tokens: Option<u64>,
    pub total_tokens: Option<u64>,
}

/// What the logic reads of one JSON chunk of the stream.
#[derive(Debug, Clone)]
pub struct SseChunk {
    /// The first choice has a `delta`.
    pub has_delta: bool,
    /// `delta.content`, when it is text.
    pub content: Option<String>,
    /// `delta.reasoning_content`, when it is text.
    pub reasoning: Option<String>,
    /// `delta.tool_calls`, when it is an array.
    pub tool_calls: Option<Vec<ToolCallDelta>>,
    /// `choices[0].finish_reason`, when it is text.
    pub finish_reason: Option<String>,
    /// `usage`, when it is an object with `prompt_tokens`.
    pub usage: Option<UsageInfo>,
}

/// The view of a tool call delta.
pub struct DeltaView {
    pub index: Option<u64>,
    pub id: Option<Seq<char>>,
    pub name: Option<Seq<char>>,
    pub arguments: Option<Seq<char>>,
}

/// The view of a delta.
pub open spec fn delta_view(d: ToolCallDelta) -> DeltaView {
    DeltaView { index: d.index, id: opt_view(d.id), name: opt_view(d.name), arguments: opt_view(d.arguments) }
}

/// The view of a chunk: what the logic reads of it.
pub struct ChunkView {
    pub has_delta: bool,
    pub content: Option<Seq<char>>,
    pub reasoning: Option<Seq<char>>,
    pub tool_calls: Option<Seq<DeltaView>>,
    pub finish_reason: Option<Seq<char>>,
    /// Prompt, completion and total tokens.
    pub usage: Option<(Option<u64>, Option<u64>, Option<u64>)>,
}

/// The view of a chunk.
pub open spec fn chunk_view(c: SseChunk) -> ChunkView {
    ChunkView {
        has_delta: c.has_delta,
        content: opt_view(c.content),
        reasoning: opt_view(c.reasoning),
        tool_calls: match c.tool_calls {
            Some(ds) => Some(ds@.map_values(|d: ToolCallDelta| delta_view(d))),
            None => None,
        },
        finish_reason: opt_view(c.finish_reason),
        usage: match c.usage {
            Some(u) => Some((u.prompt_tokens, u.completion_tokens, u.total_tokens)),
            None => None,
        },
    }
}

/// A tool call being assembled from deltas.
#[derive(Debug, Clone)]
pub struct PartialToolCall {
    pub index: u64,
    pub id: String,
    pub name: String,
    pub args: String,
}

/// The tool calls under assembly, in the order their first delta came.
pub struct PartialToolCalls {
    pub entries: Vec<PartialToolCall>,
}

/// The view of a partial call: index, id, name and arguments so far.
pub type PartialView = (u64, Seq<char>, Seq<char>, Seq<char>);

/// The view of a partial call.
pub open spec fn partial_view(p: PartialToolCall) -> PartialView {
    (p.index, p.id@, p.name@, p.args@)
}

/// The views of partial calls, in order.
pub open spec fn partials_view(ps: Seq<PartialToolCall>) -> Seq<PartialView> {
    ps.map_values(|p: PartialToolCall| partial_view(p))
}

/// Position of the first partial call with the given index.
pub open spec fn partial_pos(ps: Seq<PartialView>, index: u64, i: int) -> Option<int>
    decreases ps.len() - i,
{
    if i < 0 || i >= ps.len() {
        None
    } else if ps[i].0 == index {
        Some(i)
    } else {
        partial_pos(ps, index, i + 1)
    }
}

/// Text of an optional field; absent is empty.
pub open spec fn text_or_empty(o: Option<Seq<char>>) -> Seq<char> {
    match o {
        Some(s) => s,
        None => Seq::empty(),
    }
}

/// The partial calls after one delta: the call with the delta's index (0
/// when absent) is created empty if new; a non-empty id or name replaces
/// the stored one, non-empty arguments are appended.
pub open spec fn apply_delta(ps: Seq<PartialView>, d: DeltaView) -> Seq<PartialView> {
    let index = match d.index {
        Some(i) => i,
        None => 0,
    };
    let (base, pos) = match partial_pos(ps, index, 0) {
        Some(p) => (ps, p),
        None => (ps.push((index, Seq::empty(), Seq::empty(), Seq::empty())), ps.len() as int),
    };
    let cur = base[pos];
    let id = text_or_empty(d.id);
    let name = text_or_empty(d.name);
    let args = text_or_empty(d.arguments);
    base.update(
        pos,
        (
            cur.0,
            if id.len() > 0 {
                id
            } else {
                cur.1
            },
            if name.len() > 0 {
                name
            } else {
                cur.2
            },
            cur.3 + args,
        ),
    )
}

/// `partial_pos` finds a call with the index, the first from `i` on, or
/// there is none.
proof fn lemma_partial_pos(ps: Seq<PartialView>, index: u64, i: int)
    requires
        0 <= i,
    ensures
        match partial_pos(ps, index, i) {
            Some(p) => i <= p < ps.len() && ps[p].0 == index,
            None => forall|q: int| i <= q < ps.len() ==> ps[q].0 != index,
        },
    decreases ps.len() - i,
{
    if i < ps.len() && ps[i].0 != index {
        lemma_partial_pos(ps, index, i + 1);
    }
}

/// A delta touches only the call with its own index (0 when it has none):
/// every call with another index is left as it was, each call keeps its
/// index, and a call is added, with the delta's index, only when none had
/// it; the added or changed call keeps its text so far and gains the
/// delta's arguments.
pub proof fn law_delta_own_index(ps: Seq<PartialView>, d: DeltaView)
    ensures
        ({
            let j: u64 = match d.index {
                Some(i) => i,
                None => 0,
            };
            let r = apply_delta(ps, d);
            &&& r.len() == ps.len() || r.len() == ps.len() + 1
            &&& forall|q: int| 0 <= q < ps.len() && ps[q].0 != j ==> #[trigger] r[q] == ps[q]
            &&& forall|q: int| 0 <= q < ps.len() ==> #[trigger] r[q].0 == ps[q].0
            &&& r.len() == ps.len() + 1 ==> r.last().0 == j && (forall|q: int|
                0 <= q < ps.len() ==> #[trigger] ps[q].0 != j)
            &&& exists|q: int| 0 <= q < r.len() && #[trigger] r[q].0 == j
        }),
{
    let j: u64 = match d.index {
        Some(i) => i,
        None => 0,
    };
    lemma_partial_pos(ps, j, 0);
    let r = apply_delta(ps, d);
    match partial_pos(ps, j, 0) {
        Some(p) => {
            assert(r[p].0 == j);
        },
        None => {
            assert(r[ps.len() as int].0 == j);
        },
    }
}

/// The partial calls after a sequence of deltas.
pub open spec fn apply_deltas(ps: Seq<PartialView>, ds: Seq<DeltaView>) -> Seq<PartialView>
    decreases ds.len(),
{
    if ds.len() == 0 {
        ps
    } else {
        apply_delta(apply_deltas(ps, ds.drop_last()), ds.last())
    }
}

/// What one chunk turns into.
pub enum SseOutcome {
    /// The chunk is not JSON.
    ParseError,
    /// Nothing to report.
    Nothing,
    Content(Seq<char>),
    Reasoning(Seq<char>),
    /// A completed tool call: id, name and arguments.
    ToolCall(Seq<char>, Seq<char>, Seq<char>),
    Truncated,
    Usage(u32, u32, u32),
}

/// A count of the usage object, as the `u32` it is cast to.
pub open spec fn usage_count(o: Option<u64>) -> u32 {
    match o {
        Some(n) => n as u32,
        None => 0,
    }
}

/// The partial calls after a chunk, before a completed call is flushed.
pub open spec fn chunk_partials(c: ChunkView, ps: Seq<PartialView>) -> Seq<PartialView> {
    if c.has_delta && !(c.content matches Some(t) && t.len() > 0) && !(c.reasoning matches Some(
        t,
    ) && t.len() > 0) {
        match c.tool_calls {
            Some(ds) => apply_deltas(ps, ds),
            None => ps,
        }
    } else {
        ps
    }
}

/// What a chunk turns into, given the partial calls before it. The first of
/// these decides: no delta gives nothing; non-empty content; non-empty
/// reasoning; a `tool_calls` finish with calls under assembly gives the
/// first of them; a `length` finish warns of truncation; usage counts.
pub open spec fn chunk_outcome(c: ChunkView, ps: Seq<PartialView>) -> SseOutcome {
    if !c.has_delta {
        SseOutcome::Nothing
    } else if c.content matches Some(t) && t.len() > 0 {
        SseOutcome::Content(c.content->0)
    } else if c.reasoning matches Some(t) && t.len() > 0 {
        SseOutcome::Reasoning(c.reasoning->0)
    } else {
        let after = chunk_partials(c, ps);
        if c.finish_reason matches Some(f) && f == "tool_calls"@ && after.len() > 0 {
            SseOutcome::ToolCall(after[0].1, after[0].2, after[0].3)
        } else if c.finish_reason matches Some(f) && f == "length"@ {
            SseOutcome::Truncated
        } else {
            match c.usage {
                Some(u) => SseOutcome::Usage(
                    usage_count(u.0),
                    usage_count(u.1),
                    usage_count(u.2),
                ),
                None => SseOutcome::Nothing,
            }
        }
    }
}

/// Whether a result is what `outcome` describes for the chunk `data`.
pub open spec fn outcome_matches(
    r: Result<Option<StreamEvent>, RelayError>,
    outcome: SseOutcome,
    data: Seq<char>,
    parse_error: Seq<char>,
) -> bool {
    match outcome {
        SseOutcome::ParseError => r matches Err(RelayError::Api { status, message, body })
            && status == 0 && message@ == "parse SSE: "@ + parse_error && (body matches Some(b)
            && b@ == data),
        SseOutcome::Nothing => r matches Ok(None),
        SseOutcome::Content(t) => r matches Ok(Some(StreamEvent::Content(x))) && x@ == t,
        SseOutcome::Reasoning(t) => r matches Ok(Some(StreamEvent::Reasoning(x))) && x@ == t,
        SseOutcome::ToolCall(i, n, a) => r matches Ok(Some(StreamEvent::ToolCall { id, name, args }))
            && id@ == i && name@ == n && args@ == a,
        SseOutcome::Truncated => r matches Ok(Some(StreamEvent::Warning(x))) && x@
            == "response truncated (max_tokens)"@,
        SseOutcome::Usage(p, c, t) => r matches Ok(
            Some(StreamEvent::Usage { prompt_tokens, completion_tokens, total_tokens }),
        ) && prompt_tokens == p && completion_tokens == c && total_tokens == t,
    }
}

impl PartialToolCalls {
    /// No calls under assembly.
    pub fn new() -> (r: Self)
        ensures
            r.entries@.len() == 0,
    {
        PartialToolCalls { entries: Vec::new() }
    }

    fn position(&self, index: u64) -> (r: Option<usize>)
        ensures
            match r {
                Some(i) => partial_pos(partials_view(self.entries@), index, 0) == Some(i as int)
                    && i < self.entries@.len(),
                None => partial_pos(partials_view(self.entries@), index, 0) is None,
            },
    {
        let ghost pv = partials_view(self.entries@);
        let mut i: usize = 0;
        while i < self.entries.len()
            invariant
                pv == partials_view(self.entries@),
                i <= self.entries@.len(),
                partial_pos(pv, index, 0) == partial_pos(pv, index, i as int),
            decreases self.entries@.len() - i,
        {
            if self.entries[i].index == index {
                return Some(i);
            }
            i = i + 1;
        }
        None
    }

    /// Applies one tool call delta (see `apply_delta`).
    pub fn apply(&mut self, d: &ToolCallDelta)
        ensures
            partials_view(final(self).entries@) == apply_delta(
                partials_view(old(self).entries@),
                delta_view(*d),
            ),
    {
        let index = match d.index {
            Some(i) => i,
            None => 0,
        };
        let ghost ps = partials_view(old(self).entries@);
        let pos = match self.position(index) {
            Some(p) => p,
            None => {
                self.entries.push(
                    PartialToolCall {
                        index,
                        id: String::new(),
                        name: String::new(),
                        args: String::new(),
                    },
                );
                assert(partials_view(self.entries@) =~= ps.push(
                    (index, Seq::empty(), Seq::empty(), Seq::empty()),
                ));
                self.entries.len() - 1
            },
        };
        let ghost base = partials_view(self.entries@);
        let mut cur = self.entries.remove(pos);
        match &d.id {
            Some(s) => {
                if !s.as_str().is_empty() {
                    cur.id = s.clone();
                }
            },
            None => {},
        }
        match &d.name {
            Some(s) => {
                if !s.as_str().is_empty() {
                    cur.name = s.clone();
                }
            },
            None => {},
        }
        let mut args = chars_of(cur.args.as_str());
        match &d.arguments {
            Some(s) => push_str(&mut args, s.as_str()),
            None => {},
        }
        cur.args = string_of(args.as_slice());
        self.entries.insert(pos, cur);
        proof {
            reveal_strlit("");
            let cv = base[pos as int];
            assert(cur.args@ == cv.3 + text_or_empty(opt_view(d.arguments)));
        }
        assert(partials_view(self.entries@) =~= apply_delta(ps, delta_view(*d)));
    }

    /// Applies the deltas of a chunk in order.
    pub fn apply_all(&mut self, ds: &Vec<ToolCallDelta>)
        ensures
            partials_view(final(self).entries@) == apply_deltas(
                partials_view(old(self).entries@),
                ds@.map_values(|d: ToolCallDelta| delta_view(d)),
            ),
    {
        let ghost dv = ds@.map_values(|d: ToolCallDelta| delta_view(d));
        let mut i: usize = 0;
        while i < ds.len()
            invariant
                i <= ds@.len(),
                dv == ds@.map_values(|d: ToolCallDelta| delta_view(d)),
                partials_view(self.entries@) == apply_deltas(
                    partials_view(old(self).entries@),
                    dv.take(i as int),
                ),
            decreases ds@.len() - i,
        {
            proof {
                assert(dv.take(i + 1).drop_last() =~= dv.take(i as int));
                assert(dv.take(i + 1).last() == delta_view(ds@[i as int]));
            }
            self.apply(&ds[i]);
            i = i + 1;
        }
        assert(dv.take(ds@.len() as int) =~= dv);
    }
}

/// The first choice of a chunk: `json["choices"].as_array()` and its first
/// element.
pub open spec fn first_choice(v: JsonValue) -> Option<JsonValue> {
    match field(v, "choices"@) {
        JsonValue::Array(a) => if a@.len() > 0 {
            Some(a@[0])
        } else {
            None
        },
        _ => None,
    }
}

/// A tool call delta read from its JSON: `index`, `id`, `function.name`
/// and `function.arguments`.
pub open spec fn json_delta(tc: JsonValue) -> DeltaView {
    DeltaView {
        index: as_unsigned(field(tc, "index"@)),
        id: as_text(field(tc, "id"@)),
        name: as_text(field(field(tc, "function"@), "name"@)),
        arguments: as_text(field(field(tc, "function"@), "arguments"@)),
    }
}

/// What the logic reads of a chunk's JSON: the first choice's `delta`
/// (its `content`, `reasoning_content` and `tool_calls`), the first
/// choice's `finish_reason`, and a `usage` object that has
/// `prompt_tokens`.
pub open spec fn json_chunk(v: JsonValue) -> ChunkView {
    let delta = match first_choice(v) {
        Some(c) => member(c, "delta"@),
        None => None,
    };
    ChunkView {
        has_delta: delta is Some,
        content: match delta {
            Some(d) => as_text(field(d, "content"@)),
            None => None,
        },
        reasoning: match delta {
            Some(d) => as_text(field(d, "reasoning_content"@)),
            None => None,
        },
        tool_calls: match delta {
            Some(d) => match field(d, "tool_calls"@) {
                JsonValue::Array(a) => Some(
                    Seq::new(a@.len(), |i: int| json_delta(a@[i])),
                ),
                _ => None,
            },
            None => None,
        },
        finish_reason: as_text(field(element(field(v, "choices"@), 0), "finish_reason"@)),
        usage: match member(v, "usage"@) {
            Some(u) => if member(u, "prompt_tokens"@) is Some {
                Some(
                    (
                        as_unsigned(field(u, "prompt_tokens"@)),
                        as_unsigned(field(u, "completion_tokens"@)),
                        as_unsigned(field(u, "total_tokens"@)),
                    ),
                )
            } else {
                None
            },
            None => None,
        },
    }
}

/// `value[key].as_str()`.
fn field_text(v: &JsonValue, key: &str) -> (r: Option<String>)
    ensures
        opt_view(r) == as_text(field(*v, key@)),
{
    match get_member(v, key) {
        Some(x) => text_of(x),
        None => None,
    }
}

/// `value[key].as_u64()`.
fn field_unsigned(v: &JsonValue, key: &str) -> (r: Option<u64>)
    ensures
        r == as_unsigned(field(*v, key@)),
{
    match get_member(v, key) {
        Some(x) => unsigned_of(x),
        None => None,
    }
}

/// `value["function"][key].as_str()`.
fn function_text(tc: &JsonValue, key: &str) -> (r: Option<String>)
    ensures
        opt_view(r) == as_text(field(field(*tc, "function"@), key@)),
{
    match get_member(tc, "function") {
        Some(f) => field_text(f, key),
        None => None,
    }
}

/// A tool call delta read from its JSON (see `json_delta`).
fn delta_of(tc: &JsonValue) -> (d: ToolCallDelta)
    ensures
        delta_view(d) == json_delta(*tc),
{
    ToolCallDelta {
        index: field_unsigned(tc, "index"),
        id: field_text(tc, "id"),
        name: function_text(tc, "name"),
        arguments: function_text(tc, "arguments"),
    }
}

/// The tool call deltas of an array, in order.
fn deltas_of(a: &Vec<JsonValue>) -> (r: Vec<ToolCallDelta>)
    ensures
        r@.map_values(|d: ToolCallDelta| delta_view(d)) == Seq::new(
            a@.len(),
            |i: int| json_delta(a@[i]),
        ),
{
    let mut r: Vec<ToolCallDelta> = Vec::new();
    let mut i: usize = 0;
    while i < a.len()
        invariant
            i <= a@.len(),
            r@.len() == i,
            forall|j: int| 0 <= j < i ==> delta_view(#[trigger] r@[j]) == json_delta(a@[j]),
        decreases a@.len() - i,
    {
        r.push(delta_of(&a[i]));
        i = i + 1;
    }
    assert(r@.map_values(|d: ToolCallDelta| delta_view(d)) =~= Seq::new(
        a@.len(),
        |i: int| json_delta(a@[i]),
    ));
    r
}

/// Reads a chunk's JSON (see `json_chunk`).
pub fn sse_chunk_of(v: &JsonValue) -> (c: SseChunk)
    ensures
        chunk_view(c) == json_chunk(*v),
{
    let choices = get_member(v, "choices");
    let first: Option<&JsonValue> = match choices {
        Some(JsonValue::Array(a)) => if a.len() > 0 {
            Some(&a[0])
        } else {
            None
        },
        _ => None,
    };
    let delta = match first {
        Some(c) => get_member(c, "delta"),
        None => None,
    };
    let (content, reasoning, tool_calls) = match delta {
        Some(d) => {
            let tool_calls = match get_member(d, "tool_calls") {
                Some(JsonValue::Array(a)) => Some(deltas_of(a)),
                _ => None,
            };
            (field_text(d, "content"), field_text(d, "reasoning_content"), tool_calls)
        },
        None => (None, None, None),
    };
    let finish_reason = match first {
        Some(c) => field_text(c, "finish_reason"),
        None => None,
    };
    let usage = match get_member(v, "usage") {
        Some(u) => if get_member(u, "prompt_tokens").is_some() {
            Some(
                UsageInfo {
                    prompt_tokens: field_unsigned(u, "prompt_tokens"),
                    completion_tokens: field_unsigned(u, "completion_tokens"),
                    total_tokens: field_unsigned(u, "total_tokens"),
                },
            )
        } else {
            None
        },
        None => None,
    };
    let c = SseChunk { has_delta: delta.is_some(), content, reasoning, tool_calls, finish_reason, usage };
    assert(chunk_view(c) =~= json_chunk(*v));
    c
}

/// The event, if any, that one data line of the stream gives: the line is
/// read as JSON (see `json_value`), then its chunk (see `json_chunk`) as
/// `chunk_outcome` says. A line that is not JSON is an error that carries
/// it. A completed tool call leaves the assembly empty.
pub fn parse_sse_event(data: &str, partials: &mut PartialToolCalls) -> (r: Result<
    Option<StreamEvent>,
    RelayError,
>)
    ensures
        match json_value(data@) {
            Err(e) => outcome_matches(r, SseOutcome::ParseError, data@, e)
                && final(partials).entries@ == old(partials).entries@,
            Ok(v) => {
                let c = json_chunk(v);
                let outcome = chunk_outcome(c, partials_view(old(partials).entries@));
                let after = chunk_partials(c, partials_view(old(partials).entries@));
                &&& outcome_matches(r, outcome, data@, Seq::empty())
                &&& partials_view(final(partials).entries@) == if outcome is ToolCall {
                    Seq::empty()
                } else {
                    after
                }
            },
        },
{
    match parse_json_value(data) {
        Err(e) => {
            let mut m: Vec<char> = Vec::new();
            push_str(&mut m, "parse SSE: ");
            push_str(&mut m, e.as_str());
            Err(
                RelayError::Api {
                    status: 0,
                    message: string_of(m.as_slice()),
                    body: Some(data.to_owned()),
                },
            )
        },
        Ok(v) => chunk_event(sse_chunk_of(&v), partials),
    }
}

/// The event, if any, of one chunk (see `chunk_outcome`). A completed tool
/// call leaves the assembly empty.
fn chunk_event(chunk: SseChunk, partials: &mut PartialToolCalls) -> (r: Result<
    Option<StreamEvent>,
    RelayError,
>)
    ensures
        ({
            let c = chunk_view(chunk);
            let outcome = chunk_outcome(c, partials_view(old(partials).entries@));
            let after = chunk_partials(c, partials_view(old(partials).entries@));
            &&& outcome_matches(r, outcome, Seq::empty(), Seq::empty())
            &&& !(outcome is ParseError)
            &&& partials_view(final(partials).entries@) == if outcome is ToolCall {
                Seq::empty()
            } else {
                after
            }
        }),
{
    let ghost ps = partials_view(partials.entries@);
    if !chunk.has_delta {
        return Ok(None);
    }
    match &chunk.content {
        Some(t) => {
            if !t.as_str().is_empty() {
                return Ok(Some(StreamEvent::Content(t.clone())));
            }
        },
        None => {},
    }
    match &chunk.reasoning {
        Some(t) => {
            if !t.as_str().is_empty() {
                return Ok(Some(StreamEvent::Reasoning(t.clone())));
            }
        },
        None => {},
    }
    match &chunk.tool_calls {
        Some(ds) => partials.apply_all(ds),
        None => {},
    }
    assert(partials_view(partials.entries@) == chunk_partials(chunk_view(chunk), ps));
    match &chunk.finish_reason {
        Some(f) => {
            if str_eq(f.as_str(), "tool_calls") && partials.entries.len() > 0 {
                let first = partials.entries.remove(0);
                partials.entries.clear();
                assert(partials_view(partials.entries@) =~= Seq::<PartialView>::empty());
                return Ok(
                    Some(StreamEvent::ToolCall { id: first.id, name: first.name, args: first.args }),
                );
            }
            if str_eq(f.as_str(), "length") {
                return Ok(Some(StreamEvent::Warning("response truncated (max_tokens)".to_owned())));
            }
        },
        None => {},
    }
    match &chunk.usage {
        Some(u) => {
            let p = match u.prompt_tokens {
                Some(n) => n as u32,
                None => 0,
            };
            let c = match u.completion_tokens {
                Some(n) => n as u32,
                None => 0,
            };
            let t = match u.total_tokens {
                Some(n) => n as u32,
                None => 0,
            };
            Ok(Some(StreamEvent::Usage { prompt_tokens: p, completion_tokens: c, total_tokens: t }))
        },
        None => Ok(None),
    }
}

// ------------------------------------------------------------------
// Lines of the event stream
// ------------------------------------------------------------------

/// What one complete line of the stream is.
#[derive(Debug, Clone)]
pub enum SseLine {
    /// Empty, or not a `data:` line.
    Skip,
    /// `data: [DONE]`: the stream is over.
    Done,
    /// The text after `data:`, trimmed.
    Data(String),
}

/// What a line (already trimmed) is.
pub open spec fn line_kind(line: Seq<char>) -> (bool, bool, Seq<char>) {
    if line.len() == 0 || !starts_with(line, "data:"@) {
        (true, false, Seq::empty())
    } else if trim(line.skip(5)) == "[DONE]"@ {
        (false, true, Seq::empty())
    } else {
        (false, false, trim(line.skip(5)))
    }
}

/// Text received from the stream and not yet split into lines.
pub struct SseBuffer {
    pub buffer: Vec<char>,
}

impl SseBuffer {
    /// An empty buffer.
    pub fn new() -> (r: Self)
        ensures
            r.buffer@.len() == 0,
    {
        SseBuffer { buffer: Vec::new() }
    }

    /// Appends received text.
    pub fn push_text(&mut self, text: &str)
        ensures
            final(self).buffer@ == old(self).buffer@ + text@,
    {
        push_str(&mut self.buffer, text);
    }

    /// Takes the first complete line out of the buffer and says what it is;
    /// `None` while no line is complete.
    pub fn next_line(&mut self) -> (r: Option<SseLine>)
        ensures
            match find(old(self).buffer@, seq!['\n']) {
                None => r is None && final(self).buffer@ == old(self).buffer@,
                Some(i) => {
                    let line = trim(old(self).buffer@.take(i));
                    let k = line_kind(line);
                    &&& final(self).buffer@ == old(self).buffer@.skip(i + 1)
                    &&& r matches Some(l) && (k.0 <==> l is Skip) && (k.1 <==> l is Done) && (
                    l matches SseLine::Data(d) ==> d@ == k.2)
                },
            },
    {
        let nl: Vec<char> = vec!['\n'];
        assert(nl@ =~= seq!['\n']);
        let i = match find_chars(self.buffer.as_slice(), nl.as_slice(), 0) {
            Some(i) => i,
            None => return None,
        };
        proof {
            lemma_find_from_bounds(self.buffer@, seq!['\n'], 0);
        }
        let blen = self.buffer.len();
        assert(i < blen);
        let line = trim_chars(slice_chars(self.buffer.as_slice(), 0, i).as_slice());
        let rest = slice_chars(self.buffer.as_slice(), i + 1, self.buffer.len());
        assert(self.buffer@.subrange(0, i as int) =~= self.buffer@.take(i as int));
        assert(rest@ =~= self.buffer@.skip(i + 1));
        self.buffer = rest;
        proof {
            reveal_strlit("data:");
        }
        if line.len() == 0 || !starts_with_str(line.as_slice(), "data:") {
            return Some(SseLine::Skip);
        }
        let data = trim_chars(slice_chars(line.as_slice(), 5, line.len()).as_slice());
        assert(line@.subrange(5, line@.len() as int) =~= line@.skip(5));
        let data_s = string_of(data.as_slice());
        if str_eq(data_s.as_str(), "[DONE]") {
            Some(SseLine::Done)
        } else {
            Some(SseLine::Data(data_s))
        }
    }
}

// ------------------------------------------------------------------
// Requests and statuses
// ------------------------------------------------------------------

/// The endpoint of chat completions under `base_url`.
pub fn chat_completions_url(base_url: &str) -> (r: String)
    ensures
        r@ == trim_end_char(base_url@, '/') + "/chat/completions"@,
{
    let mut v = trim_end_char_exec(chars_of(base_url).as_slice(), '/');
    push_str(&mut v, "/chat/completions");
    string_of(v.as_slice())
}

/// The `Authorization` header value for an API key.
pub fn bearer_header(api_key: &str) -> (r: String)
    ensures
        r@ == "Bearer "@ + api_key@,
{
    let mut v = chars_of("Bearer ");
    push_str(&mut v, api_key);
    string_of(v.as_slice())
}

/// Whether an HTTP status is a success (2xx).
pub fn is_success(status: u16) -> (r: bool)
    ensures
        r == (200 <= status && status <= 299),
{
    200 <= status && status <= 299
}

/// The error a streaming request fails with for its status, when the status
/// decides it without the body: 401 and 429.
pub fn stream_status_error(status: u16) -> (r: Option<RelayError>)
    ensures
        status == 401 ==> (r matches Some(RelayError::Auth(m)) && m@ == "invalid API key"@),
        status == 429 ==> (r matches Some(RelayError::RateLimit(m)) && m@ == "rate limited"@),
        status != 401 && status != 429 ==> r is None,
{
    if status == 401 {
        Some(RelayError::Auth("invalid API key".to_owned()))
    } else if status == 429 {
        Some(RelayError::RateLimit("rate limited".to_owned()))
    } else {
        None
    }
}

/// A failed status with the response body.
pub fn api_error(status: u16, body: String) -> (r: RelayError)
    ensures
        r matches RelayError::Api { status: s, message, body: b } && s == status && message@
            == "API error"@ && b == Some(body),
{
    RelayError::Api { status, message: "API error".to_owned(), body: Some(body) }
}

/// The error of a failed non-streaming request: 401 is an authentication
/// failure, 429 a rate limit carrying the body, others an API error.
pub fn completion_status_error(status: u16, body: String) -> (r: RelayError)
    ensures
        status == 401 ==> (r matches RelayError::Auth(m) && m@ == "invalid API key"@),
        status == 429 ==> r == RelayError::RateLimit(body),
        status != 401 && status != 429 ==> (r matches RelayError::Api { status: s, message, body: b }
            && s == status && message@ == "API error"@ && b == Some(body)),
{
    if status == 401 {
        RelayError::Auth("invalid API key".to_owned())
    } else if status == 429 {
        RelayError::RateLimit(body)
    } else {
        api_error(status, body)
    }
}

/// The error of a request that could not be sent.
pub fn network_error(timed_out: bool, text: String) -> (r: RelayError)
    ensures
        timed_out ==> (r matches RelayError::Network(m) && m@ == "request timed out"@),
        !timed_out ==> r == RelayError::Network(text),
{
    if timed_out {
        RelayError::Network("request timed out".to_owned())
    } else {
        RelayError::Network(text)
    }
}

/// Whether a failed request is worth another try: the network failed, the
/// server asked to slow down, or it failed on its side (5xx).
pub open spec fn retryable(e: RelayError) -> bool {
    match e {
        RelayError::Network(_) => true,
        RelayError::RateLimit(_) => true,
        RelayError::Api { status, .. } => status >= 500,
        _ => false,
    }
}

/// Whether to send a request again after it failed on try `attempt`
/// (counted from 0), with `max_attempts` tries in all (see `retryable`).
pub fn should_retry(error: &RelayError, attempt: u32, max_attempts: u32) -> (r: bool)
    ensures
        r == (retryable(*error) && attempt + 1 < max_attempts),
{
    let again = match error {
        RelayError::Network(_) => true,
        RelayError::RateLimit(_) => true,
        RelayError::Api { status, .. } => *status >= 500,
        _ => false,
    };
    again && attempt < max_attempts && attempt + 1 < max_attempts
}

} // verus!
