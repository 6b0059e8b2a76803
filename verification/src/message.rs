//! Conversation messages and the session that holds them: token
//! estimation, context trimming and compression of tool history.
use vstd::prelude::*;
use crate::config::Config;
use crate::text::{chars_of, decimal, join, push_decimal, push_str, string_of};

verus! {

/// One message of the conversation, in the roles of the chat API.
#[derive(Debug, Clone)]
pub enum Message {
    System { content: String },
    User { content: String },
    Assistant {
        content: Option<String>,
        reasoning_content: Option<String>,
        tool_calls: Option<Vec<ToolCall>>,
    },
    Tool { tool_call_id: String, content: String },
}

/// A tool call requested by the model.
#[derive(Debug, Clone)]
pub struct ToolCall {
    pub id: String,
    pub type_: String,
    pub function: ToolCallFunction,
}

/// Name and JSON arguments of a requested tool call.
#[derive(Debug, Clone)]
pub struct ToolCallFunction {
    pub name: String,
    pub arguments: String,
}

// ------------------------------------------------------------------
// Token estimation
// ------------------------------------------------------------------

/// Estimated tokens of one piece of text: characters / 4.5, plus a fixed
/// overhead of 4.
pub open spec fn text_tokens(s: Seq<char>) -> nat {
    s.len() * 2 / 9 + 4
}

/// Estimated tokens of an optional text; nothing costs nothing.
pub open spec fn opt_tokens(o: Option<String>) -> nat {
    match o {
        Some(c) => text_tokens(c@),
        None => 0,
    }
}

/// Estimated tokens of the names and arguments of tool calls.
pub open spec fn calls_tokens(tcs: Seq<ToolCall>) -> nat
    decreases tcs.len(),
{
    if tcs.len() == 0 {
        0
    } else {
        calls_tokens(tcs.drop_last()) + text_tokens(tcs.last().function.name@) + text_tokens(
            tcs.last().function.arguments@,
        )
    }
}

/// Estimated tokens of one message; a tool result costs 10 more.
pub open spec fn message_tokens(m: Message) -> nat {
    match m {
        Message::System { content } => text_tokens(content@),
        Message::User { content } => text_tokens(content@),
        Message::Assistant { content, reasoning_content, tool_calls } => opt_tokens(content)
            + opt_tokens(reasoning_content) + match tool_calls {
            Some(v) => calls_tokens(v@),
            None => 0,
        },
        Message::Tool { content, .. } => text_tokens(content@) + 10,
    }
}

/// Estimated tokens of a conversation.
pub open spec fn total_tokens(ms: Seq<Message>) -> nat
    decreases ms.len(),
{
    if ms.len() == 0 {
        0
    } else {
        total_tokens(ms.drop_last()) + message_tokens(ms.last())
    }
}

/// A count as a `usize`, saturating at `usize::MAX`.
pub open spec fn clamp(n: nat) -> usize {
    if n <= usize::MAX {
        n as usize
    } else {
        usize::MAX
    }
}

fn sat_add(a: usize, b: usize) -> (r: usize)
    ensures
        r == clamp((a + b) as nat),
{
    a.saturating_add(b)
}

/// Saturating addition of saturated counts is the saturated sum.
pub proof fn lemma_clamp_add(x: nat, y: nat)
    ensures
        clamp((clamp(x) + clamp(y)) as nat) == clamp(x + y),
{
}

/// Estimated tokens of a piece of text.
pub fn text_token_count(s: &str) -> (r: usize)
    ensures
        r == text_tokens(s@),
{
    let n = chars_of(s).len();
    let q = n / 9;
    let rem = n % 9;
    proof {
        assert(n == 9 * q + rem) by (nonlinear_arith)
            requires
                q == n / 9,
                rem == n % 9,
        ;
        assert((n * 2) / 9 == 2 * q + (2 * rem) / 9) by (nonlinear_arith)
            requires
                n == 9 * q + rem,
                rem < 9,
        ;
        assert(2 * q <= usize::MAX / 4) by (nonlinear_arith)
            requires
                q == n / 9,
                n <= usize::MAX,
        ;
    }
    2 * q + (2 * rem) / 9 + 4
}

fn opt_token_count(o: &Option<String>) -> (r: usize)
    ensures
        r == clamp(opt_tokens(*o)),
{
    match o {
        Some(c) => text_token_count(c.as_str()),
        None => 0,
    }
}

fn calls_token_count(tcs: &Vec<ToolCall>) -> (r: usize)
    ensures
        r == clamp(calls_tokens(tcs@)),
{
    let mut total: usize = 0;
    let mut i: usize = 0;
    while i < tcs.len()
        invariant
            i <= tcs@.len(),
            total == clamp(calls_tokens(tcs@.take(i as int))),
        decreases tcs@.len() - i,
    {
        let tc = &tcs[i];
        let a = text_token_count(tc.function.name.as_str());
        let b = text_token_count(tc.function.arguments.as_str());
        proof {
            assert(tcs@.take(i + 1).drop_last() =~= tcs@.take(i as int));
            lemma_clamp_add(calls_tokens(tcs@.take(i as int)), text_tokens(tc.function.name@));
            lemma_clamp_add(
                calls_tokens(tcs@.take(i as int)) + text_tokens(tc.function.name@),
                text_tokens(tc.function.arguments@),
            );
        }
        total = sat_add(sat_add(total, a), b);
        i = i + 1;
    }
    assert(tcs@.take(tcs@.len() as int) =~= tcs@);
    total
}

/// Estimated tokens of one message.
pub fn message_token_count(m: &Message) -> (r: usize)
    ensures
        r == clamp(message_tokens(*m)),
{
    match m {
        Message::System { content } => text_token_count(content.as_str()),
        Message::User { content } => text_token_count(content.as_str()),
        Message::Assistant { content, reasoning_content, tool_calls } => {
            let a = opt_token_count(content);
            let b = opt_token_count(reasoning_content);
            let c = match tool_calls {
                Some(v) => calls_token_count(v),
                None => 0,
            };
            proof {
                let x = opt_tokens(*content);
                let y = opt_tokens(*reasoning_content);
                let z: nat = match tool_calls {
                    Some(v) => calls_tokens(v@),
                    None => 0,
                };
                lemma_clamp_add(x, y);
                lemma_clamp_add(x + y, z);
            }
            sat_add(sat_add(a, b), c)
        },
        Message::Tool { content, .. } => sat_add(text_token_count(content.as_str()), 10),
    }
}

// ------------------------------------------------------------------
// Positions and rewritings of a conversation
// ------------------------------------------------------------------

/// Position of the last user message among the first `n`.
pub open spec fn last_user_before(ms: Seq<Message>, n: int) -> Option<int>
    decreases n,
{
    if n <= 0 {
        None
    } else if ms[n - 1] is User {
        Some(n - 1)
    } else {
        last_user_before(ms, n - 1)
    }
}

/// Position of the last user message.
pub open spec fn last_user(ms: Seq<Message>) -> Option<int> {
    last_user_before(ms, ms.len() as int)
}

/// The messages without tool results.
pub open spec fn drop_tools(ms: Seq<Message>) -> Seq<Message>
    decreases ms.len(),
{
    if ms.len() == 0 {
        ms
    } else if ms.last() is Tool {
        drop_tools(ms.drop_last())
    } else {
        drop_tools(ms.drop_last()).push(ms.last())
    }
}

/// Drop the second message while the estimate (saturating at `usize::MAX`)
/// exceeds `max` and more than four messages remain.
pub open spec fn trim_front(ms: Seq<Message>, max: nat) -> Seq<Message>
    decreases ms.len(),
{
    if clamp(total_tokens(ms)) > max && ms.len() > 4 {
        trim_front(ms.remove(1), max)
    } else {
        ms
    }
}

/// The conversation made to fit `max` tokens: tool results before the last
/// user message go first, then the oldest messages after the first.
pub open spec fn fit_context(ms: Seq<Message>, max: nat) -> Seq<Message> {
    if clamp(total_tokens(ms)) <= max {
        ms
    } else {
        let kept = match last_user(ms) {
            Some(p) => drop_tools(ms.take(p)) + ms.skip(p),
            None => ms,
        };
        trim_front(kept, max)
    }
}

/// An assistant message that requests tools.
pub open spec fn is_call(m: Message) -> bool {
    m matches Message::Assistant { tool_calls: Some(_), .. }
}

/// A tool call followed by its result starts at `i`.
pub open spec fn pair_at(ms: Seq<Message>, i: int) -> bool {
    0 <= i && i + 1 < ms.len() && is_call(ms[i]) && ms[i + 1] is Tool
}

/// Number of consecutive call/result pairs starting at `i`.
pub open spec fn run_len(ms: Seq<Message>, i: int) -> nat
    decreases ms.len() - i,
{
    if pair_at(ms, i) {
        1 + run_len(ms, i + 2)
    } else {
        0
    }
}

/// Start of the first run of more than three pairs, scanning from `i`; after
/// a shorter run the scan resumes one message past its end.
pub open spec fn first_long_run(ms: Seq<Message>, i: int) -> Option<int>
    decreases ms.len() + 1 - i,
{
    if i < 0 || i + 1 >= ms.len() {
        None
    } else if pair_at(ms, i) {
        if run_len(ms, i) > 3 {
            Some(i)
        } else {
            proof {
                lemma_run_len_bound(ms, i);
            }
            first_long_run(ms, i + 2 * run_len(ms, i) + 1)
        }
    } else {
        first_long_run(ms, i + 1)
    }
}

/// Name of the first tool a message calls, if any.
pub open spec fn first_call_name(m: Message) -> Seq<Seq<char>> {
    match m {
        Message::Assistant { tool_calls: Some(tcs), .. } => if tcs@.len() > 0 {
            seq![tcs@[0].function.name@]
        } else {
            Seq::empty()
        },
        _ => Seq::empty(),
    }
}

/// Names of the first calls of the `count` pairs starting at `start`.
pub open spec fn run_names(ms: Seq<Message>, start: int, count: nat) -> Seq<Seq<char>>
    decreases count,
{
    if count == 0 {
        Seq::empty()
    } else {
        run_names(ms, start, (count - 1) as nat) + first_call_name(ms[start + 2 * (count - 1)])
    }
}

/// Text of the summary that replaces `count` pairs.
pub open spec fn summary_text(names: Seq<Seq<char>>, count: nat) -> Seq<char> {
    "[summary: previously attempted "@ + decimal(count) + " tool calls: "@ + join(names, ", "@)
        + "]"@
}

/// The summary message of `count` pairs starting at `start`.
pub open spec fn summary_message(m: Message, ms: Seq<Message>, start: int, count: nat) -> bool {
    m matches Message::System { content } && content@ == summary_text(
        run_names(ms, start, count),
        count,
    )
}

/// Whether `after` is `before` with its tool history compressed: the first
/// run of more than three call/result pairs keeps its last two pairs, and
/// the pairs before them give way to one summary message.
pub open spec fn compressed(before: Seq<Message>, after: Seq<Message>) -> bool {
    match first_long_run(before, 0) {
        None => after == before,
        Some(s) => {
            let n = run_len(before, s);
            let end = s + 2 * (n - 2);
            &&& after.len() == before.len() - 2 * (n - 2) + 1
            &&& after.take(s) == before.take(s)
            &&& summary_message(after[s], before, s, (n - 2) as nat)
            &&& after.skip(s + 1) == before.skip(end)
        },
    }
}

// ------------------------------------------------------------------
// Lemmas
// ------------------------------------------------------------------

/// Adding a message raises the estimate of a conversation by exactly that
/// message's estimate.
pub proof fn law_tokens_add_up(ms: Seq<Message>, m: Message)
    ensures
        total_tokens(ms.push(m)) == total_tokens(ms) + message_tokens(m),
{
    assert(ms.push(m).drop_last() =~= ms);
}

/// The least estimate a message can have: 4 for a system or user message,
/// 14 for a tool result, nothing for an assistant message.
pub open spec fn least_tokens(m: Message) -> nat {
    match m {
        Message::System { .. } => 4,
        Message::User { .. } => 4,
        Message::Assistant { .. } => 0,
        Message::Tool { .. } => 14,
    }
}

/// The least estimate of a conversation: 4 per system or user message, 14
/// per tool result.
pub open spec fn least_total(ms: Seq<Message>) -> nat
    decreases ms.len(),
{
    if ms.len() == 0 {
        0
    } else {
        least_total(ms.drop_last()) + least_tokens(ms.last())
    }
}

/// Adding a message never lowers the estimate: it rises by at least 4 for a
/// system or user message and by at least 14 for a tool result; the
/// saturated count the session reports never falls either.
pub proof fn law_tokens_grow(ms: Seq<Message>, m: Message)
    ensures
        total_tokens(ms.push(m)) >= total_tokens(ms) + least_tokens(m),
        clamp(total_tokens(ms.push(m))) >= clamp(total_tokens(ms)),
{
    law_tokens_add_up(ms, m);
}

/// A conversation is estimated at no less than 4 tokens per system or user
/// message and 14 per tool result.
pub proof fn law_tokens_at_least(ms: Seq<Message>)
    ensures
        total_tokens(ms) >= least_total(ms),
    decreases ms.len(),
{
    if ms.len() > 0 {
        law_tokens_at_least(ms.drop_last());
        law_tokens_grow(ms.drop_last(), ms.last());
        assert(ms.drop_last().push(ms.last()) =~= ms);
    }
}

/// The position `last_user_before` gives is a user message with none after it.
pub proof fn lemma_last_user_before_bounds(ms: Seq<Message>, n: int)
    requires
        0 <= n <= ms.len(),
    ensures
        match last_user_before(ms, n) {
            Some(k) => 0 <= k < n && ms[k] is User && forall|j: int| k < j < n ==> !(ms[j] is User),
            None => forall|j: int| 0 <= j < n ==> !(ms[j] is User),
        },
    decreases n,
{
    if n > 0 && !(ms[n - 1] is User) {
        lemma_last_user_before_bounds(ms, n - 1);
    }
}

/// Every step of a run of length `n` starts a call/result pair.
pub proof fn lemma_run_len_pairs(ms: Seq<Message>, i: int, k: int)
    requires
        0 <= k < run_len(ms, i),
    ensures
        pair_at(ms, i + 2 * k),
        run_len(ms, i) == k + run_len(ms, i + 2 * k),
    decreases k,
{
    if k > 0 {
        lemma_run_len_pairs(ms, i + 2, k - 1);
    }
}

/// A run of pairs fits in the conversation.
pub proof fn lemma_run_len_bound(ms: Seq<Message>, i: int)
    requires
        0 <= i <= ms.len(),
    ensures
        i + 2 * run_len(ms, i) <= ms.len(),
    decreases ms.len() - i,
{
    if pair_at(ms, i) {
        lemma_run_len_bound(ms, i + 2);
    }
}

/// What `first_long_run` finds starts a run of more than three pairs.
pub proof fn lemma_first_long_run_bounds(ms: Seq<Message>, i: int)
    requires
        0 <= i,
    ensures
        match first_long_run(ms, i) {
            Some(s) => i <= s && pair_at(ms, s) && run_len(ms, s) > 3,
            None => true,
        },
    decreases ms.len() + 1 - i,
{
    if i + 1 >= ms.len() {
    } else if pair_at(ms, i) {
        if run_len(ms, i) <= 3 {
            lemma_run_len_bound(ms, i);
            lemma_first_long_run_bounds(ms, i + 2 * run_len(ms, i) + 1);
        }
    } else {
        lemma_first_long_run_bounds(ms, i + 1);
    }
}

// ------------------------------------------------------------------
// Laws
// ------------------------------------------------------------------

proof fn lemma_trim_front_fits(ms: Seq<Message>, max: nat)
    ensures
        clamp(total_tokens(trim_front(ms, max))) <= max || trim_front(ms, max).len() <= 4,
    decreases ms.len(),
{
    if clamp(total_tokens(ms)) > max && ms.len() > 4 {
        lemma_trim_front_fits(ms.remove(1), max);
    }
}

proof fn lemma_trim_front_ends(ms: Seq<Message>, max: nat)
    requires
        ms.len() > 0,
    ensures
        trim_front(ms, max).len() > 0,
        trim_front(ms, max)[0] == ms[0],
        trim_front(ms, max).last() == ms.last(),
    decreases ms.len(),
{
    if clamp(total_tokens(ms)) > max && ms.len() > 4 {
        let r = ms.remove(1);
        assert(r[0] == ms[0]);
        assert(r.last() == ms.last());
        lemma_trim_front_ends(r, max);
    }
}

proof fn lemma_drop_tools_first(ms: Seq<Message>)
    requires
        ms.len() > 0,
        !(ms[0] is Tool),
    ensures
        drop_tools(ms).len() > 0,
        drop_tools(ms)[0] == ms[0],
    decreases ms.len(),
{
    if ms.len() == 1 {
        assert(ms.drop_last() =~= Seq::<Message>::empty());
        assert(drop_tools(ms.drop_last()) =~= Seq::<Message>::empty());
        assert(ms.last() == ms[0]);
    } else {
        assert(ms.drop_last()[0] == ms[0]);
        lemma_drop_tools_first(ms.drop_last());
    }
}

proof fn lemma_drop_tools_from(ms: Seq<Message>)
    ensures
        forall|i: int| 0 <= i < drop_tools(ms).len() ==> ms.contains(#[trigger] drop_tools(ms)[i]),
    decreases ms.len(),
{
    if ms.len() > 0 {
        let rest = ms.drop_last();
        lemma_drop_tools_from(rest);
        assert forall|i: int| 0 <= i < drop_tools(ms).len() implies ms.contains(
            #[trigger] drop_tools(ms)[i],
        ) by {
            if i < drop_tools(rest).len() {
                let k = choose|k: int| 0 <= k < rest.len() && rest[k] == drop_tools(rest)[i];
                assert(ms[k] == rest[k]);
            } else {
                assert(ms[ms.len() - 1] == ms.last());
            }
        }
    }
}

proof fn lemma_trim_front_from(ms: Seq<Message>, max: nat)
    ensures
        forall|i: int| 0 <= i < trim_front(ms, max).len() ==> ms.contains(#[trigger] trim_front(ms, max)[i]),
    decreases ms.len(),
{
    if clamp(total_tokens(ms)) > max && ms.len() > 4 {
        let r = ms.remove(1);
        lemma_trim_front_from(r, max);
        assert forall|i: int| 0 <= i < trim_front(ms, max).len() implies ms.contains(
            #[trigger] trim_front(ms, max)[i],
        ) by {
            let k = choose|k: int| 0 <= k < r.len() && r[k] == trim_front(r, max)[i];
            if k < 1 {
                assert(ms[k] == r[k]);
            } else {
                assert(ms[k + 1] == r[k]);
            }
        }
    }
}

/// Pruning only drops messages: every message it keeps was in the
/// conversation.
pub proof fn law_fit_context_only_drops(ms: Seq<Message>, max: nat)
    ensures
        forall|i: int| 0 <= i < fit_context(ms, max).len() ==> ms.contains(#[trigger] fit_context(ms, max)[i]),
{
    if clamp(total_tokens(ms)) > max {
        lemma_last_user_before_bounds(ms, ms.len() as int);
        let kept = match last_user(ms) {
            Some(p) => drop_tools(ms.take(p)) + ms.skip(p),
            None => ms,
        };
        assert forall|i: int| 0 <= i < kept.len() implies ms.contains(#[trigger] kept[i]) by {
            match last_user(ms) {
                Some(p) => {
                    let front = drop_tools(ms.take(p));
                    if i < front.len() {
                        lemma_drop_tools_from(ms.take(p));
                        let k = choose|k: int| 0 <= k < ms.take(p).len() && ms.take(p)[k] == front[i];
                        assert(ms[k] == ms.take(p)[k]);
                    } else {
                        assert(kept[i] == ms[p + i - front.len()]);
                    }
                },
                None => {},
            }
        }
        lemma_trim_front_from(kept, max);
        assert forall|i: int| 0 <= i < fit_context(ms, max).len() implies ms.contains(
            #[trigger] fit_context(ms, max)[i],
        ) by {
            let k = choose|k: int| 0 <= k < kept.len() && kept[k] == trim_front(kept, max)[i];
            assert(ms.contains(kept[k]));
        }
    }
}

/// Pruning leaves a conversation that fits the budget, unless four
/// messages or fewer are left.
pub proof fn law_fit_context_fits(ms: Seq<Message>, max: nat)
    ensures
        clamp(total_tokens(fit_context(ms, max))) <= max || fit_context(ms, max).len() <= 4,
{
    if clamp(total_tokens(ms)) > max {
        let kept = match last_user(ms) {
            Some(p) => drop_tools(ms.take(p)) + ms.skip(p),
            None => ms,
        };
        lemma_trim_front_fits(kept, max);
    }
}

/// Pruning keeps the first message, the system prompt, and the last one.
pub proof fn law_fit_context_keeps_ends(ms: Seq<Message>, max: nat)
    requires
        ms.len() > 0,
        !(ms[0] is Tool),
    ensures
        fit_context(ms, max).len() > 0,
        fit_context(ms, max)[0] == ms[0],
        fit_context(ms, max).last() == ms.last(),
{
    if clamp(total_tokens(ms)) > max {
        lemma_last_user_before_bounds(ms, ms.len() as int);
        let kept = match last_user(ms) {
            Some(p) => drop_tools(ms.take(p)) + ms.skip(p),
            None => ms,
        };
        match last_user(ms) {
            Some(p) => {
                let front = drop_tools(ms.take(p));
                if p > 0 {
                    assert(ms.take(p)[0] == ms[0]);
                    lemma_drop_tools_first(ms.take(p));
                    assert(kept[0] == front[0]);
                } else {
                    assert(ms.take(0) =~= Seq::<Message>::empty());
                    assert(front =~= Seq::<Message>::empty());
                    assert(kept[0] == ms.skip(0)[0]);
                }
                assert(kept.last() == ms.skip(p).last());
            },
            None => {},
        }
        lemma_trim_front_ends(kept, max);
    }
}

/// The conversation with the tool results before the last user message
/// left out.
pub open spec fn tools_pruned(ms: Seq<Message>) -> Seq<Message> {
    match last_user(ms) {
        Some(p) => drop_tools(ms.take(p)) + ms.skip(p),
        None => ms,
    }
}

/// Dropping the oldest messages after the first keeps the first message and
/// a suffix of the rest.
proof fn lemma_trim_front_suffix(ms: Seq<Message>, max: nat)
    requires
        ms.len() > 0,
    ensures
        1 <= trim_front(ms, max).len() <= ms.len(),
        trim_front(ms, max)[0] == ms[0],
        trim_front(ms, max).skip(1) == ms.skip(ms.len() - trim_front(ms, max).len() + 1),
    decreases ms.len(),
{
    if clamp(total_tokens(ms)) > max && ms.len() > 4 {
        let r = ms.remove(1);
        lemma_trim_front_suffix(r, max);
        let t = trim_front(r, max);
        assert(r[0] == ms[0]);
        let j = r.len() - t.len() + 1;
        assert(r.skip(j) =~= ms.skip(j + 1));
    } else {
        assert(ms.skip(1) =~= ms.skip(ms.len() - ms.len() + 1));
    }
}

/// Pruning keeps the most recent messages: after the first message, what
/// is left is a suffix of the conversation with old tool results left out,
/// so only the oldest messages after the system prompt are dropped.
pub proof fn law_fit_context_keeps_latest(ms: Seq<Message>, max: nat)
    requires
        ms.len() > 0,
    ensures
        ({
            let f = fit_context(ms, max);
            let kept = if clamp(total_tokens(ms)) <= max {
                ms
            } else {
                tools_pruned(ms)
            };
            &&& 1 <= f.len() <= kept.len()
            &&& f[0] == kept[0]
            &&& f.skip(1) == kept.skip(kept.len() - f.len() + 1)
        }),
{
    if clamp(total_tokens(ms)) <= max {
        assert(ms.skip(1) =~= ms.skip(ms.len() - ms.len() + 1));
    } else {
        lemma_last_user_before_bounds(ms, ms.len() as int);
        let kept = tools_pruned(ms);
        match last_user(ms) {
            Some(p) => {
                assert(kept.len() >= ms.skip(p).len());
            },
            None => {},
        }
        lemma_trim_front_suffix(kept, max);
    }
}

/// A short run is passed over without missing a later long one: no long
/// run starts inside it or at the message after it.
proof fn lemma_short_run_inside(ms: Seq<Message>, i: int, j: int)
    requires
        0 <= i,
        pair_at(ms, i),
        run_len(ms, i) <= 3,
        i < j <= i + 2 * run_len(ms, i),
    ensures
        run_len(ms, j) <= 3 && (j == i + 2 * run_len(ms, i) ==> run_len(ms, j) == 0),
{
    let n = run_len(ms, i);
    let d = j - i;
    if d % 2 == 0 {
        let k = d / 2;
        if k < n {
            lemma_run_len_pairs(ms, i, k);
        } else {
            lemma_run_len_pairs(ms, i, n - 1);
            assert(pair_at(ms, i + 2 * (n - 1)));
            assert(run_len(ms, i + 2 * (n - 1)) == 1 + run_len(ms, i + 2 * n));
        }
    } else {
        let k = (d - 1) / 2;
        lemma_run_len_pairs(ms, i, k);
        assert(ms[i + 2 * k + 1] is Tool);
        assert(!pair_at(ms, j));
    }
}

/// The scan from `i` finds a long run whenever one starts at or after `i`.
proof fn lemma_first_long_run_finds(ms: Seq<Message>, i: int, j: int)
    requires
        0 <= i <= j,
        run_len(ms, j) > 3,
    ensures
        first_long_run(ms, i) is Some,
    decreases ms.len() + 1 - i,
{
    assert(pair_at(ms, j));
    if i + 1 >= ms.len() {
    } else if pair_at(ms, i) {
        if run_len(ms, i) <= 3 {
            lemma_run_len_bound(ms, i);
            let next = i + 2 * run_len(ms, i) + 1;
            if j < next {
                if j == i {
                } else {
                    lemma_short_run_inside(ms, i, j);
                }
            } else {
                lemma_first_long_run_finds(ms, next, j);
            }
        }
    } else {
        if j > i {
            lemma_first_long_run_finds(ms, i + 1, j);
        }
    }
}

/// No run of more than three pairs starts between `i` and the run the scan
/// from `i` finds.
proof fn lemma_first_long_run_first(ms: Seq<Message>, i: int)
    requires
        0 <= i,
    ensures
        first_long_run(ms, i) matches Some(s) ==> forall|j: int| i <= j < s ==> #[trigger] run_len(ms, j) <= 3,
    decreases ms.len() + 1 - i,
{
    if i + 1 >= ms.len() {
    } else if pair_at(ms, i) {
        if run_len(ms, i) <= 3 {
            lemma_run_len_bound(ms, i);
            let next = i + 2 * run_len(ms, i) + 1;
            lemma_first_long_run_first(ms, next);
            assert forall|j: int| i < j < next implies #[trigger] run_len(ms, j) <= 3 by {
                lemma_short_run_inside(ms, i, j);
            }
        }
    } else {
        lemma_first_long_run_first(ms, i + 1);
    }
}

/// Compression works on the earliest run of more than three pairs: none
/// starts before the place where the summary goes.
pub proof fn law_compress_takes_first_run(before: Seq<Message>)
    ensures
        first_long_run(before, 0) matches Some(s) ==> run_len(before, s) > 3 && forall|j: int|
            0 <= j < s ==> #[trigger] run_len(before, j) <= 3,
{
    lemma_first_long_run_bounds(before, 0);
    lemma_first_long_run_first(before, 0);
}

/// Whenever the conversation holds a run of more than three call/result
/// pairs anywhere, compression finds a run to compress and the
/// conversation gets shorter.
pub proof fn law_long_run_compressed(before: Seq<Message>, after: Seq<Message>, j: int)
    requires
        0 <= j,
        run_len(before, j) > 3,
        compressed(before, after),
    ensures
        first_long_run(before, 0) is Some,
        after.len() < before.len(),
{
    lemma_first_long_run_finds(before, 0, j);
    law_compress_shrinks(before, after);
}

/// Compressing tool history never lengthens the conversation, and shortens
/// it whenever there is a run of more than three call/result pairs.
pub proof fn law_compress_shrinks(before: Seq<Message>, after: Seq<Message>)
    requires
        compressed(before, after),
    ensures
        after.len() <= before.len(),
        first_long_run(before, 0) is Some ==> after.len() + 3 <= before.len(),
{
    lemma_first_long_run_bounds(before, 0);
}

/// Dropping the last user message undoes adding it.
pub proof fn law_pop_undoes_add(ms: Seq<Message>, m: Message)
    requires
        m is User,
    ensures
        last_user(ms.push(m)) == Some(ms.len() as int),
        ms.push(m).take(ms.len() as int) == ms,
{
    assert(ms.push(m).take(ms.len() as int) =~= ms);
}

// ------------------------------------------------------------------
// The session
// ------------------------------------------------------------------

/// The conversation of one agent session.
pub struct Session {
    pub messages: Vec<Message>,
    pub system_prompt: String,
    pub max_tokens: usize,
}

impl Default for Session {
    fn default() -> (s: Self)
        ensures
            s.messages@.len() == 0,
            s.system_prompt@ == Seq::<char>::empty(),
            s.max_tokens == 128_000,
    {
        Session { messages: Vec::new(), system_prompt: String::new(), max_tokens: 128_000 }
    }
}

impl Session {
    /// A session that starts with the system prompt; its budget is the
    /// context size less the safety margin.
    pub fn new(cfg: &Config, system_prompt: &str) -> (s: Self)
        ensures
            s.messages@.len() == 1,
            s.messages@[0] matches Message::System { content } && content@ == system_prompt@,
            s.system_prompt@ == system_prompt@,
            s.max_tokens == (if cfg.max_context_tokens >= cfg.context_safety_margin {
                cfg.max_context_tokens - cfg.context_safety_margin
            } else {
                0
            }),
    {
        let max_tokens = cfg.max_context_tokens.saturating_sub(cfg.context_safety_margin) as usize;
        Session {
            messages: vec![Message::System { content: system_prompt.to_owned() }],
            system_prompt: system_prompt.to_owned(),
            max_tokens,
        }
    }

    /// The token budget.
    pub fn max_tokens(&self) -> (r: usize)
        ensures
            r == self.max_tokens,
    {
        self.max_tokens
    }

    /// Appends a user message.
    pub fn add_user_message(&mut self, content: &str)
        ensures
            final(self).messages@ == old(self).messages@.push(
                Message::User { content: final(self).messages@.last()->User_content },
            ),
            final(self).messages@.last()->User_content@ == content@,
            final(self).system_prompt == old(self).system_prompt,
            final(self).max_tokens == old(self).max_tokens,
            total_tokens(final(self).messages@) >= total_tokens(old(self).messages@) + 4,
    {
        self.messages.push(Message::User { content: content.to_owned() });
        proof {
            law_tokens_grow(old(self).messages@, self.messages@.last());
        }
    }

    /// Appends an assistant message.
    pub fn add_assistant_message(
        &mut self,
        content: Option<&str>,
        reasoning: Option<&str>,
        tool_calls: Option<Vec<ToolCall>>,
    )
        ensures
            final(self).messages@.len() == old(self).messages@.len() + 1,
            final(self).messages@.drop_last() == old(self).messages@,
            final(self).messages@.last() matches Message::Assistant {
                content: c,
                reasoning_content: r,
                tool_calls: t,
            } && (c matches Some(x) ==> content matches Some(y) && x@ == y@) && (c is None
                <==> content is None) && (r matches Some(x) ==> reasoning matches Some(y) && x@
                == y@) && (r is None <==> reasoning is None) && t == tool_calls,
            final(self).system_prompt == old(self).system_prompt,
            final(self).max_tokens == old(self).max_tokens,
            total_tokens(final(self).messages@) >= total_tokens(old(self).messages@),
    {
        let c = match content {
            Some(s) => Some(s.to_owned()),
            None => None,
        };
        let r = match reasoning {
            Some(s) => Some(s.to_owned()),
            None => None,
        };
        self.messages.push(Message::Assistant { content: c, reasoning_content: r, tool_calls });
        assert(self.messages@.drop_last() =~= old(self).messages@);
        proof {
            law_tokens_grow(old(self).messages@, self.messages@.last());
        }
    }

    /// Appends the result of a tool call.
    pub fn add_tool_result(&mut self, tool_call_id: &str, content: &str)
        ensures
            final(self).messages@.len() == old(self).messages@.len() + 1,
            final(self).messages@.drop_last() == old(self).messages@,
            final(self).messages@.last() matches Message::Tool { tool_call_id: i, content: c }
                && i@ == tool_call_id@ && c@ == content@,
            final(self).system_prompt == old(self).system_prompt,
            final(self).max_tokens == old(self).max_tokens,
            total_tokens(final(self).messages@) >= total_tokens(old(self).messages@) + 14,
    {
        self.messages.push(
            Message::Tool { tool_call_id: tool_call_id.to_owned(), content: content.to_owned() },
        );
        assert(self.messages@.drop_last() =~= old(self).messages@);
        proof {
            law_tokens_grow(old(self).messages@, self.messages@.last());
        }
    }

    /// Appends a system message (reflection, supervision, mode changes).
    pub fn inject_system_message(&mut self, content: &str)
        ensures
            final(self).messages@.len() == old(self).messages@.len() + 1,
            final(self).messages@.drop_last() == old(self).messages@,
            final(self).messages@.last() matches Message::System { content: c } && c@
                == content@,
            final(self).system_prompt == old(self).system_prompt,
            final(self).max_tokens == old(self).max_tokens,
            total_tokens(final(self).messages@) >= total_tokens(old(self).messages@) + 4,
    {
        self.messages.push(Message::System { content: content.to_owned() });
        assert(self.messages@.drop_last() =~= old(self).messages@);
        proof {
            law_tokens_grow(old(self).messages@, self.messages@.last());
        }
    }

    /// Removes the last user message and everything after it, and returns
    /// that message; without a user message nothing changes.
    pub fn pop_last_user_message(&mut self) -> (r: Option<Message>)
        ensures
            match last_user(old(self).messages@) {
                None => r is None && final(self).messages@ == old(self).messages@,
                Some(k) => r == Some(old(self).messages@[k]) && final(self).messages@ == old(
                    self,
                ).messages@.take(k),
            },
            final(self).system_prompt == old(self).system_prompt,
            final(self).max_tokens == old(self).max_tokens,
    {
        let mut n: usize = self.messages.len();
        while n > 0 && !matches!(self.messages[n - 1], Message::User { .. })
            invariant
                n <= self.messages@.len(),
                self.messages@ == old(self).messages@,
                last_user(old(self).messages@) == last_user_before(old(self).messages@, n as int),
            decreases n,
        {
            n = n - 1;
        }
        if n == 0 {
            return None;
        }
        let pos = n - 1;
        let msg = self.messages.remove(pos);
        while self.messages.len() > pos
            invariant
                pos <= self.messages@.len(),
                self.messages@.take(pos as int) == old(self).messages@.take(pos as int),
                self.system_prompt == old(self).system_prompt,
                self.max_tokens == old(self).max_tokens,
            decreases self.messages@.len(),
        {
            self.messages.pop();
            assert(self.messages@.take(pos as int) =~= old(self).messages@.take(pos as int));
        }
        assert(self.messages@ =~= old(self).messages@.take(pos as int));
        Some(msg)
    }

    /// Estimated tokens of the conversation, saturating at `usize::MAX`.
    pub fn total_tokens(&self) -> (r: usize)
        ensures
            r == clamp(total_tokens(self.messages@)),
    {
        let mut total: usize = 0;
        let mut i: usize = 0;
        while i < self.messages.len()
            invariant
                i <= self.messages@.len(),
                total == clamp(total_tokens(self.messages@.take(i as int))),
            decreases self.messages@.len() - i,
        {
            let t = message_token_count(&self.messages[i]);
            proof {
                assert(self.messages@.take(i + 1).drop_last() =~= self.messages@.take(i as int));
                lemma_clamp_add(
                    total_tokens(self.messages@.take(i as int)),
                    message_tokens(self.messages@[i as int]),
                );
            }
            total = sat_add(total, t);
            i = i + 1;
        }
        assert(self.messages@.take(self.messages@.len() as int) =~= self.messages@);
        total
    }

    /// Makes the conversation fit the token budget (see `fit_context`).
    pub fn ensure_context_fit(&mut self)
        ensures
            final(self).messages@ == fit_context(old(self).messages@, old(self).max_tokens as nat),
            final(self).system_prompt == old(self).system_prompt,
            final(self).max_tokens == old(self).max_tokens,
    {
        if self.total_tokens() <= self.max_tokens {
            return;
        }
        let ghost ms = old(self).messages@;
        let mut n: usize = self.messages.len();
        while n > 0 && !matches!(self.messages[n - 1], Message::User { .. })
            invariant
                n <= self.messages@.len(),
                self.messages@ == ms,
                last_user(ms) == last_user_before(ms, n as int),
                self.system_prompt == old(self).system_prompt,
                self.max_tokens == old(self).max_tokens,
            decreases n,
        {
            n = n - 1;
        }
        if n > 0 {
            let pos = n - 1;
            proof {
                lemma_last_user_before_bounds(ms, ms.len() as int);
            }
            let len = self.messages.len();
            let mut old_msgs: Vec<Message> = Vec::new();
            std::mem::swap(&mut old_msgs, &mut self.messages);
            let mut kept: Vec<Message> = Vec::new();
            let mut i: usize = 0;
            for m in it: old_msgs.into_iter()
                invariant
                    it.seq() == ms,
                    i == it.index(),
                    len == ms.len(),
                    i <= len,
                    pos < ms.len(),
                    i <= pos ==> kept@ == drop_tools(ms.take(i as int)),
                    i > pos ==> kept@ == drop_tools(ms.take(pos as int)) + ms.subrange(
                        pos as int,
                        i as int,
                    ),
            {
                assert(i < len);
                proof {
                    assert(ms[i as int] == m);
                    assert(ms.take(i + 1).drop_last() =~= ms.take(i as int));
                }
                if i >= pos || !matches!(m, Message::Tool { .. }) {
                    kept.push(m);
                }
                proof {
                    if i + 1 > pos {
                        assert(ms.subrange(pos as int, i + 1) =~= ms.subrange(
                            pos as int,
                            i as int,
                        ).push(ms[i as int]));
                        if i == pos {
                            assert(ms.subrange(pos as int, pos as int) =~= Seq::<Message>::empty());
                        }
                    }
                }
                i = i + 1;
            }
            assert(ms.subrange(pos as int, ms.len() as int) =~= ms.skip(pos as int));
            self.messages = kept;
        }
        let ghost kept_spec = self.messages@;
        assert(kept_spec == match last_user(ms) {
            Some(p) => drop_tools(ms.take(p)) + ms.skip(p),
            None => ms,
        });
        while self.total_tokens() > self.max_tokens && self.messages.len() > 4
            invariant
                trim_front(kept_spec, self.max_tokens as nat) == trim_front(
                    self.messages@,
                    self.max_tokens as nat,
                ),
                self.system_prompt == old(self).system_prompt,
                self.max_tokens == old(self).max_tokens,
            decreases self.messages@.len(),
        {
            self.messages.remove(1);
        }
    }

    /// Replaces the oldest pairs of the first long run of tool calls by a
    /// summary (see `compressed`).
    pub fn compress_old_tool_results(&mut self)
        ensures
            compressed(old(self).messages@, final(self).messages@),
            final(self).system_prompt == old(self).system_prompt,
            final(self).max_tokens == old(self).max_tokens,
    {
        match self.find_long_run() {
            Some((start, seq_len)) => {
                proof {
                    lemma_run_len_bound(self.messages@, start as int);
                }
                self.summarize_run(start, seq_len);
            },
            None => {},
        }
    }

    /// Start and length of the first run of more than three pairs.
    fn find_long_run(&self) -> (r: Option<(usize, usize)>)
        ensures
            match r {
                Some((s, n)) => first_long_run(self.messages@, 0) == Some(s as int) && run_len(
                    self.messages@,
                    s as int,
                ) == n && n > 3,
                None => first_long_run(self.messages@, 0) is None,
            },
    {
        let ghost ms = self.messages@;
        let len = self.messages.len();
        let mut i: usize = 0;
        while i < len && len - i > 1
            invariant
                self.messages@ == ms,
                len == ms.len(),
                i <= len,
                first_long_run(ms, 0) == first_long_run(ms, i as int),
            decreases len - i,
        {
            if self.is_pair_at(i) {
                let start = i;
                let mut seq_len: usize = 0;
                while self.is_pair_at(i)
                    invariant
                        self.messages@ == ms,
                        len == ms.len(),
                        i == start + 2 * seq_len,
                        run_len(ms, start as int) == seq_len + run_len(ms, i as int),
                        i <= len,
                    decreases len - i,
                {
                    seq_len = seq_len + 1;
                    i = i + 2;
                }
                proof {
                    lemma_run_len_bound(ms, start as int);
                    assert(pair_at(ms, start as int));
                    assert(run_len(ms, start as int) == seq_len);
                }
                if seq_len > 3 {
                    assert(first_long_run(ms, start as int) == Some(start as int));
                    return Some((start, seq_len));
                }
                assert(first_long_run(ms, start as int) == first_long_run(ms, i + 1));
                if i >= len {
                    assert(first_long_run(ms, i + 1) is None);
                    return None;
                }
                i = i + 1;
            } else {
                i = i + 1;
            }
        }
        None
    }

    /// Whether a call/result pair starts at `i`.
    fn is_pair_at(&self, i: usize) -> (r: bool)
        ensures
            r == pair_at(self.messages@, i as int),
    {
        if i >= self.messages.len() || self.messages.len() - i < 2 {
            return false;
        }
        let head = match &self.messages[i] {
            Message::Assistant { tool_calls: Some(_), .. } => true,
            _ => false,
        };
        head && matches!(self.messages[i + 1], Message::Tool { .. })
    }

    /// Replaces the first `seq_len - 2` pairs of the run at `start` by a summary.
    fn summarize_run(&mut self, start: usize, seq_len: usize)
        requires
            seq_len > 3,
            run_len(old(self).messages@, start as int) == seq_len,
            first_long_run(old(self).messages@, 0) == Some(start as int),
            start + 2 * seq_len <= old(self).messages@.len(),
        ensures
            compressed(old(self).messages@, final(self).messages@),
            final(self).system_prompt == old(self).system_prompt,
            final(self).max_tokens == old(self).max_tokens,
    {
        let ghost ms = old(self).messages@;
        let len = self.messages.len();
        let count = seq_len - 2;
        let compress_end = start + count * 2;
        let mut names: Vec<String> = Vec::new();
        let mut k: usize = 0;
        while k < count
            invariant
                self.messages@ == ms,
                k <= count,
                count == seq_len - 2,
                len == ms.len(),
                start + 2 * seq_len <= ms.len(),
                names.deep_view() == run_names(ms, start as int, k as nat),
            decreases count - k,
        {
            let j = start + 2 * k;
            let ghost old_names = names;
            match &self.messages[j] {
                Message::Assistant { tool_calls: Some(tcs), .. } => {
                    if tcs.len() > 0 {
                        names.push(tcs[0].function.name.clone());
                    }
                },
                _ => {},
            }
            proof {
                assert(names.deep_view() =~= old_names.deep_view() + first_call_name(
                    ms[start + 2 * k],
                ));
            }
            k = k + 1;
        }
        let mut text: Vec<char> = Vec::new();
        push_str(&mut text, "[summary: previously attempted ");
        push_decimal(&mut text, count as u64);
        push_str(&mut text, " tool calls: ");
        let joined = crate::text::join_strings(&names, ", ");
        push_str(&mut text, joined.as_str());
        push_str(&mut text, "]");
        assert(text@ =~= summary_text(run_names(ms, start as int, count as nat), count as nat));
        let summary = Message::System { content: string_of(text.as_slice()) };
        let mut removed: usize = 0;
        while removed < compress_end - start
            invariant
                start + removed <= compress_end,
                compress_end <= ms.len(),
                self.messages@ == ms.take(start as int) + ms.skip(start + removed),
                self.system_prompt == old(self).system_prompt,
                self.max_tokens == old(self).max_tokens,
            decreases compress_end - start - removed,
        {
            self.messages.remove(start);
            assert(self.messages@ =~= ms.take(start as int) + ms.skip(start + removed + 1));
            removed = removed + 1;
        }
        self.messages.insert(start, summary);
        assert(self.messages@.take(start as int) =~= ms.take(start as int));
        assert(self.messages@.skip(start + 1) =~= ms.skip(compress_end as int));
    }

    /// Forgets the conversation and starts again from the system prompt.
    pub fn clear(&mut self)
        ensures
            final(self).messages@.len() == 1,
            final(self).messages@[0] matches Message::System { content } && content@
                == old(self).system_prompt@,
            final(self).system_prompt == old(self).system_prompt,
            final(self).max_tokens == old(self).max_tokens,
    {
        self.messages.clear();
        self.messages.push(Message::System { content: self.system_prompt.clone() });
    }
}

} // verus!
