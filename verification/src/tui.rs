//! The state of the full-screen chat view: the lines shown, the reply being
//! streamed in, and scrolling. Drawing and keyboard input are done by the
//! program around the library.
use vstd::prelude::*;
use crate::text::decimal;
use crate::mode::{description, mode_label, mode_named, switched, AgentMode, ModeState};
use crate::message::{Message, Session};
use crate::term::command_words;

verus! {

/// `char::is_control`: the Unicode control characters (category Cc).
pub open spec fn is_control(c: char) -> bool {
    (c as u32) <= 0x1f || (0x7f <= (c as u32) && (c as u32) <= 0x9f)
}

/// What `sanitize` keeps of `s` from position `i` on, `in_ansi` telling
/// whether an escape sequence is open: an escape opens a sequence, which a
/// character in `@..=~` closes; outside sequences, control characters other
/// than newline and tab are dropped.
pub open spec fn sanitize_from(s: Seq<char>, i: int, in_ansi: bool) -> Seq<char>
    decreases s.len() - i,
{
    if i < 0 || i >= s.len() {
        Seq::empty()
    } else {
        let c = s[i];
        if c == '\x1b' {
            sanitize_from(s, i + 1, true)
        } else if in_ansi {
            sanitize_from(s, i + 1, !('@' <= c && c <= '~'))
        } else if c == '\r' || c == '\0' || (is_control(c) && c != '\n' && c != '\t') {
            sanitize_from(s, i + 1, false)
        } else {
            seq![c] + sanitize_from(s, i + 1, false)
        }
    }
}

/// Sanitized text holds no control character but newline and tab; in
/// particular no escape.
pub proof fn law_sanitize_clean(s: Seq<char>, i: int, in_ansi: bool)
    ensures
        forall|j: int|
            0 <= j < sanitize_from(s, i, in_ansi).len() ==> {
                let c = #[trigger] sanitize_from(s, i, in_ansi)[j];
                !is_control(c) || c == '\n' || c == '\t'
            },
    decreases s.len() - i,
{
    if 0 <= i < s.len() {
        let c = s[i];
        let next = if c == '\x1b' {
            true
        } else if in_ansi {
            !('@' <= c && c <= '~')
        } else {
            false
        };
        law_sanitize_clean(s, i + 1, next);
        let rest = sanitize_from(s, i + 1, next);
        let whole = sanitize_from(s, i, in_ansi);
        if c == '\x1b' || in_ansi || c == '\r' || c == '\0' || (is_control(c) && c != '\n' && c
            != '\t') {
            assert(whole == rest);
        } else {
            assert(whole == seq![c] + rest);
            assert forall|j: int| 0 <= j < whole.len() implies {
                let d = #[trigger] whole[j];
                !is_control(d) || d == '\n' || d == '\t'
            } by {
                if j > 0 {
                    assert(whole[j] == rest[j - 1]);
                }
            }
        }
    }
}

/// Text without escape sequences and control characters (see `sanitize_from`).
pub fn sanitize(s: &str) -> (r: String)
    ensures
        r@ == sanitize_from(s@, 0, false),
{
    let v = crate::text::chars_of(s);
    let mut out: Vec<char> = Vec::new();
    let mut in_ansi = false;
    let mut i: usize = 0;
    while i < v.len()
        invariant
            v@ == s@,
            i <= v@.len(),
            sanitize_from(s@, 0, false) == out@ + sanitize_from(s@, i as int, in_ansi),
        decreases v@.len() - i,
    {
        let c = v[i];
        let u = c as u32;
        if c == '\x1b' {
            in_ansi = true;
        } else if in_ansi {
            if '@' <= c && c <= '~' {
                in_ansi = false;
            }
        } else if c == '\r' || c == '\0' || ((u <= 0x1f || (0x7f <= u && u <= 0x9f)) && c != '\n'
            && c != '\t') {
        } else {
            let ghost before = out@;
            out.push(c);
            assert(before + (seq![c] + sanitize_from(s@, i + 1, false)) =~= out@ + sanitize_from(
                s@,
                i + 1,
                false,
            ));
        }
        i = i + 1;
    }
    assert(out@ + Seq::<char>::empty() =~= out@);
    crate::text::string_of(out.as_slice())
}

// ------------------------------------------------------------------
// Lines of the chat
// ------------------------------------------------------------------

/// How a piece of a chat line is shown.
#[derive(Debug, Clone, Copy, PartialEq, Eq, Structural)]
pub enum Tone {
    /// The bar that marks the agent's lines.
    AgentBadge,
    /// The bar that marks the user's lines.
    UserBadge,
    Plain,
    /// Secondary text: results, statistics, the reply being streamed.
    Dim,
    ToolMark,
    ToolName,
    ToolArgs,
    Failure,
    Warning,
}

/// A piece of a chat line.
#[derive(Debug, Clone)]
pub struct Span {
    pub tone: Tone,
    pub text: String,
}

/// One line of the chat.
#[derive(Debug, Clone)]
pub struct ChatLine {
    pub spans: Vec<Span>,
}

/// The view of a piece of a line: its tone and text.
pub open spec fn span_view(s: Span) -> (Tone, Seq<char>) {
    (s.tone, s.text@)
}

/// The view of a line: its pieces, in order.
pub open spec fn line_view(l: ChatLine) -> Seq<(Tone, Seq<char>)> {
    l.spans@.map_values(|s: Span| span_view(s))
}

/// The views of lines, in order.
pub open spec fn lines_view(ls: Seq<ChatLine>) -> Seq<Seq<(Tone, Seq<char>)>> {
    ls.map_values(|l: ChatLine| line_view(l))
}

/// A line with its texts sanitized.
pub open spec fn clean_line(l: Seq<(Tone, Seq<char>)>) -> Seq<(Tone, Seq<char>)> {
    l.map_values(|p: (Tone, Seq<char>)| (p.0, sanitize_from(p.1, 0, false)))
}

/// The bar before a line of `role`: the agent's, the user's, or blank.
pub open spec fn badge_view(role: Seq<char>) -> (Tone, Seq<char>) {
    if role == "agent"@ {
        (Tone::AgentBadge, " ▌ "@)
    } else if role == "user"@ {
        (Tone::UserBadge, " ▌ "@)
    } else {
        (Tone::Plain, "   "@)
    }
}

/// The bar before a line of `role` (see `badge_view`).
pub fn badge(role: &str) -> (r: Span)
    ensures
        span_view(r) == badge_view(role@),
{
    if crate::text::str_eq(role, "agent") {
        Span { tone: Tone::AgentBadge, text: " ▌ ".to_owned() }
    } else if crate::text::str_eq(role, "user") {
        Span { tone: Tone::UserBadge, text: " ▌ ".to_owned() }
    } else {
        Span { tone: Tone::Plain, text: "   ".to_owned() }
    }
}

/// A piece of text in a tone.
pub fn span(tone: Tone, text: String) -> (r: Span)
    ensures
        span_view(r) == (tone, text@),
{
    Span { tone, text }
}

/// A line of the given pieces.
pub fn line_of(spans: Vec<Span>) -> (r: ChatLine)
    ensures
        r.spans == spans,
{
    ChatLine { spans }
}

/// The line with its texts sanitized (see `clean_line`).
fn sanitize_line(l: ChatLine) -> (r: ChatLine)
    ensures
        line_view(r) == clean_line(line_view(l)),
{
    let mut out: Vec<Span> = Vec::new();
    let mut i: usize = 0;
    while i < l.spans.len()
        invariant
            i <= l.spans@.len(),
            out@.len() == i,
            out@.map_values(|s: Span| span_view(s)) == clean_line(line_view(l)).take(i as int),
        decreases l.spans@.len() - i,
    {
        let t = sanitize(l.spans[i].text.as_str());
        let ghost prev = out@;
        out.push(Span { tone: l.spans[i].tone, text: t });
        assert(line_view(l)[i as int] == span_view(l.spans@[i as int]));
        assert(clean_line(line_view(l))[i as int] == span_view(out@[i as int]));
        assert(out@.map_values(|s: Span| span_view(s)) =~= prev.map_values(|s: Span| span_view(s)).push(
            span_view(out@[i as int]),
        ));
        assert(out@.map_values(|s: Span| span_view(s)) =~= clean_line(line_view(l)).take(i + 1));
        i = i + 1;
    }
    assert(clean_line(line_view(l)).take(l.spans@.len() as int) =~= clean_line(line_view(l)));
    ChatLine { spans: out }
}

// ------------------------------------------------------------------
// The state of the view
// ------------------------------------------------------------------

/// Text with its carriage returns removed.
pub open spec fn without_cr(s: Seq<char>) -> Seq<char>
    decreases s.len(),
{
    if s.len() == 0 {
        s
    } else if s.last() == '\r' {
        without_cr(s.drop_last())
    } else {
        without_cr(s.drop_last()).push(s.last())
    }
}

/// The complete lines of streamed text, and what follows the last newline.
pub open spec fn stream_split(s: Seq<char>) -> (Seq<Seq<char>>, Seq<char>)
    decreases s.len(),
{
    proof {
        crate::text::lemma_find_from_bounds(s, seq!['\n'], 0);
    }
    match crate::text::find(s, seq!['\n']) {
        None => (Seq::empty(), s),
        Some(p) => {
            let rest = stream_split(s.skip(p + 1));
            (seq![s.take(p)] + rest.0, rest.1)
        },
    }
}

/// The line shown for a complete line of the reply: the agent's bar unless
/// one is already shown, then the text.
pub open spec fn reply_line(text: Seq<char>, has_badge: bool) -> Seq<(Tone, Seq<char>)> {
    if has_badge {
        seq![(Tone::Plain, text)]
    } else {
        seq![badge_view("agent"@), (Tone::Plain, text)]
    }
}

/// The lines added for the complete lines `ls` of the reply, the first of
/// which may already have its bar.
pub open spec fn reply_lines(ls: Seq<Seq<char>>, has_badge: bool) -> Seq<Seq<(Tone, Seq<char>)>> {
    Seq::new(
        ls.len(),
        |k: int| clean_line(reply_line(ls[k], k == 0 && has_badge)),
    )
}

/// `a.saturating_sub(b)`.
pub open spec fn sat_sub(a: int, b: int) -> int {
    if a >= b {
        a - b
    } else {
        0
    }
}

/// The smaller of two integers.
pub open spec fn min_int(a: int, b: int) -> int {
    if a <= b {
        a
    } else {
        b
    }
}

/// The last of the first `n` remembered user lines that comes before line
/// `first`.
pub open spec fn last_below(us: Seq<usize>, n: int, first: int) -> Option<int>
    decreases n,
{
    if n <= 0 {
        None
    } else if us[n - 1] < first {
        Some(us[n - 1] as int)
    } else {
        last_below(us, n - 1, first)
    }
}

/// The first remembered user line, from the `i`-th on, that comes after
/// line `after`.
pub open spec fn first_above(us: Seq<usize>, i: int, after: int) -> Option<int>
    decreases us.len() - i,
{
    if i < 0 || i >= us.len() {
        None
    } else if us[i] > after {
        Some(us[i] as int)
    } else {
        first_above(us, i + 1, after)
    }
}

/// A blank line that pads the view.
pub open spec fn blank_line() -> Seq<(Tone, Seq<char>)> {
    seq![(Tone::Plain, " "@)]
}

/// The line shown for the reply still being streamed, when there is one:
/// the agent's bar unless shown, then the text so far, dimmed and sanitized.
pub open spec fn partial_line(buf: Seq<char>, has_badge: bool) -> Seq<Seq<(Tone, Seq<char>)>> {
    if buf.len() > 0 || has_badge {
        let text = (Tone::Dim, sanitize_from(buf, 0, false));
        seq![
            if has_badge {
                seq![text]
            } else {
                seq![badge_view("agent"@), text]
            },
        ]
    } else {
        Seq::empty()
    }
}

/// The `visible` lines drawn: the last ones of `all` above the scroll,
/// padded with blank lines below.
pub open spec fn window(all: Seq<Seq<(Tone, Seq<char>)>>, scroll: int, visible: int) -> Seq<
    Seq<(Tone, Seq<char>)>,
> {
    let total = all.len() as int;
    let start = sat_sub(total, visible + scroll);
    let count = min_int(total - start, visible);
    all.subrange(start, start + count) + Seq::new((visible - count) as nat, |k: int| blank_line())
}

proof fn lemma_lines_view_push(ls: Seq<ChatLine>, l: ChatLine)
    ensures
        lines_view(ls.push(l)) == lines_view(ls).push(line_view(l)),
        lines_view(ls).len() == ls.len(),
{
    assert(lines_view(ls.push(l)) =~= lines_view(ls).push(line_view(l)));
}

/// A copy of a line.
fn copy_line(l: &ChatLine) -> (r: ChatLine)
    ensures
        line_view(r) == line_view(*l),
{
    let mut out: Vec<Span> = Vec::new();
    let mut i: usize = 0;
    while i < l.spans.len()
        invariant
            i <= l.spans@.len(),
            out@.len() == i,
            out@.map_values(|s: Span| span_view(s)) == line_view(*l).take(i as int),
        decreases l.spans@.len() - i,
    {
        let ghost prev = out@;
        out.push(Span { tone: l.spans[i].tone, text: l.spans[i].text.clone() });
        assert(out@.map_values(|s: Span| span_view(s)) =~= line_view(*l).take(i + 1));
        i = i + 1;
    }
    assert(line_view(*l).take(l.spans@.len() as int) =~= line_view(*l));
    ChatLine { spans: out }
}

/// The scroll after scrolling up `n` lines.
pub open spec fn up_scroll(a: AppState, n: int, visible: int) -> int {
    min_int(a.scroll + n, sat_sub(a.chat_lines@.len() as int, visible))
}

/// The scroll after jumping to the user's line before the first line shown.
pub open spec fn prev_scroll(a: AppState, visible: int) -> int {
    let total = a.chat_lines@.len() as int;
    let first = sat_sub(total, a.scroll + visible);
    let idx = match last_below(a.user_indices@, a.user_indices@.len() as int, first) {
        Some(k) => k,
        None => 0,
    };
    min_int(sat_sub(total, idx + visible + 1), sat_sub(total, visible))
}

/// The scroll after jumping to the user's line after the first line shown.
pub open spec fn next_scroll(a: AppState, visible: int) -> int {
    let total = a.chat_lines@.len() as int;
    let us = a.user_indices@;
    let first = sat_sub(total, a.scroll + visible);
    let idx = match first_above(us, 0, first + 1) {
        Some(k) => k,
        None => if us.len() > 0 {
            us.last() as int
        } else {
            0
        },
    };
    min_int(sat_sub(total, idx + 1), sat_sub(total, visible))
}

/// The state of the chat view.
pub struct AppState {
    pub chat_lines: Vec<ChatLine>,
    /// Positions in `chat_lines` of the user's lines.
    pub user_indices: Vec<usize>,
    pub input: String,
    pub processing: bool,
    pub status: String,
    /// The part of the reply after its last complete line.
    pub stream_buf: String,
    pub stream_has_badge: bool,
    /// Lines scrolled up from the bottom.
    pub scroll: usize,
    pub auto_scroll: bool,
}

impl AppState {
    /// Whether the two states differ at most in their lines and scrolling.
    pub open spec fn same_but_lines(&self, other: &AppState) -> bool {
        &&& self.user_indices == other.user_indices
        &&& self.input == other.input
        &&& self.processing == other.processing
        &&& self.status == other.status
        &&& self.stream_buf == other.stream_buf
        &&& self.stream_has_badge == other.stream_has_badge
        &&& self.auto_scroll == other.auto_scroll
    }

    /// Every remembered user line is one of the chat's lines.
    pub open spec fn wf(&self) -> bool {
        forall|i: int| 0 <= i < self.user_indices@.len() ==> #[trigger] self.user_indices@[i] < self.chat_lines@.len()
    }

    /// An empty chat, scrolled to the bottom.
    pub fn new() -> (r: Self)
        ensures
            r.wf(),
            r.chat_lines@.len() == 0,
            r.user_indices@.len() == 0,
            r.input@.len() == 0,
            !r.processing,
            r.status@.len() == 0,
            r.stream_buf@.len() == 0,
            !r.stream_has_badge,
            r.scroll == 0,
            r.auto_scroll,
    {
        AppState {
            chat_lines: Vec::new(),
            user_indices: Vec::new(),
            input: String::new(),
            processing: false,
            status: String::new(),
            stream_buf: String::new(),
            stream_has_badge: false,
            scroll: 0,
            auto_scroll: true,
        }
    }

    /// Adds a line, sanitized; a view following the bottom goes back to it.
    pub fn push(&mut self, line: ChatLine)
        ensures
            lines_view(final(self).chat_lines@) == lines_view(old(self).chat_lines@).push(
                clean_line(line_view(line)),
            ),
            final(self).scroll == if old(self).auto_scroll {
                0
            } else {
                old(self).scroll
            },
            final(self).chat_lines@.len() == old(self).chat_lines@.len() + 1,
            final(self).same_but_lines(old(self)),
            old(self).wf() ==> final(self).wf(),
    {
        let clean = sanitize_line(line);
        self.chat_lines.push(clean);
        assert(lines_view(self.chat_lines@) =~= lines_view(old(self).chat_lines@).push(
            clean_line(line_view(line)),
        ));
        if self.auto_scroll {
            self.scroll = 0;
        }
    }

    /// Takes streamed text of the reply: carriage returns are dropped, and
    /// each completed line is added with the agent's bar; the rest waits in
    /// the buffer.
    pub fn stream(&mut self, text: &str)
        ensures
            ({
                let parts = stream_split(without_cr(old(self).stream_buf@ + text@));
                &&& final(self).stream_buf@ == parts.1
                &&& lines_view(final(self).chat_lines@) == lines_view(old(self).chat_lines@)
                    + reply_lines(parts.0, old(self).stream_has_badge)
                &&& final(self).chat_lines@.len() == old(self).chat_lines@.len() + parts.0.len()
                &&& final(self).stream_has_badge == (old(self).stream_has_badge && parts.0.len() == 0)
                &&& final(self).scroll == if parts.0.len() > 0 && old(self).auto_scroll {
                    0
                } else {
                    old(self).scroll
                }
            }),
            final(self).user_indices == old(self).user_indices,
            final(self).input == old(self).input,
            final(self).processing == old(self).processing,
            final(self).status == old(self).status,
            final(self).auto_scroll == old(self).auto_scroll,
            old(self).wf() ==> final(self).wf(),
    {
        let mut comb = crate::text::chars_of(self.stream_buf.as_str());
        crate::text::push_str(&mut comb, text);
        let mut buf: Vec<char> = Vec::new();
        let mut i: usize = 0;
        while i < comb.len()
            invariant
                i <= comb@.len(),
                buf@ == without_cr(comb@.take(i as int)),
            decreases comb@.len() - i,
        {
            assert(comb@.take(i + 1).drop_last() =~= comb@.take(i as int));
            if comb[i] != '\r' {
                buf.push(comb[i]);
            }
            i = i + 1;
        }
        assert(comb@.take(comb@.len() as int) =~= comb@);
        let ghost all = buf@;
        let ghost hb0 = self.stream_has_badge;
        let ghost start = lines_view(self.chat_lines@);
        let ghost mut k: int = 0;
        let nl: Vec<char> = vec!['\n'];
        assert(nl@ =~= seq!['\n']);
        let mut next = crate::text::find_chars(buf.as_slice(), nl.as_slice(), 0);
        while next.is_some()
            invariant
                nl@ == seq!['\n'],
                next matches Some(p) ==> crate::text::find(buf@, seq!['\n']) == Some(p as int),
                next is None ==> crate::text::find(buf@, seq!['\n']) is None,
                0 <= k <= stream_split(all).0.len(),
                stream_split(all).0 == stream_split(all).0.take(k) + stream_split(buf@).0,
                stream_split(all).1 == stream_split(buf@).1,
                lines_view(self.chat_lines@) == start + reply_lines(stream_split(all).0.take(k), hb0),
                self.stream_has_badge == (hb0 && k == 0),
                self.scroll == if k > 0 && old(self).auto_scroll {
                    0
                } else {
                    old(self).scroll
                },
                self.user_indices == old(self).user_indices,
                self.input == old(self).input,
                self.processing == old(self).processing,
                self.status == old(self).status,
                self.auto_scroll == old(self).auto_scroll,
                old(self).wf() ==> self.wf(),
            decreases buf@.len(),
        {
            let pos = match next {
                Some(p) => p,
                None => 0,
            };
            proof {
                crate::text::lemma_find_from_bounds(buf@, seq!['\n'], 0);
            }
            let blen = buf.len();
            assert(pos < blen);
            let line = crate::text::slice_chars(buf.as_slice(), 0, pos);
            let rest = crate::text::slice_chars(buf.as_slice(), pos + 1, blen);
            let ghost ls = stream_split(all).0;
            proof {
                assert(line@ =~= buf@.take(pos as int));
                assert(rest@ =~= buf@.skip(pos + 1));
                assert(stream_split(buf@).0 == seq![line@] + stream_split(rest@).0);
                assert(ls[k] == line@);
                assert(ls.take(k + 1) =~= ls.take(k) + seq![line@]);
                assert(ls == ls.take(k + 1) + stream_split(rest@).0);
            }
            let mut spans: Vec<Span> = Vec::new();
            if !self.stream_has_badge {
                spans.push(badge("agent"));
                self.stream_has_badge = true;
            }
            let ghost had = spans@.len() == 0;
            spans.push(span(Tone::Plain, crate::text::string_of(line.as_slice())));
            let l = line_of(spans);
            proof {
                assert(line_view(l) =~= reply_line(line@, had));
                assert(had == (k == 0 && hb0));
                assert(reply_lines(ls.take(k + 1), hb0) =~= reply_lines(ls.take(k), hb0).push(
                    clean_line(reply_line(line@, k == 0 && hb0)),
                ));
            }
            self.push(l);
            self.stream_has_badge = false;
            buf = rest;
            proof {
                k = k + 1;
            }
            next = crate::text::find_chars(buf.as_slice(), nl.as_slice(), 0);
        }
        proof {
            assert(stream_split(buf@).0 =~= Seq::<Seq<char>>::empty());
            assert(stream_split(all).0.take(k) =~= stream_split(all).0);
        }
        self.stream_buf = crate::text::string_of(buf.as_slice());
        assert(lines_view(self.chat_lines@).len() == self.chat_lines@.len());
        assert(lines_view(old(self).chat_lines@).len() == old(self).chat_lines@.len());
    }

    /// Ends the reply: what waits in the buffer becomes a line, with the
    /// agent's bar unless one is shown.
    pub fn flush_stream(&mut self)
        ensures
            old(self).stream_buf@.len() == 0 ==> lines_view(final(self).chat_lines@) == lines_view(
                old(self).chat_lines@,
            ) && final(self).scroll == old(self).scroll,
            old(self).stream_buf@.len() > 0 ==> lines_view(final(self).chat_lines@) == lines_view(
                old(self).chat_lines@,
            ).push(clean_line(reply_line(old(self).stream_buf@, old(self).stream_has_badge)))
                && final(self).scroll == if old(self).auto_scroll {
                0
            } else {
                old(self).scroll
            },
            final(self).chat_lines@.len() == old(self).chat_lines@.len() + if old(self).stream_buf@.len()
                > 0 {
                1int
            } else {
                0
            },
            final(self).stream_buf@.len() == 0,
            !final(self).stream_has_badge,
            final(self).user_indices == old(self).user_indices,
            final(self).input == old(self).input,
            final(self).processing == old(self).processing,
            final(self).status == old(self).status,
            final(self).auto_scroll == old(self).auto_scroll,
            old(self).wf() ==> final(self).wf(),
    {
        if self.stream_buf.as_str().is_empty() && !self.stream_has_badge {
            return;
        }
        if !self.stream_buf.as_str().is_empty() {
            let mut spans: Vec<Span> = Vec::new();
            if !self.stream_has_badge {
                spans.push(badge("agent"));
            }
            let mut text = String::new();
            std::mem::swap(&mut text, &mut self.stream_buf);
            let ghost tv = text@;
            spans.push(span(Tone::Plain, text));
            let l = line_of(spans);
            assert(line_view(l) =~= reply_line(tv, old(self).stream_has_badge));
            self.push(l);
        }
        self.stream_buf = String::new();
        self.stream_has_badge = false;
    }

    /// Scrolls up `n` lines, no further than the top; the view follows the
    /// bottom again only there.
    pub fn scroll_up(&mut self, n: usize, visible: usize)
        requires
            old(self).scroll + n <= usize::MAX,
        ensures
            final(self).scroll == up_scroll(*old(self), n as int, visible as int),
            final(self).auto_scroll == (final(self).scroll == 0),
            final(self).chat_lines == old(self).chat_lines,
            final(self).user_indices == old(self).user_indices,
            final(self).input == old(self).input,
            final(self).processing == old(self).processing,
            final(self).status == old(self).status,
            final(self).stream_buf == old(self).stream_buf,
            final(self).stream_has_badge == old(self).stream_has_badge,
    {
        let top = self.chat_lines.len().saturating_sub(visible);
        let want = self.scroll + n;
        self.scroll = if want < top {
            want
        } else {
            top
        };
        self.auto_scroll = self.scroll == 0;
    }

    /// Scrolls down `n` lines, no further than the bottom.
    pub fn scroll_down(&mut self, n: usize)
        ensures
            final(self).scroll == sat_sub(old(self).scroll as int, n as int),
            final(self).auto_scroll == (final(self).scroll == 0),
            final(self).chat_lines == old(self).chat_lines,
            final(self).user_indices == old(self).user_indices,
            final(self).input == old(self).input,
            final(self).processing == old(self).processing,
            final(self).status == old(self).status,
            final(self).stream_buf == old(self).stream_buf,
            final(self).stream_has_badge == old(self).stream_has_badge,
    {
        self.scroll = self.scroll.saturating_sub(n);
        self.auto_scroll = self.scroll == 0;
    }

    /// Keeps the scroll within the lines there are.
    pub fn fit_scroll(&mut self, visible: usize)
        ensures
            final(self).scroll == min_int(
                old(self).scroll as int,
                sat_sub(old(self).chat_lines@.len() as int, visible as int),
            ),
            final(self).auto_scroll == old(self).auto_scroll,
            final(self).chat_lines == old(self).chat_lines,
            final(self).user_indices == old(self).user_indices,
            final(self).input == old(self).input,
            final(self).processing == old(self).processing,
            final(self).status == old(self).status,
            final(self).stream_buf == old(self).stream_buf,
            final(self).stream_has_badge == old(self).stream_has_badge,
    {
        let top = self.chat_lines.len().saturating_sub(visible);
        if top < self.scroll {
            self.scroll = top;
        }
    }

    /// Scrolls to the user's line before the first line shown (the top
    /// when there is none), and stops following the bottom.
    pub fn prev_user(&mut self, visible: usize)
        requires
            old(self).wf(),
            old(self).scroll + visible <= usize::MAX,
            old(self).chat_lines@.len() + visible < usize::MAX,
        ensures
            final(self).scroll == prev_scroll(*old(self), visible as int),
            !final(self).auto_scroll,
            final(self).chat_lines == old(self).chat_lines,
            final(self).user_indices == old(self).user_indices,
            final(self).input == old(self).input,
            final(self).processing == old(self).processing,
            final(self).status == old(self).status,
            final(self).stream_buf == old(self).stream_buf,
            final(self).stream_has_badge == old(self).stream_has_badge,
    {
        let total = self.chat_lines.len();
        let first = total.saturating_sub(self.scroll + visible);
        let mut n = self.user_indices.len();
        while n > 0 && self.user_indices[n - 1] >= first
            invariant
                n <= self.user_indices@.len(),
                last_below(self.user_indices@, self.user_indices@.len() as int, first as int)
                    == last_below(self.user_indices@, n as int, first as int),
            decreases n,
        {
            n = n - 1;
        }
        let idx = if n > 0 {
            self.user_indices[n - 1]
        } else {
            0
        };
        proof {
            if n > 0 {
                assert(self.user_indices@[n - 1] < self.chat_lines@.len());
            }
        }
        let a = total.saturating_sub(idx + visible + 1);
        let b = total.saturating_sub(visible);
        self.scroll = if a < b {
            a
        } else {
            b
        };
        self.auto_scroll = false;
    }

    /// Scrolls to the user's line after the first line shown (the last
    /// user's line when there is none); follows the bottom again there.
    pub fn next_user(&mut self, visible: usize)
        requires
            old(self).wf(),
            old(self).scroll + visible <= usize::MAX,
            old(self).chat_lines@.len() + visible < usize::MAX,
        ensures
            final(self).scroll == next_scroll(*old(self), visible as int),
            final(self).auto_scroll == (final(self).scroll == 0),
            final(self).chat_lines == old(self).chat_lines,
            final(self).user_indices == old(self).user_indices,
            final(self).input == old(self).input,
            final(self).processing == old(self).processing,
            final(self).status == old(self).status,
            final(self).stream_buf == old(self).stream_buf,
            final(self).stream_has_badge == old(self).stream_has_badge,
    {
        let total = self.chat_lines.len();
        let first = total.saturating_sub(self.scroll + visible);
        let mut i: usize = 0;
        while i < self.user_indices.len() && self.user_indices[i] <= first + 1
            invariant
                i <= self.user_indices@.len(),
                first <= total,
                total < usize::MAX,
                first_above(self.user_indices@, 0, first + 1) == first_above(
                    self.user_indices@,
                    i as int,
                    first + 1,
                ),
            decreases self.user_indices@.len() - i,
        {
            i = i + 1;
        }
        let len = self.user_indices.len();
        let idx = if i < len {
            self.user_indices[i]
        } else if len > 0 {
            self.user_indices[len - 1]
        } else {
            0
        };
        proof {
            if i < len {
                assert(self.user_indices@[i as int] < self.chat_lines@.len());
            } else if len > 0 {
                assert(self.user_indices@[len - 1] < self.chat_lines@.len());
            }
        }
        let a = total.saturating_sub(idx + 1);
        let b = total.saturating_sub(visible);
        self.scroll = if a < b {
            a
        } else {
            b
        };
        self.auto_scroll = self.scroll == 0;
    }

    /// The lines drawn in a chat area of `visible` lines (see `window`).
    pub fn visible_lines(&self, visible: usize) -> (r: Vec<ChatLine>)
        requires
            self.scroll + visible <= usize::MAX,
        ensures
            lines_view(r@) == window(
                lines_view(self.chat_lines@) + partial_line(self.stream_buf@, self.stream_has_badge),
                self.scroll as int,
                visible as int,
            ),
    {
        let ghost all = lines_view(self.chat_lines@) + partial_line(
            self.stream_buf@,
            self.stream_has_badge,
        );
        let mut lines: Vec<ChatLine> = Vec::new();
        let mut i: usize = 0;
        while i < self.chat_lines.len()
            invariant
                i <= self.chat_lines@.len(),
                lines_view(lines@) == lines_view(self.chat_lines@).take(i as int),
            decreases self.chat_lines@.len() - i,
        {
            let l = copy_line(&self.chat_lines[i]);
            let ghost before = lines@;
            lines.push(l);
            proof {
                lemma_lines_view_push(before, l);
                assert(lines_view(self.chat_lines@)[i as int] == line_view(self.chat_lines@[i as int]));
            }
            assert(lines_view(lines@) =~= lines_view(self.chat_lines@).take(i + 1));
            i = i + 1;
        }
        assert(lines_view(self.chat_lines@).take(self.chat_lines@.len() as int) =~= lines_view(
            self.chat_lines@,
        ));
        if !self.stream_buf.as_str().is_empty() || self.stream_has_badge {
            let mut spans: Vec<Span> = Vec::new();
            if !self.stream_has_badge {
                spans.push(badge("agent"));
            }
            spans.push(span(Tone::Dim, sanitize(self.stream_buf.as_str())));
            let l = line_of(spans);
            let ghost before = lines@;
            lines.push(l);
            proof {
                lemma_lines_view_push(before, l);
                assert(line_view(l) =~= partial_line(self.stream_buf@, self.stream_has_badge)[0]);
                assert(lines_view(lines@) =~= all);
            }
        } else {
            assert(partial_line(self.stream_buf@, self.stream_has_badge) =~= Seq::<Seq<(Tone, Seq<char>)>>::empty());
            assert(lines_view(lines@) =~= all);
        }
        assert(lines_view(lines@).len() == lines@.len());
        let total = lines.len();
        let start = total.saturating_sub(visible + self.scroll);
        let count = if total - start < visible {
            total - start
        } else {
            visible
        };
        let mut out: Vec<ChatLine> = Vec::new();
        let mut j: usize = start;
        while j < start + count
            invariant
                start <= j <= start + count <= total,
                total == lines@.len(),
                lines_view(lines@) == all,
                lines_view(out@) == all.subrange(start as int, j as int),
            decreases start + count - j,
        {
            let l = copy_line(&lines[j]);
            let ghost before = out@;
            out.push(l);
            proof {
                lemma_lines_view_push(before, l);
                assert(all[j as int] == line_view(lines@[j as int]));
            }
            assert(lines_view(out@) =~= all.subrange(start as int, j + 1));
            j = j + 1;
        }
        let ghost shown = lines_view(out@);
        let mut pad: usize = count;
        while pad < visible
            invariant
                count <= pad <= visible,
                lines_view(out@) == shown + Seq::new((pad - count) as nat, |k: int| blank_line()),
            decreases visible - pad,
        {
            let blank = line_of(vec![span(Tone::Plain, " ".to_owned())]);
            assert(line_view(blank) =~= blank_line());
            let ghost before = out@;
            out.push(blank);
            proof {
                lemma_lines_view_push(before, blank);
            }
            assert(lines_view(out@) =~= shown + Seq::new((pad + 1 - count) as nat, |k: int| blank_line()));
            pad = pad + 1;
        }
        out
    }

    /// The status bar: the model, a mark while a turn runs, how far the
    /// view is scrolled up when it does not follow the bottom, and the
    /// last status message.
    pub fn status_text(&self, model: &str) -> (r: String)
        ensures
            r@ == " Relay | "@ + model@ + (if self.processing {
                " ⏳"@
            } else {
                Seq::empty()
            }) + (if !self.auto_scroll && self.scroll > 0 {
                " ↑"@ + decimal(self.scroll as nat)
            } else {
                Seq::empty()
            }) + (if self.status@.len() == 0 {
                Seq::empty()
            } else {
                " | "@ + self.status@
            }),
    {
        let mut v = crate::text::chars_of(" Relay | ");
        crate::text::push_str(&mut v, model);
        if self.processing {
            crate::text::push_str(&mut v, " ⏳");
        }
        if !self.auto_scroll && self.scroll > 0 {
            crate::text::push_str(&mut v, " ↑");
            crate::text::push_decimal(&mut v, self.scroll as u64);
        }
        if !self.status.as_str().is_empty() {
            crate::text::push_str(&mut v, " | ");
            crate::text::push_str(&mut v, self.status.as_str());
        }
        let ghost a = " Relay | "@ + model@;
        assert(v@ =~= " Relay | "@ + model@ + (if self.processing {
            " ⏳"@
        } else {
            Seq::empty()
        }) + (if !self.auto_scroll && self.scroll > 0 {
            " ↑"@ + decimal(self.scroll as nat)
        } else {
            Seq::empty()
        }) + (if self.status@.len() == 0 {
            Seq::empty()
        } else {
            " | "@ + self.status@
        }));
        crate::text::string_of(v.as_slice())
    }

    /// Adds a line of the user's and remembers where it is.
    pub fn push_user(&mut self, line: ChatLine)
        ensures
            lines_view(final(self).chat_lines@) == lines_view(old(self).chat_lines@).push(
                clean_line(line_view(line)),
            ),
            final(self).user_indices@ == old(self).user_indices@.push(
                old(self).chat_lines@.len() as usize,
            ),
            final(self).scroll == if old(self).auto_scroll {
                0
            } else {
                old(self).scroll
            },
            final(self).input == old(self).input,
            final(self).processing == old(self).processing,
            final(self).status == old(self).status,
            final(self).stream_buf == old(self).stream_buf,
            final(self).stream_has_badge == old(self).stream_has_badge,
            final(self).auto_scroll == old(self).auto_scroll,
            old(self).wf() ==> final(self).wf(),
    {
        let n = self.chat_lines.len();
        self.user_indices.push(n);
        self.push(line);
        proof {
            if old(self).wf() {
                assert forall|i: int| 0 <= i < self.user_indices@.len() implies #[trigger] self.user_indices@[i]
                    < self.chat_lines@.len() by {
                    if i < old(self).user_indices@.len() {
                        assert(self.user_indices@[i] == old(self).user_indices@[i]);
                    }
                }
            }
        }
    }
}

// ------------------------------------------------------------------
// Events, keys and commands
// ------------------------------------------------------------------

/// What a turn tells the view.
pub enum ViewEvent {
    Content(String),
    ToolCallExecuting { name: String, args: String },
    ToolCallResult { display: String, success: bool },
    /// The statistics line of a round, already formatted.
    Stats(String),
    Warning(String),
    Error(String),
    Done,
    ModeChanged { from: AgentMode, to: AgentMode },
    /// What the view does not show.
    Other,
}

/// The lines after the reply being streamed is ended (see `flush_stream`).
pub open spec fn flushed(a: AppState) -> Seq<Seq<(Tone, Seq<char>)>> {
    if a.stream_buf@.len() == 0 {
        lines_view(a.chat_lines@)
    } else {
        lines_view(a.chat_lines@).push(clean_line(reply_line(a.stream_buf@, a.stream_has_badge)))
    }
}

/// The line shown when a tool starts.
pub open spec fn executing_line(name: Seq<char>, args: Seq<char>) -> Seq<(Tone, Seq<char>)> {
    seq![(Tone::ToolMark, " ◆ "@), (Tone::ToolName, name), (Tone::ToolArgs, args)]
}

impl AppState {
    /// Shows what a turn reports: streamed text, tool activity, statistics,
    /// warnings and errors; the end of the turn ends the reply and the
    /// processing; a mode change goes to the status bar.
    pub fn on_event(&mut self, ev: ViewEvent)
        ensures
            old(self).wf() ==> final(self).wf(),
            final(self).user_indices == old(self).user_indices,
            final(self).input == old(self).input,
            final(self).auto_scroll == old(self).auto_scroll,
            !(ev is Done) ==> final(self).processing == old(self).processing,
            !(ev is ModeChanged) ==> final(self).status == old(self).status,
            final(self).scroll == if final(self).chat_lines@.len() > old(self).chat_lines@.len()
                && old(self).auto_scroll {
                0
            } else {
                old(self).scroll
            },
            (ev is ToolCallExecuting || ev is ToolCallResult || ev is Done)
                ==> final(self).stream_buf@.len() == 0 && !final(self).stream_has_badge,
            (ev is Stats || ev is Warning || ev is Error) ==> final(self).stream_buf
                == old(self).stream_buf && final(self).stream_has_badge == old(self).stream_has_badge,
            match ev {
                ViewEvent::Content(t) => {
                    let parts = stream_split(without_cr(old(self).stream_buf@ + t@));
                    &&& final(self).stream_buf@ == parts.1
                    &&& lines_view(final(self).chat_lines@) == lines_view(old(self).chat_lines@)
                        + reply_lines(parts.0, old(self).stream_has_badge)
                },
                ViewEvent::ToolCallExecuting { name, args } => lines_view(final(self).chat_lines@)
                    == flushed(*old(self)).push(clean_line(executing_line(name@, args@))),
                ViewEvent::ToolCallResult { display, success } => lines_view(final(self).chat_lines@)
                    == flushed(*old(self)).push(
                    clean_line(seq![(if success { Tone::Dim } else { Tone::Failure }, display@)]),
                ),
                ViewEvent::Stats(line) => lines_view(final(self).chat_lines@) == lines_view(
                    old(self).chat_lines@,
                ).push(clean_line(seq![(Tone::Dim, line@)])),
                ViewEvent::Warning(m) => lines_view(final(self).chat_lines@) == lines_view(
                    old(self).chat_lines@,
                ).push(clean_line(seq![(Tone::Warning, " ⚠ "@ + m@)])),
                ViewEvent::Error(m) => lines_view(final(self).chat_lines@) == lines_view(
                    old(self).chat_lines@,
                ).push(clean_line(seq![(Tone::Failure, " ✗ "@ + m@)])),
                ViewEvent::Done => lines_view(final(self).chat_lines@) == flushed(*old(self))
                    && !final(self).processing,
                ViewEvent::ModeChanged { from, to } => *final(self) == AppState {
                    status: final(self).status,
                    ..*old(self)
                } && final(self).status@ == crate::mode::mode_label(from) + " → "@
                    + crate::mode::mode_label(to),
                ViewEvent::Other => *final(self) == *old(self),
            },
    {
        match ev {
            ViewEvent::Content(t) => {
                self.stream(t.as_str());
            },
            ViewEvent::ToolCallExecuting { name, args } => {
                self.flush_stream();
                let l = line_of(vec![span(Tone::ToolMark, " ◆ ".to_owned()), span(Tone::ToolName, name), span(Tone::ToolArgs, args)]);
                assert(line_view(l) =~= executing_line(name@, args@));
                self.push(l);
            },
            ViewEvent::ToolCallResult { display, success } => {
                self.flush_stream();
                let tone = if success {
                    Tone::Dim
                } else {
                    Tone::Failure
                };
                let l = line_of(vec![span(tone, display)]);
                assert(line_view(l) =~= seq![(tone, display@)]);
                self.push(l);
            },
            ViewEvent::Stats(line) => {
                let l = line_of(vec![span(Tone::Dim, line)]);
                assert(line_view(l) =~= seq![(Tone::Dim, line@)]);
                self.push(l);
            },
            ViewEvent::Warning(m) => {
                let mut v = crate::text::chars_of(" ⚠ ");
                crate::text::push_str(&mut v, m.as_str());
                let l = line_of(vec![span(Tone::Warning, crate::text::string_of(v.as_slice()))]);
                assert(line_view(l) =~= seq![(Tone::Warning, " ⚠ "@ + m@)]);
                self.push(l);
            },
            ViewEvent::Error(m) => {
                let mut v = crate::text::chars_of(" ✗ ");
                crate::text::push_str(&mut v, m.as_str());
                let l = line_of(vec![span(Tone::Failure, crate::text::string_of(v.as_slice()))]);
                assert(line_view(l) =~= seq![(Tone::Failure, " ✗ "@ + m@)]);
                self.push(l);
            },
            ViewEvent::Done => {
                self.flush_stream();
                self.processing = false;
            },
            ViewEvent::ModeChanged { from, to } => {
                let mut v = crate::text::chars_of(crate::mode::mode_name(from));
                crate::text::push_str(&mut v, " → ");
                crate::text::push_str(&mut v, crate::mode::mode_name(to));
                self.status = crate::text::string_of(v.as_slice());
            },
            ViewEvent::Other => {},
        }
    }
}

/// A key, as far as the view tells keys apart.
#[derive(Debug, Clone, Copy)]
pub enum Key {
    Char(char),
    Enter,
    Backspace,
    Esc,
    Up,
    Down,
    PageUp,
    PageDown,
    Other,
}

/// What a key asks of the program.
pub enum KeyAction {
    Nothing,
    Quit,
    /// The input line, sent.
    Submit(String),
    /// A command line to carry out as if it had been sent; the input stays.
    Command(String),
}

/// The mode command that a Ctrl shortcut stands for: Ctrl+P plans, Ctrl+A
/// runs on its own, Ctrl+Y asks before writes and commands.
pub open spec fn shortcut_command(c: char) -> Option<Seq<char>> {
    if c == 'p' {
        Some("/plan"@)
    } else if c == 'a' {
        Some("/auto"@)
    } else if c == 'y' {
        Some("/confirm"@)
    } else {
        None
    }
}

/// The mode command of a Ctrl shortcut (see `shortcut_command`).
fn shortcut_command_exec(c: char) -> (r: Option<String>)
    ensures
        crate::reflect::opt_view(r) == shortcut_command(c),
{
    if c == 'p' {
        Some("/plan".to_owned())
    } else if c == 'a' {
        Some("/auto".to_owned())
    } else if c == 'y' {
        Some("/confirm".to_owned())
    } else {
        None
    }
}

/// What a sent line asks of the program.
pub enum SubmitAction {
    Quit,
    Handled,
    /// Run a turn for this message, already added to the session.
    StartTurn(String),
}

/// The text without its last character.
pub open spec fn drop_last_char(s: Seq<char>) -> Seq<char> {
    if s.len() == 0 {
        s
    } else {
        s.drop_last()
    }
}

impl AppState {
    /// The view after a key: typing edits the input; Enter sends it and
    /// Ctrl+Enter starts a new line (the other way round when `enter_sends` is
    /// off); Ctrl+C and Esc quit and Ctrl+P, Ctrl+A and Ctrl+Y switch the mode
    /// when no turn runs; the arrows and page keys scroll, with Shift jumping
    /// between the user's lines.
    pub fn on_key(
        &mut self,
        key: Key,
        ctrl: bool,
        alt: bool,
        shift: bool,
        enter_sends: bool,
        visible: usize,
    ) -> (r: KeyAction)
        requires
            old(self).wf(),
            old(self).scroll + visible + 1 <= usize::MAX,
            old(self).chat_lines@.len() + visible < usize::MAX,
        ensures
            final(self).wf(),
            final(self).chat_lines == old(self).chat_lines,
            final(self).user_indices == old(self).user_indices,
            final(self).processing == old(self).processing,
            final(self).status == old(self).status,
            final(self).stream_buf == old(self).stream_buf,
            final(self).stream_has_badge == old(self).stream_has_badge,
            match key {
                Key::Char(c) => if !ctrl && !alt {
                    r is Nothing && final(self).input@ == old(self).input@.push(c)
                        && final(self).scroll == old(self).scroll
                } else if c == 'c' && ctrl && !old(self).processing {
                    r is Quit && *final(self) == *old(self)
                } else if ctrl && !alt && !old(self).processing && shortcut_command(c) is Some {
                    r matches KeyAction::Command(t) && Some(t@) == shortcut_command(c)
                        && *final(self) == *old(self)
                } else {
                    r is Nothing && *final(self) == *old(self)
                },
                Key::Enter => if ctrl != enter_sends && !old(self).processing && old(self).input@.len() > 0 {
                    r matches KeyAction::Submit(t) && t@ == old(self).input@ && final(self).input@.len()
                        == 0 && final(self).scroll == old(self).scroll
                } else if ctrl == enter_sends {
                    r is Nothing && final(self).input@ == old(self).input@.push('\n')
                        && final(self).scroll == old(self).scroll
                } else {
                    r is Nothing && *final(self) == *old(self)
                },
                Key::Backspace => r is Nothing && final(self).input@ == drop_last_char(old(self).input@)
                    && final(self).scroll == old(self).scroll,
                Key::Esc => if !old(self).processing {
                    r is Quit && *final(self) == *old(self)
                } else {
                    r is Nothing && *final(self) == *old(self)
                },
                Key::Up => r is Nothing && final(self).input == old(self).input && final(self).scroll
                    == up_scroll(*old(self), 1, visible as int) && final(self).auto_scroll == (
                final(self).scroll == 0),
                Key::Down => r is Nothing && final(self).input == old(self).input && final(self).scroll
                    == sat_sub(old(self).scroll as int, 1) && final(self).auto_scroll == (final(self).scroll
                    == 0),
                Key::PageUp => r is Nothing && final(self).input == old(self).input && (if shift {
                    final(self).scroll == prev_scroll(*old(self), visible as int) && !final(self).auto_scroll
                } else {
                    final(self).scroll == up_scroll(*old(self), visible as int, visible as int)
                        && final(self).auto_scroll == (final(self).scroll == 0)
                }),
                Key::PageDown => r is Nothing && final(self).input == old(self).input && (if shift {
                    final(self).scroll == next_scroll(*old(self), visible as int)
                } else {
                    final(self).scroll == sat_sub(old(self).scroll as int, visible as int)
                }) && final(self).auto_scroll == (final(self).scroll == 0),
                Key::Other => r is Nothing && *final(self) == *old(self),
            },
    {
        match key {
            Key::Char(c) => {
                if !ctrl && !alt {
                    crate::text::push_char(&mut self.input, c);
                    KeyAction::Nothing
                } else if c == 'c' && ctrl && !self.processing {
                    KeyAction::Quit
                } else if ctrl && !alt && !self.processing {
                    match shortcut_command_exec(c) {
                        Some(command) => KeyAction::Command(command),
                        None => KeyAction::Nothing,
                    }
                } else {
                    KeyAction::Nothing
                }
            },
            Key::Enter => {
                if ctrl != enter_sends && !self.processing && !self.input.as_str().is_empty() {
                    let mut text = String::new();
                    std::mem::swap(&mut text, &mut self.input);
                    KeyAction::Submit(text)
                } else if ctrl == enter_sends {
                    crate::text::push_char(&mut self.input, '\n');
                    KeyAction::Nothing
                } else {
                    KeyAction::Nothing
                }
            },
            Key::Backspace => {
                let mut v = crate::text::chars_of(self.input.as_str());
                if v.len() > 0 {
                    v.pop();
                }
                self.input = crate::text::string_of(v.as_slice());
                KeyAction::Nothing
            },
            Key::Esc => {
                if !self.processing {
                    KeyAction::Quit
                } else {
                    KeyAction::Nothing
                }
            },
            Key::Up => {
                self.scroll_up(1, visible);
                KeyAction::Nothing
            },
            Key::Down => {
                self.scroll_down(1);
                KeyAction::Nothing
            },
            Key::PageUp => {
                if shift {
                    self.prev_user(visible);
                } else {
                    self.scroll_up(visible, visible);
                }
                KeyAction::Nothing
            },
            Key::PageDown => {
                if shift {
                    self.next_user(visible);
                } else {
                    self.scroll_down(visible);
                }
                KeyAction::Nothing
            },
            Key::Other => KeyAction::Nothing,
        }
    }
}

/// The line that shows a message of the user's: the text, then the
/// user's bar.
pub open spec fn user_line(text: Seq<char>) -> Seq<(Tone, Seq<char>)> {
    seq![(Tone::Plain, text), (Tone::Plain, "  "@), badge_view("user"@)]
}

/// Whether a sent line is a command.
pub open spec fn is_command_line(text: Seq<char>) -> bool {
    text.len() > 0 && text[0] == '/'
}

impl AppState {
    /// Takes a sent line. A command (`/exit`, `/quit`, `/clear`, `/auto`,
    /// `/confirm`, `/plan`, as typed) is carried out, an unknown one noted in
    /// the status bar; a message is shown, added to the session, and starts
    /// a turn.
    pub fn submit(&mut self, text: String, session: &mut Session, mode: &mut ModeState) -> (r: SubmitAction)
        requires
            old(self).wf(),
            is_command_line(text@) ==> command_words(text@).len() > 0,
        ensures
            final(self).wf(),
            final(self).input == old(self).input,
            final(self).stream_buf == old(self).stream_buf,
            final(self).stream_has_badge == old(self).stream_has_badge,
            final(self).auto_scroll == old(self).auto_scroll,
            final(self).scroll == if !is_command_line(text@) && old(self).auto_scroll {
                0
            } else {
                old(self).scroll
            },
            final(session).system_prompt == old(session).system_prompt,
            final(session).max_tokens == old(session).max_tokens,
            is_command_line(text@) ==> ({
                let w = command_words(text@)[0];
                &&& final(self).processing == old(self).processing
                &&& if w == "exit"@ || w == "quit"@ {
                    &&& r is Quit
                    &&& *final(self) == *old(self)
                    &&& *final(session) == *old(session)
                    &&& *final(mode) == *old(mode)
                } else if w == "clear"@ {
                    &&& r is Handled
                    &&& final(self).chat_lines@.len() == 0
                    &&& final(self).user_indices@.len() == 0
                    &&& final(self).status == old(self).status
                    &&& *final(session) == *old(session)
                    &&& *final(mode) == *old(mode)
                } else if w == "auto"@ || w == "confirm"@ || w == "plan"@ {
                    &&& r is Handled
                    &&& final(self).chat_lines == old(self).chat_lines
                    &&& final(self).user_indices == old(self).user_indices
                    &&& switched(*old(mode), *final(mode), mode_named(w))
                    &&& final(session).messages@.len() == old(session).messages@.len() + 1
                    &&& final(session).messages@.drop_last() == old(session).messages@
                    &&& final(session).messages@.last() matches Message::System { content }
                        && content@ == description(mode_named(w))
                    &&& final(self).status@ == "mode: "@ + mode_label(old(mode).current) + " → "@ + w
                } else {
                    &&& r is Handled
                    &&& final(self).chat_lines == old(self).chat_lines
                    &&& final(self).user_indices == old(self).user_indices
                    &&& *final(session) == *old(session)
                    &&& *final(mode) == *old(mode)
                    &&& final(self).status@ == "unknown: /"@ + w
                }
            }),
            !is_command_line(text@) ==> {
                &&& r matches SubmitAction::StartTurn(t) && t@ == text@
                &&& lines_view(final(self).chat_lines@) == lines_view(old(self).chat_lines@).push(
                    clean_line(user_line(text@)),
                )
                &&& final(self).user_indices@ == old(self).user_indices@.push(
                    old(self).chat_lines@.len() as usize,
                )
                &&& final(self).processing
                &&& final(self).status == old(self).status
                &&& final(session).messages@.len() == old(session).messages@.len() + 1
                &&& final(session).messages@.drop_last() == old(session).messages@
                &&& final(session).messages@.last() matches Message::User { content } && content@ == text@
                &&& *final(mode) == *old(mode)
            },
    {
        let v = crate::text::chars_of(text.as_str());
        if v.len() > 0 && v[0] == '/' {
            let rest = crate::text::slice_chars(v.as_slice(), 1, v.len());
            assert(rest@ =~= text@.skip(1));
            let parts = crate::text::split_words(rest.as_slice());
            let ghost pv = parts.deep_view();
            let first = crate::text::string_of(parts[0].as_slice());
            assert(first@ == pv[0]);
            let w = first.as_str();
            if crate::text::str_eq(w, "exit") || crate::text::str_eq(w, "quit") {
                SubmitAction::Quit
            } else if crate::text::str_eq(w, "clear") {
                self.chat_lines.clear();
                self.user_indices.clear();
                SubmitAction::Handled
            } else if crate::text::str_eq(w, "auto") || crate::text::str_eq(w, "confirm")
                || crate::text::str_eq(w, "plan") {
                let target = crate::mode::mode_from_name(w);
                let from = mode.current;
                mode.switch_to(target);
                let suffix = mode.system_prompt_suffix();
                session.inject_system_message(suffix.as_str());
                let mut m = crate::text::chars_of("mode: ");
                crate::text::push_str(&mut m, crate::mode::mode_name(from));
                crate::text::push_str(&mut m, " → ");
                crate::text::push_str(&mut m, w);
                self.status = crate::text::string_of(m.as_slice());
                SubmitAction::Handled
            } else {
                let mut m = crate::text::chars_of("unknown: /");
                crate::text::push_str(&mut m, w);
                self.status = crate::text::string_of(m.as_slice());
                SubmitAction::Handled
            }
        } else {
            let l = line_of(vec![span(Tone::Plain, text.clone()), span(Tone::Plain, "  ".to_owned()), badge("user")]);
            assert(line_view(l) =~= user_line(text@));
            self.push_user(l);
            session.add_user_message(text.as_str());
            self.processing = true;
            SubmitAction::StartTurn(text)
        }
    }
}

} // verus!
