//! Memory system: entries listed in a `MEMORY.md` index, each kept in a file
//! with an optional frontmatter that gives its type.
use vstd::prelude::*;
use crate::text::{
    char_boundary, char_boundary_exec, chars_of, find, find_chars, find_from, join, join_strings,
    lemma_find_from_bounds, lines, push_str, slice_chars, split_lines, starts_with,
    starts_with_chars, str_eq, string_of, strip_prefix_chars, trim, trim_chars, trim_start,
    trim_start_char, trim_start_char_exec, trim_start_chars,
};

verus! {

/// Kind of a memory entry.
#[derive(Debug, Clone, Copy, PartialEq, Eq, Structural)]
pub enum MemoryType {
    User,
    Feedback,
    Project,
    Reference,
}

/// The type a name stands for; unknown names are references.
pub open spec fn memory_type_named(s: Seq<char>) -> MemoryType {
    if s == "user"@ {
        MemoryType::User
    } else if s == "feedback"@ {
        MemoryType::Feedback
    } else if s == "project"@ {
        MemoryType::Project
    } else {
        MemoryType::Reference
    }
}

/// The name of a type.
pub open spec fn memory_type_name(t: MemoryType) -> Seq<char> {
    match t {
        MemoryType::User => "user"@,
        MemoryType::Feedback => "feedback"@,
        MemoryType::Project => "project"@,
        MemoryType::Reference => "reference"@,
    }
}

impl MemoryType {
    /// The type a name stands for; unknown names are references.
    pub fn from_str(s: &str) -> (t: Self)
        ensures
            t == memory_type_named(s@),
    {
        if str_eq(s, "user") {
            MemoryType::User
        } else if str_eq(s, "feedback") {
            MemoryType::Feedback
        } else if str_eq(s, "project") {
            MemoryType::Project
        } else {
            MemoryType::Reference
        }
    }

    /// The type's name.
    pub fn as_str(&self) -> (r: &'static str)
        ensures
            r@ == memory_type_name(*self),
    {
        match self {
            MemoryType::User => "user",
            MemoryType::Feedback => "feedback",
            MemoryType::Project => "project",
            MemoryType::Reference => "reference",
        }
    }
}

/// One remembered item.
#[derive(Debug, Clone)]
pub struct MemoryEntry {
    pub name: String,
    pub description: String,
    pub content: String,
    pub memory_type: MemoryType,
}

impl MemoryEntry {
    /// Name of the entry's type.
    pub fn memory_type_str(&self) -> (r: &'static str)
        ensures
            r@ == memory_type_name(self.memory_type),
    {
        self.memory_type.as_str()
    }
}

/// A line of the index: `- [Title](file.md) — description`.
#[derive(Debug, Clone)]
pub struct MemoryIndexEntry {
    pub name: String,
    pub file_name: String,
    pub description: String,
}

/// Title, file name and description of an index line, if it is an entry.
pub open spec fn index_entry(line: Seq<char>) -> Option<(Seq<char>, Seq<char>, Seq<char>)> {
    let l = trim(line);
    if starts_with(l, "- ["@) {
        let rest = l.skip(3);
        match find(rest, "]("@) {
            Some(eb) => {
                let after = rest.skip(eb + 2);
                match find(after, ")"@) {
                    Some(ep) => Some(
                        (
                            rest.take(eb),
                            after.take(ep),
                            trim(trim_start_char(trim_start_char(trim(after.skip(ep + 1)), '—'), '-')),
                        ),
                    ),
                    None => None,
                }
            },
            None => None,
        }
    } else {
        None
    }
}

/// The entries of the lines of an index, in order.
pub open spec fn index_entries(ls: Seq<Seq<char>>) -> Seq<(Seq<char>, Seq<char>, Seq<char>)>
    decreases ls.len(),
{
    if ls.len() == 0 {
        Seq::empty()
    } else {
        match index_entry(ls.last()) {
            Some(e) => index_entries(ls.drop_last()).push(e),
            None => index_entries(ls.drop_last()),
        }
    }
}

/// The view of an index entry: title, file name, description.
pub open spec fn index_entry_view(e: MemoryIndexEntry) -> (Seq<char>, Seq<char>, Seq<char>) {
    (e.name@, e.file_name@, e.description@)
}

/// The type given by the last `type:` line of a frontmatter.
pub open spec fn front_type(ls: Seq<Seq<char>>) -> MemoryType
    decreases ls.len(),
{
    if ls.len() == 0 {
        MemoryType::Reference
    } else if starts_with(trim(ls.last()), "type:"@) {
        memory_type_named(trim(trim(ls.last()).skip(5)))
    } else {
        front_type(ls.drop_last())
    }
}

/// Whether `parse_memory_file` can take the content: a frontmatter marker
/// after leading whitespace needs byte 3 to start a character.
pub open spec fn memory_file_ok(content: Seq<char>) -> bool {
    starts_with(trim_start(content), "---"@) ==> char_boundary(content, 3) is Some
}

/// Whether `parse_memory_file` can take the content (see `memory_file_ok`).
pub fn accepts_memory_file(content: &str) -> (r: bool)
    ensures
        r == memory_file_ok(content@),
{
    let v = chars_of(content);
    let dashes: Vec<char> = vec!['-', '-', '-'];
    proof {
        reveal_strlit("---");
        assert(dashes@ =~= "---"@);
    }
    let lead = trim_start_chars(v.as_slice());
    if starts_with_chars(lead.as_slice(), dashes.as_slice()) {
        char_boundary_exec(v.as_slice(), 3).is_some()
    } else {
        true
    }
}

/// Type and body of a memory file. A file whose text (past leading
/// whitespace) starts with `---` has a frontmatter from byte 3 up to the
/// next `---`; the body follows that marker. Otherwise the whole text is
/// the body and the type is Reference.
pub open spec fn memory_file_parts(content: Seq<char>) -> (MemoryType, Seq<char>) {
    if starts_with(trim_start(content), "---"@) {
        let k = char_boundary(content, 3)->0;
        match find_from(content, "---"@, k) {
            Some(q) => (front_type(lines(content.subrange(k, q))), trim(content.skip(q + 3))),
            None => (MemoryType::Reference, trim(content)),
        }
    } else {
        (MemoryType::Reference, trim(content))
    }
}

/// The type of the frontmatter lines.
fn frontmatter_type(ls: &Vec<Vec<char>>) -> (t: MemoryType)
    ensures
        t == front_type(ls.deep_view()),
{
    let ghost dv = ls.deep_view();
    let prefix: Vec<char> = vec!['t', 'y', 'p', 'e', ':'];
    proof {
        reveal_strlit("type:");
        assert(prefix@ =~= "type:"@);
    }
    let mut t = MemoryType::Reference;
    let mut i: usize = 0;
    while i < ls.len()
        invariant
            dv == ls.deep_view(),
            prefix@ == "type:"@,
            prefix@.len() == 5,
            i <= ls@.len(),
            t == front_type(dv.take(i as int)),
        decreases ls@.len() - i,
    {
        let line = trim_chars(ls[i].as_slice());
        proof {
            assert(dv.take(i + 1).drop_last() =~= dv.take(i as int));
            assert(dv[i as int] == ls@[i as int]@);
            assert(dv.take(i + 1).last() == dv[i as int]);
            assert(line@ == trim(dv[i as int]));
        }
        match strip_prefix_chars(line.as_slice(), prefix.as_slice()) {
            Some(val) => {
                let name = string_of(trim_chars(val.as_slice()).as_slice());
                t = MemoryType::from_str(name.as_str());
            },
            None => {},
        }
        i = i + 1;
    }
    assert(dv.take(ls@.len() as int) =~= dv);
    t
}

/// Type and body of a memory file (see `memory_file_parts`).
pub fn parse_memory_file(content: &str) -> (r: (MemoryType, String))
    requires
        memory_file_ok(content@),
    ensures
        (r.0, r.1@) == memory_file_parts(content@),
{
    let v = chars_of(content);
    let dashes: Vec<char> = vec!['-', '-', '-'];
    proof {
        reveal_strlit("---");
        assert(dashes@ =~= "---"@);
    }
    let lead = trim_start_chars(v.as_slice());
    if starts_with_chars(lead.as_slice(), dashes.as_slice()) {
        let k = match char_boundary_exec(v.as_slice(), 3) {
            Some(k) => k,
            None => {
                assert(false);
                0
            },
        };
        match find_chars(v.as_slice(), dashes.as_slice(), k) {
            Some(q) => {
                proof {
                    lemma_find_from_bounds(v@, "---"@, k as int);
                }
                let vlen = v.len();
                assert(q + 3 <= vlen);
                let front = slice_chars(v.as_slice(), k, q);
                let ls = split_lines(front.as_slice());
                let t = frontmatter_type(&ls);
                let body = trim_chars(slice_chars(v.as_slice(), q + 3, v.len()).as_slice());
                assert(v@.subrange(q + 3, v@.len() as int) =~= v@.skip(q + 3));
                return (t, string_of(body.as_slice()));
            },
            None => {},
        }
    }
    let body = trim_chars(v.as_slice());
    (MemoryType::Reference, string_of(body.as_slice()))
}

/// The entry of an index line, if it is one (see `index_entry`).
pub fn parse_index_line(line: &[char]) -> (r: Option<MemoryIndexEntry>)
    ensures
        match r {
            Some(e) => index_entry(line@) == Some(index_entry_view(e)),
            None => index_entry(line@) is None,
        },
{
    let l = trim_chars(line);
    let open: Vec<char> = vec!['-', ' ', '['];
    let mid: Vec<char> = vec![']', '('];
    let close: Vec<char> = vec![')'];
    proof {
        reveal_strlit("- [");
        reveal_strlit("](");
        reveal_strlit(")");
        assert(open@ =~= "- ["@);
        assert(mid@ =~= "]("@);
        assert(close@ =~= ")"@);
    }
    let rest = match strip_prefix_chars(l.as_slice(), open.as_slice()) {
        Some(rest) => rest,
        None => return None,
    };
    assert(rest@ =~= trim(line@).skip(3));
    let eb = match find_chars(rest.as_slice(), mid.as_slice(), 0) {
        Some(eb) => eb,
        None => return None,
    };
    proof {
        lemma_find_from_bounds(rest@, "]("@, 0);
    }
    let after = slice_chars(rest.as_slice(), eb + 2, rest.len());
    assert(after@ =~= rest@.skip(eb + 2));
    let ep = match find_chars(after.as_slice(), close.as_slice(), 0) {
        Some(ep) => ep,
        None => return None,
    };
    proof {
        lemma_find_from_bounds(after@, ")"@, 0);
    }
    let name = slice_chars(rest.as_slice(), 0, eb);
    let file_name = slice_chars(after.as_slice(), 0, ep);
    let tail = slice_chars(after.as_slice(), ep + 1, after.len());
    assert(tail@ =~= after@.skip(ep + 1));
    let d1 = trim_chars(tail.as_slice());
    let d2 = trim_start_char_exec(d1.as_slice(), '—');
    let d3 = trim_start_char_exec(d2.as_slice(), '-');
    let desc = trim_chars(d3.as_slice());
    assert(name@ =~= rest@.take(eb as int));
    assert(file_name@ =~= after@.take(ep as int));
    Some(
        MemoryIndexEntry {
            name: string_of(name.as_slice()),
            file_name: string_of(file_name.as_slice()),
            description: string_of(desc.as_slice()),
        },
    )
}

/// The entries of a `MEMORY.md` index, in order.
pub fn parse_memory_index(index_content: &str) -> (r: Vec<MemoryIndexEntry>)
    ensures
        r@.map_values(|e: MemoryIndexEntry| index_entry_view(e)) == index_entries(
            lines(index_content@),
        ),
{
    let v = chars_of(index_content);
    let ls = split_lines(v.as_slice());
    let ghost dv = ls.deep_view();
    let mut r: Vec<MemoryIndexEntry> = Vec::new();
    let mut i: usize = 0;
    while i < ls.len()
        invariant
            dv == ls.deep_view(),
            dv == lines(index_content@),
            i <= ls@.len(),
            r@.map_values(|e: MemoryIndexEntry| index_entry_view(e)) == index_entries(
                dv.take(i as int),
            ),
        decreases ls@.len() - i,
    {
        proof {
            assert(dv.take(i + 1).drop_last() =~= dv.take(i as int));
            assert(dv.take(i + 1).last() == ls@[i as int]@);
        }
        let ghost old_r = r@;
        match parse_index_line(ls[i].as_slice()) {
            Some(e) => {
                r.push(e);
                assert(r@.map_values(|e: MemoryIndexEntry| index_entry_view(e)) =~= old_r.map_values(
                    |e: MemoryIndexEntry| index_entry_view(e),
                ).push(index_entry_view(e)));
            },
            None => {},
        }
        i = i + 1;
    }
    assert(dv.take(ls@.len() as int) =~= dv);
    r
}

/// The loaded memory entries.
pub struct MemoryStore {
    pub entries: Vec<MemoryEntry>,
}

/// One line of the index summary: `- [type] description`.
pub open spec fn summary_line(e: MemoryEntry) -> Seq<char> {
    "- ["@ + memory_type_name(e.memory_type) + "] "@ + e.description@
}

impl MemoryStore {
    /// An empty store.
    pub fn new() -> (s: Self)
        ensures
            s.entries@.len() == 0,
    {
        MemoryStore { entries: Vec::new() }
    }

    /// Adds the entry of an index line, whose file holds `file_content`.
    pub fn add_loaded(&mut self, entry: &MemoryIndexEntry, file_content: &str)
        requires
            memory_file_ok(file_content@),
        ensures
            final(self).entries@.len() == old(self).entries@.len() + 1,
            final(self).entries@.drop_last() == old(self).entries@,
            ({
                let e = final(self).entries@.last();
                &&& e.name@ == entry.name@
                &&& e.description@ == entry.description@
                &&& (e.memory_type, e.content@) == memory_file_parts(file_content@)
            }),
    {
        let (memory_type, content) = parse_memory_file(file_content);
        self.entries.push(
            MemoryEntry {
                name: entry.name.clone(),
                description: entry.description.clone(),
                content,
                memory_type,
            },
        );
        assert(self.entries@.drop_last() =~= old(self).entries@);
    }

    /// One line per entry with its type and description, or a note that
    /// nothing is loaded.
    pub fn index_summary(&self) -> (r: String)
        ensures
            self.entries@.len() == 0 ==> r@ == "(no memory loaded)"@,
            self.entries@.len() > 0 ==> r@ == join(
                self.entries@.map_values(|e: MemoryEntry| summary_line(e)),
                "\n"@,
            ),
    {
        if self.entries.is_empty() {
            return "(no memory loaded)".to_owned();
        }
        let mut lines_out: Vec<String> = Vec::new();
        let mut i: usize = 0;
        while i < self.entries.len()
            invariant
                i <= self.entries@.len(),
                lines_out.deep_view() == self.entries@.take(i as int).map_values(
                    |e: MemoryEntry| summary_line(e),
                ),
            decreases self.entries@.len() - i,
        {
            let e = &self.entries[i];
            let mut v: Vec<char> = Vec::new();
            push_str(&mut v, "- [");
            push_str(&mut v, e.memory_type_str());
            push_str(&mut v, "] ");
            push_str(&mut v, e.description.as_str());
            let ghost old_lines = lines_out.deep_view();
            lines_out.push(string_of(v.as_slice()));
            assert(lines_out.deep_view() =~= old_lines.push(summary_line(*e)));
            assert(self.entries@.take(i + 1).map_values(|e: MemoryEntry| summary_line(e))
                =~= self.entries@.take(i as int).map_values(|e: MemoryEntry| summary_line(e)).push(
                summary_line(*e),
            ));
            i = i + 1;
        }
        assert(self.entries@.take(self.entries@.len() as int) =~= self.entries@);
        join_strings(&lines_out, "\n")
    }

    /// Whether no entry is loaded.
    pub fn is_empty(&self) -> (r: bool)
        ensures
            r == (self.entries@.len() == 0),
    {
        self.entries.is_empty()
    }
}

} // verus!
