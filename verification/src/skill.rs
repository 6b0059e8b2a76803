//! Skill system: `SKILL.md` files with a `name:` / `description:`
//! frontmatter, listed in the system prompt and loaded on demand.
use vstd::prelude::*;
use crate::text::{
    chars_of, find_chars, find_from, join, join_strings, lemma_find_from_bounds, lines,
    push_str, slice_chars, split_lines, starts_with, starts_with_chars, str_eq, string_of,
    strip_prefix_chars, trim, trim_chars,
};

verus! {

/// A skill: its name, a one-line description, and its instructions.
#[derive(Debug, Clone)]
pub struct Skill {
    pub name: String,
    pub description: String,
    pub content: String,
    pub source_path: String,
}

/// The value of the last frontmatter line that starts with `key`, trimmed;
/// empty when no line does.
pub open spec fn front_field(ls: Seq<Seq<char>>, key: Seq<char>) -> Seq<char>
    decreases ls.len(),
{
    if ls.len() == 0 {
        Seq::empty()
    } else if starts_with(trim(ls.last()), key) {
        trim(trim(ls.last()).skip(key.len() as int))
    } else {
        front_field(ls.drop_last(), key)
    }
}

/// Name, description and body of a skill file. The trimmed text must start
/// with `---` and have a closing `---`; the name must not be empty.
pub open spec fn skill_parts(content: Seq<char>) -> Option<(Seq<char>, Seq<char>, Seq<char>)> {
    let c = trim(content);
    if !starts_with(c, "---"@) {
        None
    } else {
        match find_from(c, "---"@, 3) {
            None => None,
            Some(q) => {
                let ls = lines(c.subrange(3, q));
                let name = front_field(ls, "name:"@);
                if name.len() == 0 {
                    None
                } else {
                    Some((name, front_field(ls, "description:"@), trim(c.skip(q + 3))))
                }
            },
        }
    }
}

/// The value of the last line of `ls` that starts with `key` (see `front_field`).
fn frontmatter_field(ls: &Vec<Vec<char>>, key: &str) -> (r: Vec<char>)
    ensures
        r@ == front_field(ls.deep_view(), key@),
{
    let ghost dv = ls.deep_view();
    let k = chars_of(key);
    let mut r: Vec<char> = Vec::new();
    let mut i: usize = 0;
    while i < ls.len()
        invariant
            dv == ls.deep_view(),
            k@ == key@,
            i <= ls@.len(),
            r@ == front_field(dv.take(i as int), key@),
        decreases ls@.len() - i,
    {
        let line = trim_chars(ls[i].as_slice());
        proof {
            assert(dv.take(i + 1).drop_last() =~= dv.take(i as int));
            assert(dv[i as int] == ls@[i as int]@);
            assert(dv.take(i + 1).last() == dv[i as int]);
        }
        match strip_prefix_chars(line.as_slice(), k.as_slice()) {
            Some(val) => {
                r = trim_chars(val.as_slice());
            },
            None => {},
        }
        i = i + 1;
    }
    assert(dv.take(ls@.len() as int) =~= dv);
    r
}

/// The skill a `SKILL.md` file describes (see `skill_parts`).
pub fn parse_skill(content: &str, source_path: &str) -> (r: Option<Skill>)
    ensures
        match r {
            Some(s) => skill_parts(content@) == Some((s.name@, s.description@, s.content@))
                && s.source_path@ == source_path@,
            None => skill_parts(content@) is None,
        },
{
    let c = trim_chars(chars_of(content).as_slice());
    let dashes: Vec<char> = vec!['-', '-', '-'];
    proof {
        reveal_strlit("---");
        assert(dashes@ =~= "---"@);
    }
    if !starts_with_chars(c.as_slice(), dashes.as_slice()) {
        return None;
    }
    let q = match find_chars(c.as_slice(), dashes.as_slice(), 3) {
        Some(q) => q,
        None => return None,
    };
    proof {
        lemma_find_from_bounds(c@, "---"@, 3);
    }
    let clen = c.len();
    assert(q + 3 <= clen);
    let front = slice_chars(c.as_slice(), 3, q);
    let ls = split_lines(front.as_slice());
    let name = frontmatter_field(&ls, "name:");
    if name.len() == 0 {
        return None;
    }
    let description = frontmatter_field(&ls, "description:");
    let body = trim_chars(slice_chars(c.as_slice(), q + 3, c.len()).as_slice());
    assert(c@.subrange(q + 3, c@.len() as int) =~= c@.skip(q + 3));
    Some(
        Skill {
            name: string_of(name.as_slice()),
            description: string_of(description.as_slice()),
            content: string_of(body.as_slice()),
            source_path: source_path.to_owned(),
        },
    )
}

/// Position of the first skill with the given name.
pub open spec fn first_named(skills: Seq<Skill>, name: Seq<char>, i: int) -> Option<int>
    decreases skills.len() - i,
{
    if i < 0 || i >= skills.len() {
        None
    } else if skills[i].name@ == name {
        Some(i)
    } else {
        first_named(skills, name, i + 1)
    }
}

proof fn lemma_first_named_push(skills: Seq<Skill>, s: Skill, name: Seq<char>, i: int)
    requires
        0 <= i <= skills.len(),
    ensures
        first_named(skills.push(s), name, i) == match first_named(skills, name, i) {
            Some(k) => Some(k),
            None => if s.name@ == name {
                Some(skills.len() as int)
            } else {
                None
            },
        },
    decreases skills.len() - i,
{
    if i < skills.len() {
        assert(skills.push(s)[i] == skills[i]);
        lemma_first_named_push(skills, s, name, i + 1);
    } else {
        assert(skills.push(s)[i] == s);
        assert(first_named(skills.push(s), name, i + 1) is None);
        assert(first_named(skills, name, i) is None);
    }
}

/// Registering a skill leaves what each name finds unchanged, except that
/// a name no earlier skill has now finds the new skill.
pub proof fn law_register_then_find(skills: Seq<Skill>, s: Skill, name: Seq<char>)
    ensures
        first_named(skills, name, 0) is Some ==> first_named(skills.push(s), name, 0)
            == first_named(skills, name, 0),
        first_named(skills, name, 0) is None && name == s.name@ ==> first_named(skills.push(s), name, 0)
            == Some(skills.len() as int),
        first_named(skills, name, 0) is None && name != s.name@ ==> first_named(skills.push(s), name, 0)
            is None,
{
    lemma_first_named_push(skills, s, name, 0);
}

/// One line of the skill list: `- name: description`.
pub open spec fn skill_line(s: Skill) -> Seq<char> {
    "- "@ + s.name@ + ": "@ + s.description@
}

/// The known skills.
pub struct SkillRegistry {
    pub skills: Vec<Skill>,
}

impl SkillRegistry {
    /// A registry with no skills.
    pub fn new() -> (r: Self)
        ensures
            r.skills@.len() == 0,
    {
        SkillRegistry { skills: Vec::new() }
    }

    /// Adds the skill of a `SKILL.md` file, if the file describes one.
    pub fn register(&mut self, content: &str, source_path: &str)
        ensures
            match skill_parts(content@) {
                Some(p) => final(self).skills@.len() == old(self).skills@.len() + 1
                    && final(self).skills@.drop_last() == old(self).skills@ && ({
                    let s = final(self).skills@.last();
                    (s.name@, s.description@, s.content@) == p && s.source_path@ == source_path@
                }),
                None => final(self).skills@ == old(self).skills@,
            },
    {
        match parse_skill(content, source_path) {
            Some(s) => {
                self.skills.push(s);
                assert(self.skills@.drop_last() =~= old(self).skills@);
            },
            None => {},
        }
    }

    /// Position of the first skill with the given name.
    fn position(&self, name: &str) -> (r: Option<usize>)
        ensures
            match r {
                Some(i) => first_named(self.skills@, name@, 0) == Some(i as int) && i
                    < self.skills@.len(),
                None => first_named(self.skills@, name@, 0) is None,
            },
    {
        let mut i: usize = 0;
        while i < self.skills.len()
            invariant
                i <= self.skills@.len(),
                first_named(self.skills@, name@, 0) == first_named(self.skills@, name@, i as int),
            decreases self.skills@.len() - i,
        {
            if str_eq(self.skills[i].name.as_str(), name) {
                return Some(i);
            }
            i = i + 1;
        }
        None
    }

    /// The first skill with the given name.
    pub fn find(&self, name: &str) -> (r: Option<&Skill>)
        ensures
            match first_named(self.skills@, name@, 0) {
                Some(i) => r == Some(&self.skills@[i]),
                None => r is None,
            },
    {
        match self.position(name) {
            Some(i) => Some(&self.skills[i]),
            None => None,
        }
    }

    /// The instructions of the first skill with the given name.
    pub fn load_content(&self, name: &str) -> (r: Option<String>)
        ensures
            match first_named(self.skills@, name@, 0) {
                Some(i) => r matches Some(c) && c@ == self.skills@[i].content@,
                None => r is None,
            },
    {
        match self.position(name) {
            Some(i) => Some(self.skills[i].content.clone()),
            None => None,
        }
    }

    /// One `- name: description` line per skill, in order.
    pub fn available_list(&self) -> (r: String)
        ensures
            r@ == join(self.skills@.map_values(|s: Skill| skill_line(s)), "\n"@),
    {
        let mut out: Vec<String> = Vec::new();
        let mut i: usize = 0;
        while i < self.skills.len()
            invariant
                i <= self.skills@.len(),
                out.deep_view() == self.skills@.take(i as int).map_values(|s: Skill| skill_line(s)),
            decreases self.skills@.len() - i,
        {
            let s = &self.skills[i];
            let mut v: Vec<char> = Vec::new();
            push_str(&mut v, "- ");
            push_str(&mut v, s.name.as_str());
            push_str(&mut v, ": ");
            push_str(&mut v, s.description.as_str());
            let ghost old_out = out.deep_view();
            out.push(string_of(v.as_slice()));
            assert(out.deep_view() =~= old_out.push(skill_line(*s)));
            assert(self.skills@.take(i + 1).map_values(|s: Skill| skill_line(s))
                =~= self.skills@.take(i as int).map_values(|s: Skill| skill_line(s)).push(
                skill_line(*s),
            ));
            i = i + 1;
        }
        assert(self.skills@.take(self.skills@.len() as int) =~= self.skills@);
        join_strings(&out, "\n")
    }

    /// Whether no skill is known.
    pub fn is_empty(&self) -> (r: bool)
        ensures
            r == (self.skills@.len() == 0),
    {
        self.skills.is_empty()
    }
}

} // verus!
