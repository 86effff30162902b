//! Agent skills: `SKILL.md` files with a small YAML header, kept by name.
//!
//! Finding the files on disk is the application's part; the registry keeps
//! one skill per name (a later one replaces an earlier one), in name order.
pub mod activation;
pub mod bootstrap;
pub mod catalog;
pub mod frontmatter;
pub mod install;
pub mod trigger;

use vstd::prelude::*;
use crate::text::{lemma_seq_lt_irreflexive, lemma_seq_lt_total, lemma_seq_lt_transitive, seq_lt, str_eq, str_lt};

verus! {

/// Where a skill comes from.
#[derive(Debug, Clone, Copy, PartialEq, Eq, Structural)]
pub enum SkillSource {
    Builtin,
    /// Shipped beside the executable, with its scripts.
    Bundled,
    User,
    Project,
}

/// The source as the `list_skills` tool names it: skills shipped with the
/// program are `builtin`.
pub open spec fn source_label_spec(source: SkillSource) -> Seq<char> {
    match source {
        SkillSource::Builtin | SkillSource::Bundled => "builtin"@,
        SkillSource::User => "user"@,
        SkillSource::Project => "project"@,
    }
}

/// The source as the `list_skills` tool names it.
pub fn source_label(source: &SkillSource) -> (r: &'static str)
    ensures
        r@ == source_label_spec(*source),
{
    match source {
        SkillSource::Builtin | SkillSource::Bundled => "builtin",
        SkillSource::User => "user",
        SkillSource::Project => "project",
    }
}

/// The ids of the document skills shipped beside the executable.
pub open spec fn bundled_doc_skill_ids_spec() -> Seq<Seq<char>> {
    seq!["pdf"@, "docx"@, "pptx"@, "xlsx"@]
}

/// The ids of the document skills shipped beside the executable.
pub fn bundled_doc_skill_ids() -> (r: Vec<&'static str>)
    ensures
        r@.map_values(|s: &str| s@) == bundled_doc_skill_ids_spec(),
{
    let r = vec!["pdf", "docx", "pptx", "xlsx"];
    assert(r@.map_values(|s: &str| s@) =~= bundled_doc_skill_ids_spec());
    r
}

/// A skill: its name, description, origin, file (for skills on disk) and
/// text (for built-in skills).
pub struct Skill {
    pub name: String,
    pub description: String,
    pub source: SkillSource,
    pub path: Option<String>,
    pub body: Option<String>,
}

/// The names strictly increase.
pub open spec fn names_sorted(s: Seq<Skill>) -> bool {
    forall|i: int, j: int| 0 <= i < j < s.len() ==> seq_lt(#[trigger] s[i].name@, #[trigger] s[j].name@)
}

/// Some skill has the name.
pub open spec fn has_name(s: Seq<Skill>, n: Seq<char>) -> bool {
    exists|i: int| 0 <= i < s.len() && (#[trigger] s[i]).name@ == n
}

/// How many leading skills have a name before `n`.
pub open spec fn lower_index(s: Seq<Skill>, n: Seq<char>) -> nat
    decreases s.len(),
{
    if s.len() == 0 {
        0
    } else if seq_lt(s[0].name@, n) {
        1 + lower_index(s.drop_first(), n)
    } else {
        0
    }
}

/// The sorted list after adding `x`: it replaces the skill of the same name,
/// or goes in at its place in name order.
pub open spec fn insert_spec(s: Seq<Skill>, x: Skill) -> Seq<Skill> {
    let k = lower_index(s, x.name@) as int;
    if k < s.len() && s[k].name@ == x.name@ {
        s.update(k, x)
    } else {
        s.insert(k, x)
    }
}

/// The list after adding each skill in turn.
pub open spec fn insert_all(s: Seq<Skill>, xs: Seq<Skill>) -> Seq<Skill>
    decreases xs.len(),
{
    if xs.len() == 0 {
        s
    } else {
        insert_spec(insert_all(s, xs.drop_last()), xs.last())
    }
}

/// Skills by name.
pub struct SkillRegistry {
    skills: Vec<Skill>,
}

proof fn lemma_lower_index(s: Seq<Skill>, n: Seq<char>, k: int)
    requires
        0 <= k <= s.len(),
        forall|i: int| 0 <= i < k ==> seq_lt(#[trigger] s[i].name@, n),
    ensures
        lower_index(s, n) == k + lower_index(s.skip(k), n),
    decreases k,
{
    if k > 0 {
        assert(seq_lt(s[0].name@, n));
        let t = s.drop_first();
        assert forall|i: int| 0 <= i < k - 1 implies seq_lt(#[trigger] t[i].name@, n) by {
            assert(t[i] == s[i + 1]);
        }
        lemma_lower_index(t, n, k - 1);
        assert(t.skip(k - 1) =~= s.skip(k));
    } else {
        assert(s.skip(0) =~= s);
    }
}

proof fn lemma_insert_sorted(s: Seq<Skill>, x: Skill)
    requires
        names_sorted(s),
    ensures
        names_sorted(insert_spec(s, x)),
        lower_index(s, x.name@) <= s.len(),
{
    let n = x.name@;
    let k = lower_index(s, n) as int;
    lemma_lower_bounds(s, n);
    let r = insert_spec(s, x);
    if k < s.len() && s[k].name@ == n {
        assert forall|i: int, j: int| 0 <= i < j < r.len() implies seq_lt(#[trigger] r[i].name@, #[trigger] r[j].name@) by {
            assert(r[i].name@ == s[i].name@);
            assert(r[j].name@ == s[j].name@);
        }
    } else {
        if k < s.len() {
            lemma_seq_lt_total(s[k].name@, n);
        }
        assert forall|i: int, j: int| 0 <= i < j < r.len() implies seq_lt(#[trigger] r[i].name@, #[trigger] r[j].name@) by {
            if j < k {
                assert(r[i] == s[i] && r[j] == s[j]);
            } else if j == k {
                assert(r[i] == s[i]);
            } else if i == k {
                assert(r[j] == s[j - 1]);
                if j - 1 > k {
                    lemma_seq_lt_transitive(n, s[k].name@, s[j - 1].name@);
                }
            } else if i < k {
                assert(r[i] == s[i] && r[j] == s[j - 1]);
            } else {
                assert(r[i] == s[i - 1] && r[j] == s[j - 1]);
            }
        }
    }
}

/// `lower_index` splits a sorted list: the names before it come before `n`,
/// the others do not.
proof fn lemma_lower_bounds(s: Seq<Skill>, n: Seq<char>)
    requires
        names_sorted(s),
    ensures
        lower_index(s, n) <= s.len(),
        forall|i: int| 0 <= i < lower_index(s, n) ==> seq_lt(#[trigger] s[i].name@, n),
        forall|i: int| lower_index(s, n) <= i < s.len() ==> !seq_lt(#[trigger] s[i].name@, n),
    decreases s.len(),
{
    if s.len() > 0 {
        let t = s.drop_first();
        assert(names_sorted(t)) by {
            assert forall|i: int, j: int| 0 <= i < j < t.len() implies seq_lt(#[trigger] t[i].name@, #[trigger] t[j].name@) by {
                assert(t[i] == s[i + 1] && t[j] == s[j + 1]);
            }
        }
        lemma_lower_bounds(t, n);
        if seq_lt(s[0].name@, n) {
            assert forall|i: int| 0 <= i < lower_index(s, n) implies seq_lt(#[trigger] s[i].name@, n) by {
                if i > 0 {
                    assert(s[i] == t[i - 1]);
                }
            }
            assert forall|i: int| lower_index(s, n) <= i < s.len() implies !seq_lt(#[trigger] s[i].name@, n) by {
                assert(s[i] == t[i - 1]);
            }
        } else {
            assert forall|i: int| 0 <= i < s.len() implies !seq_lt(#[trigger] s[i].name@, n) by {
                if i > 0 && seq_lt(s[i].name@, n) {
                    lemma_seq_lt_transitive(s[0].name@, s[i].name@, n);
                }
            }
        }
    }
}

/// In a sorted list a name occurs at most once.
pub proof fn lemma_names_unique(s: Seq<Skill>, i: int, j: int)
    requires
        names_sorted(s),
        0 <= i < s.len(),
        0 <= j < s.len(),
        s[i].name@ == s[j].name@,
    ensures
        i == j,
{
    if i < j {
        lemma_seq_lt_irreflexive(s[i].name@);
        assert(seq_lt(s[i].name@, s[j].name@));
    } else if j < i {
        lemma_seq_lt_irreflexive(s[i].name@);
        assert(seq_lt(s[j].name@, s[i].name@));
    }
}

impl SkillRegistry {
    #[verifier::type_invariant]
    spec fn sorted(&self) -> bool {
        names_sorted(self.skills@)
    }

    /// The skills in name order.
    pub closed spec fn entries(&self) -> Seq<Skill> {
        self.skills@
    }

    /// An empty registry.
    pub fn new() -> (r: SkillRegistry)
        ensures
            r.entries() == Seq::<Skill>::empty(),
    {
        SkillRegistry { skills: Vec::new() }
    }

    /// Adds a skill; one with the same name is replaced.
    pub fn insert(&mut self, skill: Skill)
        ensures
            final(self).entries() == insert_spec(old(self).entries(), skill),
    {
        proof {
            use_type_invariant(&*self);
        }
        let mut v: Vec<Skill> = Vec::new();
        std::mem::swap(&mut v, &mut self.skills);
        let ghost s = v@;
        let mut k: usize = 0;
        while k < v.len() && str_lt(v[k].name.as_str(), skill.name.as_str())
            invariant
                v@ == s,
                k <= s.len(),
                forall|i: int| 0 <= i < k ==> seq_lt(#[trigger] s[i].name@, skill.name@),
            decreases v.len() - k,
        {
            k += 1;
        }
        proof {
            lemma_lower_index(s, skill.name@, k as int);
            if k < s.len() {
                assert(s.skip(k as int)[0] == s[k as int]);
            }
            lemma_insert_sorted(s, skill);
        }
        if k < v.len() && str_eq(v[k].name.as_str(), skill.name.as_str()) {
            v.set(k, skill);
        } else {
            v.insert(k, skill);
        }
        self.skills = v;
    }

    /// A registry holding the given skills, a later one replacing an earlier
    /// one of the same name.
    pub fn from_skills(skills: Vec<Skill>) -> (r: SkillRegistry)
        ensures
            r.entries() == insert_all(Seq::empty(), skills@),
    {
        let mut reg = SkillRegistry::new();
        let mut skills = skills;
        let ghost all = skills@;
        let ghost mut k: int = 0;
        assert(all.skip(0) =~= all);
        assert(all.take(0) =~= Seq::<Skill>::empty());
        while skills.len() > 0
            invariant
                0 <= k <= all.len(),
                skills@ == all.skip(k),
                reg.entries() == insert_all(Seq::empty(), all.take(k)),
            decreases skills.len(),
        {
            let x = skills.remove(0);
            proof {
                assert(x == all[k]);
                assert(all.take(k + 1).drop_last() =~= all.take(k));
            }
            reg.insert(x);
            proof {
                k = k + 1;
                assert(skills@ =~= all.skip(k));
            }
        }
        proof {
            assert(all.take(k) =~= all);
        }
        reg
    }

    /// The skill of a name.
    pub fn get(&self, name: &str) -> (r: Option<&Skill>)
        ensures
            r matches Some(s) ==> self.entries().contains(*s) && s.name@ == name@,
            r is None ==> !has_name(self.entries(), name@),
            names_sorted(self.entries()),
    {
        proof {
            use_type_invariant(self);
        }
        let mut i: usize = 0;
        while i < self.skills.len()
            invariant
                i <= self.skills@.len(),
                forall|j: int| 0 <= j < i ==> (#[trigger] self.skills@[j]).name@ != name@,
                names_sorted(self.skills@),
            decreases self.skills.len() - i,
        {
            if str_eq(self.skills[i].name.as_str(), name) {
                return Some(&self.skills[i]);
            }
            i += 1;
        }
        None
    }

    /// The skills in name order.
    pub fn list(&self) -> (r: Vec<&Skill>)
        ensures
            r@.len() == self.entries().len(),
            forall|i: int| 0 <= i < r@.len() ==> *r@[i] == self.entries()[i],
            names_sorted(self.entries()),
    {
        proof {
            use_type_invariant(self);
        }
        let mut r: Vec<&Skill> = Vec::new();
        let mut i: usize = 0;
        while i < self.skills.len()
            invariant
                i <= self.skills@.len(),
                r@.len() == i,
                forall|j: int| 0 <= j < i ==> *r@[j] == self.skills@[j],
            decreases self.skills.len() - i,
        {
            r.push(&self.skills[i]);
            i += 1;
        }
        r
    }

    /// Whether there is no skill.
    pub fn is_empty(&self) -> (r: bool)
        ensures
            r == (self.entries().len() == 0),
    {
        self.skills.len() == 0
    }

    /// The number of skills.
    pub fn len(&self) -> (r: usize)
        ensures
            r == self.entries().len(),
    {
        self.skills.len()
    }
}

/// After adding a skill, looking up its name finds exactly that skill, every
/// other skill is still there, and the names still increase.
pub proof fn lemma_insert_then_lookup(s: Seq<Skill>, x: Skill)
    requires
        names_sorted(s),
    ensures
        names_sorted(insert_spec(s, x)),
        insert_spec(s, x).contains(x),
        forall|i: int| 0 <= i < insert_spec(s, x).len() && (#[trigger] insert_spec(s, x)[i]).name@ == x.name@
            ==> insert_spec(s, x)[i] == x,
        forall|j: int| 0 <= j < s.len() && (#[trigger] s[j]).name@ != x.name@ ==> insert_spec(s, x).contains(s[j]),
{
    lemma_insert_sorted(s, x);
    lemma_lower_bounds(s, x.name@);
    let k = lower_index(s, x.name@) as int;
    let r = insert_spec(s, x);
    assert(r[k] == x);
    assert forall|i: int| 0 <= i < r.len() && (#[trigger] r[i]).name@ == x.name@ implies r[i] == x by {
        lemma_names_unique(r, i, k);
    }
    assert forall|j: int| 0 <= j < s.len() && (#[trigger] s[j]).name@ != x.name@ implies r.contains(s[j]) by {
        if k < s.len() && s[k].name@ == x.name@ {
            assert(j != k);
            assert(r[j] == s[j]);
        } else if j < k {
            assert(r[j] == s[j]);
        } else {
            assert(r[j + 1] == s[j]);
        }
    }
}

} // verus!
