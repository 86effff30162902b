//! Custom slash commands from `commands.toml` files: a name, a description
//! and the prompt that the command sends. Reading the files is the
//! application's part; a later file overrides an earlier one.
use vstd::prelude::*;
use crate::text::{concat2, lemma_seq_lt_irreflexive, lemma_seq_lt_total, lemma_seq_lt_transitive, seq_lt, str_eq, str_lt};
use crate::ui::{dim, hint, section_title};
use crate::ui::theme::Theme;
use crate::ui::terminal::{lemma_shows3, lemma_shows_concat, lemma_shows_plain, no_esc, shows};

verus! {

/// A custom command.
#[derive(Debug, Clone)]
pub struct SlashCommand {
    pub description: String,
    pub prompt: String,
}

/// The commands of one file, as read.
pub struct SlashCommandFile {
    pub commands: Vec<(String, SlashCommand)>,
}

/// The names strictly increase.
pub open spec fn names_sorted(s: Seq<(String, SlashCommand)>) -> bool {
    forall|i: int, j: int| 0 <= i < j < s.len() ==> seq_lt(#[trigger] s[i].0@, #[trigger] s[j].0@)
}

/// Some skill has the name.
pub open spec fn has_name(s: Seq<(String, SlashCommand)>, n: Seq<char>) -> bool {
    exists|i: int| 0 <= i < s.len() && (#[trigger] s[i]).0@ == n
}

/// How many leading skills have a name before `n`.
pub open spec fn lower_index(s: Seq<(String, SlashCommand)>, n: Seq<char>) -> nat
    decreases s.len(),
{
    if s.len() == 0 {
        0
    } else if seq_lt(s[0].0@, n) {
        1 + lower_index(s.drop_first(), n)
    } else {
        0
    }
}

/// The sorted list after adding `x`: it replaces the skill of the same name,
/// or goes in at its place in name order.
pub open spec fn insert_spec(s: Seq<(String, SlashCommand)>, x: (String, SlashCommand)) -> Seq<(String, SlashCommand)> {
    let k = lower_index(s, x.0@) as int;
    if k < s.len() && s[k].0@ == x.0@ {
        s.update(k, x)
    } else {
        s.insert(k, x)
    }
}

/// The list after adding each skill in turn.
pub open spec fn insert_all(s: Seq<(String, SlashCommand)>, xs: Seq<(String, SlashCommand)>) -> Seq<(String, SlashCommand)>
    decreases xs.len(),
{
    if xs.len() == 0 {
        s
    } else {
        insert_spec(insert_all(s, xs.drop_last()), xs.last())
    }
}

/// (String, SlashCommand)s by name.

proof fn lemma_lower_index(s: Seq<(String, SlashCommand)>, n: Seq<char>, k: int)
    requires
        0 <= k <= s.len(),
        forall|i: int| 0 <= i < k ==> seq_lt(#[trigger] s[i].0@, n),
    ensures
        lower_index(s, n) == k + lower_index(s.skip(k), n),
    decreases k,
{
    if k > 0 {
        assert(seq_lt(s[0].0@, n));
        let t = s.drop_first();
        assert forall|i: int| 0 <= i < k - 1 implies seq_lt(#[trigger] t[i].0@, n) by {
            assert(t[i] == s[i + 1]);
        }
        lemma_lower_index(t, n, k - 1);
        assert(t.skip(k - 1) =~= s.skip(k));
    } else {
        assert(s.skip(0) =~= s);
    }
}

proof fn lemma_insert_sorted(s: Seq<(String, SlashCommand)>, x: (String, SlashCommand))
    requires
        names_sorted(s),
    ensures
        names_sorted(insert_spec(s, x)),
        lower_index(s, x.0@) <= s.len(),
{
    let n = x.0@;
    let k = lower_index(s, n) as int;
    lemma_lower_bounds(s, n);
    let r = insert_spec(s, x);
    if k < s.len() && s[k].0@ == n {
        assert forall|i: int, j: int| 0 <= i < j < r.len() implies seq_lt(#[trigger] r[i].0@, #[trigger] r[j].0@) by {
            assert(r[i].0@ == s[i].0@);
            assert(r[j].0@ == s[j].0@);
        }
    } else {
        if k < s.len() {
            lemma_seq_lt_total(s[k].0@, n);
        }
        assert forall|i: int, j: int| 0 <= i < j < r.len() implies seq_lt(#[trigger] r[i].0@, #[trigger] r[j].0@) by {
            if j < k {
                assert(r[i] == s[i] && r[j] == s[j]);
            } else if j == k {
                assert(r[i] == s[i]);
            } else if i == k {
                assert(r[j] == s[j - 1]);
                if j - 1 > k {
                    lemma_seq_lt_transitive(n, s[k].0@, s[j - 1].0@);
                }
            } else if i < k {
                assert(r[i] == s[i] && r[j] == s[j - 1]);
            } else {
                assert(r[i] == s[i - 1] && r[j] == s[j - 1]);
            }
        }
    }
}

/// `lower_index` splits a sorted list: the names before it come before `n`,
/// the others do not.
proof fn lemma_lower_bounds(s: Seq<(String, SlashCommand)>, n: Seq<char>)
    requires
        names_sorted(s),
    ensures
        lower_index(s, n) <= s.len(),
        forall|i: int| 0 <= i < lower_index(s, n) ==> seq_lt(#[trigger] s[i].0@, n),
        forall|i: int| lower_index(s, n) <= i < s.len() ==> !seq_lt(#[trigger] s[i].0@, n),
    decreases s.len(),
{
    if s.len() > 0 {
        let t = s.drop_first();
        assert(names_sorted(t)) by {
            assert forall|i: int, j: int| 0 <= i < j < t.len() implies seq_lt(#[trigger] t[i].0@, #[trigger] t[j].0@) by {
                assert(t[i] == s[i + 1] && t[j] == s[j + 1]);
            }
        }
        lemma_lower_bounds(t, n);
        if seq_lt(s[0].0@, n) {
            assert forall|i: int| 0 <= i < lower_index(s, n) implies seq_lt(#[trigger] s[i].0@, n) by {
                if i > 0 {
                    assert(s[i] == t[i - 1]);
                }
            }
            assert forall|i: int| lower_index(s, n) <= i < s.len() implies !seq_lt(#[trigger] s[i].0@, n) by {
                assert(s[i] == t[i - 1]);
            }
        } else {
            assert forall|i: int| 0 <= i < s.len() implies !seq_lt(#[trigger] s[i].0@, n) by {
                if i > 0 && seq_lt(s[i].0@, n) {
                    lemma_seq_lt_transitive(s[0].0@, s[i].0@, n);
                }
            }
        }
    }
}

/// In a sorted list a name occurs at most once.
pub proof fn lemma_names_unique(s: Seq<(String, SlashCommand)>, i: int, j: int)
    requires
        names_sorted(s),
        0 <= i < s.len(),
        0 <= j < s.len(),
        s[i].0@ == s[j].0@,
    ensures
        i == j,
{
    if i < j {
        lemma_seq_lt_irreflexive(s[i].0@);
        assert(seq_lt(s[i].0@, s[j].0@));
    } else if j < i {
        lemma_seq_lt_irreflexive(s[i].0@);
        assert(seq_lt(s[j].0@, s[i].0@));
    }
}


/// Custom commands by name, in name order.
pub struct SlashRegistry {
    commands: Vec<(String, SlashCommand)>,
}

impl SlashRegistry {
    #[verifier::type_invariant]
    spec fn sorted(&self) -> bool {
        names_sorted(self.commands@)
    }

    /// The commands in name order.
    pub closed spec fn entries(&self) -> Seq<(String, SlashCommand)> {
        self.commands@
    }

    /// The commands, in name order.
    pub fn list(&self) -> (r: &Vec<(String, SlashCommand)>)
        ensures
            r@ == self.entries(),
    {
        &self.commands
    }

    /// No commands.
    pub fn new() -> (r: SlashRegistry)
        ensures
            r.entries() == Seq::<(String, SlashCommand)>::empty(),
    {
        SlashRegistry { commands: Vec::new() }
    }

    /// Adds a command; one with the same name is replaced.
    pub fn insert(&mut self, name: String, command: SlashCommand)
        ensures
            final(self).entries() == insert_spec(old(self).entries(), (name, command)),
    {
        proof {
            use_type_invariant(&*self);
        }
        let x = (name, command);
        let mut v: Vec<(String, SlashCommand)> = Vec::new();
        std::mem::swap(&mut v, &mut self.commands);
        let ghost s = v@;
        let mut k: usize = 0;
        while k < v.len() && str_lt(v[k].0.as_str(), x.0.as_str())
            invariant
                v@ == s,
                k <= s.len(),
                forall|i: int| 0 <= i < k ==> seq_lt(#[trigger] s[i].0@, x.0@),
            decreases v.len() - k,
        {
            k += 1;
        }
        proof {
            lemma_lower_index(s, x.0@, k as int);
            if k < s.len() {
                assert(s.skip(k as int)[0] == s[k as int]);
            }
            lemma_insert_sorted(s, x);
        }
        if k < v.len() && str_eq(v[k].0.as_str(), x.0.as_str()) {
            v.set(k, x);
        } else {
            v.insert(k, x);
        }
        self.commands = v;
    }

    /// The commands of the files in order, a later file's command replacing
    /// an earlier one of the same name.
    pub fn from_files(files: Vec<SlashCommandFile>) -> (r: SlashRegistry)
        ensures
            r.entries() == insert_all(Seq::empty(), files@.map_values(|f: SlashCommandFile| f.commands@).flatten()),
    {
        let ghost all = files@.map_values(|f: SlashCommandFile| f.commands@).flatten();
        let mut reg = SlashRegistry::new();
        let mut files = files;
        let ghost fs = files@;
        let ghost mut k: int = 0;
        proof {
            assert(fs.skip(0) =~= fs);
            assert(fs.take(0).map_values(|f: SlashCommandFile| f.commands@).flatten() =~= Seq::<(String, SlashCommand)>::empty());
        }
        while files.len() > 0
            invariant
                0 <= k <= fs.len(),
                files@ == fs.skip(k),
                reg.entries() == insert_all(Seq::empty(), fs.take(k).map_values(|f: SlashCommandFile| f.commands@).flatten()),
            decreases files.len(),
        {
            let f = files.remove(0);
            proof {
                assert(f == fs[k]);
            }
            let ghost base = fs.take(k).map_values(|f: SlashCommandFile| f.commands@).flatten();
            let mut cmds = f.commands;
            let ghost cs = cmds@;
            let ghost mut j: int = 0;
            proof {
                assert(cs.skip(0) =~= cs);
                assert(base + cs.take(0) =~= base);
            }
            while cmds.len() > 0
                invariant
                    0 <= j <= cs.len(),
                    cmds@ == cs.skip(j),
                    reg.entries() == insert_all(Seq::empty(), base + cs.take(j)),
                decreases cmds.len(),
            {
                let (name, c) = cmds.remove(0);
                proof {
                    assert((name, c) == cs[j]);
                    assert((base + cs.take(j + 1)).drop_last() =~= base + cs.take(j));
                    assert((base + cs.take(j + 1)).last() == cs[j]);
                }
                reg.insert(name, c);
                proof {
                    j = j + 1;
                    assert(cmds@ =~= cs.skip(j));
                }
            }
            proof {
                assert(cs.take(j) =~= cs);
                let m = |f: SlashCommandFile| f.commands@;
                assert(fs.take(k + 1).map_values(m) =~= fs.take(k).map_values(m).push(cs));
                fs.take(k).map_values(m).lemma_flatten_push(cs);
                k = k + 1;
                assert(files@ =~= fs.skip(k));
            }
        }
        proof {
            assert(fs.take(k) =~= fs);
        }
        reg
    }

    /// The command of a name.
    pub fn resolve(&self, name: &str) -> (r: Option<&SlashCommand>)
        ensures
            r matches Some(c) ==> exists|i: int| 0 <= i < self.entries().len() && self.entries()[i].0@ == name@
                && self.entries()[i].1 == *c,
            r is None ==> !has_name(self.entries(), name@),
            names_sorted(self.entries()),
    {
        proof {
            use_type_invariant(self);
        }
        let mut i: usize = 0;
        while i < self.commands.len()
            invariant
                i <= self.commands@.len(),
                forall|j: int| 0 <= j < i ==> (#[trigger] self.commands@[j]).0@ != name@,
                names_sorted(self.commands@),
            decreases self.commands.len() - i,
        {
            if str_eq(self.commands[i].0.as_str(), name) {
                proof {
                    assert(self.entries()[i as int].0@ == name@ && self.entries()[i as int].1 == self.commands@[i as int].1);
                }
                return Some(&self.commands[i].1);
            }
            i += 1;
        }
        None
    }

    /// Whether there is no command.
    pub fn is_empty(&self) -> (r: bool)
        ensures
            r == (self.entries().len() == 0),
    {
        self.commands.len() == 0
    }

    /// The help lines of the commands (empty without commands).
    #[verifier::rlimit(80)]
    pub fn format_help(&self, t: &Theme) -> (r: String)
        ensures
            self.entries().len() == 0 ==> r@.len() == 0,
            !t.colors && self.entries().len() > 0 ==> r@ == "\n"@ + ("\n"@ + "自定义命令"@ + "\n"@) + "\n"@ + help_lines(self.entries()),
            self.entries().len() > 0 && help_plain_ok(self.entries()) ==> shows(
                r@,
                "\n"@ + ("\n"@ + "自定义命令"@ + "\n"@) + "\n"@ + help_lines(self.entries()),
            ),
    {
        if self.commands.len() == 0 {
            return String::new();
        }
        proof {
            reveal_strlit("\n");
            reveal_strlit("自定义命令");
            reveal_strlit("  ");
            reveal_strlit("/");
            lemma_shows_plain("\n"@);
            lemma_shows_plain("自定义命令"@);
            lemma_shows_plain("  "@);
        }
        let title = section_title(t, "自定义命令");
        let mut out = concat2("\n", title.as_str());
        out.append("\n");
        let ghost head = out@;
        let ghost ok = help_plain_ok(self.commands@);
        let ghost phead = "\n"@ + ("\n"@ + "自定义命令"@ + "\n"@) + "\n"@;
        proof {
            lemma_shows3("\n"@, "\n"@, title@, "\n"@ + "自定义命令"@ + "\n"@, "\n"@, "\n"@);
            assert(help_lines(self.commands@.take(0)) =~= Seq::<char>::empty());
            assert(phead + help_lines(self.commands@.take(0)) =~= phead);
        }
        let mut i: usize = 0;
        while i < self.commands.len()
            invariant
                i <= self.commands@.len(),
                !t.colors ==> out@ == head + help_lines(self.commands@.take(i as int)),
                ok == help_plain_ok(self.commands@),
                ok ==> shows(out@, phead + help_lines(self.commands@.take(i as int))),
                shows("  "@, "  "@),
                shows("\n"@, "\n"@),
            decreases self.commands.len() - i,
        {
            proof {
                assert(self.commands@.take(i + 1).drop_last() =~= self.commands@.take(i as int));
            }
            let slash = concat2("/", self.commands[i].0.as_str());
            let h = hint(t, slash.as_str());
            let d = dim(t, self.commands[i].1.description.as_str());
            let ghost before = out@;
            out.append("  ");
            out.append(h.as_str());
            out.append("  ");
            out.append(d.as_str());
            out.append("\n");
            proof {
                if ok {
                    let c = self.commands@[i as int];
                    assert(no_esc(c.0@) && no_esc(c.1.description@));
                    reveal_strlit("/");
                    assert(no_esc(slash@));
                    lemma_shows_plain(slash@);
                    lemma_shows_plain(c.1.description@);
                    lemma_help_line_step(
                        before,
                        phead + help_lines(self.commands@.take(i as int)),
                        h@,
                        slash@,
                        d@,
                        c.0@,
                        c.1.description@,
                    );
                    assert(out@ =~= before + "  "@ + h@ + "  "@ + d@ + "\n"@);
                    lemma_help_lines_take(self.commands@, i as int);
                    assert(phead + help_lines(self.commands@.take(i + 1)) =~= phead + help_lines(self.commands@.take(i as int))
                        + "  "@ + "/"@ + c.0@ + "  "@ + c.1.description@ + "\n"@);
                }
            }
            i += 1;
        }
        proof {
            assert(self.commands@.take(i as int) =~= self.commands@);
        }
        out
    }
}

/// One more help line, shown.
proof fn lemma_help_line_step(
    before: Seq<char>,
    pl: Seq<char>,
    h: Seq<char>,
    slash: Seq<char>,
    d: Seq<char>,
    name: Seq<char>,
    desc: Seq<char>,
)
    requires
        shows(before, pl),
        shows(h, slash),
        slash == "/"@ + name,
        shows(d, desc),
        shows("  "@, "  "@),
        shows("\n"@, "\n"@),
    ensures
        shows(before + "  "@ + h + "  "@ + d + "\n"@, pl + "  "@ + "/"@ + name + "  "@ + desc + "\n"@),
{
    lemma_shows3(before, pl, "  "@, "  "@, h, slash);
    lemma_shows3(before + "  "@ + h, pl + "  "@ + slash, "  "@, "  "@, d, desc);
    lemma_shows_concat(before + "  "@ + h + "  "@ + d, pl + "  "@ + slash + "  "@ + desc, "\n"@, "\n"@);
    assert(pl + "  "@ + slash + "  "@ + desc + "\n"@ =~= pl + "  "@ + "/"@ + name + "  "@ + desc + "\n"@);
}

/// The help lines of one more command.
proof fn lemma_help_lines_take(v: Seq<(String, SlashCommand)>, i: int)
    requires
        0 <= i < v.len(),
    ensures
        help_lines(v.take(i + 1)) == help_lines(v.take(i)) + "  "@ + "/"@ + v[i].0@ + "  "@ + v[i].1.description@ + "\n"@,
{
    assert(v.take(i + 1).drop_last() =~= v.take(i));
    assert(v.take(i + 1).last() == v[i]);
}

/// The names and descriptions hold no escape character.
pub open spec fn help_plain_ok(v: Seq<(String, SlashCommand)>) -> bool {
    forall|k: int| 0 <= k < v.len() ==> no_esc((#[trigger] v[k]).0@) && no_esc(v[k].1.description@)
}

/// The help lines without colours.
pub open spec fn help_lines(v: Seq<(String, SlashCommand)>) -> Seq<char>
    decreases v.len(),
{
    if v.len() == 0 {
        Seq::empty()
    } else {
        help_lines(v.drop_last()) + "  "@ + "/"@ + v.last().0@ + "  "@ + v.last().1.description@ + "\n"@
    }
}

/// Adding a command keeps the registry sorted, makes the command the one
/// its name resolves to (a later command of a name replaces the earlier),
/// and keeps every command of another name.
pub proof fn lemma_insert_then_resolve(s: Seq<(String, SlashCommand)>, x: (String, SlashCommand))
    requires
        names_sorted(s),
    ensures
        names_sorted(insert_spec(s, x)),
        insert_spec(s, x).contains(x),
        forall|i: int| 0 <= i < insert_spec(s, x).len() && (#[trigger] insert_spec(s, x)[i]).0@ == x.0@
            ==> insert_spec(s, x)[i] == x,
        forall|j: int| 0 <= j < s.len() && (#[trigger] s[j]).0@ != x.0@ ==> insert_spec(s, x).contains(s[j]),
{
    lemma_insert_sorted(s, x);
    lemma_lower_bounds(s, x.0@);
    let k = lower_index(s, x.0@) as int;
    let r = insert_spec(s, x);
    assert(r[k] == x);
    assert forall|i: int| 0 <= i < r.len() && (#[trigger] r[i]).0@ == x.0@ implies r[i] == x by {
        lemma_names_unique(r, i, k);
    }
    assert forall|j: int| 0 <= j < s.len() && (#[trigger] s[j]).0@ != x.0@ implies r.contains(s[j]) by {
        if k < s.len() && s[k].0@ == x.0@ {
            assert(j != k);
            assert(r[j] == s[j]);
        } else if j < k {
            assert(r[j] == s[j]);
        } else {
            assert(r[j + 1] == s[j]);
        }
    }
}

} // verus!
