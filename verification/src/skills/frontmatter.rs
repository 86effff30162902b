//! The YAML header of a `SKILL.md`: `---`, `key: value` lines, `---`.
use vstd::prelude::*;
use crate::text::{
    has_prefix, lines, lines_spec, owned, split_once, split_once_spec, starts_with, trim,
    trim_seq, trim_start, trim_start_seq, views,
};

verus! {

/// The `key: value` pairs of a header, in order.
pub struct FrontMatter {
    pub entries: Vec<(String, String)>,
}

/// The pairs as texts.
pub open spec fn pair_views(v: Seq<(String, String)>) -> Seq<(Seq<char>, Seq<char>)> {
    v.map_values(|p: (String, String)| (p.0@, p.1@))
}

/// The value of the last pair with the key.
pub open spec fn lookup_last(v: Seq<(Seq<char>, Seq<char>)>, key: Seq<char>) -> Option<Seq<char>>
    decreases v.len(),
{
    if v.len() == 0 {
        None
    } else if v.last().0 == key {
        Some(v.last().1)
    } else {
        lookup_last(v.drop_last(), key)
    }
}

impl FrontMatter {
    /// The value of a key; a later line with the same key wins.
    pub fn get(&self, key: &str) -> (r: Option<&String>)
        ensures
            match lookup_last(pair_views(self.entries@), key@) {
                Some(v) => r is Some && r->0@ == v,
                None => r is None,
            },
    {
        let mut i: usize = self.entries.len();
        proof {
            assert(pair_views(self.entries@).take(i as int) =~= pair_views(self.entries@));
        }
        while i > 0
            invariant
                i <= self.entries@.len(),
                lookup_last(pair_views(self.entries@), key@) == lookup_last(
                    pair_views(self.entries@).take(i as int),
                    key@,
                ),
            decreases i,
        {
            let ghost v = pair_views(self.entries@).take(i as int);
            proof {
                assert(v.last() == (self.entries@[i - 1].0@, self.entries@[i - 1].1@));
                assert(v.drop_last() =~= pair_views(self.entries@).take(i - 1));
            }
            if crate::text::str_eq(self.entries[i - 1].0.as_str(), key) {
                return Some(&self.entries[i - 1].1);
            }
            i -= 1;
        }
        None
    }
}

/// One header line as a pair: trimmed, not empty, not a `#` comment, split
/// at its first `:`, both sides trimmed.
pub open spec fn header_pair(line: Seq<char>) -> Option<(Seq<char>, Seq<char>)> {
    let l = trim_seq(line);
    if l.len() == 0 || has_prefix(l, "#"@) {
        None
    } else {
        match split_once_spec(l, ":"@) {
            Some((k, v)) => Some((trim_seq(k), trim_seq(v))),
            None => None,
        }
    }
}

/// The pairs of the header lines.
pub open spec fn header_pairs(lines: Seq<Seq<char>>) -> Seq<(Seq<char>, Seq<char>)>
    decreases lines.len(),
{
    if lines.len() == 0 {
        Seq::empty()
    } else {
        let prev = header_pairs(lines.drop_last());
        match header_pair(lines.last()) {
            Some(p) => prev.push(p),
            None => prev,
        }
    }
}

/// The header pairs and the body of a text. A text that does not start
/// (after whitespace) with `---`, or has no closing `\n---`, has no header and
/// is all body; otherwise the body follows the closing line, its leading
/// whitespace removed.
pub open spec fn parse_frontmatter_spec(text: Seq<char>) -> (Seq<(Seq<char>, Seq<char>)>, Seq<char>) {
    let trimmed = trim_start_seq(text);
    if !has_prefix(trimmed, "---"@) {
        (Seq::empty(), text)
    } else {
        let rest = trim_start_seq(trimmed.skip(3));
        match split_once_spec(rest, "\n---"@) {
            Some((front, body)) => (header_pairs(lines_spec(front)), trim_start_seq(body)),
            None => (Seq::empty(), text),
        }
    }
}

/// Splits a `SKILL.md` into its header pairs and its body; this never fails.
pub fn parse_frontmatter(text: &str) -> (r: Result<(FrontMatter, String), String>)
    ensures
        r is Ok,
        r matches Ok((m, body)) ==> pair_views(m.entries@) == parse_frontmatter_spec(text@).0
            && body@ == parse_frontmatter_spec(text@).1,
{
    let trimmed = trim_start(text);
    if !starts_with(trimmed.as_str(), "---") {
        return Ok((FrontMatter { entries: Vec::new() }, owned(text)));
    }
    proof {
        reveal_strlit("---");
    }
    let tv = crate::text::chars_of(trimmed.as_str());
    let skipped = crate::text::string_from_range(tv.as_slice(), 3, tv.len());
    proof {
        assert(skipped@ =~= trimmed@.skip(3));
    }
    let rest = trim_start(skipped.as_str());
    let (front, body) = match split_once(rest.as_str(), "\n---") {
        Some(p) => p,
        None => {
            return Ok((FrontMatter { entries: Vec::new() }, owned(text)));
        },
    };
    let ls = lines(front.as_str());
    let mut entries: Vec<(String, String)> = Vec::new();
    let mut i: usize = 0;
    while i < ls.len()
        invariant
            i <= ls@.len(),
            views(ls@) == lines_spec(front@),
            pair_views(entries@) == header_pairs(views(ls@).take(i as int)),
        decreases ls.len() - i,
    {
        proof {
            assert(views(ls@).take(i + 1).drop_last() =~= views(ls@).take(i as int));
            assert(views(ls@).take(i + 1).last() == ls@[i as int]@);
        }
        let line = trim(ls[i].as_str());
        if !crate::text::is_empty_str(line.as_str()) && !starts_with(line.as_str(), "#") {
            match split_once(line.as_str(), ":") {
                Some((k, v)) => {
                    let ghost before = entries@;
                    entries.push((trim(k.as_str()), trim(v.as_str())));
                    proof {
                        assert(pair_views(entries@) =~= pair_views(before).push(
                            (trim_seq(k@), trim_seq(v@)),
                        ));
                    }
                },
                None => {},
            }
        }
        i += 1;
    }
    proof {
        assert(views(ls@).take(ls@.len() as int) =~= views(ls@));
    }
    Ok((FrontMatter { entries }, trim_start(body.as_str())))
}

} // verus!
