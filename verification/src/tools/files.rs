//! The file tools' text work: editing by replacement, numbered reading, and
//! the lines that a search reports. Reading and writing files, and walking
//! directories, are the application's part.
use vstd::prelude::*;
use vstd::string::StringSliceAdditionalSpecFns;
use crate::permissions::patterns::{compile_glob, glob_compiles, glob_matches, glob_pattern_matches, GlobPattern};
use crate::text::{
    char_count, chars_of, concat2, concat3, contains, contains_seq, count_occurrences, decimal,
    decimal_string, ends_with, has_prefix, has_suffix, is_empty_str, join, join_seq, lines,
    lines_spec, owned, repeat, repeat_seq, replace, replace_seq, starts_with, string_from_range,
    views, lemma_views_push,
};
use crate::tools::{truncate_output, truncate_output_spec};
use crate::ui::sanitize::{compile_regex, regex_compiles, regex_is_match_compiled, regex_matches, CompiledRegex};

verus! {

/// Lines shown by `read` without a limit.
pub const MAX_LINES: usize = 2000;

/// Matches reported by `grep` at most.
pub const MAX_MATCHES: usize = 100;

/// `s` with `to` before every character and at the end (`str::replace` with
/// an empty pattern).
pub open spec fn interleave(s: Seq<char>, to: Seq<char>) -> Seq<char>
    decreases s.len(),
{
    if s.len() == 0 {
        to
    } else {
        to + seq![s[0]] + interleave(s.drop_first(), to)
    }
}

/// `s` with its first occurrence of `from` replaced (`str::replacen(.., 1)`,
/// for a non-empty `from`).
pub open spec fn replace_first(s: Seq<char>, from: Seq<char>, to: Seq<char>) -> Seq<char>
    decreases s.len(),
{
    if s.len() == 0 {
        s
    } else if crate::text::has_prefix(s, from) {
        to + s.skip(from.len() as int)
    } else {
        seq![s[0]] + replace_first(s.drop_first(), from, to)
    }
}

/// How often the text occurs (`str::matches(..).count()`; an empty pattern
/// matches at every character boundary).
pub open spec fn match_count(s: Seq<char>, t: Seq<char>) -> nat {
    if t.len() == 0 { s.len() + 1 } else { count_occurrences(s, t) }
}

/// The result of an edit: the new text and how many places changed, or the
/// message.
pub open spec fn edit_spec(content: Seq<char>, old: Seq<char>, new: Seq<char>, replace_all: bool) -> Result<(Seq<char>, nat), Seq<char>> {
    if !contains_seq(content, old) {
        Err("未找到匹配的旧文本"@)
    } else if !replace_all && match_count(content, old) > 1 {
        Err("旧文本在文件中出现 "@ + decimal(match_count(content, old)) + " 次，请提供更多上下文或设置 replace_all=true（全部替换）"@)
    } else if replace_all {
        Ok((if old.len() == 0 { interleave(content, new) } else { replace_seq(content, old, new) }, match_count(content, old)))
    } else {
        Ok((if old.len() == 0 { new + content } else { replace_first(content, old, new) }, 1))
    }
}

fn interleave_exec(s: &str, to: &str) -> (r: String)
    ensures
        r@ == interleave(s@, to@),
{
    let v = chars_of(s);
    let mut i: usize = v.len();
    let mut tail = owned(to);
    proof {
        assert(s@.skip(i as int) =~= Seq::<char>::empty());
    }
    while i > 0
        invariant
            i <= v@.len(),
            v@ == s@,
            tail@ == interleave(s@.skip(i as int), to@),
        decreases i,
    {
        let mut piece = owned(to);
        crate::text::push_char(&mut piece, v[i - 1]);
        piece.append(tail.as_str());
        proof {
            let rest = s@.skip(i - 1);
            assert(rest[0] == v@[i - 1]);
            assert(rest.drop_first() =~= s@.skip(i as int));
        }
        tail = piece;
        i -= 1;
    }
    proof {
        assert(s@.skip(0) =~= s@);
    }
    tail
}

proof fn lemma_replace_first_split(s: Seq<char>, from: Seq<char>, to: Seq<char>, k: int)
    requires
        from.len() > 0,
        0 <= k,
        crate::text::occurs_at(s, from, k),
        forall|j: int| 0 <= j < k ==> !crate::text::occurs_at(s, from, j),
    ensures
        replace_first(s, from, to) == s.take(k) + to + s.skip(k + from.len()),
    decreases k,
{
    if k == 0 {
        assert(s.take(from.len() as int) =~= s.subrange(0, from.len() as int));
        assert(s.take(0) =~= Seq::<char>::empty());
    } else {
        let t = s.drop_first();
        assert(!crate::text::occurs_at(s, from, 0));
        assert(!crate::text::has_prefix(s, from)) by {
            if crate::text::has_prefix(s, from) {
                assert(s.subrange(0, from.len() as int) =~= s.take(from.len() as int));
            }
        }
        assert forall|j: int| 0 <= j < k - 1 implies !crate::text::occurs_at(t, from, j) by {
            if crate::text::occurs_at(t, from, j) {
                assert(t.subrange(j, j + from.len()) =~= s.subrange(j + 1, j + 1 + from.len()));
                assert(crate::text::occurs_at(s, from, j + 1));
            }
        }
        assert(t.subrange(k - 1, k - 1 + from.len()) =~= s.subrange(k, k + from.len()));
        lemma_replace_first_split(t, from, to, k - 1);
        assert(s.take(k) =~= seq![s[0]] + t.take(k - 1));
        assert(t.skip(k - 1 + from.len()) =~= s.skip(k + from.len()));
    }
}

fn replace_first_exec(s: &str, from: &str, to: &str) -> (r: String)
    requires
        from@.len() > 0,
        contains_seq(s@, from@),
    ensures
        r@ == replace_first(s@, from@, to@),
{
    let v = chars_of(s);
    let f = chars_of(from);
    let vs = v.as_slice();
    let fs = f.as_slice();
    match crate::text::find_from(vs, fs, 0) {
        Some(k) => {
            proof {
                assert(vs@ == v@ && fs@ == f@);
                lemma_replace_first_split(s@, from@, to@, k as int);
                assert(k + f@.len() <= v@.len());
            }
            assert(k + f.len() <= v.len());
            let end: usize = k + f.len();
            let mut out = string_from_range(v.as_slice(), 0, k);
            out.append(to);
            let rest = string_from_range(v.as_slice(), end, v.len());
            out.append(rest.as_str());
            proof {
                assert(v@.subrange(0, k as int) =~= s@.take(k as int));
                assert(v@.subrange(end as int, v@.len() as int) =~= s@.skip(k + from@.len()));
            }
            out
        },
        None => {
            proof {
                let i = choose|i: int| crate::text::occurs_at(s@, from@, i);
                assert(crate::text::occurs_at(v@, f@, i));
            }
            owned(s)
        },
    }
}

fn count_in(s: &str, t: &str) -> (r: usize)
    requires
        s@.len() < usize::MAX,
    ensures
        r == match_count(s@, t@),
{
    let v = chars_of(s);
    let w = chars_of(t);
    if w.len() == 0 {
        return v.len() + 1;
    }
    crate::ui::sanitize::count_matches(&v, &w)
}

/// Replaces `old` by `new` in a file's text: once (it must occur once) or
/// everywhere. Gives the new text and the number of replacements.
pub fn apply_edit(content: &str, old: &str, new: &str, replace_all: bool) -> (r: Result<(String, usize), String>)
    requires
        content@.len() < usize::MAX,
    ensures
        match edit_spec(content@, old@, new@, replace_all) {
            Ok((text, n)) => r is Ok && r->Ok_0.0@ == text && r->Ok_0.1 == n,
            Err(m) => r is Err && r->Err_0@ == m,
        },
{
    if !contains(content, old) {
        return Err(owned("未找到匹配的旧文本"));
    }
    let count = count_in(content, old);
    if !replace_all && count > 1 {
        let n = decimal_string(count);
        return Err(concat3("旧文本在文件中出现 ", n.as_str(), " 次，请提供更多上下文或设置 replace_all=true（全部替换）"));
    }
    let empty = char_count(old) == 0;
    if replace_all {
        let text = if empty { interleave_exec(content, new) } else { replace(content, old, new) };
        Ok((text, count))
    } else {
        let text = if empty { concat2(new, content) } else { replace_first_exec(content, old, new) };
        Ok((text, 1))
    }
}

/// The report of an edit.
pub fn edit_message(path: &str, replaced: usize) -> (r: String)
    ensures
        r@ == "已编辑 "@ + path@ + "，替换 "@ + decimal(replaced as nat) + " 处"@,
{
    let n = decimal_string(replaced);
    let mut s = concat3("已编辑 ", path, "，替换 ");
    s.append(n.as_str());
    s.append(" 处");
    s
}

/// The report of a write, with the size in bytes.
pub fn write_message(path: &str, content: &str) -> (r: String)
    ensures
        r@ == "已写入 "@ + path@ + " ("@ + decimal((content.spec_bytes().len() as usize) as nat) + " 字节)"@,
{
    let n = decimal_string(content.len());
    let mut s = concat3("已写入 ", path, " (");
    s.append(n.as_str());
    s.append(" 字节)");
    s
}

/// A number right-aligned in six columns (`{:6}`).
pub open spec fn pad6(n: nat) -> Seq<char> {
    let d = decimal(n);
    if d.len() < 6 { repeat_seq(" "@, (6 - d.len()) as nat) + d } else { d }
}

fn pad6_exec(n: usize) -> (r: String)
    ensures
        r@ == pad6(n as nat),
{
    let d = decimal_string(n);
    let len = char_count(d.as_str());
    if len < 6 {
        let pad = repeat(" ", 6 - len);
        concat2(pad.as_str(), d.as_str())
    } else {
        d
    }
}

/// Numbered lines `from..to` (1-based numbers).
pub open spec fn numbered_lines(lines: Seq<Seq<char>>, from: int, to: int) -> Seq<char>
    decreases to - from,
{
    if to <= from {
        Seq::empty()
    } else {
        numbered_lines(lines, from, to - 1) + pad6((to - 1 + 1) as nat) + "|"@ + lines[to - 1] + "\n"@
    }
}

/// What `read` shows: lines from `offset` (1-based, at least 1) up to
/// `limit` of them, numbered, with a note when the file goes on; the whole
/// cut to 50,000 characters.
pub open spec fn read_spec(content: Seq<char>, offset: nat, limit: nat) -> Seq<char> {
    let ls = lines_spec(content);
    let n = ls.len();
    let start: nat = if offset > 0 { (offset - 1) as nat } else { 0 };
    let end: nat = if start + limit < n { start + limit } else { n };
    if start >= n {
        "文件共 "@ + decimal(n) + " 行，offset 超出范围"@
    } else {
        truncate_output_spec(
            numbered_lines(ls, start as int, end as int) + (if n > end {
                read_footer(n, start, end)
            } else {
                Seq::empty()
            }),
            50000,
        )
    }
}

/// The offset and limit that `read` uses.
pub open spec fn read_offset(offset: Option<usize>) -> nat {
    match offset {
        Some(o) => if o >= 1 { o as nat } else { 1 },
        None => 1,
    }
}

pub open spec fn read_limit(limit: Option<usize>) -> nat {
    match limit {
        Some(l) => l as nat,
        None => 2000,
    }
}

fn numbered_block(ls: &Vec<String>, start: usize, end: usize) -> (r: String)
    requires
        start <= end <= ls@.len(),
    ensures
        r@ == numbered_lines(views(ls@), start as int, end as int),
{
    let mut out = String::new();
    let mut i = start;
    while i < end
        invariant
            start <= i <= end,
            end <= ls@.len(),
            out@ == numbered_lines(views(ls@), start as int, i as int),
        decreases end - i,
    {
        let num = pad6_exec(i + 1);
        out.append(num.as_str());
        out.append("|");
        out.append(ls[i].as_str());
        out.append("\n");
        proof {
            assert(views(ls@)[i as int] == ls@[i as int]@);
        }
        i += 1;
    }
    out
}

/// The note under a partial view of a file.
pub open spec fn read_footer(n: nat, start: nat, end: nat) -> Seq<char> {
    "\n… 文件共 "@ + decimal(n) + " 行，已显示 "@ + decimal((start + 1) as nat) + "–"@ + decimal(end) + " 行"@
}

fn read_footer_exec(n: usize, start: usize, end: usize) -> (r: String)
    requires
        start < usize::MAX,
    ensures
        r@ == read_footer(n as nat, start as nat, end as nat),
{
    let a = decimal_string(n);
    let b = decimal_string(start + 1);
    let c = decimal_string(end);
    let mut out = concat3("\n… 文件共 ", a.as_str(), " 行，已显示 ");
    out.append(b.as_str());
    out.append("–");
    out.append(c.as_str());
    out.append(" 行");
    out
}

/// The text of a file as `read` shows it.
pub fn format_read(content: &str, offset: Option<usize>, limit: Option<usize>) -> (r: String)
    requires
        read_offset(offset) - 1 + read_limit(limit) <= usize::MAX,
    ensures
        r@ == read_spec(content@, read_offset(offset), read_limit(limit)),
{
    let off: usize = match offset {
        Some(o) => if o >= 1 { o } else { 1 },
        None => 1,
    };
    let lim: usize = match limit {
        Some(l) => l,
        None => MAX_LINES,
    };
    let ls = lines(content);
    let n = ls.len();
    let start = off - 1;
    let end = if start + lim < n { start + lim } else { n };
    if start >= n {
        let d = decimal_string(n);
        return concat3("文件共 ", d.as_str(), " 行，offset 超出范围");
    }
    let mut out = numbered_block(&ls, start, end);
    if n > end {
        let foot = read_footer_exec(n, start, end);
        out.append(foot.as_str());
    }
    truncate_output(out.as_str(), 50000)
}

/// The lines of a file that a search reports: `path:number:line`.
pub open spec fn grep_line(rel: Seq<char>, i: nat, line: Seq<char>) -> Seq<char> {
    rel + ":"@ + decimal(i + 1) + ":"@ + line
}

/// The reported lines among the first `n` lines of a file, in order.
pub open spec fn grep_hits(src: Seq<char>, rel: Seq<char>, ls: Seq<Seq<char>>, n: nat) -> Seq<Seq<char>>
    decreases n,
{
    if n == 0 {
        Seq::empty()
    } else {
        let before = grep_hits(src, rel, ls, (n - 1) as nat);
        if regex_matches(src, ls[n - 1]) {
            before.push(grep_line(rel, (n - 1) as nat, ls[n - 1]))
        } else {
            before
        }
    }
}

/// Fewer lines give a prefix of the hits.
proof fn lemma_grep_hits_prefix(src: Seq<char>, rel: Seq<char>, ls: Seq<Seq<char>>, m: nat, n: nat)
    requires
        m <= n,
    ensures
        grep_hits(src, rel, ls, m).len() <= grep_hits(src, rel, ls, n).len(),
        grep_hits(src, rel, ls, n).take(grep_hits(src, rel, ls, m).len() as int) == grep_hits(src, rel, ls, m),
    decreases n - m,
{
    if m < n {
        lemma_grep_hits_prefix(src, rel, ls, m, (n - 1) as nat);
        let a = grep_hits(src, rel, ls, m);
        let b = grep_hits(src, rel, ls, (n - 1) as nat);
        let c = grep_hits(src, rel, ls, n);
        assert(c.take(a.len() as int) =~= b.take(a.len() as int));
    } else {
        assert(grep_hits(src, rel, ls, n).take(grep_hits(src, rel, ls, n).len() as int) =~= grep_hits(src, rel, ls, n));
    }
}

/// The line that says a search stopped at the limit.
pub open spec fn grep_limit_line() -> Seq<char> {
    "… 匹配数已达上限"@
}

/// Searches one file's text, adding each matching line to `matches` in
/// order; once `MAX_MATCHES` lines are there it adds the limit line and
/// stops. Gives whether it stopped.
pub fn grep_file(re: &CompiledRegex, rel: &str, content: &str, matches: &mut Vec<String>) -> (stopped: bool)
    requires
        old(matches)@.len() < 100,
    ensures
        ({
            let hits = grep_hits(re.source_text(), rel@, lines_spec(content@), lines_spec(content@).len());
            let room = 100 - old(matches)@.len();
            &&& stopped == (hits.len() >= room)
            &&& !stopped ==> views(final(matches)@) == views(old(matches)@) + hits
            &&& stopped ==> views(final(matches)@) == views(old(matches)@) + hits.take(room) + seq![grep_limit_line()]
        }),
{
    let ls = lines(content);
    let ghost src = re.source_text();
    let ghost lsv = lines_spec(content@);
    let ghost start = matches@.len();
    let ghost room: int = 100 - start;
    let mut i: usize = 0;
    while i < ls.len()
        invariant
            i <= ls@.len(),
            views(ls@) == lsv,
            lsv == lines_spec(content@),
            src == re.source_text(),
            start == old(matches)@.len(),
            room == 100 - start,
            views(matches@) == views(old(matches)@) + grep_hits(src, rel@, lsv, i as nat),
            grep_hits(src, rel@, lsv, i as nat).len() < room,
        decreases ls.len() - i,
    {
        proof {
            assert(views(ls@)[i as int] == ls@[i as int]@);
        }
        if regex_is_match_compiled(re, ls[i].as_str()) {
            let num = decimal_string(i + 1);
            let mut line = concat3(rel, ":", num.as_str());
            line.append(":");
            line.append(ls[i].as_str());
            proof {
                assert(line@ == grep_line(rel@, i as nat, lsv[i as int]));
                lemma_views_push(matches@, line);
            }
            matches.push(line);
            proof {
                assert(grep_hits(src, rel@, lsv, (i + 1) as nat) == grep_hits(src, rel@, lsv, i as nat).push(line@));
                assert(views(matches@).len() == matches@.len());
                assert(views(old(matches)@).len() == old(matches)@.len());
            }
            if matches.len() >= MAX_MATCHES {
                let ghost h1 = grep_hits(src, rel@, lsv, (i + 1) as nat);
                proof {
                    assert(h1.len() == room);
                    lemma_grep_hits_prefix(src, rel@, lsv, (i + 1) as nat, lsv.len());
                }
                let marker = owned("… 匹配数已达上限");
                proof {
                    lemma_views_push(matches@, marker);
                }
                matches.push(marker);
                return true;
            }
        }
        i += 1;
    }
    false
}

/// The search pattern compiled, or the message for one that does not compile.
pub fn grep_regex(pattern: &str) -> (r: Result<CompiledRegex, String>)
    ensures
        r is Ok <==> regex_compiles(pattern@),
        r matches Ok(re) ==> re.source_text() == pattern@,
        r matches Err(m) ==> m@ == "无效的正则表达式"@,
{
    match compile_regex(pattern) {
        Some(re) => Ok(re),
        None => Err(owned("无效的正则表达式")),
    }
}

/// Whether a file name passes the `glob` filter (a filter that does not
/// compile lets everything through).
pub fn passes_glob(filter: &str, name: &str) -> (r: bool)
    ensures
        r == (!glob_compiles(filter@) || glob_matches(filter@, name@)),
{
    match compile_glob(filter) {
        Some(g) => glob_pattern_matches(&g, name),
        None => true,
    }
}

/// The answer of a search.
pub fn grep_result(matches: &Vec<String>) -> (r: String)
    ensures
        matches@.len() == 0 ==> r@ == "未找到匹配"@,
        matches@.len() > 0 ==> r@ == truncate_output_spec(join_seq(views(matches@), "\n"@), 30000),
{
    if matches.len() == 0 {
        return owned("未找到匹配");
    }
    let j = join(matches, "\n");
    truncate_output(j.as_str(), 30000)
}


/// Files listed by `glob` at most.
pub const MAX_GLOB_RESULTS: usize = 200;

/// `i` comes before `j`: newer, or as new and found first.
pub open spec fn listed_before(m: Seq<u128>, i: int, j: int) -> bool {
    m[i] > m[j] || (m[i] == m[j] && i < j)
}

/// `p` holds the index `i`.
pub open spec fn lists_index(p: Seq<usize>, i: int) -> bool {
    exists|k: int| 0 <= k < p.len() && p[k] == i
}

/// `p` lists every index of `m` once, newest first, ties in the order found.
pub open spec fn is_glob_order(m: Seq<u128>, p: Seq<usize>) -> bool {
    &&& p.len() == m.len()
    &&& forall|k: int| 0 <= k < p.len() ==> #[trigger] p[k] < m.len()
    &&& forall|i: int| 0 <= i < m.len() ==> #[trigger] lists_index(p, i)
    &&& forall|k: int, l: int| 0 <= k < l < p.len() ==> p[k] != p[l]
    &&& forall|k: int, l: int| 0 <= k < l < p.len() ==> listed_before(m, p[k] as int, p[l] as int)
}

/// The order in which `glob` lists files with the given modification times.
pub fn glob_order(mtimes: &Vec<u128>) -> (r: Vec<usize>)
    ensures
        is_glob_order(mtimes@, r@),
{
    let n = mtimes.len();
    let mut used: Vec<bool> = Vec::new();
    let mut k: usize = 0;
    while k < n
        invariant
            k <= n == mtimes@.len(),
            used@.len() == k,
            forall|i: int| 0 <= i < k ==> !used@[i],
        decreases n - k,
    {
        used.push(false);
        k += 1;
    }
    let mut out: Vec<usize> = Vec::new();
    proof {
        lemma_used_count_zero(used@);
    }
    while out.len() < n
        invariant
            n == mtimes@.len(),
            used@.len() == n,
            out@.len() <= n,
            forall|k: int| 0 <= k < out@.len() ==> #[trigger] out@[k] < n && used@[out@[k] as int],
            forall|k: int, l: int| 0 <= k < l < out@.len() ==> out@[k] != out@[l],
            forall|k: int, l: int| 0 <= k < l < out@.len() ==> listed_before(mtimes@, out@[k] as int, out@[l] as int),
            forall|i: int| 0 <= i < n && #[trigger] used@[i] ==> exists|k: int| 0 <= k < out@.len() && out@[k] == i,
            forall|k: int, i: int| #![trigger out@[k], used@[i]] 0 <= k < out@.len() && 0 <= i < n && !used@[i] ==> listed_before(mtimes@, out@[k] as int, i),
            used_count(used@) == out@.len(),
        decreases n - out@.len(),
    {
        proof {
            lemma_unused_exists(used@, out@.len() as int);
        }
        let mut best: usize = n;
        let mut i: usize = 0;
        while i < n
            invariant
                n == mtimes@.len(),
                used@.len() == n,
                i <= n,
                best == n || (best < i && !used@[best as int]),
                best == n ==> forall|j: int| 0 <= j < i ==> used@[j],
                best < n ==> forall|j: int| 0 <= j < i && !used@[j] && j != best ==> listed_before(mtimes@, best as int, j),
            decreases n - i,
        {
            if !used[i] {
                if best == n || mtimes[i] > mtimes[best] {
                    best = i;
                }
            }
            i += 1;
        }
        proof {
            if best == n {
                let j = choose|j: int| 0 <= j < n && !used@[j];
                assert(used@[j]);
            }
        }
        let ghost old_used = used@;
        let ghost old_out = out@;
        used.set(best, true);
        out.push(best);
        proof {
            lemma_used_count_set(old_used, best as int);
            assert forall|i: int| 0 <= i < n && #[trigger] used@[i] implies exists|k: int| 0 <= k < out@.len() && out@[k] == i by {
                if i == best as int {
                    assert(out@[old_out.len() as int] == i);
                } else {
                    assert(old_used[i]);
                    let k = choose|k: int| 0 <= k < old_out.len() && old_out[k] == i;
                    assert(out@[k] == i);
                }
            }
            assert forall|k: int, l: int| 0 <= k < l < out@.len() implies out@[k] != out@[l] by {
                if l == old_out.len() as int {
                    assert(old_used[out@[k] as int]);
                }
            }
            assert forall|k: int, l: int| 0 <= k < l < out@.len() implies listed_before(mtimes@, out@[k] as int, out@[l] as int) by {
                if l == old_out.len() as int {
                    assert(!old_used[best as int]);
                }
            }
            assert forall|k: int, i: int| #![trigger out@[k], used@[i]] 0 <= k < out@.len() && 0 <= i < n && !used@[i] implies listed_before(mtimes@, out@[k] as int, i) by {
                if k == old_out.len() as int {
                    assert(!old_used[i] && i != best);
                } else {
                    assert(!old_used[i]);
                }
            }
        }
    }
    proof {
        lemma_used_count_bound(used@);
        assert forall|i: int| 0 <= i < mtimes@.len() implies #[trigger] lists_index(out@, i) by {
            assert(used@[i]);
        }
    }
    out
}

/// How many flags are set.
pub open spec fn used_count(u: Seq<bool>) -> nat
    decreases u.len(),
{
    if u.len() == 0 { 0 } else { used_count(u.drop_last()) + (if u.last() { 1nat } else { 0nat }) }
}

proof fn lemma_used_count_zero(u: Seq<bool>)
    requires
        forall|i: int| 0 <= i < u.len() ==> !u[i],
    ensures
        used_count(u) == 0,
    decreases u.len(),
{
    if u.len() > 0 {
        assert forall|i: int| 0 <= i < u.drop_last().len() implies !u.drop_last()[i] by {
            assert(u.drop_last()[i] == u[i]);
        }
        lemma_used_count_zero(u.drop_last());
        assert(!u[u.len() - 1]);
    }
}

proof fn lemma_used_count_bound(u: Seq<bool>)
    ensures
        used_count(u) <= u.len(),
        used_count(u) == u.len() ==> forall|i: int| 0 <= i < u.len() ==> u[i],
    decreases u.len(),
{
    if u.len() > 0 {
        lemma_used_count_bound(u.drop_last());
        if used_count(u) == u.len() {
            assert forall|i: int| 0 <= i < u.len() implies u[i] by {
                if i < u.len() - 1 {
                    assert(u.drop_last()[i] == u[i]);
                }
            }
        }
    }
}

proof fn lemma_unused_exists(u: Seq<bool>, c: int)
    requires
        used_count(u) == c,
        c < u.len(),
    ensures
        exists|j: int| 0 <= j < u.len() && !u[j],
    decreases u.len(),
{
    lemma_used_count_bound(u.drop_last());
    if !u.last() {
        assert(!u[u.len() - 1]);
    } else {
        lemma_unused_exists(u.drop_last(), c - 1);
        let j = choose|j: int| 0 <= j < u.drop_last().len() && !u.drop_last()[j];
        assert(!u[j]);
    }
}

proof fn lemma_used_count_set(u: Seq<bool>, i: int)
    requires
        0 <= i < u.len(),
        !u[i],
    ensures
        used_count(u.update(i, true)) == used_count(u) + 1,
    decreases u.len(),
{
    if i == u.len() - 1 {
        assert(u.update(i, true).drop_last() =~= u.drop_last());
    } else {
        lemma_used_count_set(u.drop_last(), i);
        assert(u.update(i, true).drop_last() =~= u.drop_last().update(i, true));
    }
}

/// The listing order is determined: two orders that both list every file
/// once, newest first with ties in the order found, are the same.
pub proof fn lemma_glob_order_unique(m: Seq<u128>, p: Seq<usize>, q: Seq<usize>)
    requires
        is_glob_order(m, p),
        is_glob_order(m, q),
    ensures
        p == q,
{
    lemma_glob_prefix(m, p, q, p.len() as int);
    assert(p =~= q);
}

proof fn lemma_glob_prefix(m: Seq<u128>, p: Seq<usize>, q: Seq<usize>, n: int)
    requires
        is_glob_order(m, p),
        is_glob_order(m, q),
        0 <= n <= p.len(),
    ensures
        forall|j: int| 0 <= j < n ==> p[j] == q[j],
    decreases n,
{
    if n > 0 {
        lemma_glob_prefix(m, p, q, n - 1);
        let k = n - 1;
        let a = p[k] as int;
        let b = q[k] as int;
        if a != b {
            assert(lists_index(p, b));
            assert(lists_index(q, a));
            let l = choose|l: int| 0 <= l < p.len() && p[l] == b;
            let l2 = choose|l2: int| 0 <= l2 < q.len() && q[l2] == a;
            if l < k {
                assert(q[l] == p[l]);
                assert(q[l] != q[k]);
            }
            if l2 < k {
                assert(p[l2] == q[l2]);
                assert(p[l2] != p[k]);
            }
            assert(l > k);
            assert(l2 > k);
            assert(listed_before(m, a, b));
            assert(listed_before(m, b, a));
        }
    }
}

/// `Path::join` with `/` paths: an absolute part replaces the base.
pub open spec fn join_path(base: Seq<char>, part: Seq<char>) -> Seq<char> {
    if has_prefix(part, "/"@) || base.len() == 0 {
        part
    } else if has_suffix(base, "/"@) {
        base + part
    } else {
        base + "/"@ + part
    }
}

pub fn join_path_exec(base: &str, part: &str) -> (r: String)
    ensures
        r@ == join_path(base@, part@),
{
    if starts_with(part, "/") || is_empty_str(base) {
        owned(part)
    } else if ends_with(base, "/") {
        concat2(base, part)
    } else {
        concat3(base, "/", part)
    }
}

/// The pattern `glob` searches: under the base as given where it names a
/// directory part or starts with `**`, else at any depth under the base.
pub open spec fn glob_pattern_spec(base: Seq<char>, pattern: Seq<char>) -> Seq<char> {
    if contains_seq(pattern, "/"@) || has_prefix(pattern, "**"@) {
        join_path(base, pattern)
    } else {
        join_path(join_path(base, "**"@), pattern)
    }
}

pub fn glob_pattern(base: &str, pattern: &str) -> (r: String)
    ensures
        r@ == glob_pattern_spec(base@, pattern@),
{
    if contains(pattern, "/") || starts_with(pattern, "**") {
        join_path_exec(base, pattern)
    } else {
        let deep = join_path_exec(base, "**");
        join_path_exec(deep.as_str(), pattern)
    }
}

/// The answer of `glob` for the files found (paths as shown, and their
/// modification times): newest first, at most 200, one per line.
pub open spec fn glob_listing_spec(paths: Seq<Seq<char>>, m: Seq<u128>) -> Seq<char> {
    if paths.len() == 0 {
        "未找到匹配文件"@
    } else {
        let p = choose|p: Seq<usize>| is_glob_order(m, p);
        let n = if p.len() > 200 { 200 } else { p.len() };
        truncate_output_spec(join_seq(Seq::new(n as nat, |k: int| paths[p[k] as int]), "\n"@), 20000)
    }
}

pub fn glob_listing(paths: &Vec<String>, mtimes: &Vec<u128>) -> (r: String)
    requires
        paths@.len() == mtimes@.len(),
    ensures
        r@ == glob_listing_spec(views(paths@), mtimes@),
{
    if paths.len() == 0 {
        return owned("未找到匹配文件");
    }
    let order = glob_order(mtimes);
    proof {
        let p = choose|p: Seq<usize>| is_glob_order(mtimes@, p);
        lemma_glob_order_unique(mtimes@, p, order@);
    }
    let n: usize = if order.len() > MAX_GLOB_RESULTS { MAX_GLOB_RESULTS } else { order.len() };
    let mut lines: Vec<String> = Vec::new();
    let mut k: usize = 0;
    while k < n
        invariant
            k <= n <= order@.len(),
            order@.len() == paths@.len(),
            forall|j: int| 0 <= j < order@.len() ==> #[trigger] order@[j] < paths@.len(),
            views(lines@) == Seq::new(k as nat, |j: int| views(paths@)[order@[j] as int]),
        decreases n - k,
    {
        let idx = order[k];
        let line = owned(paths[idx].as_str());
        proof {
            lemma_views_push(lines@, line);
            assert(Seq::new((k + 1) as nat, |j: int| views(paths@)[order@[j] as int])
                =~= Seq::new(k as nat, |j: int| views(paths@)[order@[j] as int]).push(views(paths@)[order@[k as int] as int]));
        }
        lines.push(line);
        k += 1;
    }
    let text = join(&lines, "\n");
    truncate_output(text.as_str(), 20000)
}

} // verus!
