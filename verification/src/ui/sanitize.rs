//! Cleaning model output: leaked tags, meta narration and unfinished Markdown.
use vstd::prelude::*;
use crate::text::{
    chars_of, concat2, contains, contains_char, contains_seq, count_occurrences, ends_with,
    find_from, has_char, has_prefix, has_suffix, is_empty_str, join, join_seq, lines, lines_spec,
    occurs_at, occurs_at_exec, owned, push_char, starts_with, str_eq, string_from_range, trim,
    trim_end, trim_end_seq, trim_seq, trim_start, trim_start_seq, views,
};

verus! {

#[verifier::external_type_specification]
#[verifier::external_body]
pub struct ExRegex(regex::Regex);

/// Whether `regex::Regex::new` accepts `pattern`.
pub uninterp spec fn regex_compiles(pattern: Seq<char>) -> bool;

/// `regex::Regex::replace_all(text, replacement)` for the regex compiled from `pattern`.
pub uninterp spec fn regex_replaced(pattern: Seq<char>, text: Seq<char>, replacement: Seq<char>) -> Seq<char>;

/// `regex::Regex::captures(text)` for the regex compiled from `pattern`, reduced to
/// capture group `group` (`None` where the regex does not match; `Some(None)` where
/// it matches but the group did not take part).
pub uninterp spec fn regex_group(pattern: Seq<char>, text: Seq<char>, group: nat) -> Option<Option<Seq<char>>>;

/// `regex::Regex::is_match(text)` for the regex compiled from `pattern`.
pub uninterp spec fn regex_matches(pattern: Seq<char>, text: Seq<char>) -> bool;

/// A compiled regular expression with its source text.
pub struct CompiledRegex {
    source: String,
    inner: regex::Regex,
}

impl CompiledRegex {
    /// The pattern the regex was compiled from.
    pub closed spec fn source_text(&self) -> Seq<char> {
        self.source@
    }
}

/// `regex::Regex::new`: `None` where the crate reports an error.
#[verifier::external_body]
pub(crate) fn compile_regex(pattern: &str) -> (r: Option<CompiledRegex>)
    ensures
        r is Some <==> regex_compiles(pattern@),
        r matches Some(re) ==> re.source_text() == pattern@,
{
    match regex::Regex::new(pattern) {
        Ok(inner) => Some(CompiledRegex { source: pattern.to_string(), inner }),
        Err(_) => None,
    }
}

/// `regex::Regex::replace_all` with a `&str` replacement (where `$name` and
/// `${n}` expand to capture groups).
#[verifier::external_body]
fn regex_replace_all(re: &CompiledRegex, text: &str, replacement: &str) -> (r: String)
    ensures
        r@ == regex_replaced(re.source_text(), text@, replacement@),
{
    re.inner.replace_all(text, replacement).to_string()
}

/// `regex::Regex::captures`, then `Captures::get(group)` as text.
#[verifier::external_body]
fn regex_capture(re: &CompiledRegex, text: &str, group: usize) -> (r: Option<Option<String>>)
    ensures
        match r {
            None => regex_group(re.source_text(), text@, group as nat) is None,
            Some(None) => regex_group(re.source_text(), text@, group as nat) == Some(None::<Seq<char>>),
            Some(Some(s)) => regex_group(re.source_text(), text@, group as nat) == Some(Some(s@)),
        },
{
    match re.inner.captures(text) {
        Some(caps) => Some(caps.get(group).map(|m| m.as_str().to_string())),
        None => None,
    }
}

/// `regex::Regex::is_match`.
#[verifier::external_body]
pub(crate) fn regex_is_match_compiled(re: &CompiledRegex, text: &str) -> (r: bool)
    ensures
        r == regex_matches(re.source_text(), text@),
{
    re.inner.is_match(text)
}

/// Replacement of every match of `pattern` (text unchanged if it does not compile).
pub open spec fn replace_all_spec(pattern: Seq<char>, text: Seq<char>, replacement: Seq<char>) -> Seq<char> {
    if regex_compiles(pattern) {
        regex_replaced(pattern, text, replacement)
    } else {
        text
    }
}

/// Whether `pattern` compiles and matches `text`.
pub open spec fn is_match_spec(pattern: Seq<char>, text: Seq<char>) -> bool {
    regex_compiles(pattern) && regex_matches(pattern, text)
}

fn replace_all(pattern: &str, text: &str, replacement: &str) -> (r: String)
    ensures
        r@ == replace_all_spec(pattern@, text@, replacement@),
{
    match compile_regex(pattern) {
        Some(re) => regex_replace_all(&re, text, replacement),
        None => owned(text),
    }
}

fn regex_is_match(pattern: &str, text: &str) -> (r: bool)
    ensures
        r == is_match_spec(pattern@, text@),
{
    match compile_regex(pattern) {
        Some(re) => regex_is_match_compiled(&re, text),
        None => false,
    }
}

// ---------------------------------------------------------------------------
// Patterns
// ---------------------------------------------------------------------------

pub open spec fn re_system_block() -> Seq<char> {
    "(?is)<system_instructions>[\\s\\S]*?</system_instructions>"@
}

pub open spec fn re_thinking_block() -> Seq<char> {
    "(?is)<thinking>[\\s\\S]*?</thinking>"@
}

pub open spec fn re_redacted_block() -> Seq<char> {
    "(?is)<think>[\\s\\S]*?</think>"@
}

pub open spec fn re_answer_block() -> Seq<char> {
    "(?is)<answer>\\s*([\\s\\S]*?)\\s*</answer>"@
}

pub open spec fn re_skill_activation() -> Seq<char> {
    "(?m)^\\[技能(?:自动)?启用:[^\\]]+\\]\\s*\\n?"@
}

pub open spec fn re_incomplete_tag() -> Seq<char> {
    "(?is)(?:<system_instructions>[\\s\\S]*$|<thinking>[\\s\\S]*$|<think>[\\s\\S]*$|<answer>[\\s\\S]*$|<state_update>[\\s\\S]*$|</?(?:thinking|answer|response|state_update|system_instructions)[^>]*$)"@
}

pub open spec fn re_multi_newline() -> Seq<char> {
    "\\n{3,}"@
}

fn system_block_pattern() -> (r: &'static str)
    ensures
        r@ == re_system_block(),
{
    "(?is)<system_instructions>[\\s\\S]*?</system_instructions>"
}

fn thinking_block_pattern() -> (r: &'static str)
    ensures
        r@ == re_thinking_block(),
{
    "(?is)<thinking>[\\s\\S]*?</thinking>"
}

fn redacted_block_pattern() -> (r: &'static str)
    ensures
        r@ == re_redacted_block(),
{
    "(?is)<think>[\\s\\S]*?</think>"
}

// ---------------------------------------------------------------------------
// Specifications
// ---------------------------------------------------------------------------

/// Whether a streamed delta belongs to the reasoning channel.
pub open spec fn looks_like_reasoning_spec(delta: Seq<char>) -> bool {
    let t = trim_start_seq(delta);
    has_prefix(t, "<thinking>"@) || has_prefix(t, "<think>"@) || has_prefix(t, "思考中"@)
}

/// Leaked system, thinking and think blocks removed.
pub open spec fn strip_blocks_spec(text: Seq<char>) -> Seq<char> {
    replace_all_spec(
        re_redacted_block(),
        replace_all_spec(re_thinking_block(), replace_all_spec(re_system_block(), text, Seq::empty()), Seq::empty()),
        Seq::empty(),
    )
}

/// A cleaned streamed delta.
pub open spec fn sanitize_stream_delta_spec(delta: Seq<char>) -> Seq<char> {
    if looks_like_reasoning_spec(delta) {
        Seq::empty()
    } else {
        strip_blocks_spec(delta)
    }
}

/// Whether a (trimmed) line is meta narration to drop.
pub open spec fn is_meta_line(t: Seq<char>) -> bool {
    ||| contains_seq(t, "用户问我"@)
    ||| contains_seq(t, "这是一个简单的问题"@)
    ||| contains_seq(t, "根据 ONEMINI.md"@)
    ||| (contains_seq(t, "直接根据"@) && contains_seq(t, "技能"@))
    ||| t == "思考中"@
    ||| t == "::"@
    ||| t == ":."@
}

/// Whether a line is kept by `strip_meta_lines`.
pub open spec fn keep_line(line: Seq<char>) -> bool {
    let t = trim_seq(line);
    t.len() == 0 || !is_meta_line(t)
}

/// The lines kept.
pub open spec fn kept_lines(ls: Seq<Seq<char>>) -> Seq<Seq<char>> {
    ls.filter(|l: Seq<char>| keep_line(l))
}

/// Meta narration lines removed.
pub open spec fn strip_meta_lines_spec(text: Seq<char>) -> Seq<char> {
    join_seq(kept_lines(lines_spec(text)), "\n"@)
}

/// The result of collapsing blank runs over the remaining lines, given the output so
/// far and whether the previous kept line was blank.
pub open spec fn collapse_from(ls: Seq<Seq<char>>, out: Seq<char>, prev_blank: bool) -> Seq<char>
    decreases ls.len(),
{
    if ls.len() == 0 {
        out
    } else {
        let line = ls[0];
        let blank = trim_seq(line).len() == 0;
        if blank && prev_blank {
            collapse_from(ls.drop_first(), out, prev_blank)
        } else {
            let out2 = if out.len() > 0 {
                out.push('\n')
            } else {
                out
            };
            collapse_from(ls.drop_first(), out2 + line, blank)
        }
    }
}

/// Runs of blank lines collapsed to one, then trimmed.
pub open spec fn collapse_blank_lines_spec(text: Seq<char>) -> Seq<char> {
    trim_seq(collapse_from(lines_spec(text), Seq::empty(), false))
}

/// Blank runs collapsed, three or more newlines reduced to two, trimmed.
pub open spec fn normalize_whitespace_spec(text: Seq<char>) -> Seq<char> {
    trim_seq(replace_all_spec(re_multi_newline(), collapse_blank_lines_spec(text), "\n\n"@))
}

/// The body of an `<answer>` block, when there is one.
pub open spec fn answer_spec(text: Seq<char>) -> Seq<char> {
    if regex_compiles(re_answer_block()) {
        match regex_group(re_answer_block(), text, 1) {
            Some(Some(body)) => body,
            Some(None) => Seq::empty(),
            None => text,
        }
    } else {
        text
    }
}

/// Positions of non-overlapping occurrences of `t` scanning from `start`.
pub open spec fn first_occurrence_from(s: Seq<char>, t: Seq<char>, start: int) -> Option<int> {
    if exists|i: int| start <= i && occurs_at(s, t, i) {
        Some(choose|i: int| start <= i && occurs_at(s, t, i) && forall|j: int| start <= j < i ==> !occurs_at(s, t, j))
    } else {
        None
    }
}

/// Whether the trailing line is an unfinished block marker (empty heading, bullet,
/// numbered item, quote or rule).
pub open spec fn is_incomplete_block_line(t: Seq<char>) -> bool {
    ||| is_match_spec("^#{1,6}\\s*$"@, t)
    ||| is_match_spec("^[-*+]\\s*$"@, t)
    ||| is_match_spec("^\\d+\\.\\s*$"@, t)
    ||| is_match_spec("^>\\s*$"@, t)
    ||| is_match_spec("^(-{3,}|\\*{3,}|_{3,})\\s*$"@, t)
}

/// Whether `t` is an ATX heading closed with `#` (kept as is).
pub open spec fn is_closed_heading(t: Seq<char>) -> bool {
    has_prefix(t, "#"@) && (exists|k: int|
        0 < k < t.len() && t[k] == ' ' && forall|q: int| 0 <= q < k ==> t[q] == '#') && has_suffix(
        t,
        "#"@,
    )
}

/// The trailing line kept or dropped.
pub open spec fn trim_incomplete_block_line_spec(line: Seq<char>) -> Seq<char> {
    let t = trim_end_seq(line);
    if is_closed_heading(t) {
        line
    } else if is_incomplete_block_line(t) {
        Seq::empty()
    } else {
        line
    }
}

/// An unpaired inline marker cut off at its last occurrence.
pub open spec fn trim_unclosed_inline_spec(text: Seq<char>, marker: Seq<char>) -> Seq<char> {
    if count_occurrences(text, marker) % 2 == 1 {
        match crate::text::last_occurrence(text, marker) {
            Some(i) => text.take(i),
            None => text,
        }
    } else {
        text
    }
}

/// Text with the last line passed through `trim_incomplete_block_line`.
pub open spec fn trim_last_line_spec(text: Seq<char>) -> Seq<char> {
    if has_char(text, '\n') {
        let i = choose|i: int| 0 <= i < text.len() && text[i] == '\n' && forall|j: int| i < j < text.len() ==> text[j] != '\n';
        text.take(i + 1) + trim_incomplete_block_line_spec(text.skip(i + 1))
    } else {
        trim_incomplete_block_line_spec(text)
    }
}

/// Unclosed inline markers cut, in the order `**`, `__`, `*`, `` ` ``.
pub open spec fn trim_inline_markers_spec(text: Seq<char>) -> Seq<char> {
    trim_unclosed_inline_spec(
        trim_unclosed_inline_spec(trim_unclosed_inline_spec(trim_unclosed_inline_spec(text, "**"@), "__"@), "*"@),
        "`"@,
    )
}

/// Whether the text holds Markdown that should be re-rendered.
pub open spec fn has_markdown_structure_spec(text: Seq<char>) -> bool {
    has_char(text, '#') || contains_seq(text, "**"@) || contains_seq(text, "```"@) || has_char(text, '|')
        || contains_seq(text, "\n- "@) || contains_seq(text, "\n* "@)
}

// ---------------------------------------------------------------------------
// Implementation
// ---------------------------------------------------------------------------

/// Whether a streamed content delta is really reasoning.
pub fn looks_like_reasoning_delta(delta: &str) -> (r: bool)
    ensures
        r == looks_like_reasoning_spec(delta@),
{
    let t = trim_start(delta);
    let ts = t.as_str();
    starts_with(ts, "<thinking>") || starts_with(ts, "<think>") || starts_with(ts, "思考中")
}

fn strip_blocks(text: &str) -> (r: String)
    ensures
        r@ == strip_blocks_spec(text@),
{
    let a = replace_all(system_block_pattern(), text, "");
    let b = replace_all(thinking_block_pattern(), a.as_str(), "");
    let c = replace_all(redacted_block_pattern(), b.as_str(), "");
    proof {
        assert(""@ =~= Seq::<char>::empty()) by {
            reveal_strlit("");
        }
    }
    c
}

/// Cleans a streamed content delta (drops reasoning and leaked blocks).
pub fn sanitize_stream_delta(delta: &str) -> (r: String)
    ensures
        r@ == sanitize_stream_delta_spec(delta@),
{
    if looks_like_reasoning_delta(delta) {
        return String::new();
    }
    strip_blocks(delta)
}

fn extract_answer(text: &str) -> (r: String)
    ensures
        r@ == answer_spec(text@),
{
    match compile_regex("(?is)<answer>\\s*([\\s\\S]*?)\\s*</answer>") {
        Some(re) => match regex_capture(&re, text, 1) {
            Some(Some(body)) => body,
            Some(None) => String::new(),
            None => owned(text),
        },
        None => owned(text),
    }
}

/// The final cleaning of a reply: leaked blocks, the `<answer>` body, skill banners,
/// meta narration, unfinished tags and Markdown, and extra blank lines.
pub open spec fn sanitize_final_spec(input: Seq<char>) -> Seq<char> {
    let a = strip_blocks_spec(input);
    let b = answer_spec(a);
    let c = replace_all_spec(re_skill_activation(), b, Seq::empty());
    let d = strip_meta_lines_spec(c);
    let e = replace_all_spec(re_incomplete_tag(), d, Seq::empty());
    let f = trim_incomplete_markdown_spec(e);
    normalize_whitespace_spec(f)
}

/// Skill-activation banners never reach the cleaned reply: two replies whose
/// answer texts agree once every banner line (`[技能启用: …]` or
/// `[技能自动启用: …]` at the start of a line, with the whitespace after it)
/// is removed clean to the same text, so adding or dropping such banners
/// changes nothing.
pub proof fn lemma_final_ignores_skill_banners(x: Seq<char>, y: Seq<char>)
    requires
        replace_all_spec(
            "(?m)^\\[技能(?:自动)?启用:[^\\]]+\\]\\s*\\n?"@,
            answer_spec(strip_blocks_spec(x)),
            Seq::empty(),
        ) == replace_all_spec(
            "(?m)^\\[技能(?:自动)?启用:[^\\]]+\\]\\s*\\n?"@,
            answer_spec(strip_blocks_spec(y)),
            Seq::empty(),
        ),
    ensures
        sanitize_final_spec(x) == sanitize_final_spec(y),
{
}

/// Cleans a final reply.
pub fn sanitize_final(input: &str) -> (r: String)
    ensures
        r@ == sanitize_final_spec(input@),
{
    let a = strip_blocks(input);
    let b = extract_answer(a.as_str());
    let c = replace_all("(?m)^\\[技能(?:自动)?启用:[^\\]]+\\]\\s*\\n?", b.as_str(), "");
    let d = strip_meta_lines(c.as_str());
    let e = strip_incomplete_tags(d.as_str());
    let f = trim_incomplete_markdown(e.as_str());
    proof {
        assert(""@ =~= Seq::<char>::empty()) by {
            reveal_strlit("");
        }
    }
    normalize_whitespace(f.as_str())
}

fn is_meta(t: &str) -> (r: bool)
    ensures
        r == is_meta_line(t@),
{
    contains(t, "用户问我") || contains(t, "这是一个简单的问题") || contains(t, "根据 ONEMINI.md")
        || (contains(t, "直接根据") && contains(t, "技能")) || str_eq(t, "思考中") || str_eq(t, "::")
        || str_eq(t, ":.")
}

/// Drops meta narration lines.
pub fn strip_meta_lines(text: &str) -> (r: String)
    ensures
        r@ == strip_meta_lines_spec(text@),
{
    let ls = lines(text);
    let n = ls.len();
    let mut kept: Vec<String> = Vec::new();
    let mut i: usize = 0;
    while i < n
        invariant
            n == ls@.len(),
            i <= n,
            views(kept@) == kept_lines(views(ls@).take(i as int)),
        decreases n - i,
    {
        let line = &ls[i];
        let t = trim(line.as_str());
        let keep = is_empty_str(t.as_str()) || !is_meta(t.as_str());
        let ghost before = kept@;
        proof {
            assert(views(ls@).take(i + 1).drop_last() =~= views(ls@).take(i as int));
            assert(views(ls@).take(i + 1).last() == line@);
            reveal(Seq::filter);
        }
        if keep {
            kept.push(line.clone());
            assert(views(kept@) =~= views(before).push(line@));
        }
        i = i + 1;
    }
    assert(views(ls@).take(n as int) =~= views(ls@));
    join(&kept, "\n")
}

fn strip_incomplete_tags(text: &str) -> (r: String)
    ensures
        r@ == replace_all_spec(re_incomplete_tag(), text@, Seq::empty()),
{
    let r = replace_all(
        "(?is)(?:<system_instructions>[\\s\\S]*$|<thinking>[\\s\\S]*$|<think>[\\s\\S]*$|<answer>[\\s\\S]*$|<state_update>[\\s\\S]*$|</?(?:thinking|answer|response|state_update|system_instructions)[^>]*$)",
        text,
        "",
    );
    proof {
        assert(""@ =~= Seq::<char>::empty()) by {
            reveal_strlit("");
        }
    }
    r
}

/// Collapses runs of blank lines to one and trims.
pub fn collapse_blank_lines(text: &str) -> (r: String)
    ensures
        r@ == collapse_blank_lines_spec(text@),
{
    let ls = lines(text);
    let n = ls.len();
    let mut out = String::new();
    let mut prev_blank = false;
    let mut i: usize = 0;
    assert(views(ls@).skip(0) =~= views(ls@));
    while i < n
        invariant
            n == ls@.len(),
            i <= n,
            collapse_from(views(ls@), Seq::empty(), false) == collapse_from(views(ls@).skip(i as int), out@, prev_blank),
        decreases n - i,
    {
        let line = &ls[i];
        proof {
            assert(views(ls@).skip(i as int)[0] == line@);
            assert(views(ls@).skip(i as int).drop_first() =~= views(ls@).skip(i + 1));
        }
        let t = trim(line.as_str());
        let blank = is_empty_str(t.as_str());
        if blank && prev_blank {
            i = i + 1;
            continue;
        }
        if !is_empty_str(out.as_str()) {
            push_char(&mut out, '\n');
        }
        out.append(line.as_str());
        prev_blank = blank;
        i = i + 1;
    }
    assert(views(ls@).skip(n as int) =~= Seq::<Seq<char>>::empty());
    trim(out.as_str())
}

fn normalize_whitespace(text: &str) -> (r: String)
    ensures
        r@ == normalize_whitespace_spec(text@),
{
    let collapsed = collapse_blank_lines(text);
    let replaced = replace_all("\\n{3,}", collapsed.as_str(), "\n\n");
    trim(replaced.as_str())
}

/// Index of the last occurrence of `t` in `v` (`str::rfind`).
fn rfind(v: &Vec<char>, t: &Vec<char>) -> (r: Option<usize>)
    ensures
        r matches Some(i) ==> occurs_at(v@, t@, i as int) && forall|j: int| i < j ==> !occurs_at(v@, t@, j),
        r is None ==> forall|j: int| !occurs_at(v@, t@, j),
{
    if t.len() > v.len() {
        return None;
    }
    if t.len() == 0 {
        assert(v@.subrange(v@.len() as int, v@.len() as int) =~= t@);
        return Some(v.len());
    }
    let mut i: usize = v.len() - t.len() + 1;
    while i > 0
        invariant
            i <= v@.len() - t@.len() + 1,
            forall|j: int| i <= j ==> !occurs_at(v@, t@, j),
        decreases i,
    {
        if occurs_at_exec(v.as_slice(), t.as_slice(), i - 1) {
            return Some(i - 1);
        }
        i = i - 1;
    }
    None
}

proof fn lemma_last_occurrence(s: Seq<char>, t: Seq<char>, i: int)
    requires
        occurs_at(s, t, i),
        forall|j: int| i < j ==> !occurs_at(s, t, j),
    ensures
        crate::text::last_occurrence(s, t) == Some(i),
{
    assert(contains_seq(s, t));
    let k = choose|k: int| occurs_at(s, t, k) && forall|j: int| k < j ==> !occurs_at(s, t, j);
    assert(k == i);
}

/// Number of non-overlapping occurrences (`str::matches(..).count()`).
pub(crate) fn count_matches(v: &Vec<char>, t: &Vec<char>) -> (r: usize)
    requires
        t@.len() > 0,
    ensures
        r == count_occurrences(v@, t@),
{
    let n = v.len();
    let mut i: usize = 0;
    let mut count: usize = 0;
    assert(v@.skip(0) =~= v@);
    while i < n
        invariant
            n == v@.len(),
            t@.len() > 0,
            i <= n,
            count <= i,
            count_occurrences(v@, t@) == count + count_occurrences(v@.skip(i as int), t@),
        decreases n - i,
    {
        let ghost rest = v@.skip(i as int);
        if occurs_at_exec(v.as_slice(), t.as_slice(), i) {
            assert(rest.take(t@.len() as int) =~= v@.subrange(i as int, i + t@.len()));
            assert(rest.skip(t@.len() as int) =~= v@.skip(i + t@.len()));
            count = count + 1;
            i = i + t.len();
        } else {
            proof {
                if t@.len() <= rest.len() {
                    assert(rest.take(t@.len() as int) =~= v@.subrange(i as int, i + t@.len()));
                }
            }
            assert(rest.drop_first() =~= v@.skip(i + 1));
            i = i + 1;
        }
    }
    assert(v@.skip(n as int) =~= Seq::<char>::empty());
    count
}

fn trim_unclosed_inline(text: &str, marker: &str) -> (r: String)
    requires
        marker@.len() > 0,
    ensures
        r@ == trim_unclosed_inline_spec(text@, marker@),
{
    let v = chars_of(text);
    let m = chars_of(marker);
    let count = count_matches(&v, &m);
    if count % 2 == 1 {
        match rfind(&v, &m) {
            Some(last) => {
                proof {
                    lemma_last_occurrence(v@, m@, last as int);
                }
                return string_from_range(v.as_slice(), 0, last);
            },
            None => {
                assert(!contains_seq(v@, m@));
            },
        }
    }
    owned(text)
}

fn is_closed_heading_exec(t: &str) -> (r: bool)
    ensures
        r == is_closed_heading(t@),
{
    let v = chars_of(t);
    if !starts_with(t, "#") || !ends_with(t, "#") {
        return false;
    }
    let n = v.len();
    let mut k: usize = 0;
    while k < n && v[k] == '#'
        invariant
            n == v@.len(),
            v@ == t@,
            k <= n,
            forall|q: int| 0 <= q < k ==> v@[q] == '#',
        decreases n - k,
    {
        k = k + 1;
    }
    let r = k < n && v[k] == ' ';
    proof {
        reveal_strlit("#");
        if r {
            assert(v@.take(1)[0] == '#');
            assert(v@[0] == '#');
            assert(k > 0);
        } else {
            if is_closed_heading(t@) {
                let k2 = choose|k2: int| 0 < k2 < t@.len() && t@[k2] == ' ' && forall|q: int| 0 <= q < k2 ==> t@[q] == '#';
                if k2 < k {
                    assert(v@[k2] == '#');
                } else if k2 > k {
                    assert(k < n);
                    assert(v@[k as int] != '#');
                    assert(t@[k as int] == '#');
                }
            }
        }
    }
    r
}

/// Drops a trailing line that is only an unfinished block marker.
pub fn trim_incomplete_block_line(line: &str) -> (r: String)
    ensures
        r@ == trim_incomplete_block_line_spec(line@),
{
    let t = trim_end(line);
    let ts = t.as_str();
    if is_closed_heading_exec(ts) {
        return owned(line);
    }
    if regex_is_match("^#{1,6}\\s*$", ts) || regex_is_match("^[-*+]\\s*$", ts) || regex_is_match(
        "^\\d+\\.\\s*$",
        ts,
    ) || regex_is_match("^>\\s*$", ts) || regex_is_match("^(-{3,}|\\*{3,}|_{3,})\\s*$", ts) {
        return String::new();
    }
    owned(line)
}

fn trim_last_line(text: &str) -> (r: String)
    ensures
        r@ == trim_last_line_spec(text@),
{
    let v = chars_of(text);
    let n = v.len();
    let mut i: usize = n;
    while i > 0 && v[i - 1] != '\n'
        invariant
            n == v@.len(),
            i <= n,
            forall|j: int| i <= j < n ==> v@[j] != '\n',
        decreases i,
    {
        i = i - 1;
    }
    if i == 0 {
        assert(!has_char(v@, '\n'));
        return trim_incomplete_block_line(text);
    }
    let head = string_from_range(v.as_slice(), 0, i);
    let tail = string_from_range(v.as_slice(), i, n);
    let trimmed = trim_incomplete_block_line(tail.as_str());
    proof {
        let k = (i - 1) as int;
        assert(v@[k] == '\n');
        assert(has_char(v@, '\n'));
        let c = choose|c: int| 0 <= c < v@.len() && v@[c] == '\n' && forall|j: int| c < j < v@.len() ==> v@[j] != '\n';
        if c < k {
            assert(v@[k] != '\n');
        }
        assert(c == k);
        assert(v@.subrange(0, i as int) =~= v@.take(k + 1));
        assert(v@.subrange(i as int, n as int) =~= v@.skip(k + 1));
    }
    concat2(head.as_str(), trimmed.as_str())
}

/// The fence-truncation step: an odd number of ```` ``` ```` fences cuts the text at
/// the start of the last one found by scanning left to right without overlap.
pub open spec fn fence_cut_from(s: Seq<char>, start: int, count: nat, last: int) -> Seq<char>
    decreases s.len() - start,
{
    if start >= s.len() {
        if count % 2 == 1 {
            s.take(last)
        } else {
            s
        }
    } else {
        match first_occurrence_from(s, "```"@, start) {
            Some(i) => if i + 3 > start && i + 3 <= s.len() {
                fence_cut_from(s, i + 3, count + 1, i)
            } else {
                s
            },
            None => if count % 2 == 1 {
                s.take(last)
            } else {
                s
            },
        }
    }
}

/// Unclosed fences, inline markers and an unfinished last line removed.
pub open spec fn trim_incomplete_markdown_spec(content: Seq<char>) -> Seq<char> {
    if content.len() == 0 {
        Seq::empty()
    } else {
        trim_last_line_spec(trim_inline_markers_spec(fence_cut_from(content, 0, 0, 0)))
    }
}

proof fn lemma_first_occurrence(s: Seq<char>, t: Seq<char>, start: int, i: int)
    requires
        start <= i,
        occurs_at(s, t, i),
        forall|j: int| start <= j < i ==> !occurs_at(s, t, j),
    ensures
        first_occurrence_from(s, t, start) == Some(i),
{
    let k = choose|k: int| start <= k && occurs_at(s, t, k) && forall|j: int| start <= j < k ==> !occurs_at(s, t, j);
    if k < i {
        assert(!occurs_at(s, t, k));
    }
    if k > i {
        assert(!occurs_at(s, t, i));
    }
}

#[verifier::spinoff_prover]
#[verifier::rlimit(40)]
proof fn lemma_fence_step(s: Seq<char>, start: int, count: nat, last: int, i: int)
    requires
        0 <= start < s.len(),
        start <= i,
        i + 3 <= s.len(),
        first_occurrence_from(s, "```"@, start) == Some(i),
    ensures
        fence_cut_from(s, start, count, last) == fence_cut_from(s, i + 3, count + 1, i),
{
}

proof fn lemma_fence_stop(s: Seq<char>, start: int, count: nat, last: int)
    requires
        start >= s.len() || first_occurrence_from(s, "```"@, start) is None,
    ensures
        fence_cut_from(s, start, count, last) == (if count % 2 == 1 {
            s.take(last)
        } else {
            s
        }),
{
}

fn cut_unclosed_fence(text: &str) -> (r: String)
    ensures
        r@ == fence_cut_from(text@, 0, 0, 0),
{
    let v = chars_of(text);
    let fence = chars_of("```");
    proof {
        reveal_strlit("```");
    }
    let n = v.len();
    let mut search_from: usize = 0;
    let mut count: usize = 0;
    let mut last: usize = 0;
    while search_from < n
        invariant
            n == v@.len(),
            fence@ == "```"@,
            fence@.len() == 3,
            count <= search_from,
            last <= search_from,
            last <= n,
            fence_cut_from(v@, 0, 0, 0) == fence_cut_from(v@, search_from as int, count as nat, last as int),
        ensures
            fence_cut_from(v@, 0, 0, 0) == (if count % 2 == 1 {
                v@.take(last as int)
            } else {
                v@
            }),
        decreases n - search_from,
    {
        proof {
            if search_from >= n {
                lemma_fence_stop(v@, search_from as int, count as nat, last as int);
            }
        }
        match find_from(v.as_slice(), fence.as_slice(), search_from) {
            Some(idx) => {
                proof {
                    lemma_first_occurrence(v@, fence@, search_from as int, idx as int);
                    lemma_fence_step(v@, search_from as int, count as nat, last as int, idx as int);
                }
                count = count + 1;
                last = idx;
                search_from = idx + 3;
            },
            None => {
                proof {
                    if exists|i: int| search_from <= i && occurs_at(v@, fence@, i) {
                        let i = choose|i: int| search_from <= i && occurs_at(v@, fence@, i);
                        assert(!occurs_at(v@, fence@, i));
                    }
                    lemma_fence_stop(v@, search_from as int, count as nat, last as int);
                }
                break;
            },
        }
    }
    if count % 2 == 1 {
        string_from_range(v.as_slice(), 0, last)
    } else {
        owned(text)
    }
}

/// Removes unfinished Markdown at the end of streamed text.
pub fn trim_incomplete_markdown(content: &str) -> (r: String)
    ensures
        r@ == trim_incomplete_markdown_spec(content@),
{
    if is_empty_str(content) {
        return String::new();
    }
    let text = cut_unclosed_fence(content);
    proof {
        reveal_strlit("**");
        reveal_strlit("__");
        reveal_strlit("*");
        reveal_strlit("`");
    }
    let a = trim_unclosed_inline(text.as_str(), "**");
    let b = trim_unclosed_inline(a.as_str(), "__");
    let c = trim_unclosed_inline(b.as_str(), "*");
    let d = trim_unclosed_inline(c.as_str(), "`");
    trim_last_line(d.as_str())
}

/// Whether the text holds Markdown structure worth re-rendering.
pub fn has_markdown_structure(text: &str) -> (r: bool)
    ensures
        r == has_markdown_structure_spec(text@),
{
    contains_char(text, '#') || contains(text, "**") || contains(text, "```") || contains_char(text, '|')
        || contains(text, "\n- ") || contains(text, "\n* ")
}

} // verus!
