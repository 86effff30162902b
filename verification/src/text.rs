//! Character-level string helpers with specifications over `Seq<char>`.
use vstd::prelude::*;
use vstd::string::*;

verus! {

broadcast use vstd::string::group_string_axioms;

// ---------------------------------------------------------------------------
// Specifications
// ---------------------------------------------------------------------------

/// Unicode `White_Space`, the property that `char::is_whitespace` documents.
pub open spec fn is_ws(c: char) -> bool {
    let u = c as u32;
    ||| u == 0x09 || u == 0x0A || u == 0x0B || u == 0x0C || u == 0x0D || u == 0x20
    ||| u == 0x85 || u == 0xA0 || u == 0x1680
    ||| (0x2000 <= u && u <= 0x200A)
    ||| u == 0x2028 || u == 0x2029 || u == 0x202F || u == 0x205F || u == 0x3000
}

/// `s` without its leading whitespace.
pub open spec fn trim_start_seq(s: Seq<char>) -> Seq<char>
    decreases s.len(),
{
    if s.len() > 0 && is_ws(s[0]) {
        trim_start_seq(s.drop_first())
    } else {
        s
    }
}

/// `s` without its trailing whitespace.
pub open spec fn trim_end_seq(s: Seq<char>) -> Seq<char>
    decreases s.len(),
{
    if s.len() > 0 && is_ws(s.last()) {
        trim_end_seq(s.drop_last())
    } else {
        s
    }
}

/// `s` without leading and trailing whitespace.
pub open spec fn trim_seq(s: Seq<char>) -> Seq<char> {
    trim_end_seq(trim_start_seq(s))
}

/// `t` occurs in `s` starting at index `i`.
pub open spec fn occurs_at(s: Seq<char>, t: Seq<char>, i: int) -> bool {
    0 <= i && i + t.len() <= s.len() && s.subrange(i, i + t.len()) == t
}

/// `t` occurs somewhere in `s`.
pub open spec fn contains_seq(s: Seq<char>, t: Seq<char>) -> bool {
    exists|i: int| occurs_at(s, t, i)
}

/// `c` occurs in `s`.
pub open spec fn has_char(s: Seq<char>, c: char) -> bool {
    exists|i: int| 0 <= i < s.len() && s[i] == c
}

/// `s` begins with `t`.
pub open spec fn has_prefix(s: Seq<char>, t: Seq<char>) -> bool {
    t.len() <= s.len() && s.take(t.len() as int) == t
}

/// `s` ends with `t`.
pub open spec fn has_suffix(s: Seq<char>, t: Seq<char>) -> bool {
    t.len() <= s.len() && s.skip(s.len() - t.len()) == t
}

/// A line without the carriage return that precedes its line feed.
pub open spec fn strip_cr(line: Seq<char>) -> Seq<char> {
    if line.len() > 0 && line.last() == '\r' {
        line.drop_last()
    } else {
        line
    }
}

/// The lines of `s` that follow the partial line `cur`, as `str::lines` cuts them:
/// at each `\n`, dropping a `\r` just before it; a final line feed opens no new line.
pub open spec fn lines_from(s: Seq<char>, cur: Seq<char>) -> Seq<Seq<char>>
    decreases s.len(),
{
    if s.len() == 0 {
        if cur.len() == 0 {
            Seq::empty()
        } else {
            seq![cur]
        }
    } else if s[0] == '\n' {
        seq![strip_cr(cur)] + lines_from(s.drop_first(), Seq::empty())
    } else {
        lines_from(s.drop_first(), cur.push(s[0]))
    }
}

/// The lines of `s` (`str::lines`).
pub open spec fn lines_spec(s: Seq<char>) -> Seq<Seq<char>> {
    lines_from(s, Seq::empty())
}

/// `t` written `n` times.
pub open spec fn repeat_seq(t: Seq<char>, n: nat) -> Seq<char>
    decreases n,
{
    if n == 0 {
        Seq::empty()
    } else {
        repeat_seq(t, (n - 1) as nat) + t
    }
}

/// The parts joined with `sep` between neighbours.
pub open spec fn join_seq(parts: Seq<Seq<char>>, sep: Seq<char>) -> Seq<char>
    decreases parts.len(),
{
    if parts.len() == 0 {
        Seq::empty()
    } else if parts.len() == 1 {
        parts[0]
    } else {
        join_seq(parts.drop_last(), sep) + sep + parts.last()
    }
}

/// The views of a sequence of strings.
pub open spec fn views(v: Seq<String>) -> Seq<Seq<char>> {
    v.map_values(|x: String| x@)
}

/// The decimal digit for `d < 10`.
pub open spec fn digit_char(d: nat) -> char {
    if d == 0 { '0' }
    else if d == 1 { '1' }
    else if d == 2 { '2' }
    else if d == 3 { '3' }
    else if d == 4 { '4' }
    else if d == 5 { '5' }
    else if d == 6 { '6' }
    else if d == 7 { '7' }
    else if d == 8 { '8' }
    else { '9' }
}

/// Decimal notation of `n`, as `Display` writes an unsigned integer.
pub open spec fn decimal(n: nat) -> Seq<char>
    decreases n,
{
    if n < 10 {
        seq![digit_char(n)]
    } else {
        decimal(n / 10).push(digit_char(n % 10))
    }
}

/// Decimal notation holds only digits.
pub proof fn lemma_decimal_digits(n: nat)
    ensures
        forall|i: int| 0 <= i < decimal(n).len() ==> '0' <= #[trigger] decimal(n)[i] <= '9',
    decreases n,
{
    let d = if n < 10 { n } else { n % 10 };
    assert('0' <= digit_char(d) <= '9');
    if n >= 10 {
        lemma_decimal_digits(n / 10);
        let p = decimal(n / 10);
        assert forall|i: int| 0 <= i < decimal(n).len() implies '0' <= #[trigger] decimal(n)[i] <= '9' by {
            if i < p.len() {
                assert(decimal(n)[i] == p[i]);
            } else {
                assert(decimal(n)[i] == digit_char(d));
            }
        }
    } else {
        assert(decimal(n) =~= seq![digit_char(d)]);
    }
}

/// `s` with every non-overlapping occurrence of `from`, scanned left to right,
/// replaced by `to` (`str::replace`, for a non-empty `from`).
pub open spec fn replace_seq(s: Seq<char>, from: Seq<char>, to: Seq<char>) -> Seq<char>
    decreases s.len(),
{
    if from.len() == 0 || s.len() == 0 {
        s
    } else if has_prefix(s, from) {
        to + replace_seq(s.skip(from.len() as int), from, to)
    } else {
        seq![s[0]] + replace_seq(s.drop_first(), from, to)
    }
}

/// Number of non-overlapping occurrences of `t` scanned left to right (`str::matches(..).count()`).
pub open spec fn count_occurrences(s: Seq<char>, t: Seq<char>) -> nat
    decreases s.len(),
{
    if t.len() == 0 || s.len() == 0 {
        0
    } else if has_prefix(s, t) {
        1 + count_occurrences(s.skip(t.len() as int), t)
    } else {
        count_occurrences(s.drop_first(), t)
    }
}

/// Index of the last occurrence of `t` in `s`, if any (`str::rfind`).
pub open spec fn last_occurrence(s: Seq<char>, t: Seq<char>) -> Option<int> {
    if contains_seq(s, t) {
        Some(choose|i: int| occurs_at(s, t, i) && forall|j: int| i < j ==> !occurs_at(s, t, j))
    } else {
        None
    }
}


/// The whitespace-separated words of `s` that follow the partial word `cur`
/// (`str::split_whitespace`).
pub open spec fn words_from(s: Seq<char>, cur: Seq<char>) -> Seq<Seq<char>>
    decreases s.len(),
{
    if s.len() == 0 {
        if cur.len() == 0 {
            Seq::empty()
        } else {
            seq![cur]
        }
    } else if is_ws(s[0]) {
        (if cur.len() == 0 {
            Seq::empty()
        } else {
            seq![cur]
        }) + words_from(s.drop_first(), Seq::empty())
    } else {
        words_from(s.drop_first(), cur.push(s[0]))
    }
}

/// The whitespace-separated words of `s`.
pub open spec fn words(s: Seq<char>) -> Seq<Seq<char>> {
    words_from(s, Seq::empty())
}

/// ASCII lowercase of one character (`char::to_ascii_lowercase`).
pub open spec fn ascii_lower(c: char) -> char {
    if 65 <= (c as u32) && (c as u32) <= 90 {
        (((c as u32) + 32) as u8) as char
    } else {
        c
    }
}

/// `str::eq_ignore_ascii_case`.
pub open spec fn eq_ignore_ascii_case_seq(a: Seq<char>, b: Seq<char>) -> bool {
    a.len() == b.len() && forall|i: int| 0 <= i < a.len() ==> ascii_lower(a[i]) == ascii_lower(b[i])
}

/// `s` without any trailing copies of `c` (`str::trim_end_matches` with a char).
pub open spec fn trim_end_char(s: Seq<char>, c: char) -> Seq<char>
    decreases s.len(),
{
    if s.len() > 0 && s.last() == c {
        trim_end_char(s.drop_last(), c)
    } else {
        s
    }
}

/// `s` without any leading copies of `t` (`str::trim_start_matches` with a string).
pub open spec fn trim_start_str(s: Seq<char>, t: Seq<char>) -> Seq<char>
    decreases s.len(),
{
    if t.len() > 0 && has_prefix(s, t) {
        trim_start_str(s.skip(t.len() as int), t)
    } else {
        s
    }
}


/// Each string with `prefix` in front.
pub open spec fn prefix_each_seq(v: Seq<Seq<char>>, prefix: Seq<char>) -> Seq<Seq<char>> {
    v.map_values(|l: Seq<char>| prefix + l)
}

// ---------------------------------------------------------------------------
// std items without a specification in vstd
// ---------------------------------------------------------------------------

/// Lowercase mapping of `str::to_lowercase` (Unicode case folding tables).
pub uninterp spec fn lowercase(s: Seq<char>) -> Seq<char>;

/// `String::push`: appends one character.
#[verifier::external_body]
pub(crate) fn push_char(s: &mut String, c: char)
    ensures
        final(s)@ == old(s)@.push(c),
{
    s.push(c)
}

/// Every character is ASCII.
pub open spec fn is_ascii_seq(s: Seq<char>) -> bool {
    forall|i: int| 0 <= i < s.len() ==> (#[trigger] s[i] as u32) < 128
}

/// ASCII lowercase of a text.
pub open spec fn ascii_lower_seq(s: Seq<char>) -> Seq<char> {
    s.map_values(|c: char| ascii_lower(c))
}

/// `str::to_lowercase`: the result is the lowercase mapping of the argument,
/// which this library treats as a function of the text alone. On ASCII text
/// the Unicode lowercase mapping (which `str::to_lowercase` applies) is ASCII
/// lowercasing: `A`-`Z` to `a`-`z`, every other ASCII character unchanged.
#[verifier::external_body]
pub(crate) fn to_lower(s: &str) -> (r: String)
    ensures
        r@ == lowercase(s@),
        is_ascii_seq(s@) ==> r@ == ascii_lower_seq(s@),
{
    s.to_lowercase()
}

// ---------------------------------------------------------------------------
// Executable helpers
// ---------------------------------------------------------------------------

/// The characters of `s`, in order.
pub fn chars_of(s: &str) -> (v: Vec<char>)
    ensures
        v@ == s@,
{
    let mut v: Vec<char> = Vec::new();
    for c in it: s.chars()
        invariant
            v@ == it.seq().take(it.index()),
            it.seq() == s@,
    {
        v.push(c);
    }
    v
}

/// A `String` holding `s`.
pub fn owned(s: &str) -> (r: String)
    ensures
        r@ == s@,
{
    String::from_str(s)
}

/// `s` followed by `t`.
pub fn concat2(s: &str, t: &str) -> (r: String)
    ensures
        r@ == s@ + t@,
{
    let mut r = String::from_str(s);
    r.append(t);
    r
}

/// `a`, `b` and `c` in a row.
pub fn concat3(a: &str, b: &str, c: &str) -> (r: String)
    ensures
        r@ == a@ + b@ + c@,
{
    let mut r = String::from_str(a);
    r.append(b);
    r.append(c);
    r
}

/// A string built from characters.
pub fn string_from_chars(v: &[char]) -> (r: String)
    ensures
        r@ == v@,
{
    let mut r = String::new();
    let n = v.len();
    let mut i: usize = 0;
    while i < n
        invariant
            n == v@.len(),
            i <= n,
            r@ == v@.take(i as int),
        decreases n - i,
    {
        push_char(&mut r, v[i]);
        i = i + 1;
        assert(r@ =~= v@.take(i as int));
    }
    assert(v@.take(n as int) =~= v@);
    r
}

/// Characters `from..to` of `v` as a string.
pub fn string_from_range(v: &[char], from: usize, to: usize) -> (r: String)
    requires
        from <= to <= v@.len(),
    ensures
        r@ == v@.subrange(from as int, to as int),
{
    let mut r = String::new();
    let mut i: usize = from;
    while i < to
        invariant
            from <= i <= to <= v@.len(),
            r@ == v@.subrange(from as int, i as int),
        decreases to - i,
    {
        push_char(&mut r, v[i]);
        i = i + 1;
        assert(r@ =~= v@.subrange(from as int, i as int));
    }
    r
}

/// Whether `c` is whitespace.
pub fn is_whitespace(c: char) -> (r: bool)
    ensures
        r == is_ws(c),
{
    let u = c as u32;
    u == 0x09 || u == 0x0A || u == 0x0B || u == 0x0C || u == 0x0D || u == 0x20 || u == 0x85
        || u == 0xA0 || u == 0x1680 || (0x2000 <= u && u <= 0x200A) || u == 0x2028 || u
        == 0x2029 || u == 0x202F || u == 0x205F || u == 0x3000
}

proof fn lemma_trim_start_skip(s: Seq<char>, i: int)
    requires
        0 <= i <= s.len(),
        forall|k: int| 0 <= k < i ==> is_ws(s[k]),
    ensures
        trim_start_seq(s) == trim_start_seq(s.skip(i)),
    decreases i,
{
    if i > 0 {
        lemma_trim_start_skip(s.drop_first(), i - 1);
        assert(s.drop_first().skip(i - 1) =~= s.skip(i));
    } else {
        assert(s.skip(0) =~= s);
    }
}

proof fn lemma_trim_end_take(s: Seq<char>, j: int)
    requires
        0 <= j <= s.len(),
        forall|k: int| j <= k < s.len() ==> is_ws(s[k]),
    ensures
        trim_end_seq(s) == trim_end_seq(s.take(j)),
    decreases s.len() - j,
{
    if j < s.len() {
        lemma_trim_end_take(s.drop_last(), j);
        assert(s.drop_last().take(j) =~= s.take(j));
    } else {
        assert(s.take(j) =~= s);
    }
}

/// Index of the first non-whitespace character of `v` (or its length).
pub fn skip_ws_index(v: &[char]) -> (i: usize)
    ensures
        i <= v@.len(),
        forall|k: int| 0 <= k < i ==> is_ws(v@[k]),
        i < v@.len() ==> !is_ws(v@[i as int]),
        trim_start_seq(v@) == v@.skip(i as int),
{
    let n = v.len();
    let mut i: usize = 0;
    while i < n && is_whitespace(v[i])
        invariant
            n == v@.len(),
            i <= n,
            forall|k: int| 0 <= k < i ==> is_ws(v@[k]),
        decreases n - i,
    {
        i = i + 1;
    }
    proof {
        lemma_trim_start_skip(v@, i as int);
        if i < n {
            assert(v@.skip(i as int)[0] == v@[i as int]);
        }
    }
    i
}

/// Index just after the last non-whitespace character of `v` (or 0).
pub fn trim_end_index(v: &[char]) -> (j: usize)
    ensures
        j <= v@.len(),
        forall|k: int| j <= k < v@.len() ==> is_ws(v@[k]),
        j > 0 ==> !is_ws(v@[j - 1]),
        trim_end_seq(v@) == v@.take(j as int),
{
    let mut j: usize = v.len();
    while j > 0 && is_whitespace(v[j - 1])
        invariant
            j <= v@.len(),
            forall|k: int| j <= k < v@.len() ==> is_ws(v@[k]),
        decreases j,
    {
        j = j - 1;
    }
    proof {
        lemma_trim_end_take(v@, j as int);
        if j > 0 {
            assert(v@.take(j as int).last() == v@[j - 1]);
        }
    }
    j
}

/// `str::trim_start`.
pub fn trim_start(s: &str) -> (r: String)
    ensures
        r@ == trim_start_seq(s@),
{
    let v = chars_of(s);
    let i = skip_ws_index(v.as_slice());
    string_from_range(v.as_slice(), i, v.len())
}

/// `str::trim_end`.
pub fn trim_end(s: &str) -> (r: String)
    ensures
        r@ == trim_end_seq(s@),
{
    let v = chars_of(s);
    let j = trim_end_index(v.as_slice());
    string_from_range(v.as_slice(), 0, j)
}

/// `str::trim`.
pub fn trim(s: &str) -> (r: String)
    ensures
        r@ == trim_seq(s@),
{
    let a = trim_start(s);
    trim_end(a.as_str())
}

/// Whether `t` occurs in `v` at index `i`.
pub fn occurs_at_exec(v: &[char], t: &[char], i: usize) -> (r: bool)
    ensures
        r == occurs_at(v@, t@, i as int),
{
    if i > v.len() || t.len() > v.len() - i {
        return false;
    }
    let m = t.len();
    let mut k: usize = 0;
    while k < m
        invariant
            m == t@.len(),
            i + m <= v@.len(),
            v@.len() == v.len(),
            k <= m,
            forall|q: int| 0 <= q < k ==> v@[i + q] == t@[q],
        decreases m - k,
    {
        if v[i + k] != t[k] {
            assert(v@.subrange(i as int, i + m)[k as int] != t@[k as int]);
            return false;
        }
        k = k + 1;
    }
    assert(v@.subrange(i as int, i + m) =~= t@);
    true
}

/// First index at which `t` occurs in `v`, scanning from `start`.
pub fn find_from(v: &[char], t: &[char], start: usize) -> (r: Option<usize>)
    ensures
        r matches Some(i) ==> start <= i && occurs_at(v@, t@, i as int) && forall|j: int|
            start <= j < i ==> !occurs_at(v@, t@, j),
        r is None ==> forall|j: int| start <= j ==> !occurs_at(v@, t@, j),
{
    let n = v.len();
    if t.len() > n {
        return None;
    }
    let last = n - t.len();
    let mut i: usize = start;
    while i <= last
        invariant
            n == v@.len(),
            last == n - t@.len(),
            start <= i || i > last,
            forall|j: int| start <= j < i ==> !occurs_at(v@, t@, j),
        decreases last + 1 - i,
    {
        if occurs_at_exec(v, t, i) {
            return Some(i);
        }
        if i == last {
            return None;
        }
        i = i + 1;
    }
    None
}

/// `str::contains` for a string pattern.
pub fn contains(s: &str, t: &str) -> (r: bool)
    ensures
        r == contains_seq(s@, t@),
{
    let v = chars_of(s);
    let w = chars_of(t);
    match find_from(v.as_slice(), w.as_slice(), 0) {
        Some(_) => true,
        None => false,
    }
}

/// `str::contains` for a character.
pub fn contains_char(s: &str, c: char) -> (r: bool)
    ensures
        r == has_char(s@, c),
{
    let v = chars_of(s);
    let n = v.len();
    let mut i: usize = 0;
    while i < n
        invariant
            n == v@.len(),
            v@ == s@,
            i <= n,
            forall|k: int| 0 <= k < i ==> v@[k] != c,
        decreases n - i,
    {
        if v[i] == c {
            return true;
        }
        i = i + 1;
    }
    false
}

/// `str::starts_with`.
pub fn starts_with(s: &str, t: &str) -> (r: bool)
    ensures
        r == has_prefix(s@, t@),
{
    let v = chars_of(s);
    let w = chars_of(t);
    let r = occurs_at_exec(v.as_slice(), w.as_slice(), 0);
    proof {
        if r {
            assert(v@.subrange(0, w@.len() as int) =~= v@.take(w@.len() as int));
        } else if w@.len() <= v@.len() {
            assert(v@.subrange(0, w@.len() as int) =~= v@.take(w@.len() as int));
        }
    }
    r
}

/// `str::ends_with`.
pub fn ends_with(s: &str, t: &str) -> (r: bool)
    ensures
        r == has_suffix(s@, t@),
{
    let v = chars_of(s);
    let w = chars_of(t);
    if w.len() > v.len() {
        return false;
    }
    let i = v.len() - w.len();
    let r = occurs_at_exec(v.as_slice(), w.as_slice(), i);
    proof {
        assert(v@.subrange(i as int, i + w@.len()) =~= v@.skip(i as int));
    }
    r
}

pub proof fn lemma_views_push(v: Seq<String>, x: String)
    ensures
        views(v.push(x)) == views(v).push(x@),
{
    assert(views(v.push(x)) =~= views(v).push(x@));
}

/// `str::lines`.
pub fn lines(s: &str) -> (r: Vec<String>)
    ensures
        views(r@) == lines_spec(s@),
{
    let v = chars_of(s);
    let n = v.len();
    let mut out: Vec<String> = Vec::new();
    let mut cur: Vec<char> = Vec::new();
    let mut i: usize = 0;
    assert(v@.skip(0) =~= v@);
    assert(views(out@) =~= Seq::<Seq<char>>::empty());
    while i < n
        invariant
            n == v@.len(),
            i <= n,
            lines_spec(v@) == views(out@) + lines_from(v@.skip(i as int), cur@),
        decreases n - i,
    {
        let c = v[i];
        assert(v@.skip(i as int).drop_first() =~= v@.skip(i + 1));
        assert(v@.skip(i as int)[0] == c);
        let ghost before = views(out@);
        let ghost rest = lines_from(v@.skip(i + 1), Seq::empty());
        if c == '\n' {
            let line = if cur.len() > 0 && cur[cur.len() - 1] == '\r' {
                string_from_range(cur.as_slice(), 0, cur.len() - 1)
            } else {
                string_from_chars(cur.as_slice())
            };
            assert(line@ == strip_cr(cur@)) by {
                if cur@.len() > 0 && cur@.last() == '\r' {
                    assert(cur@.subrange(0, cur@.len() - 1) =~= cur@.drop_last());
                }
            }
            proof {
                lemma_views_push(out@, line);
                assert(before + (seq![line@] + rest) =~= before.push(line@) + rest);
            }
            out.push(line);
            cur = Vec::new();
        } else {
            cur.push(c);
        }
        i = i + 1;
    }
    assert(v@.skip(n as int) =~= Seq::<char>::empty());
    if cur.len() > 0 {
        let line = string_from_chars(cur.as_slice());
        proof {
            lemma_views_push(out@, line);
        }
        out.push(line);
    }
    out
}

/// `t` written `n` times (`str::repeat`).
pub fn repeat(t: &str, n: usize) -> (r: String)
    ensures
        r@ == repeat_seq(t@, n as nat),
{
    let mut r = String::new();
    let mut i: usize = 0;
    while i < n
        invariant
            i <= n,
            r@ == repeat_seq(t@, i as nat),
        decreases n - i,
    {
        r.append(t);
        i = i + 1;
    }
    r
}

/// The parts joined with `sep` (`[String]::join`).
pub fn join(parts: &Vec<String>, sep: &str) -> (r: String)
    ensures
        r@ == join_seq(views(parts@), sep@),
{
    let mut r = String::new();
    let n = parts.len();
    let mut i: usize = 0;
    while i < n
        invariant
            n == parts@.len(),
            i <= n,
            r@ == join_seq(views(parts@.take(i as int)), sep@),
        decreases n - i,
    {
        let ghost prev = views(parts@.take(i as int));
        if i > 0 {
            r.append(sep);
        }
        r.append(parts[i].as_str());
        proof {
            let next = views(parts@.take(i + 1));
            assert(next.drop_last() =~= prev);
            assert(next.last() == parts@[i as int]@);
            if i == 0 {
                assert(next.len() == 1);
                assert(r@ =~= next[0]);
            }
        }
        i = i + 1;
    }
    assert(parts@.take(n as int) =~= parts@);
    r
}

/// The decimal digit for `d`.
pub fn digit(d: usize) -> (c: char)
    requires
        d < 10,
    ensures
        c == digit_char(d as nat),
{
    if d == 0 { '0' }
    else if d == 1 { '1' }
    else if d == 2 { '2' }
    else if d == 3 { '3' }
    else if d == 4 { '4' }
    else if d == 5 { '5' }
    else if d == 6 { '6' }
    else if d == 7 { '7' }
    else if d == 8 { '8' }
    else { '9' }
}

/// Decimal notation of `n`.
pub fn decimal_string(n: usize) -> (r: String)
    ensures
        r@ == decimal(n as nat),
    decreases n,
{
    if n < 10 {
        let mut r = String::new();
        push_char(&mut r, digit(n));
        assert(r@ =~= seq![digit_char(n as nat)]);
        r
    } else {
        let mut r = decimal_string(n / 10);
        push_char(&mut r, digit(n % 10));
        r
    }
}

/// Number of characters of `s`.
pub fn char_count(s: &str) -> (n: usize)
    ensures
        n == s@.len(),
{
    s.unicode_len()
}

/// `str::replace` for a non-empty pattern.
pub fn replace(s: &str, from: &str, to: &str) -> (r: String)
    ensures
        r@ == replace_seq(s@, from@, to@),
{
    let v = chars_of(s);
    let f = chars_of(from);
    if f.len() == 0 {
        return owned(s);
    }
    let n = v.len();
    let mut r = String::new();
    let mut i: usize = 0;
    assert(v@.skip(0) =~= v@);
    while i < n
        invariant
            n == v@.len(),
            f@ == from@,
            f@.len() > 0,
            i <= n,
            replace_seq(v@, f@, to@) == r@ + replace_seq(v@.skip(i as int), f@, to@),
        decreases n - i,
    {
        let ghost rest = v@.skip(i as int);
        if occurs_at_exec(v.as_slice(), f.as_slice(), i) {
            assert(rest.take(f@.len() as int) =~= v@.subrange(i as int, i + f@.len()));
            assert(rest.skip(f@.len() as int) =~= v@.skip(i + f@.len()));
            r.append(to);
            i = i + f.len();
        } else {
            assert(rest.take(f@.len() as int) =~= v@.subrange(i as int, i + f@.len())
                || f@.len() > rest.len());
            assert(rest.drop_first() =~= v@.skip(i + 1));
            assert(rest[0] == v@[i as int]);
            push_char(&mut r, v[i]);
            i = i + 1;
        }
    }
    assert(v@.skip(n as int) =~= Seq::<char>::empty());
    r
}

/// Whether two strings hold the same characters.
pub fn str_eq(a: &str, b: &str) -> (r: bool)
    ensures
        r == (a@ == b@),
{
    let v = chars_of(a);
    let w = chars_of(b);
    if v.len() != w.len() {
        return false;
    }
    let n = v.len();
    let mut i: usize = 0;
    while i < n
        invariant
            n == v@.len(),
            n == w@.len(),
            v@ == a@,
            w@ == b@,
            i <= n,
            forall|k: int| 0 <= k < i ==> v@[k] == w@[k],
        decreases n - i,
    {
        if v[i] != w[i] {
            assert(a@[i as int] != b@[i as int]);
            return false;
        }
        i = i + 1;
    }
    assert(v@ =~= w@);
    true
}

/// ASCII lowercase of one character.
pub fn ascii_lower_char(c: char) -> (r: char)
    ensures
        r == ascii_lower(c),
{
    let u = c as u32;
    if 65 <= u && u <= 90 {
        ((u + 32) as u8) as char
    } else {
        c
    }
}

/// `str::eq_ignore_ascii_case`.
pub fn eq_ignore_ascii_case(a: &str, b: &str) -> (r: bool)
    ensures
        r == eq_ignore_ascii_case_seq(a@, b@),
{
    let v = chars_of(a);
    let w = chars_of(b);
    if v.len() != w.len() {
        return false;
    }
    let n = v.len();
    let mut i: usize = 0;
    while i < n
        invariant
            n == v@.len(),
            n == w@.len(),
            v@ == a@,
            w@ == b@,
            i <= n,
            forall|k: int| 0 <= k < i ==> ascii_lower(v@[k]) == ascii_lower(w@[k]),
        decreases n - i,
    {
        if ascii_lower_char(v[i]) != ascii_lower_char(w[i]) {
            return false;
        }
        i = i + 1;
    }
    true
}

/// `s` without trailing copies of `c`.
pub fn trim_end_matches_char(s: &str, c: char) -> (r: String)
    ensures
        r@ == trim_end_char(s@, c),
{
    let v = chars_of(s);
    let mut j: usize = v.len();
    assert(v@.take(v@.len() as int) =~= v@);
    while j > 0 && v[j - 1] == c
        invariant
            j <= v@.len(),
            trim_end_char(v@, c) == trim_end_char(v@.take(j as int), c),
        decreases j,
    {
        assert(v@.take(j as int).drop_last() =~= v@.take(j - 1));
        assert(v@.take(j as int).last() == c);
        j = j - 1;
    }
    string_from_range(v.as_slice(), 0, j)
}

/// `s` without leading copies of `t`.
pub fn trim_start_matches(s: &str, t: &str) -> (r: String)
    ensures
        r@ == trim_start_str(s@, t@),
{
    let v = chars_of(s);
    let w = chars_of(t);
    if w.len() == 0 {
        return owned(s);
    }
    let n = v.len();
    let mut i: usize = 0;
    assert(v@.skip(0) =~= v@);
    while occurs_at_exec(v.as_slice(), w.as_slice(), i)
        invariant
            n == v@.len(),
            w@ == t@,
            w@.len() > 0,
            i <= n,
            trim_start_str(v@, w@) == trim_start_str(v@.skip(i as int), w@),
        decreases n - i,
    {
        let ghost rest = v@.skip(i as int);
        assert(rest.take(w@.len() as int) =~= v@.subrange(i as int, i + w@.len()));
        assert(rest.skip(w@.len() as int) =~= v@.skip(i + w@.len()));
        i = i + w.len();
    }
    proof {
        let rest = v@.skip(i as int);
        if has_prefix(rest, w@) {
            assert(rest.take(w@.len() as int) =~= v@.subrange(i as int, i + w@.len()));
        }
    }
    string_from_range(v.as_slice(), i, n)
}

proof fn lemma_words_step(s: Seq<char>, i: int)
    requires
        0 <= i < s.len(),
    ensures
        s.skip(i).drop_first() == s.skip(i + 1),
        s.skip(i)[0] == s[i],
{
    assert(s.skip(i).drop_first() =~= s.skip(i + 1));
}

/// `str::split_whitespace`, collected.
pub fn split_whitespace(s: &str) -> (r: Vec<String>)
    ensures
        views(r@) == words(s@),
{
    let v = chars_of(s);
    let n = v.len();
    let mut out: Vec<String> = Vec::new();
    let mut cur: Vec<char> = Vec::new();
    let mut i: usize = 0;
    assert(v@.skip(0) =~= v@);
    assert(views(out@) =~= Seq::<Seq<char>>::empty());
    while i < n
        invariant
            n == v@.len(),
            i <= n,
            words(v@) == views(out@) + words_from(v@.skip(i as int), cur@),
        decreases n - i,
    {
        let c = v[i];
        proof { lemma_words_step(v@, i as int); }
        let ghost before = views(out@);
        let ghost rest = words_from(v@.skip(i + 1), Seq::empty());
        let ghost old_cur = cur@;
        if is_whitespace(c) {
            assert(words_from(v@.skip(i as int), old_cur) == (if old_cur.len() == 0 {
                Seq::empty()
            } else {
                seq![old_cur]
            }) + rest);
            if cur.len() > 0 {
                let w = string_from_chars(cur.as_slice());
                proof {
                    lemma_views_push(out@, w);
                    assert(before + (seq![w@] + rest) =~= before.push(w@) + rest);
                }
                out.push(w);
                cur = Vec::new();
            } else {
                assert(before + (Seq::<Seq<char>>::empty() + rest) =~= before + rest);
                assert(cur@ =~= Seq::<char>::empty());
            }
        } else {
            assert(words_from(v@.skip(i as int), old_cur) == words_from(v@.skip(i + 1), old_cur.push(c)));
            cur.push(c);
        }
        i = i + 1;
    }
    assert(v@.skip(n as int) =~= Seq::<char>::empty());
    if cur.len() > 0 {
        let w = string_from_chars(cur.as_slice());
        proof {
            lemma_views_push(out@, w);
        }
        out.push(w);
    } else {
        assert(views(out@) + Seq::<Seq<char>>::empty() =~= views(out@));
    }
    out
}

/// Whether `s` is empty.
pub fn is_empty_str(s: &str) -> (r: bool)
    ensures
        r == (s@.len() == 0),
{
    s.unicode_len() == 0
}

/// Whether some string of `v` equals `s`.
pub fn vec_contains_str(v: &Vec<String>, s: &str) -> (r: bool)
    ensures
        r == (exists|i: int| 0 <= i < v@.len() && v@[i]@ == s@),
{
    let n = v.len();
    let mut i: usize = 0;
    while i < n
        invariant
            n == v@.len(),
            i <= n,
            forall|k: int| 0 <= k < i ==> v@[k]@ != s@,
        decreases n - i,
    {
        if str_eq(v[i].as_str(), s) {
            return true;
        }
        i = i + 1;
    }
    false
}

/// Each string with `prefix` in front.
pub fn prefix_each(v: &Vec<String>, prefix: &str) -> (r: Vec<String>)
    ensures
        views(r@) == prefix_each_seq(views(v@), prefix@),
{
    let n = v.len();
    let mut out: Vec<String> = Vec::new();
    let mut i: usize = 0;
    while i < n
        invariant
            n == v@.len(),
            i <= n,
            views(out@) == prefix_each_seq(views(v@.take(i as int)), prefix@),
        decreases n - i,
    {
        let ghost before = out@;
        let line = concat2(prefix, v[i].as_str());
        out.push(line);
        assert(views(out@) =~= prefix_each_seq(views(v@.take(i + 1)), prefix@)) by {
            assert(views(v@.take(i + 1)) =~= views(v@.take(i as int)).push(v@[i as int]@));
            lemma_views_push(before, line);
        }
        i = i + 1;
    }
    assert(v@.take(n as int) =~= v@);
    out
}


/// Lexicographic order of texts by code point (the order of `str`'s `<`).
pub open spec fn seq_lt(a: Seq<char>, b: Seq<char>) -> bool
    decreases a.len(),
{
    if a.len() == 0 {
        b.len() > 0
    } else if b.len() == 0 {
        false
    } else if a[0] != b[0] {
        (a[0] as int) < (b[0] as int)
    } else {
        seq_lt(a.drop_first(), b.drop_first())
    }
}

/// The order is strict.
pub proof fn lemma_seq_lt_irreflexive(a: Seq<char>)
    ensures
        !seq_lt(a, a),
    decreases a.len(),
{
    if a.len() > 0 {
        lemma_seq_lt_irreflexive(a.drop_first());
    }
}

/// The order is transitive.
pub proof fn lemma_seq_lt_transitive(a: Seq<char>, b: Seq<char>, c: Seq<char>)
    requires
        seq_lt(a, b),
        seq_lt(b, c),
    ensures
        seq_lt(a, c),
    decreases a.len(),
{
    if a.len() > 0 && b.len() > 0 && c.len() > 0 && a[0] == b[0] && b[0] == c[0] {
        lemma_seq_lt_transitive(a.drop_first(), b.drop_first(), c.drop_first());
    }
}

/// Two different texts are ordered one way or the other, and only one way.
pub proof fn lemma_seq_lt_total(a: Seq<char>, b: Seq<char>)
    ensures
        a != b ==> seq_lt(a, b) || seq_lt(b, a),
        !(seq_lt(a, b) && seq_lt(b, a)),
    decreases a.len(),
{
    if a.len() > 0 && b.len() > 0 {
        if a[0] == b[0] {
            lemma_seq_lt_total(a.drop_first(), b.drop_first());
            if a != b {
                assert(a =~= seq![a[0]] + a.drop_first());
                assert(b =~= seq![b[0]] + b.drop_first());
            }
        } else {
        }
    } else if a.len() == 0 && b.len() == 0 {
        assert(a =~= b);
    }
}

/// `a < b` on strings.
pub fn str_lt(a: &str, b: &str) -> (r: bool)
    ensures
        r == seq_lt(a@, b@),
{
    let x = chars_of(a);
    let y = chars_of(b);
    let mut i: usize = 0;
    assert(a@.skip(0) =~= a@);
    assert(b@.skip(0) =~= b@);
    while i < x.len() && i < y.len() && x[i] == y[i]
        invariant
            i <= x@.len(),
            i <= y@.len(),
            x@ == a@,
            y@ == b@,
            seq_lt(a@, b@) == seq_lt(a@.skip(i as int), b@.skip(i as int)),
        decreases x.len() - i,
    {
        proof {
            let s = a@.skip(i as int);
            let t = b@.skip(i as int);
            assert(s.drop_first() =~= a@.skip(i + 1));
            assert(t.drop_first() =~= b@.skip(i + 1));
        }
        i += 1;
    }
    if i == x.len() {
        i < y.len()
    } else if i == y.len() {
        false
    } else {
        proof {
            assert(a@.skip(i as int)[0] == x@[i as int]);
            assert(b@.skip(i as int)[0] == y@[i as int]);
        }
        x[i] < y[i]
    }
}

/// The UTF-8 length of a character.
pub open spec fn utf8_char_len(c: char) -> nat {
    if (c as int) < 0x80 {
        1
    } else if (c as int) < 0x800 {
        2
    } else if (c as int) < 0x10000 {
        3
    } else {
        4
    }
}

/// The UTF-8 length of a text (`str::len`).
pub open spec fn utf8_len(s: Seq<char>) -> nat
    decreases s.len(),
{
    if s.len() == 0 {
        0
    } else {
        utf8_len(s.drop_last()) + utf8_char_len(s.last())
    }
}

pub proof fn lemma_utf8_len_take(s: Seq<char>, i: int)
    requires
        0 <= i < s.len(),
    ensures
        utf8_len(s.take(i + 1)) == utf8_len(s.take(i)) + utf8_char_len(s[i]),
{
    assert(s.take(i + 1).drop_last() =~= s.take(i));
}

pub proof fn lemma_utf8_len_mono(s: Seq<char>, i: int, j: int)
    requires
        0 <= i <= j <= s.len(),
    ensures
        utf8_len(s.take(i)) <= utf8_len(s.take(j)),
    decreases j - i,
{
    if i < j {
        lemma_utf8_len_take(s, j - 1);
        lemma_utf8_len_mono(s, i, j - 1);
    }
}

/// The UTF-8 length of a character, computed.
pub fn char_utf8_len(c: char) -> (n: usize)
    ensures
        n == utf8_char_len(c),
{
    let v = c as u32;
    if v < 0x80 {
        1
    } else if v < 0x800 {
        2
    } else if v < 0x10000 {
        3
    } else {
        4
    }
}

/// `str::len`: the UTF-8 length, or `usize::MAX` if it does not fit.
pub fn byte_len(s: &str) -> (n: usize)
    ensures
        utf8_len(s@) <= usize::MAX ==> n == utf8_len(s@),
        utf8_len(s@) > usize::MAX ==> n == usize::MAX,
{
    let v = chars_of(s);
    let mut n: usize = 0;
    let mut i: usize = 0;
    while i < v.len()
        invariant
            i <= v@.len(),
            v@ == s@,
            utf8_len(s@.take(i as int)) <= usize::MAX ==> n == utf8_len(s@.take(i as int)),
            utf8_len(s@.take(i as int)) > usize::MAX ==> n == usize::MAX,
        decreases v.len() - i,
    {
        proof {
            lemma_utf8_len_take(s@, i as int);
        }
        let k = char_utf8_len(v[i]);
        n = n.saturating_add(k);
        i += 1;
    }
    assert(s@.take(i as int) =~= s@);
    n
}

/// The first position at or after `k` where `t` occurs in `s`.
pub open spec fn first_from(s: Seq<char>, t: Seq<char>, k: int) -> Option<int>
    decreases s.len() + 1 - k,
{
    if k < 0 || k > s.len() {
        None
    } else if occurs_at(s, t, k) {
        Some(k)
    } else {
        first_from(s, t, k + 1)
    }
}

proof fn lemma_first_from_some(s: Seq<char>, t: Seq<char>, k: int, i: int)
    requires
        0 <= k <= i,
        occurs_at(s, t, i),
        forall|j: int| k <= j < i ==> !occurs_at(s, t, j),
    ensures
        first_from(s, t, k) == Some(i),
    decreases i - k,
{
    if k < i {
        lemma_first_from_some(s, t, k + 1, i);
    }
}

proof fn lemma_first_from_none(s: Seq<char>, t: Seq<char>, k: int)
    requires
        0 <= k,
        forall|j: int| k <= j ==> !occurs_at(s, t, j),
    ensures
        first_from(s, t, k) is None,
    decreases s.len() + 1 - k,
{
    if k <= s.len() {
        lemma_first_from_none(s, t, k + 1);
    }
}

/// `str::split_once`: the parts before and after the first occurrence of `t`.
pub open spec fn split_once_spec(s: Seq<char>, t: Seq<char>) -> Option<(Seq<char>, Seq<char>)> {
    match first_from(s, t, 0) {
        Some(i) => Some((s.take(i), s.skip(i + t.len()))),
        None => None,
    }
}

/// `str::split_once` with a string pattern.
pub fn split_once(s: &str, t: &str) -> (r: Option<(String, String)>)
    ensures
        match split_once_spec(s@, t@) {
            Some((a, b)) => match r {
                Some(p) => p.0@ == a && p.1@ == b,
                None => false,
            },
            None => r is None,
        },
{
    let v = chars_of(s);
    let w = chars_of(t);
    let vs = v.as_slice();
    let ws = w.as_slice();
    match find_from(vs, ws, 0) {
        Some(i) => {
            proof {
                lemma_first_from_some(s@, t@, 0, i as int);
                assert(v@ == s@ && w@ == t@);
                assert(vs@ == v@ && ws@ == w@);
                assert(i + w@.len() <= v@.len());
            }
            let a = string_from_range(v.as_slice(), 0, i);
            assert(i + w.len() <= v.len());
            let j: usize = i + w.len();
            let b = string_from_range(v.as_slice(), j, v.len());
            proof {
                assert(a@ =~= s@.take(i as int));
                assert(b@ =~= s@.skip(i + t@.len()));
            }
            Some((a, b))
        },
        None => {
            proof {
                lemma_first_from_none(s@, t@, 0);
            }
            None
        },
    }
}

} // verus!
