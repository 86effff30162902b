//! Terminal widths: escape sequences, soft wrapping and truncation.
use unicode_width::{UnicodeWidthChar, UnicodeWidthStr};
use vstd::prelude::*;
use crate::text::{chars_of, contains_seq, occurs_at, push_char, views};

verus! {

/// `UnicodeWidthStr::width`: display columns of a string (Unicode East Asian Width
/// tables of the `unicode-width` crate).
pub uninterp spec fn str_columns(s: Seq<char>) -> usize;

/// `UnicodeWidthChar::width`: display columns of a character, `None` for control
/// characters.
pub uninterp spec fn char_columns(c: char) -> Option<usize>;

/// Display columns of a string.
#[verifier::external_body]
pub(crate) fn text_width(s: &str) -> (r: usize)
    ensures
        r == str_columns(s@),
{
    s.width()
}

/// Display columns of a character.
#[verifier::external_body]
pub(crate) fn char_width(c: char) -> (r: Option<usize>)
    ensures
        r == char_columns(c),
{
    c.width()
}

/// `s` without `ESC [ ... m` sequences; `in_escape` says whether an escape sequence
/// is open at the start of `s`.
pub open spec fn strip_ansi_from(s: Seq<char>, in_escape: bool) -> Seq<char>
    decreases s.len(),
{
    if s.len() == 0 {
        Seq::empty()
    } else if in_escape {
        if s[0] == 'm' {
            strip_ansi_from(s.drop_first(), false)
        } else {
            strip_ansi_from(s.drop_first(), true)
        }
    } else if s[0] == '\x1b' && s.len() > 1 && s[1] == '[' {
        strip_ansi_from(s.skip(2), true)
    } else {
        seq![s[0]] + strip_ansi_from(s.drop_first(), false)
    }
}

/// `s` without its SGR escape sequences.
pub open spec fn strip_ansi_spec(s: Seq<char>) -> Seq<char> {
    strip_ansi_from(s, false)
}

/// Whether an escape sequence is open after reading `s` (from state `in_escape`).
pub open spec fn ansi_state(s: Seq<char>, in_escape: bool) -> bool
    decreases s.len(),
{
    if s.len() == 0 {
        in_escape
    } else if in_escape {
        if s[0] == 'm' {
            ansi_state(s.drop_first(), false)
        } else {
            ansi_state(s.drop_first(), true)
        }
    } else if s[0] == '\x1b' && s.len() > 1 && s[1] == '[' {
        ansi_state(s.skip(2), true)
    } else {
        ansi_state(s.drop_first(), false)
    }
}

/// The text holds no escape character.
pub open spec fn no_esc(s: Seq<char>) -> bool {
    forall|i: int| 0 <= i < s.len() ==> s[i] != '\x1b'
}

/// `s` leaves no escape sequence open, so what follows it shows as written.
pub open spec fn closed(s: Seq<char>) -> bool {
    &&& !ansi_state(s, false)
    &&& (s.len() == 0 || s.last() != '\x1b')
}

/// `r` shows `text` on a terminal: without its SGR sequences it is `text`, and
/// it is closed.
pub open spec fn shows(r: Seq<char>, text: Seq<char>) -> bool {
    strip_ansi_spec(r) == text && closed(r)
}

/// The parameters of an SGR sequence as `colored` writes them: digits and
/// `;`, not starting with `0` (so never the reset `ESC [0m`).
pub open spec fn sgr_codes(c: Seq<char>) -> bool {
    &&& c.len() > 0
    &&& c[0] != '0'
    &&& forall|i: int| 0 <= i < c.len() ==> ('0' <= #[trigger] c[i] <= '9' || c[i] == ';')
}

/// `out` is `text` as `colored` writes it: as it is, or after an SGR
/// sequence and before the reset `ESC [0m`.
pub open spec fn painted(out: Seq<char>, text: Seq<char>) -> bool {
    out == text || exists|c: Seq<char>| sgr_codes(c) && out == "\x1b["@ + c + "m"@ + text + "\x1b[0m"@
}

/// `text` stands whole, unbroken, somewhere in `out` (kept opaque, so that
/// the many contracts stating it stay cheap to carry).
#[verifier::opaque]
pub open spec fn stands_whole(out: Seq<char>, text: Seq<char>) -> bool {
    contains_seq(out, text)
}

/// A piece stands whole in any text made around it.
pub proof fn lemma_contains_middle(a: Seq<char>, b: Seq<char>, c: Seq<char>)
    ensures
        stands_whole(a + b + c, b),
{
    reveal(stands_whole);
    assert((a + b + c).subrange(a.len() as int, (a.len() + b.len()) as int) =~= b);
    assert(occurs_at(a + b + c, b, a.len() as int));
}

/// The end of a text stands whole in it.
pub proof fn lemma_contains_suffix(a: Seq<char>, b: Seq<char>)
    ensures
        stands_whole(a + b, b),
{
    reveal(stands_whole);
    assert((a + b).subrange(a.len() as int, (a.len() + b.len()) as int) =~= b);
    assert(occurs_at(a + b, b, a.len() as int));
}

/// What stands whole in a part stands whole in the whole.
pub proof fn lemma_contains_trans(s: Seq<char>, t: Seq<char>, x: Seq<char>)
    requires
        stands_whole(s, t),
        stands_whole(t, x),
    ensures
        stands_whole(s, x),
{
    reveal(stands_whole);
    let i = choose|i: int| occurs_at(s, t, i);
    let j = choose|j: int| occurs_at(t, x, j);
    assert(s.subrange(i + j, i + j + x.len()) =~= t.subrange(j, j + x.len()));
    assert(occurs_at(s, x, i + j));
}

/// What stands whole in a piece stands whole in any text made around it.
pub proof fn lemma_contains_within(a: Seq<char>, b: Seq<char>, c: Seq<char>, x: Seq<char>)
    requires
        stands_whole(b, x),
    ensures
        stands_whole(a + b + c, x),
{
    lemma_contains_middle(a, b, c);
    lemma_contains_trans(a + b + c, b, x);
}

/// A painted text stands whole in its output.
pub broadcast proof fn lemma_painted_contains(out: Seq<char>, text: Seq<char>)
    requires
        painted(out, text),
    ensures
        #[trigger] stands_whole(out, text),
{
    if out == text {
        lemma_contains_middle(Seq::empty(), text, Seq::empty());
        assert(Seq::<char>::empty() + text + Seq::<char>::empty() =~= text);
    } else {
        let c = choose|c: Seq<char>| sgr_codes(c) && out == "\x1b["@ + c + "m"@ + text + "\x1b[0m"@;
        lemma_contains_middle("\x1b["@ + c + "m"@, text, "\x1b[0m"@);
    }
}

/// Reading `a + b` is reading `a`, then `b` from where `a` left off (unless
/// `a` ends in an escape character that `b` would complete to `ESC [`).
pub proof fn lemma_strip_concat(a: Seq<char>, b: Seq<char>, st: bool)
    requires
        a.len() == 0 || a.last() != '\x1b' || b.len() == 0 || b[0] != '[',
    ensures
        strip_ansi_from(a + b, st) == strip_ansi_from(a, st) + strip_ansi_from(b, ansi_state(a, st)),
        ansi_state(a + b, st) == ansi_state(b, ansi_state(a, st)),
    decreases a.len(),
{
    if a.len() == 0 {
        assert(a + b =~= b);
    } else if st {
        assert((a + b).drop_first() =~= a.drop_first() + b);
        if a.len() > 1 {
            assert(a.drop_first().last() == a.last());
        }
        lemma_strip_concat(a.drop_first(), b, a[0] != 'm');
    } else if a[0] == '\x1b' && a.len() > 1 && a[1] == '[' {
        assert((a + b).skip(2) =~= a.skip(2) + b);
        if a.len() > 2 {
            assert(a.skip(2).last() == a.last());
        }
        lemma_strip_concat(a.skip(2), b, true);
    } else {
        assert((a + b).drop_first() =~= a.drop_first() + b);
        assert((a + b)[0] == a[0]);
        if a.len() > 1 {
            assert(a.drop_first().last() == a.last());
            assert((a + b)[1] == a[1]);
        } else if b.len() > 0 {
            assert((a + b)[1] == b[0]);
        }
        lemma_strip_concat(a.drop_first(), b, false);
        assert(strip_ansi_from(a + b, st) =~= strip_ansi_from(a, st) + strip_ansi_from(b, ansi_state(a, st)));
    }
}

/// Trailing whitespace cut off before or after removing the escape sequences
/// leaves the same text, for a text that leaves no sequence open.
pub proof fn lemma_trim_end_strip(s: Seq<char>)
    requires
        !ansi_state(s, false),
    ensures
        crate::text::trim_end_seq(strip_ansi_spec(crate::text::trim_end_seq(s))) == crate::text::trim_end_seq(
            strip_ansi_spec(s),
        ),
    decreases s.len(),
{
    if s.len() > 0 && crate::text::is_ws(s.last()) {
        let a = s.drop_last();
        let c = s.last();
        let b = seq![c];
        assert(a + b =~= s);
        assert(c != '[') by {
            assert(('[' as u32) == 0x5b);
        }
        lemma_strip_concat(a, b, false);
        assert(c != 'm') by {
            assert(('m' as u32) == 0x6d);
        }
        assert(c != '\x1b') by {
            assert(('\x1b' as u32) == 0x1b);
        }
        assert(b.drop_first() =~= Seq::<char>::empty());
        if ansi_state(a, false) {
            assert(ansi_state(b, true) == ansi_state(b.drop_first(), true));
            assert(false);
        }
        assert(strip_ansi_from(b, false) == seq![c] + strip_ansi_from(b.drop_first(), false));
        assert(strip_ansi_from(b, false) =~= b);
        let sa = strip_ansi_spec(a);
        assert(strip_ansi_spec(s) =~= sa + b);
        assert((sa + b).drop_last() =~= sa);
        assert((sa + b).last() == c);
        lemma_trim_end_strip(a);
    }
}

/// Text without escape characters shows as itself.
pub proof fn lemma_shows_plain(x: Seq<char>)
    requires
        no_esc(x),
    ensures
        shows(x, x),
    decreases x.len(),
{
    if x.len() > 0 {
        assert(no_esc(x.drop_first()));
        lemma_shows_plain(x.drop_first());
        assert(x[0] != '\x1b');
        assert(strip_ansi_from(x, false) == seq![x[0]] + strip_ansi_from(x.drop_first(), false));
        assert(ansi_state(x, false) == ansi_state(x.drop_first(), false));
        assert(x =~= seq![x[0]] + x.drop_first());
        assert(x[x.len() - 1] != '\x1b');
        assert(strip_ansi_spec(x) =~= x);
        assert(!ansi_state(x, false));
        assert(x.last() != '\x1b');
    } else {
        assert(strip_ansi_spec(x) =~= x);
    }
}

/// What follows a piece that shows `q` shows after `q`.
pub proof fn lemma_strip_after_shown(p: Seq<char>, q: Seq<char>, y: Seq<char>)
    requires
        shows(p, q),
    ensures
        strip_ansi_spec(p + y) == q + strip_ansi_spec(y),
{
    lemma_strip_concat(p, y, false);
}

/// Two lists whose lines take the same rows take the same rows in all.
pub proof fn lemma_rows_sum_same(a: Seq<Seq<char>>, b: Seq<Seq<char>>, w: nat, n: nat)
    requires
        n <= a.len(),
        n <= b.len(),
        forall|k: int| 0 <= k < n ==> visual_rows_spec(#[trigger] a[k], w) == visual_rows_spec(b[k], w),
    ensures
        rows_sum(a, w, n) == rows_sum(b, w, n),
    decreases n,
{
    if n > 0 {
        lemma_rows_sum_same(a, b, w, (n - 1) as nat);
        assert(visual_rows_spec(a[n - 1], w) == visual_rows_spec(b[n - 1], w));
    }
}

/// Cutting leading whitespace keeps a text free of escape characters.
pub proof fn lemma_no_esc_trim(s: Seq<char>)
    requires
        no_esc(s),
    ensures
        no_esc(crate::text::trim_start_seq(s)),
        no_esc(crate::text::trim_end_seq(s)),
        no_esc(crate::text::trim_seq(s)),
    decreases s.len(),
{
    if s.len() > 0 {
        assert(no_esc(s.drop_first()));
        assert(no_esc(s.drop_last()));
        lemma_no_esc_trim(s.drop_first());
        lemma_no_esc_trim(s.drop_last());
        let a = crate::text::trim_start_seq(s);
        lemma_no_esc_trim_end(a);
    }
}

/// Cutting trailing whitespace keeps a text free of escape characters.
pub proof fn lemma_no_esc_trim_end(s: Seq<char>)
    requires
        no_esc(s),
    ensures
        no_esc(crate::text::trim_end_seq(s)),
    decreases s.len(),
{
    if s.len() > 0 {
        assert(no_esc(s.drop_last()));
        lemma_no_esc_trim_end(s.drop_last());
    }
}

/// Cutting repeated leading copies of `t` keeps a text free of escape characters.
pub proof fn lemma_no_esc_trim_start_str(s: Seq<char>, t: Seq<char>)
    requires
        no_esc(s),
    ensures
        no_esc(crate::text::trim_start_str(s, t)),
    decreases s.len(),
{
    if t.len() > 0 && crate::text::has_prefix(s, t) {
        assert(no_esc(s.skip(t.len() as int)));
        lemma_no_esc_trim_start_str(s.skip(t.len() as int), t);
    }
}

/// Replacing `from` in a plain text by a piece that shows `x` shows the text
/// with `from` replaced by `x`.
pub proof fn lemma_shows_replace(s: Seq<char>, from: Seq<char>, p: Seq<char>, x: Seq<char>)
    requires
        no_esc(s),
        shows(p, x),
    ensures
        shows(crate::text::replace_seq(s, from, p), crate::text::replace_seq(s, from, x)),
    decreases s.len(),
{
    if from.len() == 0 || s.len() == 0 {
        lemma_shows_plain(s);
    } else if crate::text::has_prefix(s, from) {
        assert(no_esc(s.skip(from.len() as int)));
        lemma_shows_replace(s.skip(from.len() as int), from, p, x);
        lemma_shows_concat(
            p,
            x,
            crate::text::replace_seq(s.skip(from.len() as int), from, p),
            crate::text::replace_seq(s.skip(from.len() as int), from, x),
        );
    } else {
        assert(no_esc(s.drop_first()));
        assert(no_esc(seq![s[0]]));
        lemma_shows_plain(seq![s[0]]);
        lemma_shows_replace(s.drop_first(), from, p, x);
        lemma_shows_concat(
            seq![s[0]],
            seq![s[0]],
            crate::text::replace_seq(s.drop_first(), from, p),
            crate::text::replace_seq(s.drop_first(), from, x),
        );
    }
}

/// Lines that each show a text, joined, show those texts joined.
pub proof fn lemma_shows_join(rs: Seq<Seq<char>>, es: Seq<Seq<char>>, sep: Seq<char>)
    requires
        rs.len() == es.len(),
        forall|k: int| 0 <= k < rs.len() ==> shows(#[trigger] rs[k], es[k]),
        shows(sep, sep),
    ensures
        shows(crate::text::join_seq(rs, sep), crate::text::join_seq(es, sep)),
    decreases rs.len(),
{
    if rs.len() == 0 {
        assert(strip_ansi_spec(Seq::<char>::empty()) =~= Seq::<char>::empty());
    } else if rs.len() == 1 {
        assert(shows(rs[0], es[0]));
    } else {
        lemma_shows_join(rs.drop_last(), es.drop_last(), sep);
        assert(shows(rs.last(), es.last()));
        lemma_shows3(
            crate::text::join_seq(rs.drop_last(), sep),
            crate::text::join_seq(es.drop_last(), sep),
            sep,
            sep,
            rs.last(),
            es.last(),
        );
    }
}

/// Two texts without escape characters joined hold none either.
pub proof fn lemma_no_esc_add(a: Seq<char>, b: Seq<char>)
    requires
        no_esc(a),
        no_esc(b),
    ensures
        no_esc(a + b),
{
    assert forall|i: int| 0 <= i < (a + b).len() implies (a + b)[i] != '\x1b' by {
        if i < a.len() {
            assert((a + b)[i] == a[i]);
        } else {
            assert((a + b)[i] == b[i - a.len()]);
        }
    }
}

/// Parts without escape characters, joined by a separator without any, hold none.
pub proof fn lemma_no_esc_join(parts: Seq<Seq<char>>, sep: Seq<char>)
    requires
        forall|k: int| 0 <= k < parts.len() ==> no_esc(#[trigger] parts[k]),
        no_esc(sep),
    ensures
        no_esc(crate::text::join_seq(parts, sep)),
    decreases parts.len(),
{
    if parts.len() == 0 {
    } else if parts.len() == 1 {
        assert(no_esc(parts[0]));
    } else {
        lemma_no_esc_join(parts.drop_last(), sep);
        assert(no_esc(parts.last()));
        let j = crate::text::join_seq(parts.drop_last(), sep);
        lemma_no_esc_add(j, sep);
        lemma_no_esc_add(j + sep, parts.last());
    }
}

/// Three pieces shown one after the other.
pub proof fn lemma_shows3(a: Seq<char>, x: Seq<char>, b: Seq<char>, y: Seq<char>, c: Seq<char>, z: Seq<char>)
    requires
        shows(a, x),
        shows(b, y),
        shows(c, z),
    ensures
        shows(a + b + c, x + y + z),
{
    lemma_shows_concat(a, x, b, y);
    lemma_shows_concat(a + b, x + y, c, z);
}

/// `n` copies of a text without escape characters hold none either.
pub proof fn lemma_no_esc_repeat(x: Seq<char>, n: nat)
    requires
        no_esc(x),
    ensures
        no_esc(crate::text::repeat_seq(x, n)),
    decreases n,
{
    if n > 0 {
        lemma_no_esc_repeat(x, (n - 1) as nat);
        let a = crate::text::repeat_seq(x, (n - 1) as nat);
        assert forall|i: int| 0 <= i < (a + x).len() implies (a + x)[i] != '\x1b' by {
            if i < a.len() {
                assert((a + x)[i] == a[i]);
            } else {
                assert((a + x)[i] == x[i - a.len()]);
            }
        }
    }
}

/// Two pieces shown one after the other show their texts one after the other.
pub proof fn lemma_shows_concat(a: Seq<char>, x: Seq<char>, b: Seq<char>, y: Seq<char>)
    requires
        shows(a, x),
        shows(b, y),
    ensures
        shows(a + b, x + y),
{
    lemma_strip_concat(a, b, false);
    if b.len() == 0 {
        assert(a + b =~= a);
    } else {
        assert((a + b).last() == b.last());
    }
}

/// Visible columns of a possibly styled string.
pub open spec fn visible_width_spec(s: Seq<char>) -> usize {
    str_columns(strip_ansi_spec(s))
}

/// Terminal rows a line occupies at `term_width` columns (at least one).
pub open spec fn visual_rows_spec(line: Seq<char>, term_width: nat) -> nat {
    let w = visible_width_spec(line) as nat;
    let tw: nat = if term_width == 0 {
        1
    } else {
        term_width
    };
    if w == 0 {
        1
    } else {
        ((w + tw - 1) as nat) / tw
    }
}

/// Total rows of the first `n` lines.
pub open spec fn rows_sum(lines: Seq<Seq<char>>, term_width: nat, n: nat) -> nat
    decreases n,
{
    if n == 0 {
        0
    } else {
        rows_sum(lines, term_width, (n - 1) as nat) + visual_rows_spec(lines[n - 1], term_width)
    }
}

/// Removes SGR escape sequences.
pub fn strip_ansi(s: &str) -> (r: String)
    ensures
        r@ == strip_ansi_spec(s@),
{
    let v = chars_of(s);
    let n = v.len();
    let mut out = String::new();
    let mut i: usize = 0;
    let mut in_escape = false;
    assert(v@.skip(0) =~= v@);
    while i < n
        invariant
            n == v@.len(),
            i <= n,
            strip_ansi_spec(v@) == out@ + strip_ansi_from(v@.skip(i as int), in_escape),
        decreases n - i,
    {
        let ghost rest = v@.skip(i as int);
        let c = v[i];
        assert(rest[0] == c);
        assert(rest.drop_first() =~= v@.skip(i + 1));
        if in_escape {
            if c == 'm' {
                in_escape = false;
            }
            i = i + 1;
        } else if c == '\x1b' && i + 1 < n && v[i + 1] == '[' {
            assert(rest[1] == v@[i + 1]);
            assert(rest.skip(2) =~= v@.skip(i + 2));
            in_escape = true;
            i = i + 2;
        } else {
            let ghost before = out@;
            push_char(&mut out, c);
            assert(before + (seq![c] + strip_ansi_from(v@.skip(i + 1), false)) =~= out@
                + strip_ansi_from(v@.skip(i + 1), false));
            i = i + 1;
        }
    }
    assert(v@.skip(n as int) =~= Seq::<char>::empty());
    assert(out@ + Seq::<char>::empty() =~= out@);
    out
}

/// Visible columns after removing escape sequences.
pub fn visible_width(s: &str) -> (r: usize)
    ensures
        r == visible_width_spec(s@),
{
    let plain = strip_ansi(s);
    text_width(plain.as_str())
}

/// Rows a line occupies on the terminal, soft wrapping included.
pub fn visual_rows(line: &str, term_width: usize) -> (r: usize)
    ensures
        r == visual_rows_spec(line@, term_width as nat),
        r >= 1,
{
    let w = visible_width(line);
    if w == 0 {
        return 1;
    }
    let tw: usize = if term_width == 0 {
        1
    } else {
        term_width
    };
    let q = w / tw;
    let r = if w % tw == 0 {
        q
    } else {
        assert(q < usize::MAX) by (nonlinear_arith)
            requires
                tw >= 1,
                q as int == w as int / tw as int,
                w % tw != 0,
                w <= usize::MAX,
        ;
        q + 1
    };
    assert(r >= 1) by (nonlinear_arith)
        requires
            tw >= 1,
            w >= 1,
            q as int == w as int / tw as int,
            w % tw == 0 ==> r == q,
            w % tw != 0 ==> r as int == q as int + 1,
    ;
    assert(r as nat == ((w as nat + tw as nat - 1) as nat) / (tw as nat)) by (nonlinear_arith)
        requires
            tw >= 1,
            w >= 1,
            q as int == w as int / tw as int,
            w % tw == 0 ==> r == q,
            w % tw != 0 ==> r as int == q as int + 1,
    ;
    r
}

/// Rows a block of lines occupies (at least one; the sum saturates at `usize::MAX`).
pub fn total_visual_rows(lines: &Vec<String>, term_width: usize) -> (r: usize)
    ensures
        lines@.len() == 0 ==> r == 1,
        lines@.len() > 0 && rows_sum(views(lines@), term_width as nat, lines@.len()) <= usize::MAX
            ==> r == (if rows_sum(views(lines@), term_width as nat, lines@.len()) == 0 {
            1
        } else {
            rows_sum(views(lines@), term_width as nat, lines@.len())
        }),
        lines@.len() > 0 && rows_sum(views(lines@), term_width as nat, lines@.len()) > usize::MAX
            ==> r == usize::MAX,
{
    let n = lines.len();
    if n == 0 {
        return 1;
    }
    let mut total: usize = 0;
    let mut saturated = false;
    let mut i: usize = 0;
    while i < n
        invariant
            n == lines@.len(),
            i <= n,
            !saturated ==> total == rows_sum(views(lines@), term_width as nat, i as nat),
            saturated ==> total == usize::MAX && rows_sum(views(lines@), term_width as nat, i as nat)
                > usize::MAX,
        decreases n - i,
    {
        let rows = visual_rows(lines[i].as_str(), term_width);
        assert(views(lines@)[i as int] == lines@[i as int]@);
        if !saturated {
            if total > usize::MAX - rows {
                saturated = true;
                total = usize::MAX;
            } else {
                total = total + rows;
            }
        }
        i = i + 1;
    }
    if total == 0 {
        1
    } else {
        total
    }
}

/// The characters of `v` before the first one that would push the column count past
/// `budget` (control characters count as zero columns).
pub open spec fn fit_prefix_len(v: Seq<char>, budget: nat, used: nat) -> nat
    decreases v.len(),
{
    if v.len() == 0 {
        0
    } else {
        let cw: nat = match char_columns(v[0]) {
            Some(w) => w as nat,
            None => 0,
        };
        if used + cw > budget {
            0
        } else {
            1 + fit_prefix_len(v.drop_first(), budget, used + cw)
        }
    }
}

/// Truncation to `max_cols` visible columns, with `…` when shortened.
pub open spec fn truncate_visible_spec(text: Seq<char>, max_cols: nat) -> Seq<char> {
    if max_cols == 0 {
        Seq::empty()
    } else if str_columns(text) as nat <= max_cols {
        text
    } else {
        text.take(fit_prefix_len(text, (max_cols - 1) as nat, 0) as int).push('…')
    }
}

/// Truncates plain text to `max_cols` columns, appending `…` when it is cut.
pub fn truncate_visible(text: &str, max_cols: usize) -> (r: String)
    ensures
        r@ == truncate_visible_spec(text@, max_cols as nat),
{
    if max_cols == 0 {
        return String::new();
    }
    if text_width(text) <= max_cols {
        return crate::text::owned(text);
    }
    let budget = max_cols - 1;
    let v = chars_of(text);
    let n = v.len();
    let mut used: usize = 0;
    let mut out = String::new();
    let mut i: usize = 0;
    assert(v@.skip(0) =~= v@);
    while i < n
        invariant_except_break
            n == v@.len(),
            i <= n,
            used <= budget,
            out@ == v@.take(i as int),
            fit_prefix_len(v@, budget as nat, 0) == i + fit_prefix_len(v@.skip(i as int), budget as nat, used as nat),
        ensures
            out@ == v@.take(i as int),
            fit_prefix_len(v@, budget as nat, 0) == i,
        decreases n - i,
    {
        let ghost rest = v@.skip(i as int);
        assert(rest[0] == v@[i as int]);
        assert(rest.drop_first() =~= v@.skip(i + 1));
        let cw: usize = match char_width(v[i]) {
            Some(w) => w,
            None => 0,
        };
        if cw > budget - used {
            break;
        }
        if i + 1 == n {
            assert(v@.skip(i + 1) =~= Seq::<char>::empty());
        }
        used = used + cw;
        push_char(&mut out, v[i]);
        assert(out@ =~= v@.take(i + 1));
        i = i + 1;
    }
    push_char(&mut out, '…');
    out
}

/// The escape sequence that clears a block of `rows` terminal rows ending
/// at the cursor and leaves the cursor at its top.
pub open spec fn clear_rows_spec(rows: nat) -> Seq<char> {
    if rows == 0 {
        Seq::empty()
    } else if rows == 1 {
        "\x1b[2K\r"@
    } else {
        let up = "\x1b["@ + crate::text::decimal((rows - 1) as nat) + "A"@;
        up + crate::text::repeat_seq("\x1b[2K\x1b[1B"@, (rows - 1) as nat) + "\x1b[2K"@ + up
    }
}

pub fn clear_rows_sequence(rows: usize) -> (r: String)
    ensures
        r@ == clear_rows_spec(rows as nat),
{
    if rows == 0 {
        return String::new();
    }
    if rows == 1 {
        return crate::text::owned("\x1b[2K\r");
    }
    let n = crate::text::decimal_string(rows - 1);
    let up = crate::text::concat3("\x1b[", n.as_str(), "A");
    let body = crate::text::repeat("\x1b[2K\x1b[1B", rows - 1);
    let mut out = crate::text::concat2(up.as_str(), body.as_str());
    out.append("\x1b[2K");
    out.append(up.as_str());
    out
}

/// The escape sequence that moves the cursor up `lines` rows (nothing for 0).
pub fn cursor_up_sequence(lines: usize) -> (r: String)
    ensures
        lines == 0 ==> r@.len() == 0,
        lines > 0 ==> r@ == "\x1b["@ + crate::text::decimal(lines as nat) + "A"@,
{
    if lines == 0 {
        return String::new();
    }
    let n = crate::text::decimal_string(lines);
    crate::text::concat3("\x1b[", n.as_str(), "A")
}

/// Whether every character is an ASCII digit.
pub open spec fn all_digits(s: Seq<char>) -> bool {
    forall|i: int| 0 <= i < s.len() ==> '0' <= #[trigger] s[i] <= '9'
}

/// The number an ASCII decimal numeral writes.
pub open spec fn digits_value(s: Seq<char>) -> nat
    decreases s.len(),
{
    if s.len() == 0 {
        0
    } else {
        digits_value(s.drop_last()) * 10 + ((s.last() as u32) - ('0' as u32)) as nat
    }
}

/// `str::parse::<usize>`: an optional `+`, then at least one digit, the value in range.
pub open spec fn parse_usize_spec(s: Seq<char>) -> Option<usize> {
    let d = if s.len() > 0 && s[0] == '+' { s.drop_first() } else { s };
    if d.len() > 0 && all_digits(d) && digits_value(d) <= usize::MAX {
        Some(digits_value(d) as usize)
    } else {
        None
    }
}

pub fn parse_usize(s: &str) -> (r: Option<usize>)
    ensures
        r == parse_usize_spec(s@),
{
    let v = chars_of(s);
    let start: usize = if v.len() > 0 && v[0] == '+' { 1 } else { 0 };
    let ghost d = if s@.len() > 0 && s@[0] == '+' { s@.drop_first() } else { s@ };
    proof {
        assert(d =~= s@.skip(start as int));
    }
    if start >= v.len() {
        return None;
    }
    let mut acc: usize = 0;
    let mut i: usize = start;
    proof {
        assert(s@.skip(start as int).take(0) =~= Seq::<char>::empty());
    }
    while i < v.len()
        invariant
            start <= i <= v@.len(),
            v@ == s@,
            d == s@.skip(start as int),
            d == (if s@.len() > 0 && s@[0] == '+' { s@.drop_first() } else { s@ }),
            all_digits(d.take(i - start)),
            acc == digits_value(d.take(i - start)),
        decreases v.len() - i,
    {
        let c = v[i];
        proof {
            assert(d.take(i - start + 1).drop_last() =~= d.take(i - start));
            assert(d.take(i - start + 1).last() == c);
        }
        if !('0' <= c && c <= '9') {
            proof {
                assert(!all_digits(d)) by {
                    assert(d[i - start] == c);
                }
            }
            return None;
        }
        let digit = (c as u32 - '0' as u32) as usize;
        proof {
            assert forall|k: int| 0 <= k < d.take(i - start + 1).len() implies '0' <= #[trigger] d.take(i - start + 1)[k] <= '9' by {
                if k < i - start {
                    assert(d.take(i - start + 1)[k] == d.take(i - start)[k]);
                }
            }
            assert(digits_value(d.take(i - start + 1)) == acc * 10 + digit);
        }
        match acc.checked_mul(10) {
            Some(m) => match m.checked_add(digit) {
                Some(x) => {
                    acc = x;
                },
                None => {
                    proof {
                        lemma_digits_prefix_bound(d, i - start + 1);
                    }
                    return None;
                },
            },
            None => {
                proof {
                    lemma_digits_prefix_bound(d, i - start + 1);
                }
                return None;
            },
        }
        i += 1;
    }
    proof {
        assert(d.take(i - start) =~= d);
    }
    Some(acc)
}

/// A longer numeral is worth at least as much as its prefix.
proof fn lemma_digits_prefix_bound(d: Seq<char>, n: int)
    requires
        0 <= n <= d.len(),
        all_digits(d.take(n)) || all_digits(d),
    ensures
        all_digits(d) ==> digits_value(d.take(n)) <= digits_value(d),
    decreases d.len() - n,
{
    if n < d.len() && all_digits(d) {
        lemma_digits_prefix_bound(d, n + 1);
        assert(d.take(n + 1).drop_last() =~= d.take(n));
        assert(all_digits(d.take(n + 1))) by {
            assert forall|k: int| 0 <= k < d.take(n + 1).len() implies '0' <= #[trigger] d.take(n + 1)[k] <= '9' by {
                assert(d.take(n + 1)[k] == d[k]);
            }
        }
    } else if n == d.len() {
        assert(d.take(n) =~= d);
    }
}

/// The terminal's width: `COLUMNS` where it is a positive number, else 80.
pub fn terminal_width_from(columns: Option<&str>) -> (r: usize)
    ensures
        r == match columns {
            Some(c) => match parse_usize_spec(c@) {
                Some(w) => if w > 0 { w } else { 80 },
                None => 80,
            },
            None => 80,
        },
{
    match columns {
        Some(c) => match parse_usize(c) {
            Some(w) => if w > 0 { w } else { 80 },
            None => 80,
        },
        None => 80,
    }
}

} // verus!
