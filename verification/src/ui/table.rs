//! Fixed-width terminal tables (skill lists, catalogues).
use vstd::prelude::*;
use crate::text::{char_count, concat3, join, join_seq, owned, repeat, repeat_seq, trim_end, trim_end_seq, views};
use crate::ui::theme::{use_retro_table, Theme, ThemeId};
use crate::ui::terminal::{lemma_no_esc_add, lemma_no_esc_join, lemma_no_esc_repeat, lemma_no_esc_trim_end, no_esc};

verus! {

/// `s` padded with spaces to `width` characters.
pub open spec fn pad_spec(s: Seq<char>, width: nat) -> Seq<char> {
    if s.len() >= width {
        s
    } else {
        s + repeat_seq(" "@, (width - s.len()) as nat)
    }
}

/// Each cell padded to its column's width (0 past the known columns).
pub open spec fn padded_cells(cells: Seq<Seq<char>>, widths: Seq<usize>) -> Seq<Seq<char>> {
    Seq::new(
        cells.len(),
        |i: int|
            pad_spec(
                cells[i],
                if i < widths.len() {
                    widths[i] as nat
                } else {
                    0
                },
            ),
    )
}

/// A row of the modern table.
pub open spec fn row_spec(cells: Seq<Seq<char>>, widths: Seq<usize>) -> Seq<char> {
    join_seq(padded_cells(cells, widths), "  "@)
}

/// A row of the retro table.
pub open spec fn retro_row_spec(cells: Seq<Seq<char>>, widths: Seq<usize>) -> Seq<char> {
    "|"@ + join_seq(padded_cells(cells, widths), "|"@) + "|"@
}

/// One rule per column.
pub open spec fn rule_cells(widths: Seq<usize>, glyph: Seq<char>) -> Seq<Seq<char>> {
    Seq::new(widths.len(), |i: int| repeat_seq(glyph, widths[i] as nat))
}

/// The line under the header.
pub open spec fn sep_spec(retro: bool, widths: Seq<usize>) -> Seq<char> {
    if retro {
        "+"@ + join_seq(rule_cells(widths, "-"@), "-+-"@) + "+"@
    } else {
        join_seq(rule_cells(widths, "─"@), "  "@)
    }
}

/// Width of column `i` after the header and the first `k` rows.
pub open spec fn col_width(headers: Seq<Seq<char>>, rows: Seq<Seq<Seq<char>>>, i: int, k: nat) -> nat
    decreases k,
{
    if k == 0 {
        headers[i].len()
    } else {
        let prev = col_width(headers, rows, i, (k - 1) as nat);
        let row = rows[k - 1];
        if i < row.len() && row[i].len() > prev {
            row[i].len()
        } else {
            prev
        }
    }
}

/// A row cut or padded with empty cells to `n` cells.
pub open spec fn resize_cells(row: Seq<Seq<char>>, n: nat) -> Seq<Seq<char>> {
    Seq::new(
        n,
        |i: int|
            if i < row.len() {
                row[i]
            } else {
                Seq::empty()
            },
    )
}

/// The body lines of the first `k` rows, each followed by a newline.
pub open spec fn body_spec(retro: bool, rows: Seq<Seq<Seq<char>>>, n: nat, widths: Seq<usize>, k: nat) -> Seq<char>
    decreases k,
{
    if k == 0 {
        Seq::empty()
    } else {
        let cells = resize_cells(rows[k - 1], n);
        body_spec(retro, rows, n, widths, (k - 1) as nat) + (if retro {
            retro_row_spec(cells, widths)
        } else {
            row_spec(cells, widths)
        }) + "\n"@
    }
}

/// The views of the header cells.
pub open spec fn header_views(headers: Seq<&str>) -> Seq<Seq<char>> {
    headers.map_values(|h: &str| h@)
}

/// The views of the rows.
pub open spec fn row_views(rows: Seq<Vec<String>>) -> Seq<Seq<Seq<char>>> {
    rows.map_values(|r: Vec<String>| views(r@))
}

/// Whether `widths` are the column widths of the table.
pub open spec fn widths_ok(headers: Seq<Seq<char>>, rows: Seq<Seq<Seq<char>>>, widths: Seq<usize>) -> bool {
    widths.len() == headers.len() && forall|i: int|
        0 <= i < headers.len() ==> widths[i] as nat == col_width(headers, rows, i, rows.len())
}

/// The whole table: header, rule and rows, trailing whitespace removed.
pub open spec fn table_spec(retro: bool, headers: Seq<Seq<char>>, rows: Seq<Seq<Seq<char>>>, widths: Seq<usize>) -> Seq<char> {
    trim_end_seq(
        (if retro {
            retro_row_spec(headers, widths)
        } else {
            row_spec(headers, widths)
        }) + "\n"@ + sep_spec(retro, widths) + "\n"@ + body_spec(
            retro,
            rows,
            headers.len(),
            widths,
            rows.len(),
        ),
    )
}

fn cell_width(s: &str) -> (r: usize)
    ensures
        r == s@.len(),
{
    char_count(s)
}

fn pad_cell(s: &str, width: usize) -> (r: String)
    ensures
        r@ == pad_spec(s@, width as nat),
{
    let w = cell_width(s);
    if w >= width {
        owned(s)
    } else {
        let pad = repeat(" ", width - w);
        crate::text::concat2(s, pad.as_str())
    }
}

fn padded(cells: &Vec<String>, widths: &Vec<usize>) -> (r: Vec<String>)
    ensures
        views(r@) == padded_cells(views(cells@), widths@),
{
    let n = cells.len();
    let mut out: Vec<String> = Vec::new();
    let mut i: usize = 0;
    while i < n
        invariant
            n == cells@.len(),
            i <= n,
            views(out@) == padded_cells(views(cells@), widths@).take(i as int),
        decreases n - i,
    {
        let w = if i < widths.len() {
            widths[i]
        } else {
            0
        };
        let p = pad_cell(cells[i].as_str(), w);
        let ghost before = out@;
        out.push(p);
        assert(views(out@) =~= padded_cells(views(cells@), widths@).take(i + 1)) by {
            assert(views(out@) =~= views(before).push(p@));
        }
        i = i + 1;
    }
    assert(padded_cells(views(cells@), widths@).take(n as int) =~= padded_cells(views(cells@), widths@));
    out
}

fn format_row(cells: &Vec<String>, widths: &Vec<usize>) -> (r: String)
    ensures
        r@ == row_spec(views(cells@), widths@),
{
    let p = padded(cells, widths);
    join(&p, "  ")
}

fn format_retro_row(cells: &Vec<String>, widths: &Vec<usize>) -> (r: String)
    ensures
        r@ == retro_row_spec(views(cells@), widths@),
{
    let p = padded(cells, widths);
    let inner = join(&p, "|");
    concat3("|", inner.as_str(), "|")
}

fn rules(widths: &Vec<usize>, glyph: &str) -> (r: Vec<String>)
    ensures
        views(r@) == rule_cells(widths@, glyph@),
{
    let n = widths.len();
    let mut out: Vec<String> = Vec::new();
    let mut i: usize = 0;
    while i < n
        invariant
            n == widths@.len(),
            i <= n,
            views(out@) == rule_cells(widths@, glyph@).take(i as int),
        decreases n - i,
    {
        let p = repeat(glyph, widths[i]);
        let ghost before = out@;
        out.push(p);
        assert(views(out@) =~= rule_cells(widths@, glyph@).take(i + 1)) by {
            assert(views(out@) =~= views(before).push(p@));
        }
        i = i + 1;
    }
    assert(rule_cells(widths@, glyph@).take(n as int) =~= rule_cells(widths@, glyph@));
    out
}

fn format_sep(t: &Theme, widths: &Vec<usize>) -> (r: String)
    ensures
        r@ == sep_spec(t.id != ThemeId::Modern, widths@),
{
    if use_retro_table(t) {
        let rs = rules(widths, "-");
        let inner = join(&rs, "-+-");
        concat3("+", inner.as_str(), "+")
    } else {
        let rs = rules(widths, "─");
        join(&rs, "  ")
    }
}

fn resized(row: &Vec<String>, n: usize) -> (r: Vec<String>)
    ensures
        views(r@) == resize_cells(views(row@), n as nat),
{
    let mut out: Vec<String> = Vec::new();
    let mut i: usize = 0;
    while i < n
        invariant
            i <= n,
            views(out@) == resize_cells(views(row@), n as nat).take(i as int),
        decreases n - i,
    {
        let c = if i < row.len() {
            row[i].clone()
        } else {
            String::new()
        };
        let ghost before = out@;
        out.push(c);
        assert(views(out@) =~= resize_cells(views(row@), n as nat).take(i + 1)) by {
            assert(views(out@) =~= views(before).push(c@));
        }
        i = i + 1;
    }
    assert(resize_cells(views(row@), n as nat).take(n as int) =~= resize_cells(views(row@), n as nat));
    out
}

fn column_widths(headers: &[&str], rows: &[Vec<String>]) -> (w: Vec<usize>)
    ensures
        widths_ok(header_views(headers@), row_views(rows@), w@),
{
    let ghost hs = header_views(headers@);
    let ghost rs = row_views(rows@);
    let n = headers.len();
    let mut widths: Vec<usize> = Vec::new();
    let mut i: usize = 0;
    while i < n
        invariant
            n == headers@.len(),
            hs == header_views(headers@),
            i <= n,
            widths@.len() == i,
            forall|k: int| 0 <= k < i ==> widths@[k] as nat == col_width(hs, rs, k, 0),
        decreases n - i,
    {
        widths.push(cell_width(headers[i]));
        i = i + 1;
    }
    let m = rows.len();
    let mut j: usize = 0;
    while j < m
        invariant
            n == headers@.len(),
            m == rows@.len(),
            hs == header_views(headers@),
            rs == row_views(rows@),
            j <= m,
            widths@.len() == n,
            forall|k: int| 0 <= k < n ==> widths@[k] as nat == col_width(hs, rs, k, j as nat),
        decreases m - j,
    {
        let row = &rows[j];
        assert(rs[j as int] == views(row@));
        let mut k: usize = 0;
        while k < n
            invariant
                n == headers@.len(),
                m == rows@.len(),
                j < m,
                rs == row_views(rows@),
                rs[j as int] == views(row@),
                k <= n,
                widths@.len() == n,
                forall|q: int| 0 <= q < k ==> widths@[q] as nat == col_width(hs, rs, q, (j + 1) as nat),
                forall|q: int| k <= q < n ==> widths@[q] as nat == col_width(hs, rs, q, j as nat),
            decreases n - k,
        {
            if k < row.len() {
                let cw = cell_width(row[k].as_str());
                if cw > widths[k] {
                    widths.set(k, cw);
                }
            }
            k = k + 1;
        }
        j = j + 1;
    }
    widths
}

/// The column widths of a table (its cells determine them).
pub open spec fn table_widths(headers: Seq<Seq<char>>, rows: Seq<Seq<Seq<char>>>) -> Seq<usize> {
    choose|w: Seq<usize>| widths_ok(headers, rows, w)
}

/// A table as text: nothing without headers.
pub open spec fn table_text(retro: bool, headers: Seq<Seq<char>>, rows: Seq<Seq<Seq<char>>>) -> Seq<char> {
    if headers.len() == 0 {
        Seq::empty()
    } else {
        table_spec(retro, headers, rows, table_widths(headers, rows))
    }
}

/// The cells of a table hold no escape character.
pub open spec fn cells_plain(headers: Seq<Seq<char>>, rows: Seq<Seq<Seq<char>>>) -> bool {
    &&& forall|i: int| 0 <= i < headers.len() ==> no_esc(#[trigger] headers[i])
    &&& forall|k: int, j: int| 0 <= k < rows.len() && 0 <= j < rows[k].len() ==> no_esc(#[trigger] rows[k][j])
}

proof fn lemma_row_no_esc(retro: bool, cells: Seq<Seq<char>>, widths: Seq<usize>)
    requires
        forall|i: int| 0 <= i < cells.len() ==> no_esc(#[trigger] cells[i]),
    ensures
        no_esc(if retro { retro_row_spec(cells, widths) } else { row_spec(cells, widths) }),
{
    reveal_strlit(" ");
    reveal_strlit("  ");
    reveal_strlit("|");
    let p = padded_cells(cells, widths);
    assert forall|i: int| 0 <= i < p.len() implies no_esc(#[trigger] p[i]) by {
        let w: nat = if i < widths.len() { widths[i] as nat } else { 0 };
        assert(no_esc(cells[i]));
        if cells[i].len() < w {
            lemma_no_esc_repeat(" "@, (w - cells[i].len()) as nat);
            lemma_no_esc_add(cells[i], repeat_seq(" "@, (w - cells[i].len()) as nat));
        }
    }
    lemma_no_esc_join(p, "  "@);
    lemma_no_esc_join(p, "|"@);
    lemma_no_esc_add("|"@, join_seq(p, "|"@));
    lemma_no_esc_add("|"@ + join_seq(p, "|"@), "|"@);
}

proof fn lemma_body_no_esc(retro: bool, rows: Seq<Seq<Seq<char>>>, n: nat, widths: Seq<usize>, k: nat)
    requires
        k <= rows.len(),
        forall|a: int, j: int| 0 <= a < rows.len() && 0 <= j < rows[a].len() ==> no_esc(#[trigger] rows[a][j]),
    ensures
        no_esc(body_spec(retro, rows, n, widths, k)),
    decreases k,
{
    reveal_strlit("\n");
    if k > 0 {
        lemma_body_no_esc(retro, rows, n, widths, (k - 1) as nat);
        let cells = resize_cells(rows[k - 1], n);
        assert forall|i: int| 0 <= i < cells.len() implies no_esc(#[trigger] cells[i]) by {
            if i < rows[k - 1].len() {
                assert(no_esc(rows[k - 1][i]));
            }
        }
        lemma_row_no_esc(retro, cells, widths);
        let row = if retro { retro_row_spec(cells, widths) } else { row_spec(cells, widths) };
        let prev = body_spec(retro, rows, n, widths, (k - 1) as nat);
        lemma_no_esc_add(prev, row);
        lemma_no_esc_add(prev + row, "\n"@);
    }
}

/// A table of cells without escape characters holds none.
pub proof fn lemma_table_no_esc(retro: bool, headers: Seq<Seq<char>>, rows: Seq<Seq<Seq<char>>>)
    requires
        cells_plain(headers, rows),
    ensures
        no_esc(table_text(retro, headers, rows)),
{
    reveal_strlit("\n");
    reveal_strlit("+");
    reveal_strlit("-");
    reveal_strlit("-+-");
    reveal_strlit("─");
    reveal_strlit("  ");
    if headers.len() > 0 {
        let w = table_widths(headers, rows);
        lemma_row_no_esc(retro, headers, w);
        let glyph = if retro { "-"@ } else { "─"@ };
        let rc = rule_cells(w, glyph);
        assert forall|i: int| 0 <= i < rc.len() implies no_esc(#[trigger] rc[i]) by {
            lemma_no_esc_repeat(glyph, w[i] as nat);
        }
        lemma_no_esc_join(rc, "-+-"@);
        lemma_no_esc_join(rc, "  "@);
        lemma_no_esc_add("+"@, join_seq(rc, "-+-"@));
        lemma_no_esc_add("+"@ + join_seq(rc, "-+-"@), "+"@);
        let hr = if retro { retro_row_spec(headers, w) } else { row_spec(headers, w) };
        let sep = sep_spec(retro, w);
        assert(no_esc(sep));
        lemma_body_no_esc(retro, rows, headers.len(), w, rows.len());
        let body = body_spec(retro, rows, headers.len(), w, rows.len());
        lemma_no_esc_add(hr, "\n"@);
        lemma_no_esc_add(hr + "\n"@, sep);
        lemma_no_esc_add(hr + "\n"@ + sep, "\n"@);
        lemma_no_esc_add(hr + "\n"@ + sep + "\n"@, body);
        lemma_no_esc_trim_end(hr + "\n"@ + sep + "\n"@ + body);
    }
}

/// The widths are unique.
pub proof fn lemma_table_widths(h: Seq<Seq<char>>, r: Seq<Seq<Seq<char>>>, w: Seq<usize>)
    requires
        widths_ok(h, r, w),
    ensures
        table_widths(h, r) == w,
{
    let c = table_widths(h, r);
    assert(widths_ok(h, r, c));
    assert(c =~= w);
}

/// Renders a fixed-width table (a retro ASCII frame outside the modern theme).
pub fn render_table(t: &Theme, headers: &[&str], rows: &[Vec<String>]) -> (r: String)
    ensures
        headers@.len() == 0 ==> r@.len() == 0,
        headers@.len() > 0 ==> exists|w: Seq<usize>|
            widths_ok(header_views(headers@), row_views(rows@), w) && r@ == table_spec(
                t.id != ThemeId::Modern,
                header_views(headers@),
                row_views(rows@),
                w,
            ),
        r@ == table_text(t.id != ThemeId::Modern, header_views(headers@), row_views(rows@)),
{
    if headers.len() == 0 {
        return String::new();
    }
    let retro = use_retro_table(t);
    let widths = column_widths(headers, rows);
    let n = headers.len();
    let mut header_cells: Vec<String> = Vec::new();
    let mut i: usize = 0;
    while i < n
        invariant
            n == headers@.len(),
            i <= n,
            views(header_cells@) == header_views(headers@).take(i as int),
        decreases n - i,
    {
        let ghost before = header_cells@;
        let c = owned(headers[i]);
        header_cells.push(c);
        assert(views(header_cells@) =~= header_views(headers@).take(i + 1)) by {
            assert(views(header_cells@) =~= views(before).push(c@));
        }
        i = i + 1;
    }
    assert(header_views(headers@).take(n as int) =~= header_views(headers@));
    let mut out = if retro {
        format_retro_row(&header_cells, &widths)
    } else {
        format_row(&header_cells, &widths)
    };
    out.append("\n");
    let sep = format_sep(t, &widths);
    out.append(sep.as_str());
    out.append("\n");
    let ghost head = out@;
    let m = rows.len();
    let mut j: usize = 0;
    while j < m
        invariant
            m == rows@.len(),
            n == headers@.len(),
            j <= m,
            retro == (t.id != ThemeId::Modern),
            out@ == head + body_spec(retro, row_views(rows@), n as nat, widths@, j as nat),
        decreases m - j,
    {
        let cells = resized(&rows[j], n);
        assert(row_views(rows@)[j as int] == views(rows@[j as int]@));
        let line = if retro {
            format_retro_row(&cells, &widths)
        } else {
            format_row(&cells, &widths)
        };
        out.append(line.as_str());
        out.append("\n");
        j = j + 1;
    }
    proof {
        lemma_table_widths(header_views(headers@), row_views(rows@), widths@);
    }
    trim_end(out.as_str())
}

} // verus!
