//! Markdown to terminal text.
//!
//! `pulldown_cmark` turns the input into events; this module folds the events
//! into text. Without colours the result is specified exactly by `md_fold`.
use pulldown_cmark::{CodeBlockKind, Event, Options, Parser, Tag, TagEnd};
use vstd::prelude::*;
use crate::text::{concat3, is_empty_str, owned, repeat, repeat_seq, str_eq, trim_end, trim_end_seq, views};
use crate::ui::terminal::{
    closed, lemma_no_esc_add, lemma_no_esc_repeat, lemma_shows_concat, lemma_shows_plain, lemma_trim_end_strip, no_esc, shows,
    strip_ansi_spec,
};
use crate::ui::ansi::paint_bright_cyan_bold_italic;
use crate::ui::sanitize::{sanitize_final, sanitize_final_spec};
use crate::ui::table::{cells_plain, header_views, lemma_table_no_esc, render_table, row_views, table_text};
use crate::ui::theme::{
    accent, border_horizontal_spec, border_vertical, border_vertical_spec, diff_add, diff_remove,
    lemma_borders_plain, list_bullet, muted, muted_strong, primary, primary_light, separator_line, soft,
    thinking_detail, Theme, ThemeId,
};

verus! {

/// The opening tags that the renderer tells apart.
pub enum MdTag {
    Heading(u8),
    List,
    Item,
    BlockQuote,
    FencedCode(String),
    IndentedCode,
    Link(String),
    Strong,
    Emphasis,
    Table,
    TableHead,
    TableRow,
    TableCell,
    Other,
}

/// The closing tags that the renderer tells apart.
pub enum MdTagEnd {
    Heading,
    Paragraph,
    CodeBlock,
    List,
    Item,
    Link,
    Strong,
    Emphasis,
    TableHead,
    TableRow,
    TableCell,
    Table,
    Other,
}

/// One Markdown event.
pub enum MdEvent {
    Start(MdTag),
    End(MdTagEnd),
    Text(String),
    Code(String),
    SoftBreak,
    HardBreak,
    Rule,
    Other,
}

#[verifier::external_type_specification]
#[verifier::external_body]
pub struct ExEvent<'a>(Event<'a>);

#[verifier::external_type_specification]
#[verifier::external_body]
pub struct ExTag<'a>(Tag<'a>);

#[verifier::external_type_specification]
#[verifier::external_body]
pub struct ExTagEnd(TagEnd);

/// The events that `pulldown_cmark` produces for a text with all extensions on.
pub uninterp spec fn markdown_events(input: Seq<char>) -> Seq<MdEvent>;

/// `pulldown_cmark::Parser::new_ext(input, Options::all())`, each event
/// converted one for one.
#[verifier::external_body]
fn parse_markdown(input: &str) -> (r: Vec<MdEvent>)
    ensures
        r@ == markdown_events(input@),
{
    Parser::new_ext(input, Options::all()).map(md_event).collect()
}

/// Converts one `pulldown_cmark::Event` (part of `parse_markdown`).
#[verifier::external_body]
fn md_event(e: Event) -> MdEvent {
    match e {
        Event::Start(t) => MdEvent::Start(md_tag(t)),
        Event::End(t) => MdEvent::End(md_tag_end(t)),
        Event::Text(s) => MdEvent::Text(s.to_string()),
        Event::Code(s) => MdEvent::Code(s.to_string()),
        Event::SoftBreak => MdEvent::SoftBreak,
        Event::HardBreak => MdEvent::HardBreak,
        Event::Rule => MdEvent::Rule,
        _ => MdEvent::Other,
    }
}

/// Converts one `pulldown_cmark::Tag` (part of `parse_markdown`).
#[verifier::external_body]
fn md_tag(t: Tag) -> MdTag {
    match t {
        Tag::Heading { level, .. } => MdTag::Heading(level as u8),
        Tag::List(_) => MdTag::List,
        Tag::Item => MdTag::Item,
        Tag::BlockQuote(_) => MdTag::BlockQuote,
        Tag::CodeBlock(CodeBlockKind::Fenced(l)) => MdTag::FencedCode(l.to_string()),
        Tag::CodeBlock(CodeBlockKind::Indented) => MdTag::IndentedCode,
        Tag::Link { dest_url, .. } => MdTag::Link(dest_url.to_string()),
        Tag::Strong => MdTag::Strong, Tag::Emphasis => MdTag::Emphasis,
        Tag::Table(_) => MdTag::Table,
        Tag::TableHead => MdTag::TableHead,
        Tag::TableRow => MdTag::TableRow,
        Tag::TableCell => MdTag::TableCell,
        _ => MdTag::Other,
    }
}

/// Converts one `pulldown_cmark::TagEnd` (part of `parse_markdown`).
#[verifier::external_body]
fn md_tag_end(t: TagEnd) -> MdTagEnd {
    match t {
        TagEnd::Heading(_) => MdTagEnd::Heading,
        TagEnd::Paragraph => MdTagEnd::Paragraph,
        TagEnd::CodeBlock => MdTagEnd::CodeBlock,
        TagEnd::List(_) => MdTagEnd::List,
        TagEnd::Item => MdTagEnd::Item,
        TagEnd::Link => MdTagEnd::Link,
        TagEnd::Strong => MdTagEnd::Strong,
        TagEnd::Emphasis => MdTagEnd::Emphasis,
        TagEnd::TableHead => MdTagEnd::TableHead,
        TagEnd::TableRow => MdTagEnd::TableRow,
        TagEnd::TableCell => MdTagEnd::TableCell,
        TagEnd::Table => MdTagEnd::Table,
        _ => MdTagEnd::Other,
    }
}

/// A table being collected.
pub struct MdTableSpec {
    pub headers: Seq<Seq<char>>,
    pub rows: Seq<Seq<Seq<char>>>,
    pub current: Seq<Seq<char>>,
    pub in_head: bool,
}

/// What the renderer holds between events, without colours.
pub struct MdSpec {
    pub out: Seq<char>,
    pub depth: nat,
    pub url: Seq<char>,
    pub table: Option<MdTableSpec>,
    pub in_cell: bool,
    pub cell: Seq<char>,
}

pub open spec fn md_init() -> MdSpec {
    MdSpec { out: Seq::empty(), depth: 0, url: Seq::empty(), table: None, in_cell: false, cell: Seq::empty() }
}

/// A finished table as text.
pub open spec fn md_table_text(retro: bool, tb: MdTableSpec) -> Seq<char> {
    table_text(retro, tb.headers, tb.rows)
}

/// The bullet of list items.
pub open spec fn md_bullet(id: ThemeId) -> Seq<char> {
    if id == ThemeId::Modern { "•"@ } else { "*"@ }
}

/// Text goes to the current table cell, or to the output.
pub open spec fn md_emit(st: MdSpec, s: Seq<char>) -> MdSpec {
    if st.in_cell {
        MdSpec { cell: st.cell + s, ..st }
    } else {
        MdSpec { out: st.out + s, ..st }
    }
}

pub open spec fn md_start(id: ThemeId, st: MdSpec, tag: MdTag) -> MdSpec {
    match tag {
        MdTag::List => MdSpec { depth: st.depth + 1, ..st },
        MdTag::Item => MdSpec {
            out: st.out + repeat_seq("  "@, if st.depth > 0 { (st.depth - 1) as nat } else { 0 })
                + md_bullet(id) + " "@,
            ..st
        },
        MdTag::BlockQuote => MdSpec { out: st.out + border_vertical_spec(id) + " "@, ..st },
        MdTag::FencedCode(lang) => MdSpec {
            out: if lang@ == "diff"@ {
                st.out + "diff"@ + "\n"@
            } else if lang@.len() > 0 {
                st.out + lang@ + "\n"@
            } else {
                st.out
            },
            ..st
        },
        MdTag::Link(u) => MdSpec { url: u@, ..st },
        MdTag::Table => MdSpec {
            table: Some(MdTableSpec { headers: Seq::empty(), rows: Seq::empty(), current: Seq::empty(), in_head: false }),
            ..st
        },
        MdTag::TableHead => match st.table {
            Some(tb) => MdSpec { table: Some(MdTableSpec { in_head: true, current: Seq::empty(), ..tb }), ..st },
            None => st,
        },
        MdTag::TableRow => MdSpec {
            table: match st.table {
                Some(tb) => Some(MdTableSpec { current: Seq::empty(), ..tb }),
                None => None,
            },
            cell: Seq::empty(),
            ..st
        },
        MdTag::TableCell => MdSpec { in_cell: true, cell: Seq::empty(), ..st },
        _ => st,
    }
}

pub open spec fn md_end(id: ThemeId, st: MdSpec, tag: MdTagEnd) -> MdSpec {
    match tag {
        MdTagEnd::Heading | MdTagEnd::CodeBlock | MdTagEnd::Item => MdSpec { out: st.out + "\n"@, ..st },
        MdTagEnd::Paragraph => if st.in_cell { st } else { MdSpec { out: st.out + "\n"@, ..st } },
        MdTagEnd::List => MdSpec { depth: if st.depth > 0 { (st.depth - 1) as nat } else { 0 }, ..st },
        MdTagEnd::Link => if st.url.len() > 0 {
            MdSpec { out: st.out + " ("@ + st.url + ")"@, url: Seq::empty(), ..st }
        } else {
            st
        },
        MdTagEnd::TableHead => match st.table {
            Some(tb) => MdSpec {
                table: Some(MdTableSpec { headers: tb.current, current: Seq::empty(), in_head: false, ..tb }),
                ..st
            },
            None => st,
        },
        MdTagEnd::TableCell => match st.table {
            Some(tb) => MdSpec {
                in_cell: false,
                table: Some(MdTableSpec { current: tb.current.push(st.cell), ..tb }),
                cell: Seq::empty(),
                ..st
            },
            None => MdSpec { in_cell: false, ..st },
        },
        MdTagEnd::TableRow => match st.table {
            Some(tb) => if tb.in_head {
                st
            } else {
                MdSpec { table: Some(MdTableSpec { rows: tb.rows.push(tb.current), current: Seq::empty(), ..tb }), ..st }
            },
            None => st,
        },
        MdTagEnd::Table => match st.table {
            Some(tb) => MdSpec {
                out: st.out + "\n"@ + md_table_text(id != ThemeId::Modern, tb) + "\n"@,
                table: None,
                ..st
            },
            None => st,
        },
        _ => st,
    }
}

/// One event, without colours.
pub open spec fn md_step(id: ThemeId, st: MdSpec, ev: MdEvent) -> MdSpec {
    match ev {
        MdEvent::Start(tag) => md_start(id, st, tag),
        MdEvent::End(tag) => md_end(id, st, tag),
        MdEvent::Text(s) => md_emit(st, s@),
        MdEvent::Code(s) => md_emit(st, "`"@ + s@ + "`"@),
        MdEvent::SoftBreak => md_emit(st, " "@),
        MdEvent::HardBreak => if st.in_cell {
            MdSpec { cell: st.cell + " "@, ..st }
        } else {
            MdSpec { out: st.out + "\n"@, ..st }
        },
        MdEvent::Rule => MdSpec { out: st.out + repeat_seq(border_horizontal_spec(id), 40) + "\n"@, ..st },
        MdEvent::Other => st,
    }
}

/// All events in order, without colours.
pub open spec fn md_fold(id: ThemeId, events: Seq<MdEvent>) -> MdSpec
    decreases events.len(),
{
    if events.len() == 0 {
        md_init()
    } else {
        md_step(id, md_fold(id, events.drop_last()), events.last())
    }
}

/// The rendered text of a list of events, without colours.
pub open spec fn md_render_plain(id: ThemeId, events: Seq<MdEvent>) -> Seq<char> {
    trim_end_seq(md_fold(id, events).out)
}

/// An opening tag the colour-independent statement covers: no escape
/// character in a code language or link target.
pub open spec fn md_tag_simple(tag: MdTag) -> bool {
    match tag {
        MdTag::FencedCode(l) => no_esc(l@),
        MdTag::Link(u) => no_esc(u@),
        _ => true,
    }
}

/// An event the colour-independent statement covers, given whether a table
/// cell is open and whether bold and italic are on: no escape character in
/// its text, and inside a table cell only unstyled text (styled cell text is
/// coloured, and a table pads its cells by their length, escape codes
/// included).
pub open spec fn md_event_ok(ev: MdEvent, in_cell: bool, bold: bool, italic: bool) -> bool {
    match ev {
        MdEvent::Start(tag) => md_tag_simple(tag),
        MdEvent::Text(x) => no_esc(x@) && (in_cell ==> !bold && !italic),
        MdEvent::Code(x) => no_esc(x@) && !in_cell,
        _ => true,
    }
}

/// Whether bold and italic are on after one more event.
pub open spec fn md_style_step(prev: (bool, bool), ev: MdEvent) -> (bool, bool) {
    match ev {
        MdEvent::Start(MdTag::Strong) => (true, prev.1),
        MdEvent::End(MdTagEnd::Strong) => (false, prev.1),
        MdEvent::Start(MdTag::Emphasis) => (prev.0, true),
        MdEvent::End(MdTagEnd::Emphasis) => (prev.0, false),
        _ => prev,
    }
}

/// Whether bold and italic are on after the events.
pub open spec fn md_style(events: Seq<MdEvent>) -> (bool, bool)
    decreases events.len(),
{
    if events.len() == 0 {
        (false, false)
    } else {
        md_style_step(md_style(events.drop_last()), events.last())
    }
}

/// Events the colour-independent statement covers: each covered in the state
/// the events before it leave.
#[verifier::opaque]
pub open spec fn md_simple(id: ThemeId, events: Seq<MdEvent>) -> bool {
    forall|i: int|
        0 <= i < events.len() ==> md_event_ok(
            #[trigger] events[i],
            md_fold(id, events.take(i)).in_cell,
            md_style(events.take(i)).0,
            md_style(events.take(i)).1,
        )
}

/// A state without its output.
pub open spec fn md_nonout(s: MdSpec) -> MdSpec {
    MdSpec { out: Seq::empty(), ..s }
}

/// The cells of an open table hold no escape character.
pub open spec fn md_table_plain(tb: Option<MdTableSpec>) -> bool {
    match tb {
        None => true,
        Some(x) => cells_plain(x.headers, x.rows) && forall|k: int|
            0 <= k < x.current.len() ==> no_esc(#[trigger] x.current[k]),
    }
}

/// A renderer state (in any colour mode) agrees with the state without
/// colours: its output shows that output, everything else is equal, and no
/// escape character is pending in a link target, a cell or a table.
pub open spec fn md_agree(a: MdSpec, sp: MdSpec) -> bool {
    &&& shows(a.out, sp.out)
    &&& md_nonout(a) == md_nonout(sp)
    &&& no_esc(sp.url)
    &&& no_esc(sp.cell)
    &&& md_table_plain(sp.table)
}

/// What an opening tag does besides writing output depends on the state
/// besides its output only.
proof fn lemma_md_start_frame(id: ThemeId, x: MdSpec, y: MdSpec, tag: MdTag)
    requires
        md_nonout(x) == md_nonout(y),
    ensures
        md_nonout(md_start(id, x, tag)) == md_nonout(md_start(id, y, tag)),
{
    assert(x.depth == md_nonout(x).depth && y.depth == md_nonout(y).depth);
    assert(x.table == md_nonout(x).table && y.table == md_nonout(y).table);
    assert(x.url == md_nonout(x).url && y.url == md_nonout(y).url);
    assert(x.cell == md_nonout(x).cell && y.cell == md_nonout(y).cell);
    assert(x.in_cell == md_nonout(x).in_cell && y.in_cell == md_nonout(y).in_cell);
}

/// The same for a closing tag.
proof fn lemma_md_end_frame(id: ThemeId, x: MdSpec, y: MdSpec, tag: MdTagEnd)
    requires
        md_nonout(x) == md_nonout(y),
    ensures
        md_nonout(md_end(id, x, tag)) == md_nonout(md_end(id, y, tag)),
{
    assert(x.depth == md_nonout(x).depth && y.depth == md_nonout(y).depth);
    assert(x.table == md_nonout(x).table && y.table == md_nonout(y).table);
    assert(x.url == md_nonout(x).url && y.url == md_nonout(y).url);
    assert(x.cell == md_nonout(x).cell && y.cell == md_nonout(y).cell);
    assert(x.in_cell == md_nonout(x).in_cell && y.in_cell == md_nonout(y).in_cell);
}

/// Opening a covered tag keeps link target, cell and table free of escapes.
proof fn lemma_md_start_plain(id: ThemeId, sp: MdSpec, tag: MdTag)
    requires
        md_tag_simple(tag),
        no_esc(sp.url),
        no_esc(sp.cell),
        md_table_plain(sp.table),
    ensures
        no_esc(md_start(id, sp, tag).url),
        no_esc(md_start(id, sp, tag).cell),
        md_table_plain(md_start(id, sp, tag).table),
{
    let e = md_start(id, sp, tag);
    assert(no_esc(Seq::<char>::empty()));
    match tag {
        MdTag::Table => {
            assert(cells_plain(Seq::empty(), Seq::empty()));
        },
        _ => {},
    }
}

/// Closing a tag keeps link target, cell and table free of escapes.
proof fn lemma_md_end_plain(id: ThemeId, sp: MdSpec, tag: MdTagEnd)
    requires
        no_esc(sp.url),
        no_esc(sp.cell),
        md_table_plain(sp.table),
    ensures
        no_esc(md_end(id, sp, tag).url),
        no_esc(md_end(id, sp, tag).cell),
        md_table_plain(md_end(id, sp, tag).table),
{
    assert(no_esc(Seq::<char>::empty()));
    match tag {
        MdTagEnd::TableHead => {
            if let Some(tb) = sp.table {
                assert(cells_plain(tb.current, tb.rows));
            }
        },
        MdTagEnd::TableCell => {
            if let Some(tb) = sp.table {
                let c = tb.current.push(sp.cell);
                assert forall|k: int| 0 <= k < c.len() implies no_esc(#[trigger] c[k]) by {
                    if k < tb.current.len() {
                        assert(c[k] == tb.current[k]);
                    }
                }
            }
        },
        MdTagEnd::TableRow => {
            if let Some(tb) = sp.table {
                if !tb.in_head {
                    let rs = tb.rows.push(tb.current);
                    assert forall|k: int, j: int| 0 <= k < rs.len() && 0 <= j < rs[k].len() implies no_esc(
                        #[trigger] rs[k][j],
                    ) by {
                        if k < tb.rows.len() {
                            assert(rs[k] == tb.rows[k]);
                        } else {
                            assert(rs[k] == tb.current);
                        }
                    }
                }
            }
        },
        _ => {},
    }
}

/// The output grown by a piece that shows `x` agrees with the output grown by `x`.
proof fn lemma_md_grow(out: Seq<char>, sp_out: Seq<char>, piece: Seq<char>, x: Seq<char>)
    requires
        shows(out, sp_out),
        shows(piece, x),
    ensures
        shows(out + piece, sp_out + x),
{
    lemma_shows_concat(out, sp_out, piece, x);
}

/// A literal without escape characters shows itself.
proof fn lemma_lit(x: Seq<char>)
    requires
        no_esc(x),
    ensures
        shows(x, x),
        closed(x),
        strip_ansi_spec(x) == x,
{
    lemma_shows_plain(x);
}

/// The renderer's working state.
struct MdRun {
    out: String,
    depth: usize,
    url: String,
    has_table: bool,
    headers: Vec<String>,
    rows: Vec<Vec<String>>,
    current: Vec<String>,
    in_head: bool,
    in_cell: bool,
    cell: String,
    bold_on: bool,
    italic_on: bool,
    in_code: bool,
    heading: Option<u8>,
}

impl MdRun {
    spec fn view_spec(&self) -> MdSpec {
        MdSpec {
            out: self.out@,
            depth: self.depth as nat,
            url: self.url@,
            table: if self.has_table {
                Some(MdTableSpec {
                    headers: views(self.headers@),
                    rows: self.rows@.map_values(|r: Vec<String>| views(r@)),
                    current: views(self.current@),
                    in_head: self.in_head,
                })
            } else {
                None
            },
            in_cell: self.in_cell,
            cell: self.cell@,
        }
    }
}

/// Styles a run of text.
fn style_text(t: &Theme, text: &str, bold_on: bool, italic_on: bool, in_code: bool, heading: Option<u8>) -> (r: String)
    ensures
        !t.colors ==> r@ == text@,
        !in_code && heading is None && !bold_on && !italic_on ==> r@ == text@,
        closed(text@) ==> shows(r@, strip_ansi_spec(text@)),
{
    if in_code {
        if crate::text::starts_with(text, "+") {
            return diff_add(t, text);
        }
        if crate::text::starts_with(text, "-") {
            return diff_remove(t, text);
        }
        return muted_strong(t, text);
    }
    match heading {
        Some(level) => {
            return if level == 1 {
                primary(t, text)
            } else if level == 2 {
                primary_light(t, text)
            } else if level == 3 || level == 4 {
                accent(t, text)
            } else {
                muted_strong(t, text)
            };
        },
        None => {},
    }
    if bold_on && italic_on {
        if t.colors {
            paint_bright_cyan_bold_italic(text)
        } else {
            owned(text)
        }
    } else if bold_on {
        primary_light(t, text)
    } else if italic_on {
        thinking_detail(t, text)
    } else {
        owned(text)
    }
}

/// The headers as string slices.
fn header_refs(headers: &Vec<String>) -> (r: Vec<&str>)
    ensures
        header_views(r@) == views(headers@),
{
    let mut r: Vec<&str> = Vec::new();
    let mut i: usize = 0;
    while i < headers.len()
        invariant
            i <= headers.len(),
            r@.len() == i,
            forall|k: int| 0 <= k < i ==> r@[k]@ == headers@[k]@,
        decreases headers.len() - i,
    {
        r.push(headers[i].as_str());
        i += 1;
    }
    assert(header_views(r@) =~= views(headers@));
    r
}

impl MdRun {
    fn new() -> (r: MdRun)
        ensures
            r.view_spec() == md_init(),
            r.depth == 0,
            !r.bold_on && !r.italic_on,
    {
        let r = MdRun {
            out: String::new(),
            depth: 0,
            url: String::new(),
            has_table: false,
            headers: Vec::new(),
            rows: Vec::new(),
            current: Vec::new(),
            in_head: false,
            in_cell: false,
            cell: String::new(),
            bold_on: false,
            italic_on: false,
            in_code: false,
            heading: None,
        };
        assert(r.view_spec().out =~= md_init().out);
        r
    }

    fn emit(&mut self, s: &str)
        ensures
            final(self).view_spec() == md_emit(old(self).view_spec(), s@),
            final(self).depth == old(self).depth,
            final(self).bold_on == old(self).bold_on,
            final(self).italic_on == old(self).italic_on,
    {
        if self.in_cell {
            self.cell.append(s);
        } else {
            self.out.append(s);
        }
    }

    #[verifier::spinoff_prover]
    #[verifier::rlimit(80)]
    fn start(&mut self, t: &Theme, tag: &MdTag, Ghost(sp): Ghost<MdSpec>)
        requires
            old(self).depth < usize::MAX,
        ensures
            !t.colors ==> final(self).view_spec() == md_start(t.id, old(self).view_spec(), *tag),
            md_nonout(final(self).view_spec()) == md_nonout(md_start(t.id, old(self).view_spec(), *tag)),
            final(self).depth <= old(self).depth + 1,
            (final(self).bold_on, final(self).italic_on) == md_style_step(
                (old(self).bold_on, old(self).italic_on),
                MdEvent::Start(*tag),
            ),
            md_tag_simple(*tag) && md_agree(old(self).view_spec(), sp) ==> md_agree(
                final(self).view_spec(),
                md_start(t.id, sp, *tag),
            ),
    {
        proof {
            reveal_strlit(" ");
            reveal_strlit("\n");
            reveal_strlit("  ");
            reveal_strlit("diff");
            lemma_lit(" "@);
            lemma_lit("\n"@);
            lemma_lit("diff"@);
            lemma_borders_plain(t.id);
        }
        match tag {
            MdTag::Heading(level) => {
                self.heading = Some(*level);
            },
            MdTag::List => {
                self.depth = self.depth + 1;
            },
            MdTag::Item => {
                let n: usize = if self.depth > 0 { self.depth - 1 } else { 0 };
                let pad = repeat("  ", n);
                self.out.append(pad.as_str());
                let b = list_bullet(t);
                self.out.append(b.as_str());
                self.out.append(" ");
                proof {
                    let a = old(self).view_spec();
                    if md_agree(a, sp) {
                        assert(n as nat == (if sp.depth > 0 { (sp.depth - 1) as nat } else { 0 }));
                        lemma_no_esc_repeat("  "@, n as nat);
                        lemma_lit(pad@);
                        lemma_md_grow(a.out, sp.out, pad@, pad@);
                        lemma_md_grow(a.out + pad@, sp.out + pad@, b@, md_bullet(t.id));
                        lemma_md_grow(a.out + pad@ + b@, sp.out + pad@ + md_bullet(t.id), " "@, " "@);
                        assert(self.out@ =~= a.out + pad@ + b@ + " "@);
                    }
                    if !t.colors {
                        let a = old(self).view_spec();
                        assert(n as nat == (if a.depth > 0 { (a.depth - 1) as nat } else { 0 }));
                        assert(self.out@ =~= a.out + repeat_seq("  "@, n as nat) + md_bullet(t.id) + " "@);
                    }
                }
            },
            MdTag::BlockQuote => {
                let bar = crate::text::concat2(border_vertical(t), " ");
                let s = soft(t, bar.as_str());
                self.out.append(s.as_str());
                proof {
                    let a = old(self).view_spec();
                    if md_agree(a, sp) {
                        assert(no_esc(bar@));
                        lemma_lit(bar@);
                        lemma_md_grow(a.out, sp.out, s@, bar@);
                        assert(bar@ =~= border_vertical_spec(t.id) + " "@);
                        assert(sp.out + bar@ =~= sp.out + border_vertical_spec(t.id) + " "@);
                        assert(self.out@ =~= a.out + s@);
                    }
                }
            },
            MdTag::FencedCode(lang) => {
                self.in_code = true;
                if str_eq(lang.as_str(), "diff") {
                    let s = primary_light(t, "diff");
                    self.out.append(s.as_str());
                    self.out.append("\n");
                    proof {
                        let a = old(self).view_spec();
                        if md_agree(a, sp) {
                            lemma_md_grow(a.out, sp.out, s@, "diff"@);
                            lemma_md_grow(a.out + s@, sp.out + "diff"@, "\n"@, "\n"@);
                        }
                    }
                } else if !is_empty_str(lang.as_str()) {
                    let s = muted(t, lang.as_str());
                    self.out.append(s.as_str());
                    self.out.append("\n");
                    proof {
                        let a = old(self).view_spec();
                        if md_tag_simple(*tag) && md_agree(a, sp) {
                            lemma_lit(lang@);
                            lemma_md_grow(a.out, sp.out, s@, lang@);
                            lemma_md_grow(a.out + s@, sp.out + lang@, "\n"@, "\n"@);
                        }
                    }
                }
            },
            MdTag::IndentedCode => {
                self.in_code = true;
            },
            MdTag::Link(u) => {
                self.url = owned(u.as_str());
            },
            MdTag::Strong => {
                self.bold_on = true;
            },
            MdTag::Emphasis => {
                self.italic_on = true;
            },
            MdTag::Table => {
                self.has_table = true;
                self.headers = Vec::new();
                self.rows = Vec::new();
                self.current = Vec::new();
                self.in_head = false;
            },
            MdTag::TableHead => {
                if self.has_table {
                    self.in_head = true;
                    self.current = Vec::new();
                }
            },
            MdTag::TableRow => {
                if self.has_table {
                    self.current = Vec::new();
                }
                self.cell = String::new();
            },
            MdTag::TableCell => {
                self.in_cell = true;
                self.cell = String::new();
            },
            MdTag::Other => {},
        }
        proof {
            let a = old(self).view_spec();
            let b = self.view_spec();
            match *tag {
                MdTag::Table => {
                    assert(views(self.headers@) =~= Seq::<Seq<char>>::empty());
                    assert(views(self.current@) =~= Seq::<Seq<char>>::empty());
                    assert(self.rows@.map_values(|r: Vec<String>| views(r@)) =~= Seq::<Seq<Seq<char>>>::empty());
                },
                MdTag::TableHead | MdTag::TableRow => {
                    if self.has_table {
                        assert(views(self.current@) =~= Seq::<Seq<char>>::empty());
                    }
                },
                _ => {},
            }
            assert(md_nonout(b) == md_nonout(md_start(t.id, a, *tag)));
            if !t.colors {
                match *tag {
                    MdTag::BlockQuote => {
                        assert(b.out =~= md_start(t.id, a, *tag).out);
                    },
                    MdTag::FencedCode(_) => {
                        assert(b.out =~= md_start(t.id, a, *tag).out);
                    },
                    _ => {},
                }
            }
            if md_tag_simple(*tag) && md_agree(a, sp) {
                let e = md_start(t.id, sp, *tag);
                match tag {
                    MdTag::Item => {
                        assert(shows(b.out, e.out));
                    },
                    MdTag::BlockQuote => {
                        assert(shows(b.out, e.out));
                    },
                    MdTag::FencedCode(l) => {
                        if l@ == "diff"@ {
                            assert(shows(b.out, e.out));
                        } else if l@.len() > 0 {
                            assert(shows(b.out, e.out));
                        } else {
                            assert(b.out == a.out);
                        }
                    },
                    MdTag::Link(u) => {
                        assert(b.url == u@);
                    },
                    _ => {},
                }
                assert(shows(b.out, e.out));
                lemma_md_start_frame(t.id, a, sp, *tag);
                lemma_md_start_plain(t.id, sp, *tag);
            }
        }
    }

    fn finish_table(&mut self, t: &Theme)
        requires
            old(self).has_table,
        ensures
            final(self).view_spec() == md_end(t.id, old(self).view_spec(), MdTagEnd::Table),
            final(self).depth == old(self).depth,
            final(self).bold_on == old(self).bold_on,
            final(self).italic_on == old(self).italic_on,
    {
        let text = if self.headers.len() == 0 {
            String::new()
        } else {
            let refs = header_refs(&self.headers);
            let s = render_table(t, refs.as_slice(), self.rows.as_slice());
            proof {
                assert(row_views(self.rows@) =~= self.rows@.map_values(|r: Vec<String>| views(r@)));
            }
            s
        };
        self.out.append("\n");
        self.out.append(text.as_str());
        self.out.append("\n");
        self.has_table = false;
        proof {
            let a = old(self).view_spec();
            assert(self.view_spec().out =~= md_end(t.id, a, MdTagEnd::Table).out);
        }
    }

    #[verifier::spinoff_prover]
    #[verifier::rlimit(80)]
    fn end(&mut self, t: &Theme, tag: &MdTagEnd, Ghost(sp): Ghost<MdSpec>)
        ensures
            !t.colors ==> final(self).view_spec() == md_end(t.id, old(self).view_spec(), *tag),
            md_nonout(final(self).view_spec()) == md_nonout(md_end(t.id, old(self).view_spec(), *tag)),
            final(self).depth <= old(self).depth,
            (final(self).bold_on, final(self).italic_on) == md_style_step(
                (old(self).bold_on, old(self).italic_on),
                MdEvent::End(*tag),
            ),
            md_agree(old(self).view_spec(), sp) ==> md_agree(final(self).view_spec(), md_end(t.id, sp, *tag)),
    {
        proof {
            reveal_strlit("\n");
            reveal_strlit(" (");
            reveal_strlit(")");
            lemma_lit("\n"@);
            lemma_lit(" ("@);
            lemma_lit(")"@);
            let a = old(self).view_spec();
            if md_agree(a, sp) {
                lemma_md_grow(a.out, sp.out, "\n"@, "\n"@);
            }
        }
        match tag {
            MdTagEnd::Heading => {
                self.heading = None;
                self.out.append("\n");
            },
            MdTagEnd::Paragraph => {
                if !self.in_cell {
                    self.out.append("\n");
                }
            },
            MdTagEnd::CodeBlock => {
                self.in_code = false;
                self.out.append("\n");
            },
            MdTagEnd::List => {
                if self.depth > 0 {
                    self.depth = self.depth - 1;
                }
            },
            MdTagEnd::Item => {
                self.out.append("\n");
            },
            MdTagEnd::Link => {
                if !is_empty_str(self.url.as_str()) {
                    let u = primary_light(t, self.url.as_str());
                    self.out.append(" (");
                    self.out.append(u.as_str());
                    self.out.append(")");
                    self.url = String::new();
                    proof {
                        let a = old(self).view_spec();
                        if md_agree(a, sp) {
                            lemma_lit(sp.url);
                            lemma_md_grow(a.out, sp.out, " ("@, " ("@);
                            lemma_md_grow(a.out + " ("@, sp.out + " ("@, u@, sp.url);
                            lemma_md_grow(a.out + " ("@ + u@, sp.out + " ("@ + sp.url, ")"@, ")"@);
                            assert(no_esc(Seq::<char>::empty()));
                        }
                    }
                }
            },
            MdTagEnd::Strong => {
                self.bold_on = false;
            },
            MdTagEnd::Emphasis => {
                self.italic_on = false;
            },
            MdTagEnd::TableHead => {
                if self.has_table {
                    let mut row: Vec<String> = Vec::new();
                    std::mem::swap(&mut row, &mut self.current);
                    self.headers = row;
                    self.in_head = false;
                }
            },
            MdTagEnd::TableCell => {
                self.in_cell = false;
                if self.has_table {
                    let mut c = String::new();
                    std::mem::swap(&mut c, &mut self.cell);
                    self.current.push(c);
                }
            },
            MdTagEnd::TableRow => {
                if self.has_table && !self.in_head {
                    let mut row: Vec<String> = Vec::new();
                    std::mem::swap(&mut row, &mut self.current);
                    self.rows.push(row);
                }
            },
            MdTagEnd::Table => {
                if self.has_table {
                    self.finish_table(t);
                }
            },
            MdTagEnd::Other => {},
        }
        proof {
            let a = old(self).view_spec();
            let b = self.view_spec();
            match *tag {
                MdTagEnd::TableHead => {
                    if self.has_table {
                        assert(views(self.current@) =~= Seq::<Seq<char>>::empty());
                    }
                },
                MdTagEnd::TableCell => {
                    if old(self).has_table {
                        assert(views(self.current@) =~= views(old(self).current@).push(old(self).cell@));
                    }
                },
                MdTagEnd::TableRow => {
                    if old(self).has_table && !old(self).in_head {
                        assert(views(self.current@) =~= Seq::<Seq<char>>::empty());
                        assert(self.rows@.map_values(|r: Vec<String>| views(r@)) =~= old(self).rows@.map_values(
                            |r: Vec<String>| views(r@),
                        ).push(views(old(self).current@)));
                    }
                },
                _ => {},
            }
            assert(md_nonout(b) == md_nonout(md_end(t.id, a, *tag)));
            if !t.colors {
                match *tag {
                    MdTagEnd::Link => {
                        assert(b.out =~= md_end(t.id, a, *tag).out);
                    },
                    _ => {},
                }
            }
            if md_agree(a, sp) {
                let e = md_end(t.id, sp, *tag);
                lemma_md_end_frame(t.id, a, sp, *tag);
                lemma_md_end_plain(t.id, sp, *tag);
                match *tag {
                    MdTagEnd::Table => {
                        if let Some(tb) = sp.table {
                            let retro = t.id != ThemeId::Modern;
                            let x = md_table_text(retro, tb);
                            lemma_table_no_esc(retro, tb.headers, tb.rows);
                            lemma_lit(x);
                            lemma_md_grow(a.out, sp.out, "\n"@, "\n"@);
                            lemma_md_grow(a.out + "\n"@, sp.out + "\n"@, x, x);
                            lemma_md_grow(a.out + "\n"@ + x, sp.out + "\n"@ + x, "\n"@, "\n"@);
                            assert(a.table == sp.table);
                            assert(b.out == md_end(t.id, a, *tag).out);
                        }
                    },
                    _ => {},
                }
                assert(shows(b.out, e.out));
            }
        }
    }

    fn step(&mut self, t: &Theme, ev: &MdEvent, Ghost(sp): Ghost<MdSpec>)
        requires
            old(self).depth < usize::MAX,
        ensures
            !t.colors ==> final(self).view_spec() == md_step(t.id, old(self).view_spec(), *ev),
            final(self).depth <= old(self).depth + 1,
            (final(self).bold_on, final(self).italic_on) == md_style_step(
                (old(self).bold_on, old(self).italic_on),
                *ev,
            ),
            md_event_ok(*ev, old(self).in_cell, old(self).bold_on, old(self).italic_on) && md_agree(
                old(self).view_spec(),
                sp,
            ) ==> md_agree(
                final(self).view_spec(),
                md_step(t.id, sp, *ev),
            ),
    {
        proof {
            reveal_strlit(" ");
            reveal_strlit("\n");
            reveal_strlit("`");
            lemma_lit(" "@);
            lemma_lit("\n"@);
            lemma_lit("`"@);
            lemma_borders_plain(t.id);
            let a = old(self).view_spec();
            if md_agree(a, sp) {
                lemma_md_grow(a.out, sp.out, " "@, " "@);
                lemma_md_grow(a.out, sp.out, "\n"@, "\n"@);
                lemma_no_esc_add(sp.cell, " "@);
            }
        }
        match ev {
            MdEvent::Start(tag) => self.start(t, tag, Ghost(sp)),
            MdEvent::End(tag) => self.end(t, tag, Ghost(sp)),
            MdEvent::Text(s) => {
                let styled_text = if self.in_cell {
                    style_text(t, s.as_str(), self.bold_on, self.italic_on, false, None)
                } else {
                    style_text(t, s.as_str(), self.bold_on, self.italic_on, self.in_code, self.heading)
                };
                self.emit(styled_text.as_str());
                proof {
                    let a = old(self).view_spec();
                    if md_event_ok(*ev, old(self).in_cell, old(self).bold_on, old(self).italic_on) && md_agree(
                        a,
                        sp,
                    ) {
                        lemma_lit(s@);
                        if a.in_cell {
                            lemma_no_esc_add(sp.cell, s@);
                            assert(self.view_spec().cell == sp.cell + s@);
                        } else {
                            lemma_md_grow(a.out, sp.out, styled_text@, s@);
                        }
                    }
                }
            },
            MdEvent::Code(s) => {
                let p = primary_light(t, s.as_str());
                let c = concat3("`", p.as_str(), "`");
                proof {
                    let a = old(self).view_spec();
                    if md_event_ok(*ev, old(self).in_cell, old(self).bold_on, old(self).italic_on) && md_agree(
                        a,
                        sp,
                    ) {
                        lemma_lit(s@);
                        lemma_shows_concat("`"@, "`"@, p@, s@);
                        lemma_shows_concat("`"@ + p@, "`"@ + s@, "`"@, "`"@);
                        lemma_md_grow(a.out, sp.out, c@, "`"@ + s@ + "`"@);
                    }
                }
                self.emit(c.as_str());
            },
            MdEvent::SoftBreak => self.emit(" "),
            MdEvent::HardBreak => {
                if self.in_cell {
                    self.cell.append(" ");
                } else {
                    self.out.append("\n");
                }
            },
            MdEvent::Rule => {
                let line = separator_line(t, 40);
                self.out.append(line.as_str());
                self.out.append("\n");
                proof {
                    let a = old(self).view_spec();
                    if md_agree(a, sp) {
                        let x = repeat_seq(border_horizontal_spec(t.id), 40);
                        lemma_md_grow(a.out, sp.out, line@, x);
                        lemma_md_grow(a.out + line@, sp.out + x, "\n"@, "\n"@);
                    }
                    if !t.colors {
                        assert(self.out@ =~= old(self).out@ + repeat_seq(border_horizontal_spec(t.id), 40) + "\n"@);
                    }
                }
            },
            MdEvent::Other => {},
        }
    }
}

/// Renders Markdown events as terminal text: headings, lists, quotes, code
/// blocks, links and tables; the trailing whitespace is removed.
pub fn render_markdown_events(t: &Theme, events: &Vec<MdEvent>) -> (r: String)
    ensures
        !t.colors ==> r@ == md_render_plain(t.id, events@),
        md_simple(t.id, events@) ==> trim_end_seq(strip_ansi_spec(r@)) == md_render_plain(t.id, events@),
{
    let mut run = MdRun::new();
    proof {
        assert(strip_ansi_spec(Seq::<char>::empty()) =~= Seq::<char>::empty());
        assert(no_esc(Seq::<char>::empty()));
    }
    let mut i: usize = 0;
    while i < events.len()
        invariant
            i <= events.len(),
            run.depth <= i,
            !t.colors ==> run.view_spec() == md_fold(t.id, events@.take(i as int)),
            (run.bold_on, run.italic_on) == md_style(events@.take(i as int)),
            md_simple(t.id, events@) ==> md_agree(run.view_spec(), md_fold(t.id, events@.take(i as int))),
        decreases events.len() - i,
    {
        let ghost sp = md_fold(t.id, events@.take(i as int));
        proof {
            reveal(md_simple);
            if md_simple(t.id, events@) {
                assert(md_event_ok(
                    events@[i as int],
                    sp.in_cell,
                    md_style(events@.take(i as int)).0,
                    md_style(events@.take(i as int)).1,
                ));
            }
        }
        run.step(t, &events[i], Ghost(sp));
        proof {
            assert(events@.take(i + 1).drop_last() =~= events@.take(i as int));
        }
        i += 1;
    }
    proof {
        assert(events@.take(i as int) =~= events@);
        if md_simple(t.id, events@) {
            lemma_trim_end_strip(run.out@);
        }
    }
    trim_end(run.out.as_str())
}

/// Renders Markdown for the terminal, after removing reasoning blocks and
/// other markup meant for the model (`sanitize_final`).
pub fn render_markdown(t: &Theme, input: &str) -> (r: String)
    ensures
        !t.colors ==> r@ == md_render_plain(t.id, markdown_events(sanitize_final_spec(input@))),
        md_simple(t.id, markdown_events(sanitize_final_spec(input@))) ==> trim_end_seq(strip_ansi_spec(r@)) == md_render_plain(
            t.id,
            markdown_events(sanitize_final_spec(input@)),
        ),
{
    let cleaned = sanitize_final(input);
    let events = parse_markdown(cleaned.as_str());
    render_markdown_events(t, &events)
}

} // verus!
