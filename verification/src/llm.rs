//! The chat API's client settings and its streamed answer: server-sent event
//! lines decoded into text deltas, tool calls and a final assistant message.
//! Sending the request and reading the bytes are the application's part; it
//! hands each decoded `data:` payload, read as JSON, to `StreamDecoder`.
use vstd::prelude::*;
use crate::permissions::manager::opt_view;
use crate::text::{
    concat2, has_prefix, is_empty_str, owned, split_once, split_once_spec, starts_with, str_eq,
    trim, trim_end_char, trim_end_matches_char, trim_seq,
};

verus! {

/// Token counts that the API reports for a request.
#[derive(Clone, Copy, Debug, PartialEq, Eq, Structural)]
pub struct UsageInfo {
    pub prompt_tokens: u32,
    pub completion_tokens: u32,
    pub reasoning_tokens: u32,
    pub total_tokens: u32,
}

impl UsageInfo {
    /// The total: the reported one, or input plus output where none was reported.
    pub open spec fn total_spec(&self) -> nat {
        if self.total_tokens > 0 {
            self.total_tokens as nat
        } else {
            (self.prompt_tokens + self.completion_tokens) as nat
        }
    }

    pub fn total(&self) -> (r: u64)
        ensures
            r == self.total_spec(),
    {
        if self.total_tokens > 0 {
            self.total_tokens as u64
        } else {
            self.prompt_tokens as u64 + self.completion_tokens as u64
        }
    }

    pub open spec fn zero() -> UsageInfo {
        UsageInfo { prompt_tokens: 0, completion_tokens: 0, reasoning_tokens: 0, total_tokens: 0 }
    }
}

impl Default for UsageInfo {
    fn default() -> (r: UsageInfo)
        ensures
            r == UsageInfo::zero(),
    {
        UsageInfo { prompt_tokens: 0, completion_tokens: 0, reasoning_tokens: 0, total_tokens: 0 }
    }
}

/// The function a tool call names, with its arguments as JSON text.
#[derive(Clone, Debug)]
pub struct FunctionCall {
    pub name: String,
    pub arguments: String,
}

/// A tool call of the assistant.
#[derive(Clone, Debug)]
pub struct ToolCall {
    pub id: String,
    pub call_type: String,
    pub function: FunctionCall,
}

/// A tool call as values.
pub struct ToolCallView {
    pub id: Seq<char>,
    pub call_type: Seq<char>,
    pub name: Seq<char>,
    pub arguments: Seq<char>,
}

impl View for ToolCall {
    type V = ToolCallView;

    open spec fn view(&self) -> ToolCallView {
        ToolCallView {
            id: self.id@,
            call_type: self.call_type@,
            name: self.function.name@,
            arguments: self.function.arguments@,
        }
    }
}

pub open spec fn call_views(v: Seq<ToolCall>) -> Seq<ToolCallView> {
    v.map_values(|c: ToolCall| c@)
}

/// The assistant's answer.
pub struct AssistantMessage {
    pub role: String,
    pub content: Option<String>,
    pub tool_calls: Option<Vec<ToolCall>>,
    pub reasoning_content: Option<String>,
}

pub struct MessageView {
    pub role: Seq<char>,
    pub content: Option<Seq<char>>,
    pub tool_calls: Option<Seq<ToolCallView>>,
    pub reasoning_content: Option<Seq<char>>,
}

impl View for AssistantMessage {
    type V = MessageView;

    open spec fn view(&self) -> MessageView {
        MessageView {
            role: self.role@,
            content: opt_view(self.content),
            tool_calls: match self.tool_calls {
                Some(v) => Some(call_views(v@)),
                None => None,
            },
            reasoning_content: opt_view(self.reasoning_content),
        }
    }
}

/// A piece of a tool call's function in one chunk.
pub struct FunctionDelta {
    pub name: Option<String>,
    pub arguments: Option<String>,
}

/// A piece of the tool call at `index` in one chunk.
pub struct ToolCallDelta {
    pub index: usize,
    pub id: Option<String>,
    pub function: Option<FunctionDelta>,
}

pub struct ToolCallDeltaView {
    pub index: nat,
    pub id: Option<Seq<char>>,
    pub name: Option<Seq<char>>,
    pub arguments: Option<Seq<char>>,
}

impl View for ToolCallDelta {
    type V = ToolCallDeltaView;

    open spec fn view(&self) -> ToolCallDeltaView {
        ToolCallDeltaView {
            index: self.index as nat,
            id: opt_view(self.id),
            name: match self.function {
                Some(f) => opt_view(f.name),
                None => None,
            },
            arguments: match self.function {
                Some(f) => opt_view(f.arguments),
                None => None,
            },
        }
    }
}

/// What one choice of a chunk adds.
pub struct StreamDelta {
    pub content: Option<String>,
    pub reasoning_content: Option<String>,
    pub tool_calls: Option<Vec<ToolCallDelta>>,
}

pub struct StreamChoice {
    pub delta: StreamDelta,
    pub finish_reason: Option<String>,
}

pub struct ChoiceView {
    pub content: Option<Seq<char>>,
    pub reasoning: Option<Seq<char>>,
    pub tool_calls: Seq<ToolCallDeltaView>,
    pub finished: bool,
}

impl View for StreamChoice {
    type V = ChoiceView;

    open spec fn view(&self) -> ChoiceView {
        ChoiceView {
            content: opt_view(self.delta.content),
            reasoning: opt_view(self.delta.reasoning_content),
            tool_calls: match self.delta.tool_calls {
                Some(v) => v@.map_values(|d: ToolCallDelta| d@),
                None => Seq::empty(),
            },
            finished: self.finish_reason is Some,
        }
    }
}

/// One `data:` payload of the stream.
pub struct StreamChunk {
    pub choices: Vec<StreamChoice>,
    pub usage: Option<UsageInfo>,
}

pub open spec fn choice_views(v: Seq<StreamChoice>) -> Seq<ChoiceView> {
    v.map_values(|c: StreamChoice| c@)
}

/// What the stream tells its reader.
pub enum StreamEvent {
    ReasoningDelta(String),
    ContentDelta(String),
    ToolCallDelta { name: Option<String> },
    Usage(UsageInfo),
    Done(AssistantMessage),
    Error(String),
}

pub enum EventView {
    ReasoningDelta(Seq<char>),
    ContentDelta(Seq<char>),
    ToolCallDelta(Option<Seq<char>>),
    Usage(UsageInfo),
    Done(MessageView),
    Error(Seq<char>),
}

impl View for StreamEvent {
    type V = EventView;

    open spec fn view(&self) -> EventView {
        match self {
            StreamEvent::ReasoningDelta(t) => EventView::ReasoningDelta(t@),
            StreamEvent::ContentDelta(t) => EventView::ContentDelta(t@),
            StreamEvent::ToolCallDelta { name } => EventView::ToolCallDelta(opt_view(*name)),
            StreamEvent::Usage(u) => EventView::Usage(*u),
            StreamEvent::Done(m) => EventView::Done(m@),
            StreamEvent::Error(e) => EventView::Error(e@),
        }
    }
}

pub open spec fn event_views(v: Seq<StreamEvent>) -> Seq<EventView> {
    v.map_values(|e: StreamEvent| e@)
}

/// What a line of the stream is.
pub enum LineKind {
    /// Blank, or a comment (`:`), or text that is not an event: nothing to do.
    Skip,
    /// `[DONE]`: the answer is complete.
    Done,
    /// A payload to read as JSON.
    Data(String),
}

/// The payload of a line: after `data:` and trimmed, or the line itself.
pub open spec fn line_payload(line: Seq<char>) -> Seq<char> {
    if has_prefix(line, "data:"@) { trim_seq(line.skip(5)) } else { line }
}

pub open spec fn line_kind(line: Seq<char>) -> Option<Option<Seq<char>>> {
    if line.len() == 0 || line[0] == ':' {
        None
    } else if line_payload(line) == "[DONE]"@ {
        Some(None)
    } else {
        Some(Some(line_payload(line)))
    }
}

/// Classifies a (trimmed) line of the stream.
pub fn classify_line(line: &str) -> (r: LineKind)
    ensures
        match line_kind(line@) {
            None => r is Skip,
            Some(None) => r is Done,
            Some(Some(p)) => r matches LineKind::Data(d) && d@ == p,
        },
{
    proof {
        reveal_strlit("data:");
        reveal_strlit(":");
        assert(":"@ =~= seq![':']);
    }
    if is_empty_str(line) {
        return LineKind::Skip;
    }
    let colon = starts_with(line, ":");
    proof {
        assert(line@.subrange(0, 1) =~= seq![line@[0]]);
        if line@[0] == ':' {
            assert(has_prefix(line@, ":"@));
        }
        if has_prefix(line@, ":"@) {
            assert(line@.subrange(0, 1)[0] == line@[0]);
        }
    }
    if colon {
        return LineKind::Skip;
    }
    let payload = if starts_with(line, "data:") {
        let (_, rest) = split_prefix(line, 5);
        trim(rest.as_str())
    } else {
        owned(line)
    };
    if str_eq(payload.as_str(), "[DONE]") {
        LineKind::Done
    } else {
        LineKind::Data(payload)
    }
}

/// The text split after its first `n` characters.
fn split_prefix(s: &str, n: usize) -> (r: (String, String))
    requires
        n <= s@.len(),
    ensures
        r.0@ == s@.take(n as int),
        r.1@ == s@.skip(n as int),
{
    let v = crate::text::chars_of(s);
    let a = crate::text::string_from_range(v.as_slice(), 0, n);
    let b = crate::text::string_from_range(v.as_slice(), n, v.len());
    proof {
        assert(a@ =~= s@.take(n as int));
        assert(b@ =~= s@.skip(n as int));
    }
    (a, b)
}

/// The decoder's state as values.
pub struct DecoderView {
    pub buffer: Seq<char>,
    pub content: Seq<char>,
    pub reasoning: Seq<char>,
    pub tool_calls: Seq<ToolCallView>,
    pub usage: UsageInfo,
}

/// An empty tool call, as one first appears in the stream.
pub open spec fn empty_call() -> ToolCallView {
    ToolCallView { id: Seq::empty(), call_type: "function"@, name: Seq::empty(), arguments: Seq::empty() }
}

/// The calls with empty ones added until there are at least `n`.
pub open spec fn pad_calls(calls: Seq<ToolCallView>, n: nat) -> Seq<ToolCallView> {
    if calls.len() >= n {
        calls
    } else {
        calls + Seq::new((n - calls.len()) as nat, |_i: int| empty_call())
    }
}

/// A delta applied to the calls: the id and the name replace, the arguments append.
pub open spec fn apply_delta(calls: Seq<ToolCallView>, d: ToolCallDeltaView) -> Seq<ToolCallView> {
    let padded = pad_calls(calls, d.index + 1);
    let c = padded[d.index as int];
    padded.update(d.index as int, ToolCallView {
        id: match d.id { Some(i) => i, None => c.id },
        call_type: c.call_type,
        name: match d.name { Some(n) => n, None => c.name },
        arguments: match d.arguments { Some(a) => c.arguments + a, None => c.arguments },
    })
}

/// The first `n` deltas applied in turn.
pub open spec fn apply_deltas(calls: Seq<ToolCallView>, ds: Seq<ToolCallDeltaView>, n: nat) -> Seq<ToolCallView>
    decreases n,
{
    if n == 0 || n > ds.len() {
        calls
    } else {
        apply_delta(apply_deltas(calls, ds, (n - 1) as nat), ds[n - 1])
    }
}

/// The message that the stream's state makes.
pub open spec fn message_of(st: DecoderView) -> MessageView {
    MessageView {
        role: "assistant"@,
        content: if st.content.len() == 0 { None } else { Some(st.content) },
        tool_calls: if st.tool_calls.len() == 0 { None } else { Some(st.tool_calls) },
        reasoning_content: if st.reasoning.len() == 0 { None } else { Some(st.reasoning) },
    }
}

/// The events that end the stream: the usage where there was some, then the message.
pub open spec fn finish_events(st: DecoderView) -> Seq<EventView> {
    (if st.usage.total_spec() > 0 { seq![EventView::Usage(st.usage)] } else { Seq::empty() })
        + seq![EventView::Done(message_of(st))]
}

/// One choice applied: its reasoning, its text, its tool-call pieces, then
/// the end where it has a finish reason.
pub open spec fn step_choice(st: DecoderView, c: ChoiceView) -> (DecoderView, Seq<EventView>, bool) {
    let (r, e1) = match c.reasoning {
        Some(t) => if t.len() > 0 { (st.reasoning + t, seq![EventView::ReasoningDelta(t)]) } else { (st.reasoning, Seq::empty()) },
        None => (st.reasoning, Seq::empty()),
    };
    let (t, e2) = match c.content {
        Some(x) => if x.len() > 0 { (st.content + x, seq![EventView::ContentDelta(x)]) } else { (st.content, Seq::empty()) },
        None => (st.content, Seq::empty()),
    };
    let calls = apply_deltas(st.tool_calls, c.tool_calls, c.tool_calls.len());
    let e3 = Seq::new(c.tool_calls.len(), |i: int| EventView::ToolCallDelta(c.tool_calls[i].name));
    let st2 = DecoderView { buffer: st.buffer, content: t, reasoning: r, tool_calls: calls, usage: st.usage };
    if c.finished {
        (st2, e1 + e2 + e3 + finish_events(st2), true)
    } else {
        (st2, e1 + e2 + e3, false)
    }
}

/// The first `n` choices applied in turn, stopping at the first that finishes.
pub open spec fn step_choices(st: DecoderView, cs: Seq<ChoiceView>, n: nat) -> (DecoderView, Seq<EventView>, bool)
    decreases n,
{
    if n == 0 || n > cs.len() {
        (st, Seq::empty(), false)
    } else {
        let (s1, e1, d1) = step_choices(st, cs, (n - 1) as nat);
        if d1 {
            (s1, e1, true)
        } else {
            let (s2, e2, d2) = step_choice(s1, cs[n - 1]);
            (s2, e1 + e2, d2)
        }
    }
}

/// A chunk applied: its usage (where it has one) replaces the last, then its choices.
pub open spec fn step_chunk(st: DecoderView, usage: Option<UsageInfo>, cs: Seq<ChoiceView>) -> (DecoderView, Seq<EventView>, bool) {
    let st1 = match usage {
        Some(u) => DecoderView { usage: u, ..st },
        None => st,
    };
    step_choices(st1, cs, cs.len())
}

proof fn lemma_step_choices_done(st: DecoderView, cs: Seq<ChoiceView>, m: nat, n: nat)
    requires
        m <= n <= cs.len(),
        step_choices(st, cs, m).2,
    ensures
        step_choices(st, cs, n) == step_choices(st, cs, m),
    decreases n - m,
{
    if m < n {
        lemma_step_choices_done(st, cs, m, (n - 1) as nat);
    }
}

/// The text that the deltas of one kind carry, in order: the reasoning
/// deltas' where `reasoning` holds, else the content deltas'.
pub open spec fn delta_text(evs: Seq<EventView>, reasoning: bool) -> Seq<char>
    decreases evs.len(),
{
    if evs.len() == 0 {
        Seq::empty()
    } else {
        delta_text(evs.drop_last(), reasoning) + match evs.last() {
            EventView::ContentDelta(t) => if reasoning { Seq::empty() } else { t },
            EventView::ReasoningDelta(t) => if reasoning { t } else { Seq::empty() },
            _ => Seq::empty(),
        }
    }
}

proof fn lemma_delta_text_add(a: Seq<EventView>, b: Seq<EventView>, reasoning: bool)
    ensures
        delta_text(a + b, reasoning) == delta_text(a, reasoning) + delta_text(b, reasoning),
    decreases b.len(),
{
    if b.len() == 0 {
        assert(a + b =~= a);
        assert(delta_text(a, reasoning) + Seq::<char>::empty() =~= delta_text(a, reasoning));
    } else {
        lemma_delta_text_add(a, b.drop_last(), reasoning);
        assert((a + b).drop_last() =~= a + b.drop_last());
        assert((a + b).last() == b.last());
    }
}

proof fn lemma_delta_text_none(evs: Seq<EventView>, reasoning: bool)
    requires
        forall|i: int| 0 <= i < evs.len() ==> !(evs[i] is ContentDelta) && !(evs[i] is ReasoningDelta),
    ensures
        delta_text(evs, reasoning) == Seq::<char>::empty(),
    decreases evs.len(),
{
    if evs.len() > 0 {
        lemma_delta_text_none(evs.drop_last(), reasoning);
        assert(!(evs.last() is ContentDelta) && !(evs.last() is ReasoningDelta));
    }
}

proof fn lemma_step_choice_text(st: DecoderView, c: ChoiceView, reasoning: bool)
    ensures
        ({
            let (st2, evs, d) = step_choice(st, c);
            &&& st2.content == st.content + delta_text(evs, false)
            &&& st2.reasoning == st.reasoning + delta_text(evs, true)
        }),
{
    let (st2, evs, d) = step_choice(st, c);
    let e1: Seq<EventView> = match c.reasoning {
        Some(t) => if t.len() > 0 { seq![EventView::ReasoningDelta(t)] } else { Seq::empty() },
        None => Seq::empty(),
    };
    let e2: Seq<EventView> = match c.content {
        Some(x) => if x.len() > 0 { seq![EventView::ContentDelta(x)] } else { Seq::empty() },
        None => Seq::empty(),
    };
    let e3 = Seq::new(c.tool_calls.len(), |i: int| EventView::ToolCallDelta(c.tool_calls[i].name));
    lemma_delta_text_none(e3, false);
    lemma_delta_text_none(e3, true);
    lemma_delta_text_none(finish_events(st2), false);
    lemma_delta_text_none(finish_events(st2), true);
    lemma_delta_text_add(e1, e2, false);
    lemma_delta_text_add(e1, e2, true);
    lemma_delta_text_add(e1 + e2, e3, false);
    lemma_delta_text_add(e1 + e2, e3, true);
    lemma_delta_text_add(e1 + e2 + e3, finish_events(st2), false);
    lemma_delta_text_add(e1 + e2 + e3, finish_events(st2), true);
    assert(delta_text(e1, false) =~= Seq::<char>::empty()) by {
        if e1.len() > 0 {
            assert(e1.drop_last() =~= Seq::<EventView>::empty());
            assert(delta_text(e1.drop_last(), false) == Seq::<char>::empty());
        }
    }
    assert(delta_text(e2, true) =~= Seq::<char>::empty()) by {
        if e2.len() > 0 {
            assert(e2.drop_last() =~= Seq::<EventView>::empty());
            assert(delta_text(e2.drop_last(), true) == Seq::<char>::empty());
        }
    }
    assert(delta_text(e1, true) =~= match c.reasoning { Some(t) => t, None => Seq::<char>::empty() }) by {
        if e1.len() > 0 {
            assert(e1.drop_last() =~= Seq::<EventView>::empty());
            assert(delta_text(e1.drop_last(), true) == Seq::<char>::empty());
        }
    }
    assert(delta_text(e2, false) =~= match c.content { Some(t) => t, None => Seq::<char>::empty() }) by {
        if e2.len() > 0 {
            assert(e2.drop_last() =~= Seq::<EventView>::empty());
            assert(delta_text(e2.drop_last(), false) == Seq::<char>::empty());
        }
    }
}

proof fn lemma_step_choices_text(st: DecoderView, cs: Seq<ChoiceView>, n: nat)
    ensures
        ({
            let (st2, evs, d) = step_choices(st, cs, n);
            &&& st2.content == st.content + delta_text(evs, false)
            &&& st2.reasoning == st.reasoning + delta_text(evs, true)
        }),
    decreases n,
{
    if n == 0 || n > cs.len() {
        assert(st.content + Seq::<char>::empty() =~= st.content);
        assert(st.reasoning + Seq::<char>::empty() =~= st.reasoning);
    } else {
        lemma_step_choices_text(st, cs, (n - 1) as nat);
        let (s1, e1, d1) = step_choices(st, cs, (n - 1) as nat);
        if !d1 {
            lemma_step_choice_text(s1, cs[n - 1], false);
            let (s2, e2, d2) = step_choice(s1, cs[n - 1]);
            lemma_delta_text_add(e1, e2, false);
            lemma_delta_text_add(e1, e2, true);
            assert(st.content + delta_text(e1, false) + delta_text(e2, false) =~= st.content + (delta_text(e1, false) + delta_text(e2, false)));
            assert(st.reasoning + delta_text(e1, true) + delta_text(e2, true) =~= st.reasoning + (delta_text(e1, true) + delta_text(e2, true)));
        }
    }
}

/// Each chunk adds to the answer's text, and to its reasoning, exactly the
/// text of the deltas it yields, in the order it yields them; the message
/// that ends the stream is made of what was added.
pub proof fn lemma_chunk_adds_its_deltas(st: DecoderView, usage: Option<UsageInfo>, cs: Seq<ChoiceView>)
    ensures
        ({
            let (st2, evs, d) = step_chunk(st, usage, cs);
            &&& st2.content == st.content + delta_text(evs, false)
            &&& st2.reasoning == st.reasoning + delta_text(evs, true)
            &&& d ==> evs.last() == EventView::Done(message_of(st2))
        }),
{
    let st1 = match usage {
        Some(u) => DecoderView { usage: u, ..st },
        None => st,
    };
    lemma_step_choices_text(st1, cs, cs.len());
    lemma_step_choices_done_last(st1, cs, cs.len());
}

proof fn lemma_step_choices_done_last(st: DecoderView, cs: Seq<ChoiceView>, n: nat)
    ensures
        ({
            let (st2, evs, d) = step_choices(st, cs, n);
            d ==> evs.last() == EventView::Done(message_of(st2))
        }),
    decreases n,
{
    if n > 0 && n <= cs.len() {
        lemma_step_choices_done_last(st, cs, (n - 1) as nat);
        let (s1, e1, d1) = step_choices(st, cs, (n - 1) as nat);
        if !d1 {
            let (s2, e2, d2) = step_choice(s1, cs[n - 1]);
            if d2 {
                assert((e1 + e2).last() == e2.last());
            }
        }
    }
}

/// Decodes a streamed answer: it holds the text not yet split into lines,
/// and what the answer has said so far.
pub struct StreamDecoder {
    buffer: String,
    content: String,
    reasoning: String,
    tool_calls: Vec<ToolCall>,
    last_usage: UsageInfo,
}

impl View for StreamDecoder {
    type V = DecoderView;

    closed spec fn view(&self) -> DecoderView {
        DecoderView {
            buffer: self.buffer@,
            content: self.content@,
            reasoning: self.reasoning@,
            tool_calls: call_views(self.tool_calls@),
            usage: self.last_usage,
        }
    }
}

fn copy_string(s: &String) -> (r: String)
    ensures
        r@ == s@,
{
    owned(s.as_str())
}

fn copy_call(c: &ToolCall) -> (r: ToolCall)
    ensures
        r@ == c@,
{
    ToolCall {
        id: copy_string(&c.id),
        call_type: copy_string(&c.call_type),
        function: FunctionCall { name: copy_string(&c.function.name), arguments: copy_string(&c.function.arguments) },
    }
}

pub(crate) fn copy_calls(v: &Vec<ToolCall>) -> (r: Vec<ToolCall>)
    ensures
        call_views(r@) == call_views(v@),
{
    let mut out: Vec<ToolCall> = Vec::new();
    let mut i: usize = 0;
    while i < v.len()
        invariant
            i <= v@.len(),
            call_views(out@) == call_views(v@).take(i as int),
        decreases v.len() - i,
    {
        let c = copy_call(&v[i]);
        proof {
            assert(call_views(out@.push(c)) =~= call_views(out@).push(c@));
            assert(call_views(v@).take(i + 1) =~= call_views(v@).take(i as int).push(v@[i as int]@));
        }
        out.push(c);
        i += 1;
    }
    proof {
        assert(call_views(v@).take(v@.len() as int) =~= call_views(v@));
    }
    out
}

fn new_empty_call() -> (r: ToolCall)
    ensures
        r@ == empty_call(),
{
    ToolCall {
        id: String::new(),
        call_type: owned("function"),
        function: FunctionCall { name: String::new(), arguments: String::new() },
    }
}

pub(crate) fn copy_opt(o: &Option<String>) -> (r: Option<String>)
    ensures
        opt_view(r) == opt_view(*o),
{
    match o {
        Some(s) => Some(copy_string(s)),
        None => None,
    }
}

impl StreamDecoder {
    pub fn new() -> (r: StreamDecoder)
        ensures
            r@.buffer.len() == 0,
            r@.content.len() == 0,
            r@.reasoning.len() == 0,
            r@.tool_calls.len() == 0,
            r@.usage == UsageInfo::zero(),
    {
        StreamDecoder {
            buffer: String::new(),
            content: String::new(),
            reasoning: String::new(),
            tool_calls: Vec::new(),
            last_usage: UsageInfo::default(),
        }
    }

    /// Adds received text to the buffer.
    pub fn push_text(&mut self, text: &str)
        ensures
            final(self)@ == (DecoderView { buffer: old(self)@.buffer + text@, ..old(self)@ }),
    {
        self.buffer.append(text);
    }

    /// Takes the first complete line off the buffer, trimmed; `None` while
    /// no line is complete.
    pub fn next_line(&mut self) -> (r: Option<String>)
        ensures
            match split_once_spec(old(self)@.buffer, "\n"@) {
                Some((line, rest)) => r matches Some(l) && l@ == trim_seq(line)
                    && final(self)@ == (DecoderView { buffer: rest, ..old(self)@ }),
                None => r is None && final(self)@ == old(self)@,
            },
    {
        match split_once(self.buffer.as_str(), "\n") {
            Some((line, rest)) => {
                self.buffer = rest;
                Some(trim(line.as_str()))
            },
            None => None,
        }
    }

    fn apply_tool_delta(&mut self, d: &ToolCallDelta)
        ensures
            final(self)@ == (DecoderView { tool_calls: apply_delta(old(self)@.tool_calls, d@), ..old(self)@ }),
    {
        let ghost start = call_views(self.tool_calls@);
        while self.tool_calls.len() <= d.index
            invariant
                call_views(self.tool_calls@) == pad_calls(start, self.tool_calls@.len() as nat),
                self.tool_calls@.len() >= start.len(),
                self.tool_calls@.len() == start.len() || self.tool_calls@.len() <= d.index + 1,
                self.buffer == old(self).buffer,
                self.content == old(self).content,
                self.reasoning == old(self).reasoning,
                self.last_usage == old(self).last_usage,
                start == call_views(old(self).tool_calls@),
            decreases d.index + 1 - self.tool_calls@.len(),
        {
            let e = new_empty_call();
            proof {
                assert(call_views(self.tool_calls@.push(e)) =~= call_views(self.tool_calls@).push(e@));
                assert(pad_calls(start, (self.tool_calls@.len() + 1) as nat) =~= pad_calls(start, self.tool_calls@.len() as nat).push(empty_call()));
            }
            self.tool_calls.push(e);
        }
        proof {
            assert(pad_calls(start, self.tool_calls@.len() as nat) =~= pad_calls(start, (d.index + 1) as nat));
        }
        let i = d.index;
        let cur = copy_call(&self.tool_calls[i]);
        let id = match &d.id {
            Some(x) => copy_string(x),
            None => cur.id,
        };
        let name = match &d.function {
            Some(f) => match &f.name {
                Some(n) => copy_string(n),
                None => cur.function.name,
            },
            None => cur.function.name,
        };
        let arguments = match &d.function {
            Some(f) => match &f.arguments {
                Some(a) => {
                    let mut s = cur.function.arguments;
                    s.append(a.as_str());
                    s
                },
                None => cur.function.arguments,
            },
            None => cur.function.arguments,
        };
        let updated = ToolCall { id, call_type: cur.call_type, function: FunctionCall { name, arguments } };
        let ghost before = self.tool_calls@;
        self.tool_calls.set(i, updated);
        proof {
            assert(call_views(self.tool_calls@) =~= call_views(before).update(i as int, updated@));
        }
    }

    /// The events that end the stream, from what it has said.
    pub fn finish(&self) -> (r: Vec<StreamEvent>)
        ensures
            event_views(r@) == finish_events(self@),
    {
        let mut out: Vec<StreamEvent> = Vec::new();
        if self.last_usage.total() > 0 {
            out.push(StreamEvent::Usage(self.last_usage));
        }
        let msg = AssistantMessage {
            role: owned("assistant"),
            content: if is_empty_str(self.content.as_str()) { None } else { Some(copy_string(&self.content)) },
            tool_calls: if self.tool_calls.len() == 0 { None } else { Some(copy_calls(&self.tool_calls)) },
            reasoning_content: if is_empty_str(self.reasoning.as_str()) { None } else { Some(copy_string(&self.reasoning)) },
        };
        let ghost before = out@;
        out.push(StreamEvent::Done(msg));
        proof {
            assert(msg@ == message_of(self@));
            assert(event_views(out@) =~= event_views(before).push(EventView::Done(message_of(self@))));
            assert(event_views(before) =~= (if self@.usage.total_spec() > 0 { seq![EventView::Usage(self@.usage)] } else { Seq::<EventView>::empty() }));
        }
        out
    }

    #[verifier::spinoff_prover]
    #[verifier::rlimit(40)]
    fn apply_choice(&mut self, c: &StreamChoice, events: &mut Vec<StreamEvent>) -> (done: bool)
        ensures
            ({
                let (st, evs, d) = step_choice(old(self)@, c@);
                &&& final(self)@ == st
                &&& event_views(final(events)@) == event_views(old(events)@) + evs
                &&& done == d
            }),
    {
        let ghost ev0 = event_views(events@);
        if let Some(t) = &c.delta.reasoning_content {
            if !is_empty_str(t.as_str()) {
                self.reasoning.append(t.as_str());
                let ghost b = events@;
                events.push(StreamEvent::ReasoningDelta(copy_string(t)));
                proof {
                    assert(event_views(events@) =~= event_views(b).push(EventView::ReasoningDelta(t@)));
                }
            }
        }
        let ghost ev1 = event_views(events@);
        if let Some(t) = &c.delta.content {
            if !is_empty_str(t.as_str()) {
                self.content.append(t.as_str());
                let ghost b = events@;
                events.push(StreamEvent::ContentDelta(copy_string(t)));
                proof {
                    assert(event_views(events@) =~= event_views(b).push(EventView::ContentDelta(t@)));
                }
            }
        }
        let ghost ev2 = event_views(events@);
        let ghost mid = self@;
        let ghost ds = c@.tool_calls;
        if let Some(deltas) = &c.delta.tool_calls {
            let mut k: usize = 0;
            while k < deltas.len()
                invariant
                    k <= deltas@.len(),
                    ds == deltas@.map_values(|d: ToolCallDelta| d@),
                    self@ == (DecoderView { tool_calls: apply_deltas(mid.tool_calls, ds, k as nat), ..mid }),
                    event_views(events@) == ev2 + Seq::new(k as nat, |i: int| EventView::ToolCallDelta(ds[i].name)),
                decreases deltas.len() - k,
            {
                self.apply_tool_delta(&deltas[k]);
                let name = match &deltas[k].function {
                    Some(f) => copy_opt(&f.name),
                    None => None,
                };
                let ghost b = events@;
                events.push(StreamEvent::ToolCallDelta { name });
                proof {
                    assert(ds[k as int] == deltas@[k as int]@);
                    assert(event_views(events@) =~= event_views(b).push(EventView::ToolCallDelta(ds[k as int].name)));
                    assert(ev2 + Seq::new((k + 1) as nat, |i: int| EventView::ToolCallDelta(ds[i].name))
                        =~= ev2 + Seq::new(k as nat, |i: int| EventView::ToolCallDelta(ds[i].name)) + seq![EventView::ToolCallDelta(ds[k as int].name)]);
                }
                k += 1;
            }
        } else {
            proof {
                assert(event_views(events@) =~= ev2 + Seq::new(0, |i: int| EventView::ToolCallDelta(ds[i].name)));
            }
        }
        let ghost st2 = self@;
        proof {
            let (st, evs, d) = step_choice(old(self)@, c@);
            assert(st == st2);
        }
        if c.finish_reason.is_some() {
            let fin = self.finish();
            let ghost b = events@;
            let ghost f = fin@;
            let mut fin = fin;
            events.append(&mut fin);
            proof {
                assert(events@ =~= b + f);
                assert(event_views(events@) =~= event_views(b) + event_views(f));
            }
            return true;
        }
        false
    }

    /// Applies one decoded chunk: gives the events it yields, and whether the
    /// answer ended with it.
    pub fn apply_chunk(&mut self, chunk: &StreamChunk) -> (r: (Vec<StreamEvent>, bool))
        ensures
            ({
                let (st, evs, d) = step_chunk(old(self)@, chunk.usage, choice_views(chunk.choices@));
                &&& final(self)@ == st
                &&& event_views(r.0@) == evs
                &&& r.1 == d
            }),
    {
        if let Some(u) = chunk.usage {
            self.last_usage = u;
        }
        let ghost st1 = self@;
        let ghost cs = choice_views(chunk.choices@);
        proof {
            assert(st1 == match chunk.usage { Some(u) => DecoderView { usage: u, ..old(self)@ }, None => old(self)@ });
        }
        let mut events: Vec<StreamEvent> = Vec::new();
        let mut i: usize = 0;
        while i < chunk.choices.len()
            invariant
                i <= chunk.choices@.len(),
                cs == choice_views(chunk.choices@),
                st1 == match chunk.usage { Some(u) => DecoderView { usage: u, ..old(self)@ }, None => old(self)@ },
                ({
                    let (st, evs, d) = step_choices(st1, cs, i as nat);
                    &&& self@ == st
                    &&& event_views(events@) == evs
                    &&& !d
                }),
            decreases chunk.choices.len() - i,
        {
            let ghost prev_st = self@;
            let ghost prev_ev = event_views(events@);
            let done = self.apply_choice(&chunk.choices[i], &mut events);
            proof {
                assert(cs[i as int] == chunk.choices@[i as int]@);
                let (s2, e2, d2) = step_choice(prev_st, cs[i as int]);
                assert(step_choices(st1, cs, (i + 1) as nat) == (s2, prev_ev + e2, d2));
            }
            if done {
                proof {
                    assert(cs.len() == chunk.choices@.len());
                    lemma_step_choices_done(st1, cs, (i + 1) as nat, cs.len());
                    assert(step_choices(st1, cs, cs.len()) == (self@, event_views(events@), true));
                }
                return (events, true);
            }
            i += 1;
        }
        (events, false)
    }
}

/// The client's settings: where requests go and with which key.
pub struct OpenAiClient {
    pub base_url: String,
    pub api_key: String,
}

impl OpenAiClient {
    /// The settings from the configured key and base URL: the key must be
    /// set and not empty; the URL defaults to OpenAI's and loses its
    /// trailing slashes.
    pub fn new(api_key: Option<&str>, base_url: Option<&str>) -> (r: Result<OpenAiClient, String>)
        ensures
            match api_key {
                Some(k) if k@.len() > 0 => r matches Ok(c) && c.api_key@ == k@ && c.base_url@ == trim_end_char(
                    match base_url { Some(u) => u@, None => "https://api.openai.com/v1"@ }, '/'),
                _ => r matches Err(m) && m@ == "API Key 未配置"@,
            },
    {
        let key = match api_key {
            Some(k) => {
                if is_empty_str(k) {
                    return Err(owned("API Key 未配置"));
                }
                owned(k)
            },
            None => return Err(owned("API Key 未配置")),
        };
        let base = match base_url {
            Some(u) => trim_end_matches_char(u, '/'),
            None => trim_end_matches_char("https://api.openai.com/v1", '/'),
        };
        Ok(OpenAiClient { base_url: base, api_key: key })
    }

    /// Where chat completions are posted.
    pub fn chat_url(&self) -> (r: String)
        ensures
            r@ == self.base_url@ + "/chat/completions"@,
    {
        concat2(self.base_url.as_str(), "/chat/completions")
    }
}


/// A message of the conversation.
pub struct ChatMessage {
    pub role: String,
    pub content: Option<String>,
    pub tool_calls: Option<Vec<ToolCall>>,
    pub tool_call_id: Option<String>,
    pub name: Option<String>,
}

pub struct ChatMessageView {
    pub role: Seq<char>,
    pub content: Option<Seq<char>>,
    pub tool_calls: Option<Seq<ToolCallView>>,
    pub tool_call_id: Option<Seq<char>>,
    pub name: Option<Seq<char>>,
}

impl View for ChatMessage {
    type V = ChatMessageView;

    open spec fn view(&self) -> ChatMessageView {
        ChatMessageView {
            role: self.role@,
            content: opt_view(self.content),
            tool_calls: match self.tool_calls {
                Some(v) => Some(call_views(v@)),
                None => None,
            },
            tool_call_id: opt_view(self.tool_call_id),
            name: opt_view(self.name),
        }
    }
}

pub open spec fn message_views(v: Seq<ChatMessage>) -> Seq<ChatMessageView> {
    v.map_values(|m: ChatMessage| m@)
}

impl ChatMessage {
    /// A message of the given role with only text.
    pub fn text(role: &str, content: String) -> (r: ChatMessage)
        ensures
            r@ == (ChatMessageView { role: role@, content: Some(content@), tool_calls: None, tool_call_id: None, name: None }),
    {
        ChatMessage { role: owned(role), content: Some(content), tool_calls: None, tool_call_id: None, name: None }
    }

    pub fn system(content: String) -> (r: ChatMessage)
        ensures
            r@ == (ChatMessageView { role: "system"@, content: Some(content@), tool_calls: None, tool_call_id: None, name: None }),
    {
        ChatMessage::text("system", content)
    }

    pub fn user(content: String) -> (r: ChatMessage)
        ensures
            r@ == (ChatMessageView { role: "user"@, content: Some(content@), tool_calls: None, tool_call_id: None, name: None }),
    {
        ChatMessage::text("user", content)
    }

    /// A tool's answer to the call `id`.
    pub fn tool_result(id: &str, content: String) -> (r: ChatMessage)
        ensures
            r@ == (ChatMessageView { role: "tool"@, content: Some(content@), tool_calls: None, tool_call_id: Some(id@), name: None }),
    {
        ChatMessage { role: owned("tool"), content: Some(content), tool_calls: None, tool_call_id: Some(owned(id)), name: None }
    }

    /// The assistant's answer as it enters the conversation.
    pub fn assistant(content: Option<String>, tool_calls: Option<Vec<ToolCall>>) -> (r: ChatMessage)
        ensures
            r@.role == "assistant"@,
            r@.content == opt_view(content),
            r@.tool_calls == match tool_calls { Some(v) => Some(call_views(v@)), None => None },
            r@.tool_call_id is None,
            r@.name is None,
    {
        ChatMessage { role: owned("assistant"), content, tool_calls, tool_call_id: None, name: None }
    }

    /// A copy of the message.
    pub fn copy(&self) -> (r: ChatMessage)
        ensures
            r@ == self@,
    {
        ChatMessage {
            role: copy_string(&self.role),
            content: copy_opt(&self.content),
            tool_calls: match &self.tool_calls {
                Some(v) => Some(copy_calls(v)),
                None => None,
            },
            tool_call_id: copy_opt(&self.tool_call_id),
            name: copy_opt(&self.name),
        }
    }
}

} // verus!
