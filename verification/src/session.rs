//! What a saved session keeps of the conversation. Encrypting and writing
//! the file are the application's part.
use vstd::prelude::*;
use crate::agent::task::TaskState;
use crate::llm::{message_views, ChatMessage, ChatMessageView};
use crate::text::{concat2, decimal, decimal_string, owned, str_eq};
use crate::tools::files::{join_path, join_path_exec};

verus! {

/// Messages kept in a saved session at most.
pub const MAX_SAVED_MESSAGES: usize = 80;

/// The messages a session keeps: all of them up to the limit; beyond it the
/// last 79, after the system message where the conversation starts with one.
pub open spec fn trimmed_spec(m: Seq<ChatMessageView>) -> Seq<ChatMessageView> {
    if m.len() <= 80 {
        m
    } else {
        let tail = m.skip(m.len() - 79);
        if m[0].role == "system"@ { seq![m[0]] + tail } else { tail }
    }
}

/// Trims the messages of a session before it is saved.
pub fn trim_messages(messages: &Vec<ChatMessage>) -> (r: Vec<ChatMessage>)
    ensures
        message_views(r@) == trimmed_spec(message_views(messages@)),
{
    let n = messages.len();
    let mut out: Vec<ChatMessage> = Vec::new();
    let start: usize = if n <= MAX_SAVED_MESSAGES { 0 } else { n - (MAX_SAVED_MESSAGES - 1) };
    let ghost mv = message_views(messages@);
    if n > MAX_SAVED_MESSAGES && str_eq(messages[0].role.as_str(), "system") {
        let first = messages[0].copy();
        out.push(first);
    }
    let ghost head = message_views(out@);
    let mut i: usize = start;
    while i < n
        invariant
            start <= i <= n,
            n == messages@.len(),
            mv == message_views(messages@),
            message_views(out@) == head + mv.subrange(start as int, i as int),
        decreases n - i,
    {
        let m = messages[i].copy();
        proof {
            assert(message_views(out@.push(m)) =~= message_views(out@).push(m@));
            assert(mv.subrange(start as int, i + 1) =~= mv.subrange(start as int, i as int).push(mv[i as int]));
        }
        out.push(m);
        i += 1;
    }
    proof {
        if n <= 80 {
            assert(mv.subrange(0, n as int) =~= mv);
            assert(head =~= Seq::<ChatMessageView>::empty());
        } else {
            assert(mv.subrange(start as int, n as int) =~= mv.skip(n - 79));
            assert(mv[0] == messages@[0]@);
        }
    }
    out
}


/// A saved session keeps at most 80 messages, keeps the system message that
/// starts a conversation, and trimming what was kept changes nothing.
pub proof fn lemma_trim_keeps_system_and_is_stable(m: Seq<ChatMessageView>)
    ensures
        trimmed_spec(m).len() <= 80,
        m.len() > 0 && m[0].role == "system"@ ==> trimmed_spec(m).len() > 0 && trimmed_spec(m)[0] == m[0],
        trimmed_spec(trimmed_spec(m)) == trimmed_spec(m),
{
    if m.len() > 80 {
        let tail = m.skip(m.len() - 79);
        assert(tail.len() == 79);
    }
}

/// A saved session: the working directory it belongs to, the trimmed
/// conversation, the task state and when it was written.
pub struct PersistedSession {
    pub workdir: String,
    pub messages: Vec<ChatMessage>,
    pub task_state: TaskState,
    pub updated_at: String,
}

/// Where the saved session lives.
pub struct SessionStore {
    /// The encrypted file (`latest.json.enc`).
    pub enc_path: String,
    /// The plain file of earlier versions (`latest.json`), migrated on load.
    pub plain_path: String,
}

/// What loading finds to do.
#[derive(Clone, Copy, Debug, PartialEq, Eq, Structural)]
pub enum LoadStep {
    /// Decrypt and read the encrypted file.
    ReadEncrypted,
    /// Read the plain file, save it encrypted and remove it.
    MigratePlain,
    /// There is no saved session.
    Nothing,
}

impl SessionStore {
    /// The store under the configuration directory.
    pub fn new(config_dir: &str) -> (r: SessionStore)
        ensures
            r.enc_path@ == join_path(config_dir@, "latest.json.enc"@),
            r.plain_path@ == join_path(config_dir@, "latest.json"@),
    {
        SessionStore {
            enc_path: join_path_exec(config_dir, "latest.json.enc"),
            plain_path: join_path_exec(config_dir, "latest.json"),
        }
    }

    /// The encrypted file wins; a plain file alone is migrated.
    pub fn load_step(enc_exists: bool, plain_exists: bool) -> (r: LoadStep)
        ensures
            enc_exists ==> r == LoadStep::ReadEncrypted,
            !enc_exists && plain_exists ==> r == LoadStep::MigratePlain,
            !enc_exists && !plain_exists ==> r == LoadStep::Nothing,
    {
        if enc_exists {
            LoadStep::ReadEncrypted
        } else if plain_exists {
            LoadStep::MigratePlain
        } else {
            LoadStep::Nothing
        }
    }

    /// What is saved of a conversation, stamped `unix:<seconds>`.
    pub fn snapshot(workdir: &str, messages: &Vec<ChatMessage>, task_state: TaskState, unix_secs: usize) -> (r: PersistedSession)
        ensures
            r.workdir@ == workdir@,
            message_views(r.messages@) == trimmed_spec(message_views(messages@)),
            r.task_state == task_state,
            r.updated_at@ == "unix:"@ + decimal(unix_secs as nat),
    {
        PersistedSession {
            workdir: owned(workdir),
            messages: trim_messages(messages),
            task_state,
            updated_at: concat2("unix:", decimal_string(unix_secs).as_str()),
        }
    }
}

/// On resume, a saved session is taken up only in the directory it was saved in.
pub fn resumed(saved: Option<PersistedSession>, workdir: &str) -> (r: Option<PersistedSession>)
    ensures
        match saved {
            Some(s) => if s.workdir@ == workdir@ { r == Some(s) } else { r is None },
            None => r is None,
        },
{
    match saved {
        Some(s) => {
            if str_eq(s.workdir.as_str(), workdir) {
                Some(s)
            } else {
                None
            }
        },
        None => None,
    }
}

} // verus!
