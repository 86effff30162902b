//! The interactive loop's commands: what a `/` line asks for. Carrying it
//! out (prompts, the model, files) is the application's part.
use vstd::prelude::*;
use crate::permissions::mode::{mode_from_word, mode_label, PermissionMode};
use crate::skills::{Skill, SkillRegistry};
use crate::text::{
    concat2, concat3, join, join_seq, lowercase, owned, replace_seq, split_whitespace, str_eq,
    trim_seq, trim, trim_start_matches, trim_start_str, views, words,
};
use crate::ui::table::{header_views, render_table, row_views, table_text};
use crate::ui::theme::{primary, Theme, ThemeId};
use crate::ui::terminal::{lemma_shows_plain, shows};

verus! {

/// What a `/` line asks for.
#[derive(Debug, Clone, PartialEq, Eq)]
pub enum SlashAction {
    /// An empty line.
    Nothing,
    Exit,
    Help,
    SkillsList,
    /// Choose a skill (optionally named) and run it.
    SkillsSelect(Option<String>),
    Plan,
    Status,
    Retry,
    Compact,
    Mode(Option<String>),
    Model(Option<String>),
    Reasoning(Option<String>),
    Theme(Option<String>),
    Permissions,
    Rollback,
    Clear,
    ConfigSetup(bool),
    ConfigShow,
    /// A skill or custom command: its name (without `/`) and the words after.
    Other(String, Vec<String>),
}

/// The word at a position, if there is one.
pub open spec fn word_at(w: Seq<Seq<char>>, i: int) -> Option<Seq<char>> {
    if 0 <= i < w.len() { Some(w[i]) } else { None }
}

pub open spec fn opt_string_view(o: Option<String>) -> Option<Seq<char>> {
    match o {
        Some(s) => Some(s@),
        None => None,
    }
}

/// Whether an action with an optional argument carries the word.
pub open spec fn arg_matches(a: Option<String>, w: Seq<Seq<char>>) -> bool {
    opt_string_view(a) == word_at(w, 1)
}

/// The action of a line, by its first word.
pub open spec fn slash_action_ok(input: Seq<char>, r: SlashAction) -> bool {
    let w = words(input);
    if w.len() == 0 {
        r == SlashAction::Nothing
    } else {
        let c = w[0];
        if c == "/exit"@ || c == "/quit"@ {
            r == SlashAction::Exit
        } else if c == "/help"@ {
            r == SlashAction::Help
        } else if c == "/skills"@ {
            if word_at(w, 1) == Some("list"@) {
                r == SlashAction::SkillsList
            } else {
                r matches SlashAction::SkillsSelect(a) && arg_matches(a, w)
            }
        } else if c == "/plan"@ {
            r == SlashAction::Plan
        } else if c == "/status"@ {
            r == SlashAction::Status
        } else if c == "/retry"@ {
            r == SlashAction::Retry
        } else if c == "/compact"@ {
            r == SlashAction::Compact
        } else if c == "/mode"@ {
            r matches SlashAction::Mode(a) && arg_matches(a, w)
        } else if c == "/model"@ {
            r matches SlashAction::Model(a) && arg_matches(a, w)
        } else if c == "/reasoning"@ {
            r matches SlashAction::Reasoning(a) && arg_matches(a, w)
        } else if c == "/theme"@ {
            r matches SlashAction::Theme(a) && arg_matches(a, w)
        } else if c == "/permissions"@ {
            r == SlashAction::Permissions
        } else if c == "/rollback"@ {
            r == SlashAction::Rollback
        } else if c == "/clear"@ {
            r == SlashAction::Clear
        } else if c == "/config"@ {
            if word_at(w, 1) == Some("setup"@) {
                r == SlashAction::ConfigSetup(word_at(w, 2) == Some("--force"@))
            } else {
                r == SlashAction::ConfigShow
            }
        } else {
            r matches SlashAction::Other(name, args) && name@ == trim_start_str(c, "/"@) && views(args@) == w.skip(1)
        }
    }
}

fn word(ws: &Vec<String>, i: usize) -> (r: Option<String>)
    ensures
        opt_string_view(r) == word_at(views(ws@), i as int),
{
    if i < ws.len() {
        Some(owned(ws[i].as_str()))
    } else {
        None
    }
}

fn word_is(ws: &Vec<String>, i: usize, s: &str) -> (r: bool)
    ensures
        r == (word_at(views(ws@), i as int) == Some(s@)),
{
    i < ws.len() && str_eq(ws[i].as_str(), s)
}

/// Reads a `/` line.
pub fn parse_slash_command(input: &str) -> (r: SlashAction)
    ensures
        slash_action_ok(input@, r),
{
    let ws = split_whitespace(input);
    if ws.len() == 0 {
        return SlashAction::Nothing;
    }
    let c = ws[0].as_str();
    if str_eq(c, "/exit") || str_eq(c, "/quit") {
        SlashAction::Exit
    } else if str_eq(c, "/help") {
        SlashAction::Help
    } else if str_eq(c, "/skills") {
        if word_is(&ws, 1, "list") {
            SlashAction::SkillsList
        } else {
            SlashAction::SkillsSelect(word(&ws, 1))
        }
    } else if str_eq(c, "/plan") {
        SlashAction::Plan
    } else if str_eq(c, "/status") {
        SlashAction::Status
    } else if str_eq(c, "/retry") {
        SlashAction::Retry
    } else if str_eq(c, "/compact") {
        SlashAction::Compact
    } else if str_eq(c, "/mode") {
        SlashAction::Mode(word(&ws, 1))
    } else if str_eq(c, "/model") {
        SlashAction::Model(word(&ws, 1))
    } else if str_eq(c, "/reasoning") {
        SlashAction::Reasoning(word(&ws, 1))
    } else if str_eq(c, "/theme") {
        SlashAction::Theme(word(&ws, 1))
    } else if str_eq(c, "/permissions") {
        SlashAction::Permissions
    } else if str_eq(c, "/rollback") {
        SlashAction::Rollback
    } else if str_eq(c, "/clear") {
        SlashAction::Clear
    } else if str_eq(c, "/config") {
        if word_is(&ws, 1, "setup") {
            SlashAction::ConfigSetup(word_is(&ws, 2, "--force"))
        } else {
            SlashAction::ConfigShow
        }
    } else {
        let name = trim_start_matches(c, "/");
        let mut args: Vec<String> = Vec::new();
        let mut i: usize = 1;
        while i < ws.len()
            invariant
                1 <= i <= ws@.len(),
                views(args@) == views(ws@).subrange(1, i as int),
            decreases ws.len() - i,
        {
            let ghost before = args@;
            let s = owned(ws[i].as_str());
            args.push(s);
            proof {
                crate::text::lemma_views_push(before, s);
                assert(views(ws@).subrange(1, i + 1) =~= views(ws@).subrange(1, i as int).push(ws@[i as int]@));
            }
            i += 1;
        }
        proof {
            assert(views(ws@).subrange(1, i as int) =~= views(ws@).skip(1));
        }
        SlashAction::Other(name, args)
    }
}

/// The prompt of a custom command: its text, then the words after the
/// command if there are any.
pub fn custom_command_prompt(prompt: &str, args: &Vec<String>) -> (r: String)
    ensures
        args@.len() == 0 ==> r@ == prompt@,
        args@.len() > 0 ==> r@ == prompt@ + " "@ + join_seq(views(args@), " "@),
{
    if args.len() == 0 {
        return owned(prompt);
    }
    let rest = join(args, " ");
    crate::text::concat3(prompt, " ", rest.as_str())
}

/// The message for an unknown command.
pub fn unknown_command_message(cmd: &str) -> (r: String)
    ensures
        r@ == "未知命令: "@ + cmd@ + "，输入 /help 查看帮助"@,
{
    crate::text::concat3("未知命令: ", cmd, "，输入 /help 查看帮助")
}


/// The outcome of `/mode <name>`.
#[derive(Debug, Clone, PartialEq, Eq)]
pub enum ModeArg {
    /// A mode offered here.
    Chosen(PermissionMode),
    /// A real mode that is not offered (the warning to show).
    Unavailable(String),
    /// Not a mode (the error to show).
    Invalid(String),
}

pub open spec fn mode_labels(v: Seq<PermissionMode>) -> Seq<Seq<char>> {
    v.map_values(|m: PermissionMode| mode_label(m))
}

/// Reads `/mode <name>` against the modes offered.
pub fn mode_from_arg(name: &str, choices: &Vec<PermissionMode>) -> (r: ModeArg)
    ensures
        ({
            let w = replace_seq(lowercase(name@), "_"@, "-"@);
            match mode_from_word(w) {
                None => r matches ModeArg::Invalid(e) && e@ == "未知权限模式: "@ + w,
                Some(m) => if choices@.contains(m) {
                    r == ModeArg::Chosen(m)
                } else {
                    r matches ModeArg::Unavailable(msg) && msg@ == "模式 "@ + mode_label(m)
                        + " 在当前环境不可用，可选: "@ + join_seq(mode_labels(choices@), ", "@)
                },
            }
        }),
{
    match PermissionMode::parse_name(name) {
        Err(e) => ModeArg::Invalid(e),
        Ok(mode) => {
            let ghost w = replace_seq(lowercase(name@), "_"@, "-"@);
            let mut i: usize = 0;
            while i < choices.len()
                invariant
                    i <= choices@.len(),
                    mode_from_word(w) == Some(mode),
                    w == replace_seq(lowercase(name@), "_"@, "-"@),
                    forall|k: int| 0 <= k < i ==> choices@[k] != mode,
                decreases choices.len() - i,
            {
                if choices[i] == mode {
                    proof {
                        assert(choices@[i as int] == mode);
                        assert(choices@.contains(mode));
                    }
                    return ModeArg::Chosen(mode);
                }
                i += 1;
            }
            proof {
                assert(!choices@.contains(mode)) by {
                    if choices@.contains(mode) {
                        let j = choose|j: int| 0 <= j < choices@.len() && choices@[j] == mode;
                        assert(choices@[j] != mode);
                    }
                }
            }
            let mut labels: Vec<String> = Vec::new();
            let mut k: usize = 0;
            while k < choices.len()
                invariant
                    k <= choices@.len(),
                    views(labels@) == mode_labels(choices@).take(k as int),
                decreases choices.len() - k,
            {
                let l = owned(choices[k].label());
                proof {
                    crate::text::lemma_views_push(labels@, l);
                    assert(mode_labels(choices@).take(k + 1) =~= mode_labels(choices@).take(k as int).push(mode_label(choices@[k as int])));
                }
                labels.push(l);
                k += 1;
            }
            proof {
                assert(mode_labels(choices@).take(choices@.len() as int) =~= mode_labels(choices@));
            }
            let available = join(&labels, ", ");
            let mut msg = concat3("模式 ", mode.label(), " 在当前环境不可用，可选: ");
            msg.append(available.as_str());
            ModeArg::Unavailable(msg)
        },
    }
}

/// The menu entry chosen first: the current mode's, or the first.
pub fn mode_default_index(choices: &Vec<PermissionMode>, current: PermissionMode) -> (r: usize)
    ensures
        (r < choices@.len() && choices@[r as int] == current && forall|j: int| 0 <= j < r ==> choices@[j] != current)
            || (r == 0 && !choices@.contains(current)),
{
    let mut i: usize = 0;
    while i < choices.len()
        invariant
            i <= choices@.len(),
            forall|j: int| 0 <= j < i ==> choices@[j] != current,
        decreases choices.len() - i,
    {
        if choices[i] == current {
            return i;
        }
        i += 1;
    }
    proof {
        assert(!choices@.contains(current)) by {
            if choices@.contains(current) {
                let j = choose|j: int| 0 <= j < choices@.len() && choices@[j] == current;
                assert(choices@[j] != current);
            }
        }
    }
    0
}

/// The report after choosing a mode: unchanged, or switched.
pub fn mode_switch_message(current: PermissionMode, selected: PermissionMode) -> (r: String)
    ensures
        selected == current ==> r@ == "当前权限模式: "@ + mode_label(current),
        selected != current ==> r@ == "权限模式已切换为: "@ + mode_label(selected),
{
    if selected == current {
        concat2("当前权限模式: ", current.label())
    } else {
        concat2("权限模式已切换为: ", selected.label())
    }
}

/// A skill's entry in the skill menu.
pub fn skill_menu_label(s: &Skill) -> (r: String)
    ensures
        r@ == s.name@ + "  —  "@ + s.description@,
{
    concat3(s.name.as_str(), "  —  ", s.description.as_str())
}

/// The warning for a skill that is not there.
pub fn skill_not_found_message(name: &str) -> (r: String)
    ensures
        r@ == "未找到技能: "@ + name@ + "，输入 /skills list 查看"@,
{
    concat3("未找到技能: ", name, "，输入 /skills list 查看")
}

/// The rows of the skills help: `/name` and the description.
pub open spec fn help_rows(s: Seq<Skill>) -> Seq<Seq<Seq<char>>> {
    s.map_values(|k: Skill| seq!["/"@ + k.name@, k.description@])
}

impl SkillRegistry {
    /// The skills part of `/help`: a titled table of the skills, or nothing
    /// where there are none.
    pub fn format_skills_help(&self, t: &Theme) -> (r: String)
        ensures
            self.entries().len() == 0 ==> r@.len() == 0,
            self.entries().len() > 0 && !t.colors ==> r@ == "\n"@ + "Agent Skills"@ + "\n"@
                + table_text(t.id != ThemeId::Modern, seq!["命令"@, "说明"@], help_rows(self.entries())) + "\n"@,
            self.entries().len() > 0 ==> exists|title: Seq<char>|
                shows(title, "Agent Skills"@) && r@ == "\n"@ + title + "\n"@ + table_text(
                    t.id != ThemeId::Modern,
                    seq!["命令"@, "说明"@],
                    help_rows(self.entries()),
                ) + "\n"@,
    {
        if self.is_empty() {
            return String::new();
        }
        let skills = self.list();
        let mut rows: Vec<Vec<String>> = Vec::new();
        let mut i: usize = 0;
        while i < skills.len()
            invariant
                i <= skills@.len(),
                skills@.len() == self.entries().len(),
                forall|j: int| 0 <= j < skills@.len() ==> *skills@[j] == self.entries()[j],
                row_views(rows@) == help_rows(self.entries()).take(i as int),
            decreases skills.len() - i,
        {
            let row = vec![concat2("/", skills[i].name.as_str()), owned(skills[i].description.as_str())];
            proof {
                assert(views(row@) =~= seq![row@[0]@, row@[1]@]);
                assert(row_views(rows@.push(row)) =~= row_views(rows@).push(seq![row@[0]@, row@[1]@]));
                assert(help_rows(self.entries()).take(i + 1) =~= help_rows(self.entries()).take(i as int).push(seq!["/"@ + self.entries()[i as int].name@, self.entries()[i as int].description@]));
            }
            rows.push(row);
            i += 1;
        }
        proof {
            assert(help_rows(self.entries()).take(skills@.len() as int) =~= help_rows(self.entries()));
        }
        let headers: [&str; 2] = ["命令", "说明"];
        let table = render_table(t, &headers, rows.as_slice());
        let title = primary(t, "Agent Skills");
        proof {
            assert(header_views(headers@) =~= seq!["命令"@, "说明"@]);
        }
        let mut out = concat3("\n", title.as_str(), "\n");
        out.append(table.as_str());
        out.append("\n");
        proof {
            reveal_strlit("Agent Skills");
            lemma_shows_plain("Agent Skills"@);
            assert(shows(title@, "Agent Skills"@));
        }
        out
    }
}

} // verus!
