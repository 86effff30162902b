//! The command line's decisions: the one-shot task, whether to start the
//! installer, and the permission mode that the flags and the managed policy
//! allow. Parsing the arguments is the application's part.
use vstd::prelude::*;
use crate::permissions::mode::{mode_from_word, PermissionMode};
use crate::config::Config;
use crate::text::{concat3, join, join_seq, lowercase, owned, replace_seq, views};
use crate::ui::theme::Theme;
use crate::ui::terminal::{lemma_shows3, lemma_shows_plain, shows};

verus! {

/// `onemini skills ...`.
pub enum SkillsAction {
    /// List the installed and built-in skills.
    List,
    /// Show the catalogue of installable skills.
    Catalog,
    /// Install skills (ids or the `docs` / `design` groups).
    Install { ids: Vec<String> },
    /// Show a skill's `SKILL.md`.
    Show { name: String },
}

/// The flags of the command line that its decisions read.
pub struct CliOptions {
    /// `-p`: a one-shot task.
    pub prompt: Option<String>,
    /// The words of a task given as arguments.
    pub task: Vec<String>,
    pub resume: bool,
    /// Whether `-C` was given.
    pub directory_given: bool,
    pub model: Option<String>,
    pub base_url: Option<String>,
    pub api_key: Option<String>,
    pub max_rounds: u32,
    pub dangerously_skip_permissions: bool,
    pub permission_mode: Option<String>,
    pub yes: bool,
    pub worktree_delegate: bool,
    pub output_json: bool,
    /// Whether a subcommand was given.
    pub command_given: bool,
}

impl CliOptions {
    /// The one-shot task: `-p`, else the task words joined by spaces.
    pub fn one_shot_prompt(&self) -> (r: Option<String>)
        ensures
            match self.prompt {
                Some(p) => r matches Some(x) && x@ == p@,
                None => if self.task@.len() == 0 { r is None } else {
                    r matches Some(x) && x@ == join_seq(views(self.task@), " "@)
                },
            },
    {
        match &self.prompt {
            Some(p) => Some(owned(p.as_str())),
            None => {
                if self.task.len() == 0 {
                    None
                } else {
                    Some(join(&self.task, " "))
                }
            },
        }
    }

    /// Whether a bare start (no subcommand, task, resume or flag) opens the
    /// installer; `auto_install` says whether this binary runs from outside
    /// its install location.
    pub fn should_trigger_installer_mode(&self, auto_install: bool) -> (r: bool)
        ensures
            r == (!self.command_given
                && self.prompt is None && self.task@.len() == 0
                && !self.resume
                && !self.directory_given && self.model is None && self.base_url is None
                && self.api_key is None && self.permission_mode is None
                && !self.dangerously_skip_permissions && !self.yes && !self.worktree_delegate
                && !self.output_json
                && auto_install),
    {
        if self.command_given {
            return false;
        }
        if self.one_shot_prompt().is_some() {
            return false;
        }
        if self.resume {
            return false;
        }
        if self.directory_given || self.model.is_some() || self.base_url.is_some() || self.api_key.is_some()
            || self.permission_mode.is_some() || self.dangerously_skip_permissions || self.yes
            || self.worktree_delegate || self.output_json
        {
            return false;
        }
        auto_install
    }

    /// The permission mode of the session: bypass for the dangerous flag
    /// (unless the policy forbids it), else the named mode (which must parse,
    /// and must not be `auto` where the policy forbids it), else the default.
    pub fn permission_mode(&self, disable_bypass: bool, disable_auto: bool) -> (r: Result<PermissionMode, String>)
        ensures
            self.dangerously_skip_permissions && disable_bypass
                ==> (r matches Err(e) && e@ == "托管策略已禁用 --dangerously-skip-permissions"@),
            self.dangerously_skip_permissions && !disable_bypass ==> r == Ok::<PermissionMode, String>(PermissionMode::Bypass),
            !self.dangerously_skip_permissions ==> match self.permission_mode {
                None => r == Ok::<PermissionMode, String>(PermissionMode::Default),
                Some(m) => {
                    let w = replace_seq(lowercase(m@), "_"@, "-"@);
                    match mode_from_word(w) {
                        None => r matches Err(e) && e@ == "未知权限模式: "@ + w,
                        Some(mode) => if mode == PermissionMode::Auto && disable_auto {
                            r matches Err(e) && e@ == "托管策略已禁用 auto 权限模式"@
                        } else {
                            r == Ok::<PermissionMode, String>(mode)
                        },
                    }
                },
            },
    {
        if self.dangerously_skip_permissions {
            if disable_bypass {
                return Err(owned("托管策略已禁用 --dangerously-skip-permissions"));
            }
            return Ok(PermissionMode::Bypass);
        }
        let mode = match &self.permission_mode {
            Some(m) => match PermissionMode::parse_name(m.as_str()) {
                Ok(x) => x,
                Err(e) => return Err(e),
            },
            None => PermissionMode::Default,
        };
        if mode == PermissionMode::Auto && disable_auto {
            return Err(owned("托管策略已禁用 auto 权限模式"));
        }
        Ok(mode)
    }
}

/// The error of a start without an API key where no wizard can run.
pub fn missing_key_message(t: &Theme) -> (r: String)
    ensures
        !t.colors ==> r@ == "未配置 API 密钥。"@ + ("请运行 "@ + "onemini config setup"@ + " 或再次执行 "@ + "onemini"@ + " 进入配置向导"@)
            + "\n也可设置环境变量 ONEMINI_API_KEY，或使用 "@ + "--api-key <密钥>"@ + " 临时指定"@,
        shows(
            r@,
            "未配置 API 密钥。"@ + ("请运行 "@ + "onemini config setup"@ + " 或再次执行 "@ + "onemini"@ + " 进入配置向导"@)
                + "\n也可设置环境变量 ONEMINI_API_KEY，或使用 "@ + "--api-key <密钥>"@ + " 临时指定"@,
        ),
{
    let hint = Config::setup_hint(t);
    let mut s = concat3("未配置 API 密钥。", hint.as_str(), "\n也可设置环境变量 ONEMINI_API_KEY，或使用 ");
    s.append("--api-key <密钥>");
    s.append(" 临时指定");
    proof {
        reveal_strlit("未配置 API 密钥。");
        lemma_shows_plain("未配置 API 密钥。"@);
        reveal_strlit("\n也可设置环境变量 ONEMINI_API_KEY，或使用 ");
        lemma_shows_plain("\n也可设置环境变量 ONEMINI_API_KEY，或使用 "@);
        reveal_strlit("--api-key <密钥>");
        lemma_shows_plain("--api-key <密钥>"@);
        reveal_strlit(" 临时指定");
        lemma_shows_plain(" 临时指定"@);
        let h = "请运行 "@ + "onemini config setup"@ + " 或再次执行 "@ + "onemini"@ + " 进入配置向导"@;
        let e = "\n也可设置环境变量 ONEMINI_API_KEY，或使用 "@;
        lemma_shows3("未配置 API 密钥。"@, "未配置 API 密钥。"@, hint@, h, e, e);
        lemma_shows3(
            "未配置 API 密钥。"@ + hint@ + e,
            "未配置 API 密钥。"@ + h + e,
            "--api-key <密钥>"@,
            "--api-key <密钥>"@,
            " 临时指定"@,
            " 临时指定"@,
        );
    }
    s
}

} // verus!
