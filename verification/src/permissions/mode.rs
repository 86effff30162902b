//! Permission modes selectable at start-up or with `/mode`.
use vstd::prelude::*;
use crate::text::{concat2, concat3, lowercase, replace, replace_seq, str_eq, to_lower};

verus! {

/// How much the agent may do without asking.
#[derive(Debug, Clone, Copy, PartialEq, Eq, Structural)]
pub enum PermissionMode {
    Default,
    Plan,
    AcceptEdits,
    Auto,
    DontAsk,
    Bypass,
}

impl Default for PermissionMode {
    fn default() -> (r: Self)
        ensures
            r == PermissionMode::Default,
    {
        PermissionMode::Default
    }
}

/// The label of a mode.
pub open spec fn mode_label(m: PermissionMode) -> Seq<char> {
    match m {
        PermissionMode::Default => "default"@,
        PermissionMode::Plan => "plan"@,
        PermissionMode::AcceptEdits => "accept-edits"@,
        PermissionMode::Auto => "auto"@,
        PermissionMode::DontAsk => "dont-ask"@,
        PermissionMode::Bypass => "bypass"@,
    }
}

/// The one-line description of a mode.
pub open spec fn mode_description(m: PermissionMode) -> Seq<char> {
    match m {
        PermissionMode::Default => "变更类工具需确认"@,
        PermissionMode::Plan => "只读：仅 read / grep / glob / fetch"@,
        PermissionMode::AcceptEdits => "工作区内 write/edit 与安全 bash 自动放行"@,
        PermissionMode::Auto => "启发式分类器自动判断"@,
        PermissionMode::DontAsk => "未匹配 allow 规则则拒绝"@,
        PermissionMode::Bypass => "跳过所有确认（仅隔离环境）"@,
    }
}

/// The mode named by a lowercased, `_`-to-`-` normalised word, if any.
pub open spec fn mode_from_word(w: Seq<char>) -> Option<PermissionMode> {
    if w == "default"@ {
        Some(PermissionMode::Default)
    } else if w == "plan"@ {
        Some(PermissionMode::Plan)
    } else if w == "accept-edits"@ || w == "acceptedits"@ {
        Some(PermissionMode::AcceptEdits)
    } else if w == "auto"@ {
        Some(PermissionMode::Auto)
    } else if w == "dont-ask"@ || w == "dontask"@ {
        Some(PermissionMode::DontAsk)
    } else if w == "bypass"@ || w == "bypass-permissions"@ {
        Some(PermissionMode::Bypass)
    } else {
        None
    }
}

impl PermissionMode {
    pub fn label(self) -> (r: &'static str)
        ensures
            r@ == mode_label(self),
    {
        match self {
            PermissionMode::Default => "default",
            PermissionMode::Plan => "plan",
            PermissionMode::AcceptEdits => "accept-edits",
            PermissionMode::Auto => "auto",
            PermissionMode::DontAsk => "dont-ask",
            PermissionMode::Bypass => "bypass",
        }
    }

    /// Modes offered by `/mode` in the REPL (never dont-ask or bypass).
    pub fn repl_choices(disable_auto: bool) -> (r: Vec<PermissionMode>)
        ensures
            disable_auto ==> r@ == seq![
                PermissionMode::Default,
                PermissionMode::Plan,
                PermissionMode::AcceptEdits,
            ],
            !disable_auto ==> r@ == seq![
                PermissionMode::Default,
                PermissionMode::Plan,
                PermissionMode::AcceptEdits,
                PermissionMode::Auto,
            ],
    {
        let mut r = Vec::new();
        r.push(PermissionMode::Default);
        r.push(PermissionMode::Plan);
        r.push(PermissionMode::AcceptEdits);
        if !disable_auto {
            r.push(PermissionMode::Auto);
        }
        r
    }

    pub fn description(self) -> (r: &'static str)
        ensures
            r@ == mode_description(self),
    {
        match self {
            PermissionMode::Default => "变更类工具需确认",
            PermissionMode::Plan => "只读：仅 read / grep / glob / fetch",
            PermissionMode::AcceptEdits => "工作区内 write/edit 与安全 bash 自动放行",
            PermissionMode::Auto => "启发式分类器自动判断",
            PermissionMode::DontAsk => "未匹配 allow 规则则拒绝",
            PermissionMode::Bypass => "跳过所有确认（仅隔离环境）",
        }
    }

    /// `label  —  description`, as shown in the selection list.
    pub fn select_label(self) -> (r: String)
        ensures
            r@ == mode_label(self) + "  —  "@ + mode_description(self),
    {
        concat3(self.label(), "  —  ", self.description())
    }

    pub fn is_readonly(self) -> (r: bool)
        ensures
            r == (self == PermissionMode::Plan),
    {
        self == PermissionMode::Plan
    }

    /// Parses a mode name: case-insensitive, `_` accepted for `-`;
    /// an unknown name is answered with `未知权限模式: <normalised name>`.
    pub fn parse_name(s: &str) -> (r: Result<PermissionMode, String>)
        ensures
            ({
                let w = replace_seq(lowercase(s@), "_"@, "-"@);
                &&& r matches Ok(m) ==> mode_from_word(w) == Some(m)
                &&& r matches Err(e) ==> mode_from_word(w) is None && e@ == "未知权限模式: "@ + w
                &&& mode_from_word(w) is Some ==> r is Ok
            }),
    {
        let lower = to_lower(s);
        let w = replace(lower.as_str(), "_", "-");
        let ws = w.as_str();
        if str_eq(ws, "default") {
            Ok(PermissionMode::Default)
        } else if str_eq(ws, "plan") {
            Ok(PermissionMode::Plan)
        } else if str_eq(ws, "accept-edits") || str_eq(ws, "acceptedits") {
            Ok(PermissionMode::AcceptEdits)
        } else if str_eq(ws, "auto") {
            Ok(PermissionMode::Auto)
        } else if str_eq(ws, "dont-ask") || str_eq(ws, "dontask") {
            Ok(PermissionMode::DontAsk)
        } else if str_eq(ws, "bypass") || str_eq(ws, "bypass-permissions") {
            Ok(PermissionMode::Bypass)
        } else {
            Err(concat2("未知权限模式: ", ws))
        }
    }
}

impl std::str::FromStr for PermissionMode {
    type Err = String;

    fn from_str(s: &str) -> Result<Self, Self::Err> {
        PermissionMode::parse_name(s)
    }
}

} // verus!
