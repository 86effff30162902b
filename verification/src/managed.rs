//! The managed (administrator) policy.
use vstd::prelude::*;
use crate::permissions::rules::{bash_rules, rule_views, tool_rules, PermissionRulesFile, RuleEffect};
use crate::text::{is_empty_str, owned, str_eq, trim, trim_seq};

verus! {

/// What an administrator's policy file sets.
pub struct ManagedSettings {
    pub disable_bypass_permissions: bool,
    /// The auto permission mode may not be chosen.
    pub disable_auto_mode: bool,
    pub allow_managed_rules_only: bool,
    pub allow_managed_hooks_only: bool,
    pub rules: PermissionRulesFile,
    pub hook_fail_open: bool,
    /// The file the policy was read from.
    pub source: Option<String>,
}

impl ManagedSettings {
    /// No policy: nothing restricted, no rules.
    pub fn none() -> (r: ManagedSettings)
        ensures
            !r.disable_bypass_permissions,
            !r.disable_auto_mode,
            !r.allow_managed_rules_only,
            !r.allow_managed_hooks_only,
            !r.hook_fail_open,
            r.source is None,
            r.rules.rules@.len() == 0,
            r.rules.always_allow@.len() == 0,
            r.rules.always_deny@.len() == 0,
            r.rules.bash_allow_patterns@.len() == 0,
            r.rules.bash_deny_patterns@.len() == 0,
    {
        ManagedSettings {
            disable_bypass_permissions: false,
            disable_auto_mode: false,
            allow_managed_rules_only: false,
            allow_managed_hooks_only: false,
            rules: PermissionRulesFile::with_rules(Vec::new()),
            hook_fail_open: false,
            source: None,
        }
    }
}

/// Where the policy file is looked for: `ONEMINI_MANAGED_SETTINGS` when it
/// holds more than whitespace, else the system location of the platform.
pub open spec fn managed_path_spec(env_value: Option<Seq<char>>, os: Seq<char>) -> Option<Seq<char>> {
    match env_value {
        Some(v) if trim_seq(v).len() > 0 => Some(v),
        _ => if os == "macos"@ {
            Some("/Library/Application Support/onemini/managed.toml"@)
        } else if os == "linux"@ {
            Some("/etc/onemini/managed.toml"@)
        } else if os == "windows"@ {
            Some("C:\\ProgramData\\onemini\\managed.toml"@)
        } else {
            None
        },
    }
}

/// The policy file's path, from the environment variable's value and the
/// operating system's name (`std::env::consts::OS`).
pub fn managed_settings_path(env_value: Option<&str>, os: &str) -> (r: Option<String>)
    ensures
        match r {
            Some(p) => managed_path_spec(
                match env_value { Some(v) => Some(v@), None => None },
                os@,
            ) == Some(p@),
            None => managed_path_spec(match env_value { Some(v) => Some(v@), None => None }, os@) is None,
        },
{
    if let Some(v) = env_value {
        if !is_empty_str(trim(v).as_str()) {
            return Some(owned(v));
        }
    }
    if str_eq(os, "macos") {
        Some(owned("/Library/Application Support/onemini/managed.toml"))
    } else if str_eq(os, "linux") {
        Some(owned("/etc/onemini/managed.toml"))
    } else if str_eq(os, "windows") {
        Some(owned("C:\\ProgramData\\onemini\\managed.toml"))
    } else {
        None
    }
}

impl ManagedSettings {
    /// The policy read from `source`: its switches as written, and its legacy
    /// rule lists moved into rules.
    pub fn from_file(
        disable_bypass_permissions: bool,
        disable_auto_mode: bool,
        allow_managed_rules_only: bool,
        allow_managed_hooks_only: bool,
        hook_fail_open: bool,
        rules: PermissionRulesFile,
        source: String,
    ) -> (r: ManagedSettings)
        ensures
            r.disable_bypass_permissions == disable_bypass_permissions,
            r.disable_auto_mode == disable_auto_mode,
            r.allow_managed_rules_only == allow_managed_rules_only,
            r.allow_managed_hooks_only == allow_managed_hooks_only,
            r.hook_fail_open == hook_fail_open,
            r.source matches Some(s) && s@ == source@,
            rule_views(r.rules.rules@) == rule_views(rules.rules@) + tool_rules(
                RuleEffect::Deny,
                rules.always_deny@,
            ) + tool_rules(RuleEffect::Allow, rules.always_allow@) + bash_rules(
                RuleEffect::Deny,
                rules.bash_deny_patterns@,
            ) + bash_rules(RuleEffect::Allow, rules.bash_allow_patterns@),
            r.rules.always_allow@.len() == 0,
            r.rules.always_deny@.len() == 0,
            r.rules.bash_allow_patterns@.len() == 0,
            r.rules.bash_deny_patterns@.len() == 0,
    {
        let mut rules = rules;
        rules.migrate_legacy();
        ManagedSettings {
            disable_bypass_permissions,
            disable_auto_mode,
            allow_managed_rules_only,
            allow_managed_hooks_only,
            rules,
            hook_fail_open,
            source: Some(source),
        }
    }
}

} // verus!
