use onemini::config::{
    accept_api_key, accept_base_url, base_url_default, chosen_model, env_file_names, key_hint,
    model_default_index, model_input_default, model_menu_items, preset_label, provider_presets,
    resolve_env_name, Config, ConfigPatch,
};
use onemini::ui::theme::{Theme, ThemeId};

fn plain() -> Theme {
    Theme { id: ThemeId::Modern, colors: false }
}

#[test]
fn presets_and_labels() {
    let p = provider_presets();
    assert_eq!(p.len(), 4);
    assert_eq!(preset_label(&p[0]), "DeepSeek  (https://api.deepseek.com)");
    assert_eq!(preset_label(&p[3]), "自定义（OpenAI 兼容 API）");
    assert_eq!(model_menu_items(&p[1]), vec!["gpt-4o  —  GPT-4o", "gpt-4o-mini  —  GPT-4o Mini（更快更省）", "自定义输入..."]);
    assert_eq!(model_menu_items(&p[3]), vec!["自定义输入..."]);
}

#[test]
fn wizard_defaults() {
    let p = provider_presets();
    assert_eq!(base_url_default(&p[2], Some("x")), "https://openrouter.ai/api/v1");
    assert_eq!(base_url_default(&p[3], Some("https://my.host/v1")), "https://my.host/v1");
    assert_eq!(base_url_default(&p[3], None), "");
    assert_eq!(model_default_index(&p[0], Some("deepseek-reasoner")), 1);
    assert_eq!(model_default_index(&p[0], Some("other")), 0);
    assert_eq!(model_default_index(&p[0], None), 0);
    assert_eq!(model_input_default(&p[0], None), "deepseek-chat");
    assert_eq!(model_input_default(&p[3], None), "");
    assert_eq!(model_input_default(&p[3], Some("m")), "m");
}

#[test]
fn wizard_answers() {
    let p = provider_presets();
    assert_eq!(accept_base_url("  https://a.b  "), Ok("https://a.b".to_string()));
    assert_eq!(accept_base_url("   "), Err("API 接口地址不能为空".to_string()));
    assert_eq!(chosen_model(&p[0], 1, ""), Ok("deepseek-reasoner".to_string()));
    assert_eq!(chosen_model(&p[0], 2, " my-model "), Ok("my-model".to_string()));
    assert_eq!(chosen_model(&p[3], 0, " "), Err("模型 ID 不能为空".to_string()));
    assert_eq!(key_hint(Some("sk")), "****（已设置）");
    assert_eq!(key_hint(None), "(未设置)");
    assert_eq!(accept_api_key(Some("old"), ""), Ok("old".to_string()));
    assert_eq!(accept_api_key(Some("old"), "new"), Ok("new".to_string()));
    assert_eq!(accept_api_key(None, ""), Err("API 密钥不能为空".to_string()));
    assert_eq!(accept_api_key(Some(""), ""), Err("API 密钥不能为空".to_string()));
}

#[test]
fn defaults_patch_and_cli() {
    let mut c = Config::default();
    assert_eq!(c.model_name(), "deepseek-chat");
    assert!(c.show_reasoning());
    assert!(c.auto_git_checkpoint());
    assert_eq!(c.workdir(), ".");
    c.apply_patch(&ConfigPatch { api_key: Some("sk-1".into()), base_url: None, model: Some("gpt-4o".into()), max_tokens: Some(100) });
    assert_eq!(c.api_key.as_deref(), Some("sk-1"));
    assert_eq!(c.base_url.as_deref(), Some("https://api.deepseek.com"));
    assert_eq!(c.model_name(), "gpt-4o");
    assert_eq!(c.max_tokens, Some(100));
    c.merge_cli(None, Some("https://x"), None);
    assert_eq!(c.base_url.as_deref(), Some("https://x"));
    assert_eq!(c.model_name(), "gpt-4o");
    let bare = Config { api_key: None, base_url: None, model: None, max_tokens: None, show_reasoning: Some(false), auto_git_checkpoint: None, workdir: None };
    assert!(!bare.show_reasoning());
    let filled = bare.with_defaults();
    assert_eq!(filled.base_url.as_deref(), Some("https://api.deepseek.com"));
    assert_eq!(filled.model.as_deref(), Some("deepseek-chat"));
}

#[test]
fn summary_masks_key() {
    let t = plain();
    let mut c = Config::default();
    assert_eq!(
        c.display_summary(&t),
        "API 接口地址: https://api.deepseek.com\n模型 ID: deepseek-chat\nAPI 密钥: (未设置)"
    );
    c.api_key = Some("secret".into());
    c.workdir = Some("/w".into());
    assert_eq!(
        c.display(&t, "/cfg/config.toml"),
        "配置文件: /cfg/config.toml\nAPI 接口地址: https://api.deepseek.com\n模型 ID: deepseek-chat\nAPI 密钥: ****\n工作目录: /w"
    );
    assert_eq!(Config::mask_api_key(Some("")), "(未设置)");
    assert_eq!(Config::setup_hint(&t), "请运行 onemini config setup 或再次执行 onemini 进入配置向导");
}

#[test]
fn env_names() {
    assert_eq!(resolve_env_name(None), "development");
    assert_eq!(resolve_env_name(Some(" Production ")), "production");
    assert_eq!(resolve_env_name(Some("qa")), "development");
    let (a, b) = env_file_names("staging");
    assert_eq!(a, ".env.staging");
    assert_eq!(b, ".env.staging.local");
}
