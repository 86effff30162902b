//! The configuration: its values, how patches and command-line options
//! change them, how it is shown, and the decisions of the setup wizard.
//! Reading and writing `config.toml`, the environment and the prompts are the
//! application's part; the sampling temperature (a float) and the MCP server
//! list stay in the application's copy of the configuration.
use vstd::prelude::*;
use crate::permissions::manager::opt_view;
use crate::text::{concat2, concat3, is_empty_str, owned, str_eq, to_lower, lowercase, trim, trim_seq};
use crate::ui::theme::Theme;
use crate::ui::{hint, status_pair};
use crate::ui::terminal::{lemma_shows3, lemma_shows_plain, no_esc, shows};

verus! {

/// How `config setup` runs.
#[derive(Debug, Clone, Copy)]
pub struct ConfigureOptions {
    /// Overwrite an existing configuration without asking.
    pub force: bool,
    /// The first start without an API key: greet, and do not ask before
    /// overwriting.
    pub first_run: bool,
}

impl ConfigureOptions {
    /// `config setup`, forced or not.
    pub fn setup(force: bool) -> (r: ConfigureOptions)
        ensures
            r.force == force,
            !r.first_run,
    {
        ConfigureOptions { force, first_run: false }
    }

    /// The first start.
    pub fn first_run() -> (r: ConfigureOptions)
        ensures
            !r.force,
            r.first_run,
    {
        ConfigureOptions { force: false, first_run: true }
    }
}

/// What configuring does first: greet on the first start, ask before
/// overwriting an existing file unless forced, else go straight on.
#[derive(Debug, Clone, Copy, PartialEq, Eq, Structural)]
pub enum ConfigureStart {
    Welcome,
    ConfirmOverwrite,
    Proceed,
}

/// The first step of configuring.
pub fn configure_start(opts: ConfigureOptions, config_exists: bool) -> (r: ConfigureStart)
    ensures
        opts.first_run ==> r == ConfigureStart::Welcome,
        !opts.first_run && config_exists && !opts.force ==> r == ConfigureStart::ConfirmOverwrite,
        !opts.first_run && !(config_exists && !opts.force) ==> r == ConfigureStart::Proceed,
{
    if opts.first_run {
        ConfigureStart::Welcome
    } else if config_exists && !opts.force {
        ConfigureStart::ConfirmOverwrite
    } else {
        ConfigureStart::Proceed
    }
}


/// A model offered for a provider.
pub struct ModelOption {
    pub id: String,
    pub desc: String,
}

/// A provider the wizard offers, with its base URL (empty for a custom one)
/// and its models.
pub struct ProviderPreset {
    pub name: String,
    pub base_url: String,
    pub models: Vec<ModelOption>,
}

/// The presets as values: name, base URL, and the models' ids and descriptions.
pub open spec fn presets_spec() -> Seq<(Seq<char>, Seq<char>, Seq<(Seq<char>, Seq<char>)>)> {
    seq![
        ("DeepSeek"@, "https://api.deepseek.com"@, seq![("deepseek-chat"@, "通用对话（推荐）"@), ("deepseek-reasoner"@, "推理增强"@)]),
        ("OpenAI"@, "https://api.openai.com/v1"@, seq![("gpt-4o"@, "GPT-4o"@), ("gpt-4o-mini"@, "GPT-4o Mini（更快更省）"@)]),
        ("OpenRouter"@, "https://openrouter.ai/api/v1"@, seq![("openai/gpt-4o"@, "GPT-4o"@)]),
        ("自定义（OpenAI 兼容 API）"@, ""@, Seq::empty()),
    ]
}

pub open spec fn model_views(v: Seq<ModelOption>) -> Seq<(Seq<char>, Seq<char>)> {
    v.map_values(|m: ModelOption| (m.id@, m.desc@))
}

pub open spec fn preset_view(p: ProviderPreset) -> (Seq<char>, Seq<char>, Seq<(Seq<char>, Seq<char>)>) {
    (p.name@, p.base_url@, model_views(p.models@))
}

fn model(id: &str, desc: &str) -> (r: ModelOption)
    ensures
        r.id@ == id@,
        r.desc@ == desc@,
{
    ModelOption { id: owned(id), desc: owned(desc) }
}

/// The providers the setup wizard offers, in order.
pub fn provider_presets() -> (r: Vec<ProviderPreset>)
    ensures
        r@.map_values(|p: ProviderPreset| preset_view(p)) == presets_spec(),
{
    let deepseek = ProviderPreset {
        name: owned("DeepSeek"),
        base_url: owned("https://api.deepseek.com"),
        models: vec![model("deepseek-chat", "通用对话（推荐）"), model("deepseek-reasoner", "推理增强")],
    };
    let openai = ProviderPreset {
        name: owned("OpenAI"),
        base_url: owned("https://api.openai.com/v1"),
        models: vec![model("gpt-4o", "GPT-4o"), model("gpt-4o-mini", "GPT-4o Mini（更快更省）")],
    };
    let openrouter = ProviderPreset {
        name: owned("OpenRouter"),
        base_url: owned("https://openrouter.ai/api/v1"),
        models: vec![model("openai/gpt-4o", "GPT-4o")],
    };
    let custom = ProviderPreset { name: owned("自定义（OpenAI 兼容 API）"), base_url: owned(""), models: Vec::new() };
    let r = vec![deepseek, openai, openrouter, custom];
    proof {
        assert(model_views(r@[0].models@) =~= presets_spec()[0].2);
        assert(model_views(r@[1].models@) =~= presets_spec()[1].2);
        assert(model_views(r@[2].models@) =~= presets_spec()[2].2);
        assert(model_views(r@[3].models@) =~= presets_spec()[3].2);
        assert(r@.map_values(|p: ProviderPreset| preset_view(p)) =~= presets_spec());
    }
    r
}

/// How a preset is listed: its name, with its base URL where it has one.
pub fn preset_label(p: &ProviderPreset) -> (r: String)
    ensures
        r@ == if p.base_url@.len() == 0 { p.name@ } else { p.name@ + "  ("@ + p.base_url@ + ")"@ },
{
    if is_empty_str(p.base_url.as_str()) {
        owned(p.name.as_str())
    } else {
        let mut s = concat3(p.name.as_str(), "  (", p.base_url.as_str());
        s.append(")");
        s
    }
}

/// The base URL the wizard proposes: the preset's, or for a custom provider
/// the configured one (empty where there is none).
pub fn base_url_default(p: &ProviderPreset, current: Option<&str>) -> (r: String)
    ensures
        r@ == if p.base_url@.len() > 0 { p.base_url@ } else {
            match current { Some(c) => c@, None => Seq::empty() }
        },
{
    if !is_empty_str(p.base_url.as_str()) {
        owned(p.base_url.as_str())
    } else {
        match current {
            Some(c) => owned(c),
            None => String::new(),
        }
    }
}

/// A base URL as entered: trimmed, and not empty.
pub fn accept_base_url(input: &str) -> (r: Result<String, String>)
    ensures
        trim_seq(input@).len() > 0 ==> (r matches Ok(u) && u@ == trim_seq(input@)),
        trim_seq(input@).len() == 0 ==> (r matches Err(m) && m@ == "API 接口地址不能为空"@),
{
    let t = trim(input);
    if is_empty_str(t.as_str()) {
        Err(owned("API 接口地址不能为空"))
    } else {
        Ok(t)
    }
}

/// A model id as entered: trimmed, and not empty.
pub fn accept_model_id(input: &str) -> (r: Result<String, String>)
    ensures
        trim_seq(input@).len() > 0 ==> (r matches Ok(u) && u@ == trim_seq(input@)),
        trim_seq(input@).len() == 0 ==> (r matches Err(m) && m@ == "模型 ID 不能为空"@),
{
    let t = trim(input);
    if is_empty_str(t.as_str()) {
        Err(owned("模型 ID 不能为空"))
    } else {
        Ok(t)
    }
}

/// The model menu: `id  —  description` for each model, then the custom entry.
pub fn model_menu_items(p: &ProviderPreset) -> (r: Vec<String>)
    ensures
        r@.len() == p.models@.len() + 1,
        forall|i: int| 0 <= i < p.models@.len() ==> #[trigger] r@[i]@ == p.models@[i].id@ + "  —  "@ + p.models@[i].desc@,
        r@[p.models@.len() as int]@ == "自定义输入..."@,
{
    let mut out: Vec<String> = Vec::new();
    let mut i: usize = 0;
    while i < p.models.len()
        invariant
            i <= p.models@.len(),
            out@.len() == i,
            forall|k: int| 0 <= k < i ==> #[trigger] out@[k]@ == p.models@[k].id@ + "  —  "@ + p.models@[k].desc@,
        decreases p.models.len() - i,
    {
        let item = concat3(p.models[i].id.as_str(), "  —  ", p.models[i].desc.as_str());
        out.push(item);
        i += 1;
    }
    out.push(owned("自定义输入..."));
    out
}

/// The menu entry chosen first: the current model's, or the first.
pub fn model_default_index(p: &ProviderPreset, current: Option<&str>) -> (r: usize)
    ensures
        match current {
            Some(c) => (r < p.models@.len() && p.models@[r as int].id@ == c@
                    && forall|j: int| 0 <= j < r ==> #[trigger] p.models@[j].id@ != c@)
                || (r == 0 && forall|j: int| 0 <= j < p.models@.len() ==> #[trigger] p.models@[j].id@ != c@),
            None => r == 0,
        },
{
    match current {
        Some(c) => {
            let mut i: usize = 0;
            while i < p.models.len()
                invariant
                    i <= p.models@.len(),
                    current == Some(c),
                    forall|j: int| 0 <= j < i ==> #[trigger] p.models@[j].id@ != c@,
                decreases p.models.len() - i,
            {
                if str_eq(p.models[i].id.as_str(), c) {
                    proof {
                        assert(p.models@[i as int].id@ == c@);
                    }
                    return i;
                }
                i += 1;
            }
            0
        },
        None => 0,
    }
}

/// The model chosen in the menu: a listed one, or (for the custom entry) the
/// id typed in, trimmed and not empty.
pub fn chosen_model(p: &ProviderPreset, choice: usize, typed: &str) -> (r: Result<String, String>)
    ensures
        choice < p.models@.len() ==> (r matches Ok(m) && m@ == p.models@[choice as int].id@),
        choice >= p.models@.len() && trim_seq(typed@).len() > 0 ==> (r matches Ok(m) && m@ == trim_seq(typed@)),
        choice >= p.models@.len() && trim_seq(typed@).len() == 0 ==> (r matches Err(m) && m@ == "模型 ID 不能为空"@),
{
    if choice < p.models.len() {
        Ok(owned(p.models[choice].id.as_str()))
    } else {
        accept_model_id(typed)
    }
}

/// The model id proposed where one is typed in: the current one, else the
/// preset's first, else nothing.
pub fn model_input_default(p: &ProviderPreset, current: Option<&str>) -> (r: String)
    ensures
        r@ == match current {
            Some(c) => c@,
            None => if p.models@.len() > 0 { p.models@[0].id@ } else { Seq::empty() },
        },
{
    match current {
        Some(c) => owned(c),
        None => if p.models.len() > 0 { owned(p.models[0].id.as_str()) } else { String::new() },
    }
}

/// The configured values.
pub struct Config {
    pub api_key: Option<String>,
    pub base_url: Option<String>,
    pub model: Option<String>,
    pub max_tokens: Option<u32>,
    pub show_reasoning: Option<bool>,
    pub auto_git_checkpoint: Option<bool>,
    pub workdir: Option<String>,
}

/// The configuration as values.
pub struct ConfigView {
    pub api_key: Option<Seq<char>>,
    pub base_url: Option<Seq<char>>,
    pub model: Option<Seq<char>>,
    pub max_tokens: Option<u32>,
    pub show_reasoning: Option<bool>,
    pub auto_git_checkpoint: Option<bool>,
    pub workdir: Option<Seq<char>>,
}

impl View for Config {
    type V = ConfigView;

    open spec fn view(&self) -> ConfigView {
        ConfigView {
            api_key: opt_view(self.api_key),
            base_url: opt_view(self.base_url),
            model: opt_view(self.model),
            max_tokens: self.max_tokens,
            show_reasoning: self.show_reasoning,
            auto_git_checkpoint: self.auto_git_checkpoint,
            workdir: opt_view(self.workdir),
        }
    }
}

/// The configuration without a file.
pub open spec fn default_config() -> ConfigView {
    ConfigView {
        api_key: None,
        base_url: Some("https://api.deepseek.com"@),
        model: Some("deepseek-chat"@),
        max_tokens: Some(8192),
        show_reasoning: Some(true),
        auto_git_checkpoint: Some(true),
        workdir: None,
    }
}

impl Default for Config {
    fn default() -> (r: Config)
        ensures
            r@ == default_config(),
    {
        Config {
            api_key: None,
            base_url: Some(owned("https://api.deepseek.com")),
            model: Some(owned("deepseek-chat")),
            max_tokens: Some(8192),
            show_reasoning: Some(true),
            auto_git_checkpoint: Some(true),
            workdir: None,
        }
    }
}

/// The values `config set` can change (the temperature is the application's).
pub struct ConfigPatch {
    pub api_key: Option<String>,
    pub base_url: Option<String>,
    pub model: Option<String>,
    pub max_tokens: Option<u32>,
}

/// The configuration with the values that are set replacing its own.
pub open spec fn patched(
    c: ConfigView,
    api_key: Option<Seq<char>>,
    base_url: Option<Seq<char>>,
    model: Option<Seq<char>>,
    max_tokens: Option<u32>,
) -> ConfigView {
    ConfigView {
        api_key: override_opt(c.api_key, api_key),
        base_url: override_opt(c.base_url, base_url),
        model: override_opt(c.model, model),
        max_tokens: override_opt(c.max_tokens, max_tokens),
        ..c
    }
}

/// Applying a patch twice is applying it once; an empty patch changes
/// nothing; what a patch sets is what the configuration then holds.
pub proof fn lemma_patch_laws(
    c: ConfigView,
    api_key: Option<Seq<char>>,
    base_url: Option<Seq<char>>,
    model: Option<Seq<char>>,
    max_tokens: Option<u32>,
)
    ensures
        patched(patched(c, api_key, base_url, model, max_tokens), api_key, base_url, model, max_tokens)
            == patched(c, api_key, base_url, model, max_tokens),
        patched(c, None, None, None, None) == c,
        api_key is Some ==> patched(c, api_key, base_url, model, max_tokens).api_key == api_key,
        base_url is Some ==> patched(c, api_key, base_url, model, max_tokens).base_url == base_url,
        model is Some ==> patched(c, api_key, base_url, model, max_tokens).model == model,
        max_tokens is Some ==> patched(c, api_key, base_url, model, max_tokens).max_tokens == max_tokens,
{
}

/// `b` where it is set, else `a`.
pub open spec fn override_opt<T>(a: Option<T>, b: Option<T>) -> Option<T> {
    match b {
        Some(x) => Some(x),
        None => a,
    }
}

fn copy_opt_str(o: &Option<String>) -> (r: Option<String>)
    ensures
        opt_view(r) == opt_view(*o),
{
    match o {
        Some(s) => Some(owned(s.as_str())),
        None => None,
    }
}

fn override_str(cur: &mut Option<String>, new: Option<&str>)
    ensures
        opt_view(*final(cur)) == override_opt(opt_view(*old(cur)), match new { Some(s) => Some(s@), None => None }),
{
    if let Some(s) = new {
        *cur = Some(owned(s));
    }
}

/// `label: value` as shown without colours.
pub open spec fn pair_text(label: Seq<char>, value: Seq<char>) -> Seq<char> {
    label + ":"@ + " "@ + value
}

/// The configuration's shown values hold no escape character.
pub open spec fn summary_plain_ok(c: ConfigView) -> bool {
    &&& (c.base_url matches Some(u) ==> no_esc(u))
    &&& (c.model matches Some(m) ==> no_esc(m))
}

/// The three lines of the summary, without colours.
pub open spec fn summary_text(c: ConfigView) -> Seq<char> {
    pair_text("API 接口地址"@, match c.base_url { Some(u) => u, None => "(未设置)"@ }) + "\n"@
        + pair_text("模型 ID"@, match c.model { Some(m) => m, None => "(未设置)"@ }) + "\n"@
        + pair_text("API 密钥"@, match c.api_key {
            Some(k) => if k.len() > 0 { "****"@ } else { "(未设置)"@ },
            None => "(未设置)"@,
        })
}

impl Config {
    /// Fills in the base URL and the model where a file left them out.
    pub fn with_defaults(self) -> (r: Config)
        ensures
            r@ == (ConfigView {
                base_url: override_opt(Some("https://api.deepseek.com"@), self@.base_url),
                model: override_opt(Some("deepseek-chat"@), self@.model),
                ..self@
            }),
    {
        let mut c = self;
        if c.base_url.is_none() {
            c.base_url = Some(owned("https://api.deepseek.com"));
        }
        if c.model.is_none() {
            c.model = Some(owned("deepseek-chat"));
        }
        c
    }

    /// Applies what a patch sets.
    pub fn apply_patch(&mut self, patch: &ConfigPatch)
        ensures
            final(self)@ == patched(old(self)@, opt_view(patch.api_key), opt_view(patch.base_url),
                opt_view(patch.model), patch.max_tokens),
    {
        if patch.api_key.is_some() {
            self.api_key = copy_opt_str(&patch.api_key);
        }
        if patch.base_url.is_some() {
            self.base_url = copy_opt_str(&patch.base_url);
        }
        if patch.model.is_some() {
            self.model = copy_opt_str(&patch.model);
        }
        if let Some(n) = patch.max_tokens {
            self.max_tokens = Some(n);
        }
    }

    /// Applies the key, base URL and model given on the command line.
    pub fn merge_cli(&mut self, api_key: Option<&str>, base_url: Option<&str>, model: Option<&str>)
        ensures
            final(self)@ == (ConfigView {
                api_key: override_opt(old(self)@.api_key, match api_key { Some(s) => Some(s@), None => None }),
                base_url: override_opt(old(self)@.base_url, match base_url { Some(s) => Some(s@), None => None }),
                model: override_opt(old(self)@.model, match model { Some(s) => Some(s@), None => None }),
                ..old(self)@
            }),
    {
        override_str(&mut self.api_key, api_key);
        override_str(&mut self.base_url, base_url);
        override_str(&mut self.model, model);
    }

    /// Whether reasoning is shown (yes unless switched off).
    pub fn show_reasoning(&self) -> (r: bool)
        ensures
            r == match self.show_reasoning { Some(b) => b, None => true },
    {
        match self.show_reasoning {
            Some(b) => b,
            None => true,
        }
    }

    /// Whether git checkpoints are made (yes unless switched off).
    pub fn auto_git_checkpoint(&self) -> (r: bool)
        ensures
            r == match self.auto_git_checkpoint { Some(b) => b, None => true },
    {
        match self.auto_git_checkpoint {
            Some(b) => b,
            None => true,
        }
    }

    /// The model's name, `deepseek-chat` where none is set.
    pub fn model_name(&self) -> (r: &str)
        ensures
            r@ == match self@.model { Some(m) => m, None => "deepseek-chat"@ },
    {
        match &self.model {
            Some(m) => m.as_str(),
            None => "deepseek-chat",
        }
    }

    /// The working directory, `.` where none is set.
    pub fn workdir(&self) -> (r: &str)
        ensures
            r@ == match self@.workdir { Some(w) => w, None => "."@ },
    {
        match &self.workdir {
            Some(w) => w.as_str(),
            None => ".",
        }
    }

    /// How the key is shown: masked where set, else as not set.
    pub fn mask_api_key(key: Option<&str>) -> (r: &'static str)
        ensures
            r@ == match key { Some(k) => if k@.len() > 0 { "****"@ } else { "(未设置)"@ }, None => "(未设置)"@ },
    {
        match key {
            Some(k) => if !is_empty_str(k) { "****" } else { "(未设置)" },
            None => "(未设置)",
        }
    }

    /// Base URL, model and (masked) key, one per line.
    pub fn display_summary(&self, t: &Theme) -> (r: String)
        ensures
            !t.colors ==> r@ == summary_text(self@),
            summary_plain_ok(self@) ==> shows(r@, summary_text(self@)),
    {
        let base = match &self.base_url { Some(u) => u.as_str(), None => "(未设置)" };
        let model = match &self.model { Some(m) => m.as_str(), None => "(未设置)" };
        let key = match &self.api_key { Some(k) => Some(k.as_str()), None => None };
        let a = status_pair(t, "API 接口地址", base);
        let b = status_pair(t, "模型 ID", model);
        let mk = Config::mask_api_key(key);
        let c = status_pair(t, "API 密钥", mk);
        let mut s = concat3(a.as_str(), "\n", b.as_str());
        s.append("\n");
        s.append(c.as_str());
        proof {
            reveal_strlit("API 接口地址");
            lemma_shows_plain("API 接口地址"@);
            reveal_strlit("模型 ID");
            lemma_shows_plain("模型 ID"@);
            reveal_strlit("API 密钥");
            lemma_shows_plain("API 密钥"@);
            reveal_strlit("(未设置)");
            lemma_shows_plain("(未设置)"@);
            reveal_strlit("****");
            lemma_shows_plain("****"@);
            reveal_strlit("\n");
            lemma_shows_plain("\n"@);
            if summary_plain_ok(self@) {
                lemma_shows_plain(base@);
                lemma_shows_plain(model@);
                lemma_shows_plain(mk@);
                lemma_shows3(a@, pair_text("API 接口地址"@, base@), "\n"@, "\n"@, b@, pair_text("模型 ID"@, model@));
                lemma_shows3(
                    a@ + "\n"@ + b@,
                    pair_text("API 接口地址"@, base@) + "\n"@ + pair_text("模型 ID"@, model@),
                    "\n"@,
                    "\n"@,
                    c@,
                    pair_text("API 密钥"@, mk@),
                );
            }
        }
        s
    }

    /// The summary under the file's path, with the working directory.
    pub fn display(&self, t: &Theme, config_path: &str) -> (r: String)
        ensures
            !t.colors ==> r@ == pair_text("配置文件"@, config_path@) + "\n"@ + summary_text(self@) + "\n"@
                + pair_text("工作目录"@, match self@.workdir { Some(w) => w, None => "."@ }),
            summary_plain_ok(self@) && no_esc(config_path@) && (self@.workdir matches Some(w) ==> no_esc(w)) ==> shows(
                r@,
                pair_text("配置文件"@, config_path@) + "\n"@ + summary_text(self@) + "\n"@ + pair_text(
                    "工作目录"@,
                    match self@.workdir { Some(w) => w, None => "."@ },
                ),
            ),
    {
        let a = status_pair(t, "配置文件", config_path);
        let b = self.display_summary(t);
        let wd = self.workdir();
        let c = status_pair(t, "工作目录", wd);
        let mut s = concat3(a.as_str(), "\n", b.as_str());
        s.append("\n");
        s.append(c.as_str());
        proof {
            reveal_strlit("配置文件");
            lemma_shows_plain("配置文件"@);
            reveal_strlit("工作目录");
            lemma_shows_plain("工作目录"@);
            reveal_strlit(".");
            lemma_shows_plain("."@);
            reveal_strlit("\n");
            lemma_shows_plain("\n"@);
            if summary_plain_ok(self@) && no_esc(config_path@) && (self@.workdir matches Some(w) ==> no_esc(w)) {
                lemma_shows_plain(config_path@);
                lemma_shows_plain(wd@);
                lemma_shows3(a@, pair_text("配置文件"@, config_path@), "\n"@, "\n"@, b@, summary_text(self@));
                lemma_shows3(
                    a@ + "\n"@ + b@,
                    pair_text("配置文件"@, config_path@) + "\n"@ + summary_text(self@),
                    "\n"@,
                    "\n"@,
                    c@,
                    pair_text("工作目录"@, wd@),
                );
            }
        }
        s
    }

    /// How to reach the wizard.
    pub fn setup_hint(t: &Theme) -> (r: String)
        ensures
            !t.colors ==> r@ == "请运行 "@ + "onemini config setup"@ + " 或再次执行 "@ + "onemini"@ + " 进入配置向导"@,
            shows(r@, "请运行 "@ + "onemini config setup"@ + " 或再次执行 "@ + "onemini"@ + " 进入配置向导"@),
    {
        let a = hint(t, "onemini config setup");
        let b = hint(t, "onemini");
        let mut s = concat3("请运行 ", a.as_str(), " 或再次执行 ");
        s.append(b.as_str());
        s.append(" 进入配置向导");
        proof {
            reveal_strlit("请运行 ");
            lemma_shows_plain("请运行 "@);
            reveal_strlit("onemini config setup");
            lemma_shows_plain("onemini config setup"@);
            reveal_strlit(" 或再次执行 ");
            lemma_shows_plain(" 或再次执行 "@);
            reveal_strlit("onemini");
            lemma_shows_plain("onemini"@);
            reveal_strlit(" 进入配置向导");
            lemma_shows_plain(" 进入配置向导"@);
            lemma_shows3("请运行 "@, "请运行 "@, a@, "onemini config setup"@, " 或再次执行 "@, " 或再次执行 "@);
            lemma_shows3(
                "请运行 "@ + a@ + " 或再次执行 "@,
                "请运行 "@ + "onemini config setup"@ + " 或再次执行 "@,
                b@,
                "onemini"@,
                " 进入配置向导"@,
                " 进入配置向导"@,
            );
        }
        s
    }
}

/// The key as the wizard describes it: set or not.
pub fn key_hint(current: Option<&str>) -> (r: &'static str)
    ensures
        r@ == match current { Some(k) => if k@.len() > 0 { "****（已设置）"@ } else { "(未设置)"@ }, None => "(未设置)"@ },
{
    match current {
        Some(k) => if !is_empty_str(k) { "****（已设置）" } else { "(未设置)" },
        None => "(未设置)",
    }
}

/// The key after the wizard's prompt: what was typed, or the current one
/// where nothing was; it must not end up empty.
pub fn accept_api_key(current: Option<&str>, typed: &str) -> (r: Result<String, String>)
    ensures
        typed@.len() > 0 ==> (r matches Ok(k) && k@ == typed@),
        typed@.len() == 0 ==> match current {
            Some(c) => if c@.len() > 0 { r matches Ok(k) && k@ == c@ } else { r matches Err(m) && m@ == "API 密钥不能为空"@ },
            None => r matches Err(m) && m@ == "API 密钥不能为空"@,
        },
{
    if !is_empty_str(typed) {
        return Ok(owned(typed));
    }
    match current {
        Some(c) => if !is_empty_str(c) { Ok(owned(c)) } else { Err(owned("API 密钥不能为空")) },
        None => Err(owned("API 密钥不能为空")),
    }
}

/// The environment name for `.env` files: `ONEMINI_ENV` trimmed and in
/// lower case where it names a known one, else `development`.
pub open spec fn env_name_spec(raw: Option<Seq<char>>) -> Seq<char> {
    match raw {
        Some(r) => {
            let l = lowercase(trim_seq(r));
            if l == "development"@ || l == "staging"@ || l == "production"@ { l } else { "development"@ }
        },
        None => "development"@,
    }
}

pub fn resolve_env_name(raw: Option<&str>) -> (r: String)
    ensures
        r@ == env_name_spec(match raw { Some(s) => Some(s@), None => None }),
{
    match raw {
        Some(s) => {
            let t = trim(s);
            let l = to_lower(t.as_str());
            if str_eq(l.as_str(), "development") || str_eq(l.as_str(), "staging") || str_eq(l.as_str(), "production") {
                l
            } else {
                owned("development")
            }
        },
        None => owned("development"),
    }
}

/// The `.env` files read for an environment, in order: the shared one, then
/// the local one that overrides it.
pub fn env_file_names(env: &str) -> (r: (String, String))
    ensures
        r.0@ == ".env."@ + env@,
        r.1@ == ".env."@ + env@ + ".local"@,
{
    let a = concat2(".env.", env);
    let b = concat3(".env.", env, ".local");
    (a, b)
}

} // verus!
