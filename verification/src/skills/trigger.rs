//! Choosing a skill from what the user wrote, without `/name`.
//!
//! Each rule lists trigger phrases of a skill; the longer a phrase that
//! occurs, the higher the score. The best rule of a skill that the registry
//! holds wins, if it scores at least `MIN_MATCH_SCORE`.
use vstd::prelude::*;
use crate::skills::{has_name, Skill, SkillRegistry};
use crate::text::{
    byte_len, char_count, contains, contains_seq, has_prefix, lowercase, occurs_at, replace,
    replace_seq, starts_with, to_lower, trim, trim_seq, utf8_len,
};

verus! {

/// The lowest score that selects a skill.
pub const MIN_MATCH_SCORE: u128 = 4;

/// A skill id and its trigger phrases.
pub struct SkillTriggerRule {
    pub id: &'static str,
    pub triggers: Vec<&'static str>,
}

/// The rules as texts.
pub open spec fn rule_views(v: Seq<SkillTriggerRule>) -> Seq<(Seq<char>, Seq<Seq<char>>)> {
    v.map_values(|r: SkillTriggerRule| (r.id@, r.triggers@.map_values(|t: &str| t@)))
}

/// The trigger rules, in the order in which they are tried.
pub open spec fn trigger_rules_spec() -> Seq<(Seq<char>, Seq<Seq<char>>)> {
    seq![
        ("commit-message"@, seq!["commit message"@, "commit msg"@, "提交信息"@, "提交说明"@, "写 commit"@, "git commit"@, "commit"@]),
        ("code-review"@, seq!["code review"@, "代码审查"@, "审查代码"@, "review pr"@, "review 代码"@, "pr 审查"@, "看看这段代码"@]),
        ("debug"@, seq!["调试"@, "debug"@, "报错"@, "异常"@, "不工作"@, "失败了"@, "测试失败"@, "bug"@, "fix bug"@, "根因"@, "stack trace"@, "堆栈"@]),
        ("refactor"@, seq!["重构"@, "refactor"@, "整理代码"@, "去重复"@, "提取函数"@]),
        ("readme"@, seq!["readme"@, "README"@, "项目文档"@, "写文档"@, "安装说明"@, "使用说明"@]),
        ("explore-codebase"@, seq!["代码库"@, "项目结构"@, "架构"@, "入口在哪"@, "怎么跑起来"@, "熟悉项目"@, "explore codebase"@, "codebase"@]),
        ("frontend-design"@, seq!["landing page"@, "landing"@, "首页"@, "页面设计"@, "网页设计"@, "前端设计"@, "frontend design"@, "web design"@, "界面设计"@, "ui 设计"@, "ui设计"@, "网站设计"@, "做一个页面"@, "设计页面"@]),
        ("canvas-design"@, seq!["canvas"@, "canvas 设计"@, "视觉设计"@, "平面设计"@, "poster layout"@]),
        ("theme-factory"@, seq!["主题"@, "配色"@, "design token"@, "主题色"@, "dark mode"@, "浅色模式"@, "theme"@]),
        ("web-artifacts-builder"@, seq!["web artifact"@, "html 页面"@, "react 组件"@, "vue 页面"@, "单页"@, "dashboard ui"@]),
        ("brand-guidelines"@, seq!["品牌"@, "brand guideline"@, "视觉规范"@, "logo 规范"@, "品牌色"@]),
        ("pdf"@, seq!["pdf"@, "合并 pdf"@, "拆分 pdf"@, "提取 pdf"@, ".pdf"@]),
        ("docx"@, seq!["docx"@, "word 文档"@, "word文档"@, ".docx"@, "写 word"@]),
        ("pptx"@, seq!["pptx"@, "ppt"@, "幻灯片"@, "演示文稿"@, ".pptx"@]),
        ("xlsx"@, seq!["xlsx"@, "excel"@, "表格"@, ".xlsx"@, "电子表格"@]),
        ("doc-coauthoring"@, seq!["协作文档"@, "共同撰写"@, "coauthor"@, "合写文档"@]),
        ("mcp-builder"@, seq!["mcp server"@, "mcp 服务"@, "构建 mcp"@, "mcp-builder"@]),
        ("webapp-testing"@, seq!["playwright"@, "e2e 测试"@, "端到端测试"@, "web 测试"@, "浏览器测试"@]),
    ]
}

fn rule(id: &'static str, triggers: Vec<&'static str>) -> (r: SkillTriggerRule)
    ensures
        r.id == id,
        r.triggers == triggers,
{
    SkillTriggerRule { id, triggers }
}

/// The trigger rules.
pub fn auto_trigger_rules() -> (r: Vec<SkillTriggerRule>)
    ensures
        rule_views(r@) =~~= trigger_rules_spec(),
        forall|i: int| 0 <= i < r@.len() ==> (#[trigger] r@[i]).triggers@.len() <= 14,
{
    let mut r: Vec<SkillTriggerRule> = Vec::new();
    r.push(rule("commit-message", vec!["commit message", "commit msg", "提交信息", "提交说明", "写 commit", "git commit", "commit"]));
    r.push(rule("code-review", vec!["code review", "代码审查", "审查代码", "review pr", "review 代码", "pr 审查", "看看这段代码"]));
    r.push(rule("debug", vec!["调试", "debug", "报错", "异常", "不工作", "失败了", "测试失败", "bug", "fix bug", "根因", "stack trace", "堆栈"]));
    r.push(rule("refactor", vec!["重构", "refactor", "整理代码", "去重复", "提取函数"]));
    r.push(rule("readme", vec!["readme", "README", "项目文档", "写文档", "安装说明", "使用说明"]));
    r.push(rule("explore-codebase", vec!["代码库", "项目结构", "架构", "入口在哪", "怎么跑起来", "熟悉项目", "explore codebase", "codebase"]));
    r.push(rule("frontend-design", vec!["landing page", "landing", "首页", "页面设计", "网页设计", "前端设计", "frontend design", "web design", "界面设计", "ui 设计", "ui设计", "网站设计", "做一个页面", "设计页面"]));
    r.push(rule("canvas-design", vec!["canvas", "canvas 设计", "视觉设计", "平面设计", "poster layout"]));
    r.push(rule("theme-factory", vec!["主题", "配色", "design token", "主题色", "dark mode", "浅色模式", "theme"]));
    r.push(rule("web-artifacts-builder", vec!["web artifact", "html 页面", "react 组件", "vue 页面", "单页", "dashboard ui"]));
    r.push(rule("brand-guidelines", vec!["品牌", "brand guideline", "视觉规范", "logo 规范", "品牌色"]));
    r.push(rule("pdf", vec!["pdf", "合并 pdf", "拆分 pdf", "提取 pdf", ".pdf"]));
    r.push(rule("docx", vec!["docx", "word 文档", "word文档", ".docx", "写 word"]));
    r.push(rule("pptx", vec!["pptx", "ppt", "幻灯片", "演示文稿", ".pptx"]));
    r.push(rule("xlsx", vec!["xlsx", "excel", "表格", ".xlsx", "电子表格"]));
    r.push(rule("doc-coauthoring", vec!["协作文档", "共同撰写", "coauthor", "合写文档"]));
    r.push(rule("mcp-builder", vec!["mcp server", "mcp 服务", "构建 mcp", "mcp-builder"]));
    r.push(rule("webapp-testing", vec!["playwright", "e2e 测试", "端到端测试", "web 测试", "浏览器测试"]));
    r
}

/// The score of one phrase: its length plus three if its lowercase form has
/// at least three UTF-8 bytes and occurs in the input.
pub open spec fn trigger_score(lower: Seq<char>, t: Seq<char>) -> int {
    let tl = lowercase(t);
    if utf8_len(tl) >= 3 && contains_seq(lower, tl) {
        3 + tl.len() as int
    } else {
        0
    }
}

/// The scores of the phrases added up.
pub open spec fn triggers_score(lower: Seq<char>, ts: Seq<Seq<char>>) -> int
    decreases ts.len(),
{
    if ts.len() == 0 {
        0
    } else {
        triggers_score(lower, ts.drop_last()) + trigger_score(lower, ts.last())
    }
}

/// The score of a rule: its phrases, and twelve more if the id itself (or the
/// id with spaces for dashes) occurs.
pub open spec fn rule_score(lower: Seq<char>, id: Seq<char>, ts: Seq<Seq<char>>) -> int {
    triggers_score(lower, ts) + (if contains_seq(lower, id) || contains_seq(lower, replace_seq(id, "-"@, " "@)) {
        12int
    } else {
        0int
    })
}

/// A rule's id and score.
pub struct BestRule {
    pub id: Seq<char>,
    pub score: int,
}

/// The best rule so far of a skill that the registry holds: the first rule
/// with the highest score, if that score reaches the minimum.
pub open spec fn best_rule(entries: Seq<Skill>, lower: Seq<char>, rules: Seq<(Seq<char>, Seq<Seq<char>>)>) -> Option<BestRule>
    decreases rules.len(),
{
    if rules.len() == 0 {
        None
    } else {
        let prev = best_rule(entries, lower, rules.drop_last());
        let id = rules.last().0;
        let sc = rule_score(lower, id, rules.last().1);
        if has_name(entries, id) && sc >= 4 && (prev is None || sc > prev->0.score) {
            Some(BestRule { id, score: sc })
        } else {
            prev
        }
    }
}

/// The skill chosen for an input: none for an empty input or one that starts
/// with `[` (a message that already carries a skill).
pub open spec fn auto_match_spec(entries: Seq<Skill>, input: Seq<char>) -> Option<Seq<char>> {
    let t = trim_seq(input);
    if t.len() == 0 || has_prefix(t, "["@) {
        None
    } else {
        match best_rule(entries, lowercase(t), trigger_rules_spec()) {
            Some(b) => Some(b.id),
            None => None,
        }
    }
}

/// Matching ignores letter case: two inputs that read the same once
/// trimmed and lowercased (and agree on being blank or starting with `[`)
/// choose the same skill.
pub proof fn lemma_auto_match_ignores_case(entries: Seq<Skill>, a: Seq<char>, b: Seq<char>)
    requires
        lowercase(trim_seq(a)) == lowercase(trim_seq(b)),
        (trim_seq(a).len() == 0) == (trim_seq(b).len() == 0),
        has_prefix(trim_seq(a), "["@) == has_prefix(trim_seq(b), "["@),
    ensures
        auto_match_spec(entries, a) == auto_match_spec(entries, b),
{
}

/// The skill chosen for an input is a registered skill whose rule scores at
/// least the minimum on the lowercased input.
pub proof fn lemma_auto_match_is_best(entries: Seq<Skill>, input: Seq<char>)
    requires
        auto_match_spec(entries, input) is Some,
    ensures
        exists|k: int|
            0 <= k < trigger_rules_spec().len() && #[trigger] trigger_rules_spec()[k].0 == auto_match_spec(
                entries,
                input,
            )->0 && has_name(entries, trigger_rules_spec()[k].0) && rule_score(
                lowercase(trim_seq(input)),
                trigger_rules_spec()[k].0,
                trigger_rules_spec()[k].1,
            ) >= 4,
{
    lemma_best_rule_found(entries, lowercase(trim_seq(input)), trigger_rules_spec());
}

/// An input that holds, in any letter case, a trigger phrase (of at least
/// three UTF-8 bytes) of a registered skill selects a skill.
pub proof fn lemma_trigger_phrase_selects(entries: Seq<Skill>, input: Seq<char>, k: int, j: int)
    requires
        trim_seq(input).len() > 0,
        !has_prefix(trim_seq(input), "["@),
        0 <= k < trigger_rules_spec().len(),
        has_name(entries, trigger_rules_spec()[k].0),
        0 <= j < trigger_rules_spec()[k].1.len(),
        utf8_len(lowercase(trigger_rules_spec()[k].1[j])) >= 3,
        contains_seq(lowercase(trim_seq(input)), lowercase(trigger_rules_spec()[k].1[j])),
    ensures
        auto_match_spec(entries, input) is Some,
{
    let lower = lowercase(trim_seq(input));
    let rules = trigger_rules_spec();
    let tl = lowercase(rules[k].1[j]);
    assert(tl.len() > 0) by {
        if tl.len() == 0 {
            assert(utf8_len(tl) == 0);
        }
    }
    lemma_triggers_score_ge(lower, rules[k].1, j);
    lemma_best_rule_some(entries, lower, rules, k);
}

proof fn lemma_triggers_score_ge(lower: Seq<char>, ts: Seq<Seq<char>>, j: int)
    requires
        0 <= j < ts.len(),
    ensures
        triggers_score(lower, ts) >= trigger_score(lower, ts[j]),
    decreases ts.len(),
{
    lemma_triggers_score_nonneg(lower, ts.drop_last());
    if j < ts.len() - 1 {
        lemma_triggers_score_ge(lower, ts.drop_last(), j);
        assert(ts.drop_last()[j] == ts[j]);
    }
}

proof fn lemma_triggers_score_nonneg(lower: Seq<char>, ts: Seq<Seq<char>>)
    ensures
        triggers_score(lower, ts) >= 0,
    decreases ts.len(),
{
    if ts.len() > 0 {
        lemma_triggers_score_nonneg(lower, ts.drop_last());
    }
}

proof fn lemma_best_rule_some(entries: Seq<Skill>, lower: Seq<char>, rules: Seq<(Seq<char>, Seq<Seq<char>>)>, k: int)
    requires
        0 <= k < rules.len(),
        has_name(entries, rules[k].0),
        rule_score(lower, rules[k].0, rules[k].1) >= 4,
    ensures
        best_rule(entries, lower, rules) is Some,
    decreases rules.len(),
{
    if k < rules.len() - 1 {
        assert(rules.drop_last()[k] == rules[k]);
        lemma_best_rule_some(entries, lower, rules.drop_last(), k);
    } else {
        assert(rules.last() == rules[k]);
    }
}

proof fn lemma_best_rule_found(entries: Seq<Skill>, lower: Seq<char>, rules: Seq<(Seq<char>, Seq<Seq<char>>)>)
    ensures
        best_rule(entries, lower, rules) matches Some(b) ==> exists|k: int|
            0 <= k < rules.len() && #[trigger] rules[k].0 == b.id && has_name(entries, rules[k].0) && rule_score(
                lower,
                rules[k].0,
                rules[k].1,
            ) == b.score && b.score >= 4,
    decreases rules.len(),
{
    if rules.len() > 0 {
        lemma_best_rule_found(entries, lower, rules.drop_last());
        let prev = best_rule(entries, lower, rules.drop_last());
        if let Some(b) = best_rule(entries, lower, rules) {
            if prev == Some(b) {
                let k = choose|k: int|
                    0 <= k < rules.drop_last().len() && #[trigger] rules.drop_last()[k].0 == b.id && has_name(
                        entries,
                        rules.drop_last()[k].0,
                    ) && rule_score(lower, rules.drop_last()[k].0, rules.drop_last()[k].1) == b.score && b.score >= 4;
                assert(rules[k] == rules.drop_last()[k]);
            } else {
                let k = rules.len() - 1;
                assert(rules[k] == rules.last());
            }
        }
    }
}

/// The score of one rule.
fn score_rule(lower: &str, id: &str, triggers: &Vec<&'static str>) -> (r: u128)
    requires
        triggers@.len() <= 14,
    ensures
        r == rule_score(lower@, id@, triggers@.map_values(|t: &str| t@)),
{
    let ghost ts = triggers@.map_values(|t: &str| t@);
    let mut score: u128 = 0;
    let mut j: usize = 0;
    while j < triggers.len()
        invariant
            j <= triggers@.len(),
            triggers@.len() <= 14,
            ts == triggers@.map_values(|t: &str| t@),
            score == triggers_score(lower@, ts.take(j as int)),
            score <= j * (3 + usize::MAX as int),
        decreases triggers.len() - j,
    {
        proof {
            assert(ts.take(j + 1).drop_last() =~= ts.take(j as int));
            assert(ts.take(j + 1).last() == triggers@[j as int]@);
        }
        let t = to_lower(triggers[j]);
        let b = byte_len(t.as_str());
        if b >= 3 && contains(lower, t.as_str()) {
            let n = char_count(t.as_str());
            proof {
                assert(score + 3 + n <= (j + 1) * (3 + usize::MAX as int)) by (nonlinear_arith)
                    requires
                        score <= j * (3 + usize::MAX as int),
                        n <= usize::MAX,
                ;
                assert((j + 1) * (3 + usize::MAX as int) <= 14 * (3 + usize::MAX as int)) by (nonlinear_arith)
                    requires
                        j + 1 <= 14,
                ;
            }
            score = score + 3 + n as u128;
        } else {
            proof {
                assert(score <= (j + 1) * (3 + usize::MAX as int)) by (nonlinear_arith)
                    requires
                        score <= j * (3 + usize::MAX as int),
                ;
            }
        }
        j += 1;
    }
    proof {
        assert(ts.take(j as int) =~= ts);
        assert(score <= 14 * (3 + usize::MAX as int)) by (nonlinear_arith)
            requires
                score <= j * (3 + usize::MAX as int),
                j <= 14,
        ;
    }
    let spaced = replace(id, "-", " ");
    if contains(lower, id) || contains(lower, spaced.as_str()) {
        score + 12
    } else {
        score
    }
}

impl SkillRegistry {
    /// The skill that the input asks for without naming it, if any.
    pub fn auto_match(&self, input: &str) -> (r: Option<&Skill>)
        ensures
            match auto_match_spec(self.entries(), input@) {
                Some(id) => r is Some && r->0.name@ == id && self.entries().contains(*r->0),
                None => r is None,
            },
    {
        let trimmed = trim(input);
        if crate::text::is_empty_str(trimmed.as_str()) || starts_with(trimmed.as_str(), "[") {
            return None;
        }
        let lower = to_lower(trimmed.as_str());
        let rules = auto_trigger_rules();
        let ghost rs = trigger_rules_spec();
        let mut best: Option<&Skill> = None;
        let mut best_score: u128 = 0;
        let mut i: usize = 0;
        while i < rules.len()
            invariant
                i <= rules@.len(),
                rule_views(rules@) =~~= rs,
                rs == trigger_rules_spec(),
                forall|k: int| 0 <= k < rules@.len() ==> (#[trigger] rules@[k]).triggers@.len() <= 14,
                match best_rule(self.entries(), lower@, rs.take(i as int)) {
                    Some(b) => best is Some && best->0.name@ == b.id && best_score == b.score
                        && self.entries().contains(*best->0),
                    None => best is None,
                },
            decreases rules.len() - i,
        {
            proof {
                assert(rs.take(i + 1).drop_last() =~= rs.take(i as int));
                assert(rs.take(i + 1).last() == rs[i as int]);
                assert(rs[i as int] == rule_views(rules@)[i as int]);
            }
            let r = &rules[i];
            match self.get(r.id) {
                Some(skill) => {
                    let sc = score_rule(lower.as_str(), r.id, &r.triggers);
                    proof {
                        assert(has_name(self.entries(), r.id@)) by {
                            let k = choose|k: int| 0 <= k < self.entries().len() && self.entries()[k] == *skill;
                            assert(self.entries()[k].name@ == r.id@);
                        }
                    }
                    let better = match best {
                        Some(_) => sc > best_score,
                        None => true,
                    };
                    if sc >= MIN_MATCH_SCORE && better {
                        best = Some(skill);
                        best_score = sc;
                    }
                },
                None => {},
            }
            i += 1;
        }
        proof {
            assert(rs.take(i as int) =~= rs);
        }
        best
    }
}

} // verus!
