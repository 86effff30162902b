//! The task flow: plan steps, verification suggestions, failures and the summary.
use vstd::prelude::*;
use crate::text::{
    char_count, concat2, concat3, contains, contains_seq, decimal, decimal_string, join, join_seq,
    lowercase, owned, str_eq, to_lower, vec_contains_str, views,
};

verus! {

/// Progress of one plan step.
#[derive(Debug, Clone, Copy, PartialEq, Eq, Structural)]
pub enum StepStatus {
    Pending,
    InProgress,
    Done,
    Failed,
}

impl Default for StepStatus {
    fn default() -> (r: Self)
        ensures
            r == StepStatus::Pending,
    {
        StepStatus::Pending
    }
}

/// One step of the plan.
#[derive(Debug, Clone)]
pub struct PlanStep {
    pub description: String,
    pub status: StepStatus,
}

/// A suggested verification, with its command where there is one.
#[derive(Debug, Clone)]
pub struct VerificationCheck {
    pub label: String,
    pub command: Option<String>,
    pub passed: Option<bool>,
    pub message: String,
}

/// Which project files the working directory holds.
#[derive(Debug, Clone, Copy, PartialEq, Eq, Structural)]
pub struct ProjectMarkers {
    pub has_cargo_toml: bool,
    pub has_package_json: bool,
    pub has_go_mod: bool,
}

/// State of the current task across turns.
#[derive(Debug, Clone)]
pub struct TaskState {
    pub goal: String,
    pub plan_steps: Vec<PlanStep>,
    pub current_step: usize,
    pub verification_checks: Vec<VerificationCheck>,
    pub last_errors: Vec<String>,
    pub changed_files: Vec<String>,
    pub last_bash_command: Option<String>,
    pub last_bash_failed: bool,
    pub checkpoint_suggested: bool,
}

// ---------------------------------------------------------------------------
// Specifications
// ---------------------------------------------------------------------------

/// Words that mark a request as a multi-step task (matched on the lowercased input).
pub open spec fn has_task_keyword(lower: Seq<char>) -> bool {
    ||| contains_seq(lower, "实现"@)
    ||| contains_seq(lower, "修复"@)
    ||| contains_seq(lower, "重构"@)
    ||| contains_seq(lower, "调试"@)
    ||| contains_seq(lower, "优化"@)
    ||| contains_seq(lower, "添加"@)
    ||| contains_seq(lower, "删除"@)
    ||| contains_seq(lower, "迁移"@)
    ||| contains_seq(lower, "测试"@)
    ||| contains_seq(lower, "bug"@)
    ||| contains_seq(lower, "implement"@)
    ||| contains_seq(lower, "fix"@)
    ||| contains_seq(lower, "refactor"@)
    ||| contains_seq(lower, "debug"@)
    ||| contains_seq(lower, "optimize"@)
    ||| contains_seq(lower, "migrate"@)
    ||| contains_seq(lower, "test"@)
}

/// A request is a task when it is longer than 40 characters or names a task word.
pub open spec fn is_complex_task_spec(input: Seq<char>) -> bool {
    input.len() > 40 || has_task_keyword(lowercase(input))
}

/// The descriptions of the default plan.
pub open spec fn default_plan_descriptions() -> Seq<Seq<char>> {
    seq!["理解需求并定位相关代码"@, "实施最小必要改动"@, "运行构建/测试验证"@, "总结结果与后续建议"@]
}

/// The descriptions of a list of steps.
pub open spec fn step_descriptions(steps: Seq<PlanStep>) -> Seq<Seq<char>> {
    steps.map_values(|s: PlanStep| s.description@)
}

/// A verification check as values: label, command, result, message.
pub open spec fn check_view(c: VerificationCheck) -> (Seq<char>, Option<Seq<char>>, Option<bool>, Seq<char>) {
    (c.label@, match c.command {
        Some(s) => Some(s@),
        None => None,
    }, c.passed, c.message@)
}

/// The values of a list of checks.
pub open spec fn check_views(cs: Seq<VerificationCheck>) -> Seq<(Seq<char>, Option<Seq<char>>, Option<bool>, Seq<char>)> {
    cs.map_values(|c: VerificationCheck| check_view(c))
}

/// The checks suggested for a project: Rust, then Node, then Go, else a manual check.
pub open spec fn verification_checks_spec(m: ProjectMarkers) -> Seq<(Seq<char>, Option<Seq<char>>, Option<bool>, Seq<char>)> {
    if m.has_cargo_toml {
        seq![
            ("编译检查"@, Some("cargo build --release --locked"@), None, "Rust 项目建议运行"@),
            ("测试检查"@, Some("cargo test"@), None, "如有测试，建议运行"@),
        ]
    } else if m.has_package_json {
        seq![
            ("构建检查"@, Some("npm run build"@), None, "Node 项目建议运行"@),
            ("测试检查"@, Some("npm test"@), None, "如有测试，建议运行"@),
        ]
    } else if m.has_go_mod {
        seq![
            ("编译检查"@, Some("go build ./..."@), None, "Go 项目建议运行"@),
            ("测试检查"@, Some("go test ./..."@), None, "建议运行"@),
        ]
    } else {
        seq![("验证"@, None, None, "根据项目类型手动验证"@)]
    }
}

/// The marker of a step status.
pub open spec fn status_marker(s: StepStatus) -> Seq<char> {
    match s {
        StepStatus::Pending => "[ ]"@,
        StepStatus::InProgress => "[→]"@,
        StepStatus::Done => "[✓]"@,
        StepStatus::Failed => "[✗]"@,
    }
}

/// One line of the plan listing.
pub open spec fn plan_line(i: nat, step: PlanStep, current: nat) -> Seq<char> {
    "  "@ + status_marker(step.status) + " "@ + decimal(i + 1) + ". "@ + step.description@ + (if i
        == current {
        " ← 当前"@
    } else {
        Seq::empty()
    }) + "\n"@
}

/// The listing of the first `n` steps.
pub open spec fn plan_lines(steps: Seq<PlanStep>, current: nat, n: nat) -> Seq<char>
    decreases n,
{
    if n == 0 {
        Seq::empty()
    } else {
        plan_lines(steps, current, (n - 1) as nat) + plan_line((n - 1) as nat, steps[n - 1], current)
    }
}

/// The text of `/plan`.
pub open spec fn format_plan_spec(t: TaskState) -> Seq<char> {
    if t.plan_steps@.len() == 0 {
        "当前没有结构化任务计划（简单问答模式）。"@
    } else {
        "任务目标: "@ + t.goal@ + "\n\n计划步骤:\n"@ + plan_lines(
            t.plan_steps@,
            t.current_step as nat,
            t.plan_steps@.len(),
        )
    }
}

/// The word for a check result.
pub open spec fn check_status_word(p: Option<bool>) -> Seq<char> {
    match p {
        Some(true) => "通过"@,
        Some(false) => "失败"@,
        None => "待执行"@,
    }
}

/// The lines listing the first `n` checks.
pub open spec fn check_lines(cs: Seq<VerificationCheck>, n: nat) -> Seq<char>
    decreases n,
{
    if n == 0 {
        Seq::empty()
    } else {
        check_lines(cs, (n - 1) as nat) + "  - ["@ + check_status_word(cs[n - 1].passed) + "] "@
            + cs[n - 1].label@ + ": "@ + cs[n - 1].message@ + "\n"@
    }
}

/// Lines `  - x` for the items `from..n`.
pub open spec fn bullet_lines(items: Seq<String>, from: nat, n: nat) -> Seq<char>
    decreases n,
{
    if n <= from {
        Seq::empty()
    } else {
        bullet_lines(items, from, (n - 1) as nat) + "  - "@ + items[n - 1]@ + "\n"@
    }
}

/// The text of `/status`.
pub open spec fn format_status_spec(t: TaskState) -> Seq<char> {
    let n_err = t.last_errors@.len();
    let from_err: nat = if n_err > 3 {
        (n_err - 3) as nat
    } else {
        0
    };
    format_plan_spec(t) + "\n验证状态:\n"@ + (if t.verification_checks@.len() == 0 {
        "  （无）\n"@
    } else {
        check_lines(t.verification_checks@, t.verification_checks@.len())
    }) + (if t.changed_files@.len() == 0 {
        Seq::empty()
    } else {
        "\n已修改文件:\n"@ + bullet_lines(t.changed_files@, 0, t.changed_files@.len())
    }) + (if t.checkpoint_suggested {
        "\n安全提示: 改动较多，建议先创建检查点（例如 git commit 或 git stash）。\n"@
    } else {
        Seq::empty()
    }) + (if n_err == 0 {
        Seq::empty()
    } else {
        "\n最近错误:\n"@ + bullet_lines(t.last_errors@, from_err, n_err)
    })
}

/// The lines suggesting the first `n` checks that have a command.
pub open spec fn suggestion_lines(cs: Seq<VerificationCheck>, n: nat) -> Seq<char>
    decreases n,
{
    if n == 0 {
        Seq::empty()
    } else {
        suggestion_lines(cs, (n - 1) as nat) + match cs[n - 1].command {
            Some(cmd) => "  - "@ + cs[n - 1].label@ + ": `"@ + cmd@ + "`\n"@,
            None => Seq::empty(),
        }
    }
}

/// The summary appended after a task turn.
pub open spec fn finish_summary_spec(t: TaskState) -> Seq<char> {
    if t.plan_steps@.len() == 0 {
        Seq::empty()
    } else {
        "\n\n---\n任务流摘要\n"@ + "目标: "@ + t.goal@ + "\n"@ + (if t.changed_files@.len() == 0 {
            Seq::empty()
        } else {
            "改动文件: "@ + join_seq(views(t.changed_files@), ", "@) + "\n"@
        }) + (if t.verification_checks@.len() == 0 {
            Seq::empty()
        } else {
            "建议验证:\n"@ + suggestion_lines(t.verification_checks@, t.verification_checks@.len())
        }) + (if t.last_bash_failed {
            "状态: 最近命令失败，可使用 /retry 继续修复。\n"@
        } else {
            "状态: 本回合执行完成，可继续下一任务或 /status 查看进度。\n"@
        })
    }
}

/// The retry request after a failed command.
pub open spec fn retry_prompt_spec(t: TaskState) -> Option<Seq<char>> {
    if !t.last_bash_failed {
        None
    } else {
        let cmd = match t.last_bash_command {
            Some(c) => c@,
            None => "未知命令"@,
        };
        let err = if t.last_errors@.len() > 0 {
            t.last_errors@.last()@
        } else {
            Seq::empty()
        };
        Some(
            "上一步命令失败，请继续修复并重试。\n失败命令: "@ + cmd + "\n错误信息: "@ + err
                + "\n要求: 先定位根因，做最小修复，然后重新运行验证命令。"@,
        )
    }
}

/// The statuses of a list of steps.
pub open spec fn statuses(steps: Seq<PlanStep>) -> Seq<StepStatus> {
    steps.map_values(|s: PlanStep| s.status)
}

// ---------------------------------------------------------------------------
// Implementation
// ---------------------------------------------------------------------------

/// The default four-step plan, all pending.
pub fn default_plan_steps() -> (r: Vec<PlanStep>)
    ensures
        r@.len() == 4,
        step_descriptions(r@) == default_plan_descriptions(),
        forall|i: int| 0 <= i < r@.len() ==> r@[i].status == StepStatus::Pending,
{
    let mut v: Vec<PlanStep> = Vec::new();
    v.push(PlanStep { description: owned("理解需求并定位相关代码"), status: StepStatus::Pending });
    v.push(PlanStep { description: owned("实施最小必要改动"), status: StepStatus::Pending });
    v.push(PlanStep { description: owned("运行构建/测试验证"), status: StepStatus::Pending });
    v.push(PlanStep { description: owned("总结结果与后续建议"), status: StepStatus::Pending });
    assert(step_descriptions(v@) =~= default_plan_descriptions());
    v
}

fn check(label: &str, command: Option<&str>, message: &str) -> (r: VerificationCheck)
    ensures
        check_view(r) == (label@, match command {
            Some(c) => Some(c@),
            None => None::<Seq<char>>,
        }, None::<bool>, message@),
{
    let cmd = match command {
        Some(c) => Some(owned(c)),
        None => None,
    };
    VerificationCheck { label: owned(label), command: cmd, passed: None, message: owned(message) }
}

/// The checks to suggest for the project in the working directory.
pub fn detect_verification_checks(markers: ProjectMarkers) -> (r: Vec<VerificationCheck>)
    ensures
        check_views(r@) == verification_checks_spec(markers),
{
    let mut v: Vec<VerificationCheck> = Vec::new();
    if markers.has_cargo_toml {
        v.push(check("编译检查", Some("cargo build --release --locked"), "Rust 项目建议运行"));
        v.push(check("测试检查", Some("cargo test"), "如有测试，建议运行"));
    } else if markers.has_package_json {
        v.push(check("构建检查", Some("npm run build"), "Node 项目建议运行"));
        v.push(check("测试检查", Some("npm test"), "如有测试，建议运行"));
    } else if markers.has_go_mod {
        v.push(check("编译检查", Some("go build ./..."), "Go 项目建议运行"));
        v.push(check("测试检查", Some("go test ./..."), "建议运行"));
    } else {
        v = default_verification_checks();
    }
    assert(check_views(v@) =~= verification_checks_spec(markers));
    v
}

/// The manual check used when no project type is recognised.
pub fn default_verification_checks() -> (r: Vec<VerificationCheck>)
    ensures
        check_views(r@) == seq![("验证"@, None::<Seq<char>>, None::<bool>, "根据项目类型手动验证"@)],
{
    let mut v: Vec<VerificationCheck> = Vec::new();
    v.push(check("验证", None, "根据项目类型手动验证"));
    assert(check_views(v@) =~= seq![("验证"@, None::<Seq<char>>, None::<bool>, "根据项目类型手动验证"@)]);
    v
}

impl Default for TaskState {
    fn default() -> (r: Self)
        ensures
            r.goal@.len() == 0,
            r.plan_steps@.len() == 0,
            r.current_step == 0,
            r.verification_checks@.len() == 0,
            r.last_errors@.len() == 0,
            r.changed_files@.len() == 0,
            r.last_bash_command is None,
            !r.last_bash_failed,
            !r.checkpoint_suggested,
    {
        TaskState {
            goal: String::new(),
            plan_steps: Vec::new(),
            current_step: 0,
            verification_checks: Vec::new(),
            last_errors: Vec::new(),
            changed_files: Vec::new(),
            last_bash_command: None,
            last_bash_failed: false,
            checkpoint_suggested: false,
        }
    }
}

impl TaskState {
    /// Whether a request should get a plan.
    pub fn is_complex_task(input: &str) -> (r: bool)
        ensures
            r == is_complex_task_spec(input@),
    {
        let lc = to_lower(input);
        let l = lc.as_str();
        char_count(input) > 40 || contains(l, "实现") || contains(l, "修复") || contains(l, "重构")
            || contains(l, "调试") || contains(l, "优化") || contains(l, "添加") || contains(l, "删除")
            || contains(l, "迁移") || contains(l, "测试") || contains(l, "bug") || contains(
            l,
            "implement",
        ) || contains(l, "fix") || contains(l, "refactor") || contains(l, "debug") || contains(
            l,
            "optimize",
        ) || contains(l, "migrate") || contains(l, "test")
    }

    /// Starts a turn: records the goal, clears the last failure, and sets up a plan
    /// with its first step in progress for a task, or no plan for a simple question.
    pub fn begin_turn(&mut self, user_input: &str, markers: ProjectMarkers)
        ensures
            final(self).goal@ == user_input@,
            !final(self).last_bash_failed,
            final(self).last_errors@.len() == 0,
            final(self).current_step == 0,
            final(self).changed_files@ == old(self).changed_files@,
            final(self).last_bash_command == old(self).last_bash_command,
            final(self).checkpoint_suggested == old(self).checkpoint_suggested,
            is_complex_task_spec(user_input@) ==> {
                &&& step_descriptions(final(self).plan_steps@) == default_plan_descriptions()
                &&& statuses(final(self).plan_steps@) == seq![
                    StepStatus::InProgress,
                    StepStatus::Pending,
                    StepStatus::Pending,
                    StepStatus::Pending,
                ]
                &&& check_views(final(self).verification_checks@) == verification_checks_spec(markers)
            },
            !is_complex_task_spec(user_input@) ==> final(self).plan_steps@.len() == 0
                && final(self).verification_checks@.len() == 0,
    {
        self.goal = owned(user_input);
        self.last_bash_failed = false;
        self.last_errors = Vec::new();
        if TaskState::is_complex_task(user_input) {
            let mut steps = default_plan_steps();
            let first = PlanStep { description: steps[0].description.clone(), status: StepStatus::InProgress };
            steps.set(0, first);
            assert(step_descriptions(steps@) =~= default_plan_descriptions());
            assert(statuses(steps@) =~= seq![
                StepStatus::InProgress,
                StepStatus::Pending,
                StepStatus::Pending,
                StepStatus::Pending,
            ]);
            self.plan_steps = steps;
            self.current_step = 0;
            self.verification_checks = detect_verification_checks(markers);
        } else {
            self.plan_steps = Vec::new();
            self.current_step = 0;
            self.verification_checks = Vec::new();
        }
    }

    /// Records a changed file once; suggests a checkpoint from the third file on.
    pub fn record_file_change(&mut self, path: &str)
        ensures
            (exists|i: int| 0 <= i < old(self).changed_files@.len() && old(self).changed_files@[i]@
                == path@) ==> views(final(self).changed_files@) == views(old(self).changed_files@),
            !(exists|i: int| 0 <= i < old(self).changed_files@.len() && old(self).changed_files@[i]@
                == path@) ==> views(final(self).changed_files@) == views(old(self).changed_files@).push(path@),
            final(self).checkpoint_suggested == (old(self).checkpoint_suggested || final(self).changed_files@.len() >= 3),
            final(self).goal == old(self).goal,
            final(self).plan_steps@ == old(self).plan_steps@,
            final(self).current_step == old(self).current_step,
            final(self).last_bash_failed == old(self).last_bash_failed,
            final(self).last_bash_command == old(self).last_bash_command,
            final(self).last_errors@ == old(self).last_errors@,
            final(self).verification_checks@ == old(self).verification_checks@,
    {
        let found = vec_contains_str(&self.changed_files, path);
        if !found {
            let ghost before = self.changed_files@;
            let p = owned(path);
            self.changed_files.push(p);
            assert(views(self.changed_files@) =~= views(before).push(path@));
        }
        if self.changed_files.len() >= 3 && !self.checkpoint_suggested {
            self.checkpoint_suggested = true;
        }
    }

    /// Records a bash result; a failure keeps its message (or a default one) and
    /// marks the current step failed.
    pub fn record_bash_result(&mut self, command: &str, success: bool, message: Option<String>)
        ensures
            (final(self).last_bash_command matches Some(c) && c@ == command@),
            final(self).last_bash_failed == !success,
            success ==> views(final(self).last_errors@) == views(old(self).last_errors@),
            success ==> statuses(final(self).plan_steps@) == statuses(old(self).plan_steps@),
            !success ==> views(final(self).last_errors@) == views(old(self).last_errors@).push(
                match message {
                    Some(m) => m@,
                    None => "命令执行失败: "@ + command@,
                },
            ),
            !success ==> statuses(final(self).plan_steps@) == (if old(self).current_step
                < old(self).plan_steps@.len() {
                statuses(old(self).plan_steps@).update(old(self).current_step as int, StepStatus::Failed)
            } else {
                statuses(old(self).plan_steps@)
            }),
            step_descriptions(final(self).plan_steps@) == step_descriptions(old(self).plan_steps@),
            final(self).current_step == old(self).current_step,
            final(self).goal == old(self).goal,
            final(self).verification_checks@ == old(self).verification_checks@,
            final(self).changed_files@ == old(self).changed_files@,
    {
        self.last_bash_command = Some(owned(command));
        self.last_bash_failed = !success;
        if !success {
            let ghost before = self.last_errors@;
            let msg = match message {
                Some(m) => m,
                None => concat2("命令执行失败: ", command),
            };
            let ghost mv = msg@;
            self.last_errors.push(msg);
            assert(views(self.last_errors@) =~= views(before).push(mv));
            self.mark_current_failed();
        }
    }

    /// Moves the plan on after a turn: with tool calls the current step is done and
    /// the next one starts (never past the last step); without, an in-progress
    /// current step is done.
    pub fn advance_after_turn(&mut self, had_tool_calls: bool)
        ensures
            step_descriptions(final(self).plan_steps@) == step_descriptions(old(self).plan_steps@),
            old(self).plan_steps@.len() == 0 ==> final(self).current_step == old(self).current_step
                && statuses(final(self).plan_steps@) == statuses(old(self).plan_steps@),
            old(self).plan_steps@.len() > 0 && had_tool_calls && old(self).current_step + 1
                < old(self).plan_steps@.len() ==> final(self).current_step == old(self).current_step + 1
                && statuses(final(self).plan_steps@) == statuses(old(self).plan_steps@).update(
                old(self).current_step as int,
                StepStatus::Done,
            ).update(old(self).current_step + 1, StepStatus::InProgress),
            old(self).plan_steps@.len() > 0 && had_tool_calls && old(self).current_step + 1
                >= old(self).plan_steps@.len() ==> final(self).current_step == old(self).current_step
                && statuses(final(self).plan_steps@) == statuses(old(self).plan_steps@),
            old(self).plan_steps@.len() > 0 && !had_tool_calls ==> final(self).current_step == old(
                self,
            ).current_step && statuses(final(self).plan_steps@) == (if old(self).current_step
                < old(self).plan_steps@.len() && old(self).plan_steps@[old(self).current_step as int].status
                == StepStatus::InProgress {
                statuses(old(self).plan_steps@).update(old(self).current_step as int, StepStatus::Done)
            } else {
                statuses(old(self).plan_steps@)
            }),
            final(self).goal == old(self).goal,
            final(self).last_bash_failed == old(self).last_bash_failed,
            final(self).changed_files@ == old(self).changed_files@,
            final(self).last_errors@ == old(self).last_errors@,
            final(self).verification_checks@ == old(self).verification_checks@,
            final(self).last_bash_command == old(self).last_bash_command,
            final(self).checkpoint_suggested == old(self).checkpoint_suggested,
    {
        let n = self.plan_steps.len();
        if n == 0 {
            return;
        }
        if had_tool_calls {
            if self.current_step < n - 1 {
                let cur = self.current_step;
                set_status(&mut self.plan_steps, cur, StepStatus::Done);
                self.current_step = cur + 1;
                set_status(&mut self.plan_steps, cur + 1, StepStatus::InProgress);
            }
        } else if self.current_step < n {
            let cur = self.current_step;
            if self.plan_steps[cur].status == StepStatus::InProgress {
                set_status(&mut self.plan_steps, cur, StepStatus::Done);
            }
        }
    }

    /// Marks the current step failed, if there is one.
    pub fn mark_current_failed(&mut self)
        ensures
            statuses(final(self).plan_steps@) == (if old(self).current_step < old(self).plan_steps@.len() {
                statuses(old(self).plan_steps@).update(old(self).current_step as int, StepStatus::Failed)
            } else {
                statuses(old(self).plan_steps@)
            }),
            step_descriptions(final(self).plan_steps@) == step_descriptions(old(self).plan_steps@),
            final(self).current_step == old(self).current_step,
            final(self).goal == old(self).goal,
            final(self).last_errors == old(self).last_errors,
            final(self).last_bash_failed == old(self).last_bash_failed,
            final(self).last_bash_command == old(self).last_bash_command,
            final(self).verification_checks@ == old(self).verification_checks@,
            final(self).changed_files@ == old(self).changed_files@,
            final(self).checkpoint_suggested == old(self).checkpoint_suggested,
    {
        if self.current_step < self.plan_steps.len() {
            let cur = self.current_step;
            set_status(&mut self.plan_steps, cur, StepStatus::Failed);
        }
    }

    /// The retry request after a failed command, if the last command failed.
    pub fn retry_prompt(&self) -> (r: Option<String>)
        ensures
            match r {
                Some(s) => retry_prompt_spec(*self) == Some(s@),
                None => retry_prompt_spec(*self) is None,
            },
    {
        if !self.last_bash_failed {
            return None;
        }
        let cmd = match &self.last_bash_command {
            Some(c) => c.clone(),
            None => owned("未知命令"),
        };
        let n = self.last_errors.len();
        let err = if n > 0 {
            self.last_errors[n - 1].clone()
        } else {
            String::new()
        };
        let mut out = concat2("上一步命令失败，请继续修复并重试。\n失败命令: ", cmd.as_str());
        out.append("\n错误信息: ");
        out.append(err.as_str());
        out.append("\n要求: 先定位根因，做最小修复，然后重新运行验证命令。");
        Some(out)
    }

    /// The plan listing for `/plan`.
    pub fn format_plan(&self) -> (r: String)
        ensures
            r@ == format_plan_spec(*self),
    {
        let n = self.plan_steps.len();
        if n == 0 {
            return owned("当前没有结构化任务计划（简单问答模式）。");
        }
        let mut out = concat3("任务目标: ", self.goal.as_str(), "\n\n计划步骤:\n");
        let ghost head = out@;
        let mut i: usize = 0;
        while i < n
            invariant
                n == self.plan_steps@.len(),
                i <= n,
                out@ == head + plan_lines(self.plan_steps@, self.current_step as nat, i as nat),
            decreases n - i,
        {
            let line = plan_line_string(i, &self.plan_steps[i], self.current_step);
            out.append(line.as_str());
            i = i + 1;
        }
        out
    }

    /// The status report for `/status`.
    pub fn format_status(&self) -> (r: String)
        ensures
            r@ == format_status_spec(*self),
    {
        let mut out = self.format_plan();
        out.append("\n验证状态:\n");
        let checks = self.checks_block();
        out.append(checks.as_str());
        let mut files = String::new();
        if self.changed_files.len() > 0 {
            files.append("\n已修改文件:\n");
            append_bullets(&mut files, &self.changed_files, 0);
        }
        out.append(files.as_str());
        if self.checkpoint_suggested {
            out.append("\n安全提示: 改动较多，建议先创建检查点（例如 git commit 或 git stash）。\n");
        } else {
            out.append("");
        }
        let mut errs = String::new();
        let ne = self.last_errors.len();
        if ne > 0 {
            errs.append("\n最近错误:\n");
            let from = if ne > 3 {
                ne - 3
            } else {
                0
            };
            append_bullets(&mut errs, &self.last_errors, from);
        }
        out.append(errs.as_str());
        proof {
            assert(""@ =~= Seq::<char>::empty()) by {
                reveal_strlit("");
            }
        }
        out
    }

    fn checks_block(&self) -> (r: String)
        ensures
            r@ == (if self.verification_checks@.len() == 0 {
                "  （无）\n"@
            } else {
                check_lines(self.verification_checks@, self.verification_checks@.len())
            }),
    {
        let nc = self.verification_checks.len();
        if nc == 0 {
            return owned("  （无）\n");
        }
        let mut out = String::new();
        let mut i: usize = 0;
        while i < nc
            invariant
                nc == self.verification_checks@.len(),
                i <= nc,
                out@ == check_lines(self.verification_checks@, i as nat),
            decreases nc - i,
        {
            let line = check_line_string(&self.verification_checks[i]);
            out.append(line.as_str());
            i = i + 1;
        }
        out
    }

    /// The task context prepended to a turn, when there is a plan.
    pub fn turn_context_block(&self) -> (r: Option<String>)
        requires
            self.current_step < usize::MAX,
        ensures
            self.plan_steps@.len() == 0 ==> r is None,
            self.plan_steps@.len() > 0 ==> (r matches Some(s) && s@ == "[任务流上下文]\n目标: "@
                + self.goal@ + "\n当前步骤: "@ + decimal((self.current_step + 1) as nat) + "/"@ + decimal(
                self.plan_steps@.len(),
            ) + "\n请遵循: 先计划(3-5步) -> 执行 -> 验证 -> 总结。\n若命令失败，给出可执行修复路径并重试验证。"@),
    {
        let n = self.plan_steps.len();
        if n == 0 {
            return None;
        }
        let mut out = concat2("[任务流上下文]\n目标: ", self.goal.as_str());
        out.append("\n当前步骤: ");
        let cur = decimal_string(self.current_step + 1);
        out.append(cur.as_str());
        out.append("/");
        let total = decimal_string(n);
        out.append(total.as_str());
        out.append("\n请遵循: 先计划(3-5步) -> 执行 -> 验证 -> 总结。\n若命令失败，给出可执行修复路径并重试验证。");
        Some(out)
    }

    /// The task summary after a turn (empty without a plan).
    pub fn finish_summary(&self) -> (r: String)
        ensures
            r@ == finish_summary_spec(*self),
    {
        if self.plan_steps.len() == 0 {
            return String::new();
        }
        let mut s = owned("\n\n---\n任务流摘要\n");
        s.append("目标: ");
        s.append(self.goal.as_str());
        s.append("\n");
        if self.changed_files.len() > 0 {
            s.append("改动文件: ");
            let j = join(&self.changed_files, ", ");
            s.append(j.as_str());
            s.append("\n");
        }
        let nc = self.verification_checks.len();
        if nc > 0 {
            s.append("建议验证:\n");
            let ghost head = s@;
            let mut i: usize = 0;
            while i < nc
                invariant
                    nc == self.verification_checks@.len(),
                    i <= nc,
                    s@ == head + suggestion_lines(self.verification_checks@, i as nat),
                decreases nc - i,
            {
                let v = &self.verification_checks[i];
                match &v.command {
                    Some(cmd) => {
                        s.append("  - ");
                        s.append(v.label.as_str());
                        s.append(": `");
                        s.append(cmd.as_str());
                        s.append("`\n");
                    },
                    None => {
                        assert(s@ =~= s@ + Seq::<char>::empty());
                    },
                }
                i = i + 1;
            }
        }
        if self.last_bash_failed {
            s.append("状态: 最近命令失败，可使用 /retry 继续修复。\n");
        } else {
            s.append("状态: 本回合执行完成，可继续下一任务或 /status 查看进度。\n");
        }
        s
    }
}

fn plan_line_string(i: usize, step: &PlanStep, current: usize) -> (r: String)
    requires
        i < usize::MAX,
    ensures
        r@ == plan_line(i as nat, *step, current as nat),
{
    let mut out = owned("  ");
    out.append(marker(step.status));
    out.append(" ");
    let num = decimal_string(i + 1);
    out.append(num.as_str());
    out.append(". ");
    out.append(step.description.as_str());
    if i == current {
        out.append(" ← 当前");
    } else {
        out.append("");
        proof {
            assert(""@ =~= Seq::<char>::empty()) by {
                reveal_strlit("");
            }
        }
    }
    out.append("\n");
    out
}

fn check_line_string(c: &VerificationCheck) -> (r: String)
    ensures
        r@ == "  - ["@ + check_status_word(c.passed) + "] "@ + c.label@ + ": "@ + c.message@ + "\n"@,
{
    let mut out = owned("  - [");
    out.append(status_word(c.passed));
    out.append("] ");
    out.append(c.label.as_str());
    out.append(": ");
    out.append(c.message.as_str());
    out.append("\n");
    out
}

fn set_status(steps: &mut Vec<PlanStep>, i: usize, status: StepStatus)
    requires
        i < old(steps)@.len(),
    ensures
        statuses(final(steps)@) == statuses(old(steps)@).update(i as int, status),
        step_descriptions(final(steps)@) == step_descriptions(old(steps)@),
        final(steps)@.len() == old(steps)@.len(),
{
    let d = steps[i].description.clone();
    let ghost before = steps@;
    steps.set(i, PlanStep { description: d, status });
    assert(statuses(steps@) =~= statuses(before).update(i as int, status));
    assert(step_descriptions(steps@) =~= step_descriptions(before));
}

fn marker(s: StepStatus) -> (r: &'static str)
    ensures
        r@ == status_marker(s),
{
    match s {
        StepStatus::Pending => "[ ]",
        StepStatus::InProgress => "[→]",
        StepStatus::Done => "[✓]",
        StepStatus::Failed => "[✗]",
    }
}

fn status_word(p: Option<bool>) -> (r: &'static str)
    ensures
        r@ == check_status_word(p),
{
    match p {
        Some(true) => "通过",
        Some(false) => "失败",
        None => "待执行",
    }
}

fn append_bullets(out: &mut String, items: &Vec<String>, from: usize)
    requires
        from <= items@.len(),
    ensures
        final(out)@ == old(out)@ + bullet_lines(items@, from as nat, items@.len()),
{
    let n = items.len();
    let mut i: usize = from;
    assert(bullet_lines(items@, from as nat, from as nat) == Seq::<char>::empty());
    assert(old(out)@ =~= old(out)@ + Seq::<char>::empty());
    while i < n
        invariant
            n == items@.len(),
            from <= i <= n,
            out@ == old(out)@ + bullet_lines(items@, from as nat, i as nat),
        decreases n - i,
    {
        out.append("  - ");
        out.append(items[i].as_str());
        out.append("\n");
        i = i + 1;
    }
}

} // verus!
