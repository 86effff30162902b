//! The `bash` tool's result: previews of the output, and for a failure its
//! reason and a hint for the retry.
use vstd::prelude::*;
use crate::hooks::signed_decimal;
use crate::text::{
    chars_of, concat2, concat3, contains, contains_seq, decimal, is_empty_str, lowercase, owned,
    string_from_range, to_lower, trim, trim_seq,
};
use crate::tools::{truncate_output, truncate_output_spec};
use crate::ui::terminal::{strip_ansi, strip_ansi_spec};

verus! {

/// Seconds before a command is stopped.
pub const TIMEOUT_SECS: u64 = 120;

/// Characters kept of each output stream.
pub const PREVIEW_CHARS: usize = 1200;

/// The result of a bash call, as the model receives it.
#[derive(Debug, Clone)]
pub struct BashResult {
    pub success: bool,
    pub exit_code: i32,
    pub timed_out: bool,
    pub command: String,
    pub stdout_preview: String,
    pub stderr_preview: String,
    pub failure_reason: Option<String>,
    pub retry_hint: Option<String>,
}

/// An output stream without escape sequences, cut to the preview length.
pub open spec fn preview_spec(text: Seq<char>) -> Seq<char> {
    truncate_output_spec(strip_ansi_spec(text), 1200)
}

/// The preview of an output stream.
pub fn preview(text: &str) -> (r: String)
    ensures
        r@ == preview_spec(text@),
{
    let clean = strip_ansi(text);
    truncate_output(clean.as_str(), PREVIEW_CHARS)
}

/// Whether a (lowercase) command probably waits on a window.
pub open spec fn gui_blocking_spec(lower: Seq<char>) -> bool {
    contains_seq(lower, "plt.show"@) || contains_seq(lower, ".show()"@) || (contains_seq(lower, "matplotlib"@)
        && contains_seq(lower, "show"@))
}

/// Whether a lowercase command probably waits on a window (`plt.show()`).
pub fn is_gui_blocking_command(lower: &str) -> (r: bool)
    ensures
        r == gui_blocking_spec(lower@),
{
    contains(lower, "plt.show") || contains(lower, ".show()") || (contains(lower, "matplotlib") && contains(lower, "show"))
}

/// The reason given for a timeout.
pub fn timeout_failure_message(command: &str) -> (r: String)
    ensures
        gui_blocking_spec(lowercase(command@)) ==> r@ == "命令执行超时（>120s）：可能因缺少 GUI 环境阻塞（如 plt.show()）"@,
        !gui_blocking_spec(lowercase(command@)) ==> r@ == "命令执行超时（>120s）"@,
{
    let lower = to_lower(command);
    if is_gui_blocking_command(lower.as_str()) {
        owned("命令执行超时（>120s）：可能因缺少 GUI 环境阻塞（如 plt.show()）")
    } else {
        owned("命令执行超时（>120s）")
    }
}

/// The retry hint after a timeout.
pub fn timeout_retry_hint(command: &str) -> (r: String)
    ensures
        gui_blocking_spec(lowercase(command@)) ==> r@ == "将 plt.show() 改为 plt.savefig()，或设置 matplotlib 使用 Agg 后端后重试"@,
        !gui_blocking_spec(lowercase(command@)) ==> r@ == "缩小命令范围或拆分步骤后重试"@,
{
    let lower = to_lower(command);
    if is_gui_blocking_command(lower.as_str()) {
        owned("将 plt.show() 改为 plt.savefig()，或设置 matplotlib 使用 Agg 后端后重试")
    } else {
        owned("缩小命令范围或拆分步骤后重试")
    }
}

/// The reason for a non-zero exit: the trimmed error output (else the
/// standard output) cut to 240 characters, or the exit code alone.
pub open spec fn failure_spec(code: int, stderr: Seq<char>, stdout: Seq<char>) -> Seq<char> {
    let err = if trim_seq(stderr).len() > 0 { trim_seq(stderr) } else { trim_seq(stdout) };
    if err.len() == 0 {
        "命令以非 0 退出（退出码: "@ + signed_decimal(code) + "）"@
    } else {
        "退出码 "@ + signed_decimal(code) + ": "@ + (if err.len() <= 240 { err } else { err.take(240) })
    }
}

fn signed_text(n: i32) -> (r: String)
    ensures
        r@ == signed_decimal(n as int),
{
    if n < 0 {
        let m: i64 = -(n as i64);
        let s = crate::text::decimal_string(m as usize);
        concat2("-", s.as_str())
    } else {
        crate::text::decimal_string(n as usize)
    }
}

/// Explains a non-zero exit.
pub fn classify_failure(code: i32, stderr: &str, stdout: &str) -> (r: String)
    ensures
        r@ == failure_spec(code as int, stderr@, stdout@),
{
    let e = trim(stderr);
    let err = if !is_empty_str(e.as_str()) {
        e
    } else {
        trim(stdout)
    };
    let n = signed_text(code);
    if is_empty_str(err.as_str()) {
        return concat3("命令以非 0 退出（退出码: ", n.as_str(), "）");
    }
    let v = chars_of(err.as_str());
    let k: usize = if v.len() <= 240 { v.len() } else { 240 };
    let head = string_from_range(v.as_slice(), 0, k);
    proof {
        if v@.len() <= 240 {
            assert(head@ =~= err@);
        } else {
            assert(head@ =~= err@.take(240));
        }
    }
    let mut s = concat3("退出码 ", n.as_str(), ": ");
    s.append(head.as_str());
    s
}

/// The hint for retrying a failed command, from its text and error output.
pub open spec fn retry_hint_spec(command: Seq<char>, code: int, stderr: Seq<char>) -> Seq<char> {
    let lower = lowercase(command + " "@ + stderr);
    if contains_seq(lower, "not found"@) || contains_seq(lower, "no such file"@) {
        "检查命令是否存在、PATH 是否正确、工作目录是否正确"@
    } else if contains_seq(lower, "permission denied"@) {
        "检查文件权限或使用合适用户执行"@
    } else if contains_seq(lower, "could not compile"@) || contains_seq(lower, "error:"@) {
        "先修复编译错误，再重新运行 cargo build/test"@
    } else if code == 127 {
        "命令未找到，确认依赖已安装且命令拼写正确"@
    } else {
        "根据 stderr 定位根因后，做最小修复并重试同一命令"@
    }
}

/// A hint for retrying a failed command.
pub fn retry_hint_for(command: &str, code: i32, stderr: &str) -> (r: String)
    ensures
        r@ == retry_hint_spec(command@, code as int, stderr@),
{
    let joined = concat3(command, " ", stderr);
    let lower = to_lower(joined.as_str());
    let l = lower.as_str();
    if contains(l, "not found") || contains(l, "no such file") {
        return owned("检查命令是否存在、PATH 是否正确、工作目录是否正确");
    }
    if contains(l, "permission denied") {
        return owned("检查文件权限或使用合适用户执行");
    }
    if contains(l, "could not compile") || contains(l, "error:") {
        return owned("先修复编译错误，再重新运行 cargo build/test");
    }
    if code == 127 {
        return owned("命令未找到，确认依赖已安装且命令拼写正确");
    }
    owned("根据 stderr 定位根因后，做最小修复并重试同一命令")
}

impl BashResult {
    /// The result of a command that finished: previews of both streams, and
    /// for a failure its reason and retry hint.
    pub fn finished(command: &str, code: i32, success: bool, stdout: &str, stderr: &str) -> (r: BashResult)
        ensures
            r.success == success,
            r.exit_code == code,
            !r.timed_out,
            r.command@ == command@,
            r.stdout_preview@ == preview_spec(stdout@),
            r.stderr_preview@ == preview_spec(stderr@),
            success ==> r.failure_reason is None && r.retry_hint is None,
            !success ==> (r.failure_reason matches Some(f) && f@ == failure_spec(code as int, stderr@, stdout@))
                && (r.retry_hint matches Some(h) && h@ == retry_hint_spec(command@, code as int, stderr@)),
    {
        let (failure_reason, retry_hint) = if success {
            (None, None)
        } else {
            (Some(classify_failure(code, stderr, stdout)), Some(retry_hint_for(command, code, stderr)))
        };
        BashResult {
            success,
            exit_code: code,
            timed_out: false,
            command: owned(command),
            stdout_preview: preview(stdout),
            stderr_preview: preview(stderr),
            failure_reason,
            retry_hint,
        }
    }

    /// The result of a command stopped after the time limit.
    pub fn timed_out(command: &str) -> (r: BashResult)
        ensures
            !r.success,
            r.exit_code == -1,
            r.timed_out,
            r.command@ == command@,
            r.stdout_preview@.len() == 0,
            r.stderr_preview@.len() == 0,
            r.failure_reason matches Some(f) && (gui_blocking_spec(lowercase(command@)) ==> f@
                == "命令执行超时（>120s）：可能因缺少 GUI 环境阻塞（如 plt.show()）"@) && (!gui_blocking_spec(
                lowercase(command@),
            ) ==> f@ == "命令执行超时（>120s）"@),
            r.retry_hint is Some,
    {
        BashResult {
            success: false,
            exit_code: -1,
            timed_out: true,
            command: owned(command),
            stdout_preview: String::new(),
            stderr_preview: String::new(),
            failure_reason: Some(timeout_failure_message(command)),
            retry_hint: Some(timeout_retry_hint(command)),
        }
    }
}

} // verus!
