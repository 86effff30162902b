//! The OS sandbox for bash: which backend runs a command, and with which
//! arguments or profile. Probing for backends and spawning are the
//! application's part.
use vstd::prelude::*;
use crate::text::{concat3, owned, views};

verus! {

/// The sandbox settings.
#[derive(Debug, Clone)]
pub struct SandboxConfig {
    pub enabled: bool,
    pub allow_network: bool,
    pub auto_allow_sandboxed_bash: bool,
    pub extra_read_paths: Vec<String>,
    pub extra_write_paths: Vec<String>,
}

impl Default for SandboxConfig {
    fn default() -> (r: SandboxConfig)
        ensures
            !r.enabled,
            !r.allow_network,
            !r.auto_allow_sandboxed_bash,
            r.extra_read_paths@.len() == 0,
            r.extra_write_paths@.len() == 0,
    {
        SandboxConfig {
            enabled: false,
            allow_network: false,
            auto_allow_sandboxed_bash: false,
            extra_read_paths: Vec::new(),
            extra_write_paths: Vec::new(),
        }
    }
}

/// The value of settings that a configuration file leaves out (`enabled`
/// and `auto_allow_sandboxed_bash`).
pub fn default_true() -> (r: bool)
    ensures
        r,
{
    true
}

impl SandboxConfig {
    /// Whether sandboxed bash runs without asking.
    pub fn effective_auto_allow(&self) -> (r: bool)
        ensures
            r == self.auto_allow_sandboxed_bash,
    {
        self.auto_allow_sandboxed_bash
    }
}

/// The sandbox programs.
#[derive(Debug, Clone, Copy, PartialEq, Eq, Structural)]
pub enum SandboxBackend {
    Bubblewrap,
    SandboxExec,
    Unavailable,
}

/// The settings and the backend found on this machine.
#[derive(Debug, Clone)]
pub struct SandboxRunner {
    pub config: SandboxConfig,
    pub backend: SandboxBackend,
}

/// How a command is started.
#[derive(Debug, Clone, Copy, PartialEq, Eq, Structural)]
pub enum ExecPlan {
    /// Plain `sh -c` (sandbox off).
    Plain,
    Bubblewrap,
    SandboxExec,
}

/// The message when the sandbox is on and no backend exists.
pub open spec fn no_backend_message() -> Seq<char> {
    "沙箱已启用但当前平台无可用沙箱后端。\nLinux: 请安装 bubblewrap (bwrap)\nmacOS: 需要 sandbox-exec\nWindows: 请使用 WSL 或在配置中设置 sandbox.enabled = false"@
}

impl SandboxRunner {
    /// A runner with the settings and the backend that was probed.
    pub fn new(config: &SandboxConfig, backend: SandboxBackend) -> (r: SandboxRunner)
        ensures
            r.backend == backend,
            r.config.enabled == config.enabled,
            r.config.allow_network == config.allow_network,
            r.config.auto_allow_sandboxed_bash == config.auto_allow_sandboxed_bash,
    {
        SandboxRunner {
            config: SandboxConfig {
                enabled: config.enabled,
                allow_network: config.allow_network,
                auto_allow_sandboxed_bash: config.auto_allow_sandboxed_bash,
                extra_read_paths: config.extra_read_paths.clone(),
                extra_write_paths: config.extra_write_paths.clone(),
            },
            backend,
        }
    }

    pub fn backend(&self) -> (r: SandboxBackend)
        ensures
            r == self.backend,
    {
        self.backend
    }

    /// Fails when the sandbox is on and there is no backend.
    pub fn ensure_available(&self) -> (r: Result<(), String>)
        ensures
            r is Err <==> self.config.enabled && self.backend == SandboxBackend::Unavailable,
            r matches Err(m) ==> m@ == no_backend_message(),
    {
        if !self.config.enabled {
            return Ok(());
        }
        if self.backend == SandboxBackend::Unavailable {
            return Err(owned(
                "沙箱已启用但当前平台无可用沙箱后端。\nLinux: 请安装 bubblewrap (bwrap)\nmacOS: 需要 sandbox-exec\nWindows: 请使用 WSL 或在配置中设置 sandbox.enabled = false",
            ));
        }
        Ok(())
    }

    pub fn is_enabled(&self) -> (r: bool)
        ensures
            r == self.config.enabled,
    {
        self.config.enabled
    }

    pub fn auto_allow_sandboxed_bash(&self) -> (r: bool)
        ensures
            r == self.config.auto_allow_sandboxed_bash,
    {
        self.config.effective_auto_allow()
    }

    /// How to start a command: plain without the sandbox, else through the
    /// backend; refused when no backend exists.
    pub fn exec_plan(&self) -> (r: Result<ExecPlan, String>)
        ensures
            !self.config.enabled ==> r == Ok::<ExecPlan, String>(ExecPlan::Plain),
            self.config.enabled && self.backend == SandboxBackend::Bubblewrap ==> r == Ok::<ExecPlan, String>(ExecPlan::Bubblewrap),
            self.config.enabled && self.backend == SandboxBackend::SandboxExec ==> r == Ok::<ExecPlan, String>(ExecPlan::SandboxExec),
            self.config.enabled && self.backend == SandboxBackend::Unavailable ==> r is Err && r->Err_0@ == no_backend_message(),
    {
        match self.ensure_available() {
            Err(e) => Err(e),
            Ok(()) => {
                if !self.config.enabled {
                    Ok(ExecPlan::Plain)
                } else if self.backend == SandboxBackend::Bubblewrap {
                    Ok(ExecPlan::Bubblewrap)
                } else {
                    Ok(ExecPlan::SandboxExec)
                }
            },
        }
    }
}

/// Three arguments per extra path: the flag and the path twice.
pub open spec fn bind_args(flag: Seq<char>, paths: Seq<Seq<char>>) -> Seq<Seq<char>>
    decreases paths.len(),
{
    if paths.len() == 0 {
        Seq::empty()
    } else {
        bind_args(flag, paths.drop_last()) + seq![flag, paths.last(), paths.last()]
    }
}

/// The `bwrap` arguments: the root read-only, the working directory
/// writable, no network unless allowed, the extra paths (those that exist,
/// canonical), then `sh -c command`.
pub open spec fn bwrap_args_spec(
    command: Seq<char>,
    work: Seq<char>,
    allow_network: bool,
    read: Seq<Seq<char>>,
    write: Seq<Seq<char>>,
) -> Seq<Seq<char>> {
    seq![
        "--die-with-parent"@, "--unshare-all"@, "--new-session"@, "--ro-bind"@, "/"@, "/"@, "--bind"@,
        work, work, "--chdir"@, work, "--dev"@, "/dev"@, "--proc"@, "/proc"@, "--tmpfs"@, "/tmp"@,
    ] + (if allow_network { Seq::empty() } else { seq!["--unshare-net"@] }) + bind_args("--ro-bind"@, read)
        + bind_args("--bind"@, write) + seq!["--"@, "sh"@, "-c"@, command]
}

fn push_binds(args: &mut Vec<String>, flag: &str, paths: &Vec<String>)
    ensures
        views(final(args)@) == views(old(args)@) + bind_args(flag@, views(paths@)),
{
    let ghost start = views(args@);
    let mut i: usize = 0;
    while i < paths.len()
        invariant
            i <= paths@.len(),
            views(args@) == start + bind_args(flag@, views(paths@).take(i as int)),
        decreases paths.len() - i,
    {
        proof {
            assert(views(paths@).take(i + 1).drop_last() =~= views(paths@).take(i as int));
            assert(views(paths@).take(i + 1).last() == paths@[i as int]@);
        }
        let ghost before = views(args@);
        args.push(owned(flag));
        args.push(owned(paths[i].as_str()));
        args.push(owned(paths[i].as_str()));
        proof {
            assert(views(args@) =~= before + seq![flag@, paths@[i as int]@, paths@[i as int]@]);
        }
        i += 1;
    }
    proof {
        assert(views(paths@).take(i as int) =~= views(paths@));
    }
}

/// The arguments of `bwrap` for a command.
pub fn bwrap_args(command: &str, work: &str, allow_network: bool, read: &Vec<String>, write: &Vec<String>) -> (r: Vec<String>)
    ensures
        views(r@) == bwrap_args_spec(command@, work@, allow_network, views(read@), views(write@)),
{
    let fixed = vec![
        "--die-with-parent", "--unshare-all", "--new-session", "--ro-bind", "/", "/", "--bind", work,
        work, "--chdir", work, "--dev", "/dev", "--proc", "/proc", "--tmpfs", "/tmp",
    ];
    let mut args: Vec<String> = Vec::new();
    let mut i: usize = 0;
    while i < fixed.len()
        invariant
            i <= fixed@.len(),
            views(args@) == fixed@.take(i as int).map_values(|s: &str| s@),
        decreases fixed.len() - i,
    {
        let ghost before = args@;
        let s = owned(fixed[i]);
        args.push(s);
        proof {
            crate::text::lemma_views_push(before, s);
            assert(fixed@.take(i + 1).map_values(|s: &str| s@) =~= fixed@.take(i as int).map_values(|s: &str| s@).push(fixed@[i as int]@));
        }
        i += 1;
    }
    proof {
        assert(fixed@.take(i as int) =~= fixed@);
        assert(fixed@.map_values(|s: &str| s@) =~= seq![
            "--die-with-parent"@, "--unshare-all"@, "--new-session"@, "--ro-bind"@, "/"@, "/"@, "--bind"@,
            work@, work@, "--chdir"@, work@, "--dev"@, "/dev"@, "--proc"@, "/proc"@, "--tmpfs"@, "/tmp"@,
        ]);
    }
    let ghost base = views(args@);
    if !allow_network {
        let ghost before = args@;
        let s = owned("--unshare-net");
        args.push(s);
        proof {
            crate::text::lemma_views_push(before, s);
            assert(views(args@) =~= base + seq!["--unshare-net"@]);
        }
    } else {
        assert(base =~= base + Seq::<Seq<char>>::empty());
    }
    let ghost mid = views(args@);
    push_binds(&mut args, "--ro-bind", read);
    push_binds(&mut args, "--bind", write);
    let ghost tail = views(args@);
    let tail_parts = vec!["--", "sh", "-c", command];
    let mut j: usize = 0;
    while j < tail_parts.len()
        invariant
            j <= tail_parts@.len(),
            views(args@) == tail + tail_parts@.take(j as int).map_values(|s: &str| s@),
        decreases tail_parts.len() - j,
    {
        let ghost before = args@;
        let s = owned(tail_parts[j]);
        args.push(s);
        proof {
            crate::text::lemma_views_push(before, s);
            assert(tail_parts@.take(j + 1).map_values(|s: &str| s@) =~= tail_parts@.take(j as int).map_values(|s: &str| s@).push(tail_parts@[j as int]@));
        }
        j += 1;
    }
    proof {
        assert(tail_parts@.take(j as int) =~= tail_parts@);
        assert(tail_parts@.map_values(|s: &str| s@) =~= seq!["--"@, "sh"@, "-c"@, command@]);
        assert(mid == base + (if allow_network { Seq::<Seq<char>>::empty() } else { seq!["--unshare-net"@] }));
        assert(views(args@) =~= bwrap_args_spec(command@, work@, allow_network, views(read@), views(write@)));
    }
    args
}

/// The `sandbox-exec` profile: everything denied but processes, reading,
/// and writing in the working directory and the temporary directories.
pub open spec fn sandbox_profile_spec(work: Seq<char>) -> Seq<char> {
    "(version 1)\n(deny default)\n(allow process*)\n(allow sysctl-read)\n(allow file-read*)\n(allow file-write* (subpath \""@
        + work + "\"))\n(allow file-write* (subpath \"/tmp\"))\n(allow file-write* (subpath \"/var/folders\"))\n"@
}

/// The `sandbox-exec` profile for a working directory.
pub fn sandbox_exec_profile(work: &str) -> (r: String)
    ensures
        r@ == sandbox_profile_spec(work@),
{
    concat3(
        "(version 1)\n(deny default)\n(allow process*)\n(allow sysctl-read)\n(allow file-read*)\n(allow file-write* (subpath \"",
        work,
        "\"))\n(allow file-write* (subpath \"/tmp\"))\n(allow file-write* (subpath \"/var/folders\"))\n",
    )
}

} // verus!
