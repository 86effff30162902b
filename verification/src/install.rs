//! Installing the binary: where it goes, whether the PATH is configured, and
//! how the Windows user PATH gains the install directory. Copying the file
//! and the registry are the application's part.
use vstd::prelude::*;
use crate::text::{chars_of, concat2, concat3, owned, push_char, str_eq, trim_seq};

verus! {

/// What `install` was asked.
pub struct InstallOptions {
    pub install_dir: Option<String>,
    pub skip_path: bool,
}

/// The binary's file name.
pub fn binary_name(windows: bool) -> (r: &'static str)
    ensures
        r@ == if windows { "onemini.exe"@ } else { "onemini"@ },
{
    if windows { "onemini.exe" } else { "onemini" }
}

/// The install directory: `ONEMINI_INSTALL_DIR`, else `.local/bin` under the
/// home directory.
pub fn default_install_dir(env_dir: Option<&str>, home: Option<&str>) -> (r: Option<String>)
    ensures
        match env_dir {
            Some(d) => r matches Some(x) && x@ == d@,
            None => match home {
                Some(h) => r matches Some(x) && x@ == h@ + "/.local/bin"@,
                None => r is None,
            },
        },
{
    match env_dir {
        Some(d) => Some(owned(d)),
        None => match home {
            Some(h) => Some(concat2(h, "/.local/bin")),
            None => None,
        },
    }
}

/// Whether the PATH is configured: not with `--skip-path` or `ONEMINI_SKIP_PATH=1`.
pub fn configure_path(skip_path: bool, skip_env: Option<&str>) -> (r: bool)
    ensures
        r == (!skip_path && !(match skip_env { Some(v) => v@ == "1"@, None => false })),
{
    let env = match skip_env {
        Some(v) => str_eq(v, "1"),
        None => false,
    };
    !skip_path && !env
}

/// The parts of a text between the separators (`str::split` with a character).
pub open spec fn segments(s: Seq<char>, sep: char) -> Seq<Seq<char>>
    decreases s.len(),
{
    if s.len() == 0 {
        seq![Seq::empty()]
    } else {
        let prev = segments(s.drop_last(), sep);
        if s.last() == sep {
            prev.push(Seq::empty())
        } else {
            prev.update(prev.len() - 1, prev.last().push(s.last()))
        }
    }
}

proof fn lemma_segments_nonempty(s: Seq<char>, sep: char)
    ensures
        segments(s, sep).len() >= 1,
    decreases s.len(),
{
    if s.len() > 0 {
        lemma_segments_nonempty(s.drop_last(), sep);
    }
}

/// The text without trailing `\` and `/`.
pub open spec fn trim_end_slashes(s: Seq<char>) -> Seq<char>
    decreases s.len(),
{
    if s.len() > 0 && (s.last() == '\\' || s.last() == '/') {
        trim_end_slashes(s.drop_last())
    } else {
        s
    }
}

fn trim_end_slashes_exec(s: &Vec<char>) -> (r: Vec<char>)
    ensures
        r@ == trim_end_slashes(s@),
{
    let mut j: usize = s.len();
    proof {
        assert(s@.take(s@.len() as int) =~= s@);
    }
    while j > 0 && (s[j - 1] == '\\' || s[j - 1] == '/')
        invariant
            j <= s@.len(),
            trim_end_slashes(s@) == trim_end_slashes(s@.take(j as int)),
        decreases j,
    {
        proof {
            assert(s@.take(j as int).drop_last() =~= s@.take(j - 1));
        }
        j -= 1;
    }
    let mut out: Vec<char> = Vec::new();
    let mut i: usize = 0;
    while i < j
        invariant
            i <= j <= s@.len(),
            out@ == s@.take(i as int),
        decreases j - i,
    {
        out.push(s[i]);
        proof {
            assert(s@.take(i + 1) =~= s@.take(i as int).push(s@[i as int]));
        }
        i += 1;
    }
    proof {
        if j > 0 {
            assert(s@.take(j as int).last() == s@[j - 1]);
        }
    }
    out
}

fn chars_eq(a: &Vec<char>, b: &Vec<char>) -> (r: bool)
    ensures
        r == (a@ == b@),
{
    if a.len() != b.len() {
        return false;
    }
    let mut i: usize = 0;
    while i < a.len()
        invariant
            i <= a@.len() == b@.len(),
            forall|k: int| 0 <= k < i ==> a@[k] == b@[k],
        decreases a.len() - i,
    {
        if a[i] != b[i] {
            return false;
        }
        i += 1;
    }
    proof {
        assert(a@ =~= b@);
    }
    true
}

/// Whether one of the first `n` parts is not empty and names `dir`
/// (trailing slashes aside).
pub open spec fn any_segment_is(segs: Seq<Seq<char>>, n: int, dir: Seq<char>) -> bool
    decreases n,
{
    if n <= 0 {
        false
    } else {
        any_segment_is(segs, n - 1, dir) || (segs[n - 1].len() > 0 && trim_end_slashes(segs[n - 1]) == dir)
    }
}

proof fn lemma_any_segment_prefix(a: Seq<Seq<char>>, b: Seq<Seq<char>>, n: int, dir: Seq<char>)
    requires
        0 <= n <= a.len(),
        n <= b.len(),
        forall|k: int| 0 <= k < n ==> a[k] == b[k],
    ensures
        any_segment_is(a, n, dir) == any_segment_is(b, n, dir),
    decreases n,
{
    if n > 0 {
        lemma_any_segment_prefix(a, b, n - 1, dir);
    }
}

/// Whether a `;`-separated PATH names the directory (trailing slashes aside).
pub open spec fn path_has_dir(path: Seq<char>, dir: Seq<char>) -> bool {
    any_segment_is(segments(path, ';'), segments(path, ';').len() as int, trim_end_slashes(dir))
}

/// The new user PATH for an install directory: `None` where the directory
/// is already in it; else the directory (without trailing slashes) in front.
pub open spec fn windows_path_spec(dir: Seq<char>, path: Seq<char>) -> Option<Seq<char>> {
    if path_has_dir(path, dir) {
        None
    } else if trim_seq(path).len() == 0 {
        Some(trim_end_slashes(dir))
    } else {
        Some(trim_end_slashes(dir) + ";"@ + path)
    }
}

pub fn windows_path_update(install_dir: &str, user_path: &str) -> (r: Option<String>)
    ensures
        match windows_path_spec(install_dir@, user_path@) {
            Some(p) => r matches Some(x) && x@ == p,
            None => r is None,
        },
{
    let dir_chars = chars_of(install_dir);
    let normalized = trim_end_slashes_exec(&dir_chars);
    let v = chars_of(user_path);
    let mut cur: Vec<char> = Vec::new();
    let mut done: usize = 0;
    let mut found = false;
    let mut i: usize = 0;
    proof {
        assert(user_path@.take(0) =~= Seq::<char>::empty());
    }
    while i < v.len()
        invariant
            i <= v@.len(),
            done <= i,
            v@ == user_path@,
            normalized@ == trim_end_slashes(install_dir@),
            segments(user_path@.take(i as int), ';').len() == done + 1,
            segments(user_path@.take(i as int), ';')[done as int] == cur@,
            found == any_segment_is(segments(user_path@.take(i as int), ';'), done as int, normalized@),
        decreases v.len() - i,
    {
        let ghost pre = user_path@.take(i as int);
        let ghost next = user_path@.take(i + 1);
        proof {
            assert(next.drop_last() =~= pre);
            assert(next.last() == v@[i as int]);
        }
        if v[i] == ';' {
            let mut hit = false;
            if cur.len() > 0 {
                let t = trim_end_slashes_exec(&cur);
                hit = chars_eq(&t, &normalized);
            }
            proof {
                let sp = segments(pre, ';');
                let sn = segments(next, ';');
                assert(sn == sp.push(Seq::<char>::empty()));
                lemma_any_segment_prefix(sp, sn, done as int, normalized@);
                assert(any_segment_is(sn, done + 1, normalized@) == (any_segment_is(sn, done as int, normalized@)
                    || (sn[done as int].len() > 0 && trim_end_slashes(sn[done as int]) == normalized@)));
            }
            found = found || hit;
            cur = Vec::new();
            done += 1;
        } else {
            proof {
                let sp = segments(pre, ';');
                let sn = segments(next, ';');
                lemma_any_segment_prefix(sp, sn, done as int, normalized@);
            }
            cur.push(v[i]);
        }
        i += 1;
    }
    if cur.len() > 0 {
        let t = trim_end_slashes_exec(&cur);
        if chars_eq(&t, &normalized) {
            found = true;
        }
    }
    proof {
        assert(user_path@.take(v@.len() as int) =~= user_path@);
    }
    if found {
        return None;
    }
    let norm = crate::text::string_from_chars(normalized.as_slice());
    let trimmed = crate::text::trim(user_path);
    if crate::text::is_empty_str(trimmed.as_str()) {
        Some(norm)
    } else {
        let mut s = concat2(norm.as_str(), ";");
        s.append(user_path);
        Some(s)
    }
}

/// The reports of `install`.
pub fn already_installed_message(dest: &str) -> (r: String)
    ensures
        r@ == "已安装在 "@ + dest@,
{
    concat2("已安装在 ", dest)
}

pub fn installed_message(dest: &str) -> (r: String)
    ensures
        r@ == "已安装到 "@ + dest@,
{
    concat2("已安装到 ", dest)
}

pub fn path_reminder(dir: &str) -> (r: String)
    ensures
        r@ == "请确保 "@ + dir@ + " 在 PATH 中（可运行在线 install.sh 自动配置）"@,
{
    concat3("请确保 ", dir, " 在 PATH 中（可运行在线 install.sh 自动配置）")
}


proof fn lemma_trim_end_slashes_done(s: Seq<char>)
    ensures
        trim_end_slashes(s).len() == 0 || !(trim_end_slashes(s).last() == '\\' || trim_end_slashes(s).last() == '/'),
        trim_end_slashes(trim_end_slashes(s)) == trim_end_slashes(s),
    decreases s.len(),
{
    if s.len() > 0 && (s.last() == '\\' || s.last() == '/') {
        lemma_trim_end_slashes_done(s.drop_last());
    }
}

proof fn lemma_segments_no_sep(s: Seq<char>, sep: char)
    requires
        !s.contains(sep),
    ensures
        segments(s, sep) == seq![s],
    decreases s.len(),
{
    if s.len() > 0 {
        assert(!s.drop_last().contains(sep)) by {
            if s.drop_last().contains(sep) {
                let i = choose|i: int| 0 <= i < s.drop_last().len() && s.drop_last()[i] == sep;
                assert(s[i] == sep);
            }
        }
        lemma_segments_no_sep(s.drop_last(), sep);
        assert(s.last() != sep) by {
            assert(s[s.len() - 1] == s.last());
        }
        assert(s.drop_last().push(s.last()) =~= s);
        let prev = segments(s.drop_last(), sep);
        assert(prev.len() == 1 && prev.last() == s.drop_last());
        assert(prev.update(0, s.drop_last().push(s.last())) =~= seq![s]);
    } else {
        assert(s =~= Seq::<char>::empty());
    }
}

proof fn lemma_segments_first(d: Seq<char>, sep: char, t: Seq<char>)
    requires
        !d.contains(sep),
    ensures
        segments(d + seq![sep] + t, sep).len() >= 2,
        segments(d + seq![sep] + t, sep)[0] == d,
    decreases t.len(),
{
    let x = d + seq![sep] + t;
    if t.len() == 0 {
        assert(x =~= d.push(sep));
        assert(x.drop_last() =~= d);
        lemma_segments_no_sep(d, sep);
    } else {
        lemma_segments_first(d, sep, t.drop_last());
        assert(x.drop_last() =~= d + seq![sep] + t.drop_last());
    }
}

proof fn lemma_any_segment_first(segs: Seq<Seq<char>>, n: int, dir: Seq<char>)
    requires
        1 <= n <= segs.len(),
        segs[0].len() > 0,
        trim_end_slashes(segs[0]) == dir,
    ensures
        any_segment_is(segs, n, dir),
    decreases n,
{
    if n > 1 {
        lemma_any_segment_first(segs, n - 1, dir);
    }
}

/// Putting the install directory on the user PATH twice adds it once: once
/// it was added, the PATH names it (for a directory that is not empty and
/// holds no `;`).
pub proof fn lemma_windows_path_once(dir: Seq<char>, path: Seq<char>)
    requires
        trim_end_slashes(dir).len() > 0,
        !dir.contains(';'),
    ensures
        windows_path_spec(dir, path) matches Some(new) ==> path_has_dir(new, dir) && windows_path_spec(dir, new) is None,
{
    let d = trim_end_slashes(dir);
    lemma_trim_end_slashes_done(dir);
    assert(!d.contains(';')) by {
        lemma_trim_prefix(dir);
        if d.contains(';') {
            let i = choose|i: int| 0 <= i < d.len() && d[i] == ';';
            assert(dir[i] == ';');
        }
    }
    if let Some(new) = windows_path_spec(dir, path) {
        if trim_seq(path).len() == 0 {
            assert(new == d);
            lemma_segments_no_sep(d, ';');
            lemma_any_segment_first(segments(new, ';'), 1, d);
        } else {
            assert(new == d + ";"@ + path);
            assert(";"@ =~= seq![';']) by {
                reveal_strlit(";");
            }
            lemma_segments_first(d, ';', path);
            lemma_any_segment_first(segments(new, ';'), segments(new, ';').len() as int, d);
        }
    }
}

/// Trimming keeps a prefix.
proof fn lemma_trim_prefix(s: Seq<char>)
    ensures
        trim_end_slashes(s).len() <= s.len(),
        forall|i: int| 0 <= i < trim_end_slashes(s).len() ==> trim_end_slashes(s)[i] == s[i],
    decreases s.len(),
{
    if s.len() > 0 && (s.last() == '\\' || s.last() == '/') {
        lemma_trim_prefix(s.drop_last());
        assert forall|i: int| 0 <= i < trim_end_slashes(s).len() implies trim_end_slashes(s)[i] == s[i] by {
            assert(s.drop_last()[i] == s[i]);
        }
    }
}

} // verus!
