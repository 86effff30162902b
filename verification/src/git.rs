//! Git checkpoints: which git commands make, show and undo a checkpoint.
//! Running git is the application's part.
use std::path::PathBuf;
use vstd::prelude::*;
use crate::text::{concat2, concat3, decimal, decimal_string, join, join_seq, owned, str_eq, trim, trim_seq, views};

verus! {

/// The checkpoint state of a working directory.
pub struct GitManager {
    pub workdir: PathBuf,
    pub last_checkpoint: Option<String>,
}

impl GitManager {
    /// No checkpoint yet.
    pub fn new(workdir: PathBuf) -> (r: GitManager)
        ensures
            r.last_checkpoint is None,
    {
        GitManager { workdir, last_checkpoint: None }
    }

    /// The last checkpoint's commit, if any.
    pub fn last_checkpoint(&self) -> (r: Option<&str>)
        ensures
            match self.last_checkpoint {
                Some(h) => r is Some && r->0@ == h@,
                None => r is None,
            },
    {
        match &self.last_checkpoint {
            Some(h) => Some(h.as_str()),
            None => None,
        }
    }

    /// Records the checkpoint from the output of `git rev-parse HEAD`.
    pub fn record_checkpoint(&mut self, rev_parse_output: &str) -> (r: String)
        ensures
            r@ == trim_seq(rev_parse_output@),
            final(self).last_checkpoint matches Some(h) && h@ == r@,
    {
        let h = trim(rev_parse_output);
        self.last_checkpoint = Some(owned(h.as_str()));
        h
    }

    /// The git commands of a rollback to the last checkpoint.
    pub fn rollback_args(&self) -> (r: Result<Vec<String>, String>)
        ensures
            match self.last_checkpoint {
                Some(h) => r is Ok && views(r->Ok_0@) == seq!["reset"@, "--hard"@, h@],
                None => r is Err && r->Err_0@ == "没有可回滚的检查点"@,
            },
    {
        match &self.last_checkpoint {
            Some(h) => {
                let v = vec![owned("reset"), owned("--hard"), owned(h.as_str())];
                proof {
                    assert(views(v@) =~= seq!["reset"@, "--hard"@, h@]);
                }
                Ok(v)
            },
            None => Err(owned("没有可回滚的检查点")),
        }
    }

    /// The commit message of a checkpoint: one file is named, more are
    /// counted with the first three named.
    pub fn suggest_commit_message(changed_files: &Vec<String>) -> (r: String)
        ensures
            r@ == commit_message_spec(views(changed_files@)),
    {
        let n = changed_files.len();
        if n == 0 {
            return owned("chore: onemini checkpoint");
        }
        if n == 1 {
            return concat2("chore: update ", changed_files[0].as_str());
        }
        let mut first: Vec<String> = Vec::new();
        let k: usize = if n < 3 { n } else { 3 };
        let mut i: usize = 0;
        while i < k
            invariant
                i <= k,
                k <= changed_files@.len(),
                views(first@) == views(changed_files@).take(i as int),
            decreases k - i,
        {
            let ghost before = first@;
            let s = owned(changed_files[i].as_str());
            first.push(s);
            proof {
                crate::text::lemma_views_push(before, s);
                assert(views(changed_files@).take(i + 1) =~= views(changed_files@).take(i as int).push(changed_files@[i as int]@));
            }
            i += 1;
        }
        let names = join(&first, ", ");
        let count = decimal_string(n);
        let mut s = concat3("chore: update ", count.as_str(), " files (");
        s.append(names.as_str());
        s.append(")");
        s
    }
}

/// The commit message for the changed files.
pub open spec fn commit_message_spec(files: Seq<Seq<char>>) -> Seq<char> {
    if files.len() == 0 {
        "chore: onemini checkpoint"@
    } else if files.len() == 1 {
        "chore: update "@ + files[0]
    } else {
        "chore: update "@ + decimal(files.len()) + " files ("@ + join_seq(
            files.take(if files.len() < 3 { files.len() as int } else { 3 }),
            ", "@,
        ) + ")"@
    }
}

/// The git commands of a checkpoint: nothing to commit in a clean tree,
/// else stage everything and commit without hooks.
pub fn checkpoint_commands(message: &str, tree_clean: bool) -> (r: Vec<Vec<String>>)
    ensures
        tree_clean ==> r@.len() == 0,
        !tree_clean ==> r@.len() == 2 && views(r@[0]@) == seq!["add"@, "-A"@] && views(r@[1]@) == seq![
            "commit"@,
            "-m"@,
            message@,
            "--no-verify"@,
        ],
{
    let mut r: Vec<Vec<String>> = Vec::new();
    if !tree_clean {
        let a = vec![owned("add"), owned("-A")];
        let b = vec![owned("commit"), owned("-m"), owned(message), owned("--no-verify")];
        proof {
            assert(views(a@) =~= seq!["add"@, "-A"@]);
            assert(views(b@) =~= seq!["commit"@, "-m"@, message@, "--no-verify"@]);
        }
        r.push(a);
        r.push(b);
    }
    r
}

/// Whether a tool call is preceded by an automatic checkpoint: when they are
/// on, before a `write` or `edit` once two files have changed.
pub fn checkpoint_wanted(auto_checkpoint: bool, tool: &str, changed_files: usize) -> (r: bool)
    ensures
        r == (auto_checkpoint && (tool@ == "write"@ || tool@ == "edit"@) && changed_files >= 2),
{
    auto_checkpoint && (str_eq(tool, "write") || str_eq(tool, "edit")) && changed_files >= 2
}

/// The message of an automatic checkpoint.
pub fn checkpoint_message(summary: &str) -> (r: String)
    ensures
        r@ == "onemini 检查点: "@ + summary@,
{
    concat2("onemini 检查点: ", summary)
}

/// The arguments of `git diff --stat` for some paths.
pub fn diff_args(paths: &Vec<String>) -> (r: Vec<String>)
    ensures
        views(r@) == seq!["diff"@, "--stat"@] + views(paths@),
{
    let mut r: Vec<String> = vec![owned("diff"), owned("--stat")];
    proof {
        assert(views(r@) =~= seq!["diff"@, "--stat"@] + views(paths@).take(0));
    }
    let mut i: usize = 0;
    while i < paths.len()
        invariant
            i <= paths@.len(),
            views(r@) == seq!["diff"@, "--stat"@] + views(paths@).take(i as int),
        decreases paths.len() - i,
    {
        let ghost before = r@;
        let s = owned(paths[i].as_str());
        r.push(s);
        proof {
            crate::text::lemma_views_push(before, s);
            assert(views(paths@).take(i + 1) =~= views(paths@).take(i as int).push(paths@[i as int]@));
        }
        i += 1;
    }
    proof {
        assert(views(paths@).take(i as int) =~= views(paths@));
    }
    r
}

} // verus!
