//! Checks on addresses before they are used. Writing private files is the
//! application's part.
use vstd::prelude::*;
use crate::text::{concat2, has_prefix, starts_with, trim, trim_seq};

verus! {

/// Accepts an API base address only over HTTPS (after trimming whitespace).
pub fn ensure_https_url(url: &str) -> (r: Result<(), String>)
    ensures
        has_prefix(trim_seq(url@), "https://"@) ==> r is Ok,
        !has_prefix(trim_seq(url@), "https://"@) ==> r is Err && r->Err_0@ == "API 接口地址必须使用 HTTPS: "@ + trim_seq(url@),
{
    let t = trim(url);
    if !starts_with(t.as_str(), "https://") {
        return Err(concat2("API 接口地址必须使用 HTTPS: ", t.as_str()));
    }
    Ok(())
}

} // verus!
