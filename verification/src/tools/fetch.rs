//! The `fetch` tool's rules: which addresses it may reach, how much of a body
//! it keeps. Addresses are parsed with `reqwest::Url`; making the request is
//! the application's part.
use vstd::prelude::*;
use crate::fs_util::ensure_https_url;
use crate::text::{
    char_count, chars_of, concat2, decimal, decimal_string, split_once, split_once_spec, ends_with, has_suffix, is_empty_str, lowercase, owned,
    str_eq, to_lower, trim_seq,
};
use crate::tools::{truncate_output, truncate_output_spec};

verus! {

/// Seconds a request may take.
pub const TIMEOUT_SECS: u64 = 30;

/// Characters of body returned when the caller asks for no other limit.
pub const DEFAULT_MAX_CHARS: usize = 50000;

/// Largest response body, in bytes, that is read at all.
pub const MAX_BODY_BYTES: usize = 2097152;

/// The body limit asked for, clamped into `1000..=50000`.
pub open spec fn max_chars_spec(requested: Option<u64>) -> int {
    match requested {
        None => DEFAULT_MAX_CHARS as int,
        Some(n) => if n < 1000 { 1000 } else if n > 50000 { 50000 } else { n as int },
    }
}

/// How many body characters to return for the `max_chars` argument.
pub fn fetch_max_chars(requested: Option<u64>) -> (r: usize)
    ensures
        r as int == max_chars_spec(requested),
{
    match requested {
        None => DEFAULT_MAX_CHARS,
        Some(n) => {
            if n < 1000 {
                1000
            } else if n > 50000 {
                50000
            } else {
                n as usize
            }
        },
    }
}

/// A literal IP address as the parser of the application read it.
#[derive(Clone, Copy, Debug, PartialEq, Eq)]
pub enum HostIp {
    V4([u8; 4]),
    V6([u16; 8]),
}

/// What the application's URL parser found in an address.
#[derive(Clone, Debug)]
pub struct UrlFacts {
    /// A user name or a password is present.
    pub has_credentials: bool,
    /// The host, if the address has one.
    pub host: Option<String>,
}

/// A host name that names this machine or the local network.
pub open spec fn local_name_spec(lower: Seq<char>) -> bool {
    lower == "localhost"@ || has_suffix(lower, ".localhost"@) || has_suffix(lower, ".local"@)
}

/// Private, loopback, link-local, unspecified or broadcast IPv4.
pub open spec fn private_ipv4_spec(o: Seq<u8>) -> bool {
    ||| o[0] == 10
    ||| o[0] == 172 && 16 <= o[1] < 32
    ||| o[0] == 192 && o[1] == 168
    ||| o[0] == 127
    ||| o[0] == 169 && o[1] == 254
    ||| o[0] == 0 && o[1] == 0 && o[2] == 0 && o[3] == 0
    ||| o[0] == 255 && o[1] == 255 && o[2] == 255 && o[3] == 255
}

/// Loopback, unspecified or unique-local (`fc00::/7`) IPv6.
pub open spec fn private_ipv6_spec(s: Seq<u16>) -> bool {
    ||| (forall|i: int| 0 <= i < 7 ==> s[i] == 0) && s[7] == 1
    ||| (forall|i: int| 0 <= i < 8 ==> s[i] == 0)
    ||| 0xfc00 <= s[0] <= 0xfdff
}

/// Whether an address of either family is off limits.
pub open spec fn private_ip_spec(ip: HostIp) -> bool {
    match ip {
        HostIp::V4(o) => private_ipv4_spec(o@),
        HostIp::V6(s) => private_ipv6_spec(s@),
    }
}

/// What `url.parse::<reqwest::Url>()` gives: the user name, the password and
/// the host (`username`, `password`, `host_str`).
pub uninterp spec fn url_parts_of(url: Seq<char>) -> Option<(Seq<char>, Option<Seq<char>>, Option<Seq<char>>)>;

/// The value of a decimal digit.
pub open spec fn digit_value(c: char) -> int {
    (c as int) - 48
}

/// One part of a dotted IPv4 address: one to three digits, no leading zero,
/// at most 255.
pub open spec fn octet_spec(s: Seq<char>) -> Option<u8> {
    if 1 <= s.len() <= 3 && (forall|i: int| 0 <= i < s.len() ==> '0' <= #[trigger] s[i] <= '9') && (s.len()
        == 1 || s[0] != '0') {
        let v: int = if s.len() == 1 {
            digit_value(s[0])
        } else if s.len() == 2 {
            10 * digit_value(s[0]) + digit_value(s[1])
        } else {
            100 * digit_value(s[0]) + 10 * digit_value(s[1]) + digit_value(s[2])
        };
        if v <= 255 {
            Some(v as u8)
        } else {
            None
        }
    } else {
        None
    }
}

/// A host written as a dotted IPv4 address, as its four octets. (A URL's
/// host is a name, a dotted IPv4 address, or an IPv6 address in brackets,
/// which no IP address reading accepts.)
pub open spec fn ipv4_spec(h: Seq<char>) -> Option<Seq<u8>> {
    match split_once_spec(h, "."@) {
        None => None,
        Some((a, r1)) => match split_once_spec(r1, "."@) {
            None => None,
            Some((b, r2)) => match split_once_spec(r2, "."@) {
                None => None,
                Some((c, d)) => match (octet_spec(a), octet_spec(b), octet_spec(c), octet_spec(d)) {
                    (Some(x), Some(y), Some(z), Some(w)) => Some(seq![x, y, z, w]),
                    _ => None,
                },
            },
        },
    }
}

/// Whether the fetch tool refuses a host: a local name, or a private IPv4
/// address.
pub open spec fn host_refused_spec(host: Seq<char>) -> bool {
    local_name_spec(lowercase(host)) || match ipv4_spec(host) {
        Some(o) => private_ipv4_spec(o),
        None => false,
    }
}

/// What the parse of an address tells the checks: whether it carries
/// credentials, and its host.
pub open spec fn url_facts_of(url: Seq<char>) -> Option<(bool, Option<Seq<char>>)> {
    match url_parts_of(url) {
        None => None,
        Some((user, pass, host)) => Some((user.len() > 0 || pass is Some, host)),
    }
}

/// The parts of an address as plain values.
pub open spec fn parts_view(r: Option<(String, Option<String>, Option<String>)>) -> Option<
    (Seq<char>, Option<Seq<char>>, Option<Seq<char>>),
> {
    match r {
        None => None,
        Some((u, p, h)) => Some(
            (
                u@,
                match p {
                    None => None,
                    Some(x) => Some(x@),
                },
                match h {
                    None => None,
                    Some(x) => Some(x@),
                },
            ),
        ),
    }
}

/// `url.parse::<reqwest::Url>()`, then its `username`, `password` and
/// `host_str`.
#[verifier::external_body]
fn parse_url_parts(url: &str) -> (r: Option<(String, Option<String>, Option<String>)>)
    ensures
        parts_view(r) == url_parts_of(url@),
{
    match url.parse::<reqwest::Url>() {
        Ok(u) => Some((u.username().to_string(), u.password().map(str::to_string), u.host_str().map(str::to_string))),
        Err(_) => None,
    }
}

/// One part of a dotted IPv4 address.
pub fn parse_octet(s: &str) -> (r: Option<u8>)
    ensures
        r == octet_spec(s@),
{
    let v = chars_of(s);
    let n = v.len();
    if n < 1 || n > 3 {
        return None;
    }
    let mut i: usize = 0;
    while i < n
        invariant
            i <= n,
            n == v@.len(),
            v@ == s@,
            forall|k: int| 0 <= k < i ==> '0' <= #[trigger] v@[k] <= '9',
        decreases n - i,
    {
        if !('0' <= v[i] && v[i] <= '9') {
            return None;
        }
        i += 1;
    }
    if n > 1 && v[0] == '0' {
        return None;
    }
    let d0: u32 = (v[0] as u32) - 48;
    let value: u32 = if n == 1 {
        d0
    } else if n == 2 {
        10 * d0 + ((v[1] as u32) - 48)
    } else {
        100 * d0 + 10 * ((v[1] as u32) - 48) + ((v[2] as u32) - 48)
    };
    if value <= 255 {
        Some(value as u8)
    } else {
        None
    }
}

/// A host written as a dotted IPv4 address, as its four octets.
pub fn parse_ipv4(h: &str) -> (r: Option<[u8; 4]>)
    ensures
        match ipv4_spec(h@) {
            Some(o) => r is Some && r->Some_0@ == o,
            None => r is None,
        },
{
    let (a, r1) = match split_once(h, ".") {
        Some(p) => p,
        None => return None,
    };
    let (b, r2) = match split_once(r1.as_str(), ".") {
        Some(p) => p,
        None => return None,
    };
    let (c, d) = match split_once(r2.as_str(), ".") {
        Some(p) => p,
        None => return None,
    };
    proof {
        reveal_strlit(".");
    }
    match (parse_octet(a.as_str()), parse_octet(b.as_str()), parse_octet(c.as_str()), parse_octet(d.as_str())) {
        (Some(x), Some(y), Some(z), Some(w)) => {
            let o = [x, y, z, w];
            assert(o@ =~= seq![x, y, z, w]);
            Some(o)
        },
        _ => None,
    }
}

/// IPv4 addresses that stay inside this machine or network.
pub fn is_private_ipv4(o: [u8; 4]) -> (r: bool)
    ensures
        r == private_ipv4_spec(o@),
{
    let a = o[0];
    let b = o[1];
    let c = o[2];
    let d = o[3];
    a == 10 || (a == 172 && 16 <= b && b < 32) || (a == 192 && b == 168) || a == 127 || (a == 169
        && b == 254) || (a == 0 && b == 0 && c == 0 && d == 0) || (a == 255 && b == 255 && c == 255
        && d == 255)
}

/// IPv6 addresses that stay inside this machine or network.
pub fn is_private_ipv6(s: [u16; 8]) -> (r: bool)
    ensures
        r == private_ipv6_spec(s@),
{
    let mut head_zero = true;
    let mut i: usize = 0;
    while i < 7
        invariant
            0 <= i <= 7,
            s@.len() == 8,
            head_zero == (forall|k: int| 0 <= k < i ==> s@[k] == 0),
        decreases 7 - i,
    {
        if s[i] != 0 {
            head_zero = false;
        }
        i = i + 1;
    }
    let last = s[7];
    let loopback = head_zero && last == 1;
    let unspecified = head_zero && last == 0;
    proof {
        if unspecified {
            assert forall|k: int| 0 <= k < 8 implies s@[k] == 0 by {
                if k < 7 {
                } else {
                    assert(k == 7);
                }
            }
        }
    }
    loopback || unspecified || (0xfc00 <= s[0] && s[0] <= 0xfdff)
}

/// Whether an IP address is off limits.
pub fn is_private_ip(ip: HostIp) -> (r: bool)
    ensures
        r == private_ip_spec(ip),
{
    match ip {
        HostIp::V4(o) => is_private_ipv4(o),
        HostIp::V6(s) => is_private_ipv6(s),
    }
}

/// Local names (`localhost`, `*.localhost`, `*.local`, in any case) and
/// private IPv4 addresses are refused.
pub fn is_blocked_host(host: &str) -> (r: bool)
    ensures
        r == host_refused_spec(host@),
{
    let lower = to_lower(host);
    let l = lower.as_str();
    if str_eq(l, "localhost") || ends_with(l, ".localhost") || ends_with(l, ".local") {
        return true;
    }
    match parse_ipv4(host) {
        Some(o) => is_private_ipv4(o),
        None => false,
    }
}

/// The verdict on an address: `Ok` only for public HTTPS addresses without
/// credentials. `facts` is `None` where the address does not parse.
pub open spec fn url_verdict(url: Seq<char>, facts: Option<(bool, Option<Seq<char>>)>) -> Result<(), Seq<char>> {
    if !crate::text::has_prefix(trim_seq(url), "https://"@) {
        Err("API 接口地址必须使用 HTTPS: "@ + trim_seq(url))
    } else {
        match facts {
            None => Err("无效 URL: "@ + url),
            Some((creds, host)) => if creds {
                Err("URL 不允许包含用户名或密码"@)
            } else {
                match host {
                    None => Err("URL 缺少主机名: "@ + url),
                    Some(h) => if host_refused_spec(h) {
                        Err("禁止访问内网或本地地址: "@ + h)
                    } else {
                        Ok(())
                    },
                }
            },
        }
    }
}

/// The facts of a parse as plain values.
pub open spec fn facts_view(f: Option<UrlFacts>) -> Option<(bool, Option<Seq<char>>)> {
    match f {
        None => None,
        Some(u) => Some(
            (
                u.has_credentials,
                match u.host {
                    None => None,
                    Some(h) => Some(h@),
                },
            ),
        ),
    }
}

/// The view of a verdict, with the message as characters.
pub open spec fn verdict_view(r: Result<(), String>) -> Result<(), Seq<char>> {
    match r {
        Ok(()) => Ok(()),
        Err(e) => Err(e@),
    }
}

/// What the parse of an address tells the checks.
pub fn url_facts(url: &str) -> (r: Option<UrlFacts>)
    ensures
        facts_view(r) == url_facts_of(url@),
{
    match parse_url_parts(url) {
        None => None,
        Some((user, pass, host)) => {
            let has_credentials = !is_empty_str(user.as_str()) || pass.is_some();
            Some(UrlFacts { has_credentials, host })
        },
    }
}

/// Checks an address (the one asked for, or the one a redirect ended on)
/// before and after the request: only public HTTPS addresses without
/// credentials pass.
pub fn validate_public_https_url(url: &str) -> (r: Result<(), String>)
    ensures
        verdict_view(r) == url_verdict(url@, url_facts_of(url@)),
{
    match ensure_https_url(url) {
        Err(e) => return Err(e),
        Ok(()) => {},
    }
    let facts = url_facts(url);
    check_url_with_facts(url, facts)
}

/// The verdict on an address given what its parse found.
pub fn check_url_with_facts(url: &str, facts: Option<UrlFacts>) -> (r: Result<(), String>)
    ensures
        verdict_view(r) == url_verdict(url@, facts_view(facts)),
{
    match ensure_https_url(url) {
        Err(e) => return Err(e),
        Ok(()) => {},
    }
    match facts {
        None => Err(concat2("无效 URL: ", url)),
        Some(f) => {
            if f.has_credentials {
                return Err(owned("URL 不允许包含用户名或密码"));
            }
            match f.host {
                None => Err(concat2("URL 缺少主机名: ", url)),
                Some(h) => {
                    if is_blocked_host(h.as_str()) {
                        Err(concat2("禁止访问内网或本地地址: ", h.as_str()))
                    } else {
                        Ok(())
                    }
                },
            }
        },
    }
}

/// The refusal of a body over `MAX_BODY_BYTES`.
pub open spec fn body_size_verdict(len: nat) -> Result<(), Seq<char>> {
    if len > MAX_BODY_BYTES {
        Err("响应体过大（"@ + decimal(len) + " 字节，上限 "@ + decimal(MAX_BODY_BYTES as nat) + " 字节）"@)
    } else {
        Ok(())
    }
}

/// Refuses a response body larger than `MAX_BODY_BYTES`.
pub fn check_body_size(len: usize) -> (r: Result<(), String>)
    ensures
        verdict_view(r) == body_size_verdict(len as nat),
{
    if len > MAX_BODY_BYTES {
        let a = concat2("响应体过大（", decimal_string(len).as_str());
        let b = concat2(a.as_str(), " 字节，上限 ");
        let c = concat2(b.as_str(), decimal_string(MAX_BODY_BYTES).as_str());
        Err(concat2(c.as_str(), " 字节）"))
    } else {
        Ok(())
    }
}

/// The body handed back: cut to `max_chars` characters, and whether it was cut.
pub fn fetch_body(body: &str, max_chars: usize) -> (r: (String, bool))
    ensures
        r.0@ == truncate_output_spec(body@, max_chars as nat),
        r.1 == (body@.len() > max_chars),
{
    let truncated = char_count(body) > max_chars;
    (truncate_output(body, max_chars), truncated)
}

} // verus!
