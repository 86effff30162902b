use onemini::tools::files::{glob_listing, glob_order, glob_pattern, join_path_exec,
    apply_edit, edit_message, format_read, grep_file, grep_regex, grep_result, passes_glob,
    write_message,
};
use onemini::tools::fetch::{
    check_body_size, check_url_with_facts, fetch_body, fetch_max_chars, is_blocked_host, is_private_ip, parse_ipv4,
    parse_octet, url_facts, validate_public_https_url, HostIp, UrlFacts,
};
use onemini::tools::{check_canonical_inside, check_inside, check_parent_inside, fallback_relative, lexical_target, path_starts_with, PathPart};

#[test]
fn edit_replaces_single_occurrence() {
    let r = apply_edit("let a = 1;\nlet b = 2;\n", "b = 2", "b = 3", false);
    assert_eq!(r, Ok(("let a = 1;\nlet b = 3;\n".to_string(), 1)));
}

#[test]
fn edit_reports_missing_text() {
    let r = apply_edit("abc", "xyz", "q", false);
    assert_eq!(r, Err("未找到匹配的旧文本".to_string()));
}

#[test]
fn edit_refuses_ambiguous_text() {
    let r = apply_edit("x x x", "x", "y", false);
    assert_eq!(
        r,
        Err("旧文本在文件中出现 3 次，请提供更多上下文或设置 replace_all=true（全部替换）".to_string())
    );
}

#[test]
fn edit_replace_all_counts() {
    let r = apply_edit("x x x", "x", "yy", true);
    assert_eq!(r, Ok(("yy yy yy".to_string(), 3)));
}

#[test]
fn edit_with_empty_old_text() {
    assert_eq!(apply_edit("ab", "", "-", false), Err("旧文本在文件中出现 3 次，请提供更多上下文或设置 replace_all=true（全部替换）".to_string()));
    assert_eq!(apply_edit("ab", "", "-", true), Ok(("-a-b-".to_string(), 3)));
    assert_eq!(apply_edit("", "", "-", false), Ok(("-".to_string(), 1)));
}

#[test]
fn edit_and_write_messages() {
    assert_eq!(edit_message("src/a.rs", 2), "已编辑 src/a.rs，替换 2 处");
    assert_eq!(write_message("a.txt", "héllo"), "已写入 a.txt (6 字节)");
}

#[test]
fn read_numbers_all_lines() {
    assert_eq!(format_read("a\nb\nc", None, None), "     1|a\n     2|b\n     3|c\n");
}

#[test]
fn read_window_with_note() {
    assert_eq!(
        format_read("a\nb\nc", Some(2), Some(1)),
        "     2|b\n\n… 文件共 3 行，已显示 2–2 行"
    );
    assert_eq!(format_read("a\nb", Some(0), Some(1)), "     1|a\n\n… 文件共 2 行，已显示 1–1 行");
}

#[test]
fn read_offset_past_end() {
    assert_eq!(format_read("a\nb\nc", Some(5), None), "文件共 3 行，offset 超出范围");
    assert_eq!(format_read("", None, None), "文件共 0 行，offset 超出范围");
}

#[test]
fn grep_reports_matching_lines() {
    let re = grep_regex("^fn ").ok().unwrap();
    let mut matches = Vec::new();
    let stopped = grep_file(&re, "src/x.rs", "fn a()\nlet b = 1;\nfn c()", &mut matches);
    assert!(!stopped);
    assert_eq!(matches, vec!["src/x.rs:1:fn a()".to_string(), "src/x.rs:3:fn c()".to_string()]);
    assert_eq!(grep_result(&matches), "src/x.rs:1:fn a()\nsrc/x.rs:3:fn c()");
}

#[test]
fn grep_stops_at_limit() {
    let re = grep_regex("x").ok().unwrap();
    let mut matches: Vec<String> = (0..99).map(|i| format!("m{i}")).collect();
    let stopped = grep_file(&re, "f", "x1\nx2\nx3", &mut matches);
    assert!(stopped);
    assert_eq!(matches.len(), 101);
    assert_eq!(matches[99], "f:1:x1");
    assert_eq!(matches[100], "… 匹配数已达上限");
}

#[test]
fn grep_without_matches() {
    assert_eq!(grep_result(&Vec::new()), "未找到匹配");
    assert_eq!(grep_regex("(").err(), Some("无效的正则表达式".to_string()));
}

#[test]
fn glob_filter_on_names() {
    assert!(passes_glob("*.rs", "main.rs"));
    assert!(!passes_glob("*.rs", "main.py"));
    assert!(passes_glob("[", "anything"));
}

#[test]
fn path_resolution_without_fs() {
    let n = |s: &str| PathPart::Normal(s.to_string());
    let work = vec![PathPart::Root, n("home"), n("w")];
    let inside = lexical_target(work.clone(), vec![n("src"), PathPart::Current, n("a.rs")], false);
    assert_eq!(inside, vec![PathPart::Root, n("home"), n("w"), n("src"), n("a.rs")]);
    assert!(path_starts_with(&inside, &work));
    assert_eq!(check_inside(&inside, &work, "src/a.rs"), Ok(()));
    let escaped = lexical_target(work.clone(), vec![PathPart::Parent, PathPart::Parent, n("etc")], false);
    assert_eq!(escaped, vec![PathPart::Root, n("etc")]);
    assert_eq!(check_inside(&escaped, &work, "../../etc"), Err("路径越界，拒绝访问: ../../etc".to_string()));
    assert_eq!(check_canonical_inside(&inside, &work, "src/a.rs"), Ok(()));
    assert_eq!(check_canonical_inside(&escaped, &work, "link"), Err("路径越界（符号链接逃逸），拒绝访问: link".to_string()));
    assert_eq!(check_parent_inside(&work, &work, "new.txt"), Ok(()));
    assert_eq!(check_parent_inside(&escaped, &work, "d/new.txt"), Err("父目录越界，拒绝访问: d/new.txt".to_string()));
    let abs = lexical_target(work.clone(), vec![PathPart::Root, n("tmp"), n("x")], true);
    assert!(!path_starts_with(&abs, &work));
    assert!(!path_starts_with(&vec![PathPart::Root, n("home"), n("w2")], &work));
    assert_eq!(fallback_relative("././../../x"), "x");
    assert_eq!(fallback_relative("a/./b"), "a/./b");
}

#[test]
fn glob_lists_newest_first() {
    assert_eq!(glob_order(&vec![5, 9, 5, 1]), vec![1, 0, 2, 3]);
    assert_eq!(glob_order(&Vec::new()), Vec::<usize>::new());
    assert_eq!(glob_pattern("/w", "*.rs"), "/w/**/*.rs");
    assert_eq!(glob_pattern("/w/", "src/*.rs"), "/w/src/*.rs");
    assert_eq!(glob_pattern("/w", "**/*.md"), "/w/**/*.md");
    assert_eq!(glob_pattern("/w", "/etc/*"), "/etc/*");
    assert_eq!(join_path_exec("", "a"), "a");
    assert_eq!(glob_listing(&Vec::new(), &Vec::new()), "未找到匹配文件");
    let paths = vec!["a.rs".to_string(), "b.rs".to_string(), "c.rs".to_string()];
    assert_eq!(glob_listing(&paths, &vec![1, 3, 2]), "b.rs\nc.rs\na.rs");
    let many: Vec<String> = (0..250).map(|i| format!("f{i}")).collect();
    let times: Vec<u128> = (0..250).map(|i| i as u128).collect();
    let out = glob_listing(&many, &times);
    assert_eq!(out.lines().count(), 200);
    assert!(out.starts_with("f249\nf248"));
}

fn facts(host: &str) -> Option<UrlFacts> {
    Some(UrlFacts { has_credentials: false, host: Some(host.to_string()) })
}

#[test]
fn rejects_http_and_private_hosts() {
    assert!(validate_public_https_url("http://example.com").is_err());
    assert!(validate_public_https_url("https://localhost/").is_err());
    assert!(validate_public_https_url("https://127.0.0.1/").is_err());
    assert!(validate_public_https_url("https://10.0.0.1/").is_err());
    assert!(validate_public_https_url("https://192.168.1.1/").is_err());
    assert!(validate_public_https_url("https://www.google.com").is_ok());
}

#[test]
fn fetch_rejects_http_and_private_hosts() {
    assert!(check_url_with_facts("http://example.com", facts("example.com")).is_err());
    assert!(check_url_with_facts("https://localhost/", facts("localhost")).is_err());
    assert!(check_url_with_facts("https://127.0.0.1/", facts("127.0.0.1")).is_err());
    assert!(check_url_with_facts("https://10.0.0.1/", facts("10.0.0.1")).is_err());
    assert!(check_url_with_facts("https://192.168.1.1/", facts("192.168.1.1")).is_err());
    assert!(check_url_with_facts("https://www.google.com", facts("www.google.com")).is_ok());
}

#[test]
fn fetch_parses_the_address_itself() {
    assert_eq!(
        validate_public_https_url("https://Printer.LOCAL/x"),
        Err("禁止访问内网或本地地址: printer.local".to_string())
    );
    assert_eq!(validate_public_https_url("https://["), Err("无效 URL: https://[".to_string()));
    assert_eq!(validate_public_https_url("https://u:p@a.com"), Err("URL 不允许包含用户名或密码".to_string()));
    assert_eq!(validate_public_https_url("https://user@a.com/"), Err("URL 不允许包含用户名或密码".to_string()));
    assert_eq!(validate_public_https_url("https://0x7f.1/"), Err("禁止访问内网或本地地址: 127.0.0.1".to_string()));
    assert!(validate_public_https_url("https://172.32.0.1/").is_ok());
    let f = url_facts("https://u:p@Example.COM:8443/a").unwrap();
    assert!(f.has_credentials);
    assert_eq!(f.host, Some("example.com".to_string()));
    assert!(url_facts("not a url").is_none());
}

#[test]
fn fetch_messages_name_the_reason() {
    assert_eq!(
        check_url_with_facts("https://Printer.LOCAL/x", facts("Printer.LOCAL")),
        Err("禁止访问内网或本地地址: Printer.LOCAL".to_string())
    );
    assert_eq!(check_url_with_facts("https://[", None), Err("无效 URL: https://[".to_string()));
    let with_user = Some(UrlFacts { has_credentials: true, host: Some("a.com".to_string()) });
    assert_eq!(check_url_with_facts("https://u:p@a.com", with_user), Err("URL 不允许包含用户名或密码".to_string()));
    let no_host = Some(UrlFacts { has_credentials: false, host: None });
    assert_eq!(check_url_with_facts("https://", no_host), Err("URL 缺少主机名: https://".to_string()));
}

#[test]
fn fetch_blocks_private_ranges_only() {
    assert!(is_blocked_host("172.16.0.1"));
    assert!(!is_blocked_host("172.32.0.1"));
    assert!(is_blocked_host("169.254.1.1"));
    assert!(is_blocked_host("255.255.255.255"));
    assert!(is_blocked_host("0.0.0.0"));
    assert!(!is_blocked_host("010.0.0.1"));
    assert!(!is_blocked_host("256.1.1.1"));
    assert!(is_private_ip(HostIp::V6([0, 0, 0, 0, 0, 0, 0, 1])));
    assert!(is_private_ip(HostIp::V6([0xfd00, 0, 0, 0, 0, 0, 0, 1])));
    assert!(!is_private_ip(HostIp::V6([0x2001, 0xdb8, 0, 0, 0, 0, 0, 1])));
    assert!(is_blocked_host("dev.localhost"));
    assert!(!is_blocked_host("example.com"));
    assert_eq!(parse_ipv4("192.168.1.20"), Some([192, 168, 1, 20]));
    assert_eq!(parse_ipv4("1.2.3"), None);
    assert_eq!(parse_octet("255"), Some(255));
    assert_eq!(parse_octet("00"), None);
}

#[test]
fn fetch_limits() {
    assert_eq!(fetch_max_chars(None), 50000);
    assert_eq!(fetch_max_chars(Some(5)), 1000);
    assert_eq!(fetch_max_chars(Some(2000)), 2000);
    assert_eq!(fetch_max_chars(Some(900000)), 50000);
    assert!(check_body_size(2097152).is_ok());
    assert_eq!(check_body_size(2097153), Err("响应体过大（2097153 字节，上限 2097152 字节）".to_string()));
    assert_eq!(fetch_body("abc", 1000), ("abc".to_string(), false));
    let (cut, truncated) = fetch_body("abcdef", 2);
    assert!(truncated);
    assert!(cut.starts_with("ab\n\n… [输出已截断，共 6 字符"));
}
