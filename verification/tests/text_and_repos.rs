use blokator::error::check_http_error;
use blokator::repos::{add_repo, del_repo, list_repos, RepoError};
use blokator::text::{lines_of, nonempty_lines_of, str_contains, trim_string};
use blokator::tor::{decimal_string, if_onion_link, proxy_for, tor_proxy_url};
use blokator::arguments::{Args, Commands};

fn args(tor: bool) -> Args {
    Args {
        command: Commands::ListRepos,
        apply_android: false,
        android_device: None,
        list_devices: false,
        restore_android: false,
        list_repos: false,
        add_repo_preset: None,
        del_repo_preset: None,
        tor,
        tor_bind_address: "127.0.0.1".to_string(),
        tor_port: 9050,
    }
}

#[test]
fn http_error_page_is_detected() {
    assert!(check_http_error("<html><head><title>404 Not Found</title></head></html>"));
    assert!(!check_http_error("0.0.0.0 ads.example.com\n"));
    assert!(!check_http_error(""));
    assert!(!check_http_error("<title>404 Not Found</title"));
}

#[test]
fn lines_follow_std() {
    for s in ["", "a", "a\n", "a\r\nb", "\n\n", "a\r", "x\n\r\ny\r", "a\n\nb\n"] {
        let expected: Vec<String> = s.lines().map(|l| l.to_string()).collect();
        assert_eq!(lines_of(s), expected, "input {:?}", s);
    }
    assert_eq!(nonempty_lines_of("a\n\n\nb\n"), vec!["a".to_string(), "b".to_string()]);
}

#[test]
fn trim_and_contains_follow_std() {
    for s in ["  a b \t", "\u{3000}x\u{85}", "", "   ", "\u{2009}y"] {
        assert_eq!(trim_string(s), s.trim());
    }
    assert!(str_contains("hello world", "o w"));
    assert!(str_contains("abc", ""));
    assert!(!str_contains("abc", "abcd"));
}

#[test]
fn onion_links_are_recognised() {
    assert!(if_onion_link("http://abcdefgh.onion/hosts".to_string()));
    assert!(if_onion_link("ab.onion".to_string()));
    assert!(if_onion_link("xyonion".to_string()));
    assert!(!if_onion_link("xonion".to_string()));
    assert!(!if_onion_link("onion".to_string()));
    assert!(!if_onion_link("a\n\nonion".to_string()));
    assert!(!if_onion_link("https://example.com/hosts".to_string()));
}

#[test]
fn decimal_formatting() {
    assert_eq!(decimal_string(0), "0");
    assert_eq!(decimal_string(9050), "9050");
    assert_eq!(decimal_string(-42), "-42");
    assert_eq!(decimal_string(i32::MIN), i32::MIN.to_string());
    assert_eq!(decimal_string(i32::MAX), i32::MAX.to_string());
}

#[test]
fn tor_proxy_address() {
    assert_eq!(tor_proxy_url("127.0.0.1", 9050), "socks5h://127.0.0.1:9050");
    assert_eq!(proxy_for("https://example.com/hosts", &args(false)), None);
    assert_eq!(
        proxy_for("http://abcdefgh.onion/hosts", &args(false)),
        Some("socks5h://127.0.0.1:9050".to_string())
    );
    assert_eq!(
        proxy_for("https://example.com/hosts", &args(true)),
        Some("socks5h://127.0.0.1:9050".to_string())
    );
}

#[test]
fn repos_are_listed_without_empty_lines() {
    assert_eq!(
        list_repos(Some("https://a\n\nhttps://b\r\nhttps://c\n")),
        vec!["https://a".to_string(), "https://b".to_string(), "https://c".to_string()]
    );
    assert!(list_repos(None).is_empty());
    assert!(list_repos(Some("")).is_empty());
}

#[test]
fn adding_a_repo() {
    assert_eq!(add_repo("https://a\nhttps://b", "https://c"), Ok("https://a\nhttps://b\nhttps://c".to_string()));
    assert_eq!(add_repo("https://a\nhttps://b", "https://b"), Err(RepoError::AlreadyExists));
    assert_eq!(add_repo("", "https://a"), Ok("\nhttps://a".to_string()));
}

#[test]
fn added_repo_is_listed_last() {
    let before = "https://a\n\nhttps://b\n";
    let after = add_repo(before, "https://c").unwrap();
    let mut expected = list_repos(Some(before));
    expected.push("https://c".to_string());
    assert_eq!(list_repos(Some(&after)), expected);
    assert_eq!(add_repo(&after, "https://c"), Err(RepoError::AlreadyExists));
}

#[test]
fn deleting_a_repo() {
    assert_eq!(del_repo(None, "https://a"), Err(RepoError::ListMissing));
    assert_eq!(del_repo(Some("https://a\nhttps://b"), "https://c"), Err(RepoError::NotFound));
    assert_eq!(del_repo(Some("https://ab\nhttps://c"), "https://a"), Err(RepoError::NotFound));
    assert_eq!(
        del_repo(Some("https://a.example/hosts\nhttps://b.example/hosts\nhttps://c.example/hosts"), "https://b.example/hosts"),
        Ok("https://a.example/hosts\nhttps://c.example/hosts".to_string())
    );
    assert_eq!(del_repo(Some("https://a\r\nhttps://b\n"), "https://a"), Ok("\r\nhttps://b\n".to_string()));
    assert_eq!(del_repo(Some("https://a\nhttps://b"), "https://b"), Ok("https://a\n".to_string()));
    assert_eq!(del_repo(Some("https://a\nhttps://b"), "https://a"), Ok("\nhttps://b".to_string()));
    assert_eq!(del_repo(Some("x\n\ny"), ""), Ok("x\ny".to_string()));
    assert_eq!(
        del_repo(Some("https://a\n\n\nhttps://b\nhttps://c\n"), "https://c"),
        Ok("https://a\n\nhttps://b\n".to_string())
    );
}

#[test]
fn deleting_a_whole_line_repo_matches_replace_then_collapse() {
    let cases = [
        ("https://a\nhttps://b\nhttps://c", "https://a"),
        ("https://a\nhttps://b\nhttps://c", "https://c"),
        ("https://a\n\n\nhttps://b\n", "https://b"),
        ("\nhttps://a\r\nhttps://b\r\n", "https://b"),
        ("https://a\nhttps://a\nhttps://b\n", "https://a"),
        ("https://a", "https://a"),
    ];
    for (file, repo) in cases {
        let expected = file.replace(repo, "").replace("\n\n", "\n");
        assert_eq!(del_repo(Some(file), repo), Ok(expected), "file {:?} repo {:?}", file, repo);
    }
}

#[test]
fn deleting_keeps_other_repos_intact() {
    let file = "https://a.example/h\nhttps://a.example/hosts";
    let after = del_repo(Some(file), "https://a.example/h").unwrap();
    assert_eq!(list_repos(Some(&after)), vec!["https://a.example/hosts".to_string()]);
}

#[test]
fn add_then_delete_gives_back_the_list() {
    let before = "https://a\n\nhttps://b\n";
    let added = add_repo(before, "https://c").unwrap();
    let deleted = del_repo(Some(&added), "https://c").unwrap();
    assert_eq!(list_repos(Some(&deleted)), list_repos(Some(before)));
    assert!(!list_repos(Some(&deleted)).contains(&"https://c".to_string()));
}

#[test]
fn whitespace_matches_std() {
    for n in 0u32..0x3100 {
        if let Some(c) = char::from_u32(n) {
            let s = format!("{}x{}", c, c);
            assert_eq!(trim_string(&s), s.trim(), "char {:#x}", n);
        }
    }
}
