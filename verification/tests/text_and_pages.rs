use heartbeat::endpoints::{default_heartbeat_url, server_login_url, server_logout_url};
use heartbeat::order::text_at_most;
use heartbeat::page::{blocked_page, escape_html};
use heartbeat::text::{
    bytes_exceed, contains_char, contains_text, is_blank, is_white_space_char,
    trim_text, truncate_bytes,
};

#[test]
fn default_url_points_at_local_server() {
    assert_eq!(default_heartbeat_url(), "http://127.0.0.1:9847/heartbeat");
}

#[test]
fn login_url_replaces_last_segment() {
    assert_eq!(server_login_url("http://127.0.0.1:9847/heartbeat"), "http://127.0.0.1:9847/api/login");
    assert_eq!(server_login_url("http://127.0.0.1:9847/heartbeat///"), "http://127.0.0.1:9847/api/login");
    assert_eq!(server_login_url("localhost"), "localhost/api/login");
    assert_eq!(server_login_url("http://h/"), "http://api/login");
    assert_eq!(server_login_url(""), "/api/login");
}

#[test]
fn logout_url_replaces_last_segment() {
    assert_eq!(server_logout_url("http://127.0.0.1:9847/heartbeat"), "http://127.0.0.1:9847/api/logout");
    assert_eq!(server_logout_url("https://example.com/x/y/beat/"), "https://example.com/x/y/api/logout");
    assert_eq!(server_logout_url("host"), "host/api/logout");
}

#[test]
fn escape_html_escapes_the_five_characters() {
    assert_eq!(
        escape_html("<a href=\"x\">Tom & Jerry's</a>"),
        "&lt;a href=&quot;x&quot;&gt;Tom &amp; Jerry&#x27;s&lt;/a&gt;"
    );
    assert_eq!(escape_html("plain ünïcode"), "plain ünïcode");
    assert_eq!(escape_html(""), "");
}

#[test]
fn escaped_text_has_no_markup() {
    let out = escape_html("<<>>\"''&&<script>alert('x')</script>");
    assert!(!out.contains('<') && !out.contains('>') && !out.contains('"') && !out.contains('\''));
}

#[test]
fn escaped_ampersands_are_entities_and_escaping_is_reversible() {
    let samples = ["&", "&amp;", "a&b", "<&>", "'\"", "", "x;&lt;"];
    let entities = ["&lt;", "&gt;", "&amp;", "&quot;", "&#x27;"];
    for a in samples {
        let e = escape_html(a);
        assert!(e.len() >= a.len());
        for (i, _) in e.match_indices('&') {
            assert!(entities.iter().any(|ent| e[i..].starts_with(ent)), "{e}");
        }
        for b in samples {
            if a != b {
                assert_ne!(e, escape_html(b));
            }
        }
    }
}

#[test]
fn blocked_page_fills_every_marker() {
    let page = blocked_page("<p>__DETAIL__</p><i>__DETAIL__</i>__DETAIL", "HTTP 500: <oops>");
    assert_eq!(page, "<p>HTTP 500: &lt;oops&gt;</p><i>HTTP 500: &lt;oops&gt;</i>__DETAIL");
    assert_eq!(blocked_page("no marker", "x"), "no marker");
}

#[test]
fn white_space_matches_std_for_every_char() {
    for u in 0u32..=0x10FFFF {
        if let Some(c) = char::from_u32(u) {
            assert_eq!(is_white_space_char(c), c.is_whitespace(), "at U+{u:04X}");
        }
    }
}

#[test]
fn trim_matches_std() {
    for s in ["", "   ", " a b ", "\t\n x\u{3000}", "\u{a0}y\u{85}", "no-trim", "\u{2028}\u{2029}"] {
        assert_eq!(trim_text(s), s.trim());
        assert_eq!(is_blank(s), s.trim().is_empty());
    }
}

#[test]
fn search_matches_std() {
    assert!(contains_char("a@b", '@'));
    assert!(!contains_char("ab", '@'));
    assert!(contains_text("UNIQUE constraint failed: users.email", "UNIQUE"));
    assert!(!contains_text("unique", "UNIQUE"));
    assert!(contains_text("abc", ""));
    assert!(!contains_text("", "a"));
    assert_eq!(blocked_page("__DETAIL____DETAIL___", "b"), "__DETAIL____DETAIL___".replace("__DETAIL__", "b"));
}

#[test]
fn byte_lengths_and_truncation() {
    assert!(bytes_exceed("héllo", 5));
    assert!(!bytes_exceed("héllo", 6));
    assert_eq!(truncate_bytes("héllo", 3), "hé");
    assert_eq!(truncate_bytes("héllo", 10), "héllo");
    assert_eq!(truncate_bytes("abcdef", 4), "abcd");
}

#[test]
fn text_order_matches_string_order() {
    let samples = ["", "a", "ab", "b", "2024-01-02 10:00:00 UTC", "2024-01-02 09:59:59 UTC", "é", "z"];
    for a in samples {
        for b in samples {
            assert_eq!(text_at_most(a, b), a <= b, "{a:?} <= {b:?}");
        }
    }
}
