use nas_game::api::{echo_reply, hello_reply};
use nas_game::layout::{api_key_or_placeholder, expand_tilde, join_path, settings_or_default};
use nas_game::logging::LoggingLevel;
use nas_game::types::ServerSettings;

#[test]
fn tilde_is_expanded_with_a_home() {
    assert_eq!(expand_tilde("~/.local", Some("/home/u".to_string())), "/home/u/.local");
    assert_eq!(expand_tilde("~/.local", Some("/home/u/".to_string())), "/home/u/.local");
}

#[test]
fn other_paths_are_kept() {
    assert_eq!(expand_tilde("example", Some("/home/u".to_string())), "example");
    assert_eq!(expand_tilde("~/.local", None), "~/.local");
    assert_eq!(expand_tilde("~x", Some("/home/u".to_string())), "~x");
}

#[test]
fn join_like_pathbuf() {
    assert_eq!(join_path("a", "b"), "a/b");
    assert_eq!(join_path("a/", "b"), "a/b");
    assert_eq!(join_path("a", "/b"), "/b");
    assert_eq!(join_path("", "b"), "b");
}

#[test]
fn api_key_falls_back() {
    assert_eq!(api_key_or_placeholder(None), "key");
    assert_eq!(api_key_or_placeholder(Some("abc".to_string())), "abc");
}

#[test]
fn settings_fall_back() {
    let d = settings_or_default(None);
    assert_eq!((d.ip.as_str(), d.port), ("127.0.0.1", 53317));
    let s = settings_or_default(Some(ServerSettings { ip: "0.0.0.0".to_string(), port: 1 }));
    assert_eq!((s.ip.as_str(), s.port), ("0.0.0.0", 1));
}

#[test]
fn level_tags() {
    assert_eq!(LoggingLevel::Trace.tag(), "TRACE");
    assert_eq!(LoggingLevel::Info.tag(), "INFO ");
    assert_eq!(LoggingLevel::Warn.tag(), "WARN ");
    assert_eq!(LoggingLevel::Error.tag(), "ERROR");
    assert_eq!(LoggingLevel::Fatal.tag(), "FATAL");
}

#[test]
fn fixed_replies() {
    assert_eq!(hello_reply().body, "Is Alive");
    let e = echo_reply("ping".to_string());
    assert_eq!((e.status, e.body.as_str()), (200, "ping"));
}
