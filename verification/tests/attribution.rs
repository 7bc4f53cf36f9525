use content_filter::attribution::{
    identify, is_team_identifier, path_for_audit_token, path_query, pid_for, pid_from_audit_token,
    source_audit_token, AppId, FlowSource, PathLookup, AUDIT_TOKEN_LEN,
};

/// Build a 32-byte audit token with `pid` in val[5].
fn token_with_pid(pid: u32) -> Vec<u8> {
    let mut t = vec![0u8; AUDIT_TOKEN_LEN];
    t[20..24].copy_from_slice(&pid.to_le_bytes());
    t
}

#[test]
fn reads_the_pid_from_val5() {
    assert_eq!(pid_from_audit_token(&token_with_pid(4321)), Some(4321));
}

#[test]
fn rejects_a_short_token() {
    assert_eq!(pid_from_audit_token(&[0u8; 16]), None);
}

#[test]
fn rejects_a_zero_pid() {
    // All-zero is what an uninitialised or unavailable token looks like; it must not be
    // reported as pid 0 (the kernel).
    assert_eq!(pid_from_audit_token(&[0u8; 32]), None);
}

#[test]
fn ignores_other_fields_of_the_token() {
    let mut t = token_with_pid(99);
    t[0..4].copy_from_slice(&7u32.to_le_bytes()); // val[0], the auid
    t[24..28].copy_from_slice(&5u32.to_le_bytes()); // val[6], the asid
    assert_eq!(pid_from_audit_token(&t), Some(99));
}

#[test]
fn a_short_token_is_never_handed_to_proc_pidpath() {
    // The lookup reads a full audit token, so a short one must never get that far, neither as
    // a query nor as the token of a reply.
    let reply = PathLookup { written: 4, buffer: b"/bin".to_vec() };
    assert_eq!(path_for_audit_token(&[0u8; 16], reply), None);
    let source = FlowSource {
        app_identifier: None,
        app_audit_token: Some(vec![0u8; 16]),
        process_audit_token: Some(vec![0u8; AUDIT_TOKEN_LEN]),
    };
    assert_eq!(path_query(&source), None);
}

#[test]
fn log_label_shows_the_source() {
    let by_id = AppId {
        name: "73T9H7VE4P.com.digiexam.macos.NetworkExtensions".into(),
        source: AppId::FROM_IDENTIFIER,
    };
    assert_eq!(by_id.log_label(), "73T9H7VE4P.com.digiexam.macos.NetworkExtensions(id)");

    let by_path = AppId { name: "/usr/bin/curl".into(), source: AppId::FROM_PATH };
    assert_eq!(by_path.log_label(), "/usr/bin/curl(path)");
}

fn by_id(name: &str) -> AppId {
    AppId { name: name.into(), source: AppId::FROM_IDENTIFIER }
}

#[test]
fn bundle_id_strips_a_team_prefix() {
    assert_eq!(
        by_id("EQHXZ8M8AV.com.google.Chrome.helper").bundle_id(),
        Some("com.google.Chrome.helper")
    );
}

#[test]
fn bundle_id_handles_an_empty_team_half() {
    // The leading dot is normal, not a glitch: platform binaries and this app's own WebKit
    // sockets are both reported this way. Missing this is what made the shipped rule dead.
    assert_eq!(by_id(".com.apple.mDNSResponder").bundle_id(), Some("com.apple.mDNSResponder"));
    assert_eq!(by_id(".lsfilter").bundle_id(), Some("lsfilter"));
}

#[test]
fn bundle_id_refuses_to_split_a_prefix_that_is_not_a_team_identifier() {
    // Guards against widening the allowlist: an identifier with no team prefix at all must not
    // be split into "com" + "foo.bar", which would let a rule written "foo.bar" match it.
    assert_eq!(by_id("com.foo.bar").bundle_id(), None);
    assert_eq!(by_id("SHORT.com.foo.bar").bundle_id(), None);
    assert_eq!(by_id("TOOLONGTEAM1.com.foo.bar").bundle_id(), None);
    assert_eq!(by_id("EQHXZ8M8A-.com.foo.bar").bundle_id(), None, "team ids are alphanumeric");
}

#[test]
fn bundle_id_ignores_a_path_named_flow() {
    // Splitting a path on '.' would be nonsense — and worse, a directory with a dot in it
    // would produce a "bundle identifier" that a rule could accidentally match.
    let curl = AppId { name: "/usr/bin/curl".into(), source: AppId::FROM_PATH };
    assert_eq!(curl.bundle_id(), None);
    let dotted = AppId { name: "/opt/foo.d/bin/tool".into(), source: AppId::FROM_PATH };
    assert_eq!(dotted.bundle_id(), None);
}

#[test]
fn bundle_id_rejects_a_name_with_nothing_after_the_dot() {
    assert_eq!(by_id("EQHXZ8M8AV.").bundle_id(), None);
    assert_eq!(by_id(".").bundle_id(), None);
    assert_eq!(by_id("nodothere").bundle_id(), None);
}

#[test]
fn one_bundle_identifier_rule_matches_both_forms_of_one_app() {
    // The whole point: macOS reports this app's own sockets and its webview's sockets under
    // two different strings, and one rule has to cover both.
    let own = by_id("73T9H7VE4P.com.digiexam.macos.NetworkExtensions");
    let webview = by_id(".com.digiexam.macos.NetworkExtensions");
    assert!(own.matches_rule("com.digiexam.macos.NetworkExtensions"));
    assert!(webview.matches_rule("com.digiexam.macos.NetworkExtensions"));
}

#[test]
fn a_rule_may_pin_the_verbatim_reported_string() {
    let own = by_id("73T9H7VE4P.com.digiexam.macos.NetworkExtensions");
    assert!(own.matches_rule("73T9H7VE4P.com.digiexam.macos.NetworkExtensions"));
    // Pinning one report does not admit the other.
    assert!(!own.matches_rule(".com.digiexam.macos.NetworkExtensions"));
}

#[test]
fn matching_is_exact_at_both_ends() {
    let app = by_id(".com.digiexam.macos.NetworkExtensions");
    assert!(!app.matches_rule("com.digiexam.macos"), "no prefix matching");
    assert!(!app.matches_rule("com.digiexam.macos.NetworkExtensions.ContentFilter"));
    assert!(!app.matches_rule("macos.NetworkExtensions"), "no suffix matching");
    assert!(!app.matches_rule(""), "an empty rule value must not match everything");
}

#[test]
fn a_path_named_flow_matches_only_its_path() {
    let curl = AppId { name: "/usr/bin/curl".into(), source: AppId::FROM_PATH };
    assert!(curl.matches_rule("/usr/bin/curl"));
    assert!(!curl.matches_rule("curl"));
}

fn source(
    identifier: Option<&str>,
    app: Option<Vec<u8>>,
    process: Option<Vec<u8>>,
) -> FlowSource {
    FlowSource {
        app_identifier: identifier.map(|s| s.to_string()),
        app_audit_token: app,
        process_audit_token: process,
    }
}

fn found(path: &[u8]) -> Option<PathLookup> {
    let mut buffer = vec![0u8; 64];
    buffer[..path.len()].copy_from_slice(path);
    Some(PathLookup { written: path.len() as i32, buffer })
}

#[test]
fn an_identifier_names_the_flow_without_a_lookup() {
    let s = source(Some(".com.apple.Safari"), Some(token_with_pid(7)), None);
    assert_eq!(path_query(&s), None);
    let app = identify(&s, None).unwrap();
    assert_eq!(app.name, ".com.apple.Safari");
    assert_eq!(app.source, "id");
    // A lookup that was made all the same does not change the name.
    assert_eq!(identify(&s, found(b"/usr/bin/curl")).unwrap(), app);
}

#[test]
fn an_empty_identifier_counts_as_none() {
    let s = source(Some(""), None, Some(token_with_pid(7)));
    assert_eq!(path_query(&s), Some(&token_with_pid(7)));
    let app = identify(&s, found(b"/usr/bin/curl")).unwrap();
    assert_eq!(app, AppId { name: "/usr/bin/curl".into(), source: AppId::FROM_PATH });
}

#[test]
fn a_flow_that_nothing_names_stays_unnamed() {
    assert_eq!(identify(&source(None, None, None), None), None);
    assert_eq!(identify(&source(None, None, None), found(b"/usr/bin/curl")), None);
    let s = source(None, Some(token_with_pid(7)), None);
    assert_eq!(identify(&s, None), None);
    assert_eq!(identify(&s, Some(PathLookup { written: 0, buffer: b"/bin/sh".to_vec() })), None);
    assert_eq!(identify(&s, Some(PathLookup { written: -1, buffer: b"/bin/sh".to_vec() })), None);
}

#[test]
fn the_app_token_is_preferred_over_the_process_token() {
    let s = source(None, Some(token_with_pid(1)), Some(token_with_pid(2)));
    assert_eq!(source_audit_token(&s), Some(&token_with_pid(1)));
    assert_eq!(pid_for(&s), Some(1));
    let s = source(None, None, Some(token_with_pid(2)));
    assert_eq!(pid_for(&s), Some(2));
    // A short app token is no token, and does not fall back to the process token.
    let s = source(None, Some(vec![0u8; 31]), Some(token_with_pid(2)));
    assert_eq!(source_audit_token(&s), None);
    assert_eq!(pid_for(&s), None);
    assert_eq!(pid_for(&source(None, None, None)), None);
}

#[test]
fn a_negative_pid_is_rejected() {
    assert_eq!(pid_from_audit_token(&token_with_pid(0x8000_0000)), None);
    assert_eq!(pid_from_audit_token(&token_with_pid(u32::MAX)), None);
    assert_eq!(pid_from_audit_token(&token_with_pid(0x7fff_ffff)), Some(i32::MAX));
    assert_eq!(pid_from_audit_token(&token_with_pid(0x0102_0304)), Some(0x0102_0304));
}

#[test]
fn a_looked_up_path_loses_its_padding() {
    let token = token_with_pid(9);
    let whole = |written: i32, bytes: &[u8]| {
        path_for_audit_token(&token, PathLookup { written, buffer: bytes.to_vec() })
    };
    assert_eq!(whole(8, b"/bin/cat"), Some("/bin/cat".to_string()));
    assert_eq!(whole(4, b"/bin/cat"), Some("/bin".to_string()));
    assert_eq!(whole(8, b"/bin\0\0\0\0"), Some("/bin".to_string()));
    assert_eq!(whole(100, b"/bin\0"), Some("/bin".to_string()));
    assert_eq!(whole(3, b"\0\0\0"), None);
    assert_eq!(whole(2, &[0xff, 0xfe]), None);
    assert_eq!(whole(7, "/caf\u{e9}s".as_bytes()), Some("/caf\u{e9}s".to_string()));
}

#[test]
fn team_identifiers_are_ten_ascii_alphanumerics() {
    assert!(is_team_identifier("73T9H7VE4P"));
    assert!(is_team_identifier("abcdefghi9"));
    assert!(!is_team_identifier(""));
    assert!(!is_team_identifier("73T9H7VE4"));
    assert!(!is_team_identifier("73T9H7VE4PX"));
    assert!(!is_team_identifier("73T9H7VE4\u{e9}"));
}

#[test]
fn a_cloned_app_is_the_same_app() {
    let app = by_id(".com.apple.Safari");
    assert_eq!(app.clone(), app);
}
