use std::io::Write;

use plugin_manager::github::{
    handle_github_rate_limit, handle_repository_info, handle_tarball, repository_info_request,
    tarball_request, HttpResponse,
};
use plugin_manager::error::rate_limit_message;
use plugin_manager::reference::resolve_reference;
use plugin_manager::text::{decimal_text, parse_i64};
use plugin_manager::PluginError;

const NOW: i64 = 1_700_000_000;

fn response(status: u16, reset: Option<&str>, body: &[u8]) -> HttpResponse {
    HttpResponse {
        status,
        rate_limit_reset: reset.map(|s| s.to_string()),
        body: body.to_vec(),
    }
}

#[test]
fn rate_limit_message_names_reset_time() {
    let reset = (NOW + 300).to_string();
    let err = handle_github_rate_limit(403, Some(&reset), NOW).unwrap_err();
    match &err {
        PluginError::RateLimited { reset_at, checked_at } => {
            assert_eq!(*reset_at, Some(NOW + 300));
            assert_eq!(*checked_at, NOW);
        }
        other => panic!("unexpected {:?}", other),
    }
    let text = err.message();
    assert!(text.starts_with("GitHub API rate limit reached!"));
    assert!(text.contains("5 minutes"), "{}", text);
}

#[test]
fn rate_limit_without_reset_has_no_duration() {
    let err = handle_github_rate_limit(403, None, NOW).unwrap_err();
    assert!(matches!(err, PluginError::RateLimited { reset_at: None, .. }));
    assert_eq!(err.message(), "GitHub API rate limit reached!");
    let err = handle_github_rate_limit(429, Some("soon"), NOW).unwrap_err();
    assert_eq!(err.message(), "GitHub API rate limit reached!");
}

#[test]
fn past_reset_counts_as_zero() {
    let reset = (NOW - 100).to_string();
    let err = handle_github_rate_limit(429, Some(&reset), NOW).unwrap_err();
    let text = err.message();
    assert!(text.starts_with("GitHub API rate limit reached! Resets in "));
    assert!(text.contains('0'), "{}", text);
}

#[test]
fn status_verdicts() {
    assert!(handle_github_rate_limit(200, None, NOW).is_ok());
    assert!(handle_github_rate_limit(204, Some("1"), NOW).is_ok());
    let err = handle_github_rate_limit(500, None, NOW).unwrap_err();
    assert!(matches!(err, PluginError::UnexpectedStatus { code: 500 }));
    assert_eq!(err.message(), "GitHub API returned an unexpected status code: 500");
    let err = handle_github_rate_limit(404, None, NOW).unwrap_err();
    assert_eq!(err.message(), "GitHub API returned an unexpected status code: 404");
    assert!(matches!(
        handle_github_rate_limit(302, None, NOW),
        Err(PluginError::UnexpectedStatus { code: 302 })
    ));
}

#[test]
fn composes_rate_limit_message() {
    assert_eq!(rate_limit_message(None), "GitHub API rate limit reached!");
    assert_eq!(
        rate_limit_message(Some("5 minutes")),
        "GitHub API rate limit reached! Resets in 5 minutes"
    );
}

#[test]
fn builds_requests() {
    let r = resolve_reference("https://github.com/owner/repo").unwrap();
    let info = repository_info_request(&r, "v0.3.1a");
    assert_eq!(info.url, "https://api.github.com/repos/owner/repo");
    assert_eq!(info.user_agent, "Chatterino Plugin Manager v0.3.1a");
    assert!(info.accept_json);
    let tarball = tarball_request(&r, "main", "v0.3.1a");
    assert_eq!(tarball.url, "https://api.github.com/repos/owner/repo/tarball/main");
    assert!(!tarball.accept_json);
}

#[test]
fn reads_default_branch() {
    let ok = response(200, None, br#"{"default_branch": "main", "id": 1}"#);
    assert_eq!(handle_repository_info(&ok, NOW).unwrap(), "main");
    let missing = response(200, None, br#"{"id": 1}"#);
    assert!(matches!(
        handle_repository_info(&missing, NOW),
        Err(PluginError::BadRepositoryMetadata)
    ));
    let garbage = response(200, None, b"<html>");
    assert!(matches!(
        handle_repository_info(&garbage, NOW),
        Err(PluginError::BadRepositoryMetadata)
    ));
    let limited = response(403, Some("1"), br#"{"default_branch": "main"}"#);
    assert!(matches!(
        handle_repository_info(&limited, NOW),
        Err(PluginError::RateLimited { reset_at: Some(1), .. })
    ));
}

#[test]
fn reads_tarball_response() {
    let mut builder = tar::Builder::new(Vec::new());
    let mut header = tar::Header::new_gnu();
    header.set_size(2);
    header.set_mode(0o644);
    header.set_cksum();
    builder.append_data(&mut header, "root/init.lua", &b"ok"[..]).unwrap();
    let tar_bytes = builder.into_inner().unwrap();
    let mut encoder = flate2::write::GzEncoder::new(Vec::new(), flate2::Compression::default());
    encoder.write_all(&tar_bytes).unwrap();
    let body = encoder.finish().unwrap();
    let files = handle_tarball(&response(200, None, &body), NOW).unwrap();
    assert_eq!(files.len(), 1);
    assert_eq!(files[0].path.path_components, vec!["init.lua".to_string()]);
    assert!(matches!(
        handle_tarball(&response(502, None, &body), NOW),
        Err(PluginError::UnexpectedStatus { code: 502 })
    ));
    assert!(matches!(
        handle_tarball(&response(200, None, b"nope"), NOW),
        Err(PluginError::ArchiveReadFailure)
    ));
}

#[test]
fn decimal_notation() {
    assert_eq!(decimal_text(0), "0");
    assert_eq!(decimal_text(7), "7");
    assert_eq!(decimal_text(10), "10");
    assert_eq!(decimal_text(429), "429");
    assert_eq!(decimal_text(u64::MAX), u64::MAX.to_string());
}

#[test]
fn integer_parsing() {
    assert_eq!(parse_i64("300"), Some(300));
    assert_eq!(parse_i64("+12"), Some(12));
    assert_eq!(parse_i64("-12"), Some(-12));
    assert_eq!(parse_i64("007"), Some(7));
    assert_eq!(parse_i64("9223372036854775807"), Some(i64::MAX));
    assert_eq!(parse_i64("-9223372036854775808"), Some(i64::MIN));
    assert_eq!(parse_i64("9223372036854775808"), None);
    assert_eq!(parse_i64("99999999999999999999999"), None);
    assert_eq!(parse_i64(""), None);
    assert_eq!(parse_i64("-"), None);
    assert_eq!(parse_i64("+"), None);
    assert_eq!(parse_i64(" 1"), None);
    assert_eq!(parse_i64("1x"), None);
    assert_eq!(parse_i64("1.5"), None);
}

#[test]
fn error_messages() {
    assert_eq!(
        PluginError::PluginNotFound { name: "x".to_string() }.message(),
        "Plugin 'x' not found."
    );
    assert_eq!(
        PluginError::PluginAlreadyInstalled { name: "x".to_string() }.message(),
        "A plugin with the name x is already installed."
    );
    assert_eq!(
        PluginError::MissingEnvironmentVariable { variable: "HOME".to_string() }.message(),
        "Could not read HOME environment variable. Please use --path instead."
    );
    assert_eq!(
        PluginError::FileWriteFailure { path: "a/b".to_string() }.message(),
        "There was an error writing a/b"
    );
    assert_eq!(PluginError::InvalidUrl.message(), "Invalid URL");
}

#[test]
fn messages_of_remaining_errors() {
    assert_eq!(
        PluginError::NonRepositoryPlugin.message(),
        "Non repo plugins are not currently supported!"
    );
    assert_eq!(PluginError::UnsupportedHost.message(), "Invalid GitHub repository URL");
    assert_eq!(PluginError::MalformedRepositoryPath.message(), "Invalid GitHub repository URL");
    assert_eq!(
        PluginError::NetworkFailure.message(),
        "There was an error reaching the GitHub API"
    );
    assert_eq!(
        PluginError::BadRepositoryMetadata.message(),
        "There was an error parsing the GitHub API response"
    );
    assert_eq!(
        PluginError::ArchiveReadFailure.message(),
        "There was an error reading the repository tarball"
    );
    assert_eq!(
        PluginError::PluginsRootNotFound.message(),
        "Plugins folder not found in Chatterino folder"
    );
    assert_eq!(PluginError::DirectoryReadFailure.message(), "Could not read Plugins/ folder");
    assert_eq!(
        PluginError::MetadataParseFailure.message(),
        "There was an error parsing the info.json plugin file"
    );
    assert_eq!(
        PluginError::UnsupportedPlatform.message(),
        "Unsupported OS, cannot locate Chatterino folder. Please use --path instead."
    );
}
