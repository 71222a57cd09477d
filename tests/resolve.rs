use plugin_manager::github::resolve_plugin_source;
use plugin_manager::reference::{parse_repository_path, reference_from_parts, resolve_reference};
use plugin_manager::PluginError;

#[test]
fn resolves_owner_and_name() {
    let r = resolve_reference("https://github.com/someone/some-plugin").unwrap();
    assert_eq!(r.host, "github.com");
    assert_eq!(r.owner, "someone");
    assert_eq!(r.name, "some-plugin");
}

#[test]
fn resolves_with_trailing_slash() {
    let r = resolve_reference("https://github.com/someone/some-plugin/").unwrap();
    assert_eq!(r.owner, "someone");
    assert_eq!(r.name, "some-plugin");
}

#[test]
fn rejects_other_host() {
    let r = resolve_reference("https://gitlab.com/someone/some-plugin");
    assert!(matches!(r, Err(PluginError::UnsupportedHost)));
}

#[test]
fn rejects_extra_segment() {
    let r = resolve_reference("https://github.com/someone/some-plugin/tree");
    assert!(matches!(r, Err(PluginError::MalformedRepositoryPath)));
}

#[test]
fn rejects_missing_segment() {
    assert!(matches!(
        resolve_reference("https://github.com/someone"),
        Err(PluginError::MalformedRepositoryPath)
    ));
    assert!(matches!(
        resolve_reference("https://github.com/someone/"),
        Err(PluginError::MalformedRepositoryPath)
    ));
    assert!(matches!(
        resolve_reference("https://github.com/"),
        Err(PluginError::MalformedRepositoryPath)
    ));
}

#[test]
fn rejects_text_that_is_no_url() {
    assert!(matches!(resolve_reference("not a url"), Err(PluginError::InvalidUrl)));
    assert!(matches!(resolve_reference(""), Err(PluginError::InvalidUrl)));
}

#[test]
fn rejects_url_without_host() {
    assert!(matches!(
        resolve_reference("mailto:someone@example.com"),
        Err(PluginError::UnsupportedHost)
    ));
}

#[test]
fn host_is_compared_after_url_parsing() {
    let r = resolve_reference("https://GitHub.com/someone/plugin").unwrap();
    assert_eq!(r.owner, "someone");
    assert_eq!(r.name, "plugin");
}

#[test]
fn only_repository_plugins_resolve() {
    assert!(matches!(
        resolve_plugin_source("https://github.com/a/b", false),
        Err(PluginError::NonRepositoryPlugin)
    ));
    let r = resolve_plugin_source("https://github.com/a/b", true).unwrap();
    assert_eq!(r.owner, "a");
    assert_eq!(r.name, "b");
}

#[test]
fn splits_repository_paths() {
    assert_eq!(
        parse_repository_path("/owner/name"),
        Some(("owner".to_string(), "name".to_string()))
    );
    assert_eq!(
        parse_repository_path("/owner/name/"),
        Some(("owner".to_string(), "name".to_string()))
    );
    assert_eq!(parse_repository_path("/owner/name//"), None);
    assert_eq!(parse_repository_path("//name"), None);
    assert_eq!(parse_repository_path("/owner//"), None);
    assert_eq!(parse_repository_path("owner/name"), None);
    assert_eq!(parse_repository_path("/"), None);
    assert_eq!(parse_repository_path(""), None);
    assert_eq!(parse_repository_path("/a/b/c"), None);
}

#[test]
fn parts_on_supported_host() {
    let r = reference_from_parts(Some("github.com"), "/x/y").unwrap();
    assert_eq!((r.owner.as_str(), r.name.as_str()), ("x", "y"));
    assert!(matches!(
        reference_from_parts(Some("example.com"), "/x/y"),
        Err(PluginError::UnsupportedHost)
    ));
    assert!(matches!(reference_from_parts(None, "/x/y"), Err(PluginError::UnsupportedHost)));
    assert!(matches!(
        reference_from_parts(Some("github.com"), "/x"),
        Err(PluginError::MalformedRepositoryPath)
    ));
}
