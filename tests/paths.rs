use plugin_manager::paths::{chatterino_plugins_path, OsFamily};
use plugin_manager::{get_default_chatterino_path, PluginError};

#[test]
fn windows_default_path() {
    let p = get_default_chatterino_path(OsFamily::Windows, Some("C:\\Users\\u\\AppData\\Roaming"), None)
        .unwrap();
    assert_eq!(p, vec!["C:\\Users\\u\\AppData\\Roaming", "Chatterino2"]);
}

#[test]
fn linux_default_path() {
    let p = get_default_chatterino_path(OsFamily::Linux, None, Some("/home/u")).unwrap();
    assert_eq!(p, vec!["/home/u", ".local/share/chatterino"]);
}

#[test]
fn default_path_errors() {
    match get_default_chatterino_path(OsFamily::Linux, Some("x"), None) {
        Err(PluginError::MissingEnvironmentVariable { variable }) => assert_eq!(variable, "HOME"),
        other => panic!("unexpected {:?}", other),
    }
    match get_default_chatterino_path(OsFamily::Windows, None, Some("/home/u")) {
        Err(PluginError::MissingEnvironmentVariable { variable }) => {
            assert_eq!(variable, "APPDATA")
        }
        other => panic!("unexpected {:?}", other),
    }
    assert!(matches!(
        get_default_chatterino_path(OsFamily::Other, Some("a"), Some("b")),
        Err(PluginError::UnsupportedPlatform)
    ));
}

#[test]
fn plugins_root_prefers_explicit_path() {
    let p = chatterino_plugins_path(Some("/data/c2"), OsFamily::Other, None, None).unwrap();
    assert_eq!(p, vec!["/data/c2", "Plugins"]);
    let p = chatterino_plugins_path(None, OsFamily::Linux, None, Some("/home/u")).unwrap();
    assert_eq!(p, vec!["/home/u", ".local/share/chatterino", "Plugins"]);
    assert!(matches!(
        chatterino_plugins_path(None, OsFamily::Other, None, None),
        Err(PluginError::UnsupportedPlatform)
    ));
}
