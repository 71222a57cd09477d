use plugin_manager::install::{plan_plugin_install, InstallStep};
use plugin_manager::{PluginError, ProjectFile, ProjectPath};

fn entry(components: &[&str], is_dir: bool, content: &[u8]) -> ProjectFile {
    ProjectFile {
        path: ProjectPath {
            path_components: components.iter().map(|c| c.to_string()).collect(),
            is_dir,
        },
        content: content.to_vec(),
    }
}

fn strings(v: &[&str]) -> Vec<String> {
    v.iter().map(|s| s.to_string()).collect()
}

#[test]
fn refuses_existing_install() {
    let files = vec![entry(&["plugin.lua"], false, b"x"), entry(&["sub"], true, b"")];
    match plan_plugin_install(true, true, "demo", files) {
        Err(PluginError::PluginAlreadyInstalled { name }) => assert_eq!(name, "demo"),
        other => panic!("unexpected {:?}", other),
    }
    match plan_plugin_install(true, true, "demo", Vec::new()) {
        Err(PluginError::PluginAlreadyInstalled { name }) => assert_eq!(name, "demo"),
        other => panic!("unexpected {:?}", other),
    }
}

#[test]
fn refuses_missing_plugins_root() {
    let r = plan_plugin_install(false, false, "demo", vec![entry(&["a"], false, b"")]);
    assert!(matches!(r, Err(PluginError::PluginsRootNotFound)));
}

#[test]
fn plans_directory_then_entries_in_order() {
    let files = vec![
        entry(&["plugin.lua"], false, b"code"),
        entry(&["sub"], true, b""),
        entry(&["sub", "x.txt"], false, b"x"),
    ];
    let steps = plan_plugin_install(true, false, "demo", files).unwrap();
    assert_eq!(steps.len(), 4);
    match &steps[0] {
        InstallStep::CreateDirAll { path } => assert_eq!(path, &strings(&["demo"])),
        other => panic!("unexpected {:?}", other),
    }
    match &steps[1] {
        InstallStep::CreateFile { path, content } => {
            assert_eq!(path, &strings(&["demo", "plugin.lua"]));
            assert_eq!(content, &b"code".to_vec());
        }
        other => panic!("unexpected {:?}", other),
    }
    match &steps[2] {
        InstallStep::CreateDirAll { path } => assert_eq!(path, &strings(&["demo", "sub"])),
        other => panic!("unexpected {:?}", other),
    }
    match &steps[3] {
        InstallStep::CreateFile { path, content } => {
            assert_eq!(path, &strings(&["demo", "sub", "x.txt"]));
            assert_eq!(content, &b"x".to_vec());
        }
        other => panic!("unexpected {:?}", other),
    }
}
