use vstd::prelude::*;

use crate::archive::{file_views, FileView, ProjectFile, ProjectPath};
use crate::error::PluginError;
use crate::text::owned;

verus! {

/// One filesystem operation of an installation, with its path as
/// components under the Plugins directory.
#[derive(Debug)]
pub enum InstallStep {
    /// Create the directory and any missing ancestors.
    CreateDirAll { path: Vec<String> },
    /// Create any missing ancestors, then create the file, failing if it
    /// already exists, and write the content to it.
    CreateFile { path: Vec<String>, content: Vec<u8> },
}

/// An installation step as plain values.
pub ghost enum StepView {
    CreateDirAll(Seq<Seq<char>>),
    CreateFile(Seq<Seq<char>>, Seq<u8>),
}

impl View for InstallStep {
    type V = StepView;

    open spec fn view(&self) -> StepView {
        match self {
            InstallStep::CreateDirAll { path } => StepView::CreateDirAll(
                path@.map_values(|s: String| s@),
            ),
            InstallStep::CreateFile { path, content } => StepView::CreateFile(
                path@.map_values(|s: String| s@),
                content@,
            ),
        }
    }
}

pub open spec fn step_views(v: Seq<InstallStep>) -> Seq<StepView> {
    v.map_values(|s: InstallStep| s@)
}

/// The step that writes one normalised entry of plugin `name`.
pub open spec fn step_for(name: Seq<char>, f: FileView) -> StepView {
    if f.is_dir {
        StepView::CreateDirAll(seq![name] + f.components)
    } else {
        StepView::CreateFile(seq![name] + f.components, f.content)
    }
}

/// The steps that install plugin `name` from its entries: its directory
/// first, then each entry in order; `None` where the installation is
/// refused because the Plugins directory is missing or the plugin's
/// directory already exists.
pub open spec fn install_plan(
    root_is_dir: bool,
    install_path_exists: bool,
    name: Seq<char>,
    files: Seq<FileView>,
) -> Option<Seq<StepView>> {
    if !root_is_dir || install_path_exists {
        None
    } else {
        Some(seq![StepView::CreateDirAll(seq![name])] + files.map_values(|f: FileView| step_for(name, f)))
    }
}

/// Plans the installation of plugin `name` from its normalised entries,
/// given whether the Plugins directory exists and whether the plugin's
/// directory already does. A refused installation has no steps, so
/// nothing on disk changes.
pub fn plan_plugin_install(
    root_is_dir: bool,
    install_path_exists: bool,
    name: &str,
    files: Vec<ProjectFile>,
) -> (r: Result<Vec<InstallStep>, PluginError>)
    ensures
        match install_plan(root_is_dir, install_path_exists, name@, file_views(files@)) {
            Some(plan) => r matches Ok(steps) && step_views(steps@) == plan,
            None => r matches Err(e) && if !root_is_dir {
                e is PluginsRootNotFound
            } else {
                e matches PluginError::PluginAlreadyInstalled { name: n } && n@ == name@
            },
        },
{
    if !root_is_dir {
        return Err(PluginError::PluginsRootNotFound);
    }
    if install_path_exists {
        return Err(PluginError::PluginAlreadyInstalled { name: owned(name) });
    }
    let ghost all = file_views(files@);
    let ghost plan = all.map_values(|f: FileView| step_for(name@, f));
    let mut root_path: Vec<String> = Vec::new();
    root_path.push(owned(name));
    assert(root_path@.map_values(|s: String| s@) =~= seq![name@]);
    let mut steps: Vec<InstallStep> = Vec::new();
    steps.push(InstallStep::CreateDirAll { path: root_path });
    assert(step_views(steps@) =~= seq![StepView::CreateDirAll(seq![name@])]);
    for file in it: files
        invariant
            it.seq() == files@,
            all == file_views(files@),
            plan == all.map_values(|f: FileView| step_for(name@, f)),
            step_views(steps@) == seq![StepView::CreateDirAll(seq![name@])] + plan.take(
                it.index() as int,
            ),
    {
        let ghost k = it.index() as int;
        let ghost fv = file@;
        assert(all[k] == fv);
        let ProjectFile { path: ProjectPath { mut path_components, is_dir }, content } = file;
        let mut path: Vec<String> = Vec::new();
        path.push(owned(name));
        path.append(&mut path_components);
        assert(path@.map_values(|s: String| s@) =~= seq![name@] + fv.components);
        let step = if is_dir {
            InstallStep::CreateDirAll { path }
        } else {
            InstallStep::CreateFile { path, content }
        };
        assert(step@ == step_for(name@, fv));
        let ghost before = steps@;
        steps.push(step);
        assert(plan.take(k + 1) =~= plan.take(k).push(step_for(name@, fv)));
        assert(step_views(steps@) =~= step_views(before).push(step@));
    }
    assert(plan.take(plan.len() as int) =~= plan);
    Ok(steps)
}

/// An installation into an existing plugin directory is refused whatever
/// the entries hold: it has no steps, so nothing on disk changes.
pub proof fn lemma_existing_install_untouched(
    root_is_dir: bool,
    name: Seq<char>,
    files: Seq<FileView>,
)
    ensures
        install_plan(root_is_dir, true, name, files) is None,
{
}

} // verus!
