//! Project materialization: validating a project request and planning, in
//! the required order, the directory creations and file writes that turn
//! it into a project scaffold on disk. The caller that owns the filesystem
//! performs the planned actions verbatim; the first failing action is
//! fatal for the whole operation and nothing is rolled back.

use vstd::prelude::*;
use crate::render::{
    build_manifest_content, get_cargo_toml_content, get_gdextension_content,
    get_gitignore_content, get_lib_content, lib_source_content, manifest_content,
    ProjectTemplates, TemplatesModel,
};

verus! {

/// Why a project request was rejected before any filesystem mutation.
#[derive(Clone, Copy, Debug, PartialEq, Eq, Structural)]
pub enum MaterializeError {
    /// The project name was empty.
    EmptyName,
    /// A filesystem entry with the project's name already exists.
    AlreadyExists,
    /// The template set is unavailable (it only exists whole).
    TemplatesUnavailable,
}

impl MaterializeError {
    /// The descriptive text of this error.
    pub open spec fn message_spec(self) -> Seq<char> {
        match self {
            MaterializeError::EmptyName => "Project name cannot be empty."@,
            MaterializeError::AlreadyExists => "Project with this name already exists."@,
            MaterializeError::TemplatesUnavailable => "Templates are not available."@,
        }
    }

    /// Renders the descriptive text of this error.
    pub fn message(&self) -> (r: String)
        ensures
            r@ == self.message_spec(),
    {
        match self {
            MaterializeError::EmptyName => String::from_str("Project name cannot be empty."),
            MaterializeError::AlreadyExists => String::from_str(
                "Project with this name already exists.",
            ),
            MaterializeError::TemplatesUnavailable => String::from_str(
                "Templates are not available.",
            ),
        }
    }
}

/// One filesystem mutation of the materialization sequence.
pub enum FsAction {
    /// Create a directory (and any missing parents) at `path`.
    CreateDir { path: String },
    /// Write `content` to the file at `path`, creating or truncating it.
    WriteFile { path: String, content: String },
}

/// The mathematical content of one planned filesystem mutation.
#[verifier::ext_equal]
pub enum FsActionModel {
    CreateDir { path: Seq<char> },
    WriteFile { path: Seq<char>, content: Seq<char> },
}

impl View for FsAction {
    type V = FsActionModel;

    open spec fn view(&self) -> FsActionModel {
        match self {
            FsAction::CreateDir { path } => FsActionModel::CreateDir { path: path@ },
            FsAction::WriteFile { path, content } => FsActionModel::WriteFile {
                path: path@,
                content: content@,
            },
        }
    }
}

impl DeepView for FsAction {
    type V = FsActionModel;

    open spec fn deep_view(&self) -> FsActionModel {
        self.view()
    }
}

/// The fixed project-descriptor content: a minimal header plus a
/// hard-coded scene reference, not templated.
pub open spec fn descriptor_content() -> Seq<char> {
    "[gd_project]\nversion=4.0\nrun/main_scene=\"res://main.tscn\"\n"@
}

/// The whole materialization sequence for an accepted request, in the
/// exact order the filesystem must see it: the root directory, the
/// descriptor, the build and source directories, then the four rendered
/// files.
pub open spec fn plan_actions(
    name: Seq<char>,
    t: TemplatesModel,
    version: Seq<char>,
    reloadable: bool,
    targets: Seq<Seq<char>>,
) -> Seq<FsActionModel> {
    seq![
        FsActionModel::CreateDir { path: name },
        FsActionModel::WriteFile { path: name + "/project.godot"@, content: descriptor_content() },
        FsActionModel::CreateDir { path: name + "/rust"@ },
        FsActionModel::CreateDir { path: name + "/rust/src"@ },
        FsActionModel::WriteFile {
            path: name + "/rust/Cargo.toml"@,
            content: build_manifest_content(t.cargo_toml, name),
        },
        FsActionModel::WriteFile { path: name + "/rust/.gitignore"@, content: t.gitignore },
        FsActionModel::WriteFile {
            path: name + "/rust/src/lib.rs"@,
            content: lib_source_content(t.lib_content, name),
        },
        FsActionModel::WriteFile {
            path: name + "/"@ + name + ".gdextension"@,
            content: manifest_content(t.gdextension, name, version, reloadable, targets),
        },
    ]
}

/// The log line reporting that the scaffold was created.
pub open spec fn created_log_line_spec(name: Seq<char>) -> Seq<char> {
    "Created Godot project '"@ + name + "' with Rust integration.\n"@
}

/// An accepted request's plan: the log lines to append and the filesystem
/// actions to perform, in order. When precompilation is requested the
/// final success line is withheld, since overall success is then
/// contingent on the asynchronous build step.
pub struct MaterializePlan {
    /// Appended to the progress log when the request is accepted, before
    /// any filesystem action.
    pub start_log_line: String,
    /// The filesystem mutations, to be performed in order; the first
    /// failure aborts the whole operation.
    pub actions: Vec<FsAction>,
    /// Appended to the progress log once every action has succeeded.
    pub created_log_line: String,
    /// The plain success line, present exactly when no precompilation
    /// follows.
    pub completion_log_line: Option<String>,
    /// Whether the background build step is to be dispatched.
    pub precompile: bool,
}

/// Whether `p` is exactly the plan that an accepted request with these
/// fields calls for.
pub open spec fn plan_matches(
    p: MaterializePlan,
    name: Seq<char>,
    t: TemplatesModel,
    version: Seq<char>,
    reloadable: bool,
    targets: Seq<Seq<char>>,
    precompile: bool,
) -> bool {
    &&& p.start_log_line@ == "Creating project...\n"@
    &&& p.actions.deep_view() == plan_actions(name, t, version, reloadable, targets)
    &&& p.created_log_line@ == created_log_line_spec(name)
    &&& p.precompile == precompile
    &&& (precompile ==> p.completion_log_line is None)
    &&& (!precompile ==> p.completion_log_line is Some && p.completion_log_line->0@
        == "Project created successfully.\n"@)
}

/// Concatenates a name and a fixed suffix.
fn name_path(name: &str, suffix: &str) -> (r: String)
    ensures
        r@ == name@ + suffix@,
{
    let mut s = String::from_str(name);
    s.append(suffix);
    s
}

/// Plans the materialization of an accepted request: the five files of the
/// scaffold, rendered from the templates, behind the three directories
/// that hold them.
pub fn create_project(
    project_name: &str,
    templates: &ProjectTemplates,
    godot_version: &str,
    reloadable: bool,
    targets: &Vec<String>,
    precompile_lib: bool,
) -> (p: MaterializePlan)
    ensures
        plan_matches(
            p,
            project_name@,
            templates@,
            godot_version@,
            reloadable,
            targets.deep_view(),
            precompile_lib,
        ),
{
    let mut actions: Vec<FsAction> = Vec::new();
    actions.push(FsAction::CreateDir { path: String::from_str(project_name) });
    actions.push(
        FsAction::WriteFile {
            path: name_path(project_name, "/project.godot"),
            content: String::from_str(
                "[gd_project]\nversion=4.0\nrun/main_scene=\"res://main.tscn\"\n",
            ),
        },
    );
    actions.push(FsAction::CreateDir { path: name_path(project_name, "/rust") });
    actions.push(FsAction::CreateDir { path: name_path(project_name, "/rust/src") });
    actions.push(
        FsAction::WriteFile {
            path: name_path(project_name, "/rust/Cargo.toml"),
            content: get_cargo_toml_content(templates, project_name),
        },
    );
    actions.push(
        FsAction::WriteFile {
            path: name_path(project_name, "/rust/.gitignore"),
            content: get_gitignore_content(templates),
        },
    );
    actions.push(
        FsAction::WriteFile {
            path: name_path(project_name, "/rust/src/lib.rs"),
            content: get_lib_content(templates, project_name),
        },
    );
    let mut manifest_path = String::from_str(project_name);
    manifest_path.append("/");
    manifest_path.append(project_name);
    manifest_path.append(".gdextension");
    actions.push(
        FsAction::WriteFile {
            path: manifest_path,
            content: get_gdextension_content(
                templates,
                project_name,
                godot_version,
                reloadable,
                targets,
            ),
        },
    );
    assert(actions.deep_view() =~= plan_actions(
        project_name@,
        templates@,
        godot_version@,
        reloadable,
        targets.deep_view(),
    ));
    let mut created = String::from_str("Created Godot project '");
    created.append(project_name);
    created.append("' with Rust integration.\n");
    let completion = if precompile_lib {
        None
    } else {
        Some(String::from_str("Project created successfully.\n"))
    };
    MaterializePlan {
        start_log_line: String::from_str("Creating project...\n"),
        actions,
        created_log_line: created,
        completion_log_line: completion,
        precompile: precompile_lib,
    }
}

/// Validates a project request and, when every precondition holds, plans
/// its materialization. The preconditions are checked before any planned
/// mutation: a rejected request yields no plan, hence zero filesystem
/// mutation and no log line.
pub fn handle_create_project(
    project_name: &str,
    project_exists: bool,
    templates: Option<&ProjectTemplates>,
    godot_version: &str,
    reloadable: bool,
    targets: &Vec<String>,
    precompile_lib: bool,
) -> (r: Result<MaterializePlan, MaterializeError>)
    ensures
        r is Err <==> (project_name@.len() == 0 || project_exists || templates is None),
        match r {
            Ok(p) => templates is Some && plan_matches(
                p,
                project_name@,
                (*templates->0)@,
                godot_version@,
                reloadable,
                targets.deep_view(),
                precompile_lib,
            ),
            Err(e) => {
                &&& (e is EmptyName <==> project_name@.len() == 0)
                &&& (e is AlreadyExists <==> (project_name@.len() > 0 && project_exists))
                &&& (e is TemplatesUnavailable <==> (project_name@.len() > 0 && !project_exists
                    && templates is None))
            },
        },
{
    if project_name.unicode_len() == 0 {
        return Err(MaterializeError::EmptyName);
    }
    if project_exists {
        return Err(MaterializeError::AlreadyExists);
    }
    match templates {
        None => Err(MaterializeError::TemplatesUnavailable),
        Some(t) => Ok(
            create_project(project_name, t, godot_version, reloadable, targets, precompile_lib),
        ),
    }
}

} // verus!
