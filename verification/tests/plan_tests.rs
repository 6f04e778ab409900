use gdext_creator::plan::{create_project, handle_create_project, FsAction, MaterializeError};
use gdext_creator::render::ProjectTemplates;

fn templates() -> ProjectTemplates {
    ProjectTemplates {
        gitignore: "/target\n".to_string(),
        lib_content: "struct {project_name};\n".to_string(),
        gdextension: "compatibility_minimum = 4.2\nreloadable = true\n".to_string(),
        cargo_toml: "name = \"{project_name}\"\n".to_string(),
    }
}

#[test]
fn empty_name_is_rejected() {
    let r = handle_create_project("", false, Some(&templates()), "4.2", true, &vec![], false);
    assert_eq!(r.err(), Some(MaterializeError::EmptyName));
}

#[test]
fn empty_name_takes_precedence() {
    let r = handle_create_project("", true, None, "4.2", true, &vec![], false);
    assert_eq!(r.err(), Some(MaterializeError::EmptyName));
}

#[test]
fn existing_entry_is_rejected() {
    let r = handle_create_project("demo", true, Some(&templates()), "4.2", true, &vec![], false);
    assert_eq!(r.err(), Some(MaterializeError::AlreadyExists));
}

#[test]
fn missing_templates_are_rejected() {
    let r = handle_create_project("demo", false, None, "4.2", true, &vec![], false);
    assert_eq!(r.err(), Some(MaterializeError::TemplatesUnavailable));
}

#[test]
fn error_messages() {
    assert_eq!(
        MaterializeError::EmptyName.message(),
        "Project name cannot be empty."
    );
    assert_eq!(
        MaterializeError::AlreadyExists.message(),
        "Project with this name already exists."
    );
    assert_eq!(
        MaterializeError::TemplatesUnavailable.message(),
        "Templates are not available."
    );
}

#[test]
fn accepted_request_plans_five_nonempty_files_in_order() {
    let targets = vec!["linux.debug.x86_64".to_string()];
    let r = handle_create_project(
        "my_mod",
        false,
        Some(&templates()),
        "4.3",
        false,
        &targets,
        false,
    );
    let plan = r.ok().expect("request should be accepted");
    assert_eq!(plan.start_log_line, "Creating project...\n");
    assert_eq!(
        plan.created_log_line,
        "Created Godot project 'my_mod' with Rust integration.\n"
    );
    assert_eq!(
        plan.completion_log_line,
        Some("Project created successfully.\n".to_string())
    );
    assert!(!plan.precompile);
    assert_eq!(plan.actions.len(), 8);
    let mut dirs: Vec<String> = Vec::new();
    let mut files: Vec<(String, String)> = Vec::new();
    for a in plan.actions {
        match a {
            FsAction::CreateDir { path } => dirs.push(path),
            FsAction::WriteFile { path, content } => {
                assert!(!content.is_empty());
                files.push((path, content));
            }
        }
    }
    assert_eq!(dirs, vec!["my_mod", "my_mod/rust", "my_mod/rust/src"]);
    assert_eq!(files.len(), 5);
    assert_eq!(files[0].0, "my_mod/project.godot");
    assert_eq!(
        files[0].1,
        "[gd_project]\nversion=4.0\nrun/main_scene=\"res://main.tscn\"\n"
    );
    assert_eq!(files[1].0, "my_mod/rust/Cargo.toml");
    assert_eq!(files[1].1, "name = \"my_mod\"\n");
    assert_eq!(files[2].0, "my_mod/rust/.gitignore");
    assert_eq!(files[2].1, "/target\n");
    assert_eq!(files[3].0, "my_mod/rust/src/lib.rs");
    assert_eq!(files[3].1, "struct MyMod;\n");
    assert_eq!(files[4].0, "my_mod/my_mod.gdextension");
    assert_eq!(
        files[4].1,
        "compatibility_minimum = 4.3\nreloadable = false\n[libraries]\nlinux.debug.x86_64 = \"res://rust/target/debug/libmy_mod.so\"\n"
    );
}

#[test]
fn distinct_names_plan_disjoint_paths() {
    let plan_a = create_project("alpha", &templates(), "4.2", true, &vec![], false);
    let plan_b = create_project("beta", &templates(), "4.2", true, &vec![], false);
    let paths = |plan: &gdext_creator::plan::MaterializePlan| -> Vec<String> {
        plan.actions
            .iter()
            .map(|a| match a {
                FsAction::CreateDir { path } => path.clone(),
                FsAction::WriteFile { path, .. } => path.clone(),
            })
            .collect()
    };
    let paths_b = paths(&plan_b);
    for p in paths(&plan_a) {
        assert!(!paths_b.contains(&p));
    }
}

#[test]
fn precompile_withholds_completion_line() {
    let plan = create_project("demo", &templates(), "4.2", true, &vec![], true);
    assert!(plan.precompile);
    assert_eq!(plan.completion_log_line, None);
}

#[test]
fn plain_request_orders_actions_dirs_before_contents() {
    let plan = create_project("demo", &templates(), "4.2", true, &vec![], false);
    let kinds: Vec<bool> = plan
        .actions
        .iter()
        .map(|a| matches!(a, FsAction::CreateDir { .. }))
        .collect();
    assert_eq!(
        kinds,
        vec![true, false, true, true, false, false, false, false]
    );
}
