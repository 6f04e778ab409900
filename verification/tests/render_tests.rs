use gdext_creator::render::{
    get_cargo_toml_content, get_gdextension_content, get_gitignore_content, get_lib_content,
    resolve, ProjectTemplates,
};

fn templates() -> ProjectTemplates {
    ProjectTemplates {
        gitignore: "/target\nCargo.lock\n".to_string(),
        lib_content: "use godot::prelude::*;\n\nstruct {project_name};\n".to_string(),
        gdextension: "[configuration]\nentry_symbol = \"gdext_rust_init\"\ncompatibility_minimum = 4.2\nreloadable = true\n\n".to_string(),
        cargo_toml: "[package]\nname = \"{project_name}\"\nversion = \"0.1.0\"\n".to_string(),
    }
}

#[test]
fn resolve_linux_debug() {
    assert_eq!(
        resolve("linux.debug.x86_64", "Foo"),
        Some("res://rust/target/debug/libFoo.so".to_string())
    );
}

#[test]
fn resolve_linux_release() {
    assert_eq!(
        resolve("linux.release.x86_64", "Foo"),
        Some("res://rust/target/release/libFoo.so".to_string())
    );
}

#[test]
fn resolve_windows_debug() {
    assert_eq!(
        resolve("windows.debug.x86_64", "Foo"),
        Some("res://rust/target/debug/Foo.dll".to_string())
    );
}

#[test]
fn resolve_windows_release() {
    assert_eq!(
        resolve("windows.release.x86_64", "Foo"),
        Some("res://rust/target/release/Foo.dll".to_string())
    );
}

#[test]
fn resolve_macos_debug() {
    assert_eq!(
        resolve("macos.debug", "Foo"),
        Some("res://rust/target/debug/libFoo.dylib".to_string())
    );
}

#[test]
fn resolve_macos_release() {
    assert_eq!(
        resolve("macos.release", "Foo"),
        Some("res://rust/target/release/libFoo.dylib".to_string())
    );
}

#[test]
fn resolve_unknown_target() {
    assert_eq!(resolve("unknown.target", "Foo"), None);
}

#[test]
fn gitignore_is_identity() {
    assert_eq!(get_gitignore_content(&templates()), "/target\nCargo.lock\n");
}

#[test]
fn lib_content_uses_symbol_cased_name() {
    assert_eq!(
        get_lib_content(&templates(), "my_cool_mod"),
        "use godot::prelude::*;\n\nstruct MyCoolMod;\n"
    );
}

#[test]
fn cargo_toml_uses_raw_name() {
    assert_eq!(
        get_cargo_toml_content(&templates(), "my_cool_mod"),
        "[package]\nname = \"my_cool_mod\"\nversion = \"0.1.0\"\n"
    );
}

#[test]
fn manifest_replaces_both_markers_exactly_once() {
    let rendered = get_gdextension_content(&templates(), "demo", "4.3", false, &vec![]);
    assert_eq!(
        rendered,
        "[configuration]\nentry_symbol = \"gdext_rust_init\"\ncompatibility_minimum = 4.3\nreloadable = false\n\n[libraries]\n"
    );
}

#[test]
fn manifest_keeps_nondefault_markers() {
    let t = ProjectTemplates {
        gdextension: "compatibility_minimum = 4.1\nreloadable = false\n".to_string(),
        ..templates()
    };
    let rendered = get_gdextension_content(&t, "demo", "4.3", true, &vec![]);
    assert_eq!(
        rendered,
        "compatibility_minimum = 4.1\nreloadable = false\n[libraries]\n"
    );
}

#[test]
fn manifest_substitutes_raw_project_name() {
    let t = ProjectTemplates {
        gdextension: "entry = \"{project_name}\"\n".to_string(),
        ..templates()
    };
    let rendered = get_gdextension_content(&t, "my_cool_mod", "4.2", true, &vec![]);
    assert_eq!(rendered, "entry = \"my_cool_mod\"\n[libraries]\n");
}

#[test]
fn manifest_zero_resolvable_targets_keeps_bare_header() {
    let rendered = get_gdextension_content(
        &templates(),
        "demo",
        "4.2",
        true,
        &vec!["bogus.one".to_string(), "bogus.two".to_string()],
    );
    assert!(rendered.ends_with("[libraries]\n"));
}

#[test]
fn manifest_lists_resolvable_targets_in_input_order() {
    let rendered = get_gdextension_content(
        &templates(),
        "demo",
        "4.2",
        true,
        &vec![
            "macos.release".to_string(),
            "bogus".to_string(),
            "linux.debug.x86_64".to_string(),
        ],
    );
    let expected_tail = "[libraries]\nmacos.release = \"res://rust/target/release/libdemo.dylib\"\nlinux.debug.x86_64 = \"res://rust/target/debug/libdemo.so\"\n";
    assert!(rendered.ends_with(expected_tail));
}

#[test]
fn manifest_keeps_duplicate_targets() {
    let rendered = get_gdextension_content(
        &templates(),
        "demo",
        "4.2",
        true,
        &vec!["macos.debug".to_string(), "macos.debug".to_string()],
    );
    let expected_tail = "[libraries]\nmacos.debug = \"res://rust/target/debug/libdemo.dylib\"\nmacos.debug = \"res://rust/target/debug/libdemo.dylib\"\n";
    assert!(rendered.ends_with(expected_tail));
}
