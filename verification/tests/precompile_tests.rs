use gdext_creator::precompile::{
    build_result_log_line, build_start_log_line, lib_source_path, plan_build, BuildPlan,
};

#[test]
fn build_paths_and_start_line() {
    assert_eq!(lib_source_path("demo"), "demo/rust/src/lib.rs");
    assert_eq!(build_start_log_line(), "Compiling Rust library...\n");
}

#[test]
fn missing_source_skips_launch() {
    let mut launches: usize = 0;
    match plan_build("demo", false, false) {
        BuildPlan::Launch { .. } => launches += 1,
        BuildPlan::Skip { log_line } => {
            assert_eq!(log_line, "Rust library file does not exist.\n");
        }
    }
    assert_eq!(launches, 0);
}

#[test]
fn empty_target_list_skips_launch() {
    assert!(matches!(
        plan_build("demo", true, true),
        BuildPlan::Skip { .. }
    ));
}

#[test]
fn present_source_and_targets_launch_in_source_dir() {
    match plan_build("demo", true, false) {
        BuildPlan::Launch { working_dir } => assert_eq!(working_dir, "demo/rust/src"),
        BuildPlan::Skip { .. } => panic!("expected a launch"),
    }
}

#[test]
fn build_result_lines() {
    assert_eq!(
        build_result_log_line(true),
        "Rust library compiled successfully.\nProject created successfully.\n"
    );
    assert_eq!(build_result_log_line(false), "Failed to compile Rust library.\n");
}
