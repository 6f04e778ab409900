//! The build-invocation protocol: the decisions of the background
//! precompilation task. The task itself runs outside this library (it
//! waits on an external compiler process); every decision it takes —
//! whether to launch, where, and which line to report — is planned here.

use vstd::prelude::*;

verus! {

/// What the background build task is to do after its checks.
pub enum BuildPlan {
    /// Launch the external build command with `working_dir` as its working
    /// directory and wait for it.
    Launch { working_dir: String },
    /// Do not launch anything; append `log_line` and terminate.
    Skip { log_line: String },
}

/// The expected location of the generated library source file, relative to
/// the working directory that holds the project root.
pub fn lib_source_path(project_name: &str) -> (r: String)
    ensures
        r@ == project_name@ + "/rust/src/lib.rs"@,
{
    let mut s = String::from_str(project_name);
    s.append("/rust/src/lib.rs");
    s
}

/// The log line announcing that the background build task has started.
pub fn build_start_log_line() -> (r: String)
    ensures
        r@ == "Compiling Rust library...\n"@,
{
    String::from_str("Compiling Rust library...\n")
}

/// Decides the background build step: the external command is launched in
/// the build-source subdirectory exactly when the library source file
/// exists and the target list is non-empty; otherwise the task only
/// reports the missing source and terminates.
pub fn plan_build(project_name: &str, lib_source_exists: bool, targets_is_empty: bool) -> (r:
    BuildPlan)
    ensures
        r is Launch <==> (lib_source_exists && !targets_is_empty),
        r is Launch ==> r->working_dir@ == project_name@ + "/rust/src"@,
        r is Skip ==> r->log_line@ == "Rust library file does not exist.\n"@,
{
    if lib_source_exists && !targets_is_empty {
        let mut dir = String::from_str(project_name);
        dir.append("/rust/src");
        BuildPlan::Launch { working_dir: dir }
    } else {
        BuildPlan::Skip { log_line: String::from_str("Rust library file does not exist.\n") }
    }
}

/// The log lines reporting the external build's exit: a two-line success
/// message on a successful exit status, a failure line otherwise.
pub fn build_result_log_line(success: bool) -> (r: String)
    ensures
        success ==> r@ == "Rust library compiled successfully.\nProject created successfully.\n"@,
        !success ==> r@ == "Failed to compile Rust library.\n"@,
{
    if success {
        String::from_str("Rust library compiled successfully.\nProject created successfully.\n")
    } else {
        String::from_str("Failed to compile Rust library.\n")
    }
}

} // verus!
