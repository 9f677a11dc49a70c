//! The on-disk layout of a freshly initialized repository, and the
//! ordered plan of steps that establishes it.
//!
//! Initialization first enters the target directory, then creates the
//! root metadata directory, the object store, the reference store, and
//! finally writes the symbolic HEAD pointer. The first step that fails
//! aborts the whole operation; partially created state is left behind
//! but is never reported as success.

use vstd::prelude::*;

verus! {

/// The root metadata directory, relative to the target path.
pub fn metadata_dir() -> (r: &'static str)
    ensures
        r@ == ".gmv"@,
{
    ".gmv"
}

/// The object-storage subdirectory: empty at creation, the future home
/// of content-addressed objects.
pub fn objects_dir() -> (r: &'static str)
    ensures
        r@ == ".gmv/objects"@,
{
    ".gmv/objects"
}

/// The reference-storage subdirectory: empty at creation, the future
/// home of named pointers to history.
pub fn refs_dir() -> (r: &'static str)
    ensures
        r@ == ".gmv/refs"@,
{
    ".gmv/refs"
}

/// The HEAD file, relative to the target path.
pub fn head_file() -> (r: &'static str)
    ensures
        r@ == ".gmv/HEAD"@,
{
    ".gmv/HEAD"
}

/// The exact symbolic reference written into HEAD: it points at the
/// default branch.
pub fn head_contents() -> (r: &'static str)
    ensures
        r@ == "ref: refs/heads/main"@,
{
    "ref: refs/heads/main"
}

/// One step of the initialization plan. The caller performs the steps
/// in order and aborts at the first failure.
pub enum InitStep {
    /// Make the given path the process working directory.
    EnterDirectory { path: String },
    /// Create the given directory; an already existing directory is a
    /// failure (re-initialization is not supported).
    CreateDirectory { path: String },
    /// Write a file with exactly the given contents.
    WriteFile { path: String, contents: String },
}

/// The exact plan that initializes a repository at `path`: enter the
/// target, create the metadata root, the object store and the
/// reference store, then write the symbolic HEAD pointer.
pub open spec fn plan_matches(path: Seq<char>, steps: Seq<InitStep>) -> bool {
    &&& steps.len() == 5
    &&& steps[0] matches InitStep::EnterDirectory { path: p } && p@ == path
    &&& steps[1] matches InitStep::CreateDirectory { path: p } && p@ == ".gmv"@
    &&& steps[2] matches InitStep::CreateDirectory { path: p } && p@ == ".gmv/objects"@
    &&& steps[3] matches InitStep::CreateDirectory { path: p } && p@ == ".gmv/refs"@
    &&& steps[4] matches InitStep::WriteFile { path: p, contents: c } && p@ == ".gmv/HEAD"@ && c@
        == "ref: refs/heads/main"@
}

/// Compute the ordered steps that initialize a repository at `path`.
pub fn init_plan(path: &str) -> (steps: Vec<InitStep>)
    ensures
        plan_matches(path@, steps@),
{
    let mut steps: Vec<InitStep> = Vec::new();
    steps.push(InitStep::EnterDirectory { path: String::from_str(path) });
    steps.push(InitStep::CreateDirectory { path: String::from_str(metadata_dir()) });
    steps.push(InitStep::CreateDirectory { path: String::from_str(objects_dir()) });
    steps.push(InitStep::CreateDirectory { path: String::from_str(refs_dir()) });
    steps.push(
        InitStep::WriteFile {
            path: String::from_str(head_file()),
            contents: String::from_str(head_contents()),
        },
    );
    steps
}

/// The confirmation printed when initialization succeeded at `path`.
pub fn init_success_message(path: &str) -> (r: String)
    ensures
        r@ == "Initialized GMV at "@ + path@,
{
    let mut m = String::from_str("Initialized GMV at ");
    m.append(path);
    m
}

/// The single error line printed for a recoverable failure, with the
/// underlying failure text after one consistent prefix.
pub fn error_message(detail: &str) -> (r: String)
    ensures
        r@ == "gmv: error: "@ + detail@,
{
    let mut m = String::from_str("gmv: error: ");
    m.append(detail);
    m
}

/// What the session reports after running the initialization plan:
/// the underlying failure text of the first failed step, or the
/// confirmation naming the target path.
pub fn report_initialization(path: &str, failure: &Option<String>) -> (r: String)
    ensures
        match failure {
            Option::Some(d) => r@ == "gmv: error: "@ + d@,
            Option::None => r@ == "Initialized GMV at "@ + path@,
        },
{
    match failure {
        Option::Some(d) => error_message(d.as_str()),
        Option::None => init_success_message(path),
    }
}

} // verus!
