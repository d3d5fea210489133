//! What a compilation names and says: the paths it reads and writes, the
//! packer's arguments, the declarations of its dependencies, the notes on
//! its failures, and the validation of its inputs.

use vstd::prelude::*;
use vstd::string::StringExecFns;
use crate::error::{custom_error_text, CustomError, CustomErrorView};
use crate::manifest::{
    manifest_paths, parse_manifest, paths_view, texts, ManifestError, ManifestErrorView,
};
use crate::reader::{document_pulls, ReaderOptions};

verus! {

/// What follows the base name in the name of a manifest.
pub const MANIFEST_SUFFIX: &'static str = ".gresource.xml";

/// What follows the base name in the name of a packed bundle.
pub const RESOURCE_SUFFIX: &'static str = ".gresource";

/// What follows the base name in the name of a generated module.
pub const RUST_SUFFIX: &'static str = "_resources.rs";

/// The program that packs a bundle.
pub const PACKER: &'static str = "glib-compile-resources";

/// The flag that tells the packer where to write the bundle.
pub const TARGET_FLAG: &'static str = "--target=";

/// What precedes a path in the declaration of a dependency.
pub const DECLARATION: &'static str = "cargo:rerun-if-changed=";

/// The path of the manifest with base name `name`.
pub open spec fn manifest_path_of(name: Seq<char>) -> Seq<char> {
    name + MANIFEST_SUFFIX@
}

/// The path of the packed bundle for `name` in the directory `out_dir`.
pub open spec fn bundle_path_of(out_dir: Seq<char>, name: Seq<char>) -> Seq<char> {
    out_dir + "/"@ + name + RESOURCE_SUFFIX@
}

/// The path of the generated module for `name` in the directory `out_dir`.
pub open spec fn rust_path_of(out_dir: Seq<char>, name: Seq<char>) -> Seq<char> {
    out_dir + "/"@ + name + RUST_SUFFIX@
}

/// The packer's argument that names the bundle to write.
pub open spec fn target_argument_of(out_dir: Seq<char>, name: Seq<char>) -> Seq<char> {
    TARGET_FLAG@ + bundle_path_of(out_dir, name)
}

/// The declaration of a dependency on `path`.
pub open spec fn declaration_of(path: Seq<char>) -> Seq<char> {
    DECLARATION@ + path
}

/// The declarations of dependencies on `paths`, one for each, in order.
pub open spec fn declarations_of(paths: Seq<Seq<char>>) -> Seq<Seq<char>> {
    paths.map_values(|path: Seq<char>| declaration_of(path))
}

/// The note on a failure to read the manifest `manifest`.
pub open spec fn reading_note(manifest: Seq<char>) -> Seq<char> {
    "reading resource manifest `"@ + manifest + "`"@
}

/// The note on a failure to start the packer as `command`.
pub open spec fn running_note(command: Seq<char>) -> Seq<char> {
    "running `"@ + command + "`"@
}

/// The note on a failure to produce the module `module`.
pub open spec fn writing_note(module: Seq<char>) -> Seq<char> {
    "writing rust module to `"@ + module + "`"@
}

/// The text of the failure of a packer that ran as `command` and left
/// `stderr` on its error stream.
pub open spec fn packer_failure_text(command: Seq<char>, stderr: Seq<char>) -> Seq<char> {
    "Process didn't exit successfully: `"@ + command + "`\n--- stderr\n"@ + stderr
}

/// Whether `part` stands somewhere in `text`, character for character.
pub open spec fn contains(text: Seq<char>, part: Seq<char>) -> bool {
    exists|i: int| 0 <= i <= text.len() - part.len() && #[trigger] text.subrange(
        i,
        i + part.len(),
    ) == part
}

/// The text of a packer's failure shows how the packer was run and what it
/// left on its error stream, both as they came.
pub proof fn packer_failure_shows_command_and_stderr(command: Seq<char>, stderr: Seq<char>)
    ensures
        contains(packer_failure_text(command, stderr), command),
        contains(packer_failure_text(command, stderr), stderr),
{
    let text = packer_failure_text(command, stderr);
    let head = "Process didn't exit successfully: `"@;
    let middle = "`\n--- stderr\n"@;
    let i = head.len() as int;
    let j = (head.len() + command.len() + middle.len()) as int;
    assert(text.subrange(i, i + command.len()) =~= command);
    assert(text.subrange(j, j + stderr.len()) =~= stderr);
}

/// Why a compilation failed.
#[derive(Clone, Debug, PartialEq, Eq)]
pub enum CompileError {
    /// A stage failed; the failure, with a note on what the stage was doing.
    Stage(CustomError),
    /// The packer ran and reported failure; how it was run, and what it
    /// left on its error stream.
    Packer { command: String, stderr: String },
}

/// A [`CompileError`] as a mathematical value.
pub enum CompileErrorView {
    Stage(CustomErrorView),
    Packer { command: Seq<char>, stderr: Seq<char> },
}

impl View for CompileError {
    type V = CompileErrorView;

    open spec fn view(&self) -> CompileErrorView {
        match self {
            CompileError::Stage(error) => CompileErrorView::Stage(error@),
            CompileError::Packer { command, stderr } => CompileErrorView::Packer {
                command: command@,
                stderr: stderr@,
            },
        }
    }
}

/// The text of a failed compilation.
pub open spec fn compile_error_text(error: CompileErrorView) -> Seq<char> {
    match error {
        CompileErrorView::Stage(error) => custom_error_text(error),
        CompileErrorView::Packer { command, stderr } => packer_failure_text(command, stderr),
    }
}

impl CompileError {
    /// The text of this error.
    pub fn to_string(&self) -> (text: String)
        ensures
            text@ == compile_error_text(self@),
    {
        match self {
            CompileError::Stage(error) => error.to_string(),
            CompileError::Packer { command, stderr } => {
                let mut text = String::from_str("Process didn't exit successfully: `");
                text.append(command.as_str());
                text.append("`\n--- stderr\n");
                text.append(stderr.as_str());
                text
            },
        }
    }
}

/// `first` followed by `second`.
fn joined(first: &str, second: &str) -> (text: String)
    ensures
        text@ == first@ + second@,
{
    let mut text = String::from_str(first);
    text.append(second);
    text
}

/// The path of the manifest with base name `name`.
pub fn manifest_name(name: &str) -> (path: String)
    ensures
        path@ == manifest_path_of(name@),
{
    joined(name, MANIFEST_SUFFIX)
}

/// The path of the packed bundle for `name` in the directory `out_dir`.
pub fn bundle_path(out_dir: &str, name: &str) -> (path: String)
    ensures
        path@ == bundle_path_of(out_dir@, name@),
{
    let mut path = joined(out_dir, "/");
    path.append(name);
    path.append(RESOURCE_SUFFIX);
    path
}

/// The path of the generated module for `name` in the directory `out_dir`.
pub fn rust_path(out_dir: &str, name: &str) -> (path: String)
    ensures
        path@ == rust_path_of(out_dir@, name@),
{
    let mut path = joined(out_dir, "/");
    path.append(name);
    path.append(RUST_SUFFIX);
    path
}

/// The packer's argument that names the bundle to write.
pub fn target_argument(out_dir: &str, name: &str) -> (argument: String)
    ensures
        argument@ == target_argument_of(out_dir@, name@),
{
    let path = bundle_path(out_dir, name);
    joined(TARGET_FLAG, path.as_str())
}

/// The declaration of a dependency on `path`.
pub fn declaration(path: &str) -> (line: String)
    ensures
        line@ == declaration_of(path@),
{
    joined(DECLARATION, path)
}

/// The declarations of dependencies on `paths`: one line for each path, in
/// the order of the paths.
pub fn declarations(paths: &Vec<String>) -> (lines: Vec<String>)
    ensures
        texts(lines@) == declarations_of(texts(paths@)),
{
    let mut lines: Vec<String> = Vec::new();
    let mut n: usize = 0;
    while n < paths.len()
        invariant
            n <= paths.len(),
            texts(lines@) == declarations_of(texts(paths@.take(n as int))),
        decreases paths.len() - n,
    {
        let ghost done = paths@.take(n as int);
        let ghost written = lines@;
        let line = declaration(paths[n].as_str());
        lines.push(line);
        n = n + 1;
        proof {
            let more = paths@.take(n as int);
            assert(more =~= done.push(paths@[n - 1]));
            assert(texts(more) =~= texts(done).push(paths@[n - 1]@));
            assert(texts(lines@) =~= texts(written).push(line@));
            assert(declarations_of(texts(more)) =~= declarations_of(texts(done)).push(
                declaration_of(paths@[n - 1]@),
            ));
        }
    }
    assert(paths@.take(n as int) =~= paths@);
    lines
}

/// What validating a manifest comes to, given the reader's verdict on it:
/// the paths to track, the manifest's own first, or the failure.
pub open spec fn watched_paths(
    manifest: Seq<char>,
    paths: Result<Seq<Seq<char>>, ManifestErrorView>,
) -> Result<Seq<Seq<char>>, ManifestErrorView> {
    match paths {
        Ok(paths) => Ok(seq![manifest] + paths),
        Err(error) => Err(error),
    }
}

/// Validates the manifest named `manifest_name`, whose contents are
/// `contents`, and returns the paths that the build depends on: the
/// manifest's own, then those of the files it lists, in document order.
pub fn check_inputs(manifest_name: &str, contents: &[u8]) -> (result: Result<
    Vec<String>,
    ManifestError,
>)
    ensures
        paths_view(result) == watched_paths(
            manifest_name@,
            manifest_paths(document_pulls(contents@, ReaderOptions::for_manifest())),
        ),
{
    let mut names: Vec<String> = Vec::new();
    names.push(String::from_str(manifest_name));
    match parse_manifest(contents) {
        Ok(mut paths) => {
            let ghost listed = paths@;
            names.append(&mut paths);
            assert(texts(names@) =~= seq![manifest_name@] + texts(listed));
            Ok(names)
        },
        Err(error) => Err(error),
    }
}

} // verus!
