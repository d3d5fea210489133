//! The stages of a compilation, in the order in which they are passed.
//!
//! `validate` gives a [`Validated`] manifest, which gives the lines to
//! declare and, with the output directory, a [`Packing`]. The packer's
//! outcome turns that into an [`Embedding`], which generates the module and
//! takes note of its having been written. Each value is made by the stage
//! before it and by nothing else: a failure ends the compilation, and what
//! follows a stage is never asked for before the stage has succeeded.

use vstd::prelude::*;
use vstd::string::StringExecFns;
use crate::codegen::{codegen, generated};
use crate::compile::{
    bundle_path, bundle_path_of, check_inputs, declarations, declarations_of, manifest_name,
    manifest_path_of, reading_note, running_note, rust_path, rust_path_of, target_argument,
    target_argument_of, writing_note, CompileError, CompileErrorView, PACKER,
};
use crate::error::{Cause, CauseView, CustomError, CustomErrorView};
use crate::manifest::{manifest_paths, texts};
use crate::reader::{document_pulls, ReaderOptions};

verus! {

/// The failure of a stage: `cause`, with `note` on what the stage was doing.
pub open spec fn stage_failure(cause: CauseView, note: Seq<char>) -> CompileErrorView {
    CompileErrorView::Stage(CustomErrorView { cause, note })
}

/// The failure of a stage: `cause`, with `note` on what the stage was doing.
fn failed(cause: Cause, note: String) -> (error: CompileError)
    ensures
        error@ == stage_failure(cause@, note@),
{
    CompileError::Stage(CustomError::new(cause, note))
}

/// `text` between `before` and a closing backquote.
fn quoted(before: &str, text: &str) -> (note: String)
    ensures
        note@ == before@ + text@ + "`"@,
{
    let mut note = String::from_str(before);
    note.append(text);
    note.append("`");
    note
}

/// A manifest that has been read and found sound.
pub struct Validated {
    name: String,
    manifest: String,
    watched: Vec<String>,
}

/// A [`Validated`] as a mathematical value.
pub struct ValidatedView {
    /// The base name of the manifest.
    pub name: Seq<char>,
    /// The path of the manifest.
    pub manifest: Seq<char>,
    /// The paths that the build depends on, the manifest's own first.
    pub watched: Seq<Seq<char>>,
}

impl View for Validated {
    type V = ValidatedView;

    closed spec fn view(&self) -> ValidatedView {
        ValidatedView { name: self.name@, manifest: self.manifest@, watched: texts(self.watched@) }
    }
}

/// What the system gave when asked for the bytes of a file, as a
/// mathematical value.
pub open spec fn bytes_view(read: Result<Vec<u8>, String>) -> Result<Seq<u8>, Seq<char>> {
    match read {
        Ok(contents) => Ok(contents@),
        Err(message) => Err(message@),
    }
}

/// What validating the manifest with base name `name` comes to, the system
/// having answered `read` when asked for the manifest's contents.
pub open spec fn validation(name: Seq<char>, read: Result<Seq<u8>, Seq<char>>) -> Result<
    ValidatedView,
    CompileErrorView,
> {
    let manifest = manifest_path_of(name);
    match read {
        Err(message) => Err(stage_failure(CauseView::Io { message }, reading_note(manifest))),
        Ok(contents) => match manifest_paths(
            document_pulls(contents, ReaderOptions::for_manifest()),
        ) {
            Err(error) => Err(stage_failure(CauseView::Manifest(error), reading_note(manifest))),
            Ok(paths) => Ok(ValidatedView { name, manifest, watched: seq![manifest] + paths }),
        },
    }
}

/// First stage: validates the manifest with base name `name`, given what the
/// system answered when asked for the contents of `manifest_name(name)`.
pub fn validate(name: &str, read: Result<Vec<u8>, String>) -> (result: Result<
    Validated,
    CompileError,
>)
    ensures
        match result {
            Ok(validated) => validation(name@, bytes_view(read)) == Ok::<
                ValidatedView,
                CompileErrorView,
            >(validated@),
            Err(error) => validation(name@, bytes_view(read)) == Err::<
                ValidatedView,
                CompileErrorView,
            >(error@),
        },
{
    let manifest = manifest_name(name);
    match read {
        Err(message) => {
            let note = quoted("reading resource manifest `", manifest.as_str());
            Err(failed(Cause::Io { message }, note))
        },
        Ok(contents) => match check_inputs(manifest.as_str(), contents.as_slice()) {
            Err(error) => {
                let note = quoted("reading resource manifest `", manifest.as_str());
                Err(failed(Cause::Manifest(error), note))
            },
            Ok(watched) => Ok(Validated { name: String::from_str(name), manifest, watched }),
        },
    }
}

/// A packer about to be run.
pub struct Packing {
    name: String,
    out_dir: String,
    manifest: String,
}

/// A [`Packing`] as a mathematical value.
pub struct PackingView {
    /// The base name of the manifest.
    pub name: Seq<char>,
    /// The directory that the bundle and the module are written to.
    pub out_dir: Seq<char>,
    /// The path of the manifest.
    pub manifest: Seq<char>,
}

impl View for Packing {
    type V = PackingView;

    closed spec fn view(&self) -> PackingView {
        PackingView { name: self.name@, out_dir: self.out_dir@, manifest: self.manifest@ }
    }
}

impl Validated {
    /// The lines that declare the build's dependencies: one for the manifest,
    /// then one for each file it lists, in document order.
    pub fn declarations(&self) -> (lines: Vec<String>)
        ensures
            texts(lines@) == declarations_of(self@.watched),
    {
        declarations(&self.watched)
    }

    /// Second stage: the packer that writes its bundle to `out_dir`.
    pub fn pack(self, out_dir: &str) -> (packing: Packing)
        ensures
            packing@ == (PackingView {
                name: self@.name,
                out_dir: out_dir@,
                manifest: self@.manifest,
            }),
    {
        Packing { name: self.name, out_dir: String::from_str(out_dir), manifest: self.manifest }
    }
}

/// How a packer that ran came to its end.
#[derive(Clone, Debug, PartialEq, Eq)]
pub struct Exit {
    /// Whether the packer reported success.
    pub success: bool,
    /// What the packer left on its error stream.
    pub stderr: String,
}

/// What the system gave when asked to run the packer, as a mathematical
/// value: whether the packer succeeded and what it left on its error stream,
/// or the system's message on not starting it.
pub open spec fn exit_view(outcome: Result<Exit, String>) -> Result<(bool, Seq<char>), Seq<char>> {
    match outcome {
        Ok(exit) => Ok((exit.success, exit.stderr@)),
        Err(message) => Err(message@),
    }
}

/// A bundle about to be embedded.
pub struct Embedding {
    bundle: String,
    rust: String,
}

/// An [`Embedding`] as a mathematical value.
pub struct EmbeddingView {
    /// The path of the packed bundle.
    pub bundle: Seq<char>,
    /// The path of the module to generate.
    pub rust: Seq<char>,
}

impl View for Embedding {
    type V = EmbeddingView;

    closed spec fn view(&self) -> EmbeddingView {
        EmbeddingView { bundle: self.bundle@, rust: self.rust@ }
    }
}

/// What the packer's stage comes to, the packer having been run as
/// `command` with `outcome`.
pub open spec fn packing(
    packer: PackingView,
    command: Seq<char>,
    outcome: Result<(bool, Seq<char>), Seq<char>>,
) -> Result<EmbeddingView, CompileErrorView> {
    match outcome {
        Err(message) => Err(stage_failure(CauseView::Io { message }, running_note(command))),
        Ok((success, stderr)) => if success {
            Ok(
                EmbeddingView {
                    bundle: bundle_path_of(packer.out_dir, packer.name),
                    rust: rust_path_of(packer.out_dir, packer.name),
                },
            )
        } else {
            Err(CompileErrorView::Packer { command, stderr })
        },
    }
}

impl Packing {
    /// The program to run.
    pub fn program(&self) -> (program: &'static str)
        ensures
            program@ == PACKER@,
    {
        PACKER
    }

    /// The arguments to run the program with: where to write the bundle,
    /// then the manifest.
    pub fn arguments(&self) -> (arguments: Vec<String>)
        ensures
            texts(arguments@) == seq![
                target_argument_of(self@.out_dir, self@.name),
                self@.manifest,
            ],
    {
        let mut arguments: Vec<String> = Vec::new();
        arguments.push(target_argument(self.out_dir.as_str(), self.name.as_str()));
        arguments.push(self.manifest.clone());
        assert(texts(arguments@) =~= seq![
            target_argument_of(self@.out_dir, self@.name),
            self@.manifest,
        ]);
        arguments
    }

    /// Third stage: decides on the packer's outcome. `command` describes how
    /// the packer was run. A packer that could not be started, or that
    /// reported failure, ends the compilation.
    pub fn packed(self, command: &str, outcome: Result<Exit, String>) -> (result: Result<
        Embedding,
        CompileError,
    >)
        ensures
            match result {
                Ok(embedding) => packing(self@, command@, exit_view(outcome)) == Ok::<
                    EmbeddingView,
                    CompileErrorView,
                >(embedding@),
                Err(error) => packing(self@, command@, exit_view(outcome)) == Err::<
                    EmbeddingView,
                    CompileErrorView,
                >(error@),
            },
    {
        match outcome {
            Err(message) => Err(failed(Cause::Io { message }, quoted("running `", command))),
            Ok(exit) => {
                if exit.success {
                    Ok(
                        Embedding {
                            bundle: bundle_path(self.out_dir.as_str(), self.name.as_str()),
                            rust: rust_path(self.out_dir.as_str(), self.name.as_str()),
                        },
                    )
                } else {
                    Err(
                        CompileError::Packer {
                            command: String::from_str(command),
                            stderr: exit.stderr,
                        },
                    )
                }
            },
        }
    }
}

/// What the system gave when asked for a bundle, as a mathematical value:
/// the length it measured and the bytes it read, or its message.
pub open spec fn bundle_view(read: Result<(u64, Vec<u8>), String>) -> Result<
    (u64, Seq<u8>),
    Seq<char>,
> {
    match read {
        Ok((size, contents)) => Ok((size, contents@)),
        Err(message) => Err(message@),
    }
}

/// What generating the module `rust` comes to, the system having answered
/// `read` when asked for the bundle.
pub open spec fn generation(rust: Seq<char>, read: Result<(u64, Seq<u8>), Seq<char>>) -> Result<
    Seq<char>,
    CompileErrorView,
> {
    match read {
        Err(message) => Err(stage_failure(CauseView::Io { message }, writing_note(rust))),
        Ok((size, contents)) => match generated(size, contents) {
            Ok(text) => Ok(text),
            Err(error) => Err(stage_failure(CauseView::Codegen(error), writing_note(rust))),
        },
    }
}

impl Embedding {
    /// The path of the packed bundle.
    pub fn bundle_path(&self) -> (path: String)
        ensures
            path@ == self@.bundle,
    {
        self.bundle.clone()
    }

    /// The path of the module to generate.
    pub fn rust_path(&self) -> (path: String)
        ensures
            path@ == self@.rust,
    {
        self.rust.clone()
    }

    /// Fourth stage: generates the module, given what the system answered
    /// when asked for the length and then the bytes of the bundle.
    pub fn generate(&self, read: Result<(u64, Vec<u8>), String>) -> (result: Result<
        String,
        CompileError,
    >)
        ensures
            match result {
                Ok(text) => generation(self@.rust, bundle_view(read)) == Ok::<
                    Seq<char>,
                    CompileErrorView,
                >(text@),
                Err(error) => generation(self@.rust, bundle_view(read)) == Err::<
                    Seq<char>,
                    CompileErrorView,
                >(error@),
            },
    {
        match read {
            Err(message) => Err(
                failed(Cause::Io { message }, quoted("writing rust module to `", self.rust.as_str())),
            ),
            Ok((size, contents)) => match codegen(size, contents.as_slice()) {
                Ok(text) => Ok(text),
                Err(error) => Err(
                    failed(
                        Cause::Codegen(error),
                        quoted("writing rust module to `", self.rust.as_str()),
                    ),
                ),
            },
        }
    }

    /// Last stage: takes note of what the system answered when asked to
    /// write the module.
    pub fn written(self, outcome: Result<(), String>) -> (result: Result<(), CompileError>)
        ensures
            match result {
                Ok(()) => outcome is Ok,
                Err(error) => outcome matches Err(message) && error@ == stage_failure(
                    CauseView::Io { message: message@ },
                    writing_note(self@.rust),
                ),
            },
    {
        match outcome {
            Err(message) => Err(
                failed(Cause::Io { message }, quoted("writing rust module to `", self.rust.as_str())),
            ),
            Ok(()) => Ok(()),
        }
    }
}

} // verus!
