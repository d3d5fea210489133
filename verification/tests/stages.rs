use gresource_build::codegen::{codegen, CodegenError};
use gresource_build::compile::{
    bundle_path, check_inputs, declaration, declarations, manifest_name, rust_path,
    target_argument, CompileError, PACKER,
};
use gresource_build::error::{Cause, CustomError};
use gresource_build::events::Position;
use gresource_build::manifest::{Failure, ManifestError};
use gresource_build::stages::{validate, Exit};

const MANIFEST: &[u8] = b"<?xml version=\"1.0\" encoding=\"UTF-8\"?>
<gresources>
  <gresource prefix=\"/org/example/app\">
    <file>ui/main.ui</file>
    <file>ui/about.ui</file>
  </gresource>
</gresources>
";

const COMMAND: &str = "\"glib-compile-resources\" \"--target=out/app.gresource\" \"app.gresource.xml\"";

fn names(list: &[&str]) -> Vec<String> {
    list.iter().map(|name| name.to_string()).collect()
}

fn stage(error: CompileError) -> CustomError {
    match error {
        CompileError::Stage(error) => error,
        other => panic!("expected a stage failure, got {:?}", other),
    }
}

#[test]
fn names_follow_the_base_name() {
    assert_eq!(manifest_name("app"), "app.gresource.xml");
    assert_eq!(bundle_path("out", "app"), "out/app.gresource");
    assert_eq!(rust_path("out", "app"), "out/app_resources.rs");
    assert_eq!(target_argument("/tmp/build", "app"), "--target=/tmp/build/app.gresource");
    assert_eq!(manifest_name(""), ".gresource.xml");
}

#[test]
fn declarations_name_the_paths() {
    assert_eq!(declaration("ui/main.ui"), "cargo:rerun-if-changed=ui/main.ui");
    assert_eq!(declarations(&names(&[])), names(&[]));
    assert_eq!(
        declarations(&names(&["a", "b", "a"])),
        names(&["cargo:rerun-if-changed=a", "cargo:rerun-if-changed=b", "cargo:rerun-if-changed=a"])
    );
}

#[test]
fn inputs_are_the_manifest_and_what_it_lists() {
    assert_eq!(
        check_inputs("app.gresource.xml", MANIFEST),
        Ok(names(&["app.gresource.xml", "ui/main.ui", "ui/about.ui"]))
    );
    assert_eq!(
        check_inputs("x.gresource.xml", b"<gresources/>"),
        Ok(names(&["x.gresource.xml"]))
    );
}

#[test]
fn inputs_of_a_wrong_manifest_are_refused() {
    assert_eq!(
        check_inputs("app.gresource.xml", b"<gresources><gresource><file/></gresource></gresources>"),
        Err(ManifestError::Structure {
            failure: Failure::MissingData,
            position: Position { row: 0, column: 23 },
        })
    );
}

#[test]
fn compile_app_manifest() {
    let validated = validate("app", Ok(MANIFEST.to_vec())).unwrap();
    assert_eq!(
        validated.declarations(),
        names(&[
            "cargo:rerun-if-changed=app.gresource.xml",
            "cargo:rerun-if-changed=ui/main.ui",
            "cargo:rerun-if-changed=ui/about.ui",
        ])
    );
    let packing = validated.pack("out");
    assert_eq!(packing.program(), "glib-compile-resources");
    assert_eq!(packing.program(), PACKER);
    assert_eq!(packing.arguments(), names(&["--target=out/app.gresource", "app.gresource.xml"]));
    let embedding =
        packing.packed(COMMAND, Ok(Exit { success: true, stderr: String::new() })).unwrap();
    assert_eq!(embedding.bundle_path(), "out/app.gresource");
    assert_eq!(embedding.rust_path(), "out/app_resources.rs");
    let bundle = vec![0x47, 0x56, 0x61, 0x72, 0x69, 0x61, 0x6e, 0x74, 0x00, 0x00];
    let text = embedding.generate(Ok((10, bundle.clone()))).unwrap();
    assert_eq!(Ok(text.clone()), codegen(10, &bundle));
    assert!(text.contains("data: [u8; 10],"));
    assert!(text.contains(
        " 0x47, 0x56, 0x61, 0x72, 0x69, 0x61, 0x6e, 0x74,\n            0x00, 0x00,\n        ],"
    ));
    assert_eq!(embedding.written(Ok(())), Ok(()));
}

#[test]
fn empty_bundle_is_embedded() {
    let embedding = validate("app", Ok(MANIFEST.to_vec()))
        .unwrap()
        .pack("out")
        .packed(COMMAND, Ok(Exit { success: true, stderr: "warning: nothing".to_string() }))
        .unwrap();
    let text = embedding.generate(Ok((0, Vec::new()))).unwrap();
    assert!(text.contains("data: [u8; 0],"));
    assert!(text.contains("data: [\n           \n        ],"));
}

#[test]
fn unreadable_manifest_fails_the_first_stage() {
    let error = stage(validate("app", Err("No such file or directory (os error 2)".to_string())).err().unwrap());
    assert_eq!(
        error,
        CustomError::new(
            Cause::Io { message: "No such file or directory (os error 2)".to_string() },
            "reading resource manifest `app.gresource.xml`".to_string(),
        )
    );
    assert_eq!(
        error.to_string(),
        "No such file or directory (os error 2) reading resource manifest `app.gresource.xml`"
    );
    assert_eq!(error.description(), "No such file or directory (os error 2)");
}

#[test]
fn wrong_manifest_fails_the_first_stage() {
    let contents = b"<gresources>\n  <gresource>\n    <image>a.png</image>\n  </gresource>\n</gresources>";
    let error = validate("app", Ok(contents.to_vec())).err().unwrap();
    let expected = ManifestError::Structure {
        failure: Failure::UnexpectedElement { name: "image".to_string() },
        position: Position { row: 2, column: 4 },
    };
    assert_eq!(
        error,
        CompileError::Stage(CustomError::new(
            Cause::Manifest(expected.clone()),
            "reading resource manifest `app.gresource.xml`".to_string(),
        ))
    );
    assert_eq!(
        error.to_string(),
        "3:5 unexpected element <image> reading resource manifest `app.gresource.xml`"
    );
    assert_eq!(stage(error).cause(), &Cause::Manifest(expected));
}

#[test]
fn ill_formed_manifest_fails_the_first_stage() {
    let error = stage(validate("app", Ok(b"<gresources>".to_vec())).err().unwrap());
    assert!(matches!(error.cause(), Cause::Manifest(ManifestError::Markup { .. })));
    assert!(error.to_string().ends_with(" reading resource manifest `app.gresource.xml`"));
    assert!(error.to_string().starts_with("1:13 "), "{}", error.to_string());
}

#[test]
fn packer_failure_carries_command_and_stderr() {
    let packing = validate("app", Ok(MANIFEST.to_vec())).unwrap().pack("out");
    let error = packing
        .packed(COMMAND, Ok(Exit { success: false, stderr: "unknown file ui/missing.ui".to_string() }))
        .err()
        .unwrap();
    assert_eq!(
        error,
        CompileError::Packer {
            command: COMMAND.to_string(),
            stderr: "unknown file ui/missing.ui".to_string(),
        }
    );
    let text = error.to_string();
    assert!(text.contains(COMMAND));
    assert!(text.contains("unknown file ui/missing.ui"));
    assert_eq!(
        text,
        "Process didn't exit successfully: `\"glib-compile-resources\" \"--target=out/app.gresource\" \"app.gresource.xml\"`\n--- stderr\nunknown file ui/missing.ui"
    );
}

#[test]
fn packer_that_does_not_start_fails_the_stage() {
    let packing = validate("app", Ok(MANIFEST.to_vec())).unwrap().pack("out");
    let error = packing.packed(COMMAND, Err("program not found".to_string())).err().unwrap();
    assert_eq!(
        error,
        CompileError::Stage(CustomError::new(
            Cause::Io { message: "program not found".to_string() },
            format!("running `{}`", COMMAND),
        ))
    );
    assert_eq!(error.to_string(), format!("program not found running `{}`", COMMAND));
}

fn embedding() -> gresource_build::stages::Embedding {
    validate("app", Ok(MANIFEST.to_vec()))
        .unwrap()
        .pack("/build/out")
        .packed(COMMAND, Ok(Exit { success: true, stderr: String::new() }))
        .unwrap()
}

#[test]
fn unreadable_bundle_fails_the_last_stage() {
    let error = embedding().generate(Err("permission denied".to_string())).err().unwrap();
    assert_eq!(
        error.to_string(),
        "permission denied writing rust module to `/build/out/app_resources.rs`"
    );
}

#[test]
fn bundle_of_another_length_fails_the_last_stage() {
    let error = embedding().generate(Ok((5, vec![1, 2, 3]))).err().unwrap();
    assert_eq!(
        error,
        CompileError::Stage(CustomError::new(
            Cause::Codegen(CodegenError::LengthMismatch { measured: 5, read: 3 }),
            "writing rust module to `/build/out/app_resources.rs`".to_string(),
        ))
    );
    assert_eq!(
        error.to_string(),
        "bundle holds 3 bytes where 5 were measured writing rust module to `/build/out/app_resources.rs`"
    );
}

#[test]
fn module_that_cannot_be_written_fails_the_last_stage() {
    let error = embedding().written(Err("disk full".to_string())).err().unwrap();
    assert_eq!(
        error,
        CompileError::Stage(CustomError::new(
            Cause::Io { message: "disk full".to_string() },
            "writing rust module to `/build/out/app_resources.rs`".to_string(),
        ))
    );
}

#[test]
fn custom_error_keeps_cause_and_note() {
    let error = CustomError::new(Cause::Io { message: "boom".to_string() }, "doing things".to_string());
    assert_eq!(error.cause, Cause::Io { message: "boom".to_string() });
    assert_eq!(error.note, "doing things");
    assert_eq!(error.to_string(), "boom doing things");
    assert_eq!(error.description(), "boom");
    assert_eq!(error.cause(), &Cause::Io { message: "boom".to_string() });
}
