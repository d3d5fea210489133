use gresource_build::codegen::{codegen, CodegenError, CLOSING, OPENING, PREAMBLE};

fn body(text: &str) -> &str {
    let start = text.find(OPENING).expect("opening") + OPENING.len();
    let end = text.rfind(CLOSING).expect("closing");
    &text[start..end]
}

fn declared_length(text: &str) -> u64 {
    let start = PREAMBLE.len();
    let end = text.find(OPENING).expect("opening");
    text[start..end].parse().expect("length")
}

fn decode(body: &str) -> Vec<u8> {
    body.split(',')
        .map(|literal| literal.trim())
        .filter(|literal| !literal.is_empty())
        .map(|literal| {
            assert_eq!(literal.len(), 4, "{:?}", literal);
            assert!(literal.starts_with("0x"), "{:?}", literal);
            u8::from_str_radix(&literal[2..], 16).expect("hex")
        })
        .collect()
}

#[test]
fn module_for_an_empty_bundle() {
    let expected = "/// Registers the embedded resources.
///
/// You can include it in your code like this:
/// ```ignore
/// mod resources {
///     include!(concat!(env!(\"OUT_DIR\"), \"/exampleapp_resources.rs\"));
/// }
/// ```
/// and then call `resources::register()`.
///
/// Requires explicit dependencies on `glib` and `gio` in `Cargo.toml`.
pub fn register() {
    extern crate glib;
    extern crate gio;

    let bytes = glib::Bytes::from_static(&DATA.data);
    let resource = gio::Resource::new_from_data(&bytes).expect(\"corrupted embedded resources\");
    gio::resources_register(&resource);

    struct Data {
        data: [u8; 0],
        _align: [f64; 0],
    }

    static DATA: Data = Data {
        data: [
           
        ],
        _align: [],
    };
}
";
    assert_eq!(codegen(0, &[]), Ok(expected.to_string()));
}

#[test]
fn module_for_three_bytes() {
    let text = codegen(3, &[0x47, 0x56, 0x0a]).unwrap();
    assert!(text.starts_with(PREAMBLE));
    assert!(text.ends_with(CLOSING));
    assert!(text.contains("        data: [u8; 3],\n        _align: [f64; 0],\n"));
    assert!(text.contains("        data: [\n            0x47, 0x56, 0x0a,\n        ],\n        _align: [],\n"));
    assert_eq!(body(&text), " 0x47, 0x56, 0x0a,");
}

#[test]
fn bytes_are_two_lower_case_digits() {
    let text = codegen(6, &[0x00, 0x09, 0x0a, 0x0f, 0xab, 0xff]).unwrap();
    assert_eq!(body(&text), " 0x00, 0x09, 0x0a, 0x0f, 0xab, 0xff,");
}

#[test]
fn line_breaks_after_every_eighth_value() {
    let seven = codegen(7, &[1, 2, 3, 4, 5, 6, 7]).unwrap();
    assert_eq!(body(&seven), " 0x01, 0x02, 0x03, 0x04, 0x05, 0x06, 0x07,");
    let eight = codegen(8, &[1, 2, 3, 4, 5, 6, 7, 8]).unwrap();
    assert_eq!(body(&eight), " 0x01, 0x02, 0x03, 0x04, 0x05, 0x06, 0x07, 0x08,\n           ");
    let nine = codegen(9, &[1, 2, 3, 4, 5, 6, 7, 8, 9]).unwrap();
    assert_eq!(body(&nine), " 0x01, 0x02, 0x03, 0x04, 0x05, 0x06, 0x07, 0x08,\n            0x09,");
    let bytes: Vec<u8> = (0..17).collect();
    let seventeen = codegen(17, &bytes).unwrap();
    assert_eq!(
        body(&seventeen),
        " 0x00, 0x01, 0x02, 0x03, 0x04, 0x05, 0x06, 0x07,\n            0x08, 0x09, 0x0a, 0x0b, 0x0c, 0x0d, 0x0e, 0x0f,\n            0x10,"
    );
}

#[test]
fn line_feeds_stand_behind_every_eighth_value_only() {
    let bytes: Vec<u8> = (0..100).collect();
    let text = codegen(100, &bytes).unwrap();
    let body = body(&text);
    assert_eq!(body.len(), 6 * 100 + 12 * (100 / 8));
    for (k, c) in body.chars().enumerate() {
        assert_eq!(c == '\n', k % 60 == 48, "at {}", k);
    }
    assert_eq!(body.matches('\n').count(), 12);
}

#[test]
fn every_byte_value_comes_back() {
    let bytes: Vec<u8> = (0..=255).collect();
    let text = codegen(256, &bytes).unwrap();
    assert_eq!(declared_length(&text), 256);
    assert_eq!(decode(body(&text)), bytes);
}

#[test]
fn long_bundle_comes_back() {
    let bytes: Vec<u8> = (0..12345u32).map(|n| (n * 7 % 251) as u8).collect();
    let text = codegen(12345, &bytes).unwrap();
    assert_eq!(declared_length(&text), 12345);
    assert_eq!(decode(body(&text)), bytes);
}

#[test]
fn decoding_does_not_depend_on_layout() {
    let bytes: Vec<u8> = (0..40).collect();
    let text = codegen(40, &bytes).unwrap();
    let flat: String = body(&text).chars().filter(|c| *c != '\n' && *c != ' ').collect();
    assert_eq!(decode(&flat), bytes);
    assert_eq!(decode(&body(&text).replace(' ', "\n  ")), bytes);
}

#[test]
fn bundle_shorter_than_measured_is_refused() {
    assert_eq!(
        codegen(4, &[1, 2, 3]),
        Err(CodegenError::LengthMismatch { measured: 4, read: 3 })
    );
}

#[test]
fn bundle_longer_than_measured_is_refused() {
    assert_eq!(codegen(0, &[1]), Err(CodegenError::LengthMismatch { measured: 0, read: 1 }));
}
