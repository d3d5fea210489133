//! Generation of the module that embeds a packed bundle.

use vstd::prelude::*;
use vstd::string::StringExecFns;
use crate::text::{decimal, digit_char, digit_text, push_decimal};

verus! {

/// The generated module up to the length of the array.
pub const PREAMBLE: &'static str = "/// Registers the embedded resources.\n///\n/// You can include it in your code like this:\n/// ```ignore\n/// mod resources {\n///     include!(concat!(env!(\"OUT_DIR\"), \"/exampleapp_resources.rs\"));\n/// }\n/// ```\n/// and then call `resources::register()`.\n///\n/// Requires explicit dependencies on `glib` and `gio` in `Cargo.toml`.\npub fn register() {\n    extern crate glib;\n    extern crate gio;\n\n    let bytes = glib::Bytes::from_static(&DATA.data);\n    let resource = gio::Resource::new_from_data(&bytes).expect(\"corrupted embedded resources\");\n    gio::resources_register(&resource);\n\n    struct Data {\n        data: [u8; ";

/// From the length of the array to its first value.
pub const OPENING: &'static str = "],\n        _align: [f64; 0],\n    }\n\n    static DATA: Data = Data {\n        data: [\n           ";

/// What follows the last value.
pub const CLOSING: &'static str = "\n        ],\n        _align: [],\n    };\n}\n";

/// How many values stand on one line of the array.
pub const VALUES_PER_LINE: usize = 8;

/// One value of the array as it is written: a space, the byte as two
/// lower-case hexadecimal digits behind `0x`, and a comma.
pub open spec fn literal(byte: u8) -> Seq<char> {
    seq![' ', '0', 'x', digit_char(byte as int / 16), digit_char(byte as int % 16), ',']
}

/// What is written after the last value of a line: a line feed and the
/// indentation of the next line.
pub open spec fn line_break() -> Seq<char> {
    seq!['\n', ' ', ' ', ' ', ' ', ' ', ' ', ' ', ' ', ' ', ' ', ' ']
}

/// The values of the array as they are written: each byte in order, with a
/// line break behind the last value of every full line.
pub open spec fn values(bytes: Seq<u8>) -> Seq<char>
    decreases bytes.len(),
{
    if bytes.len() == 0 {
        Seq::empty()
    } else if bytes.len() % (VALUES_PER_LINE as nat) == 0 {
        values(bytes.drop_last()) + literal(bytes.last()) + line_break()
    } else {
        values(bytes.drop_last()) + literal(bytes.last())
    }
}

/// The generated module for a bundle of `bytes`.
pub open spec fn module_text(bytes: Seq<u8>) -> Seq<char> {
    PREAMBLE@ + decimal(bytes.len()) + OPENING@ + values(bytes) + CLOSING@
}

/// Why no module was generated.
#[derive(Clone, Copy, Debug, PartialEq, Eq, Structural)]
pub enum CodegenError {
    /// The bundle does not have the length that was measured beforehand.
    LengthMismatch { measured: u64, read: u64 },
}

/// What generating comes to for a bundle of `bytes` whose length was measured
/// as `size`: the module, or the refusal of a bundle of another length.
pub open spec fn generated(size: u64, bytes: Seq<u8>) -> Result<Seq<char>, CodegenError> {
    if size == bytes.len() {
        Ok(module_text(bytes))
    } else {
        Err(CodegenError::LengthMismatch { measured: size, read: bytes.len() as u64 })
    }
}

/// The result of generating as a mathematical value.
pub open spec fn generated_view(result: Result<String, CodegenError>) -> Result<
    Seq<char>,
    CodegenError,
> {
    match result {
        Ok(text) => Ok(text@),
        Err(error) => Err(error),
    }
}

/// Appends one value of the array to `out`.
fn push_literal(out: &mut String, byte: u8)
    ensures
        final(out)@ == old(out)@ + literal(byte),
{
    proof {
        reveal_strlit(" 0x");
        reveal_strlit(",");
    }
    out.append(" 0x");
    out.append(digit_text(byte / 16));
    out.append(digit_text(byte % 16));
    out.append(",");
    assert(out@ =~= old(out)@ + literal(byte));
}

/// Appends a line break to `out`.
fn push_line_break(out: &mut String)
    ensures
        final(out)@ == old(out)@ + line_break(),
{
    proof {
        reveal_strlit("\n           ");
    }
    out.append("\n           ");
    assert(out@ =~= old(out)@ + line_break());
}

/// Generates the module that embeds `bundle`, a bundle whose length was
/// measured as `size` before it was read.
///
/// The module declares an array of exactly as many bytes as the bundle has
/// and initialises it with every byte of the bundle in order. A bundle whose
/// length differs from the measured one is refused.
pub fn codegen(size: u64, bundle: &[u8]) -> (result: Result<String, CodegenError>)
    ensures
        generated_view(result) == generated(size, bundle@),
{
    let length = bundle.len();
    if size != length as u64 {
        return Err(CodegenError::LengthMismatch { measured: size, read: length as u64 });
    }
    let mut text = String::from_str(PREAMBLE);
    push_decimal(&mut text, length as u128);
    text.append(OPENING);
    let ghost head = text@;
    assert(head =~= PREAMBLE@ + decimal(bundle@.len()) + OPENING@);
    let mut n: usize = 0;
    while n < length
        invariant
            n <= length,
            length == bundle@.len(),
            text@ == head + values(bundle@.take(n as int)),
        decreases length - n,
    {
        let ghost done = bundle@.take(n as int);
        let ghost next = bundle@.take(n + 1);
        assert(next.drop_last() =~= done);
        assert(next.last() == bundle@[n as int]);
        push_literal(&mut text, bundle[n]);
        if (n + 1) % VALUES_PER_LINE == 0 {
            push_line_break(&mut text);
        }
        n = n + 1;
        assert(text@ =~= head + values(next));
    }
    assert(bundle@.take(n as int) =~= bundle@);
    text.append(CLOSING);
    assert(text@ =~= module_text(bundle@));
    Ok(text)
}

} // verus!
