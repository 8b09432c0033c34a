//! Packaging: the files a build left in its output directory, packed into a
//! single HTML document.
//!
//! Style sheets and scripts are inlined, text files become comments, anything
//! else is left out. Only the top-level files of the output directory are
//! handed in; build output is flat.

use vstd::prelude::*;
use vstd::string::*;
use vstd::utf8::valid_utf8;
use crate::text::{chars_of, ends_with, is_suffix};

verus! {

/// What opens the document.
pub const DOCUMENT_OPEN: &'static str =
    "<!doctype html><html lang='en'><head><meta charset='utf-8'><meta name='viewport' content='width=device-width,initial-scale=1'><title>A dR Plugin</title>";

/// What closes the document.
pub const DOCUMENT_CLOSE: &'static str = "</head><body></body></html>";

/// What opens an inlined style sheet.
pub const STYLE_OPEN: &'static str = "<style type='text/css'>";

/// What closes an inlined style sheet.
pub const STYLE_CLOSE: &'static str = "</style>";

/// What opens an inlined script.
pub const SCRIPT_OPEN: &'static str = "<script type='text/javascript'>";

/// What closes an inlined script.
pub const SCRIPT_CLOSE: &'static str = "\n</script>";

/// What opens a text file's comment.
pub const COMMENT_OPEN: &'static str = "<!--\n\n";

/// What closes a text file's comment.
pub const COMMENT_CLOSE: &'static str = "\n-->";

/// One top-level file of the output directory.
#[derive(Debug)]
pub struct OutputFile {
    /// The file's name, without its directory.
    pub name: String,
    /// The file's bytes.
    pub content: Vec<u8>,
}

/// How a file enters the document.
#[derive(Debug, Clone, Copy, PartialEq, Eq, Structural)]
pub enum FileKind {
    /// A style sheet, inlined in a `style` element.
    Style,
    /// A script, inlined in a `script` element.
    Script,
    /// A text file, kept as a comment.
    Text,
    /// Anything else: left out.
    Other,
}

/// A text file that cannot be packed because it is not UTF-8.
#[derive(Debug)]
pub struct InvalidText {
    /// The name of the file.
    pub name: String,
}

/// The part of `name` after its last dot is `ext`; a name without a dot is
/// its own extension. `ext` itself holds no dot.
pub open spec fn has_extension(name: Seq<char>, ext: Seq<char>) -> bool {
    name == ext || is_suffix(name, seq!['.'] + ext)
}

/// How the file called `name` enters the document.
pub open spec fn kind_of(name: Seq<char>) -> FileKind {
    if has_extension(name, "css"@) {
        FileKind::Style
    } else if has_extension(name, "js"@) {
        FileKind::Script
    } else if has_extension(name, "txt"@) {
        FileKind::Text
    } else {
        FileKind::Other
    }
}

/// One byte of a text file as it stands inside a comment: angle brackets are
/// replaced by their entities.
pub open spec fn escaped_byte(byte: u8) -> Seq<u8> {
    if byte == 0x3c {
        "&lt;".spec_bytes()
    } else if byte == 0x3e {
        "&gt;".spec_bytes()
    } else {
        seq![byte]
    }
}

/// A text with every angle bracket replaced by its entity.
pub open spec fn escaped(text: Seq<u8>) -> Seq<u8>
    decreases text.len(),
{
    if text.len() == 0 {
        Seq::empty()
    } else {
        escaped(text.drop_last()) + escaped_byte(text.last())
    }
}

/// What one file contributes to the document.
pub open spec fn rendered(file: OutputFile) -> Seq<u8> {
    match kind_of(file.name@) {
        FileKind::Style => STYLE_OPEN.spec_bytes() + file.content@ + STYLE_CLOSE.spec_bytes(),
        FileKind::Script => SCRIPT_OPEN.spec_bytes() + file.content@ + SCRIPT_CLOSE.spec_bytes(),
        FileKind::Text => COMMENT_OPEN.spec_bytes() + escaped(file.content@)
            + COMMENT_CLOSE.spec_bytes(),
        FileKind::Other => Seq::empty(),
    }
}

/// What the files contribute to the document, in their order.
pub open spec fn rendered_all(files: Seq<OutputFile>) -> Seq<u8>
    decreases files.len(),
{
    if files.len() == 0 {
        Seq::empty()
    } else {
        rendered_all(files.drop_last()) + rendered(files.last())
    }
}

/// The whole document.
pub open spec fn distribution(files: Seq<OutputFile>) -> Seq<u8> {
    DOCUMENT_OPEN.spec_bytes() + rendered_all(files) + DOCUMENT_CLOSE.spec_bytes()
}

/// The file is a text file whose bytes are not UTF-8.
pub open spec fn is_invalid_text(file: OutputFile) -> bool {
    kind_of(file.name@) == FileKind::Text && !valid_utf8(file.content@)
}

/// `i` is the first position in `files` that holds an invalid text file.
pub open spec fn first_invalid_text_at(files: Seq<OutputFile>, i: int) -> bool {
    &&& 0 <= i < files.len()
    &&& is_invalid_text(files[i])
    &&& forall|k: int| 0 <= k < i ==> !is_invalid_text(#[trigger] files[k])
}

/// Trusted: `core::str::from_utf8`, which succeeds exactly on well-formed
/// UTF-8.
#[verifier::external_body]
fn is_utf8(bytes: &[u8]) -> (ok: bool)
    ensures
        ok == valid_utf8(bytes@),
{
    core::str::from_utf8(bytes).is_ok()
}

/// Whether the part of `name` after its last dot is `ext`.
fn extension_is(name: &[char], ext: &str) -> (found: bool)
    ensures
        found == has_extension(name@, ext@),
{
    let ext_chars = chars_of(ext);
    let mut dotted: Vec<char> = Vec::new();
    dotted.push('.');
    let mut i: usize = 0;
    while i < ext_chars.len()
        invariant
            i <= ext_chars@.len(),
            dotted@ == seq!['.'] + ext_chars@.take(i as int),
        decreases ext_chars@.len() - i,
    {
        dotted.push(ext_chars[i]);
        i = i + 1;
    }
    assert(ext_chars@.take(ext_chars@.len() as int) == ext_chars@);
    let whole = name.len() == ext_chars.len() && ends_with(name, ext_chars.as_slice());
    proof {
        if name@.len() == ext_chars@.len() {
            assert(name@.skip(0) == name@);
        }
    }
    whole || ends_with(name, dotted.as_slice())
}

/// Decides how the file called `name` enters the document.
pub fn classify(name: &str) -> (kind: FileKind)
    ensures
        kind == kind_of(name@),
{
    let chars = chars_of(name);
    if extension_is(chars.as_slice(), "css") {
        FileKind::Style
    } else if extension_is(chars.as_slice(), "js") {
        FileKind::Script
    } else if extension_is(chars.as_slice(), "txt") {
        FileKind::Text
    } else {
        FileKind::Other
    }
}

/// Appends `text` to `out` with its angle brackets replaced by entities.
fn push_escaped(out: &mut Vec<u8>, text: &[u8])
    ensures
        final(out)@ == old(out)@ + escaped(text@),
{
    let n = text.len();
    let mut i: usize = 0;
    while i < n
        invariant
            n == text@.len(),
            i <= n,
            out@ == old(out)@ + escaped(text@.take(i as int)),
        decreases n - i,
    {
        let byte = text[i];
        if byte == 0x3c {
            out.extend_from_slice("&lt;".as_bytes());
        } else if byte == 0x3e {
            out.extend_from_slice("&gt;".as_bytes());
        } else {
            out.push(byte);
        }
        assert(text@.take(i + 1).drop_last() == text@.take(i as int));
        i = i + 1;
    }
    assert(text@.take(n as int) == text@);
}

/// Appends what `file` contributes to the document.
fn push_rendered(out: &mut Vec<u8>, file: &OutputFile)
    ensures
        final(out)@ == old(out)@ + rendered(*file),
{
    match classify(file.name.as_str()) {
        FileKind::Style => {
            out.extend_from_slice(STYLE_OPEN.as_bytes());
            out.extend_from_slice(file.content.as_slice());
            out.extend_from_slice(STYLE_CLOSE.as_bytes());
        },
        FileKind::Script => {
            out.extend_from_slice(SCRIPT_OPEN.as_bytes());
            out.extend_from_slice(file.content.as_slice());
            out.extend_from_slice(SCRIPT_CLOSE.as_bytes());
        },
        FileKind::Text => {
            out.extend_from_slice(COMMENT_OPEN.as_bytes());
            push_escaped(out, file.content.as_slice());
            out.extend_from_slice(COMMENT_CLOSE.as_bytes());
        },
        FileKind::Other => {},
    }
}

/// Packs the top-level files of an output directory into one document, in
/// the order given. Fails, before anything is packed, on the first text file
/// that is not UTF-8.
pub fn create_distribution(files: &Vec<OutputFile>) -> (out: Result<Vec<u8>, InvalidText>)
    ensures
        match out {
            Ok(bytes) => {
                &&& bytes@ == distribution(files@)
                &&& forall|i: int| 0 <= i < files@.len() ==> !is_invalid_text(#[trigger] files@[i])
            },
            Err(fault) => exists|i: int|
                first_invalid_text_at(files@, i) && fault.name == files@[i].name,
        },
{
    let n = files.len();
    let mut i: usize = 0;
    while i < n
        invariant
            n == files@.len(),
            i <= n,
            forall|k: int| 0 <= k < i ==> !is_invalid_text(#[trigger] files@[k]),
        decreases n - i,
    {
        let file = &files[i];
        if classify(file.name.as_str()) == FileKind::Text && !is_utf8(file.content.as_slice()) {
            assert(first_invalid_text_at(files@, i as int));
            return Err(InvalidText { name: file.name.clone() });
        }
        i = i + 1;
    }
    let mut bytes: Vec<u8> = Vec::new();
    bytes.extend_from_slice(DOCUMENT_OPEN.as_bytes());
    let mut j: usize = 0;
    while j < n
        invariant
            n == files@.len(),
            j <= n,
            bytes@ == DOCUMENT_OPEN.spec_bytes() + rendered_all(files@.take(j as int)),
        decreases n - j,
    {
        push_rendered(&mut bytes, &files[j]);
        assert(files@.take(j + 1).drop_last() == files@.take(j as int));
        j = j + 1;
    }
    assert(files@.take(n as int) == files@);
    bytes.extend_from_slice(DOCUMENT_CLOSE.as_bytes());
    Ok(bytes)
}

} // verus!
