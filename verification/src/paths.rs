//! Paths as text, the few operations of `std::path` the pipeline needs, and
//! the rule that places each output file.
//!
//! A path is held as a `String`. What `std::path` makes of two paths depends
//! on the platform's separators and is not restated here: each operation has
//! a name, and the contracts speak of the names.

use vstd::prelude::*;

verus! {

/// The extension every output file gets.
pub const OUTPUT_EXTENSION: &'static str = "jpg";

/// What `std::path::Path::extension` makes of `path`.
pub uninterp spec fn path_extension_of(path: Seq<char>) -> Option<Seq<char>>;

/// What `std::path::Path::parent` makes of `path`.
pub uninterp spec fn path_parent_of(path: Seq<char>) -> Option<Seq<char>>;

/// What `std::path::Path::strip_prefix` makes of `path` and `base`: the
/// rest of `path` below `base`, or nothing where `base` is no prefix.
pub uninterp spec fn path_relative_to(path: Seq<char>, base: Seq<char>) -> Option<Seq<char>>;

/// What `std::path::Path::join` makes of `base` and `rest`.
pub uninterp spec fn path_joined(base: Seq<char>, rest: Seq<char>) -> Seq<char>;

/// What `std::path::Path::with_extension` makes of `path` and `extension`.
pub uninterp spec fn path_with_extension(path: Seq<char>, extension: Seq<char>) -> Seq<char>;

/// The text of an optional string.
pub open spec fn text_of(s: Option<String>) -> Option<Seq<char>> {
    match s {
        Some(t) => Some(t@),
        None => None,
    }
}

/// Whether `c` separates path components on some platform.
pub open spec fn is_separator(c: char) -> bool {
    c == '/' || c == '\\'
}

/// Calls `std::path::Path::extension`. Trusted: the result is the value the
/// name `path_extension_of` stands for; nothing more is claimed of it.
#[verifier::external_body]
pub(crate) fn extension(path: &str) -> (ext: Option<String>)
    ensures
        text_of(ext) == path_extension_of(path@),
{
    match std::path::Path::new(path).extension() {
        Some(ext) => Some(ext.to_string_lossy().into_owned()),
        None => None,
    }
}

/// Calls `std::path::Path::parent`. Trusted: the result is the value the
/// name `path_parent_of` stands for; nothing more is claimed of it.
#[verifier::external_body]
pub(crate) fn parent(path: &str) -> (dir: Option<String>)
    ensures
        text_of(dir) == path_parent_of(path@),
{
    match std::path::Path::new(path).parent() {
        Some(dir) => Some(dir.to_string_lossy().into_owned()),
        None => None,
    }
}

/// Calls `std::path::Path::strip_prefix`. Trusted: the result is the value
/// the name `path_relative_to` stands for, with the error taken as nothing.
#[verifier::external_body]
pub(crate) fn strip_prefix(path: &str, base: &str) -> (rest: Option<String>)
    ensures
        text_of(rest) == path_relative_to(path@, base@),
{
    match std::path::Path::new(path).strip_prefix(base) {
        Ok(rest) => Some(rest.to_string_lossy().into_owned()),
        Err(_) => None,
    }
}

/// Calls `std::path::Path::join`. Trusted: the result is the value the name
/// `path_joined` stands for.
#[verifier::external_body]
pub(crate) fn join(base: &str, rest: &str) -> (joined: String)
    ensures
        joined@ == path_joined(base@, rest@),
{
    std::path::Path::new(base).join(rest).to_string_lossy().into_owned()
}

/// Calls `std::path::Path::with_extension`, which panics on an extension
/// that holds a separator: such an extension is kept out. Trusted: the
/// result is the value the name `path_with_extension` stands for.
#[verifier::external_body]
pub(crate) fn with_extension(path: &str, extension: &str) -> (changed: String)
    requires
        forall|i: int| 0 <= i < extension@.len() ==> !is_separator(#[trigger] extension@[i]),
    ensures
        changed@ == path_with_extension(path@, extension@),
{
    std::path::Path::new(path).with_extension(extension).to_string_lossy().into_owned()
}

/// Where the output of `source` goes.
///
/// With a single input file the output root is the destination as it
/// stands. With an input directory it is the output root, joined with the
/// source taken relative to the input root (the whole source where it does
/// not lie below the input root), and the extension replaced by
/// `OUTPUT_EXTENSION`.
pub open spec fn destination(
    source: Seq<char>,
    input_root: Seq<char>,
    output_root: Seq<char>,
    single_file: bool,
) -> Seq<char> {
    if single_file {
        output_root
    } else {
        let relative = match path_relative_to(source, input_root) {
            Some(rest) => rest,
            None => source,
        };
        path_with_extension(path_joined(output_root, relative), OUTPUT_EXTENSION@)
    }
}

/// Derives the destination of one source file from the input and output
/// roots of the run.
pub fn map_output(source: &str, input_root: &str, output_root: &str, single_file: bool) -> (dest:
    String)
    ensures
        dest@ == destination(source@, input_root@, output_root@, single_file),
{
    if single_file {
        output_root.to_owned()
    } else {
        let joined = match strip_prefix(source, input_root) {
            Some(rest) => join(output_root, rest.as_str()),
            None => join(output_root, source),
        };
        proof {
            reveal_strlit("jpg");
        }
        with_extension(joined.as_str(), OUTPUT_EXTENSION)
    }
}

/// In a run over a directory, the destination of a source below the input
/// root is the source's path relative to that root, joined to the output
/// root, with `OUTPUT_EXTENSION` for its extension. It depends on the
/// source through that relative path alone.
pub proof fn lemma_directory_destination(
    source: Seq<char>,
    input_root: Seq<char>,
    output_root: Seq<char>,
    relative: Seq<char>,
)
    requires
        path_relative_to(source, input_root) == Some(relative),
    ensures
        destination(source, input_root, output_root, false) == path_with_extension(
            path_joined(output_root, relative),
            OUTPUT_EXTENSION@,
        ),
{
}

/// In a run over a single file, the destination is the output root itself,
/// whatever the source.
pub proof fn lemma_single_file_destination(
    source: Seq<char>,
    input_root: Seq<char>,
    output_root: Seq<char>,
)
    ensures
        destination(source, input_root, output_root, true) == output_root,
{
}

} // verus!
