//! The output-naming policy of the compile pipeline: a compiled artifact
//! lies beside its source, under the same name with the target extension.

use crate::error::Utf8Error;
use vstd::prelude::*;

verus! {

/// The file extension of compiled artifacts.
pub open spec fn target_extension() -> Seq<char> {
    "plb"@
}

/// What `std::path::Path::with_extension` makes of the path `path` and the
/// extension `extension`, as text, or `None` where the outcome is no valid
/// UTF-8. Paths are read by the syntax of the platform that the crate is
/// built for.
pub uninterp spec fn path_with_extension(path: Seq<char>, extension: Seq<char>) -> Option<Seq<char>>;

/// Calls `std::path::Path::with_extension` on `path` and reads the outcome
/// back as text with `Path::to_str`.
///
/// Trusted: that the outcome depends on the two texts alone, which is all
/// that the contract claims. The extension must hold no path separator, on
/// which the standard library panics.
#[verifier::external_body]
fn with_extension(path: &str, extension: &str) -> (renamed: Option<String>)
    requires
        !extension@.contains('/'),
        !extension@.contains('\\'),
    ensures
        renamed.deep_view() == path_with_extension(path@, extension@),
{
    std::path::Path::new(path).with_extension(extension).to_str().map(str::to_owned)
}

/// The name of the artifact compiled from `source`.
pub open spec fn output_name(source: Seq<char>) -> Result<Seq<char>, Utf8Error> {
    match path_with_extension(source, target_extension()) {
        Some(name) => Ok(name),
        None => Err(Utf8Error),
    }
}

/// Turns a renamed path into the answer of the naming policy: the path
/// itself, or the encoding error where it could not be read back as text.
pub fn name_output(renamed: Option<String>) -> (name: Result<String, Utf8Error>)
    ensures
        match renamed {
            Some(path) => name == Ok::<String, Utf8Error>(path),
            None => name == Err::<String, Utf8Error>(Utf8Error),
        },
{
    match renamed {
        Some(path) => Ok(path),
        None => Err(Utf8Error),
    }
}

/// The path of the artifact compiled from `source`: `source` with its
/// extension replaced by the target extension. The function has no effect
/// besides its result.
pub fn output_path(source: &str) -> (name: Result<String, Utf8Error>)
    ensures
        match name {
            Ok(path) => output_name(source@) == Ok::<Seq<char>, Utf8Error>(path@),
            Err(error) => output_name(source@) == Err::<Seq<char>, Utf8Error>(error),
        },
{
    proof {
        reveal_strlit("plb");
    }
    name_output(with_extension(source, "plb"))
}

} // verus!
