//! Path construction for stored uploads: the submitted file name is
//! sanitized and joined under the static directory. Reading the upload
//! stream and writing the file are an external collaborator's concern.

use vstd::prelude::*;
use vstd::string::StringExecFns;

verus! {

/// The sanitized form of a submitted file name: a function of the input
/// characters alone.
pub uninterp spec fn sanitized_of(name: Seq<char>) -> Seq<char>;

/// Relies on sanitize_filename::sanitize_with_options with fixed options:
/// strips path separators, traversal components and control characters from
/// a submitted name, deterministically in the input characters.
#[verifier::external_body]
fn sanitize(name: &str) -> (r: String)
    ensures
        r@ == sanitized_of(name@),
{
    sanitize_filename::sanitize_with_options(
        name,
        sanitize_filename::Options { windows: false, truncate: true, replacement: "" },
    )
}

/// The path an upload is stored at: the static directory, a separator, and
/// the sanitized form of the submitted file name.
pub fn upload_path(static_dir: &str, filename: &str) -> (r: String)
    ensures
        r@ == static_dir@ + "/"@ + sanitized_of(filename@),
{
    let sanitized = sanitize(filename);
    let mut path = String::from_str(static_dir);
    path.append("/");
    path.append(sanitized.as_str());
    path
}

} // verus!
