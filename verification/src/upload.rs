//! Which files hold definitions, and which application each one defines.
use crate::text::{extension_of, file_extension, strip_suffix, strip_suffix_of, text_eq};
use vstd::prelude::*;
use vstd::string::*;

verus! {

/// Whether a file name has the extension `jsonnet`, as `Path::extension` reads it.
pub open spec fn is_jsonnet_spec(file_name: Seq<char>) -> bool {
    file_extension(file_name) == Some("jsonnet"@)
}

/// The application that a definition file defines: its name without `.jsonnet`.
pub open spec fn app_id_spec(file_name: Seq<char>) -> Option<Seq<char>> {
    strip_suffix(file_name, ".jsonnet"@)
}

/// Whether the file named `file_name` is a Jsonnet source.
pub fn is_jsonnet(file_name: &str) -> (b: bool)
    ensures
        b == is_jsonnet_spec(file_name@),
{
    match extension_of(file_name) {
        Some(ext) => text_eq(ext.as_str(), "jsonnet"),
        None => false,
    }
}

/// Whether a directory entry is a definition to publish: a file, not a
/// directory, whose name is a Jsonnet source.
pub fn is_definition_file(is_dir: bool, file_name: &str) -> (b: bool)
    ensures
        b == (!is_dir && is_jsonnet_spec(file_name@)),
{
    !is_dir && is_jsonnet(file_name)
}

/// The application that the definition file `file_name` defines, or `None`
/// when the name does not end with `.jsonnet`.
pub fn app_id_of(file_name: &str) -> (r: Option<String>)
    ensures
        match r {
            Some(a) => app_id_spec(file_name@) == Some(a@),
            None => app_id_spec(file_name@) is None,
        },
{
    strip_suffix_of(file_name, ".jsonnet")
}

} // verus!
