//! The tag that names the running program on every report.

use crate::client::set_tag;
use vstd::prelude::*;

verus! {

/// The key of the tag.
pub const EXECUTABLE_TAG: &'static str = "executable";

/// The file stem that `std::path::Path::file_stem` finds in a path, as text:
/// the last component of the path without its extension, or nothing where
/// the path ends in no file name. The function reads the text of the path
/// and nothing else, neither the file system nor the environment, so the
/// text decides the stem. Which characters part the components is laid down
/// by the platform that the library is built for, and is not written out
/// here. A stem is cut out of the path, so the stem of a path that is text
/// is text too.
pub uninterp spec fn file_stem_of(path: Seq<char>) -> Option<Seq<char>>;

/// Tags the reports to come with the name of the running program and hands
/// the name back. Without a name no tag is set.
pub fn tag_as(name: Option<String>) -> (tagged: Option<String>)
    ensures
        tagged == name,
{
    match &name {
        Some(executable) => set_tag(EXECUTABLE_TAG, executable.as_str()),
        None => {},
    }
    name
}

/// Tags the reports to come with the name of the running program, which is
/// the file stem of the path that the program was started by, and returns
/// that name. Without a path, or with a path that has no file stem, no tag is
/// set and `None` comes back.
pub fn tag_executable(program: Option<String>) -> (name: Option<String>)
    ensures
        match program {
            None => name is None,
            Some(path) => name.deep_view() == file_stem_of(path@),
        },
{
    match program {
        None => None,
        Some(path) => tag_as(file_stem(path.as_str())),
    }
}

/// Calls `std::path::Path::file_stem` on the path and hands the stem back as
/// text. What comes back is given the name `file_stem_of`; nothing else is
/// claimed of it.
#[verifier::external_body]
pub(crate) fn file_stem(path: &str) -> (stem: Option<String>)
    ensures
        stem.deep_view() == file_stem_of(path@),
{
    std::path::Path::new(path).file_stem().and_then(|stem| stem.to_str()).map(
        |stem| stem.to_owned(),
    )
}

} // verus!
