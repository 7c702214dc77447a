//! What the library asks of the machine it runs on, and what the machine
//! tells of the programs that were run on it. Nothing here changes anything
//! on the machine, and nothing is claimed of an answer that depends on it.

use vstd::prelude::*;
use vstd::utf8::{decode_utf8, valid_utf8};

verus! {

/// The kind of machine that the library runs on, as far as it matters for
/// what is run on it.
#[derive(Debug, Clone, Copy, PartialEq, Eq, Structural)]
pub enum Platform {
    Linux,
    Windows,
}

/// How a program that was run ended: whether it ended well, and what it
/// wrote to its error stream.
#[derive(Debug, Clone, PartialEq, Eq)]
pub struct Exit {
    pub success: bool,
    pub stderr: Vec<u8>,
}

/// The text that `String::from_utf8_lossy` makes of `bytes`.
pub uninterp spec fn lossy_text(bytes: Seq<u8>) -> Seq<char>;

/// Whether the answer at place `i` of `answers` is yes. A place that the
/// answers do not reach counts as a no.
pub open spec fn yes_at(answers: Seq<bool>, i: int) -> bool {
    0 <= i < answers.len() && answers[i]
}

/// Whether an executable called `name` is installed: whether `which::which`
/// finds one on the search path. The answer depends on the machine.
#[verifier::external_body]
pub(crate) fn is_installed(name: &str) -> bool {
    which::which(name).is_ok()
}

/// The paths of all that `walkdir::WalkDir` finds at and below `root`, `root`
/// itself among them, in the order of the walk. What cannot be read is left
/// out. What is found depends on what is on disk; whatever it is, its path
/// is `root` followed by the names that lead to it, so that it starts with
/// `root`.
#[verifier::external_body]
pub(crate) fn walk(root: &str) -> (r: Vec<String>)
    ensures
        forall|i: int| 0 <= i < r.len() ==> root@.is_prefix_of(#[trigger] r[i]@),
{
    walkdir::WalkDir::new(root)
        .into_iter()
        .flat_map(std::convert::identity)
        .map(|entry| entry.path().to_string_lossy().into_owned())
        .collect()
}

/// Whether `path` is a file, as `std::path::Path::is_file` says. The answer
/// depends on what is on disk.
#[verifier::external_body]
pub(crate) fn is_file(path: &str) -> bool {
    std::path::Path::new(path).is_file()
}

/// Whether `path` is a directory, as `std::path::Path::is_dir` says. The
/// answer depends on what is on disk.
#[verifier::external_body]
pub(crate) fn is_dir(path: &str) -> bool {
    std::path::Path::new(path).is_dir()
}

/// Whether anything is at `path`, as `std::path::Path::exists` says. The
/// answer depends on what is on disk.
#[verifier::external_body]
pub(crate) fn is_present(path: &str) -> bool {
    std::path::Path::new(path).exists()
}

/// `bytes` as a string, by `String::from_utf8`: the text that the bytes
/// encode where they are UTF-8, and nothing where they are not.
#[verifier::external_body]
pub(crate) fn text_of(bytes: Vec<u8>) -> (r: Option<String>)
    ensures
        match r {
            Some(s) => valid_utf8(bytes@) && s@ == decode_utf8(bytes@),
            None => !valid_utf8(bytes@),
        },
{
    String::from_utf8(bytes).ok()
}

/// `bytes` as text, by `String::from_utf8_lossy`: the text that the bytes
/// encode where they are UTF-8, and else that text with a mark in the place
/// of what is not.
#[verifier::external_body]
pub(crate) fn lossy(bytes: &Vec<u8>) -> (r: String)
    ensures
        r@ == lossy_text(bytes@),
        valid_utf8(bytes@) ==> r@ == decode_utf8(bytes@),
{
    String::from_utf8_lossy(bytes).into_owned()
}

} // verus!
