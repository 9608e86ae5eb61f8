//! Where the result is written.
//!
//! The output path is derived from the input path alone: the input's stem
//! with a fixed suffix, in the directory of the input. Running the job again
//! on the same input therefore writes to the same place.

use vstd::prelude::*;
use vstd::string::StringExecFns;
use crate::paths::file_stem;
use crate::paths::join;
use crate::paths::parent;
use crate::paths::path_file_stem;
use crate::paths::path_join;
use crate::paths::path_parent;

verus! {

/// The text that follows the input's stem in the name of the output.
pub open spec fn output_suffix() -> Seq<char> {
    "_discord.mp4"@
}

/// The directory that stands for a path without a parent.
pub open spec fn current_dir() -> Seq<char> {
    "."@
}

/// The name of the output file for an input with the stem `stem`.
pub open spec fn output_name(stem: Seq<char>) -> Seq<char> {
    stem + output_suffix()
}

/// The output path for the input path `input`: the output's name joined to
/// the input's parent, or to the current directory if it has none.
pub open spec fn output_path(input: Seq<char>) -> Seq<char>
    recommends
        path_file_stem(input) is Some,
{
    let dir = match path_parent(input) {
        Some(dir) => dir,
        None => current_dir(),
    };
    path_join(dir, output_name(path_file_stem(input)->0))
}

/// The name of the output file for an input with the stem `stem`.
pub fn output_file_name(stem: &str) -> (name: String)
    ensures
        name@ == output_name(stem@),
{
    String::from_str(stem).concat("_discord.mp4")
}

/// The output path for `input`, a path that has a file name.
pub fn generate_output_path(input: &str) -> (output: String)
    requires
        path_file_stem(input@) is Some,
    ensures
        output@ == output_path(input@),
{
    let stem: String = file_stem(input).unwrap();
    let name: String = output_file_name(stem.as_str());
    let dir: String = match parent(input) {
        Some(dir) => dir,
        None => String::from_str("."),
    };
    join(dir.as_str(), name.as_str())
}

/// The output path for `input`, or `None` if `input` has no file name.
pub fn output_path_for(input: &str) -> (output: Option<String>)
    ensures
        match output {
            Some(path) => path_file_stem(input@) is Some && path@ == output_path(input@),
            None => path_file_stem(input@) is None,
        },
{
    match file_stem(input) {
        Some(_) => Some(generate_output_path(input)),
        None => None,
    }
}

/// The suffix, letter by letter.
pub proof fn law_output_suffix()
    ensures
        output_suffix() == seq!['_', 'd', 'i', 's', 'c', 'o', 'r', 'd', '.', 'm', 'p', '4'],
{
    reveal_strlit("_discord.mp4");
    assert(output_suffix() =~= seq!['_', 'd', 'i', 's', 'c', 'o', 'r', 'd', '.', 'm', 'p', '4']);
}

} // verus!
