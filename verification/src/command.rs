//! The command line with which the backend is started.

use vstd::prelude::*;
use vstd::string::*;

verus! {

/// The arguments of the backend, as text: the data directory, where one is
/// given, then the flag that tells the backend it runs inside the shell.
pub open spec fn arguments_of(data_dir: Option<Seq<char>>) -> Seq<Seq<char>> {
    match data_dir {
        Some(dir) => seq!["-datadir"@, dir, "-desktop-sidecar"@, "true"@],
        None => seq!["-desktop-sidecar"@, "true"@],
    }
}

/// The text of each argument, in order.
pub open spec fn argument_views(arguments: Seq<String>) -> Seq<Seq<char>> {
    arguments.map_values(|a: String| a@)
}

/// The view of an optional directory name.
pub open spec fn dir_view(data_dir: Option<&str>) -> Option<Seq<char>> {
    match data_dir {
        Some(dir) => Some(dir@),
        None => None,
    }
}

/// Builds the arguments of the backend.
pub fn sidecar_arguments(data_dir: Option<&str>) -> (arguments: Vec<String>)
    ensures
        argument_views(arguments@) == arguments_of(dir_view(data_dir)),
{
    let mut arguments: Vec<String> = Vec::new();
    match data_dir {
        Some(dir) => {
            arguments.push(String::from_str("-datadir"));
            arguments.push(String::from_str(dir));
        },
        None => {},
    }
    arguments.push(String::from_str("-desktop-sidecar"));
    arguments.push(String::from_str("true"));
    assert(argument_views(arguments@) =~= arguments_of(dir_view(data_dir)));
    arguments
}

} // verus!
