use vstd::prelude::*;

verus! {

/// The file stem of a path, as `std::path::Path::file_stem` finds it, when
/// that stem is valid UTF-8.
pub uninterp spec fn file_stem_of(path: Seq<char>) -> Option<Seq<char>>;

/// Relies on `std::path::Path::file_stem` (and `OsStr::to_str`): the final
/// component of the path without its extension, if there is one. The result
/// depends on the path alone.
#[verifier::external_body]
fn path_file_stem(path: &str) -> (r: Option<&str>)
    ensures
        match r {
            Some(s) => file_stem_of(path@) == Some(s@),
            None => file_stem_of(path@) is None,
        },
{
    match std::path::Path::new(path).file_stem() {
        Some(stem) => stem.to_str(),
        None => None,
    }
}

/// The final component of a path, as `std::path::Path::file_name` finds it,
/// when it is valid UTF-8.
pub uninterp spec fn file_name_of(path: Seq<char>) -> Option<Seq<char>>;

/// Relies on `std::path::Path::file_name` (and `OsStr::to_str`): the final
/// component of the path, unless the path ends in `..` or is a root. The
/// result depends on the path alone.
#[verifier::external_body]
fn path_file_name(path: &str) -> (r: Option<&str>)
    ensures
        match r {
            Some(s) => file_name_of(path@) == Some(s@),
            None => file_name_of(path@) is None,
        },
{
    match std::path::Path::new(path).file_name() {
        Some(name) => name.to_str(),
        None => None,
    }
}

/// The command line of a benchmark run.
#[derive(Debug, Clone)]
pub struct Args {
    /// The path of the scenario file.
    pub scenario_file: String,
}

/// A benchmark scenario file and the number of hosts of each kind it
/// describes.
#[derive(Debug, Clone)]
pub struct Scenario {
    pub name: String,
    pub path: String,
    pub clients: usize,
    pub servers: usize,
}

impl Scenario {
    /// The scenario at `path`, named by the path's final component, with the
    /// host counts read from the file; `None` when the path names no file.
    pub fn new(path: &str, clients: usize, servers: usize) -> (r: Option<Scenario>)
        ensures
            file_name_of(path@) is None <==> r is None,
            r matches Some(sc) ==> {
                &&& file_name_of(path@) == Some(sc.name@)
                &&& sc.path@ == path@
                &&& sc.clients == clients
                &&& sc.servers == servers
            },
    {
        match path_file_name(path) {
            None => None,
            Some(name) => Some(
                Scenario {
                    name: String::from_str(name),
                    path: String::from_str(path),
                    clients,
                    servers,
                },
            ),
        }
    }

    /// The scenario file's name without its extension; `None` for a path
    /// that names no file.
    pub fn file_stem(&self) -> (r: Option<&str>)
        ensures
            match r {
                Some(s) => file_stem_of(self.path@) == Some(s@),
                None => file_stem_of(self.path@) is None,
            },
    {
        path_file_stem(self.path.as_str())
    }
}

} // verus!
