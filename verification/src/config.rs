//! Where the program keeps its log: a directory of its own in the user's
//! configuration directory.
use vstd::prelude::*;
use crate::paths::{join_path, path_joined};

verus! {

/// The user's configuration directory, through `dirs::config_dir`.
/// Nothing is claimed of the result: it depends on the operating system
/// and the environment (such as `$XDG_CONFIG_HOME` or `$HOME`), and may be
/// absent. A directory whose name is not valid Unicode cannot be held as
/// text and is reported as absent.
#[verifier::external_body]
fn system_config_dir() -> (res: Option<String>) {
    match dirs::config_dir() {
        Some(p) => match p.into_os_string().into_string() {
            Ok(s) => Some(s),
            Err(_) => None,
        },
        None => None,
    }
}

/// The program's own directory inside a configuration directory.
pub open spec fn program_dir_spec(base: Option<Seq<char>>) -> Option<Seq<char>> {
    match base {
        Some(b) => Some(path_joined(b, "rechifina"@)),
        None => None,
    }
}

/// The program's directory inside the configuration directory `base`, if
/// there is one.
pub fn program_dir_under(base: Option<String>) -> (res: Option<String>)
    ensures
        match res {
            Some(p) => program_dir_spec(match base { Some(b) => Some(b@), None => None }) == Some(p@),
            None => base is None,
        },
{
    match base {
        Some(b) => Some(join_path(b.as_str(), "rechifina")),
        None => None,
    }
}

/// The program's directory inside the user's configuration directory, or
/// `None` when the system has no configuration directory.
pub fn program_dir() -> (res: Option<String>)
    ensures
        res matches Some(p) ==> exists|b: Seq<char>| p@ == path_joined(b, "rechifina"@),
{
    let base = system_config_dir();
    let res = program_dir_under(base);
    proof {
        if res is Some {
            assert(res.unwrap()@ == path_joined(base.unwrap()@, "rechifina"@));
        }
    }
    res
}

/// The log file inside the program's directory.
pub fn log_file_path(program_dir: &str) -> (res: String)
    ensures
        res@ == path_joined(program_dir@, "rechifina.log"@),
{
    join_path(program_dir, "rechifina.log")
}

} // verus!
