//! The build that runs before a publish, where the project has one.
//!
//! A project is built if its directory holds a solution file. Listing the
//! directory and running the build are the caller's work; which file is the
//! solution, how the build is called and what its end means are decided
//! here.

use vstd::prelude::*;
use vstd::string::*;
use crate::error::{Error, ErrorKind, ErrorView};
use crate::paths::names_of;
use crate::util::{decodable, decode_out, decoded, decoded_as_is, TextEncoding};

verus! {

/// The program that builds a solution.
pub const BUILD_PROGRAM: &'static str = "dotnet";

/// One entry of a directory listing.
#[derive(Debug)]
pub struct DirItem {
    pub name: String,
    /// Whether the entry is a regular file.
    pub is_file: bool,
}

/// Whether a file of this name is a solution: the name ends in `.sln` and
/// has at least one character before that.
pub open spec fn is_solution_name(name: Seq<char>) -> bool {
    name.len() > 4 && name.subrange(name.len() - 4, name.len() as int) == seq!['.', 's', 'l', 'n']
}

/// Whether entry `i` of a listing is a solution file.
pub open spec fn is_solution(items: Seq<DirItem>, i: int) -> bool {
    items[i].is_file && is_solution_name(items[i].name@)
}

/// Whether entry `i` of a listing is its first solution file.
pub open spec fn is_first_solution(items: Seq<DirItem>, i: int) -> bool {
    &&& 0 <= i < items.len()
    &&& is_solution(items, i)
    &&& forall|k: int| 0 <= k < i ==> !is_solution(items, k)
}

/// The name of the first solution file of a listing, if it has one.
pub open spec fn first_solution(items: Seq<DirItem>) -> Option<Seq<char>> {
    if exists|i: int| is_first_solution(items, i) {
        Some(items[choose|i: int| is_first_solution(items, i)].name@)
    } else {
        None
    }
}

/// Whether a file of this name is a solution.
pub fn names_solution(name: &str) -> (r: bool)
    ensures
        r == is_solution_name(name@),
{
    let n = name.unicode_len();
    if n <= 4 {
        return false;
    }
    let hit = name.get_char(n - 4) == '.' && name.get_char(n - 3) == 's' && name.get_char(n - 2)
        == 'l' && name.get_char(n - 1) == 'n';
    proof {
        let tail = name@.subrange(name@.len() - 4, name@.len() as int);
        assert(tail[0] == name@[n - 4]);
        assert(tail[1] == name@[n - 3]);
        assert(tail[2] == name@[n - 2]);
        assert(tail[3] == name@[n - 1]);
        if hit {
            assert(tail =~= seq!['.', 's', 'l', 'n']);
        }
    }
    hit
}

/// The first solution file of a directory listing, if it has one.
pub fn find_sln_file(items: &Vec<DirItem>) -> (r: Option<String>)
    ensures
        match r {
            Some(name) => Some(name@) == first_solution(items@),
            None => first_solution(items@) is None,
        },
{
    let mut i: usize = 0;
    while i < items.len()
        invariant
            i <= items.len(),
            forall|k: int| 0 <= k < i ==> !is_solution(items@, k),
        decreases items.len() - i,
    {
        if items[i].is_file && names_solution(items[i].name.as_str()) {
            proof {
                assert(is_first_solution(items@, i as int));
                let chosen = choose|j: int| is_first_solution(items@, j);
                assert(chosen == i) by {
                    if chosen < i {
                        assert(!is_solution(items@, chosen));
                    } else if i < chosen {
                        assert(!is_solution(items@, i as int));
                    }
                }
            }
            return Some(items[i].name.clone());
        }
        i += 1;
    }
    None
}

/// The arguments with which the build program is called on a solution: a
/// release build of that solution.
pub open spec fn build_arguments_of(descriptor: Seq<char>) -> Seq<Seq<char>> {
    seq!["build"@, descriptor, "--configuration"@, "Release"@]
}

/// The arguments with which the build program is called on a solution.
pub fn build_arguments(descriptor: &str) -> (r: Vec<String>)
    ensures
        names_of(r@) == build_arguments_of(descriptor@),
{
    let mut args: Vec<String> = Vec::new();
    args.push("build".to_owned());
    args.push(descriptor.to_owned());
    args.push("--configuration".to_owned());
    args.push("Release".to_owned());
    assert(names_of(args@) =~= build_arguments_of(descriptor@));
    args
}

/// How a run of the build program ended.
#[derive(Debug)]
pub enum BuildRun {
    /// The program could not be started, for the reason given.
    NotStarted(String),
    /// The program ran and exited.
    Exited { success: bool, stdout: Vec<u8>, stderr: Vec<u8> },
}

impl BuildRun {
    /// Whether what the program wrote can be decoded.
    pub open spec fn decodable(self) -> bool {
        match self {
            BuildRun::NotStarted(_) => true,
            BuildRun::Exited { success, stdout, stderr } => decodable(stdout@) && decodable(
                stderr@,
            ),
        }
    }

    /// Whether what the program wrote can be decoded.
    pub fn is_decodable(&self) -> (r: bool)
        ensures
            r == self.decodable(),
    {
        match self {
            BuildRun::NotStarted(_) => true,
            BuildRun::Exited { success, stdout, stderr } => stdout.len() <= usize::MAX / 8
                && stderr.len() <= usize::MAX / 8,
        }
    }
}

/// What a run of the build means: a build that exits with success has
/// succeeded, whatever it wrote, and what it wrote to its output is kept for
/// the log; one that exits otherwise has failed with what it wrote to its
/// error output; one that did not start has failed with the reason.
pub open spec fn build_verdict(run: BuildRun, encoding: TextEncoding) -> Result<
    Seq<char>,
    ErrorView,
> {
    match run {
        BuildRun::NotStarted(detail) => Err(
            ErrorView {
                kind: ErrorKind::Build,
                message: "Failed to execute dotnet build:\n"@ + detail@,
            },
        ),
        BuildRun::Exited { success, stdout, stderr } => if success {
            Ok(decoded(stdout@, encoding))
        } else {
            Err(
                ErrorView {
                    kind: ErrorKind::Build,
                    message: "Project build failed:\n"@ + decoded(stderr@, encoding),
                },
            )
        },
    }
}

/// Judges a run of the build by its exit status.
pub fn execute_dotnet_build(run: &BuildRun, encoding: TextEncoding) -> (r: Result<String, Error>)
    requires
        run.decodable(),
    ensures
        match build_verdict(*run, encoding) {
            Ok(output) => r matches Ok(text) && text@ == output,
            Err(e) => r matches Err(failure) && failure@ == e,
        },
        match *run {
            BuildRun::NotStarted(_) => true,
            BuildRun::Exited { success, stdout, stderr } => if success {
                r matches Ok(text) && decoded_as_is(stdout@, encoding, text@)
            } else {
                r is Err && decoded_as_is(stderr@, encoding, decoded(stderr@, encoding))
            },
        },
{
    match run {
        BuildRun::NotStarted(detail) => Err(
            Error::new(ErrorKind::Build, "Failed to execute dotnet build:\n", detail.as_str()),
        ),
        BuildRun::Exited { success, stdout, stderr } => if *success {
            Ok(decode_out(stdout.as_slice(), encoding))
        } else {
            let text = decode_out(stderr.as_slice(), encoding);
            Err(Error::new(ErrorKind::Build, "Project build failed:\n", text.as_str()))
        },
    }
}

} // verus!
