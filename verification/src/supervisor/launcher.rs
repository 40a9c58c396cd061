//! Where the worker binary is looked for, and how the worker is invoked.
//!
//! The launcher tries a fixed list of places in order and spawns the first binary that exists.
//! This module names the places and picks among them; whether a file exists is for the caller
//! to find out.

use crate::supervisor::state::LaunchError;
use crate::text::{concat2, concat3};
use vstd::prelude::*;

verus! {

/// The one argument the worker is spawned with: it picks a free port itself.
pub const WORKER_PORT_ARGUMENT: &'static str = "--port=0";

/// The platform the supervisor runs on.
#[derive(Clone, Copy, Debug, PartialEq, Eq, Structural)]
pub enum Platform {
    Linux,
    MacOs,
    Windows,
}

/// A directory in which the worker binary is looked for.
#[derive(Clone, Copy, Debug, PartialEq, Eq, Structural)]
pub enum SearchDir {
    /// The directory of binaries beside the build manifest, in a development tree.
    DevelopmentTree,
    /// The directory of the supervising executable.
    BesideExecutable,
    /// The resource directory of the platform's application bundle.
    Bundle,
}

/// One place to look for the worker binary.
#[derive(Debug)]
pub struct Candidate {
    pub dir: SearchDir,
    pub file_name: String,
}

/// The extension an executable needs on `platform`.
pub open spec fn executable_suffix(platform: Platform) -> Seq<char> {
    if platform == Platform::Windows {
        seq!['.', 'e', 'x', 'e']
    } else {
        Seq::empty()
    }
}

/// The plain file name of the worker on `platform`.
pub open spec fn plain_name(name: Seq<char>, platform: Platform) -> Seq<char> {
    name + executable_suffix(platform)
}

/// The file name of the worker with the target triple behind it.
pub open spec fn triple_name(name: Seq<char>, triple: Seq<char>, platform: Platform) -> Seq<
    char,
> {
    name + seq!['-'] + triple + executable_suffix(platform)
}

/// The places to look in, first to last: the development tree by the triple name, beside the
/// executable by the plain name, beside the executable by the triple name, the bundle by the
/// plain name.
pub open spec fn search_order(name: Seq<char>, triple: Seq<char>, platform: Platform) -> Seq<
    (SearchDir, Seq<char>),
> {
    seq![
        (SearchDir::DevelopmentTree, triple_name(name, triple, platform)),
        (SearchDir::BesideExecutable, plain_name(name, platform)),
        (SearchDir::BesideExecutable, triple_name(name, triple, platform)),
        (SearchDir::Bundle, plain_name(name, platform)),
    ]
}

/// The extension an executable needs on `platform`.
pub fn suffix_of(platform: Platform) -> (r: &'static str)
    ensures
        r@ == executable_suffix(platform),
{
    proof {
        reveal_strlit(".exe");
        reveal_strlit("");
    }
    let r = match platform {
        Platform::Windows => ".exe",
        _ => "",
    };
    r
}

/// The places to look for the worker binary `name` built for `triple`, first to last.
pub fn worker_candidates(name: &str, triple: &str, platform: Platform) -> (r: Vec<Candidate>)
    ensures
        r@.len() == 4,
        forall|i: int|
            0 <= i < 4 ==> ((#[trigger] r@[i]).dir, r@[i].file_name@) == search_order(
                name@,
                triple@,
                platform,
            )[i],
{
    let suffix = suffix_of(platform);
    proof {
        reveal_strlit("-");
    }
    let stem = concat3(name, "-", triple);
    let mut r: Vec<Candidate> = Vec::new();
    r.push(
        Candidate { dir: SearchDir::DevelopmentTree, file_name: concat2(stem.as_str(), suffix) },
    );
    r.push(Candidate { dir: SearchDir::BesideExecutable, file_name: concat2(name, suffix) });
    r.push(
        Candidate { dir: SearchDir::BesideExecutable, file_name: concat2(stem.as_str(), suffix) },
    );
    r.push(Candidate { dir: SearchDir::Bundle, file_name: concat2(name, suffix) });
    r
}

/// Picks the binary to spawn: `exists` says of each candidate, in search order, whether a file
/// is there. The first that exists is taken; where none does, the launch fails with
/// `SpawnFailure`.
pub fn choose_binary(exists: &Vec<bool>) -> (r: Result<usize, LaunchError>)
    ensures
        match r {
            Ok(i) => i < exists.len() && exists@[i as int] && forall|j: int|
                0 <= j < i ==> !exists@[j],
            Err(e) => e == LaunchError::SpawnFailure && forall|j: int|
                0 <= j < exists.len() ==> !exists@[j],
        },
{
    let mut i: usize = 0;
    while i < exists.len()
        invariant
            i <= exists.len(),
            forall|j: int| 0 <= j < i ==> !exists@[j],
        decreases exists.len() - i,
    {
        if exists[i] {
            return Ok(i);
        }
        i += 1;
    }
    Err(LaunchError::SpawnFailure)
}

} // verus!
