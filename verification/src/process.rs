//! Decisions around running external tools and finding them on `PATH`.
use vstd::prelude::*;
use vstd::string::StringSliceAdditionalSpecFns;
use crate::bytes::{concat, push_bytes, to_vec};
use crate::paths::{is_absolute, join, join_spec, path_is_absolute};

verus! {

/// A tool that ran and did not succeed.
pub struct CommandFailed {
    /// The program that was run.
    pub program: Vec<u8>,
    /// How it ended, as the platform describes an exit status.
    pub status: Vec<u8>,
}

impl CommandFailed {
    /// `<program> failed (<status>)`.
    pub fn message(&self) -> (r: Vec<u8>)
        ensures
            r@ == self.program@ + " failed (".spec_bytes() + self.status@ + ")".spec_bytes(),
    {
        let mut r = concat(self.program.as_slice(), " failed (".as_bytes());
        push_bytes(&mut r, self.status.as_slice());
        push_bytes(&mut r, ")".as_bytes());
        r
    }
}

/// A tool's run is accepted exactly when it succeeded.
pub fn check_status(program: &[u8], success: bool, status: &[u8]) -> (r: Result<(), CommandFailed>)
    ensures
        r is Ok == success,
        r matches Err(f) ==> f.program@ == program@ && f.status@ == status@,
{
    if success {
        Ok(())
    } else {
        Err(CommandFailed { program: to_vec(program), status: to_vec(status) })
    }
}

/// What was learnt of one `PATH` candidate.
#[derive(Clone, Copy, Debug, PartialEq, Eq, Structural)]
pub enum Probe {
    /// Not a regular file.
    NotAFile,
    /// A regular file whose metadata could not be read.
    Unreadable,
    /// A regular file with these permission bits.
    File(u32),
}

/// Whether any execute bit is set.
pub open spec fn is_executable_mode(mode: u32) -> bool {
    mode & 0o111u32 != 0
}

/// The outcome of a `PATH` search.
#[derive(Clone, Copy, Debug, PartialEq, Eq, Structural)]
pub enum Located {
    /// The candidate at this index is an executable file.
    Found(usize),
    /// The metadata of the candidate at this index could not be read.
    Unreadable(usize),
    /// No candidate is an executable file.
    NotFound,
}

/// Whether the search passes over a candidate.
pub open spec fn skipped(p: Probe) -> bool {
    p is NotAFile || (p is File && !is_executable_mode(p->0))
}

/// The first candidate that is not passed over decides the search.
pub open spec fn locate_spec(probes: Seq<Probe>) -> Located {
    if forall|i: int| 0 <= i < probes.len() ==> skipped(#[trigger] probes[i]) {
        Located::NotFound
    } else {
        let i = choose|i: int| 0 <= i < probes.len() && !skipped(probes[i]) && forall|j: int|
            0 <= j < i ==> skipped(#[trigger] probes[j]);
        if probes[i] is Unreadable {
            Located::Unreadable(i as usize)
        } else {
            Located::Found(i as usize)
        }
    }
}

/// Searches the `PATH` candidates in order: the first regular file with an
/// execute bit is found; a regular file whose metadata cannot be read ends
/// the search with that failure.
pub fn locate(probes: &Vec<Probe>) -> (r: Located)
    ensures
        r == locate_spec(probes@),
        r matches Located::Found(i) ==> i < probes@.len(),
        r matches Located::Unreadable(i) ==> i < probes@.len(),
{
    let mut i: usize = 0;
    while i < probes.len()
        invariant
            i <= probes@.len(),
            forall|j: int| 0 <= j < i ==> skipped(#[trigger] probes@[j]),
        decreases probes@.len() - i,
    {
        let p = probes[i];
        let pass = match p {
            Probe::NotAFile => true,
            Probe::Unreadable => false,
            Probe::File(mode) => mode & 0o111u32 == 0,
        };
        if !pass {
            proof {
                let k = choose|k: int| 0 <= k < probes@.len() && !skipped(probes@[k]) && forall|j: int|
                    0 <= j < k ==> skipped(#[trigger] probes@[j]);
                assert(!skipped(probes@[i as int]));
                if k < i {
                    assert(skipped(probes@[k]));
                }
                if k > i {
                    assert(skipped(probes@[i as int]));
                }
                assert(k == i);
            }
            return match p {
                Probe::Unreadable => Located::Unreadable(i),
                _ => Located::Found(i),
            };
        }
        i += 1;
    }
    Located::NotFound
}

/// `<name> was not found on PATH; add the Cosmopolitan bin directory to PATH`.
pub fn not_found_message(name: &[u8]) -> (r: Vec<u8>)
    ensures
        r@ == name@ + " was not found on PATH; add the Cosmopolitan bin directory to PATH".spec_bytes(),
{
    concat(name, " was not found on PATH; add the Cosmopolitan bin directory to PATH".as_bytes())
}

/// A found tool keeps the name it was found under (Cosmopolitan dispatches
/// on `argv[0]`, so symbolic links are not resolved); a relative one is made
/// absolute against the current directory, which is only needed then.
pub fn needs_current_dir(found: &[u8]) -> (r: bool)
    ensures
        r == !is_absolute(found@),
{
    !path_is_absolute(found)
}

/// The absolute form of a found tool's path.
pub fn absolute_path(found: &[u8], current_dir: &[u8]) -> (r: Vec<u8>)
    ensures
        r@ == (if is_absolute(found@) { found@ } else { join_spec(current_dir@, found@) }),
{
    if path_is_absolute(found) {
        to_vec(found)
    } else {
        join(current_dir, found)
    }
}

} // verus!
