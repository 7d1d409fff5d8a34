//! Unix path joining and the toolchain's view of a Cosmopolitan installation.
use vstd::prelude::*;
use crate::bytes::{concat, push_bytes, to_vec};
use vstd::string::StringSliceAdditionalSpecFns;

verus! {

/// The Unix path separator.
pub const SLASH: u8 = 47;

/// Whether a Unix path is absolute, i.e. starts at the root.
pub open spec fn is_absolute(p: Seq<u8>) -> bool {
    p.len() > 0 && p[0] == SLASH
}

/// Joining a path onto a base, as `PathBuf::push` does on Unix: an absolute
/// path replaces the base; otherwise a separator is inserted unless the base is
/// empty or already ends in one.
pub open spec fn join_spec(base: Seq<u8>, p: Seq<u8>) -> Seq<u8> {
    if is_absolute(p) {
        p
    } else if base.len() > 0 && base.last() != SLASH {
        base + seq![SLASH] + p
    } else {
        base + p
    }
}

/// Whether `p` starts at the root.
pub fn path_is_absolute(p: &[u8]) -> (r: bool)
    ensures
        r == is_absolute(p@),
{
    p.len() > 0 && p[0] == SLASH
}

/// `base` joined with `p`.
pub fn join(base: &[u8], p: &[u8]) -> (r: Vec<u8>)
    ensures
        r@ == join_spec(base@, p@),
{
    if path_is_absolute(p) {
        to_vec(p)
    } else if base.len() > 0 && base[base.len() - 1] != SLASH {
        let mut r = to_vec(base);
        r.push(SLASH);
        push_bytes(&mut r, p);
        r
    } else {
        concat(base, p)
    }
}

/// The tools a build needs: the directory of the Cosmopolitan compiler drivers,
/// and `rustup`, which runs the selected Rust toolchain.
pub struct Toolchain {
    pub bin: Vec<u8>,
    pub rustup: Vec<u8>,
}

/// Name of the architecture-specific Cosmopolitan C compiler driver.
pub open spec fn cc_name(arch: Seq<u8>) -> Seq<u8> {
    arch + "-unknown-cosmo-cc".spec_bytes()
}

/// Name of the architecture-specific Cosmopolitan archiver.
pub open spec fn ar_name(arch: Seq<u8>) -> Seq<u8> {
    arch + "-linux-cosmo-ar".spec_bytes()
}

impl Toolchain {
    /// The file `name` in the Cosmopolitan `bin` directory.
    pub fn path(&self, name: &str) -> (r: Vec<u8>)
        ensures
            r@ == join_spec(self.bin@, name.spec_bytes()),
    {
        join(self.bin.as_slice(), name.as_bytes())
    }

    /// The file with the given byte name in the Cosmopolitan `bin` directory.
    pub fn path_bytes(&self, name: &[u8]) -> (r: Vec<u8>)
        ensures
            r@ == join_spec(self.bin@, name@),
    {
        join(self.bin.as_slice(), name)
    }

    /// The C compiler driver for `arch`.
    pub fn cc(&self, arch: &str) -> (r: Vec<u8>)
        ensures
            r@ == join_spec(self.bin@, cc_name(arch.spec_bytes())),
    {
        let name = concat(arch.as_bytes(), "-unknown-cosmo-cc".as_bytes());
        self.path_bytes(name.as_slice())
    }

    /// The archiver for `arch`.
    pub fn ar(&self, arch: &str) -> (r: Vec<u8>)
        ensures
            r@ == join_spec(self.bin@, ar_name(arch.spec_bytes())),
    {
        let name = concat(arch.as_bytes(), "-linux-cosmo-ar".as_bytes());
        self.path_bytes(name.as_slice())
    }
}

} // verus!
