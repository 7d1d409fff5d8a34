//! The linker adapter: rustc runs this tool as the target linker, and the
//! arguments are filtered before they reach the Cosmopolitan compiler driver.
use vstd::prelude::*;
use vstd::string::StringSliceAdditionalSpecFns;
use crate::bytes::{byte_strings, bytes_eq, to_vec};

verus! {

/// Symbol-stripping flags. `fixupobj` needs the ELF symbol table and
/// `apelink` produces the final image, so stripping is deferred until packaging.
pub open spec fn is_strip_flag(a: Seq<u8>) -> bool {
    ||| a == "-Wl,--strip-all".spec_bytes()
    ||| a == "-Wl,-s".spec_bytes()
    ||| a == "-s".spec_bytes()
}

/// Platform libraries and start-file flags that the Cosmopolitan driver
/// supplies itself.
pub open spec fn is_platform_default(a: Seq<u8>) -> bool {
    ||| a == "-lc".spec_bytes()
    ||| a == "-lpthread".spec_bytes()
    ||| a == "-lm".spec_bytes()
    ||| a == "-lrt".spec_bytes()
    ||| a == "-ldl".spec_bytes()
    ||| a == "-lgcc".spec_bytes()
    ||| a == "-lgcc_s".spec_bytes()
    ||| a == "-lunwind".spec_bytes()
    ||| a == "-lutil".spec_bytes()
    ||| a == "-nodefaultlibs".spec_bytes()
    ||| a == "-nostartfiles".spec_bytes()
    ||| a == "-nostdlib".spec_bytes()
}

/// Arguments that the adapter leaves out.
pub open spec fn is_dropped(a: Seq<u8>) -> bool {
    is_strip_flag(a) || is_platform_default(a)
}

/// Arguments that ask for output this target cannot produce.
pub open spec fn is_refused(a: Seq<u8>) -> bool {
    a == "-pie".spec_bytes() || a == "-shared".spec_bytes()
}

/// The arguments that reach the compiler driver: all but the dropped ones,
/// in their order.
pub open spec fn kept(args: Seq<Seq<u8>>) -> Seq<Seq<u8>> {
    args.filter(|a: Seq<u8>| !is_dropped(a))
}

/// Why a link was refused.
#[derive(Clone, Copy, Debug, PartialEq, Eq, Structural)]
pub enum LinkError {
    /// `-pie` or `-shared` was asked for.
    PieOrShared,
}

impl LinkError {
    /// The message for this refusal.
    pub fn message(&self) -> (r: Vec<u8>)
        ensures
            r@ == "PIE and shared libraries are unsupported by this APE target".spec_bytes(),
    {
        to_vec("PIE and shared libraries are unsupported by this APE target".as_bytes())
    }
}

fn strip_flag(a: &[u8]) -> (r: bool)
    ensures
        r == is_strip_flag(a@),
{
    bytes_eq(a, "-Wl,--strip-all".as_bytes()) || bytes_eq(a, "-Wl,-s".as_bytes()) || bytes_eq(a, "-s".as_bytes())
}

fn platform_default(a: &[u8]) -> (r: bool)
    ensures
        r == is_platform_default(a@),
{
    bytes_eq(a, "-lc".as_bytes()) || bytes_eq(a, "-lpthread".as_bytes()) || bytes_eq(a, "-lm".as_bytes())
        || bytes_eq(a, "-lrt".as_bytes()) || bytes_eq(a, "-ldl".as_bytes()) || bytes_eq(a, "-lgcc".as_bytes())
        || bytes_eq(a, "-lgcc_s".as_bytes()) || bytes_eq(a, "-lunwind".as_bytes())
        || bytes_eq(a, "-lutil".as_bytes()) || bytes_eq(a, "-nodefaultlibs".as_bytes())
        || bytes_eq(a, "-nostartfiles".as_bytes()) || bytes_eq(a, "-nostdlib".as_bytes())
}

/// The linker arguments handed to the Cosmopolitan compiler driver: `Err`
/// exactly when `-pie` or `-shared` is among them, otherwise every argument
/// but the deferred strip flags and the platform defaults, in order.
pub fn link_args(args: &Vec<Vec<u8>>) -> (r: Result<Vec<Vec<u8>>, LinkError>)
    ensures
        match r {
            Ok(out) => !(exists|i: int| 0 <= i < args@.len() && is_refused(#[trigger] args@[i]@))
                && byte_strings(out@) == kept(byte_strings(args@)),
            Err(e) => exists|i: int| 0 <= i < args@.len() && is_refused(#[trigger] args@[i]@),
        },
{
    let ghost all = byte_strings(args@);
    let mut out: Vec<Vec<u8>> = Vec::new();
    let mut i: usize = 0;
    assert(all.take(0).filter(|a: Seq<u8>| !is_dropped(a)) =~= Seq::<Seq<u8>>::empty()) by {
        reveal_with_fuel(Seq::filter, 1);
    }
    while i < args.len()
        invariant
            i <= args@.len(),
            all == byte_strings(args@),
            byte_strings(out@) == all.take(i as int).filter(|a: Seq<u8>| !is_dropped(a)),
            forall|j: int| 0 <= j < i ==> !is_refused(#[trigger] args@[j]@),
        decreases args@.len() - i,
    {
        let a = args[i].as_slice();
        if bytes_eq(a, "-pie".as_bytes()) || bytes_eq(a, "-shared".as_bytes()) {
            assert(is_refused(args@[i as int]@));
            return Err(LinkError::PieOrShared);
        }
        let ghost before = out@;
        assert(all.take(i + 1).drop_last() =~= all.take(i as int));
        if !(strip_flag(a) || platform_default(a)) {
            out.push(to_vec(a));
            assert(byte_strings(out@) =~= byte_strings(before).push(a@));
        }
        proof {
            reveal_with_fuel(Seq::filter, 1);
        }
        i += 1;
    }
    assert(all.take(args@.len() as int) =~= all);
    Ok(out)
}

/// Linking law: after the adapter, no dropped argument remains, and every
/// argument that is not dropped is still present.
pub proof fn law_link_keeps_the_rest(args: Seq<Seq<u8>>)
    ensures
        forall|k: int| 0 <= k < kept(args).len() ==> !is_dropped(#[trigger] kept(args)[k]),
        forall|i: int| 0 <= i < args.len() && !is_dropped(args[i]) ==> kept(args).contains(#[trigger] args[i]),
{
    let f = |a: Seq<u8>| !is_dropped(a);
    assert forall|k: int| 0 <= k < kept(args).len() implies !is_dropped(#[trigger] kept(args)[k]) by {
        args.lemma_filter_pred(f, k);
    }
    assert forall|i: int| 0 <= i < args.len() && !is_dropped(args[i]) implies kept(args).contains(
        #[trigger] args[i],
    ) by {
        args.lemma_filter_contains_rev(f, args[i]);
        assert(args.contains(args[i]));
    }
}

/// The arguments the adapter leaves out, listed: the three strip flags,
/// the nine platform libraries and the three start-file flags.
pub open spec fn listed_linker_drops() -> Set<Seq<u8>> {
    set![
        "-Wl,--strip-all".spec_bytes(), "-Wl,-s".spec_bytes(), "-s".spec_bytes(), "-lc".spec_bytes(),
        "-lpthread".spec_bytes(), "-lm".spec_bytes(), "-lrt".spec_bytes(), "-ldl".spec_bytes(),
        "-lgcc".spec_bytes(), "-lgcc_s".spec_bytes(), "-lunwind".spec_bytes(), "-lutil".spec_bytes(),
        "-nodefaultlibs".spec_bytes(), "-nostartfiles".spec_bytes(), "-nostdlib".spec_bytes()
    ]
}

/// Pass-through law: the adapter leaves out exactly the fifteen listed
/// arguments; every other argument (`-mtiny`, objects, `-o`, libraries of
/// the program) reaches the compiler driver unchanged and in order, and
/// `-pie` or `-shared` refuses the link.
pub proof fn law_link_drops_only_the_listed(args: Seq<Seq<u8>>)
    ensures
        kept(args) == args.filter(|a: Seq<u8>| !listed_linker_drops().contains(a)),
        forall|a: Seq<u8>| is_refused(a) <==> (a == "-pie".spec_bytes() || a == "-shared".spec_bytes()),
{
    let f = |a: Seq<u8>| !is_dropped(a);
    let g = |a: Seq<u8>| !listed_linker_drops().contains(a);
    assert forall|a: Seq<u8>| #[trigger] f(a) == g(a) by {
        assert(is_dropped(a) == listed_linker_drops().contains(a));
    }
    assert(f =~= g);
}

} // verus!
