//! What a preflight checks: the Cosmopolitan installation's files, a nightly
//! Rust toolchain with `rust-src`, and that both C toolchains compile,
//! archive and link a pthread program and that the host Rust toolchain links.
use vstd::prelude::*;
use vstd::string::StringSliceAdditionalSpecFns;
use vstd::utf8::encode_utf8;
use crate::bytes::{byte_strings, concat, contains_bytes, find_bytes, push_bytes, to_vec};
use crate::launch::ToolCommand;
use crate::packaging::{cargo_build_args, metadata_args_spec, push_arg};
use crate::paths::{ar_name, cc_name, join, join_spec, Toolchain};
use crate::target::{arch_name, host_spec_args, Arch};
use crate::text::{trim, trimmed};

verus! {

/// The C program compiled for each architecture: it needs pthreads and
/// fails to build with anything but Cosmopolitan.
pub const PROBE_SOURCE: &'static str = "#include <pthread.h>\n#ifndef __COSMOPOLITAN__\n#error expected Cosmopolitan\n#endif\nint main(void) { return !pthread_equal(pthread_self(), pthread_self()); }\n";

/// The Rust program compiled for the host.
pub const HOST_SOURCE: &'static str = "fn main() {}\n";

/// A file the installation must have, and the complaint if it does not.
pub struct RequiredFile {
    pub path: Vec<u8>,
    pub missing: Vec<u8>,
}

/// The models of a list of required files.
pub open spec fn required_views(s: Seq<RequiredFile>) -> Seq<(Seq<u8>, Seq<u8>)> {
    s.map_values(|f: RequiredFile| (f.path@, f.missing@))
}

/// A shared tool and its complaint.
pub open spec fn shared_entry(bin: Seq<u8>, name: Seq<u8>) -> (Seq<u8>, Seq<u8>) {
    let p = join_spec(bin, name);
    (p, "incomplete Cosmopolitan installation: missing ".spec_bytes() + p)
}

/// An architecture's tool and its complaint.
pub open spec fn arch_entry(bin: Seq<u8>, name: Seq<u8>) -> (Seq<u8>, Seq<u8>) {
    let p = join_spec(bin, name);
    (p, "missing ".spec_bytes() + p)
}

/// How many files a Cosmopolitan installation must hold.
pub const REQUIRED_FILES: usize = 9;

/// The installation's files, in the order they are checked: `apelink`,
/// `pecheck`, both APE loaders and the macOS loader source, then each
/// architecture's C compiler driver and archiver.
pub open spec fn required_files_spec(bin: Seq<u8>) -> Seq<(Seq<u8>, Seq<u8>)> {
    seq![
        shared_entry(bin, "apelink".spec_bytes()),
        shared_entry(bin, "pecheck".spec_bytes()),
        shared_entry(bin, "ape-x86_64.elf".spec_bytes()),
        shared_entry(bin, "ape-aarch64.elf".spec_bytes()),
        shared_entry(bin, "ape-m1.c".spec_bytes()),
        arch_entry(bin, cc_name(arch_name(Arch::X86_64))),
        arch_entry(bin, ar_name(arch_name(Arch::X86_64))),
        arch_entry(bin, cc_name(arch_name(Arch::Aarch64))),
        arch_entry(bin, ar_name(arch_name(Arch::Aarch64)))
    ]
}

fn shared_file(tc: &Toolchain, name: &str) -> (r: RequiredFile)
    ensures
        (r.path@, r.missing@) == shared_entry(tc.bin@, name.spec_bytes()),
{
    let path = tc.path(name);
    let missing = concat("incomplete Cosmopolitan installation: missing ".as_bytes(), path.as_slice());
    RequiredFile { path, missing }
}

fn arch_file(path: Vec<u8>) -> (r: RequiredFile)
    ensures
        r.path@ == path@,
        r.missing@ == "missing ".spec_bytes() + path@,
{
    let missing = concat("missing ".as_bytes(), path.as_slice());
    RequiredFile { path, missing }
}

/// The files the installation must have.
pub fn required_files(tc: &Toolchain) -> (r: Vec<RequiredFile>)
    ensures
        required_views(r@) == required_files_spec(tc.bin@),
        r@.len() == REQUIRED_FILES,
{
    let mut r: Vec<RequiredFile> = Vec::new();
    r.push(shared_file(tc, "apelink"));
    r.push(shared_file(tc, "pecheck"));
    r.push(shared_file(tc, "ape-x86_64.elf"));
    r.push(shared_file(tc, "ape-aarch64.elf"));
    r.push(shared_file(tc, "ape-m1.c"));
    r.push(arch_file(tc.cc(Arch::X86_64.name())));
    r.push(arch_file(tc.ar(Arch::X86_64.name())));
    r.push(arch_file(tc.cc(Arch::Aarch64.name())));
    r.push(arch_file(tc.ar(Arch::Aarch64.name())));
    assert(required_views(r@) =~= required_files_spec(tc.bin@));
    r
}

/// The arguments of `rustup run <toolchain> rustc --version`.
pub open spec fn version_args(toolchain: Seq<u8>) -> Seq<Seq<u8>> {
    seq!["run".spec_bytes(), toolchain, "rustc".spec_bytes(), "--version".spec_bytes()]
}

/// The arguments of `rustup run <toolchain> rustc --print sysroot`.
pub open spec fn sysroot_args(toolchain: Seq<u8>) -> Seq<Seq<u8>> {
    seq!["run".spec_bytes(), toolchain, "rustc".spec_bytes(), "--print".spec_bytes(), "sysroot".spec_bytes()]
}

/// The arguments of the host Rust probe: `rustup run <toolchain> rustc host.rs -o host` in `temp`.
pub open spec fn host_probe_args(toolchain: Seq<u8>, temp: Seq<u8>) -> Seq<Seq<u8>> {
    seq![
        "run".spec_bytes(), toolchain, "rustc".spec_bytes(), join_spec(temp, "host.rs".spec_bytes()),
        "-o".spec_bytes(), join_spec(temp, "host".spec_bytes())
    ]
}

/// `rustup run <toolchain> rustc --version`.
pub fn version_command(tc: &Toolchain, toolchain: &[u8]) -> (r: ToolCommand)
    ensures
        r.program@ == tc.rustup@,
        byte_strings(r.args@) == version_args(toolchain@),
{
    let mut c = tc.rust(toolchain, "rustc");
    push_arg(&mut c.args, "--version".as_bytes());
    assert(byte_strings(c.args@) =~= seq!["run".spec_bytes(), toolchain@, "rustc".spec_bytes(), "--version".spec_bytes()]);
    c
}

/// `rustup run <toolchain> rustc --print sysroot`.
pub fn sysroot_command(tc: &Toolchain, toolchain: &[u8]) -> (r: ToolCommand)
    ensures
        r.program@ == tc.rustup@,
        byte_strings(r.args@) == sysroot_args(toolchain@),
{
    let mut c = tc.rust(toolchain, "rustc");
    push_arg(&mut c.args, "--print".as_bytes());
    push_arg(&mut c.args, "sysroot".as_bytes());
    assert(byte_strings(c.args@) =~= seq![
        "run".spec_bytes(), toolchain@, "rustc".spec_bytes(), "--print".spec_bytes(), "sysroot".spec_bytes()
    ]);
    c
}

/// Why a preflight failed.
#[derive(Clone, Copy, Debug, PartialEq, Eq, Structural)]
pub enum PreflightError {
    /// The toolchain is not a nightly.
    NotNightly,
}

impl PreflightError {
    /// The message for this failure.
    pub fn message(&self) -> (r: Vec<u8>)
        ensures
            r@ == "a nightly Rust toolchain is required (--toolchain nightly)".spec_bytes(),
    {
        to_vec("a nightly Rust toolchain is required (--toolchain nightly)".as_bytes())
    }
}

/// The toolchain must be a nightly: its `rustc --version` mentions `nightly`.
pub fn check_nightly(version: &str) -> (r: Result<(), PreflightError>)
    ensures
        r is Ok <==> contains_bytes(version.spec_bytes(), "nightly".spec_bytes()),
{
    if find_bytes(version.as_bytes(), "nightly".as_bytes()) {
        Ok(())
    } else {
        Err(PreflightError::NotNightly)
    }
}

/// The manifest of `core` in the toolchain's `rust-src`, given the output of
/// `rustc --print sysroot`.
pub fn core_manifest(sysroot: &str) -> (r: Vec<u8>)
    ensures
        r@ == join_spec(encode_utf8(trimmed(sysroot@)), "lib/rustlib/src/rust/library/core/Cargo.toml".spec_bytes()),
{
    let root = trim(sysroot);
    join(root.as_str().as_bytes(), "lib/rustlib/src/rust/library/core/Cargo.toml".as_bytes())
}

/// The complaint when `rust-src` is missing.
pub fn rust_src_missing(toolchain: &[u8]) -> (r: Vec<u8>)
    ensures
        r@ == "rust-src is missing; run: rustup component add rust-src --toolchain ".spec_bytes() + toolchain@,
{
    concat("rust-src is missing; run: rustup component add rust-src --toolchain ".as_bytes(), toolchain)
}

/// The report of the toolchain's version.
pub fn version_report(version: &str) -> (r: Vec<u8>)
    ensures
        r@ == encode_utf8(trimmed(version@)),
{
    to_vec(trim(version).as_str().as_bytes())
}

/// The report of where Cosmopolitan was found.
pub fn cosmopolitan_report(bin: &[u8]) -> (r: Vec<u8>)
    ensures
        r@ == "Cosmopolitan at ".spec_bytes() + bin@,
{
    concat("Cosmopolitan at ".as_bytes(), bin)
}

/// One step of the compile-and-link probes.
pub enum ProbeStep {
    /// Run a program; `via_tool`: start it as a tool (APEs go through the
    /// shell). A failure is reported after `context`, if there is one.
    Run { program: Vec<u8>, args: Vec<Vec<u8>>, via_tool: bool, context: Option<Vec<u8>> },
    /// The file must be an ELF executable, else the failure is `complaint`.
    ExpectElf { path: Vec<u8>, complaint: Vec<u8> },
}

/// The model of a [`ProbeStep`].
pub enum ProbeStepModel {
    Run { program: Seq<u8>, args: Seq<Seq<u8>>, via_tool: bool, context: Option<Seq<u8>> },
    ExpectElf { path: Seq<u8>, complaint: Seq<u8> },
}

/// The models of a list of probe steps.
pub open spec fn probe_views(s: Seq<ProbeStep>) -> Seq<ProbeStepModel> {
    s.map_values(|p: ProbeStep| match p {
        ProbeStep::Run { program, args, via_tool, context } => ProbeStepModel::Run {
            program: program@,
            args: byte_strings(args@),
            via_tool,
            context: match context {
                Some(c) => Some(c@),
                None => None,
            },
        },
        ProbeStep::ExpectElf { path, complaint } => ProbeStepModel::ExpectElf { path: path@, complaint: complaint@ },
    })
}

/// `-mtiny` when the size-optimized runtime is selected.
pub open spec fn tiny_flag(tiny: bool) -> Seq<Seq<u8>> {
    if tiny {
        seq!["-mtiny".spec_bytes()]
    } else {
        Seq::empty()
    }
}

/// The probes of one architecture, in `temp`: compile the probe source to
/// an object, archive it, link it, and check the result is ELF.
pub open spec fn arch_probe_spec(bin: Seq<u8>, temp: Seq<u8>, arch: Arch, tiny: bool) -> Seq<ProbeStepModel> {
    let a = arch_name(arch);
    let cc = join_spec(bin, cc_name(a));
    let source = join_spec(temp, "probe.c".spec_bytes());
    let object = join_spec(temp, a + ".o".spec_bytes());
    let exe = join_spec(temp, a + ".elf".spec_bytes());
    seq![
        ProbeStepModel::Run {
            program: cc,
            args: seq!["-std=c99".spec_bytes(), "-c".spec_bytes(), source, "-o".spec_bytes(), object] + tiny_flag(tiny),
            via_tool: true,
            context: Some(a + " C compiler preflight failed: ".spec_bytes()),
        },
        ProbeStepModel::Run {
            program: join_spec(bin, ar_name(a)),
            args: seq!["crs".spec_bytes(), join_spec(temp, a + ".a".spec_bytes()), object],
            via_tool: true,
            context: None,
        },
        ProbeStepModel::Run {
            program: cc,
            args: seq![object, "-o".spec_bytes(), exe] + tiny_flag(tiny),
            via_tool: true,
            context: Some(a + " linker preflight failed: ".spec_bytes()),
        },
        ProbeStepModel::ExpectElf {
            path: exe,
            complaint: a + " compiler did not produce an ELF executable".spec_bytes(),
        }
    ]
}

fn push_tiny(args: &mut Vec<Vec<u8>>, tiny: bool)
    ensures
        byte_strings(final(args)@) == byte_strings(old(args)@) + tiny_flag(tiny),
{
    if tiny {
        push_arg(args, "-mtiny".as_bytes());
    }
    assert(byte_strings(args@) =~= byte_strings(old(args)@) + tiny_flag(tiny));
}

/// Appends the probes of `arch`.
fn push_arch_probes(steps: &mut Vec<ProbeStep>, tc: &Toolchain, temp: &[u8], arch: Arch, tiny: bool)
    ensures
        probe_views(final(steps)@) == probe_views(old(steps)@) + arch_probe_spec(tc.bin@, temp@, arch, tiny),
{
    let a = arch.name().as_bytes();
    let source = join(temp, "probe.c".as_bytes());
    let object = join(temp, concat(a, ".o".as_bytes()).as_slice());
    let exe = join(temp, concat(a, ".elf".as_bytes()).as_slice());
    let library = join(temp, concat(a, ".a".as_bytes()).as_slice());

    let mut compile: Vec<Vec<u8>> = Vec::new();
    push_arg(&mut compile, "-std=c99".as_bytes());
    push_arg(&mut compile, "-c".as_bytes());
    push_arg(&mut compile, source.as_slice());
    push_arg(&mut compile, "-o".as_bytes());
    push_arg(&mut compile, object.as_slice());
    assert(byte_strings(compile@) =~= seq!["-std=c99".spec_bytes(), "-c".spec_bytes(), source@, "-o".spec_bytes(), object@]);
    push_tiny(&mut compile, tiny);

    let mut archive: Vec<Vec<u8>> = Vec::new();
    push_arg(&mut archive, "crs".as_bytes());
    push_arg(&mut archive, library.as_slice());
    push_arg(&mut archive, object.as_slice());
    assert(byte_strings(archive@) =~= seq!["crs".spec_bytes(), library@, object@]);

    let mut link: Vec<Vec<u8>> = Vec::new();
    push_arg(&mut link, object.as_slice());
    push_arg(&mut link, "-o".as_bytes());
    push_arg(&mut link, exe.as_slice());
    assert(byte_strings(link@) =~= seq![object@, "-o".spec_bytes(), exe@]);
    push_tiny(&mut link, tiny);

    let ghost before = probe_views(steps@);
    steps.push(ProbeStep::Run {
        program: tc.cc(arch.name()),
        args: compile,
        via_tool: true,
        context: Some(concat(a, " C compiler preflight failed: ".as_bytes())),
    });
    steps.push(ProbeStep::Run { program: tc.ar(arch.name()), args: archive, via_tool: true, context: None });
    steps.push(ProbeStep::Run {
        program: tc.cc(arch.name()),
        args: link,
        via_tool: true,
        context: Some(concat(a, " linker preflight failed: ".as_bytes())),
    });
    steps.push(ProbeStep::ExpectElf {
        path: exe,
        complaint: concat(a, " compiler did not produce an ELF executable".as_bytes()),
    });
    let ghost added = arch_probe_spec(tc.bin@, temp@, arch, tiny);
    assert(probe_views(steps@).len() == before.len() + 4);
    assert forall|k: int| 0 <= k < probe_views(steps@).len() implies probe_views(steps@)[k] == (before + added)[k] by {
        if k >= before.len() {
            assert(probe_views(steps@)[k] == added[k - before.len()]);
        }
    }
    assert(probe_views(steps@) =~= before + added);
}

/// The C toolchain probes, in `temp`: x86-64 first, then ARM64.
pub fn probe_steps(tc: &Toolchain, temp: &[u8], tiny: bool) -> (r: Vec<ProbeStep>)
    ensures
        probe_views(r@) == arch_probe_spec(tc.bin@, temp@, Arch::X86_64, tiny) + arch_probe_spec(
            tc.bin@,
            temp@,
            Arch::Aarch64,
            tiny,
        ),
{
    let mut steps: Vec<ProbeStep> = Vec::new();
    assert(probe_views(steps@) =~= Seq::<ProbeStepModel>::empty());
    push_arch_probes(&mut steps, tc, temp, Arch::X86_64, tiny);
    push_arch_probes(&mut steps, tc, temp, Arch::Aarch64, tiny);
    assert(Seq::<ProbeStepModel>::empty() + arch_probe_spec(tc.bin@, temp@, Arch::X86_64, tiny) =~= arch_probe_spec(
        tc.bin@,
        temp@,
        Arch::X86_64,
        tiny,
    ));
    steps
}

/// The host Rust probe: `rustc host.rs -o host` in `temp`.
pub fn host_probe(tc: &Toolchain, toolchain: &[u8], temp: &[u8]) -> (r: ProbeStep)
    ensures
        probe_views(seq![r]) == seq![ProbeStepModel::Run {
            program: tc.rustup@,
            args: host_probe_args(toolchain@, temp@),
            via_tool: false,
            context: Some("host Rust compiler/linker preflight failed: ".spec_bytes()),
        }],
{
    let mut c = tc.rust(toolchain, "rustc");
    push_arg(&mut c.args, join(temp, "host.rs".as_bytes()).as_slice());
    push_arg(&mut c.args, "-o".as_bytes());
    push_arg(&mut c.args, join(temp, "host".as_bytes()).as_slice());
    assert(byte_strings(c.args@) =~= seq![
        "run".spec_bytes(), toolchain@, "rustc".spec_bytes(), join_spec(temp@, "host.rs".spec_bytes()),
        "-o".spec_bytes(), join_spec(temp@, "host".spec_bytes())
    ]);
    let r = ProbeStep::Run {
        program: c.program,
        args: c.args,
        via_tool: false,
        context: Some(to_vec("host Rust compiler/linker preflight failed: ".as_bytes())),
    };
    assert(probe_views(seq![r]) =~= seq![ProbeStepModel::Run {
        program: tc.rustup@,
        args: seq![
            "run".spec_bytes(), toolchain@, "rustc".spec_bytes(), join_spec(temp@, "host.rs".spec_bytes()),
            "-o".spec_bytes(), join_spec(temp@, "host".spec_bytes())
        ],
        via_tool: false,
        context: Some("host Rust compiler/linker preflight failed: ".spec_bytes()),
    }]);
    r
}

/// The report of a failed step: after its context, if it has one.
pub fn step_failure(context: &Option<Vec<u8>>, failure: &[u8]) -> (r: Vec<u8>)
    ensures
        r@ == match context {
            Some(c) => c@ + failure@,
            None => failure@,
        },
{
    match context {
        Some(c) => concat(c.as_slice(), failure),
        None => to_vec(failure),
    }
}

/// The name of the preflight's scratch directory, unique to the process and
/// the moment: `cargo-cosmopolitan-<pid>-<nanoseconds since the epoch>`.
pub fn scratch_dir_name(pid: u32, stamp: u128) -> (r: Vec<u8>)
    ensures
        r@ == "cargo-cosmopolitan-".spec_bytes() + crate::bytes::decimal(pid as nat) + "-".spec_bytes()
            + crate::bytes::decimal(stamp as nat),
{
    let mut r = concat("cargo-cosmopolitan-".as_bytes(), crate::bytes::decimal_bytes(pid as u128).as_slice());
    push_bytes(&mut r, "-".as_bytes());
    push_bytes(&mut r, crate::bytes::decimal_bytes(stamp).as_slice());
    r
}

/// The report once every probe passed.
pub fn passed_report() -> (r: Vec<u8>)
    ensures
        r@ == "preflight passed (host Rust and both C toolchains)".spec_bytes(),
{
    to_vec("preflight passed (host Rust and both C toolchains)".as_bytes())
}

/// The complaint when the compiler driver's path has no directory part.
pub fn no_parent_report() -> (r: Vec<u8>)
    ensures
        r@ == "cosmocc has no parent directory".spec_bytes(),
{
    to_vec("cosmocc has no parent directory".as_bytes())
}

/// Whether a `rustup` command line runs `rustc` or `cargo` of `toolchain`:
/// `run <toolchain> <rustc|cargo> ...`, never a command that installs a
/// toolchain or a component.
pub open spec fn runs_in_toolchain(args: Seq<Seq<u8>>, toolchain: Seq<u8>) -> bool {
    &&& args.len() >= 3
    &&& args[0] == "run".spec_bytes()
    &&& args[1] == toolchain
    &&& (args[2] == "rustc".spec_bytes() || args[2] == "cargo".spec_bytes())
}

/// Local-toolchain law: every `rustup` command the tool makes (the version
/// and sysroot queries, the host probe, the host target specification,
/// `cargo metadata` and `cargo build`) runs a compiler of the selected
/// toolchain with `rustup run`; none installs or downloads anything.
pub proof fn law_rustup_runs_the_selected_toolchain(
    toolchain: Seq<u8>,
    temp: Seq<u8>,
    arch: Arch,
    spec: Seq<u8>,
    root: Seq<u8>,
    cargo: Seq<Seq<u8>>,
)
    ensures
        runs_in_toolchain(version_args(toolchain), toolchain),
        runs_in_toolchain(sysroot_args(toolchain), toolchain),
        runs_in_toolchain(host_probe_args(toolchain, temp), toolchain),
        runs_in_toolchain(host_spec_args(toolchain, arch), toolchain),
        runs_in_toolchain(metadata_args_spec(toolchain, cargo), toolchain),
        runs_in_toolchain(cargo_build_args(toolchain, spec, root, cargo), toolchain),
        version_args(toolchain).drop_first().drop_first() == seq!["rustc".spec_bytes(), "--version".spec_bytes()],
        sysroot_args(toolchain).drop_first().drop_first() == seq![
            "rustc".spec_bytes(), "--print".spec_bytes(), "sysroot".spec_bytes()
        ],
        host_spec_args(toolchain, arch).drop_first().drop_first() == seq![
            "rustc".spec_bytes(), "-Zunstable-options".spec_bytes(), "--print".spec_bytes(),
            "target-spec-json".spec_bytes(), "--target".spec_bytes(), arch_name(arch) + "-unknown-linux-gnu".spec_bytes()
        ],
        metadata_args_spec(toolchain, cargo).subrange(2, 6) == seq![
            "cargo".spec_bytes(), "metadata".spec_bytes(), "--format-version=1".spec_bytes(), "--no-deps".spec_bytes()
        ],
{
    assert(version_args(toolchain).drop_first().drop_first() =~= seq!["rustc".spec_bytes(), "--version".spec_bytes()]);
    assert(sysroot_args(toolchain).drop_first().drop_first() =~= seq![
        "rustc".spec_bytes(), "--print".spec_bytes(), "sysroot".spec_bytes()
    ]);
    assert(host_spec_args(toolchain, arch).drop_first().drop_first() =~= seq![
        "rustc".spec_bytes(), "-Zunstable-options".spec_bytes(), "--print".spec_bytes(),
        "target-spec-json".spec_bytes(), "--target".spec_bytes(), arch_name(arch) + "-unknown-linux-gnu".spec_bytes()
    ]);
    assert(metadata_args_spec(toolchain, cargo).subrange(2, 6) =~= seq![
        "cargo".spec_bytes(), "metadata".spec_bytes(), "--format-version=1".spec_bytes(), "--no-deps".spec_bytes()
    ]);
}

/// Probe law: for each architecture, the C probe compiles `probe.c` with
/// the architecture's Cosmopolitan compiler driver, archives the object
/// with its archiver, links the object with the compiler driver again (the
/// tiny runtime when chosen) and expects an ELF executable.
pub proof fn law_probe_programs(bin: Seq<u8>, temp: Seq<u8>, arch: Arch, tiny: bool)
    ensures
        ({
            let s = arch_probe_spec(bin, temp, arch, tiny);
            let cc = join_spec(bin, arch_name(arch) + "-unknown-cosmo-cc".spec_bytes());
            let ar = join_spec(bin, arch_name(arch) + "-linux-cosmo-ar".spec_bytes());
            let object = join_spec(temp, arch_name(arch) + ".o".spec_bytes());
            let exe = join_spec(temp, arch_name(arch) + ".elf".spec_bytes());
            let mtiny = if tiny { seq!["-mtiny".spec_bytes()] } else { Seq::<Seq<u8>>::empty() };
            &&& s.len() == 4
            &&& s[0] matches ProbeStepModel::Run { program, args, .. } && program == cc && args == seq![
                "-std=c99".spec_bytes(), "-c".spec_bytes(), join_spec(temp, "probe.c".spec_bytes()),
                "-o".spec_bytes(), object
            ] + mtiny
            &&& s[1] matches ProbeStepModel::Run { program, args, .. } && program == ar && args == seq![
                "crs".spec_bytes(), join_spec(temp, arch_name(arch) + ".a".spec_bytes()), object
            ]
            &&& s[2] matches ProbeStepModel::Run { program, args, .. } && program == cc && args == seq![
                object, "-o".spec_bytes(), exe
            ] + mtiny
            &&& s[3] matches ProbeStepModel::ExpectElf { path, .. } && path == exe
        }),
{
}

/// Installation law: a preflight requires exactly these nine files of the
/// Cosmopolitan installation, in this order, and names the missing one:
/// `apelink`, `pecheck`, the two APE loaders and the macOS loader source
/// (an incomplete installation), then the compiler driver and archiver of
/// x86-64 and of ARM64.
pub proof fn law_required_files(bin: Seq<u8>)
    ensures
        ({
            let f = required_files_spec(bin);
            let x86 = arch_name(Arch::X86_64);
            let arm = arch_name(Arch::Aarch64);
            let shared = "incomplete Cosmopolitan installation: missing ".spec_bytes();
            &&& f.len() == 9
            &&& f[0] == (join_spec(bin, "apelink".spec_bytes()), shared + join_spec(bin, "apelink".spec_bytes()))
            &&& f[1] == (join_spec(bin, "pecheck".spec_bytes()), shared + join_spec(bin, "pecheck".spec_bytes()))
            &&& f[2] == (join_spec(bin, "ape-x86_64.elf".spec_bytes()), shared + join_spec(bin, "ape-x86_64.elf".spec_bytes()))
            &&& f[3] == (join_spec(bin, "ape-aarch64.elf".spec_bytes()), shared + join_spec(bin, "ape-aarch64.elf".spec_bytes()))
            &&& f[4] == (join_spec(bin, "ape-m1.c".spec_bytes()), shared + join_spec(bin, "ape-m1.c".spec_bytes()))
            &&& f[5].0 == join_spec(bin, x86 + "-unknown-cosmo-cc".spec_bytes())
            &&& f[6].0 == join_spec(bin, x86 + "-linux-cosmo-ar".spec_bytes())
            &&& f[7].0 == join_spec(bin, arm + "-unknown-cosmo-cc".spec_bytes())
            &&& f[8].0 == join_spec(bin, arm + "-linux-cosmo-ar".spec_bytes())
            &&& forall|i: int| 5 <= i < 9 ==> #[trigger] f[i].1 == "missing ".spec_bytes() + f[i].0
        }),
{
}

} // verus!
