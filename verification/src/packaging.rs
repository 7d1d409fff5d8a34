//! The decisions of a build: how Cargo is invoked for each architecture,
//! what of Cargo's JSON messages is kept, and how the two ELF builds are
//! packaged into one Actually Portable Executable.
use vstd::prelude::*;
use vstd::string::StringSliceAdditionalSpecFns;
use vstd::utf8::encode_utf8;
use crate::artifacts::{keys_of, Artifact, ArtifactKey, ArtifactModel, Artifacts};
use crate::bytes::{byte_strings, bytes_eq, concat, decimal, decimal_bytes, push_bytes, to_vec};
use crate::cli::Options;
use crate::json::{cargo_message_of, cargo_target_directory, json_error_text, json_parses, metadata_target_directory, read_cargo_message};
use crate::launch::{elf_magic, is_elf_magic, ToolCommand};
use crate::paths::{cc_name, join, join_spec, Toolchain};
use crate::target::{arch_name, dashes_to_underscores, spec_file, spec_file_name, target_env_name, target_triple, Arch};

verus! {

/// Appends one argument.
pub fn push_arg(v: &mut Vec<Vec<u8>>, a: &[u8])
    ensures
        byte_strings(final(v)@) == byte_strings(old(v)@).push(a@),
{
    v.push(to_vec(a));
    assert(byte_strings(v@) =~= byte_strings(old(v)@).push(a@));
}

impl Toolchain {
    /// `rustup run <toolchain> <program>`: a tool of the selected Rust toolchain.
    pub fn rust(&self, toolchain: &[u8], program: &str) -> (r: ToolCommand)
        ensures
            r.program@ == self.rustup@,
            byte_strings(r.args@) == seq!["run".spec_bytes(), toolchain@, program.spec_bytes()],
    {
        let mut args: Vec<Vec<u8>> = Vec::new();
        push_arg(&mut args, "run".as_bytes());
        push_arg(&mut args, toolchain);
        push_arg(&mut args, program.as_bytes());
        assert(byte_strings(args@) =~= seq!["run".spec_bytes(), toolchain@, program.spec_bytes()]);
        ToolCommand { program: to_vec(self.rustup.as_slice()), args }
    }
}

/// Whether `p` is the first position of `w` in `s`.
pub open spec fn is_first_index(s: Seq<Seq<u8>>, w: Seq<u8>, p: int) -> bool {
    0 <= p < s.len() && s[p] == w && forall|j: int| 0 <= j < p ==> s[j] != w
}

/// The first position of `--manifest-path` among the Cargo arguments.
pub fn manifest_path_position(cargo: &Vec<Vec<u8>>) -> (r: Option<usize>)
    ensures
        r matches Some(p) ==> is_first_index(byte_strings(cargo@), "--manifest-path".spec_bytes(), p as int),
        r is None ==> !byte_strings(cargo@).contains("--manifest-path".spec_bytes()),
{
    let mut i: usize = 0;
    while i < cargo.len()
        invariant
            i <= cargo@.len(),
            forall|j: int| 0 <= j < i ==> byte_strings(cargo@)[j] != "--manifest-path".spec_bytes(),
        decreases cargo@.len() - i,
    {
        if bytes_eq(cargo[i].as_slice(), "--manifest-path".as_bytes()) {
            return Some(i);
        }
        i += 1;
    }
    proof {
        false_contains(byte_strings(cargo@), "--manifest-path".spec_bytes());
    }
    None
}

proof fn false_contains(s: Seq<Seq<u8>>, w: Seq<u8>)
    requires
        forall|j: int| 0 <= j < s.len() ==> s[j] != w,
    ensures
        !s.contains(w),
{
}

/// The `--manifest-path` and its value, handed to `cargo metadata`: the
/// argument after the first `--manifest-path` must exist, since the pair is
/// taken as a slice of the arguments (as the value of `--bin` it is the last one).
pub open spec fn metadata_args_defined(cargo: Seq<Seq<u8>>) -> bool {
    forall|p: int| is_first_index(cargo, "--manifest-path".spec_bytes(), p) ==> p + 1 < cargo.len()
}

/// The arguments of `cargo metadata`, after `rustup run <toolchain> cargo`.
pub open spec fn metadata_args_spec(toolchain: Seq<u8>, cargo: Seq<Seq<u8>>) -> Seq<Seq<u8>> {
    let base = seq![
        "run".spec_bytes(), toolchain, "cargo".spec_bytes(), "metadata".spec_bytes(),
        "--format-version=1".spec_bytes(), "--no-deps".spec_bytes()
    ];
    if cargo.contains("--manifest-path".spec_bytes()) {
        let p = choose|p: int| is_first_index(cargo, "--manifest-path".spec_bytes(), p);
        base + seq![cargo[p], cargo[p + 1]]
    } else {
        base
    }
}

/// The `cargo metadata` command that finds the build's target directory.
pub fn metadata_command(tc: &Toolchain, opts: &Options) -> (r: ToolCommand)
    requires
        metadata_args_defined(opts@.cargo),
    ensures
        r.program@ == tc.rustup@,
        byte_strings(r.args@) == metadata_args_spec(opts@.toolchain, opts@.cargo),
{
    let mut cmd = tc.rust(opts.toolchain.as_slice(), "cargo");
    push_arg(&mut cmd.args, "metadata".as_bytes());
    push_arg(&mut cmd.args, "--format-version=1".as_bytes());
    push_arg(&mut cmd.args, "--no-deps".as_bytes());
    let ghost cargo = opts@.cargo;
    let ghost base = byte_strings(cmd.args@);
    assert(base =~= seq![
        "run".spec_bytes(), opts@.toolchain, "cargo".spec_bytes(), "metadata".spec_bytes(),
        "--format-version=1".spec_bytes(), "--no-deps".spec_bytes()
    ]);
    match manifest_path_position(&opts.cargo) {
        Some(p) => {
            proof {
                assert(is_first_index(cargo, "--manifest-path".spec_bytes(), p as int));
                assert(p + 1 < cargo.len());
                assert(cargo[p as int] == "--manifest-path".spec_bytes());
                assert(cargo.contains("--manifest-path".spec_bytes()));
                let q = choose|q: int| is_first_index(cargo, "--manifest-path".spec_bytes(), q);
                if q < p {
                    assert(cargo[q] != "--manifest-path".spec_bytes());
                }
                if p < q {
                    assert(cargo[p as int] != "--manifest-path".spec_bytes());
                }
                assert(q == p);
            }
            let n = opts.cargo.len();
            assert(p + 1 < n);
            push_arg(&mut cmd.args, opts.cargo[p].as_slice());
            push_arg(&mut cmd.args, opts.cargo[p + 1].as_slice());
            assert(byte_strings(cmd.args@) =~= base + seq![cargo[p as int], cargo[p + 1]]);
        },
        None => {},
    }
    cmd
}

/// Why a build failed.
pub enum BuildError {
    /// `cargo metadata` printed something that is not JSON; the parser's message.
    InvalidMetadata(String),
    /// `cargo metadata` named no target directory.
    NoTargetDirectory,
    /// An executable artifact without a target name.
    ArtifactHasNoName,
    /// Cargo failed for this architecture.
    CargoFailed(Arch),
    /// The build produced no executable.
    NoExecutable,
    /// A built executable is not an ELF file.
    NotElf(Vec<u8>),
    /// The two architectures produced different executables.
    DifferentTargets,
    /// Two executables share this name.
    DuplicateName(Vec<u8>),
}

impl BuildError {
    /// The message for this failure.
    pub fn message(&self) -> (r: Vec<u8>)
        ensures
            self matches BuildError::InvalidMetadata(t) ==> r@ == encode_utf8(t@),
            self is NoTargetDirectory ==> r@ == "Cargo did not report a target directory".spec_bytes(),
            self is ArtifactHasNoName ==> r@ == "artifact has no name".spec_bytes(),
            self matches BuildError::CargoFailed(a) ==> r@ == arch_name(*a) + " Cargo build failed".spec_bytes(),
            self is NoExecutable ==> r@ == "no executable selected; use --bin NAME or --example NAME".spec_bytes(),
            self matches BuildError::NotElf(p) ==> r@ == "expected an ELF executable at ".spec_bytes() + p@,
            self is DifferentTargets ==> r@ == "the two architecture builds produced different executable targets".spec_bytes(),
            self matches BuildError::DuplicateName(n) ==> r@ == "multiple executables named ".spec_bytes() + n@
                + "; select one package/target".spec_bytes(),
    {
        match self {
            BuildError::InvalidMetadata(t) => to_vec(t.as_str().as_bytes()),
            BuildError::NoTargetDirectory => to_vec("Cargo did not report a target directory".as_bytes()),
            BuildError::ArtifactHasNoName => to_vec("artifact has no name".as_bytes()),
            BuildError::CargoFailed(a) => concat(a.name().as_bytes(), " Cargo build failed".as_bytes()),
            BuildError::NoExecutable => to_vec("no executable selected; use --bin NAME or --example NAME".as_bytes()),
            BuildError::NotElf(p) => concat("expected an ELF executable at ".as_bytes(), p.as_slice()),
            BuildError::DifferentTargets => to_vec(
                "the two architecture builds produced different executable targets".as_bytes(),
            ),
            BuildError::DuplicateName(n) => {
                let mut r = concat("multiple executables named ".as_bytes(), n.as_slice());
                push_bytes(&mut r, "; select one package/target".as_bytes());
                r
            },
        }
    }
}

/// Where the tool keeps its build: `<target dir>/cosmopolitan`.
pub fn cosmopolitan_root(target_directory: Option<String>) -> (r: Result<Vec<u8>, BuildError>)
    ensures
        target_directory is None <==> r matches Err(BuildError::NoTargetDirectory),
        r is Ok <==> target_directory is Some,
        r matches Ok(root) ==> root@ == join_spec(encode_utf8(target_directory->0@), "cosmopolitan".spec_bytes()),
{
    match target_directory {
        Some(dir) => Ok(join(dir.as_str().as_bytes(), "cosmopolitan".as_bytes())),
        None => Err(BuildError::NoTargetDirectory),
    }
}

/// The build root from `cargo metadata`'s JSON output: `InvalidMetadata`
/// exactly when the output is not JSON, `NoTargetDirectory` when it names no
/// target directory, else `<target directory>/cosmopolitan`.
pub fn target_root(metadata: &[u8]) -> (r: Result<Vec<u8>, BuildError>)
    ensures
        (r matches Err(BuildError::InvalidMetadata(_))) == !json_parses(metadata@),
        (r matches Err(BuildError::NoTargetDirectory)) == (json_parses(metadata@)
            && cargo_target_directory(metadata@) is None),
        (r is Ok) == (json_parses(metadata@) && cargo_target_directory(metadata@) is Some),
        r matches Ok(root) ==> json_parses(metadata@) && cargo_target_directory(metadata@) is Some
            && root@ == join_spec(encode_utf8(cargo_target_directory(metadata@)->0), "cosmopolitan".spec_bytes()),
{
    match metadata_target_directory(metadata) {
        Ok(dir) => cosmopolitan_root(dir),
        Err(e) => Err(BuildError::InvalidMetadata(json_error_text(&e))),
    }
}

/// The directory holding the generated target specifications.
pub fn specs_dir(root: &[u8]) -> (r: Vec<u8>)
    ensures
        r@ == join_spec(root@, "targets".spec_bytes()),
{
    join(root, "targets".as_bytes())
}

/// The target specification file for `arch` in the specifications directory.
pub fn spec_path(specs: &[u8], arch: Arch) -> (r: Vec<u8>)
    ensures
        r@ == join_spec(specs@, spec_file_name(arch)),
{
    join(specs, spec_file(arch).as_slice())
}

/// The launcher standing in for the archiver of `arch` (`cc-rs` executes
/// `AR` directly, but the archiver may itself be an APE).
pub fn ar_launcher_path(specs: &[u8], arch: Arch) -> (r: Vec<u8>)
    ensures
        r@ == join_spec(specs@, arch_name(arch) + "-ar".spec_bytes()),
{
    join(specs, concat(arch.name().as_bytes(), "-ar".as_bytes()).as_slice())
}

/// An environment variable set for a command.
pub struct EnvVar {
    pub name: Vec<u8>,
    pub value: Vec<u8>,
}

/// The models of a list of environment variables.
pub open spec fn env_views(s: Seq<EnvVar>) -> Seq<(Seq<u8>, Seq<u8>)> {
    s.map_values(|e: EnvVar| (e.name@, e.value@))
}

/// A Cargo build of one architecture: the command and its environment.
pub struct CargoBuild {
    pub command: ToolCommand,
    pub env: Vec<EnvVar>,
}

/// The arguments of the Cargo build, after `rustup`: the custom target,
/// `core` and `alloc` rebuilt, JSON messages, aborting panics in both profiles,
/// then the user's Cargo arguments.
pub open spec fn cargo_build_args(toolchain: Seq<u8>, spec: Seq<u8>, root: Seq<u8>, cargo: Seq<Seq<u8>>) -> Seq<Seq<u8>> {
    seq![
        "run".spec_bytes(), toolchain, "cargo".spec_bytes(), "build".spec_bytes(),
        "-Zbuild-std=core,alloc".spec_bytes(), "-Zbuild-std-features=".spec_bytes(),
        "--message-format=json-render-diagnostics".spec_bytes(), "--target".spec_bytes(), spec,
        "--target-dir".spec_bytes(), root, "--config".spec_bytes(),
        "profile.dev.panic=\"abort\"".spec_bytes(), "--config".spec_bytes(),
        "profile.release.panic=\"abort\"".spec_bytes()
    ] + cargo
}

/// The environment of the Cargo build: C dependencies of the target are
/// built with Cosmopolitan, rustc links through this tool, and `--tiny`
/// reaches C code too.
pub open spec fn cargo_build_env(bin: Seq<u8>, arch: Arch, ar: Seq<u8>, tiny: bool) -> Seq<(Seq<u8>, Seq<u8>)> {
    let t = dashes_to_underscores(target_triple(arch));
    let cc = join_spec(bin, cc_name(arch_name(arch)));
    let base = seq![
        ("CC_".spec_bytes() + t, cc),
        ("AR_".spec_bytes() + t, ar),
        ("CARGO_COSMO_LINK_CC".spec_bytes(), cc)
    ];
    if tiny {
        base.push(("CFLAGS_".spec_bytes() + t, "-mtiny".spec_bytes()))
    } else {
        base
    }
}

/// The Cargo build for `arch`.
pub fn cargo_build(tc: &Toolchain, opts: &Options, arch: Arch, spec: &[u8], root: &[u8], ar: &[u8]) -> (r: CargoBuild)
    ensures
        r.command.program@ == tc.rustup@,
        byte_strings(r.command.args@) == cargo_build_args(opts@.toolchain, spec@, root@, opts@.cargo),
        env_views(r.env@) == cargo_build_env(tc.bin@, arch, ar@, opts.tiny),
{
    let mut cmd = tc.rust(opts.toolchain.as_slice(), "cargo");
    push_arg(&mut cmd.args, "build".as_bytes());
    push_arg(&mut cmd.args, "-Zbuild-std=core,alloc".as_bytes());
    push_arg(&mut cmd.args, "-Zbuild-std-features=".as_bytes());
    push_arg(&mut cmd.args, "--message-format=json-render-diagnostics".as_bytes());
    push_arg(&mut cmd.args, "--target".as_bytes());
    push_arg(&mut cmd.args, spec);
    push_arg(&mut cmd.args, "--target-dir".as_bytes());
    push_arg(&mut cmd.args, root);
    push_arg(&mut cmd.args, "--config".as_bytes());
    push_arg(&mut cmd.args, "profile.dev.panic=\"abort\"".as_bytes());
    push_arg(&mut cmd.args, "--config".as_bytes());
    push_arg(&mut cmd.args, "profile.release.panic=\"abort\"".as_bytes());
    let ghost fixed = byte_strings(cmd.args@);
    let mut i: usize = 0;
    while i < opts.cargo.len()
        invariant
            i <= opts.cargo@.len(),
            byte_strings(cmd.args@) == fixed + byte_strings(opts.cargo@).take(i as int),
            cmd.program@ == tc.rustup@,
        decreases opts.cargo@.len() - i,
    {
        push_arg(&mut cmd.args, opts.cargo[i].as_slice());
        assert(byte_strings(opts.cargo@).take(i + 1) =~= byte_strings(opts.cargo@).take(i as int).push(
            opts.cargo@[i as int]@,
        ));
        i += 1;
    }
    assert(byte_strings(opts.cargo@).take(opts.cargo@.len() as int) =~= byte_strings(opts.cargo@));
    assert(byte_strings(cmd.args@) =~= cargo_build_args(opts@.toolchain, spec@, root@, opts@.cargo));

    let t = target_env_name(arch);
    let cc = tc.cc(arch.name());
    let mut env: Vec<EnvVar> = Vec::new();
    env.push(EnvVar { name: concat("CC_".as_bytes(), t.as_slice()), value: to_vec(cc.as_slice()) });
    env.push(EnvVar { name: concat("AR_".as_bytes(), t.as_slice()), value: to_vec(ar) });
    env.push(EnvVar { name: to_vec("CARGO_COSMO_LINK_CC".as_bytes()), value: to_vec(cc.as_slice()) });
    if opts.tiny {
        env.push(EnvVar { name: concat("CFLAGS_".as_bytes(), t.as_slice()), value: to_vec("-mtiny".as_bytes()) });
    }
    assert(env_views(env@) =~= cargo_build_env(tc.bin@, arch, ar@, opts.tiny));
    CargoBuild { command: cmd, env }
}

/// The fields of one of Cargo's JSON messages that the build reads.
pub struct CargoMessage {
    pub reason: Option<String>,
    pub executable: Option<String>,
    /// The first target kind.
    pub kind: Option<String>,
    /// The target name.
    pub name: Option<String>,
    /// The package id, as JSON text.
    pub package_id: String,
    /// The rendered diagnostic of a `compiler-message`.
    pub rendered: Option<String>,
}

/// The model of a [`CargoMessage`].
pub struct CargoMessageModel {
    pub reason: Option<Seq<char>>,
    pub executable: Option<Seq<char>>,
    pub kind: Option<Seq<char>>,
    pub name: Option<Seq<char>>,
    pub package_id: Seq<char>,
    pub rendered: Option<Seq<char>>,
}

/// The text of an optional string.
pub open spec fn opt_text(s: Option<String>) -> Option<Seq<char>> {
    match s {
        Some(t) => Some(t@),
        None => None,
    }
}

impl View for CargoMessage {
    type V = CargoMessageModel;

    open spec fn view(&self) -> CargoMessageModel {
        CargoMessageModel {
            reason: opt_text(self.reason),
            executable: opt_text(self.executable),
            kind: opt_text(self.kind),
            name: opt_text(self.name),
            package_id: self.package_id@,
            rendered: opt_text(self.rendered),
        }
    }
}

/// The model of an optional message.
pub open spec fn cargo_message_view(m: Option<CargoMessage>) -> Option<CargoMessageModel> {
    match m {
        Some(x) => Some(x@),
        None => None,
    }
}

/// The UTF-8 bytes of an optional text.
pub open spec fn opt_bytes(s: Option<Seq<char>>) -> Option<Seq<u8>> {
    match s {
        Some(t) => Some(encode_utf8(t)),
        None => None,
    }
}

/// What one line of Cargo's output means for the build.
pub enum LineEvent {
    /// An executable was built.
    Built(Artifact),
    /// A rendered compiler diagnostic, printed as it is.
    Show(Vec<u8>),
    /// A line that is not JSON, printed as a line of its own.
    Echo(Vec<u8>),
    /// Nothing to do.
    Nothing,
}

/// The model of a [`LineEvent`].
pub enum LineEventModel {
    Built(ArtifactModel),
    Show(Seq<u8>),
    Echo(Seq<u8>),
    Nothing,
}

/// The model of a line's meaning.
pub open spec fn line_event_view(r: Result<LineEvent, BuildError>) -> Result<LineEventModel, ()> {
    match r {
        Ok(LineEvent::Built(a)) => Ok(LineEventModel::Built(a@)),
        Ok(LineEvent::Show(t)) => Ok(LineEventModel::Show(t@)),
        Ok(LineEvent::Echo(t)) => Ok(LineEventModel::Echo(t@)),
        Ok(LineEvent::Nothing) => Ok(LineEventModel::Nothing),
        Err(_) => Err(()),
    }
}

/// The meaning of a line of Cargo's output: a `compiler-artifact` with an
/// executable of a `bin` or `example` target is a built executable (it must
/// have a name); a `compiler-message` shows its rendered text; a line that is
/// not JSON is echoed; anything else is ignored.
pub open spec fn line_event_spec(line: Seq<u8>, message: Option<CargoMessageModel>) -> Result<LineEventModel, ()> {
    match message {
        None => Ok(LineEventModel::Echo(line)),
        Some(m) => if opt_bytes(m.reason) == Some("compiler-artifact".spec_bytes()) {
            match opt_bytes(m.executable) {
                Some(exe) => {
                    let kind = match opt_bytes(m.kind) {
                        Some(k) => k,
                        None => Seq::empty(),
                    };
                    if kind == "bin".spec_bytes() || kind == "example".spec_bytes() {
                        match opt_bytes(m.name) {
                            Some(name) => Ok(LineEventModel::Built(((encode_utf8(m.package_id), kind, name), exe))),
                            None => Err(()),
                        }
                    } else {
                        Ok(LineEventModel::Nothing)
                    }
                },
                None => Ok(LineEventModel::Nothing),
            }
        } else if opt_bytes(m.reason) == Some("compiler-message".spec_bytes()) {
            match opt_bytes(m.rendered) {
                Some(t) => Ok(LineEventModel::Show(t)),
                None => Ok(LineEventModel::Nothing),
            }
        } else {
            Ok(LineEventModel::Nothing)
        },
    }
}

fn opt_is(s: &Option<String>, word: &str) -> (r: bool)
    ensures
        r == (opt_bytes(opt_text(*s)) == Some(word.spec_bytes())),
{
    match s {
        Some(t) => bytes_eq(t.as_str().as_bytes(), word.as_bytes()),
        None => false,
    }
}

fn opt_to_vec(s: &Option<String>) -> (r: Option<Vec<u8>>)
    ensures
        match r {
            Some(v) => opt_bytes(opt_text(*s)) == Some(v@),
            None => s is None,
        },
{
    match s {
        Some(t) => Some(to_vec(t.as_str().as_bytes())),
        None => None,
    }
}

/// The meaning of a line of Cargo's output (`message`: the line as read by
/// [`read_line`]). The only failure is an executable without a name.
pub fn line_event(line: &str, message: Option<CargoMessage>) -> (r: Result<LineEvent, BuildError>)
    ensures
        line_event_view(r) == line_event_spec(line.spec_bytes(), cargo_message_view(message)),
        r matches Err(e) ==> e is ArtifactHasNoName,
{
    match message {
        None => Ok(LineEvent::Echo(to_vec(line.as_bytes()))),
        Some(m) => {
            if opt_is(&m.reason, "compiler-artifact") {
                match opt_to_vec(&m.executable) {
                    Some(exe) => {
                        let kind = match opt_to_vec(&m.kind) {
                            Some(k) => k,
                            None => Vec::new(),
                        };
                        assert(kind@ == (match opt_bytes(opt_text(m.kind)) {
                            Some(k) => k,
                            None => Seq::<u8>::empty(),
                        }));
                        if bytes_eq(kind.as_slice(), "bin".as_bytes()) || bytes_eq(kind.as_slice(), "example".as_bytes()) {
                            match opt_to_vec(&m.name) {
                                Some(name) => {
                                    let key = ArtifactKey {
                                        package: to_vec(m.package_id.as_str().as_bytes()),
                                        kind,
                                        name,
                                    };
                                    Ok(LineEvent::Built(Artifact { key, path: exe }))
                                },
                                None => Err(BuildError::ArtifactHasNoName),
                            }
                        } else {
                            Ok(LineEvent::Nothing)
                        }
                    },
                    None => Ok(LineEvent::Nothing),
                }
            } else if opt_is(&m.reason, "compiler-message") {
                match opt_to_vec(&m.rendered) {
                    Some(t) => Ok(LineEvent::Show(t)),
                    None => Ok(LineEvent::Nothing),
                }
            } else {
                Ok(LineEvent::Nothing)
            }
        },
    }
}

/// Reads one line of Cargo's JSON output: the fields the build looks at,
/// `None` when the line is not JSON.
pub fn read_line(line: &str) -> (r: Option<CargoMessage>)
    ensures
        cargo_message_view(r) == cargo_message_of(line@),
{
    read_cargo_message(line)
}

/// The outcome of one architecture's Cargo build: it must have succeeded
/// and produced an executable.
pub fn finish_arch_build(arch: Arch, success: bool, built: &Artifacts) -> (r: Result<(), BuildError>)
    ensures
        !success ==> (r matches Err(BuildError::CargoFailed(a)) && a == arch),
        success && built@.len() == 0 ==> r matches Err(BuildError::NoExecutable),
        r is Ok <==> success && built@.len() > 0,
{
    if !success {
        Err(BuildError::CargoFailed(arch))
    } else if built.len() == 0 {
        Err(BuildError::NoExecutable)
    } else {
        Ok(())
    }
}

/// A built executable must be an ELF file (`magic`: its first four bytes).
pub fn check_elf(path: &[u8], magic: &[u8; 4]) -> (r: Result<(), BuildError>)
    ensures
        r is Ok <==> is_elf_magic(magic@),
        r matches Err(e) ==> (e matches BuildError::NotElf(p) && p@ == path@),
{
    if elf_magic(magic) {
        Ok(())
    } else {
        Err(BuildError::NotElf(to_vec(path)))
    }
}

/// Both architectures must have built the same executables.
pub fn check_same_targets(x86: &Artifacts, arm: &Artifacts) -> (r: Result<(), BuildError>)
    ensures
        r is Ok <==> keys_of(x86@) == keys_of(arm@),
        r matches Err(e) ==> e is DifferentTargets,
{
    if x86.same_keys(arm) {
        Ok(())
    } else {
        Err(BuildError::DifferentTargets)
    }
}

/// Each output name must be used once: the executable at position `i` may
/// not share its name with an earlier one.
pub fn check_unique_name(built: &Artifacts, i: usize) -> (r: Result<(), BuildError>)
    requires
        i < built@.len(),
    ensures
        r is Ok <==> !exists|j: int| 0 <= j < i && (#[trigger] built@[j]).0.2 == built@[i as int].0.2,
        r matches Err(e) ==> (e matches BuildError::DuplicateName(n) && n@ == built@[i as int].0.2),
{
    if built.name_seen_before(i) {
        Err(BuildError::DuplicateName(to_vec(built.get(i).key.name.as_slice())))
    } else {
        Ok(())
    }
}

/// Where the finished executables go: `<root>/release` or `<root>/debug`.
pub fn output_dir(root: &[u8], release: bool) -> (r: Vec<u8>)
    ensures
        r@ == join_spec(root@, if release { "release".spec_bytes() } else { "debug".spec_bytes() }),
{
    if release {
        join(root, "release".as_bytes())
    } else {
        join(root, "debug".as_bytes())
    }
}

/// How one executable is packaged.
pub struct PackagePlan {
    /// The finished APE, `<name>.com`.
    pub destination: Vec<u8>,
    /// Where `apelink` writes before the result replaces the destination.
    pub temporary: Vec<u8>,
    /// The arguments of `apelink`.
    pub apelink_args: Vec<Vec<u8>>,
}

/// The file name of a finished executable.
pub open spec fn ape_file_name(name: Seq<u8>) -> Seq<u8> {
    name + ".com".spec_bytes()
}

/// The name of the temporary file, unique to this process.
pub open spec fn temporary_file_name(name: Seq<u8>, pid: u32) -> Seq<u8> {
    ".".spec_bytes() + name + "-".spec_bytes() + decimal(pid as nat) + ".tmp".spec_bytes()
}

/// The arguments of `apelink`: both loaders, the macOS ARM64 loader source,
/// the output, then the x86-64 and ARM64 ELF executables.
pub open spec fn apelink_args_spec(bin: Seq<u8>, temporary: Seq<u8>, x86: Seq<u8>, arm: Seq<u8>) -> Seq<Seq<u8>> {
    seq![
        "-V".spec_bytes(), "-1".spec_bytes(), "-l".spec_bytes(),
        join_spec(bin, "ape-x86_64.elf".spec_bytes()), "-l".spec_bytes(),
        join_spec(bin, "ape-aarch64.elf".spec_bytes()), "-M".spec_bytes(),
        join_spec(bin, "ape-m1.c".spec_bytes()), "-o".spec_bytes(), temporary, x86, arm
    ]
}

/// How the executable `name`, built at `x86` and `arm`, is packaged into
/// `outdir` by process `pid`.
pub fn package_plan(tc: &Toolchain, outdir: &[u8], name: &[u8], pid: u32, x86: &[u8], arm: &[u8]) -> (r: PackagePlan)
    ensures
        r.destination@ == join_spec(outdir@, ape_file_name(name@)),
        r.temporary@ == join_spec(outdir@, temporary_file_name(name@, pid)),
        byte_strings(r.apelink_args@) == apelink_args_spec(tc.bin@, r.temporary@, x86@, arm@),
{
    let destination = join(outdir, concat(name, ".com".as_bytes()).as_slice());
    let mut tmp_name = concat(".".as_bytes(), name);
    push_bytes(&mut tmp_name, "-".as_bytes());
    push_bytes(&mut tmp_name, decimal_bytes(pid as u128).as_slice());
    push_bytes(&mut tmp_name, ".tmp".as_bytes());
    let temporary = join(outdir, tmp_name.as_slice());
    let mut args: Vec<Vec<u8>> = Vec::new();
    push_arg(&mut args, "-V".as_bytes());
    push_arg(&mut args, "-1".as_bytes());
    push_arg(&mut args, "-l".as_bytes());
    push_arg(&mut args, tc.path("ape-x86_64.elf").as_slice());
    push_arg(&mut args, "-l".as_bytes());
    push_arg(&mut args, tc.path("ape-aarch64.elf").as_slice());
    push_arg(&mut args, "-M".as_bytes());
    push_arg(&mut args, tc.path("ape-m1.c").as_slice());
    push_arg(&mut args, "-o".as_bytes());
    push_arg(&mut args, temporary.as_slice());
    push_arg(&mut args, x86);
    push_arg(&mut args, arm);
    assert(byte_strings(args@) =~= apelink_args_spec(tc.bin@, temporary@, x86@, arm@));
    PackagePlan { destination, temporary, apelink_args: args }
}

/// The report of a finished executable: `<path> (<size> bytes, x86_64 + aarch64)`.
pub fn packaged_message(destination: &[u8], size: u64) -> (r: Vec<u8>)
    ensures
        r@ == destination@ + " (".spec_bytes() + decimal(size as nat) + " bytes, x86_64 + aarch64)".spec_bytes(),
{
    let mut r = concat(destination, " (".as_bytes());
    push_bytes(&mut r, decimal_bytes(size as u128).as_slice());
    push_bytes(&mut r, " bytes, x86_64 + aarch64)".as_bytes());
    r
}

/// The progress report before an architecture is built: `building <arch>`.
pub fn building_message(arch: Arch) -> (r: Vec<u8>)
    ensures
        r@ == "building ".spec_bytes() + arch_name(arch),
{
    concat("building ".as_bytes(), arch.name().as_bytes())
}

/// Build-environment law: for either architecture and whatever the tiny
/// choice, Cargo's environment makes rustc link through this tool in link
/// mode with the architecture's Cosmopolitan compiler driver
/// (`CARGO_COSMO_LINK_CC=<bin>/<arch>-unknown-cosmo-cc`), builds C
/// dependencies with that driver and the given archiver, and `--tiny` adds
/// exactly one entry, `CFLAGS_<target>=-mtiny`.
pub proof fn law_build_environment(bin: Seq<u8>, arch: Arch, ar: Seq<u8>, tiny: bool)
    ensures
        cargo_build_env(bin, arch, ar, tiny).contains(
            ("CARGO_COSMO_LINK_CC".spec_bytes(), join_spec(bin, arch_name(arch) + "-unknown-cosmo-cc".spec_bytes())),
        ),
        cargo_build_env(bin, arch, ar, tiny).contains(
            (
                "CC_".spec_bytes() + dashes_to_underscores(arch_name(arch) + "-unknown-cosmopolitan".spec_bytes()),
                join_spec(bin, arch_name(arch) + "-unknown-cosmo-cc".spec_bytes()),
            ),
        ),
        cargo_build_env(bin, arch, ar, tiny).contains(
            ("AR_".spec_bytes() + dashes_to_underscores(arch_name(arch) + "-unknown-cosmopolitan".spec_bytes()), ar),
        ),
        cargo_build_env(bin, arch, ar, false).len() == 3,
        cargo_build_env(bin, arch, ar, true) == cargo_build_env(bin, arch, ar, false).push(
            (
                "CFLAGS_".spec_bytes() + dashes_to_underscores(arch_name(arch) + "-unknown-cosmopolitan".spec_bytes()),
                "-mtiny".spec_bytes(),
            ),
        ),
{
    let e = cargo_build_env(bin, arch, ar, tiny);
    assert(e[0].1 == join_spec(bin, arch_name(arch) + "-unknown-cosmo-cc".spec_bytes()));
    assert(e[0] == e[0]);
    assert(e[1] == e[1]);
    assert(e[2] == e[2]);
}

/// Cargo-command law: the build runs `cargo build` of the selected
/// toolchain for the custom target file into the tool's target directory,
/// rebuilding `core` and `alloc`, with JSON messages and aborting panics in
/// both profiles, and the user's Cargo arguments come last, unchanged.
pub proof fn law_cargo_build_command(toolchain: Seq<u8>, spec: Seq<u8>, root: Seq<u8>, cargo: Seq<Seq<u8>>)
    ensures
        ({
            let a = cargo_build_args(toolchain, spec, root, cargo);
            &&& a.len() >= cargo.len()
            &&& a.subrange(a.len() - cargo.len(), a.len() as int) == cargo
            &&& a[0] == "run".spec_bytes() && a[1] == toolchain
            &&& a[2] == "cargo".spec_bytes() && a[3] == "build".spec_bytes()
            &&& a.contains("-Zbuild-std=core,alloc".spec_bytes())
            &&& a.contains("--message-format=json-render-diagnostics".spec_bytes())
            &&& a.contains("profile.dev.panic=\"abort\"".spec_bytes())
            &&& a.contains("profile.release.panic=\"abort\"".spec_bytes())
            &&& exists|i: int| 0 <= i && i + 1 < a.len() && #[trigger] a[i] == "--target".spec_bytes() && a[i + 1] == spec
            &&& exists|i: int| 0 <= i && i + 1 < a.len() && #[trigger] a[i] == "--target-dir".spec_bytes() && a[i + 1] == root
        }),
{
    let a = cargo_build_args(toolchain, spec, root, cargo);
    assert(a.subrange(a.len() - cargo.len(), a.len() as int) =~= cargo);
    assert(a[4] == "-Zbuild-std=core,alloc".spec_bytes());
    assert(a[6] == "--message-format=json-render-diagnostics".spec_bytes());
    assert(a[12] == "profile.dev.panic=\"abort\"".spec_bytes());
    assert(a[14] == "profile.release.panic=\"abort\"".spec_bytes());
    assert(a[7] == "--target".spec_bytes() && a[8] == spec);
    assert(a[9] == "--target-dir".spec_bytes() && a[10] == root);
}

/// Packaging-command law: `apelink` gets both APE loaders (each after
/// `-l`), the macOS ARM64 loader source (after `-M`), writes the temporary
/// file (after `-o`) and takes the x86-64 executable, then the ARM64 one,
/// last; and the temporary file is never the destination.
pub proof fn law_apelink_command(bin: Seq<u8>, temporary: Seq<u8>, x86: Seq<u8>, arm: Seq<u8>, name: Seq<u8>, pid: u32)
    ensures
        ({
            let a = apelink_args_spec(bin, temporary, x86, arm);
            &&& a.len() >= 2 && a[a.len() - 2] == x86 && a[a.len() - 1] == arm
            &&& exists|i: int| 0 <= i && i + 1 < a.len() && #[trigger] a[i] == "-l".spec_bytes()
                && a[i + 1] == join_spec(bin, "ape-x86_64.elf".spec_bytes())
            &&& exists|i: int| 0 <= i && i + 1 < a.len() && #[trigger] a[i] == "-l".spec_bytes()
                && a[i + 1] == join_spec(bin, "ape-aarch64.elf".spec_bytes())
            &&& exists|i: int| 0 <= i && i + 1 < a.len() && #[trigger] a[i] == "-M".spec_bytes()
                && a[i + 1] == join_spec(bin, "ape-m1.c".spec_bytes())
            &&& exists|i: int| 0 <= i && i + 1 < a.len() && #[trigger] a[i] == "-o".spec_bytes() && a[i + 1] == temporary
        }),
        ape_file_name(name) == name + ".com".spec_bytes(),
        temporary_file_name(name, pid) != ape_file_name(name),
{
    let a = apelink_args_spec(bin, temporary, x86, arm);
    assert(a[2] == "-l".spec_bytes() && a[3] == join_spec(bin, "ape-x86_64.elf".spec_bytes()));
    assert(a[4] == "-l".spec_bytes() && a[5] == join_spec(bin, "ape-aarch64.elf".spec_bytes()));
    assert(a[6] == "-M".spec_bytes() && a[7] == join_spec(bin, "ape-m1.c".spec_bytes()));
    assert(a[8] == "-o".spec_bytes() && a[9] == temporary);
    reveal_strlit(".");
    reveal_strlit("-");
    reveal_strlit(".tmp");
    reveal_strlit(".com");
    reveal_with_fuel(encode_utf8, 5);
    assert(".".spec_bytes().len() == 1);
    assert("-".spec_bytes().len() == 1);
    assert(".tmp"@.drop_first().drop_first().drop_first().drop_first() =~= Seq::<char>::empty());
    assert(".com"@.drop_first().drop_first().drop_first().drop_first() =~= Seq::<char>::empty());
    assert(".tmp".spec_bytes().len() == 4);
    assert(".com".spec_bytes().len() == 4);
    assert(temporary_file_name(name, pid).len() > ape_file_name(name).len());
}

/// Cargo-message law: a line that is not JSON is echoed as it is; a
/// `compiler-artifact` of a `bin` or `example` target with an executable
/// and a name records that executable under its package, kind and name; one
/// of another kind (such as `lib`) is ignored; a `compiler-message` shows its
/// rendered text.
pub proof fn law_cargo_messages(line: Seq<u8>, m: CargoMessageModel, exe: Seq<char>, name: Seq<char>, kind: Seq<char>, text: Seq<char>)
    ensures
        line_event_spec(line, None) == Ok::<LineEventModel, ()>(LineEventModel::Echo(line)),
        m.reason == Some("compiler-artifact"@) && m.executable == Some(exe) && m.name == Some(name)
            && (kind == "bin"@ || kind == "example"@) && m.kind == Some(kind)
            ==> line_event_spec(line, Some(m)) == Ok::<LineEventModel, ()>(
            LineEventModel::Built(((encode_utf8(m.package_id), encode_utf8(kind), encode_utf8(name)), encode_utf8(exe))),
        ),
        m.reason == Some("compiler-artifact"@) && m.executable == Some(exe) && m.kind == Some(kind)
            && kind != "bin"@ && kind != "example"@
            ==> line_event_spec(line, Some(m)) == Ok::<LineEventModel, ()>(LineEventModel::Nothing),
        m.reason == Some("compiler-message"@) && m.rendered == Some(text)
            ==> line_event_spec(line, Some(m)) == Ok::<LineEventModel, ()>(LineEventModel::Show(encode_utf8(text))),
{
    reveal_strlit("bin");
    reveal_strlit("example");
    reveal_strlit("compiler-artifact");
    reveal_strlit("compiler-message");
    broadcast use vstd::utf8::encode_utf8_decode_utf8;

    assert(vstd::utf8::decode_utf8(encode_utf8(kind)) == kind);
    assert(vstd::utf8::decode_utf8("bin".spec_bytes()) == "bin"@);
    assert(vstd::utf8::decode_utf8("example".spec_bytes()) == "example"@);
    assert(vstd::utf8::decode_utf8("compiler-artifact".spec_bytes()) == "compiler-artifact"@);
    assert(vstd::utf8::decode_utf8("compiler-message".spec_bytes()) == "compiler-message"@);
}

} // verus!
