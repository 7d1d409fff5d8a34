//! Command-line parsing for `cargo cosmopolitan <preflight|build|run>`.
use vstd::prelude::*;
use vstd::string::StringSliceAdditionalSpecFns;
use vstd::utf8::{decode_utf8, encode_utf8, valid_utf8};
use crate::bytes::{byte_strings, bytes_eq, concat, push_bytes, to_vec};
use crate::text::{debug_quoted, debug_text, string_from_utf8};

verus! {

broadcast use vstd::utf8::encode_utf8_decode_utf8;

/// The usage text printed for `--help`.
pub const HELP: &'static str = "cargo cosmopolitan <preflight|build|run> [options]

Build no_std + alloc applications as x86-64 + ARM64 Actually Portable Executables.
Requires Cosmopolitan on PATH, and a Rust nightly with rust-src.

Options:
  --toolchain NAME          Rust toolchain (default: nightly-2026-01-21)
  --tiny                    Use Cosmopolitan's size-optimized runtime
  --release                 Build the release profile
  --manifest-path PATH      Application Cargo.toml
  -p, --package NAME         Workspace package
  --bin NAME                Binary target
  --example NAME            Example target
  --features FEATURES       Cargo feature selection
  --all-features, --no-default-features, --locked, --offline, -v
  -- ARGS                   Arguments to the program (run only)

Example:
  cargo cosmopolitan run --release --manifest-path demo/Cargo.toml -- World

Toolchains are discovered locally; this tool never downloads or installs them.";

/// The Rust toolchain used when `--toolchain` is not given.
pub const DEFAULT_TOOLCHAIN: &'static str = "nightly-2026-01-21";

/// The subcommand to carry out.
#[derive(Clone, Copy, Debug, PartialEq, Eq, Structural)]
pub enum Action {
    Preflight,
    Build,
    Run,
}

/// Parsed command-line options.
pub struct Options {
    pub action: Action,
    /// The `rustup` toolchain name.
    pub toolchain: Vec<u8>,
    /// Arguments handed on to Cargo, in order.
    pub cargo: Vec<Vec<u8>>,
    /// Arguments for the program (after `--`, `run` only).
    pub program: Vec<Vec<u8>>,
    pub release: bool,
    pub tiny: bool,
}

/// The mathematical model of [`Options`].
pub struct OptionsModel {
    pub action: Action,
    pub toolchain: Seq<u8>,
    pub cargo: Seq<Seq<u8>>,
    pub program: Seq<Seq<u8>>,
    pub release: bool,
    pub tiny: bool,
}

impl View for Options {
    type V = OptionsModel;

    open spec fn view(&self) -> OptionsModel {
        OptionsModel {
            action: self.action,
            toolchain: self.toolchain@,
            cargo: byte_strings(self.cargo@),
            program: byte_strings(self.program@),
            release: self.release,
            tiny: self.tiny,
        }
    }
}

/// What the command line asks for.
pub enum Parsed {
    /// Print the usage text and stop.
    Help,
    /// Carry out a subcommand.
    Go(Options),
}

/// The mathematical model of [`Parsed`].
pub enum ParsedModel {
    Help,
    Go(OptionsModel),
}

/// Why a command line was refused.
pub enum ParseError {
    /// The subcommand is not UTF-8.
    InvalidCommand,
    /// The subcommand is not one of `preflight`, `build` or `run`.
    UnknownCommand(String),
    /// An option that takes a value came last.
    MissingValue(Vec<u8>),
    /// An argument that is not a supported option.
    UnsupportedOption(Vec<u8>),
}

/// The mathematical model of [`ParseError`].
pub enum ParseErrorModel {
    InvalidCommand,
    UnknownCommand(Seq<char>),
    MissingValue(Seq<u8>),
    UnsupportedOption(Seq<u8>),
}

impl View for ParseError {
    type V = ParseErrorModel;

    open spec fn view(&self) -> ParseErrorModel {
        match self {
            ParseError::InvalidCommand => ParseErrorModel::InvalidCommand,
            ParseError::UnknownCommand(s) => ParseErrorModel::UnknownCommand(s@),
            ParseError::MissingValue(a) => ParseErrorModel::MissingValue(a@),
            ParseError::UnsupportedOption(a) => ParseErrorModel::UnsupportedOption(a@),
        }
    }
}

/// The model of a parse result.
pub open spec fn parse_result_view(r: Result<Parsed, ParseError>) -> Result<ParsedModel, ParseErrorModel> {
    match r {
        Ok(Parsed::Help) => Ok(ParsedModel::Help),
        Ok(Parsed::Go(o)) => Ok(ParsedModel::Go(o@)),
        Err(e) => Err(e@),
    }
}

/// Cargo options that take the next argument as their value.
pub open spec fn takes_value(a: Seq<u8>) -> bool {
    ||| a == "--manifest-path".spec_bytes()
    ||| a == "--package".spec_bytes()
    ||| a == "-p".spec_bytes()
    ||| a == "--bin".spec_bytes()
    ||| a == "--example".spec_bytes()
    ||| a == "--features".spec_bytes()
}

/// Cargo flags handed on as they are.
pub open spec fn is_cargo_flag(a: Seq<u8>) -> bool {
    ||| a == "--all-features".spec_bytes()
    ||| a == "--no-default-features".spec_bytes()
    ||| a == "--locked".spec_bytes()
    ||| a == "--offline".spec_bytes()
    ||| a == "-v".spec_bytes()
    ||| a == "--verbose".spec_bytes()
}

/// The options that follow the subcommand, read from left to right into `acc`.
/// For `run`, everything after the first `--` belongs to the program.
pub open spec fn parse_rest(run: bool, rest: Seq<Seq<u8>>, acc: OptionsModel) -> Result<OptionsModel, ParseErrorModel>
    decreases rest.len(),
{
    if rest.len() == 0 {
        Ok(acc)
    } else {
        let a = rest[0];
        let tail = rest.drop_first();
        if run && a == "--".spec_bytes() {
            Ok(OptionsModel { program: acc.program + tail, ..acc })
        } else if a == "--toolchain".spec_bytes() {
            if tail.len() == 0 {
                Err(ParseErrorModel::MissingValue(a))
            } else {
                parse_rest(run, tail.drop_first(), OptionsModel { toolchain: tail[0], ..acc })
            }
        } else if a == "--tiny".spec_bytes() {
            parse_rest(run, tail, OptionsModel { tiny: true, ..acc })
        } else if a == "--release".spec_bytes() {
            parse_rest(run, tail, OptionsModel { release: true, cargo: acc.cargo.push(a), ..acc })
        } else if takes_value(a) {
            if tail.len() == 0 {
                Err(ParseErrorModel::MissingValue(a))
            } else {
                parse_rest(run, tail.drop_first(), OptionsModel { cargo: acc.cargo.push(a).push(tail[0]), ..acc })
            }
        } else if is_cargo_flag(a) {
            parse_rest(run, tail, OptionsModel { cargo: acc.cargo.push(a), ..acc })
        } else {
            Err(ParseErrorModel::UnsupportedOption(a))
        }
    }
}

/// The arguments after the program name, without the `cosmopolitan` that
/// Cargo inserts when the tool runs as `cargo cosmopolitan`.
pub open spec fn command_args(raw: Seq<Seq<u8>>) -> Seq<Seq<u8>> {
    if raw.len() > 0 && raw[0] == "cosmopolitan".spec_bytes() {
        raw.drop_first()
    } else {
        raw
    }
}

/// Usage is printed for an empty command line, or for `--help`/`-h` unless
/// a `--` is present (then it may belong to the program).
pub open spec fn asks_for_help(args: Seq<Seq<u8>>) -> bool {
    ||| args.len() == 0
    ||| (args.contains("--help".spec_bytes()) || args.contains("-h".spec_bytes()))
        && !args.contains("--".spec_bytes())
}

/// The subcommand a word names.
pub open spec fn action_of(a: Seq<u8>) -> Option<Action> {
    if a == "preflight".spec_bytes() {
        Some(Action::Preflight)
    } else if a == "build".spec_bytes() {
        Some(Action::Build)
    } else if a == "run".spec_bytes() {
        Some(Action::Run)
    } else {
        None
    }
}

/// The options before any argument is read.
pub open spec fn default_options(action: Action) -> OptionsModel {
    OptionsModel {
        action,
        toolchain: DEFAULT_TOOLCHAIN.spec_bytes(),
        cargo: Seq::empty(),
        program: Seq::empty(),
        release: false,
        tiny: false,
    }
}

/// A parse of the options, as the result of the whole command line.
pub open spec fn go(r: Result<OptionsModel, ParseErrorModel>) -> Result<ParsedModel, ParseErrorModel> {
    match r {
        Ok(o) => Ok(ParsedModel::Go(o)),
        Err(e) => Err(e),
    }
}

/// What a command line (without the executable's own name) asks for.
pub open spec fn parse_spec(raw: Seq<Seq<u8>>) -> Result<ParsedModel, ParseErrorModel> {
    let args = command_args(raw);
    if asks_for_help(args) {
        Ok(ParsedModel::Help)
    } else {
        match action_of(args[0]) {
            Some(action) => go(parse_rest(action == Action::Run, args.drop_first(), default_options(action))),
            None => if valid_utf8(args[0]) {
                Err(ParseErrorModel::UnknownCommand(decode_utf8(args[0])))
            } else {
                Err(ParseErrorModel::InvalidCommand)
            },
        }
    }
}

/// Whether `args[from..]` holds `word`.
fn holds(args: &Vec<Vec<u8>>, from: usize, word: &[u8]) -> (r: bool)
    requires
        from <= args@.len(),
    ensures
        r == byte_strings(args@).skip(from as int).contains(word@),
{
    let ghost s = byte_strings(args@).skip(from as int);
    let mut i: usize = from;
    while i < args.len()
        invariant
            from <= i <= args@.len(),
            s == byte_strings(args@).skip(from as int),
            forall|j: int| 0 <= j < i - from ==> s[j] != word@,
        decreases args@.len() - i,
    {
        if bytes_eq(args[i].as_slice(), word) {
            assert(s[i - from] == word@);
            return true;
        }
        i += 1;
    }
    false
}

/// A copy of a list of arguments.
fn copy_args(args: &Vec<Vec<u8>>, from: usize) -> (r: Vec<Vec<u8>>)
    requires
        from <= args@.len(),
    ensures
        byte_strings(r@) == byte_strings(args@).skip(from as int),
{
    let mut r: Vec<Vec<u8>> = Vec::new();
    let mut i: usize = from;
    while i < args.len()
        invariant
            from <= i <= args@.len(),
            byte_strings(r@) == byte_strings(args@).subrange(from as int, i as int),
        decreases args@.len() - i,
    {
        let ghost before = r@;
        r.push(to_vec(args[i].as_slice()));
        assert(byte_strings(r@) =~= byte_strings(before).push(args@[i as int]@));
        i += 1;
        assert(byte_strings(r@) =~= byte_strings(args@).subrange(from as int, i as int));
    }
    assert(byte_strings(args@).subrange(from as int, args@.len() as int) =~= byte_strings(args@).skip(from as int));
    r
}

/// Parses the command line (without the executable's own name):
/// `Ok(Parsed::Help)` where usage is to be printed.
pub fn parse(args: Vec<Vec<u8>>) -> (r: Result<Parsed, ParseError>)
    ensures
        parse_result_view(r) == parse_spec(byte_strings(args@)),
{
    let ghost raw = byte_strings(args@);
    let start: usize = if args.len() > 0 && bytes_eq(args[0].as_slice(), "cosmopolitan".as_bytes()) {
        1
    } else {
        0
    };
    assert(command_args(raw) =~= raw.skip(start as int));
    let ghost cmd = command_args(raw);
    if args.len() == start {
        return Ok(Parsed::Help);
    }
    let help = holds(&args, start, "--help".as_bytes()) || holds(&args, start, "-h".as_bytes());
    if help && !holds(&args, start, "--".as_bytes()) {
        return Ok(Parsed::Help);
    }
    let word = args[start].as_slice();
    assert(word@ == cmd[0]);
    let action = if bytes_eq(word, "preflight".as_bytes()) {
        Action::Preflight
    } else if bytes_eq(word, "build".as_bytes()) {
        Action::Build
    } else if bytes_eq(word, "run".as_bytes()) {
        Action::Run
    } else {
        return match string_from_utf8(to_vec(word)) {
            Some(s) => Err(ParseError::UnknownCommand(s)),
            None => Err(ParseError::InvalidCommand),
        };
    };
    let run = action == Action::Run;
    let mut opts = Options {
        action,
        toolchain: to_vec(DEFAULT_TOOLCHAIN.as_bytes()),
        cargo: Vec::new(),
        program: Vec::new(),
        release: false,
        tiny: false,
    };
    assert(byte_strings(opts.cargo@) =~= Seq::<Seq<u8>>::empty());
    assert(byte_strings(opts.program@) =~= Seq::<Seq<u8>>::empty());
    assert(opts@ == default_options(action));
    let ghost goal = parse_rest(run, cmd.drop_first(), default_options(action));
    let mut i: usize = start + 1;
    assert(cmd.drop_first() =~= raw.skip(i as int));
    assert(!asks_for_help(cmd));
    assert(action_of(cmd[0]) == Some(action));
    assert(parse_spec(raw) == go(goal));
    while i < args.len()
        invariant
            start < i <= args@.len(),
            raw == byte_strings(args@),
            opts.action == action,
            goal == parse_rest(run, raw.skip(i as int), opts@),
            parse_spec(raw) == go(goal),
            run == (action == Action::Run),
        decreases args@.len() - i,
    {
        let ghost rest = raw.skip(i as int);
        let a = args[i].as_slice();
        assert(a@ == rest[0]);
        assert(rest.drop_first() =~= raw.skip(i + 1));
        if run && bytes_eq(a, "--".as_bytes()) {
            let more = copy_args(&args, i + 1);
            assert(byte_strings(more@).skip(0) =~= byte_strings(more@));
            let mut k: usize = 0;
            while k < more.len()
                invariant
                    k <= more@.len(),
                    opts.action == action,
                    parse_spec(raw) == go(goal),
                    goal == Ok::<OptionsModel, ParseErrorModel>(OptionsModel {
                        program: opts@.program + byte_strings(more@).skip(k as int),
                        ..opts@
                    }),
                decreases more@.len() - k,
            {
                let ghost before = opts@;
                opts.program.push(to_vec(more[k].as_slice()));
                assert(byte_strings(opts.program@) =~= before.program.push(byte_strings(more@)[k as int]));
                assert(before.program + byte_strings(more@).skip(k as int) =~= byte_strings(opts.program@)
                    + byte_strings(more@).skip(k + 1));
                k += 1;
            }
            assert(opts@.program + byte_strings(more@).skip(k as int) =~= opts@.program);
            return Ok(Parsed::Go(opts));
        } else if bytes_eq(a, "--toolchain".as_bytes()) {
            if i + 1 >= args.len() {
                return Err(ParseError::MissingValue(to_vec(a)));
            }
            assert(rest.drop_first().drop_first() =~= raw.skip(i + 2));
            opts.toolchain = to_vec(args[i + 1].as_slice());
            i += 2;
        } else if bytes_eq(a, "--tiny".as_bytes()) {
            opts.tiny = true;
            i += 1;
        } else if bytes_eq(a, "--release".as_bytes()) {
            opts.release = true;
            let ghost before = byte_strings(opts.cargo@);
            opts.cargo.push(to_vec(a));
            assert(byte_strings(opts.cargo@) =~= before.push(a@));
            i += 1;
        } else if takes_a_value(a) {
            if i + 1 >= args.len() {
                return Err(ParseError::MissingValue(to_vec(a)));
            }
            assert(rest.drop_first().drop_first() =~= raw.skip(i + 2));
            let ghost before = byte_strings(opts.cargo@);
            opts.cargo.push(to_vec(a));
            opts.cargo.push(to_vec(args[i + 1].as_slice()));
            assert(byte_strings(opts.cargo@) =~= before.push(a@).push(raw[i + 1]));
            i += 2;
        } else if cargo_flag(a) {
            let ghost before = byte_strings(opts.cargo@);
            opts.cargo.push(to_vec(a));
            assert(byte_strings(opts.cargo@) =~= before.push(a@));
            i += 1;
        } else {
            return Err(ParseError::UnsupportedOption(to_vec(a)));
        }
    }
    assert(raw.skip(i as int) =~= Seq::<Seq<u8>>::empty());
    Ok(Parsed::Go(opts))
}

/// Whether `a` is a Cargo option that takes a value.
fn takes_a_value(a: &[u8]) -> (r: bool)
    ensures
        r == takes_value(a@),
{
    bytes_eq(a, "--manifest-path".as_bytes()) || bytes_eq(a, "--package".as_bytes())
        || bytes_eq(a, "-p".as_bytes()) || bytes_eq(a, "--bin".as_bytes())
        || bytes_eq(a, "--example".as_bytes()) || bytes_eq(a, "--features".as_bytes())
}

/// Whether `a` is a Cargo flag that is handed on.
fn cargo_flag(a: &[u8]) -> (r: bool)
    ensures
        r == is_cargo_flag(a@),
{
    bytes_eq(a, "--all-features".as_bytes()) || bytes_eq(a, "--no-default-features".as_bytes())
        || bytes_eq(a, "--locked".as_bytes()) || bytes_eq(a, "--offline".as_bytes())
        || bytes_eq(a, "-v".as_bytes()) || bytes_eq(a, "--verbose".as_bytes())
}

/// The text of a refusal.
pub open spec fn parse_error_message(e: ParseErrorModel) -> Seq<u8> {
    match e {
        ParseErrorModel::InvalidCommand => "invalid command".spec_bytes(),
        ParseErrorModel::UnknownCommand(s) => "unknown command ".spec_bytes() + encode_utf8(debug_text(s))
            + "; use --help".spec_bytes(),
        ParseErrorModel::MissingValue(a) => a + " needs a value".spec_bytes(),
        ParseErrorModel::UnsupportedOption(a) => "unsupported option ".spec_bytes() + a
            + "; use --help".spec_bytes(),
    }
}

impl ParseError {
    /// The message for this refusal, as bytes (lossily shown where not UTF-8).
    pub fn message(&self) -> (r: Vec<u8>)
        ensures
            r@ == parse_error_message(self@),
    {
        match self {
            ParseError::InvalidCommand => to_vec("invalid command".as_bytes()),
            ParseError::UnknownCommand(s) => {
                let quoted = debug_quoted(s.as_str());
                let mut r = concat("unknown command ".as_bytes(), quoted.as_str().as_bytes());
                push_bytes(&mut r, "; use --help".as_bytes());
                r
            },
            ParseError::MissingValue(a) => concat(a.as_slice(), " needs a value".as_bytes()),
            ParseError::UnsupportedOption(a) => {
                let mut r = concat("unsupported option ".as_bytes(), a.as_slice());
                push_bytes(&mut r, "; use --help".as_bytes());
                r
            },
        }
    }
}

/// Help law: whenever usage is asked for (no arguments, or `--help`/`-h`
/// without a `--`), usage is all the tool does; no toolchain is consulted.
pub proof fn law_help_wins(raw: Seq<Seq<u8>>)
    requires
        asks_for_help(command_args(raw)),
    ensures
        parse_spec(raw) == Ok::<ParsedModel, ParseErrorModel>(ParsedModel::Help),
{
}

/// Literals that differ as text differ as bytes.
proof fn lemma_distinct_words(a: &str, b: &str)
    requires
        a@ != b@,
    ensures
        a.spec_bytes() != b.spec_bytes(),
{
    assert(vstd::utf8::decode_utf8(encode_utf8(a@)) == a@);
    assert(vstd::utf8::decode_utf8(encode_utf8(b@)) == b@);
}

/// Pass-through law: for `run`, every argument after `--` belongs to the
/// program, unchanged and in order, even `--help`; the tool's own options
/// keep their defaults.
pub proof fn law_program_arguments_pass_through(rest: Seq<Seq<u8>>)
    ensures
        parse_spec(seq!["run".spec_bytes(), "--".spec_bytes()] + rest) == Ok::<ParsedModel, ParseErrorModel>(
            ParsedModel::Go(OptionsModel { program: rest, ..default_options(Action::Run) }),
        ),
{
    reveal_strlit("run");
    reveal_strlit("cosmopolitan");
    reveal_strlit("preflight");
    reveal_strlit("build");
    lemma_distinct_words("run", "cosmopolitan");
    lemma_distinct_words("run", "preflight");
    lemma_distinct_words("run", "build");
    let raw = seq!["run".spec_bytes(), "--".spec_bytes()] + rest;
    assert(raw[0] == "run".spec_bytes());
    assert(command_args(raw) == raw);
    assert(raw[1] == "--".spec_bytes());
    assert(raw.contains("--".spec_bytes()));
    assert(!asks_for_help(raw));
    assert(action_of(raw[0]) == Some(Action::Run));
    let tail = raw.drop_first();
    assert(tail[0] == "--".spec_bytes());
    assert(tail.drop_first() =~= rest);
    assert(Seq::<Seq<u8>>::empty() + rest =~= rest);
}

/// The release flag stays a Cargo argument: whatever the command line,
/// a parse that selects the release profile hands `--release` on to Cargo.
pub proof fn law_release_reaches_cargo(raw: Seq<Seq<u8>>, o: OptionsModel)
    requires
        parse_spec(raw) == Ok::<ParsedModel, ParseErrorModel>(ParsedModel::Go(o)),
        o.release,
    ensures
        o.cargo.contains("--release".spec_bytes()),
{
    let args = command_args(raw);
    let action = action_of(args[0])->0;
    lemma_release_kept(action == Action::Run, args.drop_first(), default_options(action));
}

proof fn lemma_release_kept(run: bool, rest: Seq<Seq<u8>>, acc: OptionsModel)
    requires
        acc.release ==> acc.cargo.contains("--release".spec_bytes()),
    ensures
        parse_rest(run, rest, acc) matches Ok(o) ==> (o.release ==> o.cargo.contains("--release".spec_bytes())),
    decreases rest.len(),
{
    if rest.len() > 0 {
        let a = rest[0];
        let tail = rest.drop_first();
        if run && a == "--".spec_bytes() {
        } else if a == "--toolchain".spec_bytes() {
            if tail.len() > 0 {
                lemma_release_kept(run, tail.drop_first(), OptionsModel { toolchain: tail[0], ..acc });
            }
        } else if a == "--tiny".spec_bytes() {
            lemma_release_kept(run, tail, OptionsModel { tiny: true, ..acc });
        } else if a == "--release".spec_bytes() {
            let next = OptionsModel { release: true, cargo: acc.cargo.push(a), ..acc };
            assert(next.cargo[next.cargo.len() - 1] == a);
            lemma_release_kept(run, tail, next);
        } else if takes_value(a) {
            if tail.len() > 0 {
                let next = OptionsModel { cargo: acc.cargo.push(a).push(tail[0]), ..acc };
                if acc.release {
                    let k = choose|k: int| 0 <= k < acc.cargo.len() && acc.cargo[k] == "--release".spec_bytes();
                    assert(next.cargo[k] == "--release".spec_bytes());
                }
                lemma_release_kept(run, tail.drop_first(), next);
            }
        } else if is_cargo_flag(a) {
            let next = OptionsModel { cargo: acc.cargo.push(a), ..acc };
            if acc.release {
                let k = choose|k: int| 0 <= k < acc.cargo.len() && acc.cargo[k] == "--release".spec_bytes();
                assert(next.cargo[k] == "--release".spec_bytes());
            }
            lemma_release_kept(run, tail, next);
        }
    }
}

/// Refusal law: an argument right after the subcommand that is neither an
/// option of the tool nor one handed to Cargo is refused, whatever follows
/// (unless usage was asked for), so nothing is built with it.
pub proof fn law_unsupported_option_refused(word: Seq<u8>, a: Seq<u8>, rest: Seq<Seq<u8>>)
    requires
        action_of(word) is Some,
        !asks_for_help(seq![word, a] + rest),
        !(action_of(word) == Some(Action::Run) && a == "--".spec_bytes()),
        a != "--toolchain".spec_bytes(),
        a != "--tiny".spec_bytes(),
        a != "--release".spec_bytes(),
        !takes_value(a),
        !is_cargo_flag(a),
    ensures
        parse_spec(seq![word, a] + rest) == Err::<ParsedModel, ParseErrorModel>(ParseErrorModel::UnsupportedOption(a)),
{
    reveal_strlit("cosmopolitan");
    reveal_strlit("preflight");
    reveal_strlit("build");
    reveal_strlit("run");
    lemma_distinct_words("preflight", "cosmopolitan");
    lemma_distinct_words("build", "cosmopolitan");
    lemma_distinct_words("run", "cosmopolitan");
    let raw = seq![word, a] + rest;
    assert(raw[0] == word);
    assert(command_args(raw) == raw);
    assert(raw.drop_first()[0] == a);
}

/// Whether `idx` places the items of `a`, in order, at positions of `b`
/// holding the same items.
pub open spec fn embeds(a: Seq<Seq<u8>>, b: Seq<Seq<u8>>, idx: Seq<int>) -> bool {
    &&& idx.len() == a.len()
    &&& forall|i: int| 0 <= i < a.len() ==> 0 <= #[trigger] idx[i] < b.len() && b[idx[i]] == a[i]
    &&& forall|i: int, j: int| 0 <= i < j < idx.len() ==> #[trigger] idx[i] < #[trigger] idx[j]
}

/// Whether `a` is a subsequence of `b`: its items occur in `b` in the same order.
pub open spec fn is_subsequence(a: Seq<Seq<u8>>, b: Seq<Seq<u8>>) -> bool {
    exists|idx: Seq<int>| embeds(a, b, idx)
}

/// Whether `a` is how `b` ends.
pub open spec fn is_suffix(a: Seq<Seq<u8>>, b: Seq<Seq<u8>>) -> bool {
    a.len() <= b.len() && a == b.subrange(b.len() - a.len(), b.len() as int)
}

proof fn lemma_parse_rest_keeps_arguments(run: bool, all: Seq<Seq<u8>>, k: int, acc: OptionsModel, idx: Seq<int>) -> (r: Seq<int>)
    requires
        0 <= k <= all.len(),
        embeds(acc.cargo, all, idx),
        forall|i: int| 0 <= i < idx.len() ==> #[trigger] idx[i] < k,
        acc.program.len() == 0,
    ensures
        parse_rest(run, all.subrange(k, all.len() as int), acc) matches Ok(o) ==> {
            &&& embeds(o.cargo, all, r)
            &&& is_suffix(o.program, all)
            &&& !run ==> o.program.len() == 0
            &&& o.action == acc.action
            &&& (o.tiny ==> acc.tiny || all.contains("--tiny".spec_bytes()))
            &&& (o.release ==> acc.release || all.contains("--release".spec_bytes()))
            &&& (o.toolchain == acc.toolchain || all.contains("--toolchain".spec_bytes()))
        },
    decreases all.len() - k,
{
    let rest = all.subrange(k, all.len() as int);
    if rest.len() == 0 {
        assert(acc.program =~= all.subrange(all.len() as int, all.len() as int));
        return idx;
    }
    let a = rest[0];
    assert(a == all[k]);
    let tail = rest.drop_first();
    assert(tail =~= all.subrange(k + 1, all.len() as int));
    if run && a == "--".spec_bytes() {
        assert(acc.program + tail =~= tail);
        idx
    } else if a == "--toolchain".spec_bytes() {
        if tail.len() == 0 {
            idx
        } else {
            assert(tail.drop_first() =~= all.subrange(k + 2, all.len() as int));
            assert(all.contains("--toolchain".spec_bytes()));
            lemma_parse_rest_keeps_arguments(run, all, k + 2, OptionsModel { toolchain: tail[0], ..acc }, idx)
        }
    } else if a == "--tiny".spec_bytes() {
        assert(all.contains("--tiny".spec_bytes()));
        lemma_parse_rest_keeps_arguments(run, all, k + 1, OptionsModel { tiny: true, ..acc }, idx)
    } else if a == "--release".spec_bytes() {
        let next = OptionsModel { release: true, cargo: acc.cargo.push(a), ..acc };
        let idx2 = idx.push(k);
        assert(all.contains("--release".spec_bytes()));
        assert(embeds(next.cargo, all, idx2));
        lemma_parse_rest_keeps_arguments(run, all, k + 1, next, idx2)
    } else if takes_value(a) {
        if tail.len() == 0 {
            idx
        } else {
            assert(tail[0] == all[k + 1]);
            assert(tail.drop_first() =~= all.subrange(k + 2, all.len() as int));
            let next = OptionsModel { cargo: acc.cargo.push(a).push(tail[0]), ..acc };
            let idx2 = idx.push(k).push(k + 1);
            assert(embeds(next.cargo, all, idx2));
            lemma_parse_rest_keeps_arguments(run, all, k + 2, next, idx2)
        }
    } else if is_cargo_flag(a) {
        let next = OptionsModel { cargo: acc.cargo.push(a), ..acc };
        let idx2 = idx.push(k);
        assert(embeds(next.cargo, all, idx2));
        lemma_parse_rest_keeps_arguments(run, all, k + 1, next, idx2)
    } else {
        idx
    }
}

/// Argument-keeping law: whatever the command line, a parse hands Cargo a
/// subsequence of the arguments (in their order, nothing invented), gives
/// the program a suffix of them (nothing unless the subcommand is `run`),
/// keeps the default toolchain unless `--toolchain` was given, and selects
/// the tiny runtime or the release profile only if `--tiny` or `--release`
/// was given.
pub proof fn law_parse_keeps_arguments(raw: Seq<Seq<u8>>, o: OptionsModel)
    requires
        parse_spec(raw) == Ok::<ParsedModel, ParseErrorModel>(ParsedModel::Go(o)),
    ensures
        is_subsequence(o.cargo, raw),
        is_suffix(o.program, raw),
        o.action != Action::Run ==> o.program.len() == 0,
        !raw.contains("--toolchain".spec_bytes()) ==> o.toolchain == DEFAULT_TOOLCHAIN.spec_bytes(),
        !raw.contains("--tiny".spec_bytes()) ==> !o.tiny,
        !raw.contains("--release".spec_bytes()) ==> !o.release,
{
    let args = command_args(raw);
    let k: int = if raw.len() > 0 && raw[0] == "cosmopolitan".spec_bytes() { 2 } else { 1 };
    let action = action_of(args[0])->0;
    assert(args.drop_first() =~= raw.subrange(k, raw.len() as int));
    let idx = lemma_parse_rest_keeps_arguments(
        action == Action::Run,
        raw,
        k,
        default_options(action),
        Seq::empty(),
    );
}

proof fn lemma_distinct_from_dashes()
    ensures
        "--".spec_bytes() != "--help".spec_bytes(),
        "--".spec_bytes() != "--release".spec_bytes(),
        "--".spec_bytes() != "--tiny".spec_bytes(),
        "--".spec_bytes() != "--toolchain".spec_bytes(),
        "--".spec_bytes() != "-h".spec_bytes(),
{
    reveal_strlit("--");
    reveal_strlit("--help");
    reveal_strlit("--release");
    reveal_strlit("--tiny");
    reveal_strlit("--toolchain");
    reveal_strlit("-h");
    assert("--"@.len() != "--help"@.len());
    lemma_distinct_words("--", "--help");
    assert("--"@.len() != "--release"@.len());
    lemma_distinct_words("--", "--release");
    assert("--"@.len() != "--tiny"@.len());
    lemma_distinct_words("--", "--tiny");
    assert("--"@.len() != "--toolchain"@.len());
    lemma_distinct_words("--", "--toolchain");
    assert("--"@[1] != "-h"@[1]);
    lemma_distinct_words("--", "-h");
}

proof fn lemma_distinct_from_all_features()
    ensures
        "--all-features".spec_bytes() != "--".spec_bytes(),
        "--all-features".spec_bytes() != "--bin".spec_bytes(),
        "--all-features".spec_bytes() != "--example".spec_bytes(),
        "--all-features".spec_bytes() != "--features".spec_bytes(),
        "--all-features".spec_bytes() != "--help".spec_bytes(),
        "--all-features".spec_bytes() != "--manifest-path".spec_bytes(),
        "--all-features".spec_bytes() != "--package".spec_bytes(),
        "--all-features".spec_bytes() != "--release".spec_bytes(),
        "--all-features".spec_bytes() != "--tiny".spec_bytes(),
        "--all-features".spec_bytes() != "--toolchain".spec_bytes(),
        "--all-features".spec_bytes() != "-h".spec_bytes(),
        "--all-features".spec_bytes() != "-p".spec_bytes(),
{
    reveal_strlit("--all-features");
    reveal_strlit("--");
    reveal_strlit("--bin");
    reveal_strlit("--example");
    reveal_strlit("--features");
    reveal_strlit("--help");
    reveal_strlit("--manifest-path");
    reveal_strlit("--package");
    reveal_strlit("--release");
    reveal_strlit("--tiny");
    reveal_strlit("--toolchain");
    reveal_strlit("-h");
    reveal_strlit("-p");
    assert("--all-features"@.len() != "--"@.len());
    lemma_distinct_words("--all-features", "--");
    assert("--all-features"@.len() != "--bin"@.len());
    lemma_distinct_words("--all-features", "--bin");
    assert("--all-features"@.len() != "--example"@.len());
    lemma_distinct_words("--all-features", "--example");
    assert("--all-features"@.len() != "--features"@.len());
    lemma_distinct_words("--all-features", "--features");
    assert("--all-features"@.len() != "--help"@.len());
    lemma_distinct_words("--all-features", "--help");
    assert("--all-features"@.len() != "--manifest-path"@.len());
    lemma_distinct_words("--all-features", "--manifest-path");
    assert("--all-features"@.len() != "--package"@.len());
    lemma_distinct_words("--all-features", "--package");
    assert("--all-features"@.len() != "--release"@.len());
    lemma_distinct_words("--all-features", "--release");
    assert("--all-features"@.len() != "--tiny"@.len());
    lemma_distinct_words("--all-features", "--tiny");
    assert("--all-features"@.len() != "--toolchain"@.len());
    lemma_distinct_words("--all-features", "--toolchain");
    assert("--all-features"@.len() != "-h"@.len());
    lemma_distinct_words("--all-features", "-h");
    assert("--all-features"@.len() != "-p"@.len());
    lemma_distinct_words("--all-features", "-p");
}

proof fn lemma_distinct_from_bin()
    ensures
        "--bin".spec_bytes() != "--".spec_bytes(),
        "--bin".spec_bytes() != "--help".spec_bytes(),
        "--bin".spec_bytes() != "--release".spec_bytes(),
        "--bin".spec_bytes() != "--tiny".spec_bytes(),
        "--bin".spec_bytes() != "--toolchain".spec_bytes(),
        "--bin".spec_bytes() != "-h".spec_bytes(),
{
    reveal_strlit("--bin");
    reveal_strlit("--");
    reveal_strlit("--help");
    reveal_strlit("--release");
    reveal_strlit("--tiny");
    reveal_strlit("--toolchain");
    reveal_strlit("-h");
    assert("--bin"@.len() != "--"@.len());
    lemma_distinct_words("--bin", "--");
    assert("--bin"@.len() != "--help"@.len());
    lemma_distinct_words("--bin", "--help");
    assert("--bin"@.len() != "--release"@.len());
    lemma_distinct_words("--bin", "--release");
    assert("--bin"@.len() != "--tiny"@.len());
    lemma_distinct_words("--bin", "--tiny");
    assert("--bin"@.len() != "--toolchain"@.len());
    lemma_distinct_words("--bin", "--toolchain");
    assert("--bin"@.len() != "-h"@.len());
    lemma_distinct_words("--bin", "-h");
}

proof fn lemma_distinct_from_example()
    ensures
        "--example".spec_bytes() != "--".spec_bytes(),
        "--example".spec_bytes() != "--help".spec_bytes(),
        "--example".spec_bytes() != "--release".spec_bytes(),
        "--example".spec_bytes() != "--tiny".spec_bytes(),
        "--example".spec_bytes() != "--toolchain".spec_bytes(),
        "--example".spec_bytes() != "-h".spec_bytes(),
{
    reveal_strlit("--example");
    reveal_strlit("--");
    reveal_strlit("--help");
    reveal_strlit("--release");
    reveal_strlit("--tiny");
    reveal_strlit("--toolchain");
    reveal_strlit("-h");
    assert("--example"@.len() != "--"@.len());
    lemma_distinct_words("--example", "--");
    assert("--example"@.len() != "--help"@.len());
    lemma_distinct_words("--example", "--help");
    assert("--example"@[2] != "--release"@[2]);
    lemma_distinct_words("--example", "--release");
    assert("--example"@.len() != "--tiny"@.len());
    lemma_distinct_words("--example", "--tiny");
    assert("--example"@.len() != "--toolchain"@.len());
    lemma_distinct_words("--example", "--toolchain");
    assert("--example"@.len() != "-h"@.len());
    lemma_distinct_words("--example", "-h");
}

proof fn lemma_distinct_from_features()
    ensures
        "--features".spec_bytes() != "--".spec_bytes(),
        "--features".spec_bytes() != "--help".spec_bytes(),
        "--features".spec_bytes() != "--release".spec_bytes(),
        "--features".spec_bytes() != "--tiny".spec_bytes(),
        "--features".spec_bytes() != "--toolchain".spec_bytes(),
        "--features".spec_bytes() != "-h".spec_bytes(),
{
    reveal_strlit("--features");
    reveal_strlit("--");
    reveal_strlit("--help");
    reveal_strlit("--release");
    reveal_strlit("--tiny");
    reveal_strlit("--toolchain");
    reveal_strlit("-h");
    assert("--features"@.len() != "--"@.len());
    lemma_distinct_words("--features", "--");
    assert("--features"@.len() != "--help"@.len());
    lemma_distinct_words("--features", "--help");
    assert("--features"@.len() != "--release"@.len());
    lemma_distinct_words("--features", "--release");
    assert("--features"@.len() != "--tiny"@.len());
    lemma_distinct_words("--features", "--tiny");
    assert("--features"@.len() != "--toolchain"@.len());
    lemma_distinct_words("--features", "--toolchain");
    assert("--features"@.len() != "-h"@.len());
    lemma_distinct_words("--features", "-h");
}

proof fn lemma_distinct_from_help()
    ensures
        "--help".spec_bytes() != "-h".spec_bytes(),
{
    reveal_strlit("--help");
    reveal_strlit("-h");
    assert("--help"@.len() != "-h"@.len());
    lemma_distinct_words("--help", "-h");
}

proof fn lemma_distinct_from_locked()
    ensures
        "--locked".spec_bytes() != "--".spec_bytes(),
        "--locked".spec_bytes() != "--bin".spec_bytes(),
        "--locked".spec_bytes() != "--example".spec_bytes(),
        "--locked".spec_bytes() != "--features".spec_bytes(),
        "--locked".spec_bytes() != "--help".spec_bytes(),
        "--locked".spec_bytes() != "--manifest-path".spec_bytes(),
        "--locked".spec_bytes() != "--package".spec_bytes(),
        "--locked".spec_bytes() != "--release".spec_bytes(),
        "--locked".spec_bytes() != "--tiny".spec_bytes(),
        "--locked".spec_bytes() != "--toolchain".spec_bytes(),
        "--locked".spec_bytes() != "-h".spec_bytes(),
        "--locked".spec_bytes() != "-p".spec_bytes(),
{
    reveal_strlit("--locked");
    reveal_strlit("--");
    reveal_strlit("--bin");
    reveal_strlit("--example");
    reveal_strlit("--features");
    reveal_strlit("--help");
    reveal_strlit("--manifest-path");
    reveal_strlit("--package");
    reveal_strlit("--release");
    reveal_strlit("--tiny");
    reveal_strlit("--toolchain");
    reveal_strlit("-h");
    reveal_strlit("-p");
    assert("--locked"@.len() != "--"@.len());
    lemma_distinct_words("--locked", "--");
    assert("--locked"@.len() != "--bin"@.len());
    lemma_distinct_words("--locked", "--bin");
    assert("--locked"@.len() != "--example"@.len());
    lemma_distinct_words("--locked", "--example");
    assert("--locked"@.len() != "--features"@.len());
    lemma_distinct_words("--locked", "--features");
    assert("--locked"@.len() != "--help"@.len());
    lemma_distinct_words("--locked", "--help");
    assert("--locked"@.len() != "--manifest-path"@.len());
    lemma_distinct_words("--locked", "--manifest-path");
    assert("--locked"@.len() != "--package"@.len());
    lemma_distinct_words("--locked", "--package");
    assert("--locked"@.len() != "--release"@.len());
    lemma_distinct_words("--locked", "--release");
    assert("--locked"@.len() != "--tiny"@.len());
    lemma_distinct_words("--locked", "--tiny");
    assert("--locked"@.len() != "--toolchain"@.len());
    lemma_distinct_words("--locked", "--toolchain");
    assert("--locked"@.len() != "-h"@.len());
    lemma_distinct_words("--locked", "-h");
    assert("--locked"@.len() != "-p"@.len());
    lemma_distinct_words("--locked", "-p");
}

proof fn lemma_distinct_from_manifest_path()
    ensures
        "--manifest-path".spec_bytes() != "--".spec_bytes(),
        "--manifest-path".spec_bytes() != "--help".spec_bytes(),
        "--manifest-path".spec_bytes() != "--release".spec_bytes(),
        "--manifest-path".spec_bytes() != "--tiny".spec_bytes(),
        "--manifest-path".spec_bytes() != "--toolchain".spec_bytes(),
        "--manifest-path".spec_bytes() != "-h".spec_bytes(),
{
    reveal_strlit("--manifest-path");
    reveal_strlit("--");
    reveal_strlit("--help");
    reveal_strlit("--release");
    reveal_strlit("--tiny");
    reveal_strlit("--toolchain");
    reveal_strlit("-h");
    assert("--manifest-path"@.len() != "--"@.len());
    lemma_distinct_words("--manifest-path", "--");
    assert("--manifest-path"@.len() != "--help"@.len());
    lemma_distinct_words("--manifest-path", "--help");
    assert("--manifest-path"@.len() != "--release"@.len());
    lemma_distinct_words("--manifest-path", "--release");
    assert("--manifest-path"@.len() != "--tiny"@.len());
    lemma_distinct_words("--manifest-path", "--tiny");
    assert("--manifest-path"@.len() != "--toolchain"@.len());
    lemma_distinct_words("--manifest-path", "--toolchain");
    assert("--manifest-path"@.len() != "-h"@.len());
    lemma_distinct_words("--manifest-path", "-h");
}

proof fn lemma_distinct_from_no_default_features()
    ensures
        "--no-default-features".spec_bytes() != "--".spec_bytes(),
        "--no-default-features".spec_bytes() != "--bin".spec_bytes(),
        "--no-default-features".spec_bytes() != "--example".spec_bytes(),
        "--no-default-features".spec_bytes() != "--features".spec_bytes(),
        "--no-default-features".spec_bytes() != "--help".spec_bytes(),
        "--no-default-features".spec_bytes() != "--manifest-path".spec_bytes(),
        "--no-default-features".spec_bytes() != "--package".spec_bytes(),
        "--no-default-features".spec_bytes() != "--release".spec_bytes(),
        "--no-default-features".spec_bytes() != "--tiny".spec_bytes(),
        "--no-default-features".spec_bytes() != "--toolchain".spec_bytes(),
        "--no-default-features".spec_bytes() != "-h".spec_bytes(),
        "--no-default-features".spec_bytes() != "-p".spec_bytes(),
{
    reveal_strlit("--no-default-features");
    reveal_strlit("--");
    reveal_strlit("--bin");
    reveal_strlit("--example");
    reveal_strlit("--features");
    reveal_strlit("--help");
    reveal_strlit("--manifest-path");
    reveal_strlit("--package");
    reveal_strlit("--release");
    reveal_strlit("--tiny");
    reveal_strlit("--toolchain");
    reveal_strlit("-h");
    reveal_strlit("-p");
    assert("--no-default-features"@.len() != "--"@.len());
    lemma_distinct_words("--no-default-features", "--");
    assert("--no-default-features"@.len() != "--bin"@.len());
    lemma_distinct_words("--no-default-features", "--bin");
    assert("--no-default-features"@.len() != "--example"@.len());
    lemma_distinct_words("--no-default-features", "--example");
    assert("--no-default-features"@.len() != "--features"@.len());
    lemma_distinct_words("--no-default-features", "--features");
    assert("--no-default-features"@.len() != "--help"@.len());
    lemma_distinct_words("--no-default-features", "--help");
    assert("--no-default-features"@.len() != "--manifest-path"@.len());
    lemma_distinct_words("--no-default-features", "--manifest-path");
    assert("--no-default-features"@.len() != "--package"@.len());
    lemma_distinct_words("--no-default-features", "--package");
    assert("--no-default-features"@.len() != "--release"@.len());
    lemma_distinct_words("--no-default-features", "--release");
    assert("--no-default-features"@.len() != "--tiny"@.len());
    lemma_distinct_words("--no-default-features", "--tiny");
    assert("--no-default-features"@.len() != "--toolchain"@.len());
    lemma_distinct_words("--no-default-features", "--toolchain");
    assert("--no-default-features"@.len() != "-h"@.len());
    lemma_distinct_words("--no-default-features", "-h");
    assert("--no-default-features"@.len() != "-p"@.len());
    lemma_distinct_words("--no-default-features", "-p");
}

proof fn lemma_distinct_from_offline()
    ensures
        "--offline".spec_bytes() != "--".spec_bytes(),
        "--offline".spec_bytes() != "--bin".spec_bytes(),
        "--offline".spec_bytes() != "--example".spec_bytes(),
        "--offline".spec_bytes() != "--features".spec_bytes(),
        "--offline".spec_bytes() != "--help".spec_bytes(),
        "--offline".spec_bytes() != "--manifest-path".spec_bytes(),
        "--offline".spec_bytes() != "--package".spec_bytes(),
        "--offline".spec_bytes() != "--release".spec_bytes(),
        "--offline".spec_bytes() != "--tiny".spec_bytes(),
        "--offline".spec_bytes() != "--toolchain".spec_bytes(),
        "--offline".spec_bytes() != "-h".spec_bytes(),
        "--offline".spec_bytes() != "-p".spec_bytes(),
{
    reveal_strlit("--offline");
    reveal_strlit("--");
    reveal_strlit("--bin");
    reveal_strlit("--example");
    reveal_strlit("--features");
    reveal_strlit("--help");
    reveal_strlit("--manifest-path");
    reveal_strlit("--package");
    reveal_strlit("--release");
    reveal_strlit("--tiny");
    reveal_strlit("--toolchain");
    reveal_strlit("-h");
    reveal_strlit("-p");
    assert("--offline"@.len() != "--"@.len());
    lemma_distinct_words("--offline", "--");
    assert("--offline"@.len() != "--bin"@.len());
    lemma_distinct_words("--offline", "--bin");
    assert("--offline"@[2] != "--example"@[2]);
    lemma_distinct_words("--offline", "--example");
    assert("--offline"@.len() != "--features"@.len());
    lemma_distinct_words("--offline", "--features");
    assert("--offline"@.len() != "--help"@.len());
    lemma_distinct_words("--offline", "--help");
    assert("--offline"@.len() != "--manifest-path"@.len());
    lemma_distinct_words("--offline", "--manifest-path");
    assert("--offline"@[2] != "--package"@[2]);
    lemma_distinct_words("--offline", "--package");
    assert("--offline"@[2] != "--release"@[2]);
    lemma_distinct_words("--offline", "--release");
    assert("--offline"@.len() != "--tiny"@.len());
    lemma_distinct_words("--offline", "--tiny");
    assert("--offline"@.len() != "--toolchain"@.len());
    lemma_distinct_words("--offline", "--toolchain");
    assert("--offline"@.len() != "-h"@.len());
    lemma_distinct_words("--offline", "-h");
    assert("--offline"@.len() != "-p"@.len());
    lemma_distinct_words("--offline", "-p");
}

proof fn lemma_distinct_from_package()
    ensures
        "--package".spec_bytes() != "--".spec_bytes(),
        "--package".spec_bytes() != "--help".spec_bytes(),
        "--package".spec_bytes() != "--release".spec_bytes(),
        "--package".spec_bytes() != "--tiny".spec_bytes(),
        "--package".spec_bytes() != "--toolchain".spec_bytes(),
        "--package".spec_bytes() != "-h".spec_bytes(),
{
    reveal_strlit("--package");
    reveal_strlit("--");
    reveal_strlit("--help");
    reveal_strlit("--release");
    reveal_strlit("--tiny");
    reveal_strlit("--toolchain");
    reveal_strlit("-h");
    assert("--package"@.len() != "--"@.len());
    lemma_distinct_words("--package", "--");
    assert("--package"@.len() != "--help"@.len());
    lemma_distinct_words("--package", "--help");
    assert("--package"@[2] != "--release"@[2]);
    lemma_distinct_words("--package", "--release");
    assert("--package"@.len() != "--tiny"@.len());
    lemma_distinct_words("--package", "--tiny");
    assert("--package"@.len() != "--toolchain"@.len());
    lemma_distinct_words("--package", "--toolchain");
    assert("--package"@.len() != "-h"@.len());
    lemma_distinct_words("--package", "-h");
}

proof fn lemma_distinct_from_release()
    ensures
        "--release".spec_bytes() != "--help".spec_bytes(),
        "--release".spec_bytes() != "-h".spec_bytes(),
{
    reveal_strlit("--release");
    reveal_strlit("--help");
    reveal_strlit("-h");
    assert("--release"@.len() != "--help"@.len());
    lemma_distinct_words("--release", "--help");
    assert("--release"@.len() != "-h"@.len());
    lemma_distinct_words("--release", "-h");
}

proof fn lemma_distinct_from_tiny()
    ensures
        "--tiny".spec_bytes() != "--help".spec_bytes(),
        "--tiny".spec_bytes() != "--release".spec_bytes(),
        "--tiny".spec_bytes() != "-h".spec_bytes(),
{
    reveal_strlit("--tiny");
    reveal_strlit("--help");
    reveal_strlit("--release");
    reveal_strlit("-h");
    assert("--tiny"@[2] != "--help"@[2]);
    lemma_distinct_words("--tiny", "--help");
    assert("--tiny"@.len() != "--release"@.len());
    lemma_distinct_words("--tiny", "--release");
    assert("--tiny"@.len() != "-h"@.len());
    lemma_distinct_words("--tiny", "-h");
}

proof fn lemma_distinct_from_toolchain()
    ensures
        "--toolchain".spec_bytes() != "--help".spec_bytes(),
        "--toolchain".spec_bytes() != "--release".spec_bytes(),
        "--toolchain".spec_bytes() != "--tiny".spec_bytes(),
        "--toolchain".spec_bytes() != "-h".spec_bytes(),
{
    reveal_strlit("--toolchain");
    reveal_strlit("--help");
    reveal_strlit("--release");
    reveal_strlit("--tiny");
    reveal_strlit("-h");
    assert("--toolchain"@.len() != "--help"@.len());
    lemma_distinct_words("--toolchain", "--help");
    assert("--toolchain"@.len() != "--release"@.len());
    lemma_distinct_words("--toolchain", "--release");
    assert("--toolchain"@.len() != "--tiny"@.len());
    lemma_distinct_words("--toolchain", "--tiny");
    assert("--toolchain"@.len() != "-h"@.len());
    lemma_distinct_words("--toolchain", "-h");
}

proof fn lemma_distinct_from_verbose()
    ensures
        "--verbose".spec_bytes() != "--".spec_bytes(),
        "--verbose".spec_bytes() != "--bin".spec_bytes(),
        "--verbose".spec_bytes() != "--example".spec_bytes(),
        "--verbose".spec_bytes() != "--features".spec_bytes(),
        "--verbose".spec_bytes() != "--help".spec_bytes(),
        "--verbose".spec_bytes() != "--manifest-path".spec_bytes(),
        "--verbose".spec_bytes() != "--package".spec_bytes(),
        "--verbose".spec_bytes() != "--release".spec_bytes(),
        "--verbose".spec_bytes() != "--tiny".spec_bytes(),
        "--verbose".spec_bytes() != "--toolchain".spec_bytes(),
        "--verbose".spec_bytes() != "-h".spec_bytes(),
        "--verbose".spec_bytes() != "-p".spec_bytes(),
{
    reveal_strlit("--verbose");
    reveal_strlit("--");
    reveal_strlit("--bin");
    reveal_strlit("--example");
    reveal_strlit("--features");
    reveal_strlit("--help");
    reveal_strlit("--manifest-path");
    reveal_strlit("--package");
    reveal_strlit("--release");
    reveal_strlit("--tiny");
    reveal_strlit("--toolchain");
    reveal_strlit("-h");
    reveal_strlit("-p");
    assert("--verbose"@.len() != "--"@.len());
    lemma_distinct_words("--verbose", "--");
    assert("--verbose"@.len() != "--bin"@.len());
    lemma_distinct_words("--verbose", "--bin");
    assert("--verbose"@[2] != "--example"@[2]);
    lemma_distinct_words("--verbose", "--example");
    assert("--verbose"@.len() != "--features"@.len());
    lemma_distinct_words("--verbose", "--features");
    assert("--verbose"@.len() != "--help"@.len());
    lemma_distinct_words("--verbose", "--help");
    assert("--verbose"@.len() != "--manifest-path"@.len());
    lemma_distinct_words("--verbose", "--manifest-path");
    assert("--verbose"@[2] != "--package"@[2]);
    lemma_distinct_words("--verbose", "--package");
    assert("--verbose"@[2] != "--release"@[2]);
    lemma_distinct_words("--verbose", "--release");
    assert("--verbose"@.len() != "--tiny"@.len());
    lemma_distinct_words("--verbose", "--tiny");
    assert("--verbose"@.len() != "--toolchain"@.len());
    lemma_distinct_words("--verbose", "--toolchain");
    assert("--verbose"@.len() != "-h"@.len());
    lemma_distinct_words("--verbose", "-h");
    assert("--verbose"@.len() != "-p"@.len());
    lemma_distinct_words("--verbose", "-p");
}

proof fn lemma_distinct_from_short_package()
    ensures
        "-p".spec_bytes() != "--".spec_bytes(),
        "-p".spec_bytes() != "--help".spec_bytes(),
        "-p".spec_bytes() != "--release".spec_bytes(),
        "-p".spec_bytes() != "--tiny".spec_bytes(),
        "-p".spec_bytes() != "--toolchain".spec_bytes(),
        "-p".spec_bytes() != "-h".spec_bytes(),
{
    reveal_strlit("-p");
    reveal_strlit("--");
    reveal_strlit("--help");
    reveal_strlit("--release");
    reveal_strlit("--tiny");
    reveal_strlit("--toolchain");
    reveal_strlit("-h");
    assert("-p"@[1] != "--"@[1]);
    lemma_distinct_words("-p", "--");
    assert("-p"@.len() != "--help"@.len());
    lemma_distinct_words("-p", "--help");
    assert("-p"@.len() != "--release"@.len());
    lemma_distinct_words("-p", "--release");
    assert("-p"@.len() != "--tiny"@.len());
    lemma_distinct_words("-p", "--tiny");
    assert("-p"@.len() != "--toolchain"@.len());
    lemma_distinct_words("-p", "--toolchain");
    assert("-p"@[1] != "-h"@[1]);
    lemma_distinct_words("-p", "-h");
}

proof fn lemma_distinct_from_short_verbose()
    ensures
        "-v".spec_bytes() != "--".spec_bytes(),
        "-v".spec_bytes() != "--bin".spec_bytes(),
        "-v".spec_bytes() != "--example".spec_bytes(),
        "-v".spec_bytes() != "--features".spec_bytes(),
        "-v".spec_bytes() != "--help".spec_bytes(),
        "-v".spec_bytes() != "--manifest-path".spec_bytes(),
        "-v".spec_bytes() != "--package".spec_bytes(),
        "-v".spec_bytes() != "--release".spec_bytes(),
        "-v".spec_bytes() != "--tiny".spec_bytes(),
        "-v".spec_bytes() != "--toolchain".spec_bytes(),
        "-v".spec_bytes() != "-h".spec_bytes(),
        "-v".spec_bytes() != "-p".spec_bytes(),
{
    reveal_strlit("-v");
    reveal_strlit("--");
    reveal_strlit("--bin");
    reveal_strlit("--example");
    reveal_strlit("--features");
    reveal_strlit("--help");
    reveal_strlit("--manifest-path");
    reveal_strlit("--package");
    reveal_strlit("--release");
    reveal_strlit("--tiny");
    reveal_strlit("--toolchain");
    reveal_strlit("-h");
    reveal_strlit("-p");
    assert("-v"@[1] != "--"@[1]);
    lemma_distinct_words("-v", "--");
    assert("-v"@.len() != "--bin"@.len());
    lemma_distinct_words("-v", "--bin");
    assert("-v"@.len() != "--example"@.len());
    lemma_distinct_words("-v", "--example");
    assert("-v"@.len() != "--features"@.len());
    lemma_distinct_words("-v", "--features");
    assert("-v"@.len() != "--help"@.len());
    lemma_distinct_words("-v", "--help");
    assert("-v"@.len() != "--manifest-path"@.len());
    lemma_distinct_words("-v", "--manifest-path");
    assert("-v"@.len() != "--package"@.len());
    lemma_distinct_words("-v", "--package");
    assert("-v"@.len() != "--release"@.len());
    lemma_distinct_words("-v", "--release");
    assert("-v"@.len() != "--tiny"@.len());
    lemma_distinct_words("-v", "--tiny");
    assert("-v"@.len() != "--toolchain"@.len());
    lemma_distinct_words("-v", "--toolchain");
    assert("-v"@[1] != "-h"@[1]);
    lemma_distinct_words("-v", "-h");
    assert("-v"@[1] != "-p"@[1]);
    lemma_distinct_words("-v", "-p");
}

proof fn lemma_distinct_from_build()
    ensures
        "build".spec_bytes() != "--".spec_bytes(),
        "build".spec_bytes() != "--help".spec_bytes(),
        "build".spec_bytes() != "--release".spec_bytes(),
        "build".spec_bytes() != "--tiny".spec_bytes(),
        "build".spec_bytes() != "--toolchain".spec_bytes(),
        "build".spec_bytes() != "-h".spec_bytes(),
        "build".spec_bytes() != "cosmopolitan".spec_bytes(),
        "build".spec_bytes() != "run".spec_bytes(),
{
    reveal_strlit("build");
    reveal_strlit("--");
    reveal_strlit("--help");
    reveal_strlit("--release");
    reveal_strlit("--tiny");
    reveal_strlit("--toolchain");
    reveal_strlit("-h");
    reveal_strlit("cosmopolitan");
    reveal_strlit("run");
    assert("build"@.len() != "--"@.len());
    lemma_distinct_words("build", "--");
    assert("build"@.len() != "--help"@.len());
    lemma_distinct_words("build", "--help");
    assert("build"@.len() != "--release"@.len());
    lemma_distinct_words("build", "--release");
    assert("build"@.len() != "--tiny"@.len());
    lemma_distinct_words("build", "--tiny");
    assert("build"@.len() != "--toolchain"@.len());
    lemma_distinct_words("build", "--toolchain");
    assert("build"@.len() != "-h"@.len());
    lemma_distinct_words("build", "-h");
    assert("build"@.len() != "cosmopolitan"@.len());
    lemma_distinct_words("build", "cosmopolitan");
    assert("build"@.len() != "run"@.len());
    lemma_distinct_words("build", "run");
}

proof fn lemma_distinct_from_cosmopolitan()
    ensures
        "cosmopolitan".spec_bytes() != "--".spec_bytes(),
        "cosmopolitan".spec_bytes() != "--help".spec_bytes(),
        "cosmopolitan".spec_bytes() != "--release".spec_bytes(),
        "cosmopolitan".spec_bytes() != "--tiny".spec_bytes(),
        "cosmopolitan".spec_bytes() != "--toolchain".spec_bytes(),
        "cosmopolitan".spec_bytes() != "-h".spec_bytes(),
{
    reveal_strlit("cosmopolitan");
    reveal_strlit("--");
    reveal_strlit("--help");
    reveal_strlit("--release");
    reveal_strlit("--tiny");
    reveal_strlit("--toolchain");
    reveal_strlit("-h");
    assert("cosmopolitan"@.len() != "--"@.len());
    lemma_distinct_words("cosmopolitan", "--");
    assert("cosmopolitan"@.len() != "--help"@.len());
    lemma_distinct_words("cosmopolitan", "--help");
    assert("cosmopolitan"@.len() != "--release"@.len());
    lemma_distinct_words("cosmopolitan", "--release");
    assert("cosmopolitan"@.len() != "--tiny"@.len());
    lemma_distinct_words("cosmopolitan", "--tiny");
    assert("cosmopolitan"@.len() != "--toolchain"@.len());
    lemma_distinct_words("cosmopolitan", "--toolchain");
    assert("cosmopolitan"@.len() != "-h"@.len());
    lemma_distinct_words("cosmopolitan", "-h");
}

proof fn lemma_distinct_from_preflight()
    ensures
        "preflight".spec_bytes() != "--".spec_bytes(),
        "preflight".spec_bytes() != "--help".spec_bytes(),
        "preflight".spec_bytes() != "--release".spec_bytes(),
        "preflight".spec_bytes() != "--tiny".spec_bytes(),
        "preflight".spec_bytes() != "--toolchain".spec_bytes(),
        "preflight".spec_bytes() != "-h".spec_bytes(),
        "preflight".spec_bytes() != "build".spec_bytes(),
        "preflight".spec_bytes() != "cosmopolitan".spec_bytes(),
        "preflight".spec_bytes() != "run".spec_bytes(),
{
    reveal_strlit("preflight");
    reveal_strlit("--");
    reveal_strlit("--help");
    reveal_strlit("--release");
    reveal_strlit("--tiny");
    reveal_strlit("--toolchain");
    reveal_strlit("-h");
    reveal_strlit("build");
    reveal_strlit("cosmopolitan");
    reveal_strlit("run");
    assert("preflight"@.len() != "--"@.len());
    lemma_distinct_words("preflight", "--");
    assert("preflight"@.len() != "--help"@.len());
    lemma_distinct_words("preflight", "--help");
    assert("preflight"@[0] != "--release"@[0]);
    lemma_distinct_words("preflight", "--release");
    assert("preflight"@.len() != "--tiny"@.len());
    lemma_distinct_words("preflight", "--tiny");
    assert("preflight"@.len() != "--toolchain"@.len());
    lemma_distinct_words("preflight", "--toolchain");
    assert("preflight"@.len() != "-h"@.len());
    lemma_distinct_words("preflight", "-h");
    assert("preflight"@.len() != "build"@.len());
    lemma_distinct_words("preflight", "build");
    assert("preflight"@.len() != "cosmopolitan"@.len());
    lemma_distinct_words("preflight", "cosmopolitan");
    assert("preflight"@.len() != "run"@.len());
    lemma_distinct_words("preflight", "run");
}

proof fn lemma_distinct_from_run()
    ensures
        "run".spec_bytes() != "--".spec_bytes(),
        "run".spec_bytes() != "--help".spec_bytes(),
        "run".spec_bytes() != "--release".spec_bytes(),
        "run".spec_bytes() != "--tiny".spec_bytes(),
        "run".spec_bytes() != "--toolchain".spec_bytes(),
        "run".spec_bytes() != "-h".spec_bytes(),
        "run".spec_bytes() != "cosmopolitan".spec_bytes(),
{
    reveal_strlit("run");
    reveal_strlit("--");
    reveal_strlit("--help");
    reveal_strlit("--release");
    reveal_strlit("--tiny");
    reveal_strlit("--toolchain");
    reveal_strlit("-h");
    reveal_strlit("cosmopolitan");
    assert("run"@.len() != "--"@.len());
    lemma_distinct_words("run", "--");
    assert("run"@.len() != "--help"@.len());
    lemma_distinct_words("run", "--help");
    assert("run"@.len() != "--release"@.len());
    lemma_distinct_words("run", "--release");
    assert("run"@.len() != "--tiny"@.len());
    lemma_distinct_words("run", "--tiny");
    assert("run"@.len() != "--toolchain"@.len());
    lemma_distinct_words("run", "--toolchain");
    assert("run"@.len() != "-h"@.len());
    lemma_distinct_words("run", "-h");
    assert("run"@.len() != "cosmopolitan"@.len());
    lemma_distinct_words("run", "cosmopolitan");
}

/// The words of the command line, told apart.
proof fn lemma_command_words()
    ensures
        "--".spec_bytes() != "--help".spec_bytes(),
        "--".spec_bytes() != "--release".spec_bytes(),
        "--".spec_bytes() != "--tiny".spec_bytes(),
        "--".spec_bytes() != "--toolchain".spec_bytes(),
        "--".spec_bytes() != "-h".spec_bytes(),
        "--all-features".spec_bytes() != "--".spec_bytes(),
        "--all-features".spec_bytes() != "--bin".spec_bytes(),
        "--all-features".spec_bytes() != "--example".spec_bytes(),
        "--all-features".spec_bytes() != "--features".spec_bytes(),
        "--all-features".spec_bytes() != "--help".spec_bytes(),
        "--all-features".spec_bytes() != "--manifest-path".spec_bytes(),
        "--all-features".spec_bytes() != "--package".spec_bytes(),
        "--all-features".spec_bytes() != "--release".spec_bytes(),
        "--all-features".spec_bytes() != "--tiny".spec_bytes(),
        "--all-features".spec_bytes() != "--toolchain".spec_bytes(),
        "--all-features".spec_bytes() != "-h".spec_bytes(),
        "--all-features".spec_bytes() != "-p".spec_bytes(),
        "--bin".spec_bytes() != "--".spec_bytes(),
        "--bin".spec_bytes() != "--help".spec_bytes(),
        "--bin".spec_bytes() != "--release".spec_bytes(),
        "--bin".spec_bytes() != "--tiny".spec_bytes(),
        "--bin".spec_bytes() != "--toolchain".spec_bytes(),
        "--bin".spec_bytes() != "-h".spec_bytes(),
        "--example".spec_bytes() != "--".spec_bytes(),
        "--example".spec_bytes() != "--help".spec_bytes(),
        "--example".spec_bytes() != "--release".spec_bytes(),
        "--example".spec_bytes() != "--tiny".spec_bytes(),
        "--example".spec_bytes() != "--toolchain".spec_bytes(),
        "--example".spec_bytes() != "-h".spec_bytes(),
        "--features".spec_bytes() != "--".spec_bytes(),
        "--features".spec_bytes() != "--help".spec_bytes(),
        "--features".spec_bytes() != "--release".spec_bytes(),
        "--features".spec_bytes() != "--tiny".spec_bytes(),
        "--features".spec_bytes() != "--toolchain".spec_bytes(),
        "--features".spec_bytes() != "-h".spec_bytes(),
        "--help".spec_bytes() != "-h".spec_bytes(),
        "--locked".spec_bytes() != "--".spec_bytes(),
        "--locked".spec_bytes() != "--bin".spec_bytes(),
        "--locked".spec_bytes() != "--example".spec_bytes(),
        "--locked".spec_bytes() != "--features".spec_bytes(),
        "--locked".spec_bytes() != "--help".spec_bytes(),
        "--locked".spec_bytes() != "--manifest-path".spec_bytes(),
        "--locked".spec_bytes() != "--package".spec_bytes(),
        "--locked".spec_bytes() != "--release".spec_bytes(),
        "--locked".spec_bytes() != "--tiny".spec_bytes(),
        "--locked".spec_bytes() != "--toolchain".spec_bytes(),
        "--locked".spec_bytes() != "-h".spec_bytes(),
        "--locked".spec_bytes() != "-p".spec_bytes(),
        "--manifest-path".spec_bytes() != "--".spec_bytes(),
        "--manifest-path".spec_bytes() != "--help".spec_bytes(),
        "--manifest-path".spec_bytes() != "--release".spec_bytes(),
        "--manifest-path".spec_bytes() != "--tiny".spec_bytes(),
        "--manifest-path".spec_bytes() != "--toolchain".spec_bytes(),
        "--manifest-path".spec_bytes() != "-h".spec_bytes(),
        "--no-default-features".spec_bytes() != "--".spec_bytes(),
        "--no-default-features".spec_bytes() != "--bin".spec_bytes(),
        "--no-default-features".spec_bytes() != "--example".spec_bytes(),
        "--no-default-features".spec_bytes() != "--features".spec_bytes(),
        "--no-default-features".spec_bytes() != "--help".spec_bytes(),
        "--no-default-features".spec_bytes() != "--manifest-path".spec_bytes(),
        "--no-default-features".spec_bytes() != "--package".spec_bytes(),
        "--no-default-features".spec_bytes() != "--release".spec_bytes(),
        "--no-default-features".spec_bytes() != "--tiny".spec_bytes(),
        "--no-default-features".spec_bytes() != "--toolchain".spec_bytes(),
        "--no-default-features".spec_bytes() != "-h".spec_bytes(),
        "--no-default-features".spec_bytes() != "-p".spec_bytes(),
        "--offline".spec_bytes() != "--".spec_bytes(),
        "--offline".spec_bytes() != "--bin".spec_bytes(),
        "--offline".spec_bytes() != "--example".spec_bytes(),
        "--offline".spec_bytes() != "--features".spec_bytes(),
        "--offline".spec_bytes() != "--help".spec_bytes(),
        "--offline".spec_bytes() != "--manifest-path".spec_bytes(),
        "--offline".spec_bytes() != "--package".spec_bytes(),
        "--offline".spec_bytes() != "--release".spec_bytes(),
        "--offline".spec_bytes() != "--tiny".spec_bytes(),
        "--offline".spec_bytes() != "--toolchain".spec_bytes(),
        "--offline".spec_bytes() != "-h".spec_bytes(),
        "--offline".spec_bytes() != "-p".spec_bytes(),
        "--package".spec_bytes() != "--".spec_bytes(),
        "--package".spec_bytes() != "--help".spec_bytes(),
        "--package".spec_bytes() != "--release".spec_bytes(),
        "--package".spec_bytes() != "--tiny".spec_bytes(),
        "--package".spec_bytes() != "--toolchain".spec_bytes(),
        "--package".spec_bytes() != "-h".spec_bytes(),
        "--release".spec_bytes() != "--help".spec_bytes(),
        "--release".spec_bytes() != "-h".spec_bytes(),
        "--tiny".spec_bytes() != "--help".spec_bytes(),
        "--tiny".spec_bytes() != "--release".spec_bytes(),
        "--tiny".spec_bytes() != "-h".spec_bytes(),
        "--toolchain".spec_bytes() != "--help".spec_bytes(),
        "--toolchain".spec_bytes() != "--release".spec_bytes(),
        "--toolchain".spec_bytes() != "--tiny".spec_bytes(),
        "--toolchain".spec_bytes() != "-h".spec_bytes(),
        "--verbose".spec_bytes() != "--".spec_bytes(),
        "--verbose".spec_bytes() != "--bin".spec_bytes(),
        "--verbose".spec_bytes() != "--example".spec_bytes(),
        "--verbose".spec_bytes() != "--features".spec_bytes(),
        "--verbose".spec_bytes() != "--help".spec_bytes(),
        "--verbose".spec_bytes() != "--manifest-path".spec_bytes(),
        "--verbose".spec_bytes() != "--package".spec_bytes(),
        "--verbose".spec_bytes() != "--release".spec_bytes(),
        "--verbose".spec_bytes() != "--tiny".spec_bytes(),
        "--verbose".spec_bytes() != "--toolchain".spec_bytes(),
        "--verbose".spec_bytes() != "-h".spec_bytes(),
        "--verbose".spec_bytes() != "-p".spec_bytes(),
        "-p".spec_bytes() != "--".spec_bytes(),
        "-p".spec_bytes() != "--help".spec_bytes(),
        "-p".spec_bytes() != "--release".spec_bytes(),
        "-p".spec_bytes() != "--tiny".spec_bytes(),
        "-p".spec_bytes() != "--toolchain".spec_bytes(),
        "-p".spec_bytes() != "-h".spec_bytes(),
        "-v".spec_bytes() != "--".spec_bytes(),
        "-v".spec_bytes() != "--bin".spec_bytes(),
        "-v".spec_bytes() != "--example".spec_bytes(),
        "-v".spec_bytes() != "--features".spec_bytes(),
        "-v".spec_bytes() != "--help".spec_bytes(),
        "-v".spec_bytes() != "--manifest-path".spec_bytes(),
        "-v".spec_bytes() != "--package".spec_bytes(),
        "-v".spec_bytes() != "--release".spec_bytes(),
        "-v".spec_bytes() != "--tiny".spec_bytes(),
        "-v".spec_bytes() != "--toolchain".spec_bytes(),
        "-v".spec_bytes() != "-h".spec_bytes(),
        "-v".spec_bytes() != "-p".spec_bytes(),
        "build".spec_bytes() != "--".spec_bytes(),
        "build".spec_bytes() != "--help".spec_bytes(),
        "build".spec_bytes() != "--release".spec_bytes(),
        "build".spec_bytes() != "--tiny".spec_bytes(),
        "build".spec_bytes() != "--toolchain".spec_bytes(),
        "build".spec_bytes() != "-h".spec_bytes(),
        "build".spec_bytes() != "cosmopolitan".spec_bytes(),
        "build".spec_bytes() != "run".spec_bytes(),
        "cosmopolitan".spec_bytes() != "--".spec_bytes(),
        "cosmopolitan".spec_bytes() != "--help".spec_bytes(),
        "cosmopolitan".spec_bytes() != "--release".spec_bytes(),
        "cosmopolitan".spec_bytes() != "--tiny".spec_bytes(),
        "cosmopolitan".spec_bytes() != "--toolchain".spec_bytes(),
        "cosmopolitan".spec_bytes() != "-h".spec_bytes(),
        "preflight".spec_bytes() != "--".spec_bytes(),
        "preflight".spec_bytes() != "--help".spec_bytes(),
        "preflight".spec_bytes() != "--release".spec_bytes(),
        "preflight".spec_bytes() != "--tiny".spec_bytes(),
        "preflight".spec_bytes() != "--toolchain".spec_bytes(),
        "preflight".spec_bytes() != "-h".spec_bytes(),
        "preflight".spec_bytes() != "build".spec_bytes(),
        "preflight".spec_bytes() != "cosmopolitan".spec_bytes(),
        "preflight".spec_bytes() != "run".spec_bytes(),
        "run".spec_bytes() != "--".spec_bytes(),
        "run".spec_bytes() != "--help".spec_bytes(),
        "run".spec_bytes() != "--release".spec_bytes(),
        "run".spec_bytes() != "--tiny".spec_bytes(),
        "run".spec_bytes() != "--toolchain".spec_bytes(),
        "run".spec_bytes() != "-h".spec_bytes(),
        "run".spec_bytes() != "cosmopolitan".spec_bytes(),
{
    lemma_distinct_from_dashes();
    lemma_distinct_from_all_features();
    lemma_distinct_from_bin();
    lemma_distinct_from_example();
    lemma_distinct_from_features();
    lemma_distinct_from_help();
    lemma_distinct_from_locked();
    lemma_distinct_from_manifest_path();
    lemma_distinct_from_no_default_features();
    lemma_distinct_from_offline();
    lemma_distinct_from_package();
    lemma_distinct_from_release();
    lemma_distinct_from_tiny();
    lemma_distinct_from_toolchain();
    lemma_distinct_from_verbose();
    lemma_distinct_from_short_package();
    lemma_distinct_from_short_verbose();
    lemma_distinct_from_build();
    lemma_distinct_from_cosmopolitan();
    lemma_distinct_from_preflight();
    lemma_distinct_from_run();
}

/// The action a subcommand word names.
pub open spec fn named_action(word: Seq<u8>) -> Action {
    if word == "preflight".spec_bytes() {
        Action::Preflight
    } else if word == "build".spec_bytes() {
        Action::Build
    } else {
        Action::Run
    }
}

/// Cargo-option law: after any subcommand, each Cargo option that takes a
/// value (`--manifest-path`, `--package`, `-p`, `--bin`, `--example`,
/// `--features`) is handed to Cargo with its value, whatever the value (but
/// a request for usage); nothing else changes.
pub proof fn law_cargo_value_options(word: Seq<u8>, opt: Seq<u8>, val: Seq<u8>)
    requires
        word == "preflight".spec_bytes() || word == "build".spec_bytes() || word == "run".spec_bytes(),
        opt == "--manifest-path".spec_bytes() || opt == "--package".spec_bytes() || opt == "-p".spec_bytes() || opt == "--bin".spec_bytes() || opt == "--example".spec_bytes() || opt == "--features".spec_bytes(),
        val != "--help".spec_bytes(),
        val != "-h".spec_bytes(),
    ensures
        parse_spec(seq![word, opt, val]) == Ok::<ParsedModel, ParseErrorModel>(ParsedModel::Go(OptionsModel {
            action: named_action(word),
            toolchain: "nightly-2026-01-21".spec_bytes(),
            cargo: seq![opt, val],
            program: Seq::empty(),
            release: false,
            tiny: false,
        })),
{
    lemma_command_words();
    reveal_with_fuel(parse_rest, 3);
    let raw = seq![word, opt, val];
    assert(command_args(raw) == raw);
    assert(!raw.contains("--help".spec_bytes())) by {
        if raw.contains("--help".spec_bytes()) {
            let i = choose|i: int| 0 <= i < raw.len() && raw[i] == "--help".spec_bytes();
            assert(i == 0 || i == 1 || i == 2);
        }
    }
    assert(!raw.contains("-h".spec_bytes())) by {
        if raw.contains("-h".spec_bytes()) {
            let i = choose|i: int| 0 <= i < raw.len() && raw[i] == "-h".spec_bytes();
            assert(i == 0 || i == 1 || i == 2);
        }
    }
    let rest = raw.drop_first();
    assert(rest[0] == opt);
    assert(rest.drop_first()[0] == val);
    assert(rest.drop_first().drop_first() =~= Seq::<Seq<u8>>::empty());
    assert(Seq::<Seq<u8>>::empty().push(opt).push(val) =~= seq![opt, val]);
}

/// Cargo-flag law: after any subcommand, each Cargo flag
/// (`--all-features`, `--no-default-features`, `--locked`, `--offline`,
/// `-v`, `--verbose`) is handed to Cargo as it is; nothing else changes.
pub proof fn law_cargo_flags(word: Seq<u8>, flag: Seq<u8>)
    requires
        word == "preflight".spec_bytes() || word == "build".spec_bytes() || word == "run".spec_bytes(),
        flag == "--all-features".spec_bytes() || flag == "--no-default-features".spec_bytes() || flag == "--locked".spec_bytes() || flag == "--offline".spec_bytes() || flag == "-v".spec_bytes() || flag == "--verbose".spec_bytes(),
    ensures
        parse_spec(seq![word, flag]) == Ok::<ParsedModel, ParseErrorModel>(ParsedModel::Go(OptionsModel {
            action: named_action(word),
            toolchain: "nightly-2026-01-21".spec_bytes(),
            cargo: seq![flag],
            program: Seq::empty(),
            release: false,
            tiny: false,
        })),
{
    lemma_command_words();
    reveal_with_fuel(parse_rest, 2);
    let raw = seq![word, flag];
    assert(command_args(raw) == raw);
    assert(!raw.contains("--help".spec_bytes())) by {
        if raw.contains("--help".spec_bytes()) {
            let i = choose|i: int| 0 <= i < raw.len() && raw[i] == "--help".spec_bytes();
            assert(i == 0 || i == 1);
        }
    }
    assert(!raw.contains("-h".spec_bytes())) by {
        if raw.contains("-h".spec_bytes()) {
            let i = choose|i: int| 0 <= i < raw.len() && raw[i] == "-h".spec_bytes();
            assert(i == 0 || i == 1);
        }
    }
    let rest = raw.drop_first();
    assert(rest[0] == flag);
    assert(rest.drop_first() =~= Seq::<Seq<u8>>::empty());
    assert(Seq::<Seq<u8>>::empty().push(flag) =~= seq![flag]);
}

/// Tool-option law: after any subcommand, `--tiny` selects the tiny runtime
/// and reaches no one else, and `--release` selects the release profile and
/// is handed to Cargo; neither selects the other.
pub proof fn law_tool_options(word: Seq<u8>)
    requires
        word == "preflight".spec_bytes() || word == "build".spec_bytes() || word == "run".spec_bytes(),
    ensures
        parse_spec(seq![word, "--tiny".spec_bytes()]) == Ok::<ParsedModel, ParseErrorModel>(ParsedModel::Go(OptionsModel {
            action: named_action(word),
            toolchain: "nightly-2026-01-21".spec_bytes(),
            cargo: Seq::empty(),
            program: Seq::empty(),
            release: false,
            tiny: true,
        })),
        parse_spec(seq![word, "--release".spec_bytes()]) == Ok::<ParsedModel, ParseErrorModel>(ParsedModel::Go(OptionsModel {
            action: named_action(word),
            toolchain: "nightly-2026-01-21".spec_bytes(),
            cargo: seq!["--release".spec_bytes()],
            program: Seq::empty(),
            release: true,
            tiny: false,
        })),
{
    lemma_command_words();
    reveal_with_fuel(parse_rest, 2);
    let tiny = seq![word, "--tiny".spec_bytes()];
    let release = seq![word, "--release".spec_bytes()];
    assert(command_args(tiny) == tiny);
    assert(command_args(release) == release);
    assert(!tiny.contains("--help".spec_bytes())) by {
        if tiny.contains("--help".spec_bytes()) {
            let i = choose|i: int| 0 <= i < tiny.len() && tiny[i] == "--help".spec_bytes();
            assert(i == 0 || i == 1);
        }
    }
    assert(!tiny.contains("-h".spec_bytes())) by {
        if tiny.contains("-h".spec_bytes()) {
            let i = choose|i: int| 0 <= i < tiny.len() && tiny[i] == "-h".spec_bytes();
            assert(i == 0 || i == 1);
        }
    }
    assert(!release.contains("--help".spec_bytes())) by {
        if release.contains("--help".spec_bytes()) {
            let i = choose|i: int| 0 <= i < release.len() && release[i] == "--help".spec_bytes();
            assert(i == 0 || i == 1);
        }
    }
    assert(!release.contains("-h".spec_bytes())) by {
        if release.contains("-h".spec_bytes()) {
            let i = choose|i: int| 0 <= i < release.len() && release[i] == "-h".spec_bytes();
            assert(i == 0 || i == 1);
        }
    }
    assert(tiny.drop_first()[0] == "--tiny".spec_bytes());
    assert(tiny.drop_first().drop_first() =~= Seq::<Seq<u8>>::empty());
    assert(release.drop_first()[0] == "--release".spec_bytes());
    assert(release.drop_first().drop_first() =~= Seq::<Seq<u8>>::empty());
    assert(Seq::<Seq<u8>>::empty().push("--release".spec_bytes()) =~= seq!["--release".spec_bytes()]);
}

} // verus!
