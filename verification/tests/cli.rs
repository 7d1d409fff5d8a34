use cargo_cosmopolitan::cli::{parse, Action, Options, ParseError, Parsed, HELP};
use cargo_cosmopolitan::link::{link_args, LinkError};
use cargo_cosmopolitan::process::{locate, not_found_message, Located, Probe};

fn words(list: &[&str]) -> Vec<Vec<u8>> {
    list.iter().map(|s| s.as_bytes().to_vec()).collect()
}

fn text(bytes: Vec<u8>) -> String {
    String::from_utf8(bytes).unwrap()
}

fn options(list: &[&str]) -> Options {
    match parse(words(list)) {
        Ok(Parsed::Go(o)) => o,
        Ok(Parsed::Help) => panic!("usage instead of options"),
        Err(e) => panic!("refused: {}", text(e.message())),
    }
}

fn refusal(list: &[&str]) -> String {
    match parse(words(list)) {
        Err(e) => text(e.message()),
        Ok(_) => panic!("accepted"),
    }
}

#[test]
fn cargo_subcommand_help_needs_no_toolchain() {
    assert!(matches!(parse(words(&["cosmopolitan", "--help"])), Ok(Parsed::Help)));
    assert!(HELP.contains("preflight|build|run"));
}

#[test]
fn preflight_reports_missing_cosmopolitan() {
    assert!(matches!(options(&["preflight"]).action, Action::Preflight));
    assert_eq!(locate(&Vec::new()), Located::NotFound);
    assert!(text(not_found_message(b"cosmocc")).contains("cosmocc was not found on PATH"));
}

#[test]
fn conflicting_cargo_target_is_rejected_before_building() {
    let message = refusal(&["build", "--target", "x86_64-unknown-linux-gnu"]);
    assert!(message.contains("unsupported option --target"));
}

#[test]
fn program_help_stays_with_the_program() {
    let o = options(&["run", "--", "--help"]);
    assert!(matches!(o.action, Action::Run));
    assert_eq!(o.program, words(&["--help"]));
    assert!(o.cargo.is_empty());
}

#[test]
fn linker_preserves_arguments_and_defers_symbol_stripping() {
    let args = words(&[
        "a path with spaces.o",
        "-lc",
        "-lpthread",
        "-Wl,--strip-all",
        "-L",
        "a library path",
        "-o",
        "output",
    ]);
    let kept = link_args(&args).unwrap();
    let lines: String = kept.iter().map(|a| format!("{}\n", String::from_utf8_lossy(a))).collect();
    assert_eq!(lines, "a path with spaces.o\n-L\na library path\n-o\noutput\n");
}

#[test]
fn empty_command_line_prints_usage() {
    assert!(matches!(parse(Vec::new()), Ok(Parsed::Help)));
    assert!(matches!(parse(words(&["cosmopolitan"])), Ok(Parsed::Help)));
    assert!(matches!(parse(words(&["build", "-h"])), Ok(Parsed::Help)));
}

#[test]
fn help_after_double_dash_is_not_usage() {
    // With `--` present, `--help` is not usage; for `build`, `--` itself is refused.
    assert_eq!(refusal(&["build", "--help", "--"]), "unsupported option --help; use --help");
}

#[test]
fn defaults_and_all_options() {
    let o = options(&["cosmopolitan", "build"]);
    assert!(matches!(o.action, Action::Build));
    assert_eq!(o.toolchain, b"nightly-2026-01-21".to_vec());
    assert!(!o.release && !o.tiny);
    let o = options(&[
        "run", "--toolchain", "nightly", "--tiny", "--release", "--manifest-path", "demo/Cargo.toml", "-p",
        "demo", "--bin", "demo", "--example", "ex", "--features", "f", "--all-features",
        "--no-default-features", "--locked", "--offline", "-v", "--verbose", "--", "a", "--", "b",
    ]);
    assert_eq!(o.toolchain, b"nightly".to_vec());
    assert!(o.tiny && o.release);
    assert_eq!(
        o.cargo,
        words(&[
            "--release", "--manifest-path", "demo/Cargo.toml", "-p", "demo", "--bin", "demo", "--example",
            "ex", "--features", "f", "--all-features", "--no-default-features", "--locked", "--offline",
            "-v", "--verbose",
        ])
    );
    assert_eq!(o.program, words(&["a", "--", "b"]));
}

#[test]
fn every_refusal_has_its_message() {
    assert_eq!(refusal(&["deploy"]), "unknown command \"deploy\"; use --help");
    assert_eq!(refusal(&["run", "--toolchain"]), "--toolchain needs a value");
    assert_eq!(refusal(&["build", "--bin"]), "--bin needs a value");
    assert_eq!(refusal(&["preflight", "--", "x"]), "unsupported option --; use --help");
    match parse(vec![vec![0xff, 0xfe]]) {
        Err(e) => {
            assert!(matches!(e, ParseError::InvalidCommand));
            assert_eq!(text(e.message()), "invalid command");
        }
        Ok(_) => panic!("accepted"),
    }
}

#[test]
fn non_utf8_option_is_refused_with_its_bytes() {
    match parse(vec![b"build".to_vec(), vec![b'-', 0xff]]) {
        Err(ParseError::UnsupportedOption(a)) => assert_eq!(a, vec![b'-', 0xff]),
        _ => panic!("not refused"),
    }
}

#[test]
fn non_utf8_values_pass_through() {
    let o = match parse(vec![b"build".to_vec(), b"--features".to_vec(), vec![0xff]]) {
        Ok(Parsed::Go(o)) => o,
        _ => panic!("refused"),
    };
    assert_eq!(o.cargo, vec![b"--features".to_vec(), vec![0xff]]);
}

#[test]
fn pie_and_shared_are_refused() {
    assert_eq!(link_args(&words(&["a.o", "-pie"])).err(), Some(LinkError::PieOrShared));
    assert_eq!(link_args(&words(&["-shared"])).err(), Some(LinkError::PieOrShared));
    assert_eq!(
        text(LinkError::PieOrShared.message()),
        "PIE and shared libraries are unsupported by this APE target"
    );
}

#[test]
fn every_platform_default_is_dropped() {
    let all = words(&[
        "-Wl,--strip-all", "-Wl,-s", "-s", "-lc", "-lpthread", "-lm", "-lrt", "-ldl", "-lgcc", "-lgcc_s",
        "-lunwind", "-lutil", "-nodefaultlibs", "-nostartfiles", "-nostdlib", "-lfoo",
    ]);
    assert_eq!(link_args(&all).unwrap(), words(&["-lfoo"]));
}

#[test]
fn release_flag_reaches_cargo() {
    let o = options(&["build", "--features", "x", "--release"]);
    assert!(o.release);
    assert!(o.cargo.contains(&b"--release".to_vec()));
}

#[test]
fn probe_search_order() {
    let probes = vec![Probe::NotAFile, Probe::File(0o644), Probe::File(0o755), Probe::Unreadable];
    assert_eq!(locate(&probes), Located::Found(2));
    let probes = vec![Probe::File(0o600), Probe::Unreadable, Probe::File(0o700)];
    assert_eq!(locate(&probes), Located::Unreadable(1));
    assert_eq!(locate(&vec![Probe::File(0o001)]), Located::Found(0));
    assert_eq!(locate(&vec![Probe::NotAFile, Probe::File(0o640)]), Located::NotFound);
}
