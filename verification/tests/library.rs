use cargo_cosmopolitan::artifacts::{ArtifactKey, Artifacts};
use cargo_cosmopolitan::bytes::{decimal_bytes, find_bytes};
use cargo_cosmopolitan::cli::{parse, Parsed};
use cargo_cosmopolitan::driver::{
    continues_after_preflight, exit_code, launches_after_build, loader_command, single_executable,
    with_program_args, RunError,
};
use cargo_cosmopolitan::cli::Action;
use cargo_cosmopolitan::launch::{launcher_script, needs_write, tool_command, LauncherError, ToolCommand};
use cargo_cosmopolitan::order::{compare_bytes, Order};
use cargo_cosmopolitan::paths::{join, Toolchain};
use cargo_cosmopolitan::process::{absolute_path, check_status, needs_current_dir};

fn words(list: &[&str]) -> Vec<Vec<u8>> {
    list.iter().map(|s| s.as_bytes().to_vec()).collect()
}

fn text(bytes: Vec<u8>) -> String {
    String::from_utf8(bytes).unwrap()
}

fn toolchain() -> Toolchain {
    Toolchain { bin: b"/opt/cosmo/bin".to_vec(), rustup: b"/usr/bin/rustup".to_vec() }
}

#[test]
fn paths_join_as_pathbuf_push_does() {
    assert_eq!(join(b"/usr/bin", b"cc"), b"/usr/bin/cc".to_vec());
    assert_eq!(join(b"/usr/bin/", b"cc"), b"/usr/bin/cc".to_vec());
    assert_eq!(join(b"", b"cc"), b"cc".to_vec());
    assert_eq!(join(b"rel", b"/abs"), b"/abs".to_vec());
    assert_eq!(join(b"a", b""), b"a/".to_vec());
}

#[test]
fn toolchain_paths() {
    let tc = toolchain();
    assert_eq!(tc.path("apelink"), b"/opt/cosmo/bin/apelink".to_vec());
    assert_eq!(tc.cc("x86_64"), b"/opt/cosmo/bin/x86_64-unknown-cosmo-cc".to_vec());
    assert_eq!(tc.ar("aarch64"), b"/opt/cosmo/bin/aarch64-linux-cosmo-ar".to_vec());
    let c = tc.rust(b"nightly", "cargo");
    assert_eq!(c.program, b"/usr/bin/rustup".to_vec());
    assert_eq!(c.args, words(&["run", "nightly", "cargo"]));
}

#[test]
fn ape_tools_go_through_the_shell() {
    let c = tool_command(b"/bin/tool", b"MZqF");
    assert_eq!(c.program, b"/bin/sh".to_vec());
    assert_eq!(c.args, words(&["/bin/tool"]));
    let c = tool_command(b"/bin/tool", b"jart");
    assert_eq!(c.program, b"/bin/sh".to_vec());
    let c = tool_command(b"/bin/tool", b"\x7fELF");
    assert_eq!(c.program, b"/bin/tool".to_vec());
    assert!(c.args.is_empty());
}

#[test]
fn launcher_scripts_quote_every_word() {
    let c = ToolCommand { program: b"/bin/sh".to_vec(), args: words(&["/opt/it's/ar"]) };
    let script = text(launcher_script(&c).unwrap());
    assert_eq!(script, "#!/bin/sh\nexec '/bin/sh' '/opt/it'\\''s/ar' \"$@\"\n");
    let c = ToolCommand { program: b"/x/ar".to_vec(), args: Vec::new() };
    assert_eq!(text(launcher_script(&c).unwrap()), "#!/bin/sh\nexec '/x/ar' \"$@\"\n");
}

#[test]
fn shell_quote_reads_back_as_the_word() {
    // A quoted word: outside quotes only \' appears, so sh reads the original bytes.
    let c = ToolCommand { program: b"''".to_vec(), args: Vec::new() };
    let script = text(launcher_script(&c).unwrap());
    assert_eq!(script, "#!/bin/sh\nexec ''\\'''\\''' \"$@\"\n");
}

#[test]
fn launcher_needs_utf8_paths() {
    let c = ToolCommand { program: b"/bin/sh".to_vec(), args: vec![vec![0xff]] };
    assert_eq!(launcher_script(&c).err(), Some(LauncherError::NotUtf8));
    assert_eq!(text(LauncherError::NotUtf8.message()), "tool paths must be UTF-8");
    let c = ToolCommand { program: vec![0xc3], args: Vec::new() };
    assert_eq!(launcher_script(&c).err(), Some(LauncherError::NotUtf8));
}

#[test]
fn files_are_written_only_when_changed() {
    assert!(needs_write(&None, b"x"));
    assert!(needs_write(&Some(b"y".to_vec()), b"x"));
    assert!(!needs_write(&Some(b"x".to_vec()), b"x"));
}

#[test]
fn command_status_decides() {
    assert!(check_status(b"cc", true, b"exit status: 0").is_ok());
    let f = check_status(b"cc", false, b"exit status: 1").err().unwrap();
    assert_eq!(text(f.message()), "cc failed (exit status: 1)");
}

#[test]
fn found_tools_are_made_absolute() {
    assert!(needs_current_dir(b"bin/cosmocc"));
    assert!(!needs_current_dir(b"/bin/cosmocc"));
    assert_eq!(absolute_path(b"bin/cosmocc", b"/home/u"), b"/home/u/bin/cosmocc".to_vec());
    assert_eq!(absolute_path(b"/bin/cosmocc", b"/home/u"), b"/bin/cosmocc".to_vec());
}

#[test]
fn byte_order_and_search() {
    assert_eq!(compare_bytes(b"a", b"b"), Order::Less);
    assert_eq!(compare_bytes(b"ab", b"a"), Order::Greater);
    assert_eq!(compare_bytes(b"", b""), Order::Equal);
    assert_eq!(compare_bytes(b"\xff", b"z"), Order::Greater);
    assert!(find_bytes(b"rustc 1.95.0-nightly (x)", b"nightly"));
    assert!(!find_bytes(b"rustc 1.95.0", b"nightly"));
    assert!(find_bytes(b"abc", b""));
    assert_eq!(decimal_bytes(0), b"0".to_vec());
    assert_eq!(decimal_bytes(4096), b"4096".to_vec());
    assert_eq!(decimal_bytes(u128::MAX), u128::MAX.to_string().into_bytes());
}

fn key(package: &str, kind: &str, name: &str) -> ArtifactKey {
    ArtifactKey { package: package.as_bytes().to_vec(), kind: kind.as_bytes().to_vec(), name: name.as_bytes().to_vec() }
}

#[test]
fn artifacts_stay_in_key_order_and_replace() {
    let mut a = Artifacts::new();
    a.insert(key("p2", "bin", "z"), b"/t/z".to_vec());
    a.insert(key("p1", "example", "e"), b"/t/e".to_vec());
    a.insert(key("p1", "bin", "m"), b"/t/m".to_vec());
    a.insert(key("p2", "bin", "z"), b"/t/z2".to_vec());
    assert_eq!(a.len(), 3);
    let names: Vec<Vec<u8>> = (0..a.len()).map(|i| a.get(i).key.name.clone()).collect();
    assert_eq!(names, words(&["m", "e", "z"]));
    assert_eq!(a.get(2).path, b"/t/z2".to_vec());
    assert_eq!(a.position(&key("p1", "example", "e")), Some(1));
    assert_eq!(a.position(&key("p3", "bin", "e")), None);
    let mut b = Artifacts::new();
    b.insert(key("p1", "example", "e"), b"/u/e".to_vec());
    b.insert(key("p2", "bin", "z"), b"/u/z".to_vec());
    assert!(!a.same_keys(&b));
    b.insert(key("p1", "bin", "m"), b"/u/m".to_vec());
    assert!(a.same_keys(&b));
    let mut c = Artifacts::new();
    c.insert(key("p1", "bin", "tool"), b"/a".to_vec());
    c.insert(key("p2", "bin", "tool"), b"/b".to_vec());
    assert!(!c.name_seen_before(0));
    assert!(c.name_seen_before(1));
}

#[test]
fn run_decisions() {
    assert!(!continues_after_preflight(Action::Preflight));
    assert!(continues_after_preflight(Action::Build));
    assert!(continues_after_preflight(Action::Run));
    assert!(!launches_after_build(Action::Build));
    assert!(launches_after_build(Action::Run));
    assert!(single_executable(&words(&["/a.com"])).is_ok());
    assert_eq!(single_executable(&words(&["/a.com", "/b.com"])), Err(RunError::NeedsOneExecutable));
    assert_eq!(single_executable(&Vec::new()), Err(RunError::NeedsOneExecutable));
    assert_eq!(
        text(RunError::NeedsOneExecutable.message()),
        "run requires exactly one executable; use --bin or --example"
    );
    let c = loader_command(&toolchain(), "x86_64", b"/t/demo.com");
    assert_eq!(c.program, b"/opt/cosmo/bin/ape-x86_64.elf".to_vec());
    let c = with_program_args(c, &words(&["--", "World"]));
    assert_eq!(c.args, words(&["/t/demo.com", "--", "World"]));
    assert_eq!(exit_code(Some(3)), 3);
    assert_eq!(exit_code(None), 1);
}

#[test]
fn run_with_program_arguments() {
    let o = match parse(words(&["run", "--release", "--", "Andrew"])) {
        Ok(Parsed::Go(o)) => o,
        _ => panic!("refused"),
    };
    let c = with_program_args(tool_command(b"/t/demo.com", b"MZqF"), &o.program);
    assert_eq!(c.program, b"/bin/sh".to_vec());
    assert_eq!(c.args, words(&["/t/demo.com", "Andrew"]));
}
