use cargo_cosmopolitan::paths::Toolchain;
use cargo_cosmopolitan::preflight::{
    check_nightly, core_manifest, cosmopolitan_report, host_probe, passed_report, probe_steps, required_files,
    no_parent_report, rust_src_missing, scratch_dir_name, step_failure, sysroot_command, version_command, version_report,
    PreflightError, ProbeStep, HOST_SOURCE, PROBE_SOURCE,
};

fn words(list: &[&str]) -> Vec<Vec<u8>> {
    list.iter().map(|s| s.as_bytes().to_vec()).collect()
}

fn text(bytes: Vec<u8>) -> String {
    String::from_utf8(bytes).unwrap()
}

fn toolchain() -> Toolchain {
    Toolchain { bin: b"/c/bin".to_vec(), rustup: b"/u/rustup".to_vec() }
}

#[test]
fn installation_files() {
    let files: Vec<(String, String)> =
        required_files(&toolchain()).into_iter().map(|f| (text(f.path), text(f.missing))).collect();
    let expect = |p: &str, shared: bool| {
        let m = if shared { format!("incomplete Cosmopolitan installation: missing {p}") } else { format!("missing {p}") };
        (p.to_string(), m)
    };
    assert_eq!(
        files,
        vec![
            expect("/c/bin/apelink", true),
            expect("/c/bin/pecheck", true),
            expect("/c/bin/ape-x86_64.elf", true),
            expect("/c/bin/ape-aarch64.elf", true),
            expect("/c/bin/ape-m1.c", true),
            expect("/c/bin/x86_64-unknown-cosmo-cc", false),
            expect("/c/bin/x86_64-linux-cosmo-ar", false),
            expect("/c/bin/aarch64-unknown-cosmo-cc", false),
            expect("/c/bin/aarch64-linux-cosmo-ar", false),
        ]
    );
}

#[test]
fn toolchain_checks() {
    let tc = toolchain();
    assert_eq!(version_command(&tc, b"nightly").args, words(&["run", "nightly", "rustc", "--version"]));
    assert_eq!(sysroot_command(&tc, b"nightly").args, words(&["run", "nightly", "rustc", "--print", "sysroot"]));
    assert!(check_nightly("rustc 1.95.0-nightly (abc 2026-01-20)\n").is_ok());
    assert_eq!(check_nightly("rustc 1.85.0 (4d91de4e4 2025-02-17)\n"), Err(PreflightError::NotNightly));
    assert_eq!(
        text(PreflightError::NotNightly.message()),
        "a nightly Rust toolchain is required (--toolchain nightly)"
    );
    assert_eq!(
        core_manifest(" /r/toolchains/nightly\n"),
        b"/r/toolchains/nightly/lib/rustlib/src/rust/library/core/Cargo.toml".to_vec()
    );
    assert_eq!(
        text(rust_src_missing(b"nightly-2026-01-21")),
        "rust-src is missing; run: rustup component add rust-src --toolchain nightly-2026-01-21"
    );
    assert_eq!(text(version_report("rustc 1.95.0-nightly\n")), "rustc 1.95.0-nightly");
    assert_eq!(text(cosmopolitan_report(b"/c/bin")), "Cosmopolitan at /c/bin");
    assert_eq!(text(no_parent_report()), "cosmocc has no parent directory");
    assert_eq!(text(passed_report()), "preflight passed (host Rust and both C toolchains)");
    assert_eq!(text(scratch_dir_name(7, 123456789)), "cargo-cosmopolitan-7-123456789");
}

fn run_view(s: &ProbeStep) -> (String, Vec<String>, bool, Option<String>) {
    match s {
        ProbeStep::Run { program, args, via_tool, context } => (
            text(program.clone()),
            args.iter().map(|a| text(a.clone())).collect(),
            *via_tool,
            context.clone().map(text),
        ),
        ProbeStep::ExpectElf { .. } => panic!("not a run"),
    }
}

#[test]
fn compile_and_link_probes() {
    let steps = probe_steps(&toolchain(), b"/tmp/p", true);
    assert_eq!(steps.len(), 8);
    let s: Vec<String> = |v: &[&str]| -> Vec<String> { v.iter().map(|x| x.to_string()).collect() }(&[
        "-std=c99", "-c", "/tmp/p/probe.c", "-o", "/tmp/p/x86_64.o", "-mtiny",
    ]);
    assert_eq!(
        run_view(&steps[0]),
        ("/c/bin/x86_64-unknown-cosmo-cc".to_string(), s, true, Some("x86_64 C compiler preflight failed: ".to_string()))
    );
    assert_eq!(
        run_view(&steps[1]),
        (
            "/c/bin/x86_64-linux-cosmo-ar".to_string(),
            vec!["crs".to_string(), "/tmp/p/x86_64.a".to_string(), "/tmp/p/x86_64.o".to_string()],
            true,
            None
        )
    );
    assert_eq!(run_view(&steps[6]).1, vec!["/tmp/p/aarch64.o", "-o", "/tmp/p/aarch64.elf", "-mtiny"]);
    match &steps[7] {
        ProbeStep::ExpectElf { path, complaint } => {
            assert_eq!(path, &b"/tmp/p/aarch64.elf".to_vec());
            assert_eq!(text(complaint.clone()), "aarch64 compiler did not produce an ELF executable");
        }
        _ => panic!("not an ELF check"),
    }
    let steps = probe_steps(&toolchain(), b"/tmp/p", false);
    assert_eq!(run_view(&steps[4]).1.last().unwrap(), "/tmp/p/aarch64.o");
    let h = host_probe(&toolchain(), b"nightly", b"/tmp/p");
    assert_eq!(
        run_view(&h),
        (
            "/u/rustup".to_string(),
            vec!["run", "nightly", "rustc", "/tmp/p/host.rs", "-o", "/tmp/p/host"].into_iter().map(String::from).collect(),
            false,
            Some("host Rust compiler/linker preflight failed: ".to_string())
        )
    );
    assert_eq!(text(step_failure(&Some(b"ctx: ".to_vec()), b"cc failed")), "ctx: cc failed");
    assert_eq!(text(step_failure(&None, b"cc failed")), "cc failed");
    assert!(PROBE_SOURCE.contains("__COSMOPOLITAN__"));
    assert_eq!(HOST_SOURCE, "fn main() {}\n");
}
