use cargo_cosmopolitan::steps::{
    arch_start, arch_step, build_start, build_step, check_start, check_step, pack_start, pack_step, probe_start,
    probe_step, ArchAction, BuildAction, CheckAction, Outcome, PackAction, PackStage, PlanStage, ProbeAction,
    ProbeStage,
};
use cargo_cosmopolitan::artifacts::{ArtifactKey, Artifacts};
use cargo_cosmopolitan::cli::{parse, Options, Parsed};
use cargo_cosmopolitan::packaging::{
    building_message, cargo_build, check_elf, check_same_targets, check_unique_name, cosmopolitan_root,
    finish_arch_build, line_event, manifest_path_position, metadata_command, output_dir, package_plan,
    packaged_message, read_line, target_root, BuildError, CargoMessage, LineEvent,
};
use cargo_cosmopolitan::paths::Toolchain;
use cargo_cosmopolitan::target::{
    all_arches, customize_target_spec, host_spec_command, spec_file, target_env_name, target_spec_json, Arch,
    TargetSpecError,
};

fn words(list: &[&str]) -> Vec<Vec<u8>> {
    list.iter().map(|s| s.as_bytes().to_vec()).collect()
}

fn text(bytes: Vec<u8>) -> String {
    String::from_utf8(bytes).unwrap()
}

fn toolchain() -> Toolchain {
    Toolchain { bin: b"/opt/cosmo/bin".to_vec(), rustup: b"/usr/bin/rustup".to_vec() }
}

fn options(list: &[&str]) -> Options {
    match parse(words(list)) {
        Ok(Parsed::Go(o)) => o,
        _ => panic!("not options"),
    }
}

#[test]
fn metadata_command_keeps_the_manifest() {
    let tc = toolchain();
    let o = options(&["build", "--bin", "x", "--manifest-path", "demo/Cargo.toml", "--release"]);
    assert_eq!(manifest_path_position(&o.cargo), Some(2));
    let c = metadata_command(&tc, &o);
    assert_eq!(
        c.args,
        words(&["run", "nightly-2026-01-21", "cargo", "metadata", "--format-version=1", "--no-deps", "--manifest-path", "demo/Cargo.toml"])
    );
    let o = options(&["build"]);
    assert_eq!(manifest_path_position(&o.cargo), None);
    assert_eq!(metadata_command(&tc, &o).args.len(), 6);
}

#[test]
fn target_directory_from_metadata() {
    assert_eq!(target_root(br#"{"target_directory":"/w/target"}"#).ok(), Some(b"/w/target/cosmopolitan".to_vec()));
    assert!(matches!(target_root(br#"{"packages":[]}"#), Err(BuildError::NoTargetDirectory)));
    assert!(matches!(target_root(b"not json"), Err(BuildError::InvalidMetadata(_))));
    assert_eq!(text(BuildError::NoTargetDirectory.message()), "Cargo did not report a target directory");
    assert_eq!(cosmopolitan_root(Some("t".to_string())).ok(), Some(b"t/cosmopolitan".to_vec()));
}

#[test]
fn cargo_build_invocation() {
    let tc = toolchain();
    let o = options(&["build", "--tiny", "--release"]);
    let b = cargo_build(&tc, &o, Arch::Aarch64, b"/r/targets/aarch64-unknown-cosmopolitan.json", b"/r", b"/r/targets/aarch64-ar");
    assert_eq!(b.command.program, b"/usr/bin/rustup".to_vec());
    assert_eq!(
        b.command.args,
        words(&[
            "run", "nightly-2026-01-21", "cargo", "build", "-Zbuild-std=core,alloc", "-Zbuild-std-features=",
            "--message-format=json-render-diagnostics", "--target", "/r/targets/aarch64-unknown-cosmopolitan.json",
            "--target-dir", "/r", "--config", "profile.dev.panic=\"abort\"", "--config",
            "profile.release.panic=\"abort\"", "--release",
        ])
    );
    let env: Vec<(String, String)> = b.env.iter().map(|e| (text(e.name.clone()), text(e.value.clone()))).collect();
    assert_eq!(
        env,
        vec![
            ("CC_aarch64_unknown_cosmopolitan".to_string(), "/opt/cosmo/bin/aarch64-unknown-cosmo-cc".to_string()),
            ("AR_aarch64_unknown_cosmopolitan".to_string(), "/r/targets/aarch64-ar".to_string()),
            ("CARGO_COSMO_LINK_CC".to_string(), "/opt/cosmo/bin/aarch64-unknown-cosmo-cc".to_string()),
            ("CFLAGS_aarch64_unknown_cosmopolitan".to_string(), "-mtiny".to_string()),
        ]
    );
    assert_eq!(target_env_name(Arch::X86_64), b"x86_64_unknown_cosmopolitan".to_vec());
    assert_eq!(spec_file(Arch::X86_64), b"x86_64-unknown-cosmopolitan.json".to_vec());
    let arches = all_arches();
    assert_eq!(arches, vec![Arch::X86_64, Arch::Aarch64]);
    assert_eq!(text(building_message(Arch::X86_64)), "building x86_64");
}

#[test]
fn host_specification_command() {
    let c = host_spec_command(&toolchain(), b"nightly", Arch::X86_64);
    assert_eq!(
        c.args,
        words(&["run", "nightly", "rustc", "-Zunstable-options", "--print", "target-spec-json", "--target", "x86_64-unknown-linux-gnu"])
    );
}

#[test]
fn target_specification_is_customized() {
    let host = br#"{"arch":"aarch64","llvm-target":"aarch64-unknown-linux-gnu","is-builtin":true,
        "pre-link-args":{"gnu-cc":["-m64"]},"supported-sanitizers":["address"],"os":"linux","metadata":{}}"#;
    let bytes = target_spec_json(host, Arch::Aarch64, "/bin/cargo-cosmopolitan".to_string(), true).ok().unwrap();
    let v: serde_json::Value = serde_json::from_slice(&bytes).unwrap();
    let o = v.as_object().unwrap();
    assert_eq!(o["arch"], "aarch64");
    assert_eq!(o["llvm-target"], "aarch64-unknown-linux-gnu");
    assert!(!o.contains_key("is-builtin"));
    assert!(!o.contains_key("metadata"));
    assert!(!o.contains_key("supported-sanitizers"));
    assert_eq!(o["os"], "cosmopolitan");
    assert_eq!(o["env"], "cosmo");
    assert_eq!(o["linker"], "/bin/cargo-cosmopolitan");
    assert_eq!(o["target-family"][0], "unix");
    assert_eq!(o["panic-strategy"], "abort");
    assert_eq!(o["has-thread-local"], false);
    assert_eq!(o["disable-redzone"], true);
    assert_eq!(o["features"], "+v8a,+outline-atomics,+reserve-x18,+reserve-x28");
    assert_eq!(o["pre-link-args"]["gnu-cc"][0], "-mtiny");
    assert_eq!(o.len(), 24);

    let bytes = target_spec_json(br#"{"arch":"x86_64","pre-link-args":{}}"#, Arch::X86_64, "l".to_string(), false).ok().unwrap();
    let v: serde_json::Value = serde_json::from_slice(&bytes).unwrap();
    let o = v.as_object().unwrap();
    assert!(!o.contains_key("features"));
    assert!(!o.contains_key("pre-link-args"));
    assert_eq!(o.len(), 21);
}

#[test]
fn target_specification_failures() {
    let e = target_spec_json(b"{", Arch::X86_64, "l".to_string(), false).err().unwrap();
    assert!(matches!(e, TargetSpecError::InvalidJson(_)));
    assert!(text(e.message()).contains("line 1 column 1"));
    let e = target_spec_json(b"[1]", Arch::X86_64, "l".to_string(), false).err().unwrap();
    assert!(matches!(e, TargetSpecError::NotAnObject));
    assert_eq!(text(e.message()), "invalid Rust target specification");
    let mut m = serde_json::Map::new();
    customize_target_spec(&mut m, Arch::X86_64, "l".to_string(), false);
    assert_eq!(m.len(), 20);
}

fn message(reason: Option<&str>, exe: Option<&str>, kind: Option<&str>, name: Option<&str>) -> CargoMessage {
    CargoMessage {
        reason: reason.map(String::from),
        executable: exe.map(String::from),
        kind: kind.map(String::from),
        name: name.map(String::from),
        package_id: "\"demo 0.1.0\"".to_string(),
        rendered: None,
    }
}

#[test]
fn cargo_messages_are_classified() {
    let line = r#"{"reason":"compiler-artifact","package_id":"path+file:///d#0.1.0","target":{"kind":["bin"],"name":"demo"},"executable":"/t/demo"}"#;
    match line_event(line, read_line(line)).ok().unwrap() {
        LineEvent::Built(a) => {
            assert_eq!(a.key.package, b"\"path+file:///d#0.1.0\"".to_vec());
            assert_eq!(a.key.kind, b"bin".to_vec());
            assert_eq!(a.key.name, b"demo".to_vec());
            assert_eq!(a.path, b"/t/demo".to_vec());
        }
        _ => panic!("not an artifact"),
    }
    let line = r#"{"reason":"compiler-message","message":{"rendered":"warning: x\n"}}"#;
    assert!(matches!(line_event(line, read_line(line)).ok().unwrap(), LineEvent::Show(t) if t == b"warning: x\n".to_vec()));
    let line = "   Compiling demo";
    assert!(matches!(line_event(line, read_line(line)).ok().unwrap(), LineEvent::Echo(t) if t == line.as_bytes().to_vec()));
    let line = r#"{"reason":"build-finished","success":true}"#;
    assert!(matches!(line_event(line, read_line(line)).ok().unwrap(), LineEvent::Nothing));
    assert!(matches!(line_event("x", Some(message(Some("compiler-artifact"), Some("/t/lib"), Some("lib"), Some("l")))).ok().unwrap(), LineEvent::Nothing));
    assert!(matches!(line_event("x", Some(message(Some("compiler-artifact"), None, Some("bin"), Some("l")))).ok().unwrap(), LineEvent::Nothing));
    assert!(matches!(line_event("x", Some(message(Some("compiler-artifact"), Some("/t/e"), Some("example"), Some("e")))).ok().unwrap(), LineEvent::Built(_)));
    let e = line_event("x", Some(message(Some("compiler-artifact"), Some("/t/b"), Some("bin"), None))).err().unwrap();
    assert_eq!(text(e.message()), "artifact has no name");
}

#[test]
fn build_outcome_checks() {
    let mut found = Artifacts::new();
    assert_eq!(text(finish_arch_build(Arch::X86_64, false, &found).err().unwrap().message()), "x86_64 Cargo build failed");
    assert_eq!(
        text(finish_arch_build(Arch::X86_64, true, &found).err().unwrap().message()),
        "no executable selected; use --bin NAME or --example NAME"
    );
    let k = ArtifactKey { package: b"p".to_vec(), kind: b"bin".to_vec(), name: b"demo".to_vec() };
    found.insert(k, b"/t/demo".to_vec());
    assert!(finish_arch_build(Arch::Aarch64, true, &found).is_ok());
    assert!(check_elf(b"/t/demo", b"\x7fELF").is_ok());
    assert_eq!(text(check_elf(b"/t/demo", b"MZqF").err().unwrap().message()), "expected an ELF executable at /t/demo");
    let other = Artifacts::new();
    assert_eq!(
        text(check_same_targets(&found, &other).err().unwrap().message()),
        "the two architecture builds produced different executable targets"
    );
    assert!(check_same_targets(&found, &found).is_ok());
    let k2 = ArtifactKey { package: b"q".to_vec(), kind: b"bin".to_vec(), name: b"demo".to_vec() };
    found.insert(k2, b"/t/q/demo".to_vec());
    assert!(check_unique_name(&found, 0).is_ok());
    assert_eq!(
        text(check_unique_name(&found, 1).err().unwrap().message()),
        "multiple executables named demo; select one package/target"
    );
}

#[test]
fn packaging_plan() {
    let tc = toolchain();
    assert_eq!(output_dir(b"/r", true), b"/r/release".to_vec());
    assert_eq!(output_dir(b"/r", false), b"/r/debug".to_vec());
    let p = package_plan(&tc, b"/r/release", b"demo", 42, b"/x/demo", b"/a/demo");
    assert_eq!(p.destination, b"/r/release/demo.com".to_vec());
    assert_eq!(p.temporary, b"/r/release/.demo-42.tmp".to_vec());
    assert_eq!(
        p.apelink_args,
        words(&[
            "-V", "-1", "-l", "/opt/cosmo/bin/ape-x86_64.elf", "-l", "/opt/cosmo/bin/ape-aarch64.elf", "-M",
            "/opt/cosmo/bin/ape-m1.c", "-o", "/r/release/.demo-42.tmp", "/x/demo", "/a/demo",
        ])
    );
    assert_eq!(text(packaged_message(b"/r/release/demo.com", 1234)), "/r/release/demo.com (1234 bytes, x86_64 + aarch64)");
}

#[test]
fn packaging_replaces_the_destination_only_after_both_checks() {
    let (stage, action) = pack_start();
    assert_eq!((stage, action), (PackStage::Linking, PackAction::RunApelink));
    let (stage, action) = pack_step(stage, Outcome::Succeeded);
    assert_eq!((stage, action), (PackStage::Checking, PackAction::RunPecheck));
    let (stage, action) = pack_step(stage, Outcome::Succeeded);
    assert_eq!((stage, action), (PackStage::Installing, PackAction::Install));
    let (stage, action) = pack_step(stage, Outcome::Succeeded);
    assert_eq!((stage, action), (PackStage::Packaged, PackAction::Report));
    assert_eq!(pack_step(PackStage::Checking, Outcome::Failed), (PackStage::Abandoned, PackAction::RemoveTemporary));
    assert_eq!(pack_step(PackStage::Linking, Outcome::Failed), (PackStage::Abandoned, PackAction::RemoveTemporary));
}

#[test]
fn preflight_scratch_directory_is_removed_on_failure_and_success() {
    let (mut stage, mut action) = probe_start();
    assert_eq!(action, ProbeAction::CreateScratch);
    let mut actions = vec![action];
    for _ in 0..6 {
        (stage, action) = probe_step(2, stage, Outcome::Succeeded);
        actions.push(action);
    }
    assert_eq!(
        actions,
        vec![
            ProbeAction::CreateScratch,
            ProbeAction::WriteProbeSource,
            ProbeAction::RunProbe(0),
            ProbeAction::RunProbe(1),
            ProbeAction::WriteHostSource,
            ProbeAction::RunHostProbe,
            ProbeAction::RemoveScratch,
        ]
    );
    assert_eq!(probe_step(2, stage, Outcome::Succeeded), (ProbeStage::Finished(true), ProbeAction::Pass));
    let (stage, action) = probe_step(2, ProbeStage::Probing(0), Outcome::Failed);
    assert_eq!(action, ProbeAction::RemoveScratch);
    assert_eq!(probe_step(2, stage, Outcome::Succeeded), (ProbeStage::Finished(false), ProbeAction::Fail));
    assert_eq!(probe_step(2, ProbeStage::Creating, Outcome::Failed), (ProbeStage::Finished(false), ProbeAction::Fail));
}

#[test]
fn target_specification_keeps_other_host_entries() {
    let host = br#"{"arch":"x86_64","target-pointer-width":"64","max-atomic-width":64,
        "stack-probes":{"kind":"inline"},"data-layout":"e-m:e","post-link-args":{"gnu-cc":["-x"]}}"#;
    let bytes = target_spec_json(host, Arch::X86_64, "l".to_string(), true).ok().unwrap();
    let v: serde_json::Value = serde_json::from_slice(&bytes).unwrap();
    let o = v.as_object().unwrap();
    assert_eq!(o["max-atomic-width"], 64);
    assert_eq!(o["stack-probes"]["kind"], "inline");
    assert_eq!(o["data-layout"], "e-m:e");
    assert!(!o.contains_key("post-link-args"));
    let tiny: serde_json::Value = serde_json::from_str(r#"{"gnu-cc":["-mtiny"]}"#).unwrap();
    assert_eq!(o["pre-link-args"], tiny);
    assert_eq!(bytes, serde_json::to_vec_pretty(&v).unwrap());
}

#[test]
fn preflight_checks_files_before_running_compilers() {
    let (mut stage, mut action) = check_start(2);
    let mut actions = vec![action];
    while action != CheckAction::StartProbes {
        (stage, action) = check_step(2, stage, Outcome::Succeeded);
        actions.push(action);
    }
    assert_eq!(
        actions,
        vec![
            CheckAction::FindCosmocc,
            CheckAction::FindRustup,
            CheckAction::CheckFile(0),
            CheckAction::CheckFile(1),
            CheckAction::QueryVersion,
            CheckAction::QuerySysroot,
            CheckAction::CheckRustSrc,
            CheckAction::StartProbes,
        ]
    );
    assert_eq!(stage, PlanStage::Done);
    assert_eq!(check_step(2, PlanStage::At(2), Outcome::Failed), (PlanStage::Stopped, CheckAction::Fail));
    assert_eq!(check_step(2, PlanStage::Stopped, Outcome::Succeeded), (PlanStage::Stopped, CheckAction::Fail));
}

#[test]
fn architecture_and_build_plans_stop_at_the_first_failure() {
    let (mut stage, mut action) = arch_start();
    let mut actions = vec![action];
    while action != ArchAction::Built {
        (stage, action) = arch_step(stage, Outcome::Succeeded);
        actions.push(action);
    }
    assert_eq!(
        actions,
        vec![
            ArchAction::WriteTargetSpec,
            ArchAction::WriteArLauncher,
            ArchAction::RunCargo,
            ArchAction::CheckBuild,
            ArchAction::CheckExecutables,
            ArchAction::Built,
        ]
    );
    assert_eq!(arch_step(PlanStage::At(1), Outcome::Failed).1, ArchAction::Fail);

    let (stage, action) = build_start();
    assert_eq!(action, BuildAction::FindTargetDirectory);
    let (stage, action) = build_step(stage, Outcome::Succeeded);
    assert_eq!(action, BuildAction::BuildX86_64);
    assert_eq!(build_step(stage, Outcome::Failed), (PlanStage::Stopped, BuildAction::Fail));
    let (stage, action) = build_step(stage, Outcome::Succeeded);
    assert_eq!(action, BuildAction::BuildAarch64);
    let (stage, action) = build_step(stage, Outcome::Succeeded);
    assert_eq!(action, BuildAction::CompareTargets);
    let (stage, action) = build_step(stage, Outcome::Succeeded);
    assert_eq!(action, BuildAction::PackageAll);
    assert_eq!(build_step(stage, Outcome::Succeeded), (PlanStage::Done, BuildAction::Finish));
}
