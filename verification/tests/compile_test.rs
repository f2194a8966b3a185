use docusaurus::compile::{
    compile_config, dylib_name_matches, pick_dylib, CompileAction, CompileEvent, TargetOs,
};
use docusaurus::error::{DocusaurusError, IoKind};

use tempfile::TempDir;

fn join(a: &str, b: &str) -> String {
    std::path::Path::new(a).join(b).to_string_lossy().into_owned()
}

#[test]
fn compile_config_returns_err_when_config_rs_missing() {
    let tmp = TempDir::new().unwrap();
    let site = tmp.path().to_str().unwrap();
    // No docusaurus.config.rs — expect ConfigNotFound
    let (mut run, action) = compile_config(site, TargetOs::Other);
    let exists = match action {
        CompileAction::CheckExists(p) => std::path::Path::new(&p).exists(),
        _ => panic!("the build must first look for the config"),
    };
    let err = match run.step(CompileEvent::Exists(exists)) {
        CompileAction::Finish(Err(e)) => e,
        _ => panic!("a missing config must end the build"),
    };
    assert!(
        err.message().contains("docusaurus.config.rs not found"),
        "unexpected error: {}",
        err.message()
    );
    assert!(run.is_finished());
}

#[test]
fn injected_copy_is_removed_after_failed_build() {
    let site = "/work/site";
    let (mut run, a) = compile_config(site, TargetOs::Other);
    assert!(matches!(a, CompileAction::CheckExists(ref p) if *p == join(site, "docusaurus.config.rs")));
    let a = run.step(CompileEvent::Exists(true));
    assert!(matches!(a, CompileAction::CreateDirAll(ref p) if *p == join(site, "src")));
    let a = run.step(CompileEvent::Done);
    let lib_rs = join(&join(site, "src"), "lib.rs");
    assert!(matches!(a, CompileAction::CheckExists(ref p) if *p == lib_rs));
    let a = run.step(CompileEvent::Exists(false));
    match a {
        CompileAction::Copy { from, to } => {
            assert_eq!(from, join(site, "docusaurus.config.rs"));
            assert_eq!(to, lib_rs);
        }
        _ => panic!("expected a copy"),
    }
    let a = run.step(CompileEvent::Done);
    assert!(matches!(a, CompileAction::RunCargo { ref manifest } if *manifest == join(site, "Cargo.toml")));
    let a = run.step(CompileEvent::CargoFinished { success: false, stderr: "boom".to_string() });
    assert!(matches!(a, CompileAction::RemoveFile(ref p) if *p == lib_rs));
    let a = run.step(CompileEvent::Failed(IoKind::Other, "already gone".to_string()));
    match a {
        CompileAction::Finish(Err(DocusaurusError::CompileFailed(s))) => assert_eq!(s, "boom"),
        _ => panic!("expected CompileFailed"),
    }
    assert!(run.is_finished());
}

#[test]
fn existing_lib_rs_is_left_alone_and_dylib_is_found() {
    let site = "/work/site";
    let (mut run, _) = compile_config(site, TargetOs::Other);
    run.step(CompileEvent::Exists(true));
    run.step(CompileEvent::Done);
    let a = run.step(CompileEvent::Exists(true));
    assert!(matches!(a, CompileAction::RunCargo { .. }));
    let a = run.step(CompileEvent::CargoFinished { success: true, stderr: String::new() });
    let target = join(&join(site, "target"), "debug");
    assert!(matches!(a, CompileAction::ListDir(ref p) if *p == target));
    let a = run.step(CompileEvent::Listed(vec![
        "build".to_string(),
        "libcfg.d".to_string(),
        "libcfg.so".to_string(),
        "libother.so".to_string(),
    ]));
    match a {
        CompileAction::Finish(Ok(p)) => assert_eq!(p, join(&target, "libcfg.so")),
        _ => panic!("expected the dylib"),
    }
}

#[test]
fn no_dylib_in_listing_is_an_io_error() {
    let site = "/w";
    let (mut run, _) = compile_config(site, TargetOs::MacOs);
    run.step(CompileEvent::Exists(true));
    run.step(CompileEvent::Done);
    run.step(CompileEvent::Exists(true));
    run.step(CompileEvent::CargoFinished { success: true, stderr: String::new() });
    let a = run.step(CompileEvent::Listed(vec!["libcfg.so".to_string()]));
    let target = join(&join(site, "target"), "debug");
    match a {
        CompileAction::Finish(Err(DocusaurusError::Io(kind, m))) => {
            assert_eq!(kind, IoKind::NotFound);
            assert_eq!(m, format!("no dylib found in {target}"))
        }
        _ => panic!("expected an I/O error"),
    }
}

#[test]
fn failed_step_ends_the_build() {
    let (mut run, _) = compile_config("/w", TargetOs::Other);
    run.step(CompileEvent::Exists(true));
    let a = run.step(CompileEvent::Failed(IoKind::Other, "permission denied".to_string()));
    match a {
        CompileAction::Finish(Err(e)) => assert_eq!(e.message(), "IO error: permission denied"),
        _ => panic!("expected an error"),
    }
    assert!(!run.accepts(&CompileEvent::Done));
}

#[test]
fn dylib_names_per_platform() {
    assert!(dylib_name_matches(TargetOs::Other, "libcfg.so"));
    assert!(!dylib_name_matches(TargetOs::Other, "cfg.so"));
    assert!(!dylib_name_matches(TargetOs::Other, "libcfg.dylib"));
    assert!(dylib_name_matches(TargetOs::MacOs, "libcfg.dylib"));
    assert!(dylib_name_matches(TargetOs::Windows, "cfg.dll"));
    assert!(dylib_name_matches(TargetOs::Windows, "libcfg.dll"));
    assert!(!dylib_name_matches(TargetOs::Windows, "cfg.so"));
    assert!(!dylib_name_matches(TargetOs::Other, "lib"));
    let names = vec!["a.txt".to_string(), "libx.so".to_string(), "liby.so".to_string()];
    assert_eq!(pick_dylib(TargetOs::Other, &names), Some(1));
    assert_eq!(pick_dylib(TargetOs::Windows, &names), None);
}

#[test]
fn injected_copy_is_removed_when_cargo_cannot_start() {
    let site = "/work/site";
    let lib_rs = join(&join(site, "src"), "lib.rs");
    let (mut run, _) = compile_config(site, TargetOs::Other);
    run.step(CompileEvent::Exists(true));
    run.step(CompileEvent::Done);
    assert!(matches!(run.step(CompileEvent::Exists(false)), CompileAction::Copy { .. }));
    assert!(matches!(run.step(CompileEvent::Done), CompileAction::RunCargo { .. }));
    let a = run.step(CompileEvent::Failed(IoKind::Other, "cargo: not found".to_string()));
    assert!(matches!(a, CompileAction::RemoveFile(ref p) if *p == lib_rs));
    match run.step(CompileEvent::Done) {
        CompileAction::Finish(Err(e)) => assert_eq!(e.message(), "IO error: cargo: not found"),
        _ => panic!("expected an I/O error"),
    }
}

#[test]
fn failed_copy_is_cleaned_up() {
    let site = "/work/site";
    let lib_rs = join(&join(site, "src"), "lib.rs");
    let (mut run, _) = compile_config(site, TargetOs::Other);
    run.step(CompileEvent::Exists(true));
    run.step(CompileEvent::Done);
    run.step(CompileEvent::Exists(false));
    let a = run.step(CompileEvent::Failed(IoKind::PermissionDenied, "disk full".to_string()));
    assert!(matches!(a, CompileAction::RemoveFile(ref p) if *p == lib_rs));
    match run.step(CompileEvent::Failed(IoKind::Other, "no such file".to_string())) {
        CompileAction::Finish(Err(DocusaurusError::Io(kind, m))) => {
            assert_eq!(kind, IoKind::PermissionDenied);
            assert_eq!(m, "disk full")
        }
        _ => panic!("expected the copy's error"),
    }
}

#[test]
fn cargo_not_starting_without_copy_ends_at_once() {
    let (mut run, _) = compile_config("/w", TargetOs::Other);
    run.step(CompileEvent::Exists(true));
    run.step(CompileEvent::Done);
    run.step(CompileEvent::Exists(true));
    match run.step(CompileEvent::Failed(IoKind::NotFound, "cargo: not found".to_string())) {
        CompileAction::Finish(Err(DocusaurusError::Io(kind, m))) => {
            assert_eq!(kind, IoKind::NotFound);
            assert_eq!(m, "cargo: not found")
        }
        _ => panic!("expected an I/O error"),
    }
}
