use toolchains::cmd::{Binary, CommandFailure, RecordingWorkspace, Workspace};
use toolchains::record::{deserialize, serialize};
use toolchains::toolchain::{with_context, Error, Toolchain};

fn dist(name: &str) -> Toolchain {
    Toolchain::Dist { name: name.to_string() }
}

fn ci(sha: &str, alt: bool) -> Toolchain {
    Toolchain::CI { sha: sha.to_string(), alt }
}

#[test]
fn canonical_identifier_of_dist_is_its_name() {
    assert_eq!(dist("stable").rustup_name(), "stable");
}

#[test]
fn canonical_identifier_of_ci_is_its_sha() {
    assert_eq!(ci("abc123", false).rustup_name(), "abc123");
}

#[test]
fn canonical_identifier_of_alt_ci_appends_suffix() {
    assert_eq!(ci("abc123", true).rustup_name(), "abc123-alt");
}

#[test]
fn main_toolchain_is_stable_dist() {
    assert_eq!(Toolchain::main_toolchain(), dist("stable"));
}

#[test]
fn structural_equality_over_all_fields() {
    assert_eq!(dist("beta"), dist("beta"));
    assert_ne!(dist("beta"), dist("nightly"));
    assert_eq!(ci("abc", true), ci("abc", true));
    assert_ne!(ci("abc", true), ci("abc", false));
    assert_ne!(ci("abc", false), ci("def", false));
    assert_ne!(dist("abc"), ci("abc", false));
}

#[test]
fn serialize_dist_record_shape() {
    let r = serialize(&dist("beta"));
    assert_eq!(r.record_type, "dist");
    assert_eq!(r.name, Some("beta".to_string()));
    assert_eq!(r.sha, None);
    assert_eq!(r.alt, None);
}

#[test]
fn serialize_ci_record_shape() {
    let r = serialize(&ci("abc123", true));
    assert_eq!(r.record_type, "ci");
    assert_eq!(r.name, None);
    assert_eq!(r.sha, Some("abc123".to_string()));
    assert_eq!(r.alt, Some(true));
}

#[test]
fn serialize_deserialize_round_trip() {
    for t in [dist("stable"), dist("beta"), ci("abc123", false), ci("abc123", true)] {
        assert_eq!(deserialize(&serialize(&t)), Some(t));
    }
}

#[test]
fn deserialize_rejects_unknown_type() {
    let mut r = serialize(&dist("beta"));
    r.record_type = "nightly".to_string();
    assert_eq!(deserialize(&r), None);
}

#[test]
fn deserialize_rejects_missing_fields() {
    let mut r = serialize(&dist("beta"));
    r.name = None;
    assert_eq!(deserialize(&r), None);
    let mut r = serialize(&ci("abc123", true));
    r.alt = None;
    assert_eq!(deserialize(&r), None);
    r.sha = None;
    assert_eq!(deserialize(&r), None);
}

#[test]
fn install_dist_issues_one_manager_invocation() {
    let mut w = RecordingWorkspace::new();
    let r = dist("beta").install(&mut w);
    assert!(r.is_ok());
    assert_eq!(w.invocations.len(), 1);
    assert!(matches!(w.invocations[0].binary, Binary::ToolchainManager));
    assert_eq!(w.invocations[0].args, vec!["toolchain", "install", "beta"]);
}

#[test]
fn install_ci_issues_one_installer_invocation() {
    let mut w = RecordingWorkspace::new();
    let r = ci("deadbeef", false).install(&mut w);
    assert!(r.is_ok());
    assert_eq!(w.invocations.len(), 1);
    assert!(matches!(w.invocations[0].binary, Binary::CiArtifactInstaller));
    assert_eq!(w.invocations[0].args, vec!["deadbeef", "-c", "cargo"]);
}

#[test]
fn install_alt_ci_appends_alt_flag() {
    let mut w = RecordingWorkspace::new();
    let r = ci("deadbeef", true).install(&mut w);
    assert!(r.is_ok());
    assert_eq!(w.invocations.len(), 1);
    assert!(matches!(w.invocations[0].binary, Binary::CiArtifactInstaller));
    assert_eq!(w.invocations[0].args, vec!["deadbeef", "-c", "cargo", "--alt"]);
}

#[test]
fn add_component_on_dist_invokes_manager() {
    let mut w = RecordingWorkspace::new();
    let r = dist("beta").add_component(&mut w, "clippy");
    assert!(r.is_ok());
    assert_eq!(w.invocations.len(), 1);
    assert!(matches!(w.invocations[0].binary, Binary::ToolchainManager));
    assert_eq!(
        w.invocations[0].args,
        vec!["component", "add", "--toolchain", "beta", "clippy"]
    );
}

#[test]
fn add_target_on_dist_invokes_manager() {
    let mut w = RecordingWorkspace::new();
    let r = dist("nightly").add_target(&mut w, "wasm32-unknown-unknown");
    assert!(r.is_ok());
    assert_eq!(w.invocations.len(), 1);
    assert_eq!(
        w.invocations[0].args,
        vec!["target", "add", "--toolchain", "nightly", "wasm32-unknown-unknown"]
    );
}

#[test]
fn add_component_on_ci_is_unsupported() {
    let mut w = RecordingWorkspace::new();
    let r = ci("abc123", false).add_component(&mut w, "clippy");
    match r {
        Err(Error::UnsupportedOperation { message }) => {
            assert_eq!(message, "installing component on CI toolchains is not supported yet");
        }
        other => panic!("expected an unsupported-operation error, got {:?}", other),
    }
    assert_eq!(w.invocations.len(), 0);
}

#[test]
fn add_target_on_ci_is_unsupported() {
    let mut w = RecordingWorkspace::new();
    let r = ci("abc123", true).add_target(&mut w, "wasm32-unknown-unknown");
    match r {
        Err(Error::UnsupportedOperation { message }) => {
            assert_eq!(message, "installing target on CI toolchains is not supported yet");
        }
        other => panic!("expected an unsupported-operation error, got {:?}", other),
    }
    assert_eq!(w.invocations.len(), 0);
}

#[test]
fn uninstall_issues_one_invocation_with_canonical_identifier() {
    let mut w = RecordingWorkspace::new();
    assert!(dist("beta").uninstall(&mut w).is_ok());
    assert!(ci("abc123", true).uninstall(&mut w).is_ok());
    assert_eq!(w.invocations.len(), 2);
    assert_eq!(w.invocations[0].args, vec!["toolchain", "uninstall", "beta"]);
    assert_eq!(w.invocations[1].args, vec!["toolchain", "uninstall", "abc123-alt"]);
    assert!(matches!(w.invocations[1].binary, Binary::ToolchainManager));
}

#[test]
fn failed_install_reports_context_and_cause() {
    let mut w = RecordingWorkspace::failing_once(CommandFailure::NonZeroExit { code: 101 });
    match dist("beta").install(&mut w) {
        Err(Error::ExternalCommand { context, cause }) => {
            assert_eq!(context, "unable to install toolchain beta via rustup");
            assert!(matches!(cause, CommandFailure::NonZeroExit { code: 101 }));
        }
        other => panic!("expected an external-command error, got {:?}", other),
    }
    assert_eq!(w.invocations.len(), 1);
}

#[test]
fn failed_ci_install_names_the_installer() {
    let mut w = RecordingWorkspace::failing_once(CommandFailure::NonZeroExit { code: 1 });
    match ci("deadbeef", true).install(&mut w) {
        Err(Error::ExternalCommand { context, .. }) => {
            assert_eq!(
                context,
                "unable to install toolchain deadbeef-alt via rustup-toolchain-install-master"
            );
        }
        other => panic!("expected an external-command error, got {:?}", other),
    }
}

#[test]
fn failed_add_component_reports_context() {
    let mut w = RecordingWorkspace::failing_once(CommandFailure::NonZeroExit { code: 1 });
    match dist("beta").add_component(&mut w, "clippy") {
        Err(Error::ExternalCommand { context, .. }) => {
            assert_eq!(
                context,
                "unable to install component clippy for toolchain beta via rustup"
            );
        }
        other => panic!("expected an external-command error, got {:?}", other),
    }
}

#[test]
fn failed_uninstall_reports_context() {
    let mut w = RecordingWorkspace::failing_once(CommandFailure::SpawnFailed {
        message: "no such binary".to_string(),
    });
    match ci("abc123", false).uninstall(&mut w) {
        Err(Error::ExternalCommand { context, cause }) => {
            assert_eq!(context, "unable to uninstall toolchain abc123 via rustup");
            assert!(matches!(cause, CommandFailure::SpawnFailed { .. }));
        }
        other => panic!("expected an external-command error, got {:?}", other),
    }
}

#[test]
fn with_context_passes_success_through() {
    assert!(with_context(Ok(()), "unused".to_string()).is_ok());
}

#[test]
fn with_context_wraps_failures() {
    let r = with_context(
        Err(CommandFailure::NonZeroExit { code: 2 }),
        "while testing".to_string(),
    );
    match r {
        Err(Error::ExternalCommand { context, cause }) => {
            assert_eq!(context, "while testing");
            assert!(matches!(cause, CommandFailure::NonZeroExit { code: 2 }));
        }
        other => panic!("expected an external-command error, got {:?}", other),
    }
}

#[test]
fn cargo_construction_spawns_nothing() {
    let mut w = RecordingWorkspace::new();
    let bin = ci("deadbeef", true).cargo();
    assert_eq!(w.invocations.len(), 0);
    let inv = bin.prepare_command(vec!["check".to_string()]);
    assert_eq!(w.invocations.len(), 0);
    assert!(w.run(inv).is_ok());
    assert_eq!(w.invocations.len(), 1);
    assert_eq!(w.invocations[0].args, vec!["+deadbeef-alt", "check"]);
}

#[test]
fn cargo_prefixes_args_with_toolchain_selector() {
    let bin = dist("stable").cargo();
    assert!(matches!(bin.name(), Binary::Managed { name } if name == "cargo"));
    let inv = bin.prepare_command(vec!["build".to_string(), "--release".to_string()]);
    assert!(matches!(inv.binary, Binary::Managed { name } if name == "cargo"));
    assert_eq!(inv.args, vec!["+stable", "build", "--release"]);
    let empty = bin.prepare_command(Vec::new());
    assert_eq!(empty.args, vec!["+stable"]);
}
