use sparecycles::command::ProcessOutput;
use sparecycles::digest::ArtifactHasher;
use sparecycles::install::{ProvisionOutcome, ProvisionProgress};
use sparecycles::probe::SandboxStatus;
use sparecycles::provision::{
    artifact_candidates, artifacts_dir, distro_name, install_dir, provision_status,
    verify_artifact, ArtifactFiles, ArtifactsAt, HashEnd, ProvisionStatus,
};
use sparecycles::render::JobOutcome;

fn hashed(bytes: &[u8]) -> HashEnd {
    HashEnd::Fed(ArtifactHasher::new().update(bytes))
}

fn listing(text: &str) -> Result<ProcessOutput, String> {
    Ok(ProcessOutput {
        success: true,
        exit_code: Some(0),
        stdout: text.as_bytes().to_vec(),
        stderr: vec![],
    })
}

#[test]
fn an_artifact_with_no_pinned_digest_is_reported_as_unverified() {
    let path = "sc-provision-unpinned.bin";
    assert_eq!(verify_artifact(path, &None, hashed(b"anything")), Ok(false));
    // An empty pin is the same as no pin, not a digest that matches nothing.
    assert_eq!(
        verify_artifact(path, &Some("  ".into()), hashed(b"anything")),
        Ok(false)
    );
}

#[test]
fn a_tampered_artifact_is_refused_rather_than_installed() {
    let path = "sc-provision-tampered.bin";

    let real = ArtifactHasher::new().update(b"the runtime").finish();
    assert_eq!(
        verify_artifact(path, &Some(real.clone()), hashed(b"the runtime")),
        Ok(true)
    );
    // Case shouldn't matter; a wrong digest must.
    assert_eq!(
        verify_artifact(path, &Some(real.to_uppercase()), hashed(b"the runtime")),
        Ok(true)
    );

    let err = verify_artifact(path, &Some("a".repeat(64)), hashed(b"the runtime"))
        .expect_err("a mismatched digest must refuse the install");
    assert!(err.contains("refusing to install"), "unhelpful error: {err}");
    assert_eq!(
        err,
        format!(
            "refusing to install sc-provision-tampered.bin: it hashes to {real}, but this \
             build expects {}. The file has been replaced or corrupted since it was built.",
            "a".repeat(64)
        )
    );
}

#[test]
fn an_artifact_that_cannot_be_hashed_is_refused() {
    let pin = Some("ab".to_string());
    assert_eq!(
        verify_artifact("f.tar", &pin, HashEnd::OpenFailed("missing".into())),
        Err("could not open f.tar: missing".to_string())
    );
    assert_eq!(
        verify_artifact("f.tar", &pin, HashEnd::ReadFailed("torn".into())),
        Err("could not read f.tar: torn".to_string())
    );
    assert_eq!(
        verify_artifact("f.tar", &pin, HashEnd::Lost("cancelled".into())),
        Err("hashing failed: cancelled".to_string())
    );
}

#[test]
fn the_distro_has_a_default_name() {
    assert_eq!(distro_name(None), "SpareCycles");
    assert_eq!(distro_name(Some("Other".into())), "Other");
    assert_eq!(distro_name(Some("".into())), "");
}

#[test]
fn distros_are_installed_below_the_local_data() {
    let dir = install_dir(&Some("C:/Users/a/AppData/Local".into()), "One").unwrap();
    assert_eq!(dir.base, "C:/Users/a/AppData/Local");
    assert_eq!(dir.below, ["SpareCycles", "One"]);
    let other = install_dir(&Some("C:/Users/a/AppData/Local".into()), "Two").unwrap();
    assert_ne!(dir.below, other.below);
    assert_eq!(
        install_dir(&None, "One").unwrap_err(),
        "LOCALAPPDATA is not set, so there is nowhere to install the runtime"
    );
}

#[test]
fn artifacts_are_looked_for_upwards() {
    assert_eq!(artifact_candidates(0), [0]);
    assert_eq!(artifact_candidates(3), [0, 0, 1, 2]);
    assert_eq!(artifact_candidates(20), [0, 0, 1, 2, 3, 4, 5]);
}

#[test]
fn the_first_place_with_artifacts_wins() {
    let files = |rootfs: bool, job_image: bool| ArtifactFiles { rootfs, job_image };
    let candidates = vec![files(true, false), files(false, true), files(true, true), files(true, true)];
    assert_eq!(
        artifacts_dir(Some(files(true, true)), &candidates),
        Some(ArtifactsAt::Configured)
    );
    // One artifact is not enough, configured or not.
    for half in [files(true, false), files(false, true)] {
        assert_eq!(
            artifacts_dir(Some(half), &candidates),
            Some(ArtifactsAt::Candidate(2))
        );
        assert_eq!(artifacts_dir(Some(half), &vec![]), None);
    }
    assert_eq!(artifacts_dir(None, &candidates), Some(ArtifactsAt::Candidate(2)));
    assert_eq!(artifacts_dir(None, &vec![files(true, false)]), None);
}

#[test]
fn a_blank_pin_is_no_pin() {
    let pin = Some("ab".to_string());
    let pinned = |rootfs: &Option<String>, image: &Option<String>| {
        provision_status("SC".into(), listing(""), None, rootfs, image).artifacts_pinned
    };
    assert!(pinned(&pin, &pin));
    for blank in [Some("".to_string()), Some(" \n".to_string()), None] {
        assert!(!pinned(&blank, &pin));
        assert!(!pinned(&pin, &blank));
        assert!(!pinned(&blank, &blank));
    }
}

#[test]
fn the_status_says_what_to_do_next() {
    let pin = Some("ab".to_string());

    let status = provision_status("SC".into(), Err("no wsl".into()), None, &pin, &None);
    assert!(!status.wsl_available && !status.ready && !status.distro_installed);
    assert!(!status.artifacts_pinned && !status.artifacts_present);
    assert_eq!(
        status.summary,
        "WSL is not available on this machine. The job runtime needs WSL2 — install it with \
         `wsl --install`, reboot, and try again."
    );

    let status = provision_status("SC".into(), listing("a\nSC\n"), None, &pin, &pin);
    assert!(status.wsl_available && status.ready && status.distro_installed);
    assert!(status.artifacts_pinned);
    assert_eq!(status.distro_name, "SC");
    assert_eq!(status.summary, "The 'SC' runtime is installed.");

    let status = provision_status("SC".into(), listing("a\n"), None, &None, &pin);
    assert!(status.wsl_available && !status.ready);
    assert_eq!(
        status.summary,
        "The 'SC' runtime isn't installed, and the artifacts to install it \
         (sparecycles-runtime.tar, job-image.tar) weren't found. Build them with \
         runtime/build.sh, or point SPARECYCLES_RUNTIME_DIR at them."
    );

    let status = provision_status("SC".into(), listing(""), Some("/dist".into()), &None, &None);
    assert_eq!(status.artifacts_dir, Some("/dist".to_string()));
    assert!(status.artifacts_present);
    assert_eq!(status.summary, "Ready to install the 'SC' runtime.");
}

fn copy_of<T: Clone>(value: &T) -> T {
    value.clone()
}

#[test]
fn what_is_shown_can_be_copied() {
    let _: [fn(&ProvisionStatus) -> ProvisionStatus; 1] = [copy_of];
    let _: [fn(&ProvisionProgress) -> ProvisionProgress; 1] = [copy_of];
    let _: [fn(&ProvisionOutcome) -> ProvisionOutcome; 1] = [copy_of];
    let _: [fn(&SandboxStatus) -> SandboxStatus; 1] = [copy_of];
    let _: [fn(&JobOutcome) -> JobOutcome; 1] = [copy_of];
}
