use sparecycles::command::ProcessOutput;
use sparecycles::digest::ArtifactHasher;
use sparecycles::install::{
    install_runtime, install_runtime_named, Artifact, Artifacts, ImportArg, InstallPlan,
    InstallStep, LoadEnd, ProvisionOutcome,
};
use sparecycles::provision::HashEnd;

fn plan(name: &str, pins: Option<(&str, &str)>) -> InstallPlan {
    InstallPlan {
        name: name.to_string(),
        rootfs_pin: pins.map(|p| p.0.to_string()),
        image_pin: pins.map(|p| p.1.to_string()),
        local_app_data: Some("C:/Local".into()),
    }
}

fn ran(success: bool, stdout: &str, stderr: &str) -> Result<ProcessOutput, String> {
    Ok(ProcessOutput {
        success,
        exit_code: Some(if success { 0 } else { 1 }),
        stdout: stdout.as_bytes().to_vec(),
        stderr: stderr.as_bytes().to_vec(),
    })
}

/// How a simulated host answers.
struct Host {
    listing: Result<ProcessOutput, String>,
    artifacts: bool,
    rootfs: HashEnd,
    image: HashEnd,
    made: Result<(), String>,
    import: Result<ProcessOutput, String>,
    load: LoadEnd,
    gvisor: bool,
    image_present: bool,
}

fn good_host() -> Host {
    Host {
        listing: ran(true, "docker-desktop\n", ""),
        artifacts: true,
        rootfs: HashEnd::Fed(ArtifactHasher::new().update(b"rootfs")),
        image: HashEnd::Fed(ArtifactHasher::new().update(b"image")),
        made: Ok(()),
        import: ran(true, "", ""),
        load: LoadEnd::Ended(ran(true, "", "").unwrap()),
        gvisor: true,
        image_present: true,
    }
}

fn digest(bytes: &[u8]) -> String {
    ArtifactHasher::new().update(bytes).finish()
}

/// Performs an install on a simulated host; gives back what happened, in order.
fn perform(first: InstallStep, host: Host) -> (Vec<String>, Result<ProvisionOutcome, String>) {
    let mut seen = Vec::new();
    let mut step = first;
    let mut listing = Some(host.listing);
    let mut rootfs = Some(host.rootfs);
    let mut image = Some(host.image);
    let mut made = Some(host.made);
    let mut import = Some(host.import);
    let mut load = Some(host.load);
    loop {
        step = match step {
            InstallStep::Run { command, then } => {
                let line = format!("{} {}", command.program, command.args.join(" "));
                seen.push(line.clone());
                if line.ends_with("--list --quiet") {
                    then.resume(listing.take().unwrap())
                } else if line.ends_with("runsc --version") {
                    then.resume(ran(host.gvisor, "", ""))
                } else {
                    then.resume(ran(host.image_present, "", ""))
                }
            }
            InstallStep::Locate { then } => then.resume(if host.artifacts {
                Some(Artifacts {
                    rootfs: "/dist/sparecycles-runtime.tar".into(),
                    job_image: "/dist/job-image.tar".into(),
                })
            } else {
                None
            }),
            InstallStep::Report { progress, then } => {
                seen.push(format!("{}% {}: {}", progress.percent, progress.step, progress.detail));
                then.resume()
            }
            InstallStep::Hash { artifact, then } => {
                seen.push(format!("hash {artifact:?}"));
                then.resume(match artifact {
                    Artifact::Rootfs => rootfs.take().unwrap(),
                    Artifact::JobImage => image.take().unwrap(),
                })
            }
            InstallStep::MakeDir { dir, then } => {
                seen.push(format!("make {}/{}", dir.base, dir.below.join("/")));
                then.resume("C:/Local/shown", made.take().unwrap())
            }
            InstallStep::Import { args, then } => {
                let shown: Vec<String> = args
                    .iter()
                    .map(|a| match a {
                        ImportArg::Text(t) => t.clone(),
                        ImportArg::TargetDir => "<target>".to_string(),
                        ImportArg::RootfsFile => "<rootfs>".to_string(),
                    })
                    .collect();
                seen.push(format!("wsl {}", shown.join(" ")));
                then.resume(import.take().unwrap())
            }
            InstallStep::Load { command, then } => {
                seen.push(format!("{} {}", command.program, command.args.join(" ")));
                then.resume("/dist/job-image.tar", load.take().unwrap())
            }
            InstallStep::Done(result) => return (seen, result),
        };
    }
}

#[test]
fn a_verified_install_from_start_to_end() {
    let rootfs = digest(b"rootfs");
    let image = digest(b"image").to_uppercase();
    let (seen, result) = perform(
        install_runtime_named(plan("SpareCycles", Some((&rootfs, &image)))),
        good_host(),
    );
    assert_eq!(
        seen,
        [
            "wsl --list --quiet",
            "5% verify: Checking the runtime artifacts",
            "hash Rootfs",
            "20% verify: Checking the render image",
            "hash JobImage",
            "make C:/Local/SpareCycles/SpareCycles",
            "35% import: Importing the WSL2 distro",
            "wsl --import SpareCycles <target> <rootfs> --version 2",
            "60% load: Loading the render image into the runtime",
            "wsl -d SpareCycles -- podman load",
            "90% check: Confirming gVisor and the render image",
            "wsl -d SpareCycles -- /usr/local/bin/runsc --version",
            "wsl -d SpareCycles -- podman image inspect sparecycles/blender:4.2.9",
            "100% done: Runtime installed",
        ]
    );
    let outcome = result.unwrap();
    assert_eq!(outcome.distro_name, "SpareCycles");
    assert!(outcome.artifacts_verified);
    assert!(outcome.gvisor_available);
    assert!(outcome.image_present);
}

#[test]
fn an_unpinned_install_says_that_nothing_was_verified() {
    let mut host = good_host();
    host.gvisor = false;
    host.image_present = false;
    let (seen, result) = perform(install_runtime_named(plan("SpareCycles", None)), host);
    assert!(!seen.iter().any(|s| s.starts_with("hash")));
    let outcome = result.unwrap();
    assert!(!outcome.artifacts_verified);
    assert!(!outcome.gvisor_available);
    assert!(!outcome.image_present);

    // One pin is not enough to vouch for both.
    let mut half = plan("SpareCycles", None);
    half.rootfs_pin = Some(digest(b"rootfs"));
    half.image_pin = Some("  ".into());
    let (seen, result) = perform(install_runtime_named(half), good_host());
    assert!(seen.iter().any(|s| s == "hash Rootfs"));
    assert!(!seen.iter().any(|s| s == "hash JobImage"));
    assert!(!result.unwrap().artifacts_verified);
}

#[test]
fn nothing_installs_over_an_existing_distro() {
    let mut host = good_host();
    host.listing = ran(true, "docker-desktop\r\nSpareCycles\r\n", "");
    let (seen, result) = perform(install_runtime_named(plan("SpareCycles", None)), host);
    assert_eq!(seen, ["wsl --list --quiet"]);
    assert_eq!(
        result.unwrap_err(),
        "the 'SpareCycles' distro already exists, so there is nothing to install. To \
         reinstall deliberately: wsl --unregister SpareCycles — which permanently deletes it."
    );
}

#[test]
fn a_tampered_artifact_stops_the_install() {
    let rootfs = digest(b"another rootfs");
    let image = digest(b"image");
    let (seen, result) = perform(
        install_runtime_named(plan("SpareCycles", Some((&rootfs, &image)))),
        good_host(),
    );
    assert!(!seen.iter().any(|s| s.contains("--import") || s.starts_with("make")));
    assert!(result
        .unwrap_err()
        .starts_with("refusing to install /dist/sparecycles-runtime.tar: it hashes to "));

    let rootfs = digest(b"rootfs");
    let image = digest(b"another image");
    let (seen, result) = perform(
        install_runtime_named(plan("SpareCycles", Some((&rootfs, &image)))),
        good_host(),
    );
    assert!(!seen.iter().any(|s| s.contains("--import") || s.starts_with("make")));
    assert!(result
        .unwrap_err()
        .starts_with("refusing to install /dist/job-image.tar: it hashes to "));
}

#[test]
fn an_unusable_name_goes_nowhere() {
    let (seen, result) = perform(install_runtime_named(plan("--version \"1\"", None)), good_host());
    assert!(seen.is_empty());
    assert_eq!(
        result.unwrap_err(),
        "refusing to install: \"--version \\\"1\\\"\" is not a usable distro name. Use \
         letters, digits, dot, dash or underscore."
    );
}

#[test]
fn the_configured_name_is_the_one_installed() {
    let first = install_runtime(Some("Mine".into()), None, None, Some("C:/Local".into()));
    let (seen, result) = perform(first, good_host());
    assert!(seen.iter().any(|s| s.starts_with("wsl --import Mine ")));
    assert_eq!(result.unwrap().distro_name, "Mine");
    let first = install_runtime(None, None, None, Some("C:/Local".into()));
    assert_eq!(perform(first, good_host()).1.unwrap().distro_name, "SpareCycles");
}

#[test]
fn every_way_an_install_can_fail() {
    let fails = |host: Host| {
        let (_, result) = perform(install_runtime_named(plan("SC", None)), host);
        result.unwrap_err()
    };

    let mut host = good_host();
    host.listing = Err("missing".into());
    assert_eq!(fails(host), "could not run wsl: missing. Is WSL installed?");

    let mut host = good_host();
    host.artifacts = false;
    assert_eq!(
        fails(host),
        "could not find sparecycles-runtime.tar and job-image.tar. Build them with \
         runtime/build.sh, or set SPARECYCLES_RUNTIME_DIR."
    );

    let mut host = good_host();
    host.made = Err("denied".into());
    assert_eq!(fails(host), "could not create C:/Local/shown: denied");

    let mut host = good_host();
    host.import = Err("no wsl".into());
    assert_eq!(fails(host), "could not run wsl --import: no wsl");

    let mut host = good_host();
    host.import = ran(false, "", " disk full \n");
    assert_eq!(fails(host), "wsl --import failed: disk full");

    for (end, message) in [
        (LoadEnd::NotStarted("a".into()), "could not start `podman load`: a"),
        (LoadEnd::NoStdin, "`podman load` gave us no stdin"),
        (LoadEnd::OpenFailed("b".into()), "could not open /dist/job-image.tar: b"),
        (LoadEnd::StreamFailed("c".into()), "could not stream the render image: c"),
        (LoadEnd::WaitFailed("d".into()), "`podman load` failed: d"),
        (
            LoadEnd::Ended(ran(false, "", " bad image\n").unwrap()),
            "`podman load` failed: bad image",
        ),
    ] {
        let mut host = good_host();
        host.load = end;
        assert_eq!(fails(host), message);
    }

    let mut nowhere = plan("SC", None);
    nowhere.local_app_data = None;
    assert_eq!(
        perform(install_runtime_named(nowhere), good_host()).1.unwrap_err(),
        "LOCALAPPDATA is not set, so there is nowhere to install the runtime"
    );
}
