use sparecycles::command::{CommandLine, ProcessOutput};
use sparecycles::engine::{build_tar, extract_single_file, Engine, FeedEnd};
use sparecycles::render::{
    expected_image_digest, find_rendered_file, rendered_file_name, run_render_job,
    verify_image_digest, FoundFile, JobEnd, JobOutcome, RenderStep,
};
use sparecycles::sandbox::{ContributorLimits, RenderJobParams, RequestedCaps};

fn params() -> RenderJobParams {
    RenderJobParams {
        frame: 7,
        resolution_x: 320,
        resolution_y: 180,
        samples: 16,
        requested_caps: RequestedCaps {
            cpu_cores: 4,
            memory_mb: 2048,
            timeout_seconds: 900,
        },
    }
}

fn start(digest: Option<&str>, allow_missing_gvisor: bool) -> RenderStep {
    run_render_job(
        Engine::Wsl {
            distro: "SpareCycles".into(),
        },
        "input.blend",
        &params(),
        ContributorLimits {
            max_cpu_percent: 50,
            max_memory_mb: 4096,
            max_timeout_seconds: 600,
        },
        4,
        "job-1",
        &digest.map(|d| d.to_string()),
        allow_missing_gvisor,
    )
}

fn out(success: bool, code: Option<i32>, stdout: &[u8], stderr: &[u8]) -> ProcessOutput {
    ProcessOutput {
        success,
        exit_code: code,
        stdout: stdout.to_vec(),
        stderr: stderr.to_vec(),
    }
}

fn well(stdout: &[u8]) -> Result<ProcessOutput, String> {
    Ok(out(true, Some(0), stdout, b""))
}

fn badly(stderr: &[u8]) -> Result<ProcessOutput, String> {
    Ok(out(false, Some(125), b"", stderr))
}

fn line(command: &CommandLine) -> String {
    assert_eq!(command.program, "wsl");
    assert_eq!(command.args[..3], ["-d", "SpareCycles", "--"]);
    command.args[3..].join(" ")
}

/// Expects a command that begins like this, and answers it.
fn run(step: RenderStep, begins: &str, end: Result<ProcessOutput, String>) -> RenderStep {
    match step {
        RenderStep::Run { command, then } => {
            let line = line(&command);
            assert!(line.starts_with(begins), "{line}");
            then.resume(end)
        }
        other => panic!("expected a command, got {other:?}"),
    }
}

fn done(step: RenderStep) -> Result<JobOutcome, String> {
    match step {
        RenderStep::Done(result) => result,
        other => panic!("expected the end, got {other:?}"),
    }
}

const VERSION: &str = "podman version --format {{.Server.Version}}";
const DIGEST: &str = "podman image inspect --format {{.Id}} sparecycles/blender:4.2.9";
const GVISOR: &str = "/usr/local/bin/runsc --version";
const CREATE: &str = "podman create --name=job-1";
const REMOVE: &str = "podman container rm --force --volumes job-1";

/// A run up to the point where the job itself is started.
fn up_to_job() -> RenderStep {
    let step = run(start(None, false), VERSION, well(b"5.2.1\n"));
    let step = run(step, GVISOR, well(b""));
    let step = run(step, CREATE, well(b"id\n"));
    let step = match step {
        RenderStep::ReadInput { file_name, then } => {
            assert_eq!(file_name, "input.blend");
            then.resume(Ok(b"scene".to_vec()))
        }
        other => panic!("{other:?}"),
    };
    match step {
        RenderStep::Feed { feed, then } => {
            assert_eq!(line(&feed.command), "podman cp - job-1:/work");
            assert_eq!(extract_single_file(&feed.stdin).unwrap(), b"scene".to_vec());
            then.resume(FeedEnd::Ended(out(true, Some(0), b"", b"")))
        }
        other => panic!("{other:?}"),
    }
}

fn job(step: RenderStep, end: JobEnd) -> RenderStep {
    match step {
        RenderStep::RunJob {
            command,
            seconds,
            then,
        } => {
            assert_eq!(line(&command), "podman start --attach job-1");
            // The request, clamped to the contributor's limit.
            assert_eq!(seconds, 600);
            then.resume(end)
        }
        other => panic!("{other:?}"),
    }
}

#[test]
fn a_render_from_start_to_end() {
    let step = job(up_to_job(), JobEnd::Ended(out(true, Some(0), b"out,", b"err")));
    let archive = build_tar("render_0007.png", b"pixels").unwrap();
    let step = run(step, "podman cp job-1:/work/render_0007.png -", well(&archive));
    let step = match step {
        RenderStep::Save {
            file_name,
            bytes,
            then,
        } => {
            assert_eq!(file_name, "render_0007.png");
            assert_eq!(bytes, b"pixels".to_vec());
            then.resume(Ok(()))
        }
        other => panic!("{other:?}"),
    };
    let step = match step {
        RenderStep::Look { file_name, then } => {
            assert_eq!(file_name, "render_0007.png");
            then.resume(Some("/scratch/render_0007.png".into()))
        }
        other => panic!("{other:?}"),
    };
    let outcome = done(run(step, REMOVE, well(b""))).unwrap();
    assert!(outcome.success);
    assert_eq!(outcome.output_path, Some("/scratch/render_0007.png".to_string()));
    assert_eq!(outcome.exit_code, Some(0));
    assert!(!outcome.timed_out);
    assert_eq!(outcome.log_tail, "out,err");
    assert!(outcome.used_gvisor);
    assert_eq!(outcome.effective_caps.cpu_cores, 2);
    assert_eq!(outcome.effective_caps.memory_mb, 2048);
    assert_eq!(outcome.effective_caps.timeout_seconds, 600);
}

#[test]
fn no_engine_means_no_job() {
    for silent in [well(b" "), badly(b""), Err("gone".to_string())] {
        let message = done(run(start(None, true), VERSION, silent)).unwrap_err();
        assert_eq!(
            message,
            "refusing to run: Podman in the 'SpareCycles' WSL2 distro is not available, so \
             there is nowhere to run this job safely. Install the job runtime — see \
             docs/wsl-runtime-setup.md."
        );
    }
}

#[test]
fn no_gvisor_means_no_job_unless_opted_out() {
    let step = run(start(None, false), VERSION, well(b"5"));
    let message = done(run(step, GVISOR, badly(b""))).unwrap_err();
    assert_eq!(
        message,
        "refusing to run: Podman in the 'SpareCycles' WSL2 distro cannot provide gVisor, and \
         running a buyer's code without it is not something to do quietly. Set \
         SPARECYCLES_ALLOW_NO_GVISOR=true to override during development."
    );

    let step = run(start(None, true), VERSION, well(b"5"));
    match run(step, GVISOR, badly(b"")) {
        RenderStep::Run { command, .. } => {
            assert!(!command.args.iter().any(|a| a.starts_with("--runtime")));
        }
        other => panic!("{other:?}"),
    }
}

#[test]
fn a_job_is_created_with_gvisor_and_clamped_caps() {
    let step = run(start(None, true), VERSION, well(b"5"));
    match run(step, GVISOR, well(b"")) {
        RenderStep::Run { command, .. } => {
            for flag in [
                "--runtime=/usr/local/bin/runsc",
                "--cpus=2",
                "--memory=2048m",
                "/work/render_####",
            ] {
                assert!(command.args.iter().any(|a| a == flag), "{flag}");
            }
        }
        other => panic!("{other:?}"),
    }
}

#[test]
fn another_image_means_no_job() {
    let step = run(start(Some(" sha256:want "), false), VERSION, well(b"5"));
    let message = done(run(step, DIGEST, well(b"sha256:have\n"))).unwrap_err();
    assert_eq!(
        message,
        "refusing to run: sparecycles/blender:4.2.9 is sha256:have, expected sha256:want. \
         The image has been replaced since it was pinned."
    );

    let step = run(start(Some("sha256:want"), false), VERSION, well(b"5"));
    let message = done(run(step, DIGEST, badly(b""))).unwrap_err();
    assert_eq!(
        message,
        "refusing to run: cannot read the digest of sparecycles/blender:4.2.9"
    );

    let step = run(start(Some("sha256:want"), false), VERSION, well(b"5"));
    let step = run(step, DIGEST, well(b"sha256:want\n"));
    assert!(matches!(run(step, GVISOR, well(b"")), RenderStep::Run { .. }));
}

#[test]
fn digests_are_compared_exactly() {
    let text = |t: &str| Some(t.to_string());
    assert_eq!(verify_image_digest(&None, &None), Ok(()));
    assert_eq!(verify_image_digest(&text("a"), &text("a")), Ok(()));
    assert!(verify_image_digest(&text("a"), &text("A")).is_err());
    assert!(verify_image_digest(&text("a"), &None).is_err());
    assert_eq!(expected_image_digest(&text("  ")), None);
    assert_eq!(expected_image_digest(&text(" a ")), text("a"));
}

/// Whatever goes wrong once the container may exist, it is removed, and the
/// message is the one of what went wrong.
#[test]
fn a_container_is_always_removed() {
    let created = || {
        let step = run(start(None, false), VERSION, well(b"5"));
        run(step, GVISOR, well(b""))
    };

    let step = run(created(), CREATE, Err("no podman".into()));
    assert_eq!(
        done(run(step, REMOVE, badly(b""))).unwrap_err(),
        "failed to start podman: no podman"
    );

    let long = "x".repeat(600);
    let step = run(created(), CREATE, badly(long.as_bytes()));
    assert_eq!(
        done(run(step, REMOVE, well(b""))).unwrap_err(),
        format!("could not create job container: {}", "x".repeat(500))
    );

    let read = |step: RenderStep, input: Result<Vec<u8>, String>| match step {
        RenderStep::ReadInput { then, .. } => then.resume(input),
        other => panic!("{other:?}"),
    };
    let step = read(run(created(), CREATE, well(b"")), Err("vanished".into()));
    assert_eq!(
        done(run(step, REMOVE, well(b""))).unwrap_err(),
        "could not read job input: vanished"
    );

    let step = read(run(created(), CREATE, well(b"")), Ok(vec![1]));
    let step = match step {
        RenderStep::Feed { then, .. } => then.resume(FeedEnd::NoStdin),
        other => panic!("{other:?}"),
    };
    assert_eq!(
        done(run(step, REMOVE, well(b""))).unwrap_err(),
        "`podman cp` gave us no stdin"
    );

    let step = job(up_to_job(), JobEnd::NotStarted("no wsl".into()));
    assert_eq!(
        done(run(step, REMOVE, well(b""))).unwrap_err(),
        "failed to start job container: no wsl"
    );

    let step = job(up_to_job(), JobEnd::WaitFailed("lost".into()));
    assert_eq!(
        done(run(step, REMOVE, well(b""))).unwrap_err(),
        "job container failed: lost"
    );

    let step = job(up_to_job(), JobEnd::Ended(out(true, Some(0), b"", b"")));
    let archive = build_tar("render_0007.png", b"pixels").unwrap();
    let step = match run(step, "podman cp ", well(&archive)) {
        RenderStep::Save { then, .. } => then.resume(Err("disk full".into())),
        other => panic!("{other:?}"),
    };
    assert_eq!(
        done(run(step, REMOVE, well(b""))).unwrap_err(),
        "could not save the render: disk full"
    );
}

#[test]
fn a_job_past_its_time_is_killed() {
    let step = job(up_to_job(), JobEnd::TimedOut);
    let step = run(step, "podman kill job-1", badly(b"already gone"));
    let step = match step {
        RenderStep::Look { then, .. } => then.resume(Some("/scratch/stale.png".into())),
        other => panic!("{other:?}"),
    };
    let outcome = done(run(step, REMOVE, well(b""))).unwrap();
    assert!(!outcome.success);
    assert!(outcome.timed_out);
    assert_eq!(outcome.exit_code, None);
    assert_eq!(outcome.log_tail, "job exceeded its 600s time cap");
    assert_eq!(outcome.output_path, Some("/scratch/stale.png".to_string()));
}

#[test]
fn a_failed_job_is_an_outcome_with_its_log() {
    let mut log = vec![b'a'; 5000];
    log.push(b'!');
    let step = job(up_to_job(), JobEnd::Ended(out(false, Some(11), &log, b"end")));
    let step = match step {
        RenderStep::Look { then, .. } => then.resume(None),
        other => panic!("{other:?}"),
    };
    let step = match step {
        RenderStep::List { then } => then.resume(None),
        other => panic!("{other:?}"),
    };
    let outcome = done(run(step, REMOVE, well(b""))).unwrap();
    assert!(!outcome.success);
    assert_eq!(outcome.exit_code, Some(11));
    assert_eq!(outcome.output_path, None);
    assert_eq!(outcome.log_tail, format!("{}!end", "a".repeat(3996)));
}

#[test]
fn a_render_that_cannot_be_copied_out_is_looked_for() {
    let step = job(up_to_job(), JobEnd::Ended(out(true, Some(0), b"", b"")));
    let step = run(step, "podman cp ", badly(b"no such file"));
    let step = match step {
        RenderStep::Look { then, .. } => then.resume(None),
        other => panic!("{other:?}"),
    };
    let file = |name: &str| FoundFile {
        name: name.to_string(),
        path: format!("/scratch/{name}"),
    };
    let step = match step {
        RenderStep::List { then } => then.resume(Some(vec![
            file("input.blend"),
            file("render_7.png"),
            file("render_8.png"),
        ])),
        other => panic!("{other:?}"),
    };
    let outcome = done(run(step, REMOVE, well(b""))).unwrap();
    assert!(outcome.success);
    assert_eq!(outcome.output_path, Some("/scratch/render_7.png".to_string()));
}

#[test]
fn renders_are_found_by_their_name() {
    let file = |name: &str| FoundFile {
        name: name.to_string(),
        path: format!("/{name}"),
    };
    assert_eq!(find_rendered_file(vec![]), None);
    assert_eq!(
        find_rendered_file(vec![file("render_1.jpg"), file("a_render_1.png")]),
        None
    );
    assert_eq!(
        find_rendered_file(vec![file("x"), file("render_00001.png")]),
        Some("/render_00001.png".to_string())
    );
    assert_eq!(rendered_file_name(1), "render_0001.png");
    assert_eq!(rendered_file_name(12345), "render_12345.png");
}
