use sparecycles::engine::Engine;
use sparecycles::job_runner::{
    failure_reason, job_scratch_dir, run_and_report, run_job, sanitize_id, AssignmentUpdate,
    FetchEnd, JobStep, NodeSettings, RunJobRequest, RunStep, ScratchEnd, UploadEnd,
};
use sparecycles::render::{JobOutcome, RenderStep};
use sparecycles::sandbox::{ContributorLimits, EffectiveCaps, RenderJobParams, RequestedCaps};

fn request(assignment_id: &str) -> RunJobRequest {
    RunJobRequest {
        assignment_id: assignment_id.to_string(),
        job_id: "job-7".to_string(),
        params: RenderJobParams {
            frame: 1,
            resolution_x: 480,
            resolution_y: 270,
            samples: 8,
            requested_caps: RequestedCaps {
                cpu_cores: 4,
                memory_mb: 2048,
                timeout_seconds: 900,
            },
        },
        limits: ContributorLimits {
            max_cpu_percent: 50,
            max_memory_mb: 4096,
            max_timeout_seconds: 3600,
        },
        backend_url: "http://localhost:3000".to_string(),
        token: "secret".to_string(),
    }
}

fn settings() -> NodeSettings {
    NodeSettings {
        engine: Engine::Wsl {
            distro: "SpareCycles".into(),
        },
        host_cores: 8,
        image_digest: Some("sha256:pin".into()),
        allow_missing_gvisor: false,
    }
}

fn outcome(success: bool, path: Option<&str>) -> JobOutcome {
    JobOutcome {
        success,
        output_path: path.map(|p| p.to_string()),
        exit_code: Some(if success { 0 } else { 11 }),
        timed_out: false,
        log_tail: "the end of the log".to_string(),
        effective_caps: EffectiveCaps {
            cpu_cores: 4,
            memory_mb: 2048,
            timeout_seconds: 900,
        },
        used_gvisor: true,
    }
}

fn fetch(step: JobStep, end: FetchEnd) -> JobStep {
    match step {
        JobStep::Fetch { url, token, then } => {
            assert_eq!(url, "http://localhost:3000/jobs/job-7/input");
            assert_eq!(token, "secret");
            then.resume(end)
        }
        other => panic!("{other:?}"),
    }
}

fn store(step: JobStep, stored: Result<(), String>) -> JobStep {
    match step {
        JobStep::Store {
            file_name,
            bytes,
            then,
        } => {
            assert_eq!(file_name, "input.blend");
            assert_eq!(bytes, b"scene".to_vec());
            then.resume(stored)
        }
        other => panic!("{other:?}"),
    }
}

/// A run up to its render.
fn up_to_render(assignment_id: &str) -> JobStep {
    let step = run_and_report(request(assignment_id), settings());
    let step = fetch(step, FetchEnd::Fetched(b"scene".to_vec()));
    match store(step, Ok(())) {
        JobStep::Tell {
            url,
            token,
            update,
            then,
        } => {
            assert_eq!(url, format!("http://localhost:3000/assignments/{assignment_id}"));
            assert_eq!(token, "secret");
            assert!(matches!(update, AssignmentUpdate::Running));
            then.resume()
        }
        other => panic!("{other:?}"),
    }
}

fn render(step: JobStep, result: Result<JobOutcome, String>) -> JobStep {
    match step {
        JobStep::Render { then, .. } => then.resume(result),
        other => panic!("{other:?}"),
    }
}

fn done(step: JobStep) -> Result<JobOutcome, String> {
    match step {
        JobStep::Done(result) => result,
        other => panic!("{other:?}"),
    }
}

#[test]
fn sanitize_id_strips_path_traversal() {
    assert_eq!(sanitize_id("../../etc/passwd"), "etcpasswd");
    assert_eq!(
        sanitize_id("83fb2bd0-71b1-492c-9234-1f88f96367a7"),
        "83fb2bd0-71b1-492c-9234-1f88f96367a7"
    );
    assert_eq!(sanitize_id("a/b\\c:d"), "abcd");
}

#[test]
fn a_sanitized_id_is_short_and_stays_as_it_is() {
    let long: String = "ab-9./".repeat(40);
    let safe = sanitize_id(&long);
    assert_eq!(safe, "ab-9".repeat(16));
    assert_eq!(safe.len(), 64);
    assert_eq!(sanitize_id(&safe), safe);
    assert_eq!(sanitize_id("größe"), "gre");
    assert_eq!(sanitize_id("///"), "");
}

#[test]
fn a_job_has_a_directory_of_its_own() {
    assert_eq!(
        job_scratch_dir("../../etc/passwd"),
        Ok(vec!["jobs".to_string(), "etcpasswd".to_string()])
    );
}

#[test]
fn an_id_without_a_usable_character_is_refused() {
    let message = "refusing to run: the assignment id holds no letter, digit or dash";
    for id in ["", "///", "../..", " \n", "äöü"] {
        assert_eq!(job_scratch_dir(id), Err(message.to_string()));
        match run_job(request(id), settings()) {
            RunStep::Done(result) => assert_eq!(result.unwrap_err(), message),
            other => panic!("{other:?}"),
        }
    }
}

#[test]
fn the_container_is_named_after_the_safe_id() {
    match up_to_render("a 1/--privileged") {
        JobStep::Render { first, .. } => match first {
            RenderStep::Run { command, then } => {
                assert_eq!(command.args[3..5], ["podman", "version"]);
                assert_eq!(then.plan.container_name, "sparecycles-job-a1--privileged");
                assert_eq!(then.plan.input_file_name, "input.blend");
                assert_eq!(then.plan.expected_digest, Some("sha256:pin".to_string()));
                assert_eq!(then.plan.caps.cpu_cores, 4);
                assert_eq!(then.plan.caps.timeout_seconds, 900);
                assert!(!then.plan.allow_missing_gvisor);
            }
            other => panic!("{other:?}"),
        },
        other => panic!("{other:?}"),
    }
}

#[test]
fn a_render_is_uploaded() {
    let step = render(up_to_render("a-1"), Ok(outcome(true, Some("/scratch/render_0001.png"))));
    let step = match step {
        JobStep::LoadRender { path, then } => {
            assert_eq!(path, "/scratch/render_0001.png");
            then.resume(Ok(b"pixels".to_vec()))
        }
        other => panic!("{other:?}"),
    };
    match step {
        JobStep::Upload {
            url,
            token,
            body,
            then,
        } => {
            assert_eq!(url, "http://localhost:3000/assignments/a-1/output");
            assert_eq!(token, "secret");
            assert_eq!(body, b"pixels".to_vec());
            let outcome = done(then.resume(UploadEnd::Accepted)).unwrap();
            assert!(outcome.success);
        }
        other => panic!("{other:?}"),
    }
}

#[test]
fn a_failed_render_is_reported() {
    let step = render(up_to_render("a-1"), Ok(outcome(false, None)));
    match step {
        JobStep::Tell {
            url,
            update,
            then,
            ..
        } => {
            assert_eq!(url, "http://localhost:3000/assignments/a-1");
            match update {
                AssignmentUpdate::Failed { error_message } => assert_eq!(
                    error_message,
                    "render failed (exit Some(11)): the end of the log"
                ),
                other => panic!("{other:?}"),
            }
            assert!(!done(then.resume()).unwrap().success);
        }
        other => panic!("{other:?}"),
    }
}

#[test]
fn reasons_for_failure() {
    let mut late = outcome(false, None);
    late.timed_out = true;
    assert_eq!(failure_reason(&late), "timed out after 900s");
    let mut signalled = outcome(false, None);
    signalled.exit_code = None;
    assert_eq!(
        failure_reason(&signalled),
        "render failed (exit None): the end of the log"
    );
    signalled.exit_code = Some(-9);
    assert_eq!(
        failure_reason(&signalled),
        "render failed (exit Some(-9)): the end of the log"
    );
}

#[test]
fn every_way_a_run_can_fail() {
    let start = || run_and_report(request("a-1"), settings());
    for (end, message) in [
        (FetchEnd::NotSent("refused".into()), "could not fetch job input: refused"),
        (
            FetchEnd::Refused("404 Not Found".into()),
            "could not fetch job input: HTTP 404 Not Found",
        ),
        (FetchEnd::BodyFailed("cut off".into()), "could not read job input: cut off"),
    ] {
        assert_eq!(done(fetch(start(), end)).unwrap_err(), message);
    }

    let step = fetch(start(), FetchEnd::Fetched(b"scene".to_vec()));
    assert_eq!(
        done(store(step, Err("disk full".into()))).unwrap_err(),
        "could not write job input: disk full"
    );

    assert_eq!(
        done(render(up_to_render("a-1"), Err("refusing to run".into()))).unwrap_err(),
        "refusing to run"
    );

    let rendered = || render(up_to_render("a-1"), Ok(outcome(true, Some("/r.png"))));
    let load = |read: Result<Vec<u8>, String>| match rendered() {
        JobStep::LoadRender { then, .. } => then.resume(read),
        other => panic!("{other:?}"),
    };
    assert_eq!(
        done(load(Err("gone".into()))).unwrap_err(),
        "could not read rendered file: gone"
    );
    let upload = |end: UploadEnd| match load(Ok(vec![1])) {
        JobStep::Upload { then, .. } => then.resume(end),
        other => panic!("{other:?}"),
    };
    assert_eq!(
        done(upload(UploadEnd::NotSent("reset".into()))).unwrap_err(),
        "could not upload render: reset"
    );
    assert_eq!(
        done(upload(UploadEnd::Refused("500 Internal Server Error".into()))).unwrap_err(),
        "could not upload render: HTTP 500 Internal Server Error"
    );
}

#[test]
fn the_scratch_directory_goes_whatever_happens() {
    let make = |end: ScratchEnd| match run_job(request("../x"), settings()) {
        RunStep::MakeScratch { below, then } => {
            assert_eq!(below, ["jobs", "x"]);
            then.resume(end)
        }
        other => panic!("{other:?}"),
    };
    match make(ScratchEnd::NoDataDir("unknown".into())) {
        RunStep::Done(result) => assert_eq!(result.unwrap_err(), "no app data dir: unknown"),
        other => panic!("{other:?}"),
    }
    match make(ScratchEnd::Failed("denied".into())) {
        RunStep::Done(result) => {
            assert_eq!(result.unwrap_err(), "could not create scratch dir: denied")
        }
        other => panic!("{other:?}"),
    }
    match make(ScratchEnd::Made) {
        RunStep::RunAndReport { first, then } => {
            assert!(matches!(first, JobStep::Fetch { .. }));
            match then.resume(Err("refusing to run".into())) {
                RunStep::RemoveScratch { then } => match then.resume() {
                    RunStep::Done(result) => assert_eq!(result.unwrap_err(), "refusing to run"),
                    other => panic!("{other:?}"),
                },
                other => panic!("{other:?}"),
            }
        }
        other => panic!("{other:?}"),
    }
}
