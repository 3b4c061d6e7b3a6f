use sparecycles::command::ProcessOutput;
use sparecycles::engine::Engine;
use sparecycles::probe::{
    allow_missing_gvisor, intended_engine, probe_sandbox, select_engine, ProbeStep, SandboxStatus,
};

fn engine() -> Engine {
    Engine::Wsl {
        distro: "SpareCycles".into(),
    }
}

fn ran(success: bool, stdout: &str) -> Result<ProcessOutput, String> {
    Ok(ProcessOutput {
        success,
        exit_code: Some(if success { 0 } else { 1 }),
        stdout: stdout.as_bytes().to_vec(),
        stderr: vec![],
    })
}

/// Runs a probe on these answers; gives back the commands behind the distro's
/// name, and the status.
fn probe(answers: Vec<Result<ProcessOutput, String>>) -> (Vec<String>, SandboxStatus) {
    let mut commands = Vec::new();
    let mut step = probe_sandbox(engine());
    for answer in answers {
        step = match step {
            ProbeStep::Run { command, then } => {
                assert_eq!(command.program, "wsl");
                assert_eq!(command.args[..3], ["-d", "SpareCycles", "--"]);
                commands.push(command.args[3..].join(" "));
                then.resume(answer)
            }
            ProbeStep::Done(_) => panic!("the probe ended early"),
        };
    }
    match step {
        ProbeStep::Done(status) => (commands, status),
        ProbeStep::Run { .. } => panic!("the probe goes on"),
    }
}

#[test]
fn a_machine_with_everything() {
    let (commands, status) = probe(vec![
        ran(true, "5.2.1\n"),
        ran(true, "5.2.1\n"),
        ran(true, ""),
        ran(true, ""),
        ran(true, " sha256:abc\n"),
    ]);
    assert_eq!(
        commands,
        [
            "podman version --format {{.Server.Version}}",
            "podman version --format {{.Server.Version}}",
            "/usr/local/bin/runsc --version",
            "podman image inspect sparecycles/blender:4.2.9",
            "podman image inspect --format {{.Id}} sparecycles/blender:4.2.9",
        ]
    );
    assert!(status.engine_available);
    assert_eq!(status.engine_version, Some("5.2.1".to_string()));
    assert_eq!(status.engine, "Podman in the 'SpareCycles' WSL2 distro");
    assert!(status.gvisor_available);
    assert!(status.image_present);
    assert_eq!(status.image_digest, Some("sha256:abc".to_string()));
    assert_eq!(
        status.isolation,
        "Podman in the 'SpareCycles' WSL2 distro, running jobs under gVisor (runsc): the \
         job's syscalls are served by the sandbox kernel, not the host's"
    );
}

#[test]
fn a_machine_without_an_engine() {
    for silent in [ran(false, "5.2.1"), ran(true, " \n"), Err("no wsl".to_string())] {
        let (commands, status) = probe(vec![silent]);
        assert_eq!(commands.len(), 1);
        assert!(!status.engine_available);
        assert_eq!(status.engine_version, None);
        assert!(!status.gvisor_available);
        assert!(!status.image_present);
        assert_eq!(status.image_digest, None);
        assert_eq!(
            status.isolation,
            "Podman in the 'SpareCycles' WSL2 distro is not available — jobs cannot run. \
             Install the job runtime; see docs/wsl-runtime-setup.md"
        );
    }
}

#[test]
fn a_machine_without_gvisor_or_image() {
    let (commands, status) = probe(vec![
        ran(true, "5.2.1"),
        ran(false, ""),
        Err("no runsc".to_string()),
        ran(false, ""),
    ]);
    assert_eq!(commands.len(), 4);
    assert!(status.engine_available);
    assert_eq!(status.engine_version, None);
    assert!(!status.gvisor_available);
    assert!(!status.image_present);
    assert_eq!(status.image_digest, None);
    assert_eq!(
        status.isolation,
        "Podman in the 'SpareCycles' WSL2 distro WITHOUT gVisor. Jobs are refused unless \
         the development override is set — see SPARECYCLES_ALLOW_NO_GVISOR"
    );
}

#[test]
fn the_engine_is_selected_by_its_answer() {
    assert_eq!(
        select_engine(None, ran(true, "5.2.1")),
        Some(Engine::Wsl {
            distro: "SpareCycles".into()
        })
    );
    assert_eq!(
        select_engine(Some("Other".into()), ran(true, "5.2.1")),
        Some(Engine::Wsl {
            distro: "Other".into()
        })
    );
    assert_eq!(select_engine(None, ran(true, "")), None);
    assert_eq!(select_engine(None, Err("gone".into())), None);
    assert_eq!(
        intended_engine(Some("".into())),
        Engine::Wsl { distro: "".into() }
    );
}

#[test]
fn only_exactly_true_opts_out_of_gvisor() {
    assert!(allow_missing_gvisor(&Some("true".into())));
    assert!(!allow_missing_gvisor(&Some("TRUE".into())));
    assert!(!allow_missing_gvisor(&Some("1".into())));
    assert!(!allow_missing_gvisor(&Some(" true".into())));
    assert!(!allow_missing_gvisor(&None));
}
