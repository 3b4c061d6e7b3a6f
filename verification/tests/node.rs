use sparecycles::engine::Engine;
use sparecycles::job_runner::{JobStep, NodeSettings};
use sparecycles::node::{
    configure, find_node, post, run, shorten_id, Claim, NodeAction, NodeConfig, NodeResponse,
    NodeStep, PostEnd,
};
use sparecycles::render::JobOutcome;
use sparecycles::sandbox::{EffectiveCaps, RenderJobParams, RequestedCaps};

fn settings() -> NodeSettings {
    NodeSettings {
        engine: Engine::Wsl {
            distro: "SpareCycles".into(),
        },
        host_cores: 6,
        image_digest: None,
        allow_missing_gvisor: false,
    }
}

fn config() -> NodeConfig {
    configure(None, None, None, settings())
}

fn node(id: &str, name: &str) -> NodeResponse {
    NodeResponse {
        id: id.to_string(),
        name: name.to_string(),
    }
}

fn claim() -> Claim {
    Claim {
        assignment_id: "assignment-1".into(),
        job_id: "0123456789".into(),
        params: RenderJobParams {
            frame: 1,
            resolution_x: 480,
            resolution_y: 270,
            samples: 8,
            requested_caps: RequestedCaps {
                cpu_cores: 4,
                memory_mb: 2048,
                timeout_seconds: 900,
            },
        },
    }
}

fn outcome(success: bool) -> JobOutcome {
    JobOutcome {
        success,
        output_path: None,
        exit_code: Some(0),
        timed_out: false,
        log_tail: "the log".into(),
        effective_caps: EffectiveCaps {
            cpu_cores: 3,
            memory_mb: 2048,
            timeout_seconds: 900,
        },
        used_gvisor: true,
    }
}

fn auth(step: NodeStep, expected: &str, end: PostEnd<String>) -> NodeStep {
    assert!(step.say.is_empty());
    match step.action {
        NodeAction::Authenticate {
            backend,
            path,
            email,
            password,
            then,
        } => {
            assert_eq!(backend, "http://localhost:3000");
            assert_eq!(path, expected);
            assert_eq!(email, "contributor2@sparecycles.dev");
            assert_eq!(password, "password123");
            then.resume(end)
        }
        other => panic!("{other:?}"),
    }
}

fn list(step: NodeStep, nodes: Option<Vec<NodeResponse>>) -> NodeStep {
    match step.action {
        NodeAction::ListNodes { url, token, then } => {
            assert_eq!(url, "http://localhost:3000/nodes");
            assert_eq!(token, "token");
            then.resume(nodes)
        }
        other => panic!("{other:?}"),
    }
}

fn signed_in() -> NodeStep {
    auth(run(config()), "/auth/register", PostEnd::Answered("token".into()))
}

fn claiming() -> NodeStep {
    list(signed_in(), Some(vec![node("nodeid-1234", "dev-node-2")]))
}

fn ask(step: NodeStep, status: Result<u16, String>) -> NodeStep {
    match step.action {
        NodeAction::Claim { url, token, then } => {
            assert_eq!(url, "http://localhost:3000/nodes/nodeid-1234/claim");
            assert_eq!(token, "token");
            then.resume(status)
        }
        other => panic!("{other:?}"),
    }
}

fn read(step: NodeStep, claim: Result<Claim, String>) -> NodeStep {
    match step.action {
        NodeAction::ReadClaim { then } => then.resume(claim),
        other => panic!("{other:?}"),
    }
}

fn done(step: NodeStep) -> (Vec<String>, Result<(), String>) {
    match step.action {
        NodeAction::Done(result) => (step.say, result),
        other => panic!("{other:?}"),
    }
}

#[test]
fn what_is_configured_is_used() {
    let config = configure(
        Some("http://b".into()),
        Some("e".into()),
        Some("p".into()),
        settings(),
    );
    assert_eq!(config.backend, "http://b");
    assert_eq!(config.email, "e");
    assert_eq!(config.password, "p");
}

#[test]
fn a_new_account_or_an_old_one() {
    let step = signed_in();
    assert_eq!(
        step.say,
        ["created second contributor account contributor2@sparecycles.dev"]
    );

    let step = auth(run(config()), "/auth/register", PostEnd::Refused("409 Conflict".into()));
    let step = auth(step, "/auth/login", PostEnd::Answered("token".into()));
    assert_eq!(step.say, ["signed in as contributor2@sparecycles.dev"]);

    let step = auth(run(config()), "/auth/register", PostEnd::NotSent("down".into()));
    let step = auth(step, "/auth/login", PostEnd::Refused("401 Unauthorized".into()));
    assert_eq!(
        done(step),
        (vec![], Err("/auth/login: HTTP 401 Unauthorized".to_string()))
    );
}

#[test]
fn a_known_node_is_reused() {
    let step = list(
        signed_in(),
        Some(vec![
            node("other-id-1", ""),
            node("nodeid-1234", "dev-node-2"),
            node("nodeid-5678", "dev-node-2"),
        ]),
    );
    assert_eq!(step.say, ["reusing node nodeid-1 (dev-node-2)"]);
    assert!(matches!(step.action, NodeAction::Claim { .. }));
}

#[test]
fn an_unknown_node_is_registered() {
    for nodes in [None, Some(vec![]), Some(vec![node("x", "dev-node-1")])] {
        let step = list(signed_in(), nodes);
        assert!(step.say.is_empty());
        match step.action {
            NodeAction::NewNode {
                backend,
                path,
                token,
                name,
                cpu_core_count,
                max_cpu_percent,
                then,
            } => {
                assert_eq!(backend, "http://localhost:3000");
                assert_eq!(path, "/nodes");
                assert_eq!(token, "token");
                assert_eq!(name, "dev-node-2");
                assert_eq!(cpu_core_count, 6);
                assert_eq!(max_cpu_percent, 50);
                let step = then.resume(PostEnd::Answered(node("nodeid-1234", "")));
                assert_eq!(step.say, ["registered node nodeid-1 (dev-node-2)"]);
                assert!(matches!(step.action, NodeAction::Claim { .. }));
            }
            other => panic!("{other:?}"),
        }
    }
    match list(signed_in(), None).action {
        NodeAction::NewNode { then, .. } => assert_eq!(
            done(then.resume(PostEnd::Unreadable("bad json".into()))),
            (vec![], Err("/nodes: bad json".to_string()))
        ),
        other => panic!("{other:?}"),
    }
}

#[test]
fn nothing_to_claim_is_a_success() {
    let (say, result) = done(ask(claiming(), Ok(204)));
    assert_eq!(
        say,
        [
            "\nNothing to claim. Either no job is waiting, or this node already has them all.",
            "Queue one with:  npm run seed -w backend",
        ]
    );
    assert_eq!(result, Ok(()));
}

#[test]
fn a_claim_can_fail() {
    assert_eq!(
        done(ask(claiming(), Err("refused".into()))),
        (vec![], Err("claim failed: refused".to_string()))
    );
    let step = ask(claiming(), Ok(500));
    assert_eq!(
        done(read(step, Err("bad json".into()))),
        (vec![], Err("could not read the claim: bad json".to_string()))
    );
}

#[test]
fn a_claimed_job_runs_under_the_nodes_own_limits() {
    let step = read(ask(claiming(), Ok(200)), Ok(claim()));
    assert_eq!(
        step.say,
        ["claimed job 01234567 — rendering 480x270 at 8 samples"]
    );
    let (name, then) = match step.action {
        NodeAction::MakeScratch { name, then } => (name, then),
        other => panic!("{other:?}"),
    };
    assert_eq!(name, "sc-dev-node-assignment-1");
    let (first, then) = match then.resume(Ok(())).action {
        NodeAction::RunAndReport { first, then } => (first, then),
        other => panic!("{other:?}"),
    };
    match first {
        JobStep::Fetch { url, token, then } => {
            assert_eq!(url, "http://localhost:3000/jobs/0123456789/input");
            assert_eq!(token, "token");
            assert_eq!(then.request.assignment_id, "assignment-1");
            assert_eq!(then.request.limits.max_cpu_percent, 50);
            assert_eq!(then.request.limits.max_memory_mb, 4096);
            assert_eq!(then.request.limits.max_timeout_seconds, 3600);
        }
        other => panic!("{other:?}"),
    }
    let cleaning = match then.resume(Ok(outcome(true))).action {
        NodeAction::RemoveScratch { then } => then,
        other => panic!("{other:?}"),
    };
    let (say, result) = done(cleaning.resume());
    assert_eq!(say.len(), 6);
    assert_eq!(say[0], "\nrender succeeded — 3 cores, 2048 MB, gVisor: true");
    assert_eq!(
        say[1],
        "\nResult reported. The backend compares the two nodes' output hashes:"
    );
    assert_eq!(say[5], "  npm run job-status -w backend");
    assert_eq!(result, Ok(()));
}

#[test]
fn a_render_without_a_result_is_a_failure() {
    let scratch = || match read(ask(claiming(), Ok(200)), Ok(claim())).action {
        NodeAction::MakeScratch { then, .. } => then,
        other => panic!("{other:?}"),
    };
    assert_eq!(
        done(scratch().resume(Err("denied".into()))),
        (vec![], Err("could not create scratch dir: denied".to_string()))
    );

    let job = || match scratch().resume(Ok(())).action {
        NodeAction::RunAndReport { then, .. } => then,
        other => panic!("{other:?}"),
    };
    assert_eq!(
        done(job().resume(Err("refusing to run".into()))),
        (vec![], Err("refusing to run".to_string()))
    );

    let cleaning = match job().resume(Ok(outcome(false))).action {
        NodeAction::RemoveScratch { then } => then,
        other => panic!("{other:?}"),
    };
    let (say, result) = done(cleaning.resume());
    assert_eq!(say, ["\nrender FAILED — 3 cores, 2048 MB, gVisor: true", "the log"]);
    assert_eq!(result, Err("the render did not produce a result".to_string()));
}

#[test]
fn ids_are_shown_by_their_first_bytes() {
    assert_eq!(shorten_id("0123456789"), Some("01234567".to_string()));
    assert_eq!(shorten_id("01234567"), Some("01234567".to_string()));
    assert_eq!(shorten_id("0123456"), None);
    assert_eq!(shorten_id("ääääx"), Some("ääää".to_string()));
    // The eighth byte stands inside a character.
    assert_eq!(shorten_id("0123456ä9"), None);
}

#[test]
fn nodes_are_found_by_name() {
    let nodes = vec![node("1", "a"), node("2", "b"), node("3", "b")];
    assert_eq!(find_node(&nodes, "b"), Some("2".to_string()));
    assert_eq!(find_node(&nodes, "c"), None);
}

#[test]
fn answers_are_read_or_explained() {
    assert_eq!(post("/p", PostEnd::Answered(5u8)), Ok(5));
    assert_eq!(post::<u8>("/p", PostEnd::NotSent("e".into())), Err("/p: e".to_string()));
    assert_eq!(
        post::<u8>("/p", PostEnd::Refused("404 Not Found".into())),
        Err("/p: HTTP 404 Not Found".to_string())
    );
    assert_eq!(post::<u8>("/p", PostEnd::Unreadable("e".into())), Err("/p: e".to_string()));
}
