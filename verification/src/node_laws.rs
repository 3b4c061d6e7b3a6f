//! What holds of every run of the headless node, whatever the backend and the
//! host answer.

use crate::job_runner::{JobStep, RunJobRequest, starts_job};
use crate::node::{
    AuthPhase, Claim, NodeAction, NodeConfig, NodeResponse, NodeStep, PostEnd, authenticates,
    backend_or_default, claimed_line, email_or_default, follows_auth, follows_claim,
    follows_clean_up, follows_list_nodes, follows_new_node, follows_node_job, follows_node_scratch,
    follows_read_claim, is_request, known_node, node_named, nothing_to_claim, outcome_line,
    password_or_default, post_failure, short_id, start_of,
};
use crate::render::JobOutcome;
use crate::text;
use vstd::prelude::*;
use vstd::utf8::*;

verus! {

/// An answer of the host to a step.
pub enum Answer {
    Authenticated(PostEnd<String>),
    Listed(Option<Vec<NodeResponse>>),
    Registered(PostEnd<NodeResponse>),
    Claimed(Result<u16, String>),
    ReadClaim(Result<Claim, String>),
    MadeScratch(Result<(), String>),
    Ran(Result<JobOutcome, String>),
    RemovedScratch,
}

/// `next` is the step that resuming `step` with `answer` gives.
pub open spec fn follows(step: NodeStep, answer: Answer, next: NodeStep) -> bool {
    match (step.action, answer) {
        (NodeAction::Authenticate { then, .. }, Answer::Authenticated(end)) => follows_auth(
            then,
            end,
            next,
        ),
        (NodeAction::ListNodes { then, .. }, Answer::Listed(nodes)) => follows_list_nodes(
            then,
            nodes,
            next,
        ),
        (NodeAction::NewNode { then, .. }, Answer::Registered(end)) => follows_new_node(
            then,
            end,
            next,
        ),
        (NodeAction::Claim { then, .. }, Answer::Claimed(status)) => follows_claim(
            then,
            status,
            next,
        ),
        (NodeAction::ReadClaim { then }, Answer::ReadClaim(read)) => follows_read_claim(
            then,
            read,
            next,
        ),
        (NodeAction::MakeScratch { then, .. }, Answer::MadeScratch(made)) => follows_node_scratch(
            then,
            made,
            next,
        ),
        (NodeAction::RunAndReport { .. }, Answer::Ran(result)) => follows_node_job(result, next),
        (NodeAction::RemoveScratch { then }, Answer::RemovedScratch) => follows_clean_up(
            then,
            next,
        ),
        _ => false,
    }
}

/// The steps of a run of the node and the answers between them, from the start
/// on.
pub open spec fn is_node_run(
    config: NodeConfig,
    steps: Seq<NodeStep>,
    answers: Seq<Answer>,
) -> bool {
    &&& steps.len() == answers.len() + 1
    &&& authenticates(steps[0], config, "/auth/register"@, AuthPhase::Register)
    &&& forall|i: int|
        0 <= i < answers.len() ==> follows(#[trigger] steps[i], answers[i], steps[i + 1])
}

/// How far a step is into the run.
spec fn stage(step: NodeStep) -> int {
    match step.action {
        NodeAction::Authenticate { then, .. } => match then.phase {
            AuthPhase::Register => 0,
            AuthPhase::Login => 1,
        },
        NodeAction::ListNodes { .. } => 2,
        NodeAction::NewNode { .. } => 3,
        NodeAction::Claim { .. } => 4,
        NodeAction::ReadClaim { .. } => 5,
        NodeAction::MakeScratch { .. } => 6,
        NodeAction::RunAndReport { .. } => 7,
        NodeAction::RemoveScratch { .. } => 8,
        NodeAction::Done(_) => 9,
    }
}

/// The configuration that a step belongs to, while it is still needed.
spec fn config_of(step: NodeStep) -> Option<NodeConfig> {
    match step.action {
        NodeAction::Authenticate { then, .. } => Some(then.config),
        NodeAction::ListNodes { then, .. } => Some(then.config),
        NodeAction::NewNode { then, .. } => Some(then.config),
        NodeAction::Claim { then, .. } => Some(then.config),
        NodeAction::ReadClaim { then } => Some(then.config),
        NodeAction::MakeScratch { then, .. } => Some(then.config),
        _ => None,
    }
}

/// The token of the session that a step belongs to, while it is still needed.
spec fn token_of(step: NodeStep) -> Option<Seq<char>> {
    match step.action {
        NodeAction::ListNodes { then, .. } => Some(then.token@),
        NodeAction::NewNode { then, .. } => Some(then.token@),
        NodeAction::Claim { then, .. } => Some(then.token@),
        NodeAction::ReadClaim { then } => Some(then.token@),
        NodeAction::MakeScratch { then, .. } => Some(then.token@),
        _ => None,
    }
}

/// The answer opens a session with this token.
pub open spec fn opens_session(answer: Answer, token: Seq<char>) -> bool {
    answer matches Answer::Authenticated(PostEnd::Answered(given)) && given@ == token
}

proof fn lemma_token(config: NodeConfig, steps: Seq<NodeStep>, answers: Seq<Answer>, i: int) -> (j:
    int)
    requires
        is_node_run(config, steps, answers),
        0 <= i < steps.len(),
        token_of(steps[i]) is Some,
    ensures
        0 <= j < i,
        opens_session(answers[j], token_of(steps[i])->0),
    decreases i,
{
    assert(follows(steps[i - 1], answers[i - 1], steps[i]));
    if token_of(steps[i - 1]) is Some {
        lemma_token(config, steps, answers, i - 1)
    } else {
        i - 1
    }
}

proof fn lemma_run(config: NodeConfig, steps: Seq<NodeStep>, answers: Seq<Answer>, i: int)
    requires
        is_node_run(config, steps, answers),
        0 <= i < steps.len(),
    ensures
        i <= stage(steps[i]) <= 9,
        stage(steps[i]) <= 6 ==> config_of(steps[i]) == Some(config),
        i > 0 ==> follows(steps[i - 1], answers[i - 1], steps[i]),
    decreases i,
{
    if i > 0 {
        lemma_run(config, steps, answers, i - 1);
        assert(follows(steps[i - 1], answers[i - 1], steps[i]));
    }
}

/// The node comes to an end: it takes at most nine answers.
pub proof fn law_every_node_run_ends(
    config: NodeConfig,
    steps: Seq<NodeStep>,
    answers: Seq<Answer>,
)
    requires
        is_node_run(config, steps, answers),
    ensures
        answers.len() <= 9,
{
    lemma_run(config, steps, answers, answers.len() as int);
}

/// The node is registered once: another one is only registered right after a
/// listing that does not have it.
pub proof fn law_a_known_node_is_reused(
    config: NodeConfig,
    steps: Seq<NodeStep>,
    answers: Seq<Answer>,
    i: int,
)
    requires
        is_node_run(config, steps, answers),
        0 <= i < steps.len(),
        steps[i].action is NewNode,
    ensures
        i > 0,
        answers[i - 1] matches Answer::Listed(nodes) && known_node(nodes) is None,
{
    lemma_run(config, steps, answers, i);
}

/// A job is only run once it was claimed, and as it was claimed, under the
/// node's own limits and in the session that the node opened. Gives the request
/// and the position of the answer that opened the session.
pub proof fn law_only_claimed_jobs_run(
    config: NodeConfig,
    steps: Seq<NodeStep>,
    answers: Seq<Answer>,
    i: int,
) -> (r: (RunJobRequest, int))
    requires
        is_node_run(config, steps, answers),
        0 <= i < steps.len(),
        steps[i].action is RunAndReport,
    ensures
        i > 1,
        starts_job(r.0, config.settings, steps[i].action->RunAndReport_first),
        answers[i - 2] matches Answer::ReadClaim(Ok(claim)) && is_request(
            r.0,
            claim,
            config.backend@,
            r.0.token@,
        ),
        0 <= r.1 < i,
        opens_session(answers[r.1], r.0.token@),
{
    lemma_run(config, steps, answers, i);
    lemma_run(config, steps, answers, i - 1);
    let j = lemma_token(config, steps, answers, i - 1);
    let claimed = steps[i - 1].action->MakeScratch_then;
    let request = choose|request: RunJobRequest| #[trigger]
        starts_job(request, config.settings, steps[i].action->RunAndReport_first) && is_request(
            request,
            claimed.claim,
            config.backend@,
            claimed.token@,
        );
    (request, j)
}

/// The node succeeds only when there was nothing to claim, or when the job that
/// it ran rendered.
pub proof fn law_success_means_nothing_to_do_or_a_render(
    config: NodeConfig,
    steps: Seq<NodeStep>,
    answers: Seq<Answer>,
    k: int,
)
    requires
        is_node_run(config, steps, answers),
        0 <= k < steps.len(),
        steps[k].action == NodeAction::Done(Ok::<(), String>(())),
    ensures
        k > 1,
        steps[k].said() == nothing_to_claim() || (answers[k - 2] matches Answer::Ran(Ok(outcome))
            && outcome.success),
{
    lemma_run(config, steps, answers, k);
    lemma_run(config, steps, answers, k - 1);
    if k > 1 {
        lemma_run(config, steps, answers, k - 2);
    }
}

/// A claimed job is run exactly as it was claimed: its ids, its frame, its resolution,
/// its samples and what it asks for, under the node's own limits of half the
/// processor, 4096 MB and one hour, with the node's own settings.
#[verifier::rlimit(40)]
pub proof fn law_a_job_is_run_as_claimed(
    config: NodeConfig,
    steps: Seq<NodeStep>,
    answers: Seq<Answer>,
    i: int,
)
    requires
        is_node_run(config, steps, answers),
        0 <= i < steps.len(),
        steps[i].action is RunAndReport,
    ensures
        i > 1,
        answers[i - 2] matches Answer::ReadClaim(Ok(claim)) && (
        steps[i].action->RunAndReport_first matches JobStep::Fetch { url, token, then } && {
            &&& then.request.assignment_id@ == claim.assignment_id@
            &&& then.request.job_id@ == claim.job_id@
            &&& then.request.params.frame == claim.params.frame
            &&& then.request.params.resolution_x == claim.params.resolution_x
            &&& then.request.params.resolution_y == claim.params.resolution_y
            &&& then.request.params.samples == claim.params.samples
            &&& then.request.params.requested_caps.cpu_cores
                == claim.params.requested_caps.cpu_cores
            &&& then.request.params.requested_caps.memory_mb
                == claim.params.requested_caps.memory_mb
            &&& then.request.params.requested_caps.timeout_seconds
                == claim.params.requested_caps.timeout_seconds
            &&& then.request.limits.max_cpu_percent == 50
            &&& then.request.limits.max_memory_mb == 4096
            &&& then.request.limits.max_timeout_seconds == 3600
            &&& then.request.backend_url@ == config.backend@
            &&& then.settings == config.settings
            &&& url@ == config.backend@ + "/jobs/"@ + claim.job_id@ + "/input"@
            &&& token@ == then.request.token@
            &&& exists|j: int|
                0 <= j < i && opens_session(#[trigger] answers[j], then.request.token@)
        }),
{
    let (request, j) = law_only_claimed_jobs_run(config, steps, answers, i);
    assert(opens_session(answers[j], request.token@));
}

/// Making the directory of a claimed job leads to that job, and to nothing else.
pub proof fn law_the_claimed_job_is_started(step: NodeStep, next: NodeStep)
    requires
        step.action is MakeScratch,
        follows(step, Answer::MadeScratch(Ok(())), next),
    ensures
        next.action matches NodeAction::RunAndReport { first, .. } && (
        first matches JobStep::Fetch { then, .. } && {
            let claim = step.action->MakeScratch_then.claim;
            &&& then.request.params.frame == claim.params.frame
            &&& then.request.params.resolution_x == claim.params.resolution_x
            &&& then.request.params.resolution_y == claim.params.resolution_y
            &&& then.request.params.samples == claim.params.samples
            &&& then.request.params.requested_caps.cpu_cores
                == claim.params.requested_caps.cpu_cores
            &&& then.request.params.requested_caps.memory_mb
                == claim.params.requested_caps.memory_mb
            &&& then.request.params.requested_caps.timeout_seconds
                == claim.params.requested_caps.timeout_seconds
            &&& then.request.assignment_id@ == claim.assignment_id@
            &&& then.request.job_id@ == claim.job_id@
            &&& then.request.token@ == step.action->MakeScratch_then.token@
            &&& then.request.backend_url@ == step.action->MakeScratch_then.config.backend@
        }),
{
}

proof fn lemma_start_of(id: Seq<char>, bytes: nat)
    ensures
        start_of(id, bytes) matches Some(start) ==> start.len() <= id.len() && start == id.take(
            start.len() as int,
        ) && encode_utf8(start).len() == bytes,
        start_of(id, bytes) is None ==> forall|k: int|
            0 <= k <= id.len() ==> encode_utf8(#[trigger] id.take(k)).len() != bytes,
    decreases id.len(),
{
    if bytes == 0 {
        assert(id.take(0) =~= Seq::<char>::empty());
        assert(encode_utf8(Seq::<char>::empty()).len() == 0);
    } else if id.len() == 0 {
        assert forall|k: int| 0 <= k <= id.len() implies encode_utf8(#[trigger] id.take(k)).len()
            != bytes by {
            assert(id.take(k) =~= Seq::<char>::empty());
            assert(encode_utf8(Seq::<char>::empty()).len() == 0);
        }
    } else {
        let width = text::utf8_width(id[0]);
        let rest = id.drop_first();
        if width <= bytes {
            lemma_start_of(rest, (bytes - width) as nat);
            if start_of(id, bytes) is Some {
                let start = start_of(id, bytes)->0;
                let tail = start_of(rest, (bytes - width) as nat)->0;
                assert(start.drop_first() =~= tail);
                assert(start =~= id.take(start.len() as int));
                assert(encode_utf8(start) == encode_scalar(start[0] as u32) + encode_utf8(
                    start.drop_first(),
                ));
            }
        }
        if start_of(id, bytes) is None {
            assert forall|k: int| 0 <= k <= id.len() implies encode_utf8(
                #[trigger] id.take(k),
            ).len() != bytes by {
                let start = id.take(k);
                if k == 0 {
                    assert(start =~= Seq::<char>::empty());
                    assert(encode_utf8(Seq::<char>::empty()).len() == 0);
                } else {
                    assert(start.drop_first() =~= rest.take(k - 1));
                    assert(encode_utf8(start) == encode_scalar(start[0] as u32) + encode_utf8(
                        start.drop_first(),
                    ));
                    assert(encode_utf8(rest.take(k - 1)).len() >= 0);
                }
            }
        }
    }
}

/// An id is shown by its first eight bytes, cut where they end, and by nothing only
/// when no part of it from the start on takes exactly eight.
pub proof fn law_an_id_is_shown_by_its_start(id: Seq<char>)
    ensures
        short_id(id) matches Some(start) ==> start.len() <= id.len() && start == id.take(
            start.len() as int,
        ) && encode_utf8(start).len() == 8,
        short_id(id) is None ==> forall|k: int|
            0 <= k <= id.len() ==> encode_utf8(#[trigger] id.take(k)).len() != 8,
{
    lemma_start_of(id, 8);
}

/// A node is found by its name: the first of that name, and none only when none has
/// it.
pub proof fn law_a_node_is_found_by_its_name(nodes: Seq<NodeResponse>, name: Seq<char>)
    ensures
        node_named(nodes, name) matches Some(id) ==> exists|i: int|
            0 <= i < nodes.len() && (#[trigger] nodes[i]).id@ == id && nodes[i].name@ == name
                && forall|j: int| 0 <= j < i ==> (#[trigger] nodes[j]).name@ != name,
        node_named(nodes, name) is None ==> forall|j: int|
            0 <= j < nodes.len() ==> (#[trigger] nodes[j]).name@ != name,
    decreases nodes.len(),
{
    if nodes.len() > 0 {
        let rest = nodes.drop_first();
        if nodes[0].name@ == name {
            assert(nodes[0].id@ == nodes[0].id@);
        } else {
            law_a_node_is_found_by_its_name(rest, name);
            if node_named(rest, name) is Some {
                let i = choose|i: int|
                    0 <= i < rest.len() && (#[trigger] rest[i]).id@ == node_named(rest, name)->0
                        && rest[i].name@ == name && forall|j: int|
                        0 <= j < i ==> (#[trigger] rest[j]).name@ != name;
                assert(nodes[i + 1].id@ == node_named(rest, name)->0);
                assert forall|j: int| 0 <= j < i + 1 implies (#[trigger] nodes[j]).name@ != name by {
                    if j > 0 {
                        assert(rest[j - 1] == nodes[j]);
                    }
                }
            } else {
                assert forall|j: int| 0 <= j < nodes.len() implies (#[trigger] nodes[j]).name@
                    != name by {
                    if j > 0 {
                        assert(rest[j - 1] == nodes[j]);
                    }
                }
            }
        }
    }
}

/// The step claims a job for the node with this id, in the session of this token.
pub open spec fn claims_for(next: NodeStep, config: NodeConfig, token: Seq<char>, id: Seq<char>) -> bool {
    next.action matches NodeAction::Claim { url, token: shown, then } && {
        &&& url@ == config.backend@ + "/nodes/"@ + id + "/claim"@
        &&& shown@ == token
        &&& then.config == config
        &&& then.token@ == token
    }
}

/// The node goes by the answers that it gets. It signs in with its own credentials,
/// lists the nodes, claims for the node of its name, or registers it with half the
/// processor and claims for that one; it makes a directory named after the
/// assignment, runs the job, and removes the directory. A bad answer ends it.
#[verifier::rlimit(40)]
pub proof fn law_a_node_goes_by_its_answers(step: NodeStep, answer: Answer, next: NodeStep)
    requires
        follows(step, answer, next),
    ensures
        match (step.action, answer) {
            (NodeAction::Authenticate { then, .. }, Answer::Authenticated(end)) => match end {
                PostEnd::Answered(token) => next.action matches NodeAction::ListNodes {
                    url,
                    token: shown,
                    then: after,
                } && {
                    &&& url@ == then.config.backend@ + "/nodes"@
                    &&& shown@ == token@
                    &&& after.token@ == token@
                    &&& after.config == then.config
                },
                _ => match then.phase {
                    AuthPhase::Register => next.action matches NodeAction::Authenticate {
                        backend,
                        path,
                        email,
                        password,
                        then: after,
                    } && {
                        &&& backend@ == then.config.backend@
                        &&& path@ == "/auth/login"@
                        &&& email@ == then.config.email@
                        &&& password@ == then.config.password@
                        &&& after.config == then.config
                        &&& after.phase is Login
                    },
                    AuthPhase::Login => next.action matches NodeAction::Done(Err(_)),
                },
            },
            (NodeAction::ListNodes { then, .. }, Answer::Listed(nodes)) => {
                let known = match nodes {
                    Some(list) => node_named(list@, "dev-node-2"@),
                    None => None,
                };
                match known {
                    Some(id) => claims_for(next, then.config, then.token@, id),
                    None => next.action matches NodeAction::NewNode {
                        backend,
                        path,
                        token,
                        name,
                        cpu_core_count,
                        max_cpu_percent,
                        then: after,
                    } && {
                        &&& backend@ == then.config.backend@
                        &&& path@ == "/nodes"@
                        &&& token@ == then.token@
                        &&& name@ == "dev-node-2"@
                        &&& cpu_core_count == then.config.settings.host_cores
                        &&& max_cpu_percent == 50
                        &&& after.config == then.config
                        &&& after.token@ == then.token@
                    },
                }
            },
            (NodeAction::NewNode { then, .. }, Answer::Registered(end)) => match end {
                PostEnd::Answered(node) => claims_for(next, then.config, then.token@, node.id@),
                _ => next.action matches NodeAction::Done(Err(_)),
            },
            (NodeAction::Claim { then, .. }, Answer::Claimed(status)) => match status {
                Err(_) => next.action matches NodeAction::Done(Err(_)),
                Ok(code) => {
                    &&& code == 204 ==> next.action == NodeAction::Done(Ok::<(), String>(()))
                    &&& code != 204 ==> (next.action matches NodeAction::ReadClaim { then: after }
                        && after.config == then.config && after.token@ == then.token@)
                },
            },
            (NodeAction::ReadClaim { then }, Answer::ReadClaim(read)) => match read {
                Err(_) => next.action matches NodeAction::Done(Err(_)),
                Ok(claim) => next.action matches NodeAction::MakeScratch { name, then: after } && {
                    &&& name@ == "sc-dev-node-"@ + claim.assignment_id@
                    &&& after.claim == claim
                    &&& after.config == then.config
                    &&& after.token@ == then.token@
                },
            },
            (NodeAction::MakeScratch { .. }, Answer::MadeScratch(made)) => {
                &&& made is Ok ==> next.action is RunAndReport
                &&& made is Err ==> (next.action matches NodeAction::Done(Err(_)))
            },
            (NodeAction::RunAndReport { .. }, Answer::Ran(result)) => match result {
                Err(e) => next.action matches NodeAction::Done(Err(message)) && message@ == e@,
                Ok(outcome) => next.action matches NodeAction::RemoveScratch { then }
                    && then.outcome == outcome,
            },
            (NodeAction::RemoveScratch { then }, Answer::RemovedScratch) => {
                &&& then.outcome.success ==> next.action == NodeAction::Done(Ok::<(), String>(()))
                &&& !then.outcome.success ==> (next.action matches NodeAction::Done(Err(_)))
                &&& !then.outcome.success ==> next.said().contains(then.outcome.log_tail@)
                &&& next.said().len() > 0 && next.said()[0] == outcome_line(then.outcome)
            },
            _ => false,
        },
{
    if let (NodeAction::RemoveScratch { then }, Answer::RemovedScratch) = (step.action, answer) {
        if !then.outcome.success {
            assert(next.said()[1] == then.outcome.log_tail@);
        }
    }
}

/// A message that the node stops with holds what went wrong, in the words that came
/// with the answer.
pub proof fn law_a_stopped_node_keeps_the_words(step: NodeStep, answer: Answer, next: NodeStep)
    requires
        follows(step, answer, next),
        next.action matches NodeAction::Done(Err(_)),
    ensures
        ({
            let message = (next.action->Done_0->Err_0)@;
            match answer {
                Answer::Authenticated(PostEnd::NotSent(e)) => text::ends_in(message, e@),
                Answer::Authenticated(PostEnd::Refused(e)) => text::ends_in(message, e@),
                Answer::Authenticated(PostEnd::Unreadable(e)) => text::ends_in(message, e@),
                Answer::Registered(PostEnd::NotSent(e)) => text::ends_in(message, e@),
                Answer::Registered(PostEnd::Refused(e)) => text::ends_in(message, e@),
                Answer::Registered(PostEnd::Unreadable(e)) => text::ends_in(message, e@),
                Answer::Claimed(Err(e)) => text::ends_in(message, e@),
                Answer::ReadClaim(Err(e)) => text::ends_in(message, e@),
                Answer::MadeScratch(Err(e)) => text::ends_in(message, e@),
                Answer::Ran(Err(e)) => message == e@,
                Answer::RemovedScratch => true,
                _ => false,
            }
        }),
{
    let none = Seq::<char>::empty();
    match answer {
        Answer::Authenticated(end) => {
            law_a_failed_request_says_why("/auth/login"@, end);
        },
        Answer::Registered(end) => {
            law_a_failed_request_says_why("/nodes"@, end);
        },
        Answer::Claimed(Err(e)) => {
            text::law_parts_are_found("claim failed: "@, e@, none);
        },
        Answer::ReadClaim(Err(e)) => {
            text::law_parts_are_found("could not read the claim: "@, e@, none);
        },
        Answer::MadeScratch(Err(e)) => {
            text::law_parts_are_found("could not create scratch dir: "@, e@, none);
        },
        _ => {},
    }
}

/// A request failed exactly when it was not answered, and the message then begins
/// with the path and ends in the words that came with it.
pub proof fn law_a_failed_request_says_why<T>(path: Seq<char>, end: PostEnd<T>)
    ensures
        post_failure(path, end) is None <==> end is Answered,
        post_failure(path, end) matches Some(message) ==> text::begins_with(message, path)
            && match end {
            PostEnd::NotSent(e) => text::ends_in(message, e@),
            PostEnd::Refused(e) => text::ends_in(message, e@),
            PostEnd::Unreadable(e) => text::ends_in(message, e@),
            PostEnd::Answered(_) => false,
        },
{
    let none = Seq::<char>::empty();
    match end {
        PostEnd::NotSent(e) => {
            text::law_parts_are_found(path + ": "@, e@, none);
            text::law_parts_are_found(none, path, ": "@ + e@);
            assert(path + (": "@ + e@) =~= path + ": "@ + e@);
        },
        PostEnd::Refused(e) => {
            text::law_parts_are_found(path + ": HTTP "@, e@, none);
            text::law_parts_are_found(none, path, ": HTTP "@ + e@);
            assert(path + (": HTTP "@ + e@) =~= path + ": HTTP "@ + e@);
        },
        PostEnd::Unreadable(e) => {
            text::law_parts_are_found(path + ": "@, e@, none);
            text::law_parts_are_found(none, path, ": "@ + e@);
            assert(path + (": "@ + e@) =~= path + ": "@ + e@);
        },
        PostEnd::Answered(_) => {},
    }
}

/// What is configured is used as it stands, and the defaults only in its place.
pub proof fn law_configured_values_are_used(value: Seq<char>)
    ensures
        backend_or_default(Some(value)) == value,
        email_or_default(Some(value)) == value,
        password_or_default(Some(value)) == value,
        backend_or_default(None) == "http://localhost:3000"@,
        email_or_default(None) == "contributor2@sparecycles.dev"@,
        password_or_default(None) == "password123"@,
{
}

/// The line about a claimed job ends in its own resolution and samples.
pub proof fn law_the_claim_is_shown_as_it_is(claim: Claim)
    ensures
        text::ends_in(
            claimed_line(claim),
            text::decimal(claim.params.resolution_x as nat) + "x"@ + text::decimal(
                claim.params.resolution_y as nat,
            ) + " at "@ + text::decimal(claim.params.samples as nat) + " samples"@,
        ),
        short_id(claim.job_id@) matches Some(start) ==> text::begins_with(
            claimed_line(claim),
            "claimed job "@ + start,
        ),
{
    let x = text::decimal(claim.params.resolution_x as nat);
    let y = text::decimal(claim.params.resolution_y as nat);
    let samples = text::decimal(claim.params.samples as nat);
    let start = "claimed job "@ + short_id(claim.job_id@)->0;
    let end = x + "x"@ + y + " at "@ + samples + " samples"@;
    let none = Seq::<char>::empty();
    assert(claimed_line(claim) =~= start + " — rendering "@ + end);
    text::law_parts_are_found(start + " — rendering "@, end, none);
    text::law_parts_are_found(none, start, " — rendering "@ + end);
    assert(start + (" — rendering "@ + end) =~= start + " — rendering "@ + end);
}

/// The line about an outcome says whether the render succeeded, what the job got and
/// whether it ran under gVisor.
pub proof fn law_the_outcome_is_shown_as_it_is(outcome: JobOutcome)
    ensures
        outcome_line(outcome) == "\nrender "@ + (if outcome.success {
            "succeeded"@
        } else {
            "FAILED"@
        }) + (" — "@ + text::decimal(outcome.effective_caps.cpu_cores as nat) + " cores, "@) + (
        text::decimal(outcome.effective_caps.memory_mb as nat) + " MB, gVisor: "@) + (
        if outcome.used_gvisor {
            "true"@
        } else {
            "false"@
        }),
{
    assert(outcome_line(outcome) =~= "\nrender "@ + (if outcome.success {
        "succeeded"@
    } else {
        "FAILED"@
    }) + (" — "@ + text::decimal(outcome.effective_caps.cpu_cores as nat) + " cores, "@) + (
    text::decimal(outcome.effective_caps.memory_mb as nat) + " MB, gVisor: "@) + (
    if outcome.used_gvisor {
        "true"@
    } else {
        "false"@
    }));
}

/// The node begins by registering its own account at its own backend.
pub proof fn law_a_node_begins_by_registering(
    config: NodeConfig,
    steps: Seq<NodeStep>,
    answers: Seq<Answer>,
)
    requires
        is_node_run(config, steps, answers),
    ensures
        steps[0].action matches NodeAction::Authenticate { backend, path, email, password, then }
            && {
            &&& backend@ == config.backend@
            &&& path@ == "/auth/register"@
            &&& email@ == config.email@
            &&& password@ == config.password@
            &&& then.config == config
            &&& then.phase is Register
        },
{
}

/// What the node says about its account and about the node that it claims for holds
/// the account's address and the start of that node's id.
#[verifier::rlimit(40)]
pub proof fn law_the_node_says_who_it_is(step: NodeStep, answer: Answer, next: NodeStep)
    requires
        follows(step, answer, next),
    ensures
        match (step.action, answer) {
            (NodeAction::Authenticate { then, .. }, Answer::Authenticated(PostEnd::Answered(_))) =>
                next.said().len() == 1 && text::ends_in(next.said()[0], then.config.email@),
            (NodeAction::ListNodes { .. }, Answer::Listed(nodes)) => known_node(nodes) matches Some(
                id,
            ) ==> next.said().len() == 1 && next.said()[0] == "reusing node "@ + short_id(id)->0
                + " (dev-node-2)"@,
            (NodeAction::NewNode { .. }, Answer::Registered(PostEnd::Answered(node))) =>
                next.said().len() == 1 && next.said()[0] == "registered node "@ + short_id(
                    node.id@,
                )->0 + " (dev-node-2)"@,
            (NodeAction::ReadClaim { .. }, Answer::ReadClaim(Ok(claim))) => next.said() == seq![
                claimed_line(claim),
            ],
            _ => true,
        },
{
    let none = Seq::<char>::empty();
    reveal_strlit(" (");
    reveal_strlit("dev-node-2");
    reveal_strlit(")");
    reveal_strlit(" (dev-node-2)");
    match (step.action, answer) {
        (NodeAction::Authenticate { then, .. }, Answer::Authenticated(PostEnd::Answered(_))) => {
            let email = then.config.email@;
            text::law_parts_are_found("created second contributor account "@, email, none);
            text::law_parts_are_found("signed in as "@, email, none);
        },
        (NodeAction::ListNodes { .. }, Answer::Listed(nodes)) => {
            if known_node(nodes) is Some {
                let start = "reusing node "@ + short_id(known_node(nodes)->0)->0;
                assert(start + " ("@ + "dev-node-2"@ + ")"@ =~= start + " (dev-node-2)"@);
            }
        },
        (NodeAction::NewNode { .. }, Answer::Registered(PostEnd::Answered(node))) => {
            let start = "registered node "@ + short_id(node.id@)->0;
            assert(start + " ("@ + "dev-node-2"@ + ")"@ =~= start + " (dev-node-2)"@);
        },
        _ => {},
    }
}

} // verus!
