//! What holds of every assigned job, whatever the backend and the host answer.

use crate::command::optional;
use crate::digest::pinned;
use crate::engine::is_relative_path;
use crate::job_runner::{
    AssignmentUpdate, CONTAINER_PREFIX, FetchEnd, INPUT_NAME, JobStep, MAX_ID_LENGTH, NodeSettings,
    RunJobRequest, RunStep, ScratchEnd, TellPhase, UploadEnd, assignment_url, container_name,
    failure_words, follows_fetch, follows_job_run, follows_load_render, follows_render,
    follows_scratch, follows_store, follows_tell, follows_upload, input_url, is_id_char, kept,
    output_url, renders, sanitized, scratch_place, shown_exit, starts_job, starts_run,
};
use crate::render::{JobOutcome, OUTPUT_PATTERN, creation_args};
use crate::render_laws::{is_first, plan_of};
use crate::sandbox::{container_args, is_clamped, law_a_job_gets_what_it_may_have};
use crate::text;
use vstd::prelude::*;

verus! {

// ---------------------------------------------------------------------------
// Ids
// ---------------------------------------------------------------------------

/// Whatever an id holds, its safe form is at most [`MAX_ID_LENGTH`] ASCII
/// letters, digits and dashes.
pub proof fn law_sanitized_ids_are_safe(id: Seq<char>)
    ensures
        sanitized(id).len() <= MAX_ID_LENGTH,
        forall|i: int| 0 <= i < sanitized(id).len() ==> is_id_char(#[trigger] sanitized(id)[i]),
{
    lemma_kept(id);
}

proof fn lemma_kept(id: Seq<char>)
    ensures
        forall|i: int| 0 <= i < kept(id).len() ==> is_id_char(#[trigger] kept(id)[i]),
        kept(id).len() <= id.len(),
    decreases id.len(),
{
    reveal(Seq::filter);
    if id.len() > 0 {
        lemma_kept(id.drop_last());
    }
}

proof fn lemma_all_kept(id: Seq<char>)
    requires
        forall|i: int| 0 <= i < id.len() ==> is_id_char(#[trigger] id[i]),
    ensures
        kept(id) == id,
    decreases id.len(),
{
    reveal(Seq::filter);
    if id.len() > 0 {
        lemma_all_kept(id.drop_last());
        assert(is_id_char(id.last()));
        assert(id.drop_last().push(id.last()) =~= id);
    }
}

/// An id that is safe already is used as it stands: a UUID is.
pub proof fn law_safe_ids_are_kept(id: Seq<char>)
    requires
        id.len() <= MAX_ID_LENGTH,
        forall|i: int| 0 <= i < id.len() ==> is_id_char(#[trigger] id[i]),
    ensures
        sanitized(id) == id,
{
    lemma_all_kept(id);
}

/// Making an id safe a second time changes nothing.
pub proof fn law_sanitizing_twice_changes_nothing(id: Seq<char>)
    ensures
        sanitized(sanitized(id)) == sanitized(id),
{
    law_sanitized_ids_are_safe(id);
    law_safe_ids_are_kept(sanitized(id));
}

/// A hostile id cannot steer the path of a job's directory. The directory lies
/// strictly below that of all jobs: the component that is made of the id is not
/// empty, and holds no separator, no drive and no way up. A job gets no directory
/// exactly when its id holds no safe character.
pub proof fn law_an_id_cannot_steer_the_scratch_path(
    request: RunJobRequest,
    settings: NodeSettings,
    first: RunStep,
)
    requires
        starts_run(request, settings, first),
    ensures
        first is MakeScratch <==> exists|i: int|
            0 <= i < request.assignment_id@.len() && is_id_char(
                #[trigger] request.assignment_id@[i],
            ),
        first matches RunStep::MakeScratch { below, .. } ==> {
            &&& text::texts(below@).len() == 2
            &&& text::texts(below@)[0] == "jobs"@
            &&& text::texts(below@)[1] == sanitized(request.assignment_id@)
            &&& text::texts(below@)[1].len() > 0
            &&& !text::texts(below@)[1].contains('/')
            &&& !text::texts(below@)[1].contains('\\')
            &&& !text::texts(below@)[1].contains(':')
            &&& !text::texts(below@)[1].contains('.')
        },
{
    let id = request.assignment_id@;
    law_sanitized_ids_are_safe(id);
    if exists|i: int| 0 <= i < id.len() && is_id_char(#[trigger] id[i]) {
        let i = choose|i: int| 0 <= i < id.len() && is_id_char(#[trigger] id[i]);
        lemma_one_kept(id, i);
    } else {
        lemma_none_kept(id);
    }
}

proof fn lemma_none_kept(id: Seq<char>)
    requires
        forall|i: int| 0 <= i < id.len() ==> !is_id_char(#[trigger] id[i]),
    ensures
        kept(id).len() == 0,
    decreases id.len(),
{
    reveal(Seq::filter);
    if id.len() > 0 {
        lemma_none_kept(id.drop_last());
        assert(!is_id_char(id[id.len() - 1]));
    }
}

proof fn lemma_one_kept(id: Seq<char>, i: int)
    requires
        0 <= i < id.len(),
        is_id_char(id[i]),
    ensures
        kept(id).len() > 0,
    decreases id.len(),
{
    reveal(Seq::filter);
    if i < id.len() - 1 {
        lemma_one_kept(id.drop_last(), i);
    }
}

/// An id is made safe character by character: ASCII letters, digits and dashes stay,
/// in order and with none left out, until there are 64 of them, and nothing else
/// does.
pub proof fn law_an_id_keeps_its_safe_characters(id: Seq<char>, c: char)
    ensures
        sanitized(Seq::empty()) == Seq::<char>::empty(),
        ({
            let safe = 48 <= c as int <= 57 || 65 <= c as int <= 90 || 97 <= c as int <= 122
                || c as int == 45;
            &&& safe && sanitized(id).len() < 64 ==> sanitized(id.push(c)) == sanitized(id).push(c)
            &&& !safe || sanitized(id).len() >= 64 ==> sanitized(id.push(c)) == sanitized(id)
        }),
        sanitized(id).len() <= 64,
{
    reveal(Seq::filter);
    let keep = |c: char| is_id_char(c);
    assert(Seq::<char>::empty().filter(keep) =~= Seq::<char>::empty());
    let longer = id.push(c);
    assert(longer.drop_last() =~= id);
    assert(kept(longer) == if is_id_char(c) {
        kept(id).push(c)
    } else {
        kept(id)
    });
    if kept(id).len() >= 64 {
        assert(kept(longer).take(64) =~= kept(id).take(64));
        assert(kept(id).take(64).len() == 64);
    }
}

/// A job's container and directory are named after its id, made safe.
pub proof fn law_names_hold_the_safe_id(id: Seq<char>)
    ensures
        container_name(id) == "sparecycles-job-"@ + sanitized(id),
        scratch_place(id).len() == 2,
        scratch_place(id)[0] == "jobs"@,
        scratch_place(id)[1] == sanitized(id),
{
}

// ---------------------------------------------------------------------------
// Runs
// ---------------------------------------------------------------------------

/// An answer of the host to a step.
pub enum Answer {
    Fetched(FetchEnd),
    Stored(Result<(), String>),
    Told,
    Rendered(Result<JobOutcome, String>),
    Loaded(Result<Vec<u8>, String>),
    Uploaded(UploadEnd),
}

/// `next` is the step that resuming `step` with `answer` gives.
pub open spec fn follows(step: JobStep, answer: Answer, next: JobStep) -> bool {
    match (step, answer) {
        (JobStep::Fetch { then, .. }, Answer::Fetched(end)) => follows_fetch(then, end, next),
        (JobStep::Store { then, .. }, Answer::Stored(stored)) => follows_store(then, stored, next),
        (JobStep::Tell { then, .. }, Answer::Told) => follows_tell(then, next),
        (JobStep::Render { then, .. }, Answer::Rendered(result)) => follows_render(
            then,
            result,
            next,
        ),
        (JobStep::LoadRender { then, .. }, Answer::Loaded(read)) => follows_load_render(
            then,
            read,
            next,
        ),
        (JobStep::Upload { then, .. }, Answer::Uploaded(end)) => follows_upload(then, end, next),
        _ => false,
    }
}

/// The steps of the run of a request and the answers between them, from the
/// start on.
pub open spec fn is_job(
    request: RunJobRequest,
    settings: NodeSettings,
    steps: Seq<JobStep>,
    answers: Seq<Answer>,
) -> bool {
    &&& steps.len() == answers.len() + 1
    &&& starts_job(request, settings, steps[0])
    &&& forall|i: int|
        0 <= i < answers.len() ==> follows(#[trigger] steps[i], answers[i], steps[i + 1])
}

/// How far a step is into the run.
spec fn stage(step: JobStep) -> int {
    match step {
        JobStep::Fetch { .. } => 0,
        JobStep::Store { .. } => 1,
        JobStep::Tell { then, .. } => match then.phase {
            TellPhase::Render => 2,
            TellPhase::Finish { .. } => 5,
        },
        JobStep::Render { .. } => 3,
        JobStep::LoadRender { .. } => 4,
        JobStep::Upload { .. } => 5,
        JobStep::Done(_) => 6,
    }
}

/// The outcome that a step carries, once there is one.
spec fn outcome_of(step: JobStep) -> Option<JobOutcome> {
    match step {
        JobStep::Tell { then, .. } => match then.phase {
            TellPhase::Render => None,
            TellPhase::Finish { outcome } => Some(outcome),
        },
        JobStep::LoadRender { then, .. } => Some(then.outcome),
        JobStep::Upload { then, .. } => Some(then.outcome),
        JobStep::Done(Ok(outcome)) => Some(outcome),
        _ => None,
    }
}

/// The step is one of the run of this request, and carries what it should.
spec fn belongs(step: JobStep, request: RunJobRequest, settings: NodeSettings) -> bool {
    match step {
        JobStep::Fetch { url, token, then } => url@ == input_url(request) && token@
            == request.token@ && then.request == request && then.settings == settings,
        JobStep::Store { then, .. } => then.request == request && then.settings == settings,
        JobStep::Tell { url, token, update, then } => {
            &&& url@ == assignment_url(request)
            &&& token@ == request.token@
            &&& then.request == request
            &&& then.settings == settings
            &&& match then.phase {
                TellPhase::Render => update == AssignmentUpdate::Running,
                TellPhase::Finish { outcome } => !outcome.success && (
                update matches AssignmentUpdate::Failed { error_message } && error_message@
                    == failure_words(outcome)),
            }
        },
        JobStep::Render { first, then } => renders(first, request, settings) && then.request
            == request && then.settings == settings,
        JobStep::LoadRender { path, then } => then.request == request && then.outcome.success && (
        then.outcome.output_path matches Some(p) && path@ == p@),
        JobStep::Upload { url, token, then, .. } => url@ == output_url(request) && token@
            == request.token@ && then.outcome.success && then.outcome.output_path is Some,
        JobStep::Done(_) => true,
    }
}

proof fn lemma_step(
    request: RunJobRequest,
    settings: NodeSettings,
    step: JobStep,
    answer: Answer,
    next: JobStep,
)
    requires
        follows(step, answer, next),
        belongs(step, request, settings),
    ensures
        stage(next) > stage(step),
        belongs(next, request, settings),
        outcome_of(step) is Some && outcome_of(next) is Some ==> outcome_of(next) == outcome_of(
            step,
        ),
        outcome_of(next) is Some && outcome_of(step) is None ==> {
            &&& step is Render
            &&& answer == Answer::Rendered(Ok(outcome_of(next)->0))
        },
        next is Upload ==> (step is LoadRender && answer == Answer::Loaded(Ok(next->body))),
        next is LoadRender ==> step is Render,
        next is Render ==> stage(step) == 2,
        stage(next) == 2 ==> (step is Store && (answer matches Answer::Stored(Ok(_)))),
        next is Store ==> (step is Fetch && answer == Answer::Fetched(
            FetchEnd::Fetched(next->bytes),
        ) && next->file_name@ == INPUT_NAME@),
        next matches JobStep::Done(Ok(outcome)) ==> {
            ||| step is Upload && answer == Answer::Uploaded(UploadEnd::Accepted)
            ||| step is Tell && stage(step) == 5
            ||| step is Render && outcome.success && outcome.output_path is None
        },
{
}

proof fn lemma_run(
    request: RunJobRequest,
    settings: NodeSettings,
    steps: Seq<JobStep>,
    answers: Seq<Answer>,
    i: int,
)
    requires
        is_job(request, settings, steps, answers),
        0 <= i < steps.len(),
    ensures
        i <= stage(steps[i]) <= 6,
        belongs(steps[i], request, settings),
        i > 0 ==> belongs(steps[i - 1], request, settings) && follows(
            steps[i - 1],
            answers[i - 1],
            steps[i],
        ),
        i == 0 ==> steps[0] is Fetch,
    decreases i,
{
    if i > 0 {
        lemma_run(request, settings, steps, answers, i - 1);
        assert(follows(steps[i - 1], answers[i - 1], steps[i]));
        lemma_step(request, settings, steps[i - 1], answers[i - 1], steps[i]);
    }
}

/// The run of a job comes to an end: it takes at most six answers.
pub proof fn law_every_job_ends(
    request: RunJobRequest,
    settings: NodeSettings,
    steps: Seq<JobStep>,
    answers: Seq<Answer>,
)
    requires
        is_job(request, settings, steps, answers),
    ensures
        answers.len() <= 6,
{
    lemma_run(request, settings, steps, answers, answers.len() as int);
}

/// Nothing is rendered before the input has been fetched and written, whole,
/// under the name that the render reads it by.
pub proof fn law_nothing_renders_without_its_input(
    request: RunJobRequest,
    settings: NodeSettings,
    steps: Seq<JobStep>,
    answers: Seq<Answer>,
    i: int,
)
    requires
        is_job(request, settings, steps, answers),
        0 <= i < steps.len(),
        steps[i] is Render,
    ensures
        i == 3,
        answers[0] matches Answer::Fetched(FetchEnd::Fetched(input)) && (
        steps[1] matches JobStep::Store { file_name, bytes, .. } && file_name@ == INPUT_NAME@
            && bytes == input),
        answers[1] matches Answer::Stored(Ok(_)),
        steps[3] matches JobStep::Render { first, .. } && plan_of(first) is Some && plan_of(
            first,
        )->0.input_file_name@ == INPUT_NAME@,
{
    lemma_run(request, settings, steps, answers, i);
    lemma_step(request, settings, steps[i - 1], answers[i - 1], steps[i]);
    lemma_run(request, settings, steps, answers, i - 1);
    lemma_step(request, settings, steps[i - 2], answers[i - 2], steps[i - 1]);
    lemma_run(request, settings, steps, answers, i - 2);
    lemma_step(request, settings, steps[i - 3], answers[i - 3], steps[i - 2]);
    lemma_run(request, settings, steps, answers, i - 3);
    if i - 3 > 0 {
        lemma_step(request, settings, steps[i - 4], answers[i - 4], steps[i - 3]);
    }
}

proof fn lemma_outcome(
    request: RunJobRequest,
    settings: NodeSettings,
    steps: Seq<JobStep>,
    answers: Seq<Answer>,
    i: int,
) -> (j: int)
    requires
        is_job(request, settings, steps, answers),
        0 <= i < steps.len(),
        outcome_of(steps[i]) is Some,
    ensures
        0 <= j < i,
        steps[j] is Render,
        answers[j] == Answer::Rendered(Ok(outcome_of(steps[i])->0)),
    decreases i,
{
    lemma_run(request, settings, steps, answers, i);
    lemma_step(request, settings, steps[i - 1], answers[i - 1], steps[i]);
    if outcome_of(steps[i - 1]) is None {
        i - 1
    } else {
        lemma_outcome(request, settings, steps, answers, i - 1)
    }
}

/// The step uploads these bytes as the output of the assignment.
pub open spec fn uploads(step: JobStep, request: RunJobRequest, rendered: Vec<u8>) -> bool {
    step matches JobStep::Upload { url, token, body, .. } && url@ == output_url(request) && token@
        == request.token@ && body == rendered
}

/// The step tells the backend that the assignment failed, and why.
pub open spec fn tells_failure(step: JobStep, request: RunJobRequest, outcome: JobOutcome) -> bool {
    step matches JobStep::Tell { url, token, update, .. } && url@ == assignment_url(request)
        && token@ == request.token@ && (update matches AssignmentUpdate::Failed { error_message }
        && error_message@ == failure_words(outcome))
}

/// The result is reported. A run that ends in an outcome ends in the outcome of
/// its render. If that one succeeded, the last thing the run did was to upload,
/// with success, exactly the bytes read from the rendered file; if it failed,
/// the last thing was to tell the backend why.
pub proof fn law_every_result_is_reported(
    request: RunJobRequest,
    settings: NodeSettings,
    steps: Seq<JobStep>,
    answers: Seq<Answer>,
    k: int,
    outcome: JobOutcome,
)
    requires
        is_job(request, settings, steps, answers),
        0 <= k < steps.len(),
        steps[k] == JobStep::Done(Ok::<JobOutcome, String>(outcome)),
    ensures
        exists|j: int|
            0 <= j < k && #[trigger] steps[j] is Render && answers[j] == Answer::Rendered(
                Ok(outcome),
            ),
        !outcome.success ==> k > 0 && tells_failure(steps[k - 1], request, outcome),
        outcome.success && outcome.output_path is Some ==> {
            &&& k > 1
            &&& answers[k - 2] matches Answer::Loaded(Ok(rendered)) && uploads(
                steps[k - 1],
                request,
                rendered,
            )
            &&& steps[k - 2] matches JobStep::LoadRender { path, .. } && path@
                == outcome.output_path->0@
            &&& answers[k - 1] == Answer::Uploaded(UploadEnd::Accepted)
        },
{
    let j = lemma_outcome(request, settings, steps, answers, k);
    assert(steps[j] is Render);
    lemma_run(request, settings, steps, answers, k);
    lemma_step(request, settings, steps[k - 1], answers[k - 1], steps[k]);
    lemma_run(request, settings, steps, answers, k - 1);
    if steps[k - 1] is Upload {
        lemma_step(request, settings, steps[k - 2], answers[k - 2], steps[k - 1]);
    }
    if !outcome.success {
        assert(!(steps[k - 1] is Upload));
    }
}

/// The input's name is the name of one file.
proof fn lemma_input_name()
    ensures
        is_relative_path(INPUT_NAME@),
        !INPUT_NAME@.contains('/'),
{
    reveal_strlit("input.blend");
    reveal_strlit("..");
    assert forall|at: int| !text::stands_at(INPUT_NAME@, ".."@, at) by {
        if text::stands_at(INPUT_NAME@, ".."@, at) {
            assert(INPUT_NAME@.subrange(at, at + 2)[0] == INPUT_NAME@[at]);
            assert(INPUT_NAME@.subrange(at, at + 2)[1] == INPUT_NAME@[at + 1]);
        }
    }
}

/// No string of the backend reaches the command line of a container as it came:
/// the container's name is a fixed word and a safe id, the input's name is a
/// constant, and all else in the argument list is an integer or a constant.
pub proof fn law_only_safe_names_reach_the_engine(
    request: RunJobRequest,
    settings: NodeSettings,
    steps: Seq<JobStep>,
    answers: Seq<Answer>,
    i: int,
    use_gvisor: bool,
)
    requires
        is_job(request, settings, steps, answers),
        0 <= i < steps.len(),
        steps[i] is Render,
    ensures
        plan_of(steps[i]->first) matches Some(plan) && {
            &&& plan.container_name@ == container_name(request.assignment_id@)
            &&& forall|c: int|
                0 <= c < plan.container_name@.len() ==> is_id_char(
                    #[trigger] plan.container_name@[c],
                )
            &&& is_relative_path(plan.input_file_name@)
            &&& !plan.input_file_name@.contains('/')
            &&& creation_args(plan, use_gvisor) == container_args(
                container_name(request.assignment_id@),
                INPUT_NAME@,
                OUTPUT_PATTERN@,
                request.params,
                plan.caps,
                use_gvisor,
            )
        },
{
    lemma_run(request, settings, steps, answers, i);
    let id = request.assignment_id@;
    law_sanitized_ids_are_safe(id);
    reveal_strlit("sparecycles-job-");
    lemma_input_name();
    assert forall|c: int| 0 <= c < container_name(id).len() implies is_id_char(
        #[trigger] container_name(id)[c],
    ) by {
        if c >= CONTAINER_PREFIX@.len() {
            assert(container_name(id)[c] == sanitized(id)[c - CONTAINER_PREFIX@.len()]);
        }
    }
}

/// What a job renders is a run of the sandbox, with the caps clamped to the
/// request's limits and with the node's own rule on gVisor and pin on the image:
/// all that holds of every such run holds of it.
pub proof fn law_a_job_renders_in_the_sandbox(
    request: RunJobRequest,
    settings: NodeSettings,
    steps: Seq<JobStep>,
    answers: Seq<Answer>,
    i: int,
)
    requires
        is_job(request, settings, steps, answers),
        0 <= i < steps.len(),
        steps[i] is Render,
    ensures
        is_first(steps[i]->first),
        plan_of(steps[i]->first) matches Some(plan) && {
            &&& plan.engine.distro_name() == settings.engine.distro_name()
            &&& is_clamped(
                plan.caps,
                request.params.requested_caps,
                request.limits,
                settings.host_cores,
            )
            &&& optional(plan.expected_digest) == pinned(optional(settings.image_digest))
            &&& plan.allow_missing_gvisor == settings.allow_missing_gvisor
        },
{
    lemma_run(request, settings, steps, answers, i);
}

/// The URL of a request to the backend and the token that it carries.
pub open spec fn sent_to(step: JobStep) -> Option<(Seq<char>, Seq<char>)> {
    match step {
        JobStep::Fetch { url, token, .. } => Some((url@, token@)),
        JobStep::Tell { url, token, .. } => Some((url@, token@)),
        JobStep::Upload { url, token, .. } => Some((url@, token@)),
        _ => None,
    }
}

/// Everything goes to the request's own backend, with the request's own token.
pub proof fn law_requests_go_to_the_backend(
    request: RunJobRequest,
    settings: NodeSettings,
    steps: Seq<JobStep>,
    answers: Seq<Answer>,
    i: int,
)
    requires
        is_job(request, settings, steps, answers),
        0 <= i < steps.len(),
    ensures
        sent_to(steps[i]) matches Some((url, token)) ==> text::begins_with(url, request.backend_url@)
            && token == request.token@,
{
    lemma_run(request, settings, steps, answers, i);
    let base = request.backend_url@;
    assert(input_url(request).subrange(0, base.len() as int) =~= base);
    assert(assignment_url(request).subrange(0, base.len() as int) =~= base);
    assert(output_url(request).subrange(0, base.len() as int) =~= base);
}

/// Every request goes to its own place at the backend: the input is fetched from the
/// job, the word goes to the assignment, and the render to the assignment's output.
pub proof fn law_every_request_goes_to_its_place(
    request: RunJobRequest,
    settings: NodeSettings,
    steps: Seq<JobStep>,
    answers: Seq<Answer>,
    i: int,
)
    requires
        is_job(request, settings, steps, answers),
        0 <= i < steps.len(),
    ensures
        match steps[i] {
            JobStep::Fetch { url, token, .. } => url@ == request.backend_url@ + "/jobs/"@
                + request.job_id@ + "/input"@ && token@ == request.token@,
            JobStep::Tell { url, token, .. } => url@ == request.backend_url@ + "/assignments/"@
                + request.assignment_id@ && token@ == request.token@,
            JobStep::Upload { url, token, .. } => url@ == request.backend_url@ + "/assignments/"@
                + request.assignment_id@ + "/output"@ && token@ == request.token@,
            _ => true,
        },
        steps[i] matches JobStep::Store { file_name, .. } ==> file_name@ == "input.blend"@,
{
    lemma_run(request, settings, steps, answers, i);
    if steps[i] is Store {
        lemma_step(request, settings, steps[i - 1], answers[i - 1], steps[i]);
    }
}

/// A job is rendered as it was requested: its frame, its resolution, its samples and
/// what it asks for reach the sandbox as they stand, with its own container and the
/// node's own settings.
pub proof fn law_a_job_is_rendered_as_requested(
    request: RunJobRequest,
    settings: NodeSettings,
    steps: Seq<JobStep>,
    answers: Seq<Answer>,
    i: int,
)
    requires
        is_job(request, settings, steps, answers),
        0 <= i < steps.len(),
        steps[i] is Render,
    ensures
        plan_of(steps[i]->first) matches Some(plan) && {
            &&& plan.params.frame == request.params.frame
            &&& plan.params.resolution_x == request.params.resolution_x
            &&& plan.params.resolution_y == request.params.resolution_y
            &&& plan.params.samples == request.params.samples
            &&& plan.params.requested_caps.cpu_cores == request.params.requested_caps.cpu_cores
            &&& plan.params.requested_caps.memory_mb == request.params.requested_caps.memory_mb
            &&& plan.params.requested_caps.timeout_seconds
                == request.params.requested_caps.timeout_seconds
            &&& plan.container_name@ == "sparecycles-job-"@ + sanitized(request.assignment_id@)
            &&& plan.input_file_name@ == "input.blend"@
            &&& plan.engine.distro_name() == settings.engine.distro_name()
            &&& plan.allow_missing_gvisor == settings.allow_missing_gvisor
            &&& optional(plan.expected_digest) == pinned(optional(settings.image_digest))
        },
{
    lemma_run(request, settings, steps, answers, i);
}

/// What a requested job gets: its cores, memory and time under the limits that the
/// request carries, on the node's own host, for every request.
pub proof fn law_a_job_gets_what_the_contributor_allows(
    request: RunJobRequest,
    settings: NodeSettings,
    steps: Seq<JobStep>,
    answers: Seq<Answer>,
    i: int,
)
    requires
        is_job(request, settings, steps, answers),
        0 <= i < steps.len(),
        steps[i] is Render,
        1 <= settings.host_cores,
        request.limits.max_cpu_percent <= 100,
    ensures
        plan_of(steps[i]->first) matches Some(plan) && {
            let asked = request.params.requested_caps;
            let limits = request.limits;
            &&& 1 <= asked.cpu_cores && asked.cpu_cores * 100 <= settings.host_cores
                * limits.max_cpu_percent ==> plan.caps.cpu_cores == asked.cpu_cores
            &&& asked.cpu_cores * 100 >= settings.host_cores * limits.max_cpu_percent ==> (
            plan.caps.cpu_cores + 1) * 100 > settings.host_cores * limits.max_cpu_percent
            &&& plan.caps.cpu_cores > 1 ==> plan.caps.cpu_cores * 100 <= settings.host_cores
                * limits.max_cpu_percent
            &&& 256 <= asked.memory_mb <= limits.max_memory_mb ==> plan.caps.memory_mb
                == asked.memory_mb
            &&& 256 <= limits.max_memory_mb <= asked.memory_mb ==> plan.caps.memory_mb
                == limits.max_memory_mb
            &&& 1 <= asked.timeout_seconds <= limits.max_timeout_seconds <= 21_600
                ==> plan.caps.timeout_seconds == asked.timeout_seconds
            &&& 1 <= limits.max_timeout_seconds <= asked.timeout_seconds
                && limits.max_timeout_seconds <= 21_600 ==> plan.caps.timeout_seconds
                == limits.max_timeout_seconds
        },
{
    lemma_run(request, settings, steps, answers, i);
    law_a_job_gets_what_it_may_have(
        plan_of(steps[i]->first)->0.caps,
        request.params.requested_caps,
        request.limits,
        settings.host_cores,
        settings.host_cores as int,
        request.limits.max_cpu_percent as int,
    );
}

/// A job goes on as long as the answers are good ones, and ends in a message as soon
/// as one is not. Whether the word to the backend arrives makes no difference.
#[verifier::rlimit(40)]
pub proof fn law_a_job_goes_by_its_answers(step: JobStep, answer: Answer, next: JobStep)
    requires
        follows(step, answer, next),
    ensures
        match (step, answer) {
            (JobStep::Fetch { .. }, Answer::Fetched(end)) => match end {
                FetchEnd::Fetched(input) => next matches JobStep::Store { bytes, .. } && bytes@
                    == input@,
                _ => next matches JobStep::Done(Err(_)),
            },
            (JobStep::Store { .. }, Answer::Stored(stored)) => {
                &&& stored is Ok ==> (next matches JobStep::Tell { update, .. }
                    && update is Running)
                &&& stored is Err ==> (next matches JobStep::Done(Err(_)))
            },
            (JobStep::Tell { then, .. }, Answer::Told) => match then.phase {
                TellPhase::Render => next is Render,
                TellPhase::Finish { outcome } => next == JobStep::Done(
                    Ok::<JobOutcome, String>(outcome),
                ),
            },
            (JobStep::Render { .. }, Answer::Rendered(result)) => match result {
                Err(e) => next matches JobStep::Done(Err(message)) && message@ == e@,
                Ok(outcome) => if outcome.success {
                    match outcome.output_path {
                        Some(rendered) => next matches JobStep::LoadRender { path, .. } && path@
                            == rendered@,
                        None => next == JobStep::Done(Ok::<JobOutcome, String>(outcome)),
                    }
                } else {
                    next matches JobStep::Tell { update, .. } && update is Failed
                },
            },
            (JobStep::LoadRender { .. }, Answer::Loaded(read)) => match read {
                Ok(rendered) => next matches JobStep::Upload { body, .. } && body@ == rendered@,
                Err(_) => next matches JobStep::Done(Err(_)),
            },
            (JobStep::Upload { then, .. }, Answer::Uploaded(end)) => match end {
                UploadEnd::Accepted => next == JobStep::Done(
                    Ok::<JobOutcome, String>(then.outcome),
                ),
                _ => next matches JobStep::Done(Err(_)),
            },
            _ => false,
        },
{
}

/// A message that a job ends in holds what went wrong, in the words that came with
/// the answer.
#[verifier::rlimit(40)]
pub proof fn law_a_failed_job_keeps_its_words(step: JobStep, answer: Answer, next: JobStep)
    requires
        follows(step, answer, next),
        next matches JobStep::Done(Err(_)),
    ensures
        ({
            let message = (next->Done_0->Err_0)@;
            match answer {
                Answer::Fetched(FetchEnd::NotSent(e)) => text::ends_in(message, e@),
                Answer::Fetched(FetchEnd::Refused(e)) => text::ends_in(message, e@),
                Answer::Fetched(FetchEnd::BodyFailed(e)) => text::ends_in(message, e@),
                Answer::Stored(Err(e)) => text::ends_in(message, e@),
                Answer::Rendered(Err(e)) => message == e@,
                Answer::Loaded(Err(e)) => text::ends_in(message, e@),
                Answer::Uploaded(UploadEnd::NotSent(e)) => text::ends_in(message, e@),
                Answer::Uploaded(UploadEnd::Refused(e)) => text::ends_in(message, e@),
                _ => false,
            }
        }),
{
    let none = Seq::<char>::empty();
    match answer {
        Answer::Fetched(FetchEnd::NotSent(e)) => {
            text::law_parts_are_found("could not fetch job input: "@, e@, none);
        },
        Answer::Fetched(FetchEnd::Refused(e)) => {
            text::law_parts_are_found("could not fetch job input: HTTP "@, e@, none);
        },
        Answer::Fetched(FetchEnd::BodyFailed(e)) => {
            text::law_parts_are_found("could not read job input: "@, e@, none);
        },
        Answer::Stored(Err(e)) => {
            text::law_parts_are_found("could not write job input: "@, e@, none);
        },
        Answer::Loaded(Err(e)) => {
            text::law_parts_are_found("could not read rendered file: "@, e@, none);
        },
        Answer::Uploaded(UploadEnd::NotSent(e)) => {
            text::law_parts_are_found("could not upload render: "@, e@, none);
        },
        Answer::Uploaded(UploadEnd::Refused(e)) => {
            text::law_parts_are_found("could not upload render: HTTP "@, e@, none);
        },
        _ => {},
    }
}

/// The backend is told why a job failed: that its time ran out, and how much it had,
/// or how it exited and the whole of its log.
#[verifier::rlimit(40)]
pub proof fn law_a_failure_is_told_in_full(outcome: JobOutcome)
    ensures
        outcome.timed_out ==> text::begins_with(failure_words(outcome), "timed out"@)
            && text::ends_in(
            failure_words(outcome),
            text::decimal(outcome.effective_caps.timeout_seconds as nat) + "s"@,
        ),
        !outcome.timed_out ==> text::ends_in(failure_words(outcome), outcome.log_tail@)
            && text::begins_with(failure_words(outcome), "render failed (exit "@),
        !outcome.timed_out && outcome.exit_code is None ==> text::occurs_in(
            failure_words(outcome),
            "(exit None)"@,
        ),
        !outcome.timed_out && outcome.exit_code is Some ==> text::occurs_in(
            failure_words(outcome),
            "(exit Some("@ + text::signed_decimal(outcome.exit_code->0 as int) + "))"@,
        ),
{
    if outcome.timed_out {
        lemma_timed_out_words(text::decimal(outcome.effective_caps.timeout_seconds as nat));
    } else {
        let log = outcome.log_tail@;
        let none = Seq::<char>::empty();
        let code = shown_exit(outcome.exit_code);
        let start = "render failed (exit "@ + code + "): "@;
        text::law_parts_are_found(start, log, none);
        text::law_parts_are_found(none, "render failed (exit "@, code + "): "@ + log);
        assert("render failed (exit "@ + (code + "): "@ + log) =~= start + log);
        match outcome.exit_code {
            None => {
                lemma_no_code_words(log);
            },
            Some(n) => {
                lemma_code_words(text::signed_decimal(n as int), log);
            },
        }
    }
}

proof fn lemma_timed_out_words(seconds: Seq<char>)
    ensures
        text::begins_with("timed out after "@ + seconds + "s"@, "timed out"@),
        text::ends_in("timed out after "@ + seconds + "s"@, seconds + "s"@),
{
    let start = "timed out after "@;
    let words = start + seconds + "s"@;
    assert(start.len() == 16 && start.subrange(0, 9) =~= "timed out"@ && "timed out"@.len() == 9)
        by {
        reveal_strlit("timed out");
        reveal_strlit("timed out after ");
    }
    assert(words.subrange(0, 9) =~= start.subrange(0, 9));
    assert(words =~= start + (seconds + "s"@));
    text::law_parts_are_found(start, seconds + "s"@, Seq::empty());
}

#[verifier::rlimit(40)]
proof fn lemma_no_code_words(log: Seq<char>)
    ensures
        text::occurs_in("render failed (exit "@ + "None"@ + "): "@ + log, "(exit None)"@),
{
    reveal_strlit("render failed (exit ");
    reveal_strlit("render failed ");
    reveal_strlit("(exit None)");
    reveal_strlit("None");
    reveal_strlit("): ");
    reveal_strlit(": ");
    text::law_parts_are_found("render failed "@, "(exit None)"@, ": "@ + log);
    assert("render failed "@ + "(exit None)"@ + (": "@ + log) =~= "render failed (exit "@ + "None"@
        + "): "@ + log);
}

#[verifier::rlimit(40)]
proof fn lemma_code_words(code: Seq<char>, log: Seq<char>)
    ensures
        text::occurs_in(
            "render failed (exit "@ + ("Some("@ + code + ")"@) + "): "@ + log,
            "(exit Some("@ + code + "))"@,
        ),
{
    reveal_strlit("render failed (exit ");
    reveal_strlit("render failed ");
    reveal_strlit("(exit Some(");
    reveal_strlit("Some(");
    reveal_strlit("))");
    reveal_strlit(")");
    reveal_strlit("): ");
    reveal_strlit(": ");
    let shown = "(exit Some("@ + code + "))"@;
    text::law_parts_are_found("render failed "@, shown, ": "@ + log);
    assert("render failed "@ + shown + (": "@ + log) =~= "render failed (exit "@ + ("Some("@ + code
        + ")"@) + "): "@ + log);
}

// ---------------------------------------------------------------------------
// The job's directory
// ---------------------------------------------------------------------------

/// An answer of the host to a step around the run.
pub enum OuterAnswer {
    MadeScratch(ScratchEnd),
    Ran(Result<JobOutcome, String>),
    RemovedScratch,
}

pub open spec fn follows_outer(step: RunStep, answer: OuterAnswer, next: RunStep) -> bool {
    match (step, answer) {
        (RunStep::MakeScratch { then, .. }, OuterAnswer::MadeScratch(end)) => follows_scratch(
            then,
            end,
            next,
        ),
        (RunStep::RunAndReport { .. }, OuterAnswer::Ran(result)) => follows_job_run(result, next),
        (RunStep::RemoveScratch { then }, OuterAnswer::RemovedScratch) => next == RunStep::Done(
            then.result,
        ),
        _ => false,
    }
}

/// The steps around the run of a request and the answers between them, from the
/// start on.
pub open spec fn is_whole_run(
    request: RunJobRequest,
    settings: NodeSettings,
    steps: Seq<RunStep>,
    answers: Seq<OuterAnswer>,
) -> bool {
    &&& steps.len() == answers.len() + 1
    &&& starts_run(request, settings, steps[0])
    &&& forall|i: int|
        0 <= i < answers.len() ==> follows_outer(#[trigger] steps[i], answers[i], steps[i + 1])
}

/// The job's directory never outlives the job: once it was made, the job does
/// not end before it is removed, and ends in the result of the run. A job whose
/// directory was not made ends in a message.
pub proof fn law_the_scratch_directory_is_removed(
    request: RunJobRequest,
    settings: NodeSettings,
    steps: Seq<RunStep>,
    answers: Seq<OuterAnswer>,
    k: int,
)
    requires
        is_whole_run(request, settings, steps, answers),
        0 <= k < steps.len(),
        steps[k] is Done,
    ensures
        k > 0 && answers[0] == OuterAnswer::MadeScratch(ScratchEnd::Made) ==> {
            &&& k == 3
            &&& steps[2] is RemoveScratch
            &&& answers[1] matches OuterAnswer::Ran(result) && steps[3] == RunStep::Done(result)
        },
        k == 0 || answers[0] != OuterAnswer::MadeScratch(ScratchEnd::Made) ==> k <= 1 && (
        steps[k] matches RunStep::Done(Err(_))),
{
    if k > 0 {
        assert(follows_outer(steps[0], answers[0], steps[1]));
        if k > 1 {
            assert(follows_outer(steps[1], answers[1], steps[2]));
            if k > 2 {
                assert(follows_outer(steps[2], answers[2], steps[3]));
                if k > 3 {
                    assert(follows_outer(steps[3], answers[3], steps[4]));
                }
            }
        }
    }
}

/// A job that got its directory is run as it was requested, and one that did not
/// says why.
pub proof fn law_a_whole_run_starts_its_job(
    request: RunJobRequest,
    settings: NodeSettings,
    steps: Seq<RunStep>,
    answers: Seq<OuterAnswer>,
)
    requires
        is_whole_run(request, settings, steps, answers),
        answers.len() > 0,
    ensures
        answers[0] == OuterAnswer::MadeScratch(ScratchEnd::Made) ==> (
        steps[1] matches RunStep::RunAndReport { first, .. } && (
        first matches JobStep::Fetch { then, .. } && {
            &&& then.request == request
            &&& then.settings == settings
        })),
        answers[0] matches OuterAnswer::MadeScratch(ScratchEnd::Failed(e)) ==> (
        steps[1] matches RunStep::Done(Err(message)) && text::ends_in(message@, e@)),
        answers[0] matches OuterAnswer::MadeScratch(ScratchEnd::NoDataDir(e)) ==> (
        steps[1] matches RunStep::Done(Err(message)) && text::ends_in(message@, e@)),
{
    assert(follows_outer(steps[0], answers[0], steps[1]));
    let none = Seq::<char>::empty();
    match answers[0] {
        OuterAnswer::MadeScratch(ScratchEnd::Failed(e)) => {
            text::law_parts_are_found("could not create scratch dir: "@, e@, none);
        },
        OuterAnswer::MadeScratch(ScratchEnd::NoDataDir(e)) => {
            text::law_parts_are_found("no app data dir: "@, e@, none);
        },
        _ => {},
    }
}

} // verus!
