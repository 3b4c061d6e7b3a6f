//! What holds of every run of a render job, whatever the engine answers.

use crate::command::{CommandView, ProcessOutput, optional, printed, ran_well};
use crate::engine::{self, FeedEnd, runs_inside};
use crate::render::{
    FoundFile, JobEnd, JobExit, JobPlan, RenderStep, RunPhase, asks_for_gvisor, creation_args,
    digest_refusal, first_render, follows_feed, follows_job, follows_list, follows_look,
    follows_read, follows_run, follows_save, job_log, no_gvisor_message, remove_args, render_path,
    rendered_name, unavailable_message, version_args,
};
use crate::sandbox::{
    ABSOLUTE_MAX_TIMEOUT_SECONDS, ContributorLimits, is_clamped,
    law_clamped_caps_stay_within_every_limit,
};
use crate::text;
use vstd::prelude::*;
use vstd::utf8::*;

verus! {

/// An answer of the host to a step.
pub enum Answer {
    Ran(Result<ProcessOutput, String>),
    Read(Result<Vec<u8>, String>),
    Fed(FeedEnd),
    JobEnded(JobEnd),
    Saved(Result<(), String>),
    Looked(Option<String>),
    Listed(Option<Vec<FoundFile>>),
}

/// `next` is the step that resuming `step` with `answer` gives.
pub open spec fn follows(step: RenderStep, answer: Answer, next: RenderStep) -> bool {
    match (step, answer) {
        (RenderStep::Run { then, .. }, Answer::Ran(end)) => follows_run(then, end, next),
        (RenderStep::ReadInput { then, .. }, Answer::Read(read)) => follows_read(then, read, next),
        (RenderStep::Feed { then, .. }, Answer::Fed(end)) => follows_feed(then, end, next),
        (RenderStep::RunJob { then, .. }, Answer::JobEnded(end)) => follows_job(then, end, next),
        (RenderStep::Save { then, .. }, Answer::Saved(saved)) => follows_save(then, saved, next),
        (RenderStep::Look { then, .. }, Answer::Looked(path)) => follows_look(then, path, next),
        (RenderStep::List { then }, Answer::Listed(files)) => follows_list(then, files, next),
        _ => false,
    }
}

/// The first step of a run: the question whether the engine is there.
pub open spec fn is_first(step: RenderStep) -> bool {
    step matches RenderStep::Run { command, then } && then.phase == RunPhase::Version && command@
        == engine::podman(then.plan.engine.distro_name(), version_args())
}

/// The steps of a run and the answers between them, from the start on.
pub open spec fn is_run(steps: Seq<RenderStep>, answers: Seq<Answer>) -> bool {
    &&& steps.len() == answers.len() + 1
    &&& is_first(steps[0])
    &&& forall|i: int|
        0 <= i < answers.len() ==> follows(#[trigger] steps[i], answers[i], steps[i + 1])
}

/// The plan that a step belongs to. The result of a run has none.
pub open spec fn plan_of(step: RenderStep) -> Option<JobPlan> {
    match step {
        RenderStep::Run { then, .. } => Some(then.plan),
        RenderStep::ReadInput { then, .. } => Some(then.plan),
        RenderStep::Feed { then, .. } => Some(then.plan),
        RenderStep::RunJob { then, .. } => Some(then.plan),
        RenderStep::Save { then, .. } => Some(then.plan),
        RenderStep::Look { then, .. } => Some(then.plan),
        RenderStep::List { then } => Some(then.plan),
        RenderStep::Done(_) => None,
    }
}

/// The command that a step runs, if it runs one.
pub open spec fn command_of(step: RenderStep) -> Option<CommandView> {
    match step {
        RenderStep::Run { command, .. } => Some(command@),
        RenderStep::Feed { feed, .. } => Some(feed.command@),
        RenderStep::RunJob { command, .. } => Some(command@),
        _ => None,
    }
}

/// The step creates the job's container.
pub open spec fn creates(step: RenderStep) -> bool {
    step matches RenderStep::Run { then, .. } && then.phase is Create
}

/// The step removes the job's container, with its volumes.
pub open spec fn removes(step: RenderStep) -> bool {
    step matches RenderStep::Run { command, then } && then.phase is Remove && command@
        == engine::podman(then.plan.engine.distro_name(), remove_args(then.plan.container_name@))
}

/// How far a step is into the run.
pub open spec fn stage(step: RenderStep) -> int {
    match step {
        RenderStep::Run { then, .. } => match then.phase {
            RunPhase::Version => 0,
            RunPhase::Digest => 1,
            RunPhase::Gvisor => 2,
            RunPhase::Create { .. } => 3,
            RunPhase::Kill { .. } => 7,
            RunPhase::CopyOut { .. } => 7,
            RunPhase::Remove { .. } => 11,
        },
        RenderStep::ReadInput { .. } => 4,
        RenderStep::Feed { .. } => 5,
        RenderStep::RunJob { .. } => 6,
        RenderStep::Save { .. } => 8,
        RenderStep::Look { .. } => 9,
        RenderStep::List { .. } => 10,
        RenderStep::Done(_) => 12,
    }
}

/// The step creates the job's container, or comes after that and before the end.
pub open spec fn concerns_the_container(step: RenderStep) -> bool {
    3 <= stage(step) < 12
}

/// Whether the job runs, or ran, under gVisor, as far as that is settled.
pub open spec fn gvisor_of(step: RenderStep) -> Option<bool> {
    match step {
        RenderStep::Run { then, .. } => match then.phase {
            RunPhase::Create { use_gvisor } => Some(use_gvisor),
            RunPhase::Kill { use_gvisor, .. } => Some(use_gvisor),
            RunPhase::CopyOut { use_gvisor, .. } => Some(use_gvisor),
            RunPhase::Remove { result: Ok(outcome) } => Some(outcome.used_gvisor),
            _ => None,
        },
        RenderStep::ReadInput { then, .. } => Some(then.use_gvisor),
        RenderStep::Feed { then, .. } => Some(then.use_gvisor),
        RenderStep::RunJob { then, .. } => Some(then.use_gvisor),
        RenderStep::Save { then, .. } => Some(then.use_gvisor),
        RenderStep::Look { then, .. } => Some(then.use_gvisor),
        RenderStep::List { then } => Some(then.use_gvisor),
        RenderStep::Done(Ok(outcome)) => Some(outcome.used_gvisor),
        RenderStep::Done(_) => None,
    }
}

/// One step of a run: the plan stays, the run advances, and what was settled
/// about gVisor stays settled.
proof fn lemma_step(step: RenderStep, answer: Answer, next: RenderStep)
    requires
        follows(step, answer, next),
    ensures
        stage(next) > stage(step),
        next !is Done ==> plan_of(next) == plan_of(step),
        plan_of(step) is Some,
        gvisor_of(step) is Some && gvisor_of(next) is Some ==> gvisor_of(next) == gvisor_of(step),
        stage(step) >= 3 && next is Done ==> stage(step) == 11,
        stage(next) == 11 ==> removes(next),
        gvisor_of(step) is None && stage(step) < 3 && stage(next) >= 3 && next !is Done ==> stage(
            step,
        ) == 2 && creates(next),
{
}

/// A run comes to an end: it takes at most twelve answers.
pub proof fn law_every_run_ends(steps: Seq<RenderStep>, answers: Seq<Answer>)
    requires
        is_run(steps, answers),
    ensures
        answers.len() <= 12,
{
    lemma_stages(steps, answers, answers.len() as int);
}

proof fn lemma_stages(steps: Seq<RenderStep>, answers: Seq<Answer>, i: int)
    requires
        is_run(steps, answers),
        0 <= i < steps.len(),
    ensures
        i <= stage(steps[i]) <= 12,
    decreases i,
{
    if i > 0 {
        lemma_stages(steps, answers, i - 1);
        lemma_step(steps[i - 1], answers[i - 1], steps[i]);
    }
}

proof fn lemma_plan(steps: Seq<RenderStep>, answers: Seq<Answer>, i: int)
    requires
        is_run(steps, answers),
        0 <= i < steps.len(),
        steps[i] !is Done,
    ensures
        plan_of(steps[i]) == plan_of(steps[0]),
    decreases i,
{
    if i > 0 {
        lemma_step(steps[i - 1], answers[i - 1], steps[i]);
        lemma_plan(steps, answers, i - 1);
    }
}

/// The command of a step runs inside the distro of its plan.
proof fn lemma_command(step: RenderStep, answer: Answer, next: RenderStep)
    requires
        follows(step, answer, next),
        command_of(next) is Some,
    ensures
        runs_inside(command_of(next)->0, plan_of(next)->0.engine.distro_name()),
{
    let distro = plan_of(next)->0.engine.distro_name();
    assert(exists|program: Seq<char>, args: Seq<Seq<char>>|
        command_of(next)->0 == engine::inside(distro, program, args));
    let (program, args) = choose|program: Seq<char>, args: Seq<Seq<char>>|
        command_of(next)->0 == engine::inside(distro, program, args);
    engine::law_commands_run_inside_the_distro(distro, program, args);
}

/// Every command of a run runs inside the distro that the run started with.
pub proof fn law_every_command_runs_inside_the_distro(
    steps: Seq<RenderStep>,
    answers: Seq<Answer>,
    i: int,
)
    requires
        is_run(steps, answers),
        0 <= i < steps.len(),
        command_of(steps[i]) is Some,
    ensures
        plan_of(steps[0]) is Some,
        runs_inside(command_of(steps[i])->0, plan_of(steps[0])->0.engine.distro_name()),
{
    let distro = plan_of(steps[0])->0.engine.distro_name();
    lemma_plan(steps, answers, i);
    if i > 0 {
        lemma_command(steps[i - 1], answers[i - 1], steps[i]);
    } else {
        engine::law_commands_run_inside_the_distro(distro, engine::CONTAINER_CLI@, version_args());
    }
}

/// The answer says that gVisor is there.
pub open spec fn confirms_gvisor(step: RenderStep, answer: Answer) -> bool {
    &&& step matches RenderStep::Run { then, .. } && asks_for_gvisor(step, then.plan)
    &&& answer matches Answer::Ran(end) && ran_well(end)
}

/// The answer says that the installed image has the pinned digest.
pub open spec fn confirms_digest(step: RenderStep, answer: Answer) -> bool {
    &&& step matches RenderStep::Run { then, .. } && then.phase is Digest && (answer matches Answer::Ran(
        end,
    ) && printed(end) == optional(then.plan.expected_digest))
}

proof fn lemma_before_creation(step: RenderStep, answer: Answer, next: RenderStep)
    requires
        follows(step, answer, next),
    ensures
        stage(next) == 1 ==> stage(step) == 0,
        stage(next) == 2 ==> {
            &&& plan_of(next) is Some
            &&& asks_for_gvisor(next, plan_of(next)->0)
            &&& plan_of(next)->0.expected_digest is Some ==> confirms_digest(step, answer)
        },
        stage(next) == 3 ==> stage(step) == 2,
        stage(step) == 2 && stage(next) == 3 ==> {
            &&& gvisor_of(next) is Some
            &&& gvisor_of(next)->0 ==> (answer matches Answer::Ran(end) && ran_well(end))
            &&& !gvisor_of(next)->0 ==> plan_of(next)->0.allow_missing_gvisor
            &&& command_of(next) == Some(
                engine::podman(
                    plan_of(next)->0.engine.distro_name(),
                    creation_args(plan_of(next)->0, gvisor_of(next)->0),
                ),
            )
        },
        3 < stage(next) < 12 ==> stage(step) >= 3,
        stage(step) < 3 && next is Done ==> gvisor_of(next) is None,
        stage(step) >= 3 && gvisor_of(next) is Some ==> gvisor_of(step) is Some,
{
}

/// Where a run has come to creating the container, or further, a creating step
/// stands before.
proof fn lemma_created(steps: Seq<RenderStep>, answers: Seq<Answer>, i: int) -> (c: int)
    requires
        is_run(steps, answers),
        0 <= i < steps.len(),
        3 <= stage(steps[i]) < 12 || gvisor_of(steps[i]) is Some,
    ensures
        0 < c <= i,
        stage(steps[c]) == 3,
        stage(steps[c - 1]) == 2,
        gvisor_of(steps[i]) is Some ==> gvisor_of(steps[i]) == gvisor_of(steps[c]),
    decreases i,
{
    if i == 0 {
        0
    } else {
        lemma_step(steps[i - 1], answers[i - 1], steps[i]);
        lemma_before_creation(steps[i - 1], answers[i - 1], steps[i]);
        if stage(steps[i]) == 3 {
            i
        } else {
            lemma_created(steps, answers, i - 1)
        }
    }
}

/// gVisor is required. Unless a developer has opted out, every step from the
/// creation of the container on comes after an answer that gVisor is there, the
/// container is created with gVisor as its runtime, and an outcome says so.
pub proof fn law_no_job_runs_without_gvisor(steps: Seq<RenderStep>, answers: Seq<Answer>, i: int)
    requires
        is_run(steps, answers),
        0 <= i < steps.len(),
        plan_of(steps[0]) is Some,
        !plan_of(steps[0])->0.allow_missing_gvisor,
        concerns_the_container(steps[i]) || (steps[i] matches RenderStep::Done(Ok(_))),
    ensures
        exists|j: int| 0 <= j < i && confirms_gvisor(#[trigger] steps[j], answers[j]),
        creates(steps[i]) ==> command_of(steps[i]) == Some(
            engine::podman(
                plan_of(steps[0])->0.engine.distro_name(),
                creation_args(plan_of(steps[0])->0, true),
            ),
        ),
        gvisor_of(steps[i]) is Some ==> gvisor_of(steps[i]) == Some(true),
{
    let c = lemma_created(steps, answers, i);
    lemma_before_creation(steps[c - 1], answers[c - 1], steps[c]);
    lemma_plan(steps, answers, c);
    lemma_plan(steps, answers, c - 1);
    lemma_asked(steps, answers, c - 1);
    assert(confirms_gvisor(steps[c - 1], answers[c - 1]));
    if creates(steps[i]) {
        lemma_stage_increases(steps, answers, c, i);
        assert(c == i);
    }
}

proof fn lemma_asked(steps: Seq<RenderStep>, answers: Seq<Answer>, i: int)
    requires
        is_run(steps, answers),
        0 <= i < steps.len(),
        stage(steps[i]) == 2,
    ensures
        i > 0,
        plan_of(steps[i]) is Some,
        asks_for_gvisor(steps[i], plan_of(steps[i])->0),
        plan_of(steps[i])->0.expected_digest is Some ==> confirms_digest(
            steps[i - 1],
            answers[i - 1],
        ),
{
    if i > 0 {
        lemma_before_creation(steps[i - 1], answers[i - 1], steps[i]);
    }
}

proof fn lemma_stage_increases(steps: Seq<RenderStep>, answers: Seq<Answer>, i: int, j: int)
    requires
        is_run(steps, answers),
        0 <= i <= j < steps.len(),
    ensures
        stage(steps[j]) - stage(steps[i]) >= j - i,
    decreases j - i,
{
    if i < j {
        lemma_stage_increases(steps, answers, i, j - 1);
        lemma_step(steps[j - 1], answers[j - 1], steps[j]);
    }
}

/// Where a digest is pinned, no container is created before the installed image
/// was seen to have exactly that digest.
pub proof fn law_no_job_runs_on_another_image(steps: Seq<RenderStep>, answers: Seq<Answer>, i: int)
    requires
        is_run(steps, answers),
        0 <= i < steps.len(),
        plan_of(steps[0]) is Some,
        plan_of(steps[0])->0.expected_digest is Some,
        creates(steps[i]),
    ensures
        exists|j: int| 0 <= j < i && confirms_digest(#[trigger] steps[j], answers[j]),
{
    let c = lemma_created(steps, answers, i);
    lemma_plan(steps, answers, c - 1);
    lemma_asked(steps, answers, c - 1);
    assert(confirms_digest(steps[c - 2], answers[c - 2]));
}

/// Teardown is unconditional: a run that came to creating the container does not
/// end before a step that removes it, with its work volume.
pub proof fn law_a_created_container_is_removed(
    steps: Seq<RenderStep>,
    answers: Seq<Answer>,
    i: int,
    k: int,
)
    requires
        is_run(steps, answers),
        0 <= i <= k < steps.len(),
        creates(steps[i]),
        steps[k] is Done,
    ensures
        i < k - 1,
        removes(steps[k - 1]),
{
    lemma_stage_increases(steps, answers, i, k);
    lemma_stage_increases(steps, answers, i, k - 1);
    lemma_step(steps[k - 1], answers[k - 1], steps[k]);
    lemma_step(steps[k - 2], answers[k - 2], steps[k - 1]);
}

/// A job is never given more time than the contributor's limit and the hard
/// ceiling allow, nor a container with other caps than the clamped ones.
pub proof fn law_the_clamped_caps_are_the_ones_enforced(
    steps: Seq<RenderStep>,
    answers: Seq<Answer>,
    i: int,
    limits: ContributorLimits,
    host_cores: u32,
)
    requires
        is_run(steps, answers),
        0 <= i < steps.len(),
        plan_of(steps[0]) is Some,
        is_clamped(
            plan_of(steps[0])->0.caps,
            plan_of(steps[0])->0.params.requested_caps,
            limits,
            host_cores,
        ),
    ensures
        steps[i] matches RenderStep::RunJob { seconds, .. } ==> {
            &&& seconds == plan_of(steps[0])->0.caps.timeout_seconds
            &&& seconds <= ABSOLUTE_MAX_TIMEOUT_SECONDS
            &&& seconds > 1 ==> seconds <= limits.max_timeout_seconds
        },
        creates(steps[i]) ==> exists|use_gvisor: bool|
            command_of(steps[i]) == Some(
                engine::podman(
                    plan_of(steps[0])->0.engine.distro_name(),
                    #[trigger] creation_args(plan_of(steps[0])->0, use_gvisor),
                ),
            ),
        steps[i] matches RenderStep::Done(Ok(outcome)) ==> outcome.effective_caps == plan_of(
            steps[0],
        )->0.caps,
{
    law_clamped_caps_stay_within_every_limit(
        plan_of(steps[0])->0.caps,
        plan_of(steps[0])->0.params.requested_caps,
        limits,
        host_cores,
    );
    if i > 0 {
        lemma_plan(steps, answers, i - 1);
        lemma_before_creation(steps[i - 1], answers[i - 1], steps[i]);
        lemma_step(steps[i - 1], answers[i - 1], steps[i]);
        if steps[i] matches RenderStep::Done(Ok(outcome)) {
            lemma_stage_of_result(steps, answers, i);
            lemma_plan(steps, answers, i - 2);
            lemma_outcome(steps[i - 2], answers[i - 2], steps[i - 1]);
        }
        if creates(steps[i]) {
            lemma_plan(steps, answers, i);
        }
    }
}

proof fn lemma_stage_of_result(steps: Seq<RenderStep>, answers: Seq<Answer>, i: int)
    requires
        is_run(steps, answers),
        0 <= i < steps.len(),
        steps[i] matches RenderStep::Done(Ok(_)),
    ensures
        i >= 2,
        stage(steps[i - 1]) == 11,
        steps[i - 1] matches RenderStep::Run { then, .. } && (then.phase matches RunPhase::Remove {
            result,
        } && steps[i] == RenderStep::Done(result)),
{
    lemma_before_creation(steps[i - 1], answers[i - 1], steps[i]);
    lemma_step(steps[i - 1], answers[i - 1], steps[i]);
}

proof fn lemma_outcome(step: RenderStep, answer: Answer, next: RenderStep)
    requires
        follows(step, answer, next),
    ensures
        next matches RenderStep::Run { then, .. } ==> (then.phase matches RunPhase::Remove {
            result: Ok(outcome),
        } ==> {
            &&& outcome.effective_caps == then.plan.caps
            &&& outcome.success <==> !outcome.timed_out && outcome.exit_code == Some(0i32)
                && outcome.output_path is Some
        }),
{
}

/// A job has succeeded exactly when it ended in time, with exit code zero, and
/// left a render.
pub proof fn law_success_means_a_render(steps: Seq<RenderStep>, answers: Seq<Answer>, i: int)
    requires
        is_run(steps, answers),
        0 <= i < steps.len(),
    ensures
        steps[i] matches RenderStep::Done(Ok(outcome)) ==> (outcome.success <==> !outcome.timed_out
            && outcome.exit_code == Some(0i32) && outcome.output_path is Some),
{
    if steps[i] matches RenderStep::Done(Ok(outcome)) {
        lemma_stage_of_result(steps, answers, i);
        lemma_outcome(steps[i - 2], answers[i - 2], steps[i - 1]);
    }
}

// ---------------------------------------------------------------------------
// What the pieces of a run are
// ---------------------------------------------------------------------------

/// The file of a frame is named after it: `render_`, the frame's number in at least
/// four digits, `.png`.
pub proof fn law_a_render_is_named_after_its_frame(frame: u32)
    ensures
        text::begins_with(rendered_name(frame), "render_"@),
        text::ends_in(rendered_name(frame), ".png"@),
        rendered_name(frame).len() >= 15,
        text::number_of(rendered_name(frame).subrange(7, rendered_name(frame).len() - 4)) == frame,
        rendered_name(frame).len() > 15 ==> rendered_name(frame)[7] != '0',
        frame < 10_000 ==> rendered_name(frame).len() == 15,
{
    let digits = text::zero_padded(frame as nat, 4);
    text::law_padded_text_is_its_number(frame as nat, 4);
    reveal_strlit("render_");
    reveal_strlit(".png");
    assert("render_"@ + digits + ".png"@ =~= "render_"@ + (digits + ".png"@));
    text::law_parts_are_found("render_"@ + digits, ".png"@, Seq::empty());
    text::law_parts_are_found(Seq::empty(), "render_"@, digits + ".png"@);
    assert(rendered_name(frame).subrange(7, rendered_name(frame).len() - 4) =~= digits);
    if frame < 10_000 {
        reveal_with_fuel(text::decimal, 5);
    }
}

/// The render is the first file of a listing whose name begins with `render_` and
/// ends in `.png`, and there is none only when no file has such a name.
pub proof fn law_the_first_render_is_found(files: Seq<FoundFile>)
    ensures
        first_render(files) matches Some(path) ==> exists|i: int|
            0 <= i < files.len() && (#[trigger] files[i]).path@ == path && text::begins_with(
                files[i].name@,
                "render_"@,
            ) && text::ends_in(files[i].name@, ".png"@) && forall|j: int|
                0 <= j < i ==> !(text::begins_with((#[trigger] files[j]).name@, "render_"@)
                    && text::ends_in(files[j].name@, ".png"@)),
        first_render(files) is None ==> forall|j: int|
            0 <= j < files.len() ==> !(text::begins_with((#[trigger] files[j]).name@, "render_"@)
                && text::ends_in(files[j].name@, ".png"@)),
    decreases files.len(),
{
    if files.len() > 0 {
        let found = text::begins_with(files[0].name@, "render_"@) && text::ends_in(
            files[0].name@,
            ".png"@,
        );
        let rest = files.drop_first();
        if found {
            assert(files[0].path@ == files[0].path@);
        } else {
            law_the_first_render_is_found(rest);
            if first_render(rest) is Some {
                let i = choose|i: int|
                    0 <= i < rest.len() && (#[trigger] rest[i]).path@ == first_render(rest)->0
                        && text::begins_with(rest[i].name@, "render_"@) && text::ends_in(
                        rest[i].name@,
                        ".png"@,
                    ) && forall|j: int|
                        0 <= j < i ==> !(text::begins_with((#[trigger] rest[j]).name@, "render_"@)
                            && text::ends_in(rest[j].name@, ".png"@));
                assert(files[i + 1].path@ == first_render(rest)->0);
                assert forall|j: int| 0 <= j < i + 1 implies !(text::begins_with(
                    (#[trigger] files[j]).name@,
                    "render_"@,
                ) && text::ends_in(files[j].name@, ".png"@)) by {
                    if j > 0 {
                        assert(rest[j - 1] == files[j]);
                    }
                }
            } else {
                assert forall|j: int| 0 <= j < files.len() implies !(text::begins_with(
                    (#[trigger] files[j]).name@,
                    "render_"@,
                ) && text::ends_in(files[j].name@, ".png"@)) by {
                    if j > 0 {
                        assert(rest[j - 1] == files[j]);
                    }
                }
            }
        }
    }
}

/// An image passes exactly when no digest is pinned or its digest is the pinned one,
/// character for character. A refusal names both.
pub proof fn law_only_the_pinned_image_passes(expected: Option<Seq<char>>, actual: Option<Seq<char>>)
    ensures
        digest_refusal(expected, actual) is None <==> expected is None || actual == expected,
        expected is Some && actual is Some && actual != expected ==> text::occurs_in(
            digest_refusal(expected, actual)->0,
            actual->0,
        ) && text::occurs_in(digest_refusal(expected, actual)->0, expected->0),
{
    if expected is Some && actual is Some {
        let a = "refusing to run: "@ + crate::sandbox::JOB_IMAGE@ + " is "@;
        let b = ", expected "@;
        let c = ". The image has been replaced since it was pinned."@;
        text::law_parts_are_found(a, actual->0, b + expected->0 + c);
        text::law_parts_are_found(a + actual->0 + b, expected->0, c);
        assert(a + actual->0 + (b + expected->0 + c) =~= a + actual->0 + b + expected->0 + c);
    }
}

/// The log of a job is the end of all that it printed, standard output before
/// standard error: 4000 bytes at most, and all of it when it fits. Gives the position
/// that it begins at.
pub proof fn law_the_log_is_the_end_of_what_was_printed(output: ProcessOutput) -> (from: int)
    ensures
        ({
            let all = text::utf8_lossy(output.stdout@) + text::utf8_lossy(output.stderr@);
            &&& 0 <= from <= all.len()
            &&& job_log(output) == all.skip(from)
            &&& encode_utf8(all.skip(from)).len() <= 4000
            &&& from > 0 ==> encode_utf8(all.skip(from - 1)).len() > 4000
            &&& encode_utf8(all).len() <= 4000 ==> job_log(output) == all
        }),
{
    text::law_the_longest_end_is_kept(
        text::utf8_lossy(output.stdout@) + text::utf8_lossy(output.stderr@),
        4000,
    )
}

// ---------------------------------------------------------------------------
// What a run does
// ---------------------------------------------------------------------------

/// The command of a step is Podman in the plan's distro, with these arguments.
pub open spec fn runs_podman(step: RenderStep, args: Seq<Seq<char>>) -> bool {
    command_of(step) matches Some(command) && plan_of(step) matches Some(plan) && {
        &&& command.program == "wsl"@
        &&& command.args.len() == 4 + args.len()
        &&& command.args[1] == plan.engine.distro_name()
        &&& command.args[3] == "podman"@
        &&& command.args.skip(4) == args
    }
}

proof fn lemma_podman(step: RenderStep, args: Seq<Seq<char>>)
    requires
        plan_of(step) is Some,
        command_of(step) == Some(engine::podman(plan_of(step)->0.engine.distro_name(), args)),
    ensures
        runs_podman(step, args),
{
    engine::law_a_command_carries_its_arguments(
        plan_of(step)->0.engine.distro_name(),
        "podman"@,
        args,
    );
}

/// Each step of a run does what it is for, to the container of its plan: create it,
/// stream the input to `/work`, start it for as many seconds as the caps give, kill
/// it, copy the frame's own file out of `/work`, and remove it with its volumes.
#[verifier::rlimit(50)]
pub proof fn law_every_step_concerns_its_own_container(
    step: RenderStep,
    answer: Answer,
    next: RenderStep,
)
    requires
        follows(step, answer, next),
    ensures
        plan_of(next) matches Some(plan) ==> {
            let name = plan.container_name@;
            match next {
                RenderStep::Run { then, .. } => match then.phase {
                    RunPhase::Version => false,
                    RunPhase::Digest => runs_podman(
                        next,
                        seq![
                            "image"@,
                            "inspect"@,
                            "--format"@,
                            "{{.Id}}"@,
                            "sparecycles/blender:4.2.9"@,
                        ],
                    ),
                    RunPhase::Gvisor => command_of(next)->0.program == "wsl"@
                        && command_of(next)->0.args == seq![
                        "-d"@,
                        plan.engine.distro_name(),
                        "--"@,
                        "/usr/local/bin/runsc"@,
                        "--version"@,
                    ],
                    RunPhase::Create { use_gvisor } => runs_podman(
                        next,
                        creation_args(plan, use_gvisor),
                    ),
                    RunPhase::Kill { .. } => runs_podman(next, seq!["kill"@, name]),
                    RunPhase::CopyOut { .. } => runs_podman(
                        next,
                        seq!["cp"@, name + ":"@ + ("/work/"@ + rendered_name(plan.params.frame)), "-"@],
                    ),
                    RunPhase::Remove { .. } => runs_podman(
                        next,
                        seq!["container"@, "rm"@, "--force"@, "--volumes"@, name],
                    ),
                },
                RenderStep::ReadInput { file_name, .. } => file_name@ == plan.input_file_name@,
                RenderStep::Feed { .. } => runs_podman(next, seq!["cp"@, "-"@, name + ":"@ + "/work"@]),
                RenderStep::RunJob { seconds, .. } => runs_podman(
                    next,
                    seq!["start"@, "--attach"@, name],
                ) && seconds == plan.caps.timeout_seconds,
                RenderStep::Save { file_name, .. } => file_name@ == rendered_name(
                    plan.params.frame,
                ),
                RenderStep::Look { file_name, .. } => file_name@ == rendered_name(
                    plan.params.frame,
                ),
                RenderStep::List { .. } => true,
                RenderStep::Done(_) => false,
            }
        },
        creates(next) ==> plan_of(next) is Some && creation_args(
            plan_of(next)->0,
            gvisor_of(next)->0,
        ) == crate::sandbox::container_args(
            plan_of(next)->0.container_name@,
            plan_of(next)->0.input_file_name@,
            "render_####"@,
            plan_of(next)->0.params,
            plan_of(next)->0.caps,
            gvisor_of(next)->0,
        ),
{
    if plan_of(next) is Some && command_of(next) is Some {
        let plan = plan_of(next)->0;
        let name = plan.container_name@;
        match next {
            RenderStep::Run { then, .. } => match then.phase {
                RunPhase::Version => {},
                RunPhase::Digest => {
                    lemma_podman(
                        next,
                        seq![
                            "image"@,
                            "inspect"@,
                            "--format"@,
                            "{{.Id}}"@,
                            "sparecycles/blender:4.2.9"@,
                        ],
                    );
                },
                RunPhase::Gvisor => {
                    assert(command_of(next)->0.args =~= seq![
                        "-d"@,
                        plan.engine.distro_name(),
                        "--"@,
                        "/usr/local/bin/runsc"@,
                        "--version"@,
                    ]);
                },
                RunPhase::Create { use_gvisor } => {
                    lemma_podman(next, creation_args(plan, use_gvisor));
                },
                RunPhase::Kill { .. } => {
                    lemma_podman(next, seq!["kill"@, name]);
                },
                RunPhase::CopyOut { .. } => {
                    lemma_podman(
                        next,
                        seq!["cp"@, name + ":"@ + ("/work/"@ + rendered_name(plan.params.frame)), "-"@],
                    );
                },
                RunPhase::Remove { .. } => {
                    lemma_podman(next, seq!["container"@, "rm"@, "--force"@, "--volumes"@, name]);
                },
            },
            RenderStep::Feed { .. } => {
                lemma_podman(next, seq!["cp"@, "-"@, name + ":"@ + "/work"@]);
            },
            RenderStep::RunJob { .. } => {
                lemma_podman(next, seq!["start"@, "--attach"@, name]);
            },
            _ => {},
        }
    }
}

/// The input goes into the container whole: what is streamed is an archive with one
/// file in it that holds exactly the bytes that were read.
pub proof fn law_the_input_goes_in_whole(steps: Seq<RenderStep>, answers: Seq<Answer>, i: int)
    requires
        is_run(steps, answers),
        0 <= i < steps.len(),
        steps[i] is Feed,
    ensures
        i > 0,
        answers[i - 1] matches Answer::Read(Ok(input)) && {
            let stdin = steps[i]->feed.stdin@;
            &&& engine::tar_entry_kind(stdin, 0) == Some(Ok::<bool, Seq<char>>(true))
            &&& engine::tar_entry_contents(stdin, 0) == Ok::<Seq<u8>, Seq<char>>(input@)
            &&& plan_of(steps[i]) matches Some(plan) && (engine::is_portable(
                plan.input_file_name@,
            ) ==> stdin == engine::tar_archive(plan.input_file_name@, 0o644, input@))
        },
{
    assert(follows(steps[i - 1], answers[i - 1], steps[i]));
}

/// The render comes out of the container whole: once the copy of it succeeded, what
/// is saved are exactly the bytes of the first regular file that the copy printed,
/// of any length. An archive that was packed from some contents gives these.
pub proof fn law_the_render_comes_out_whole(
    step: RenderStep,
    output: ProcessOutput,
    next: RenderStep,
    k: nat,
    name: Seq<char>,
    contents: Seq<u8>,
)
    requires
        step is Run && step->Run_then.phase is CopyOut,
        follows(step, Answer::Ran(Ok(output)), next),
    ensures
        output.success && engine::packs(output.stdout@, name, contents) ==> (
        next matches RenderStep::Save { bytes, .. } && bytes@ == contents),
        output.success && engine::is_readable(output.stdout@) && k < output.stdout@.len()
            && engine::no_file_before(output.stdout@, k) && engine::tar_entry_kind(
            output.stdout@,
            k,
        ) == Some(Ok::<bool, Seq<char>>(true)) && engine::tar_entry_contents(output.stdout@, k)
            == Ok::<Seq<u8>, Seq<char>>(contents) ==> (next matches RenderStep::Save { bytes, .. }
            && bytes@ == contents),
        !output.success ==> next is Look,
{
    if output.success {
        engine::law_a_copy_gives_the_whole_file(
            render_path(step->Run_then.plan),
            output,
            k,
            name,
            contents,
        );
    } else {
        engine::law_a_failed_copy_gives_no_file(
            render_path(step->Run_then.plan),
            output,
            arbitrary(),
        );
    }
}

/// A run goes on as long as the answers are good ones, and stops, or turns to removing
/// the container, as soon as one is not.
#[verifier::rlimit(50)]
pub proof fn law_a_run_goes_by_its_answers(step: RenderStep, answer: Answer, next: RenderStep)
    requires
        follows(step, answer, next),
    ensures
        match (step, answer) {
            (RenderStep::Run { then, .. }, Answer::Ran(end)) => match then.phase {
                RunPhase::Version => {
                    &&& printed(end) is None <==> (next matches RenderStep::Done(Err(_)))
                    &&& printed(end) is Some && then.plan.expected_digest is Some
                        ==> stage(next) == 1
                    &&& printed(end) is Some && then.plan.expected_digest is None
                        ==> stage(next) == 2
                },
                RunPhase::Digest => {
                    &&& then.plan.expected_digest is Some && printed(end) != optional(
                        then.plan.expected_digest,
                    ) <==> (next matches RenderStep::Done(Err(_)))
                    &&& then.plan.expected_digest is None || printed(end) == optional(
                        then.plan.expected_digest,
                    ) ==> stage(next) == 2
                },
                RunPhase::Gvisor => {
                    &&& !ran_well(end) && !then.plan.allow_missing_gvisor
                        <==> (next matches RenderStep::Done(Err(_)))
                    &&& ran_well(end) || then.plan.allow_missing_gvisor ==> creates(next)
                        && gvisor_of(next) == Some(ran_well(end))
                },
                RunPhase::Create { use_gvisor } => {
                    &&& ran_well(end) ==> next is ReadInput && gvisor_of(next) == Some(use_gvisor)
                    &&& !ran_well(end) ==> fails_with(next)
                },
                RunPhase::Kill { use_gvisor, .. } => next is Look && gvisor_of(next) == Some(
                    use_gvisor,
                ),
                RunPhase::CopyOut { use_gvisor, .. } => (next is Save || next is Look) && gvisor_of(
                    next,
                ) == Some(use_gvisor),
                RunPhase::Remove { result } => next == RenderStep::Done(result),
            },
            (RenderStep::ReadInput { then, .. }, Answer::Read(read)) => {
                &&& read is Err ==> fails_with(next)
                &&& read is Ok && engine::is_relative_path(then.plan.input_file_name@)
                    ==> next is Feed
                &&& next is Feed || fails_with(next)
            },
            (RenderStep::Feed { .. }, Answer::Fed(end)) => {
                &&& (end matches FeedEnd::Ended(output) && output.success) ==> next is RunJob
                &&& !(end matches FeedEnd::Ended(output) && output.success) ==> fails_with(next)
            },
            (RenderStep::RunJob { .. }, Answer::JobEnded(end)) => match end {
                JobEnd::NotStarted(_) => fails_with(next),
                JobEnd::WaitFailed(_) => fails_with(next),
                JobEnd::TimedOut => next is Run && next->Run_then.phase is Kill,
                JobEnd::Ended(output) => {
                    &&& output.exit_code == Some(0i32) ==> next is Run
                        && next->Run_then.phase is CopyOut
                    &&& output.exit_code != Some(0i32) ==> next is Look
                },
            },
            (RenderStep::Save { .. }, Answer::Saved(saved)) => {
                &&& saved is Ok ==> next is Look
                &&& saved is Err ==> fails_with(next)
            },
            (RenderStep::Look { .. }, Answer::Looked(path)) => {
                &&& path is Some ==> removes(next) && !fails_with(next)
                &&& path is None ==> next is List
            },
            (RenderStep::List { .. }, Answer::Listed(_)) => removes(next) && !fails_with(next),
            _ => false,
        },
{
    if step is ReadInput {
        let name = step->ReadInput_then.plan.input_file_name@;
        if engine::is_relative_path(name) {
            engine::law_a_relative_path_is_accepted(name);
        }
    }
    if let (RenderStep::Feed { .. }, Answer::Fed(end)) = (step, answer) {
        engine::law_a_copy_in_fails_with_its_command(end);
    }
    if let (RenderStep::Run { then, .. }, Answer::Ran(end)) = (step, answer) {
        law_only_the_pinned_image_passes(optional(then.plan.expected_digest), printed(end));
    }
}

/// The step removes the container, and the run will end in a message.
pub open spec fn fails_with(step: RenderStep) -> bool {
    removes(step) && (step->Run_then.phase matches RunPhase::Remove { result: Err(_) })
}

/// A message that a run ends in holds what went wrong, in the words that came with
/// the answer.
#[verifier::rlimit(50)]
pub proof fn law_a_failure_keeps_its_words(step: RenderStep, answer: Answer, next: RenderStep)
    requires
        follows(step, answer, next),
    ensures
        fails_with(next) ==> {
            let message = (next->Run_then.phase->result->Err_0)@;
            match answer {
                Answer::Ran(Err(e)) => text::ends_in(message, e@),
                Answer::Read(Err(e)) => text::ends_in(message, e@),
                Answer::Fed(FeedEnd::NotStarted(e)) => text::ends_in(message, e@),
                Answer::Fed(FeedEnd::WriteFailed(e)) => text::ends_in(message, e@),
                Answer::Fed(FeedEnd::CloseFailed(e)) => text::ends_in(message, e@),
                Answer::Fed(FeedEnd::WaitFailed(e)) => text::ends_in(message, e@),
                Answer::JobEnded(JobEnd::NotStarted(e)) => text::ends_in(message, e@),
                Answer::JobEnded(JobEnd::WaitFailed(e)) => text::ends_in(message, e@),
                Answer::Saved(Err(e)) => text::ends_in(message, e@),
                Answer::Ran(Ok(output)) => text::ends_in(
                    message,
                    text::longest_end(text::utf8_lossy(output.stderr@), 500),
                ),
                _ => true,
            }
        },
{
    let none = Seq::<char>::empty();
    match answer {
        Answer::Ran(Err(e)) => {
            text::law_parts_are_found("failed to start podman: "@, e@, none);
        },
        Answer::Ran(Ok(output)) => {
            text::law_parts_are_found(
                "could not create job container: "@,
                text::longest_end(text::utf8_lossy(output.stderr@), 500),
                none,
            );
        },
        Answer::Read(Err(e)) => {
            text::law_parts_are_found("could not read job input: "@, e@, none);
        },
        Answer::Fed(end) => {
            engine::law_a_copy_in_fails_with_its_command(end);
        },
        Answer::JobEnded(JobEnd::NotStarted(e)) => {
            text::law_parts_are_found("failed to start job container: "@, e@, none);
        },
        Answer::JobEnded(JobEnd::WaitFailed(e)) => {
            text::law_parts_are_found("job container failed: "@, e@, none);
        },
        Answer::Saved(Err(e)) => {
            text::law_parts_are_found("could not save the render: "@, e@, none);
        },
        _ => {},
    }
}

// ---------------------------------------------------------------------------
// What a run comes to
// ---------------------------------------------------------------------------

/// How the job's process ended, once it has.
pub open spec fn exit_of(step: RenderStep) -> Option<(Option<i32>, bool, Seq<char>)> {
    match step {
        RenderStep::Run { then, .. } => match then.phase {
            RunPhase::Kill { exit, .. } => Some(parts_of(exit)),
            RunPhase::CopyOut { exit, .. } => Some(parts_of(exit)),
            RunPhase::Remove { result: Ok(outcome) } => Some(
                (outcome.exit_code, outcome.timed_out, outcome.log_tail@),
            ),
            _ => None,
        },
        RenderStep::Save { then, .. } => Some(parts_of(then.exit)),
        RenderStep::Look { then, .. } => Some(parts_of(then.exit)),
        RenderStep::List { then } => Some(parts_of(then.exit)),
        RenderStep::Done(Ok(outcome)) => Some(
            (outcome.exit_code, outcome.timed_out, outcome.log_tail@),
        ),
        _ => None,
    }
}

/// The exit code, whether the time ran out, and the log.
pub open spec fn parts_of(exit: JobExit) -> (Option<i32>, bool, Seq<char>) {
    (exit.exit_code, exit.timed_out, exit.log_tail@)
}

/// What is kept of the end of a job is what happened.
pub open spec fn is_told_by(
    exit: (Option<i32>, bool, Seq<char>),
    end: JobEnd,
    seconds: nat,
) -> bool {
    match end {
        JobEnd::TimedOut => {
            &&& exit.0 is None
            &&& exit.1
            &&& text::occurs_in(exit.2, text::decimal(seconds) + "s"@)
        },
        JobEnd::Ended(output) => {
            let all = text::utf8_lossy(output.stdout@) + text::utf8_lossy(output.stderr@);
            &&& exit.0 == output.exit_code
            &&& !exit.1
            &&& exists|from: int|
                0 <= from <= all.len() && exit.2 == all.skip(from) && encode_utf8(
                    #[trigger] all.skip(from),
                ).len() <= 4000 && (from > 0 ==> encode_utf8(all.skip(from - 1)).len() > 4000)
        },
        _ => false,
    }
}

proof fn lemma_exit(step: RenderStep, answer: Answer, next: RenderStep)
    requires
        follows(step, answer, next),
        exit_of(next) is Some,
    ensures
        exit_of(step) is Some ==> exit_of(next) == exit_of(step),
        plan_of(step) is Some,
        exit_of(step) is None && plan_of(next) is Some ==> step is RunJob && (
        answer matches Answer::JobEnded(end) && is_told_by(
            exit_of(next)->0,
            end,
            plan_of(next)->0.caps.timeout_seconds as nat,
        )),
        next is Done ==> step is Run && step->Run_then.phase is Remove,
{
    if let (RenderStep::RunJob { then, .. }, Answer::JobEnded(end)) = (step, answer) {
        match end {
            JobEnd::Ended(output) => {
                let from = law_the_log_is_the_end_of_what_was_printed(output);
                let all = text::utf8_lossy(output.stdout@) + text::utf8_lossy(output.stderr@);
                assert(encode_utf8(all.skip(from)).len() <= 4000);
            },
            JobEnd::TimedOut => {
                let seconds = text::decimal(then.plan.caps.timeout_seconds as nat);
                reveal_strlit("s");
                reveal_strlit("s time cap");
                reveal_strlit(" time cap");
                text::law_parts_are_found("job exceeded its "@, seconds + "s"@, " time cap"@);
                assert("job exceeded its "@ + (seconds + "s"@) + " time cap"@
                    =~= "job exceeded its "@ + seconds + "s time cap"@);
            },
            _ => {},
        }
    }
}

#[verifier::rlimit(50)]
proof fn lemma_exit_in_a_run(steps: Seq<RenderStep>, answers: Seq<Answer>, i: int) -> (j: int)
    requires
        is_run(steps, answers),
        0 <= i < steps.len(),
        exit_of(steps[i]) is Some,
        plan_of(steps[i]) is Some,
    ensures
        0 <= j < i,
        steps[j] is RunJob,
        answers[j] matches Answer::JobEnded(end) && is_told_by(
            exit_of(steps[i])->0,
            end,
            plan_of(steps[0])->0.caps.timeout_seconds as nat,
        ),
    decreases i,
{
    assert(follows(steps[i - 1], answers[i - 1], steps[i]));
    lemma_exit(steps[i - 1], answers[i - 1], steps[i]);
    lemma_plan(steps, answers, i);
    if exit_of(steps[i - 1]) is Some {
        lemma_exit_in_a_run(steps, answers, i - 1)
    } else {
        i - 1
    }
}

/// The outcome of a run is what happened in it. Its exit code, its log and whether
/// it ran out of time are those of the job's own end; its path is the one under which
/// the render was seen, or that of the first render in the listing; the caps are the
/// plan's. Gives the position of the job's end.
#[verifier::rlimit(50)]
pub proof fn law_an_outcome_tells_what_happened(
    steps: Seq<RenderStep>,
    answers: Seq<Answer>,
    i: int,
) -> (j: int)
    requires
        is_run(steps, answers),
        0 <= i < steps.len(),
        steps[i] matches RenderStep::Done(Ok(_)),
    ensures
        0 <= j < i - 1,
        steps[j] is RunJob,
        steps[i] matches RenderStep::Done(Ok(outcome)) && {
            &&& answers[j] matches Answer::JobEnded(end) && is_told_by(
                (outcome.exit_code, outcome.timed_out, outcome.log_tail@),
                end,
                plan_of(steps[0])->0.caps.timeout_seconds as nat,
            )
            &&& outcome.effective_caps == plan_of(steps[0])->0.caps
            &&& match answers[i - 2] {
                Answer::Looked(Some(path)) => outcome.output_path is Some
                    && outcome.output_path->0@ == path@,
                Answer::Listed(Some(files)) => optional(outcome.output_path) == first_render(
                    files@,
                ),
                Answer::Listed(None) => outcome.output_path is None,
                _ => false,
            }
        },
{
    lemma_stage_of_result(steps, answers, i);
    let r = i - 1;
    assert(follows(steps[r - 1], answers[r - 1], steps[r]));
    lemma_plan(steps, answers, r);
    lemma_removal(steps[r - 1], answers[r - 1], steps[r]);
    lemma_exit_in_a_run(steps, answers, r)
}

proof fn lemma_removal(step: RenderStep, answer: Answer, next: RenderStep)
    requires
        follows(step, answer, next),
    ensures
        next matches RenderStep::Run { then, .. } ==> (then.phase matches RunPhase::Remove {
            result: Ok(outcome),
        } ==> {
            &&& outcome.effective_caps == then.plan.caps
            &&& exit_of(next) == Some((outcome.exit_code, outcome.timed_out, outcome.log_tail@))
            &&& match answer {
                Answer::Looked(Some(path)) => outcome.output_path is Some
                    && outcome.output_path->0@ == path@,
                Answer::Listed(Some(files)) => optional(outcome.output_path) == first_render(
                    files@,
                ),
                Answer::Listed(None) => outcome.output_path is None,
                _ => false,
            }
        }),
{
}

/// A run whose job ended in time with exit code zero, and whose render was then seen
/// under its name, ends in success once the container is removed.
pub proof fn law_a_seen_render_is_a_success(
    step: RenderStep,
    path: String,
    next: RenderStep,
)
    requires
        step is Look,
        step->Look_then.exit.exit_code == Some(0i32),
        !step->Look_then.exit.timed_out,
        follows(step, Answer::Looked(Some(path)), next),
    ensures
        removes(next),
        next->Run_then.phase matches RunPhase::Remove { result: Ok(outcome) } && {
            &&& outcome.success
            &&& outcome.output_path is Some && outcome.output_path->0@ == path@
            &&& outcome.used_gvisor == step->Look_then.use_gvisor
        },
{
}

/// An outcome says whether the job ran under gVisor as it was: the container was
/// created with gVisor as its runtime exactly then, and exactly then gVisor had
/// answered that it is there. Gives the position of the creation.
#[verifier::rlimit(50)]
pub proof fn law_an_outcome_tells_about_gvisor(
    steps: Seq<RenderStep>,
    answers: Seq<Answer>,
    i: int,
) -> (c: int)
    requires
        is_run(steps, answers),
        0 <= i < steps.len(),
        steps[i] matches RenderStep::Done(Ok(_)),
    ensures
        0 < c < i,
        creates(steps[c]),
        steps[i] matches RenderStep::Done(Ok(outcome)) && {
            &&& runs_podman(steps[c], creation_args(plan_of(steps[0])->0, outcome.used_gvisor))
            &&& answers[c - 1] matches Answer::Ran(end) && ran_well(end) == outcome.used_gvisor
            &&& command_of(steps[c - 1]) is Some && command_of(steps[c - 1])->0.args.len() == 5
                && command_of(steps[c - 1])->0.args[3] == "/usr/local/bin/runsc"@
        },
{
    let c = lemma_created(steps, answers, i);
    assert(follows(steps[c - 1], answers[c - 1], steps[c]));
    lemma_creation(steps[c - 1], answers[c - 1], steps[c]);
    lemma_plan(steps, answers, c);
    lemma_asked(steps, answers, c - 1);
    lemma_question(steps[c - 1], plan_of(steps[c - 1])->0);
    c
}

proof fn lemma_creation(step: RenderStep, answer: Answer, next: RenderStep)
    requires
        follows(step, answer, next),
        stage(next) == 3,
    ensures
        creates(next),
        gvisor_of(next) is Some,
        plan_of(next) is Some,
        runs_podman(next, creation_args(plan_of(next)->0, gvisor_of(next)->0)),
        answer matches Answer::Ran(end) && ran_well(end) == gvisor_of(next)->0,
{
    lemma_before_creation(step, answer, next);
    lemma_podman(next, creation_args(plan_of(next)->0, gvisor_of(next)->0));
}

proof fn lemma_question(step: RenderStep, plan: JobPlan)
    requires
        asks_for_gvisor(step, plan),
    ensures
        command_of(step) is Some,
        command_of(step)->0.args.len() == 5,
        command_of(step)->0.args[3] == "/usr/local/bin/runsc"@,
{
}

/// A refusal names the engine that it is about.
pub proof fn law_a_refusal_names_the_engine(distro: Seq<char>)
    ensures
        text::occurs_in(unavailable_message(distro), engine::engine_description(distro)),
        text::occurs_in(no_gvisor_message(distro), engine::engine_description(distro)),
        text::begins_with(unavailable_message(distro), "refusing to run: "@),
        text::begins_with(no_gvisor_message(distro), "refusing to run: "@),
{
    let start = "refusing to run: "@;
    let words = engine::engine_description(distro);
    let a = " is not available, so there is nowhere to run this job safely. Install the job runtime — see docs/wsl-runtime-setup.md."@;
    let b = " cannot provide gVisor, and running a buyer's code without it is not something to do quietly. Set SPARECYCLES_ALLOW_NO_GVISOR=true to override during development."@;
    text::law_parts_are_found(start, words, a);
    text::law_parts_are_found(start, words, b);
    text::law_parts_are_found(Seq::empty(), start, words + a);
    text::law_parts_are_found(Seq::empty(), start, words + b);
    assert(start + (words + a) =~= start + words + a);
    assert(start + (words + b) =~= start + words + b);
}

} // verus!
