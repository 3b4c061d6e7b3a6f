//! What holds of every install of the job runtime, whatever the host answers.

use crate::command::{ProcessOutput, complaint, optional, ran_well};
use crate::digest::{hex, pinned, same_but_for_case, sha256};
use crate::engine::{self, runs_inside};
use crate::install::{
    Artifact, Artifacts, HashPhase, ImportArg, ImportArgView, InstallPhase, InstallPlan,
    InstallStep, LoadEnd, ReportPhase, bad_name_message, exists_message, follows_hash,
    follows_import, follows_install_run, follows_load, follows_locate, follows_make_dir,
    follows_report, import_args, load_failure, starts_install,
};
use crate::provision::{HashEnd, lists_distro};
use crate::render::image_args;
use crate::text;
use crate::wsl::{
    decoded, distros, is_distro_name, law_no_distro_is_left_out, list_distros,
};
use vstd::prelude::*;

verus! {

/// An answer of the host to a step.
pub enum Answer {
    Ran(Result<ProcessOutput, String>),
    Located(Option<Artifacts>),
    Reported,
    Hashed(HashEnd),
    MadeDir(Seq<char>, Result<(), String>),
    Imported(Result<ProcessOutput, String>),
    Loaded(Seq<char>, LoadEnd),
}

/// `next` is the step that resuming `step` with `answer` gives.
pub open spec fn follows(step: InstallStep, answer: Answer, next: InstallStep) -> bool {
    match (step, answer) {
        (InstallStep::Run { then, .. }, Answer::Ran(end)) => follows_install_run(then, end, next),
        (InstallStep::Locate { then }, Answer::Located(found)) => follows_locate(then, found, next),
        (InstallStep::Report { then, .. }, Answer::Reported) => follows_report(then, next),
        (InstallStep::Hash { then, .. }, Answer::Hashed(end)) => follows_hash(then, end, next),
        (InstallStep::MakeDir { then, .. }, Answer::MadeDir(shown, made)) => follows_make_dir(
            then,
            shown,
            made,
            next,
        ),
        (InstallStep::Import { then, .. }, Answer::Imported(end)) => follows_import(
            then,
            end,
            next,
        ),
        (InstallStep::Load { then, .. }, Answer::Loaded(shown, end)) => follows_load(
            then,
            shown,
            end,
            next,
        ),
        _ => false,
    }
}

/// The steps of an install with this plan and the answers between them, from the
/// start on.
pub open spec fn is_install(
    plan: InstallPlan,
    steps: Seq<InstallStep>,
    answers: Seq<Answer>,
) -> bool {
    &&& steps.len() == answers.len() + 1
    &&& starts_install(plan, steps[0])
    &&& forall|i: int|
        0 <= i < answers.len() ==> follows(#[trigger] steps[i], answers[i], steps[i + 1])
}

/// The plan that a step belongs to. The result of an install has none.
pub open spec fn plan_of(step: InstallStep) -> Option<InstallPlan> {
    match step {
        InstallStep::Run { then, .. } => Some(then.plan),
        InstallStep::Locate { then } => Some(then.plan),
        InstallStep::Report { then, .. } => Some(then.plan),
        InstallStep::Hash { then, .. } => Some(then.plan),
        InstallStep::MakeDir { then, .. } => Some(then.plan),
        InstallStep::Import { then, .. } => Some(then.plan),
        InstallStep::Load { then, .. } => Some(then.plan),
        InstallStep::Done(_) => None,
    }
}

/// How far a step is into the install.
pub open spec fn stage(step: InstallStep) -> int {
    match step {
        InstallStep::Run { then, .. } => match then.phase {
            InstallPhase::Existing => 0,
            InstallPhase::Gvisor { .. } => 12,
            InstallPhase::Image { .. } => 13,
        },
        InstallStep::Locate { .. } => 1,
        InstallStep::Report { then, .. } => match then.phase {
            ReportPhase::VerifyRootfs { .. } => 2,
            ReportPhase::VerifyImage { .. } => 4,
            ReportPhase::Import { .. } => 7,
            ReportPhase::Load { .. } => 9,
            ReportPhase::Check { .. } => 11,
            ReportPhase::Finish { .. } => 14,
        },
        InstallStep::Hash { then, .. } => match then.phase {
            HashPhase::Rootfs { .. } => 3,
            HashPhase::JobImage { .. } => 5,
        },
        InstallStep::MakeDir { .. } => 6,
        InstallStep::Import { .. } => 8,
        InstallStep::Load { .. } => 10,
        InstallStep::Done(_) => 15,
    }
}

/// The step changes the machine: it makes the distro's directory, imports the
/// distro or loads the render image into it.
pub open spec fn changes_the_machine(step: InstallStep) -> bool {
    step is MakeDir || step is Import || step is Load
}

/// The install has come to an outcome.
pub open spec fn installed(step: InstallStep) -> bool {
    step matches InstallStep::Done(Ok(_))
}

/// The artifact went through a hasher whole, and has the pinned digest.
pub open spec fn confirms(
    step: InstallStep,
    answer: Answer,
    artifact: Artifact,
    pin: Seq<char>,
) -> bool {
    &&& step matches InstallStep::Hash { artifact: hashed, .. } && hashed == artifact
    &&& answer matches Answer::Hashed(HashEnd::Fed(hasher)) && same_but_for_case(
        hex(sha256(hasher@)),
        pin,
    )
}

/// Whether the artifacts were verified, as far as that is settled.
pub open spec fn verified_of(step: InstallStep) -> Option<bool> {
    match step {
        InstallStep::Run { then, .. } => match then.phase {
            InstallPhase::Existing => None,
            InstallPhase::Gvisor { verified } => Some(verified),
            InstallPhase::Image { verified, .. } => Some(verified),
        },
        InstallStep::Report { then, .. } => match then.phase {
            ReportPhase::Import { verified } => Some(verified),
            ReportPhase::Load { verified } => Some(verified),
            ReportPhase::Check { verified } => Some(verified),
            ReportPhase::Finish { outcome } => Some(outcome.artifacts_verified),
            _ => None,
        },
        InstallStep::MakeDir { then, .. } => Some(then.verified),
        InstallStep::Import { then, .. } => Some(then.verified),
        InstallStep::Load { then, .. } => Some(then.verified),
        InstallStep::Done(Ok(outcome)) => Some(outcome.artifacts_verified),
        _ => None,
    }
}

/// What a step knows about the artifacts is what the pins say.
spec fn knows_the_pins(plan: InstallPlan, step: InstallStep) -> bool {
    let rootfs_pinned = pinned(optional(plan.rootfs_pin)) is Some;
    let image_pinned = pinned(optional(plan.image_pin)) is Some;
    &&& verified_of(step) matches Some(verified) ==> verified == (rootfs_pinned && image_pinned)
    &&& step matches InstallStep::Report { then, .. } ==> (
    then.phase matches ReportPhase::VerifyImage { rootfs_verified, .. } ==> rootfs_verified
        == rootfs_pinned)
    &&& step matches InstallStep::Hash { artifact, then } ==> match then.phase {
        HashPhase::Rootfs { .. } => artifact == Artifact::Rootfs && rootfs_pinned,
        HashPhase::JobImage { rootfs_verified, .. } => artifact == Artifact::JobImage
            && image_pinned && rootfs_verified == rootfs_pinned,
    }
}

proof fn lemma_step(plan: InstallPlan, step: InstallStep, answer: Answer, next: InstallStep)
    requires
        follows(step, answer, next),
        plan_of(step) == Some(plan),
        knows_the_pins(plan, step),
    ensures
        stage(next) > stage(step),
        next !is Done ==> plan_of(next) == Some(plan),
        knows_the_pins(plan, next),
        installed(next) ==> stage(step) == 14,
        stage(step) == 0 && next !is Done ==> (answer matches Answer::Ran(end) && distros(end) is Ok
            && !lists_distro(end, plan.name@)),
        stage(step) < 4 <= stage(next) < 15 && pinned(optional(plan.rootfs_pin)) is Some
            ==> confirms(step, answer, Artifact::Rootfs, pinned(optional(plan.rootfs_pin))->0),
        stage(step) < 6 <= stage(next) < 15 && pinned(optional(plan.image_pin)) is Some
            ==> confirms(step, answer, Artifact::JobImage, pinned(optional(plan.image_pin))->0),
{
}

/// A step of an install belongs to its plan.
proof fn lemma_run(plan: InstallPlan, steps: Seq<InstallStep>, answers: Seq<Answer>, i: int)
    requires
        is_install(plan, steps, answers),
        0 <= i < steps.len(),
    ensures
        steps[i] !is Done ==> plan_of(steps[i]) == Some(plan),
        knows_the_pins(plan, steps[i]),
        i <= stage(steps[i]) <= 15,
    decreases i,
{
    if i > 0 {
        lemma_run(plan, steps, answers, i - 1);
        assert(follows(steps[i - 1], answers[i - 1], steps[i]));
        lemma_step(plan, steps[i - 1], answers[i - 1], steps[i]);
    }
}

proof fn lemma_stage_increases(
    plan: InstallPlan,
    steps: Seq<InstallStep>,
    answers: Seq<Answer>,
    i: int,
    j: int,
)
    requires
        is_install(plan, steps, answers),
        0 <= i < j < steps.len(),
    ensures
        stage(steps[i]) < stage(steps[j]),
    decreases j,
{
    lemma_run(plan, steps, answers, j - 1);
    assert(follows(steps[j - 1], answers[j - 1], steps[j]));
    lemma_step(plan, steps[j - 1], answers[j - 1], steps[j]);
    if i < j - 1 {
        lemma_stage_increases(plan, steps, answers, i, j - 1);
    }
}

/// An install comes to an end: it takes at most fifteen answers.
pub proof fn law_every_install_ends(
    plan: InstallPlan,
    steps: Seq<InstallStep>,
    answers: Seq<Answer>,
)
    requires
        is_install(plan, steps, answers),
    ensures
        answers.len() <= 15,
{
    lemma_run(plan, steps, answers, answers.len() as int);
}

/// Nothing installs over an existing distro: before anything on the machine is
/// changed, `wsl.exe` has listed the distros, and the one to install is not among
/// them.
pub proof fn law_nothing_installs_over_an_existing_distro(
    plan: InstallPlan,
    steps: Seq<InstallStep>,
    answers: Seq<Answer>,
    i: int,
)
    requires
        is_install(plan, steps, answers),
        0 <= i < steps.len(),
        changes_the_machine(steps[i]) || installed(steps[i]),
    ensures
        i > 0,
        answers[0] matches Answer::Ran(end) && distros(end) is Ok && !lists_distro(end, plan.name@),
{
    lemma_run(plan, steps, answers, 0);
    assert(follows(steps[0], answers[0], steps[1]));
    lemma_step(plan, steps[0], answers[0], steps[1]);
    if steps[1] is Done && i > 1 {
        lemma_run(plan, steps, answers, i);
        lemma_stage_increases(plan, steps, answers, 1, i);
    }
}

proof fn lemma_rootfs_confirmed(
    plan: InstallPlan,
    steps: Seq<InstallStep>,
    answers: Seq<Answer>,
    i: int,
) -> (j: int)
    requires
        is_install(plan, steps, answers),
        0 <= i < steps.len(),
        4 <= stage(steps[i]) < 15,
        pinned(optional(plan.rootfs_pin)) is Some,
    ensures
        0 <= j < i,
        confirms(
            steps[j],
            answers[j],
            Artifact::Rootfs,
            pinned(optional(plan.rootfs_pin))->0,
        ),
    decreases i,
{
    lemma_run(plan, steps, answers, i - 1);
    assert(follows(steps[i - 1], answers[i - 1], steps[i]));
    lemma_step(plan, steps[i - 1], answers[i - 1], steps[i]);
    if stage(steps[i - 1]) < 4 {
        i - 1
    } else {
        lemma_rootfs_confirmed(plan, steps, answers, i - 1)
    }
}

proof fn lemma_image_confirmed(
    plan: InstallPlan,
    steps: Seq<InstallStep>,
    answers: Seq<Answer>,
    i: int,
) -> (j: int)
    requires
        is_install(plan, steps, answers),
        0 <= i < steps.len(),
        6 <= stage(steps[i]) < 15,
        pinned(optional(plan.image_pin)) is Some,
    ensures
        0 <= j < i,
        confirms(
            steps[j],
            answers[j],
            Artifact::JobImage,
            pinned(optional(plan.image_pin))->0,
        ),
    decreases i,
{
    lemma_run(plan, steps, answers, i - 1);
    assert(follows(steps[i - 1], answers[i - 1], steps[i]));
    lemma_step(plan, steps[i - 1], answers[i - 1], steps[i]);
    if stage(steps[i - 1]) < 6 {
        i - 1
    } else {
        lemma_image_confirmed(plan, steps, answers, i - 1)
    }
}

/// Artifacts are hashed before they are installed: before anything on the
/// machine is changed, each artifact that has a pin went through the hasher
/// whole and has the pinned digest.
pub proof fn law_only_pinned_artifacts_are_installed(
    plan: InstallPlan,
    steps: Seq<InstallStep>,
    answers: Seq<Answer>,
    i: int,
)
    requires
        is_install(plan, steps, answers),
        0 <= i < steps.len(),
        changes_the_machine(steps[i]),
    ensures
        pinned(optional(plan.rootfs_pin)) matches Some(pin) ==> exists|j: int|
            0 <= j < i && confirms(#[trigger] steps[j], answers[j], Artifact::Rootfs, pin),
        pinned(optional(plan.image_pin)) matches Some(pin) ==> exists|j: int|
            0 <= j < i && confirms(#[trigger] steps[j], answers[j], Artifact::JobImage, pin),
{
    if pinned(optional(plan.rootfs_pin)) is Some {
        let j = lemma_rootfs_confirmed(plan, steps, answers, i);
        assert(confirms(
            steps[j],
            answers[j],
            Artifact::Rootfs,
            pinned(optional(plan.rootfs_pin))->0,
        ));
    }
    if pinned(optional(plan.image_pin)) is Some {
        let j = lemma_image_confirmed(plan, steps, answers, i);
        assert(confirms(
            steps[j],
            answers[j],
            Artifact::JobImage,
            pinned(optional(plan.image_pin))->0,
        ));
    }
}

/// An outcome says that the artifacts were verified exactly when both of them
/// have a pin: an install that could not check its inputs says so.
pub proof fn law_an_unverified_install_says_so(
    plan: InstallPlan,
    steps: Seq<InstallStep>,
    answers: Seq<Answer>,
    i: int,
)
    requires
        is_install(plan, steps, answers),
        0 <= i < steps.len(),
    ensures
        steps[i] matches InstallStep::Done(Ok(outcome)) ==> (outcome.artifacts_verified <==> pinned(
            optional(plan.rootfs_pin),
        ) is Some && pinned(optional(plan.image_pin)) is Some),
{
    lemma_run(plan, steps, answers, i);
}

/// Only usable names reach a command line: a step that runs anything belongs to
/// a plan with a usable distro name, the import names that distro, and every
/// other command either lists the distros or runs inside it.
pub proof fn law_only_usable_names_reach_a_command_line(
    plan: InstallPlan,
    steps: Seq<InstallStep>,
    answers: Seq<Answer>,
    i: int,
)
    requires
        is_install(plan, steps, answers),
        0 <= i < steps.len(),
    ensures
        steps[i] !is Done ==> is_distro_name(plan.name@),
        steps[i] matches InstallStep::Import { args, .. } ==> args@.map_values(|a: ImportArg| a@)
            == import_args(plan.name@),
        steps[i] matches InstallStep::Run { command, .. } ==> command@ == list_distros()
            || runs_inside(command@, plan.name@),
        steps[i] matches InstallStep::Load { command, .. } ==> runs_inside(command@, plan.name@),
{
    if i > 0 {
        lemma_run(plan, steps, answers, i - 1);
        assert(follows(steps[i - 1], answers[i - 1], steps[i]));
        lemma_step(plan, steps[i - 1], answers[i - 1], steps[i]);
        lemma_run(plan, steps, answers, 0);
        if i > 1 {
            lemma_stage_increases(plan, steps, answers, 0, i - 1);
        }
        engine::law_commands_run_inside_the_distro(
            plan.name@,
            engine::RUNSC_PATH@,
            seq!["--version"@],
        );
        engine::law_commands_run_inside_the_distro(
            plan.name@,
            engine::CONTAINER_CLI@,
            image_args(),
        );
        engine::law_commands_run_inside_the_distro(
            plan.name@,
            engine::CONTAINER_CLI@,
            seq!["load"@],
        );
    }
}

/// The percentage that belongs to a stage of the install.
spec fn percent_at(stage: int) -> u8 {
    if stage <= 2 {
        5
    } else if stage <= 4 {
        20
    } else if stage <= 7 {
        35
    } else if stage <= 9 {
        60
    } else if stage <= 11 {
        90
    } else {
        100
    }
}

proof fn lemma_report(step: InstallStep, answer: Answer, next: InstallStep)
    requires
        follows(step, answer, next),
    ensures
        next matches InstallStep::Report { progress, .. } ==> progress.percent == percent_at(
            stage(next),
        ),
{
}

/// Progress only moves forward, and never beyond the whole.
pub proof fn law_progress_moves_forward(
    plan: InstallPlan,
    steps: Seq<InstallStep>,
    answers: Seq<Answer>,
    i: int,
    j: int,
)
    requires
        is_install(plan, steps, answers),
        0 <= i < j < steps.len(),
        steps[i] is Report,
        steps[j] is Report,
    ensures
        steps[i]->progress.percent < steps[j]->progress.percent <= 100,
{
    lemma_stage_increases(plan, steps, answers, i, j);
    assert(i > 0);
    assert(follows(steps[i - 1], answers[i - 1], steps[i]));
    assert(follows(steps[j - 1], answers[j - 1], steps[j]));
    lemma_report(steps[i - 1], answers[i - 1], steps[i]);
    lemma_report(steps[j - 1], answers[j - 1], steps[j]);
}

/// A distro that is there is never installed over: when a line of the listing is the
/// name of the distro to install, but for white space around it, the install ends in
/// a message with that name at once, and changes nothing. The same holds when the
/// distros cannot be listed.
#[verifier::rlimit(40)]
pub proof fn law_a_listed_distro_stops_the_install(
    plan: InstallPlan,
    steps: Seq<InstallStep>,
    answers: Seq<Answer>,
    output: ProcessOutput,
    line: int,
)
    requires
        is_install(plan, steps, answers),
        is_distro_name(plan.name@),
        answers.len() > 0,
        answers[0] == Answer::Ran(Ok::<ProcessOutput, String>(output)),
        !output.success || {
            let lines = text::lines_of(decoded(output.stdout@));
            0 <= line < lines.len() && text::trimmed(lines[line]) == plan.name@
        },
    ensures
        steps.len() == 2,
        steps[1] matches InstallStep::Done(Err(message)) && (output.success ==> text::occurs_in(
            message@,
            "'"@ + plan.name@ + "'"@,
        )),
        forall|i: int| 0 <= i < steps.len() ==> !changes_the_machine(#[trigger] steps[i]),
{
    assert(follows(steps[0], answers[0], steps[1]));
    if output.success {
        let lines = text::lines_of(decoded(output.stdout@));
        law_no_distro_is_left_out(output, plan.name@);
        assert(text::trimmed(lines[line]) == plan.name@);
        law_the_existing_distro_is_named(plan.name@);
    }
    if steps.len() > 2 {
        assert(follows(steps[1], answers[1], steps[2]));
    }
}

/// The message about an existing distro names it, and so does the one about a name
/// that is not usable.
#[verifier::rlimit(40)]
pub proof fn law_the_existing_distro_is_named(name: Seq<char>)
    ensures
        text::occurs_in(exists_message(name), "'"@ + name + "'"@),
        text::occurs_in(bad_name_message(name), text::debug_quoted(name)),
{
    let end = "' distro already exists, so there is nothing to install. To reinstall deliberately: wsl --unregister "@;
    let last = " — which permanently deletes it."@;
    reveal_strlit("the '");
    reveal_strlit("the ");
    reveal_strlit("'");
    assert(end[0] == '\'' && end.len() > 0) by {
        reveal_strlit(
            "' distro already exists, so there is nothing to install. To reinstall deliberately: wsl --unregister ",
        );
    }
    let rest = end.skip(1) + name + last;
    text::law_parts_are_found("the "@, "'"@ + name + "'"@, rest);
    assert("the "@ + ("'"@ + name + "'"@) + rest =~= "the '"@ + name + end + name + last);
    text::law_parts_are_found(
        "refusing to install: "@,
        text::debug_quoted(name),
        " is not a usable distro name. Use letters, digits, dot, dash or underscore."@,
    );
}

/// What was loaded into the new distro failed exactly when its command did not end
/// with success, and the message ends in the words that came with that.
pub proof fn law_loading_fails_with_its_command(path: Seq<char>, end: LoadEnd)
    ensures
        load_failure(path, end) is None <==> (end matches LoadEnd::Ended(output) && output.success),
        match end {
            LoadEnd::NotStarted(e) => text::ends_in(load_failure(path, end)->0, e@),
            LoadEnd::NoStdin => true,
            LoadEnd::OpenFailed(e) => text::ends_in(load_failure(path, end)->0, e@)
                && text::occurs_in(load_failure(path, end)->0, path),
            LoadEnd::StreamFailed(e) => text::ends_in(load_failure(path, end)->0, e@),
            LoadEnd::WaitFailed(e) => text::ends_in(load_failure(path, end)->0, e@),
            LoadEnd::Ended(output) => !output.success ==> text::ends_in(
                load_failure(path, end)->0,
                complaint(output.stderr@),
            ),
        },
{
    let none = Seq::<char>::empty();
    let cli = engine::quoted_cli("load"@);
    match end {
        LoadEnd::NotStarted(e) => {
            text::law_parts_are_found("could not start "@ + cli + ": "@, e@, none);
        },
        LoadEnd::NoStdin => {},
        LoadEnd::OpenFailed(e) => {
            text::law_parts_are_found("could not open "@ + path + ": "@, e@, none);
            text::law_parts_are_found("could not open "@, path, ": "@ + e@);
            assert("could not open "@ + path + (": "@ + e@) =~= "could not open "@ + path + ": "@
                + e@);
        },
        LoadEnd::StreamFailed(e) => {
            text::law_parts_are_found("could not stream the render image: "@, e@, none);
        },
        LoadEnd::WaitFailed(e) => {
            text::law_parts_are_found(cli + " failed: "@, e@, none);
        },
        LoadEnd::Ended(output) => {
            text::law_parts_are_found(cli + " failed: "@, complaint(output.stderr@), none);
        },
    }
}

/// An install goes on as long as the answers are good ones: no distro of the name is
/// there, the artifacts are found, each that has a pin hashes to it, the directory is
/// made, and import and load end with success. It ends in a message as soon as one
/// is not.
#[verifier::rlimit(40)]
pub proof fn law_an_install_goes_by_its_answers(
    step: InstallStep,
    answer: Answer,
    next: InstallStep,
)
    requires
        follows(step, answer, next),
    ensures
        match (step, answer) {
            (InstallStep::Run { then, .. }, Answer::Ran(end)) => match then.phase {
                InstallPhase::Existing => {
                    &&& next is Locate <==> distros(end) is Ok && !lists_distro(
                        end,
                        then.plan.name@,
                    )
                    &&& next is Locate || (next matches InstallStep::Done(Err(_)))
                },
                InstallPhase::Gvisor { verified } => next matches InstallStep::Run {
                    then: after,
                    ..
                } && (after.phase matches InstallPhase::Image {
                    verified: v,
                    gvisor_available,
                } && v == verified && gvisor_available == ran_well(end)),
                InstallPhase::Image { verified, gvisor_available } => next matches InstallStep::Report {
                    then: after,
                    ..
                } && (after.phase matches ReportPhase::Finish { outcome } && {
                    &&& outcome.distro_name@ == then.plan.name@
                    &&& outcome.artifacts_verified == verified
                    &&& outcome.gvisor_available == gvisor_available
                    &&& outcome.image_present == ran_well(end)
                }),
            },
            (InstallStep::Locate { .. }, Answer::Located(found)) => {
                &&& found is Some ==> next is Report && stage(next) == 2
                &&& found is None ==> (next matches InstallStep::Done(Err(_)))
            },
            (InstallStep::Report { then, .. }, Answer::Reported) => match then.phase {
                ReportPhase::VerifyRootfs { .. } => {
                    &&& pinned(optional(then.plan.rootfs_pin)) is Some ==> stage(next) == 3
                    &&& pinned(optional(then.plan.rootfs_pin)) is None ==> stage(next) == 4
                },
                ReportPhase::VerifyImage { .. } => {
                    &&& pinned(optional(then.plan.image_pin)) is Some ==> stage(next) == 5
                    &&& pinned(optional(then.plan.image_pin)) is None
                        && then.plan.local_app_data is Some ==> next is MakeDir
                    &&& pinned(optional(then.plan.image_pin)) is None
                        && then.plan.local_app_data is None
                        ==> (next matches InstallStep::Done(Err(_)))
                },
                ReportPhase::Import { .. } => next is Import,
                ReportPhase::Load { .. } => next is Load,
                ReportPhase::Check { .. } => stage(next) == 12,
                ReportPhase::Finish { outcome } => next matches InstallStep::Done(Ok(result))
                    && result == outcome,
            },
            (InstallStep::Hash { then, .. }, Answer::Hashed(end)) => match then.phase {
                HashPhase::Rootfs { .. } => pinned(optional(then.plan.rootfs_pin)) is Some ==> {
                    let pin = pinned(optional(then.plan.rootfs_pin))->0;
                    let same = end matches HashEnd::Fed(hasher) && same_but_for_case(
                        hex(sha256(hasher@)),
                        pin,
                    );
                    &&& same ==> stage(next) == 4
                    &&& !same ==> (next matches InstallStep::Done(Err(_)))
                },
                HashPhase::JobImage { .. } => pinned(optional(then.plan.image_pin)) is Some ==> {
                    let pin = pinned(optional(then.plan.image_pin))->0;
                    let same = end matches HashEnd::Fed(hasher) && same_but_for_case(
                        hex(sha256(hasher@)),
                        pin,
                    );
                    &&& same && then.plan.local_app_data is Some ==> next is MakeDir
                    &&& !same || then.plan.local_app_data is None
                        ==> (next matches InstallStep::Done(Err(_)))
                },
            },
            (InstallStep::MakeDir { .. }, Answer::MadeDir(shown, made)) => {
                &&& made is Ok ==> stage(next) == 7
                &&& made is Err ==> (next matches InstallStep::Done(Err(message)) && text::ends_in(
                    message@,
                    (made->Err_0)@,
                ) && text::occurs_in(message@, shown))
            },
            (InstallStep::Import { .. }, Answer::Imported(end)) => {
                &&& ran_well(end) ==> stage(next) == 9
                &&& !ran_well(end) ==> (next matches InstallStep::Done(Err(message)) && match end {
                    Err(e) => text::ends_in(message@, e@),
                    Ok(output) => text::ends_in(
                        message@,
                        text::trimmed(decoded(output.stderr@)),
                    ),
                })
            },
            (InstallStep::Load { .. }, Answer::Loaded(shown, end)) => {
                &&& (end matches LoadEnd::Ended(output) && output.success) ==> stage(next) == 11
                &&& !(end matches LoadEnd::Ended(output) && output.success)
                    ==> (next matches InstallStep::Done(Err(message)) && Some(message@)
                    == load_failure(shown, end))
            },
            _ => false,
        },
{
    let none = Seq::<char>::empty();
    match answer {
        Answer::MadeDir(shown, Err(e)) => {
            text::law_parts_are_found("could not create "@ + shown + ": "@, e@, none);
            text::law_parts_are_found("could not create "@, shown, ": "@ + e@);
            assert("could not create "@ + shown + (": "@ + e@) =~= "could not create "@ + shown
                + ": "@ + e@);
        },
        Answer::Imported(Err(e)) => {
            text::law_parts_are_found("could not run wsl --import: "@, e@, none);
        },
        Answer::Imported(Ok(output)) => {
            text::law_parts_are_found(
                "wsl --import failed: "@,
                text::trimmed(decoded(output.stderr@)),
                none,
            );
        },
        Answer::Loaded(shown, end) => {
            law_loading_fails_with_its_command(shown, end);
        },
        _ => {},
    }
}

/// Each step of an install does what it is for, to the distro of its plan: make the
/// directory of that name, import the root file system into it as version 2, load
/// the image in it, and ask in it for gVisor and the image.
#[verifier::rlimit(40)]
pub proof fn law_every_step_concerns_its_own_distro(
    step: InstallStep,
    answer: Answer,
    next: InstallStep,
)
    requires
        follows(step, answer, next),
    ensures
        plan_of(next) matches Some(plan) ==> {
            let name = plan.name@;
            match next {
                InstallStep::MakeDir { dir, .. } => {
                    &&& plan.local_app_data is Some && dir.base@ == plan.local_app_data->0@
                    &&& text::texts(dir.below@) == seq!["SpareCycles"@, name]
                },
                InstallStep::Import { args, .. } => args@.map_values(|a: ImportArg| a@) == seq![
                    ImportArgView::Text("--import"@),
                    ImportArgView::Text(name),
                    ImportArgView::TargetDir,
                    ImportArgView::RootfsFile,
                    ImportArgView::Text("--version"@),
                    ImportArgView::Text("2"@),
                ],
                InstallStep::Load { command, .. } => command@.program == "wsl"@ && command@.args
                    == seq!["-d"@, name, "--"@, "podman"@, "load"@],
                InstallStep::Run { command, then } => command@.program == "wsl"@
                    && match then.phase {
                    InstallPhase::Existing => false,
                    InstallPhase::Gvisor { .. } => command@.args == seq![
                        "-d"@,
                        name,
                        "--"@,
                        "/usr/local/bin/runsc"@,
                        "--version"@,
                    ],
                    InstallPhase::Image { .. } => command@.args == seq![
                        "-d"@,
                        name,
                        "--"@,
                        "podman"@,
                        "image"@,
                        "inspect"@,
                        "sparecycles/blender:4.2.9"@,
                    ],
                },
                InstallStep::Hash { artifact, then } => match then.phase {
                    HashPhase::Rootfs { .. } => artifact == Artifact::Rootfs,
                    HashPhase::JobImage { .. } => artifact == Artifact::JobImage,
                },
                _ => true,
            }
        },
{
    if plan_of(next) is Some {
        let name = plan_of(next)->0.name@;
        match next {
            InstallStep::Load { command, .. } => {
                assert(command@.args =~= seq!["-d"@, name, "--"@, "podman"@, "load"@]);
            },
            InstallStep::Run { command, then } => match then.phase {
                InstallPhase::Existing => {},
                InstallPhase::Gvisor { .. } => {
                    assert(command@.args =~= seq![
                        "-d"@,
                        name,
                        "--"@,
                        "/usr/local/bin/runsc"@,
                        "--version"@,
                    ]);
                },
                InstallPhase::Image { .. } => {
                    assert(command@.args =~= seq![
                        "-d"@,
                        name,
                        "--"@,
                        "podman"@,
                        "image"@,
                        "inspect"@,
                        "sparecycles/blender:4.2.9"@,
                    ]);
                },
            },
            _ => {},
        }
    }
}

/// The outcome of an install is what its last checks found: it names the distro that
/// was asked for, says that gVisor is there exactly when it answered in the new
/// distro, and that the image is there exactly when the engine found it.
#[verifier::rlimit(40)]
pub proof fn law_an_outcome_tells_what_was_found(
    plan: InstallPlan,
    steps: Seq<InstallStep>,
    answers: Seq<Answer>,
    k: int,
)
    requires
        is_install(plan, steps, answers),
        0 <= k < steps.len(),
        installed(steps[k]),
    ensures
        k > 3,
        steps[k] matches InstallStep::Done(Ok(outcome)) && {
            &&& outcome.distro_name@ == plan.name@
            &&& answers[k - 2] matches Answer::Ran(image) && outcome.image_present == ran_well(
                image,
            )
            &&& answers[k - 3] matches Answer::Ran(gvisor) && outcome.gvisor_available
                == ran_well(gvisor)
        },
        steps[k - 3] matches InstallStep::Run { command, .. } && command@.args.len() == 5
            && command@.args[3] == "/usr/local/bin/runsc"@,
{
    lemma_run(plan, steps, answers, k);
    lemma_run(plan, steps, answers, k - 1);
    assert(follows(steps[k - 1], answers[k - 1], steps[k]));
    lemma_step(plan, steps[k - 1], answers[k - 1], steps[k]);
    lemma_run(plan, steps, answers, k - 2);
    assert(follows(steps[k - 2], answers[k - 2], steps[k - 1]));
    lemma_last_steps(plan, steps[k - 2], answers[k - 2], steps[k - 1]);
    lemma_run(plan, steps, answers, k - 3);
    assert(follows(steps[k - 3], answers[k - 3], steps[k - 2]));
    lemma_last_steps(plan, steps[k - 3], answers[k - 3], steps[k - 2]);
    lemma_run(plan, steps, answers, k - 4);
    assert(follows(steps[k - 4], answers[k - 4], steps[k - 3]));
    law_every_step_concerns_its_own_distro(steps[k - 4], answers[k - 4], steps[k - 3]);
}

proof fn lemma_last_steps(plan: InstallPlan, step: InstallStep, answer: Answer, next: InstallStep)
    requires
        follows(step, answer, next),
        plan_of(step) == Some(plan),
    ensures
        stage(next) == 14 ==> stage(step) == 13,
        stage(next) == 13 ==> stage(step) == 12,
        stage(next) == 12 ==> stage(step) == 11,
{
}

/// An install begins by asking which distros there are, with its own plan, unless
/// the name cannot be used, and then it ends with that name in the message.
pub proof fn law_an_install_begins_with_a_usable_name(plan: InstallPlan, first: InstallStep)
    requires
        starts_install(plan, first),
    ensures
        is_distro_name(plan.name@) ==> (first matches InstallStep::Run { command, then } && {
            &&& command@.program == "wsl"@
            &&& command@.args == seq!["--list"@, "--quiet"@]
            &&& then.plan == plan
            &&& then.phase is Existing
        }),
        !is_distro_name(plan.name@) ==> (first matches InstallStep::Done(Err(message))
            && text::occurs_in(message@, text::debug_quoted(plan.name@))),
{
    law_the_existing_distro_is_named(plan.name@);
}

} // verus!
