//! Installing the job runtime: import a root file system as a WSL2 distro,
//! stream the render image into it, and check that both landed.
//!
//! The sandbox contains a job; this decides what the sandbox is. So:
//!
//!   1. Artifacts are hashed before they are installed, against digests that the
//!      node was built with. Without pinned digests the install still runs, but
//!      its outcome says that nothing was verified.
//!   2. Nothing installs over an existing distro.
//!   3. No name reaches a command line that could be read as a flag.
//!
//! The install itself is in [`crate::install`]; here are its parts.

use crate::command::{ProcessOutput, optional};
use crate::digest::{
    ArtifactHasher, hex, pin_of, pinned, same_but_for_case, same_ignoring_ascii_case, sha256,
};
use crate::engine::DEFAULT_WSL_DISTRO;
use crate::text;
use crate::wsl::{decoded, distros, law_no_distro_is_left_out};
use vstd::prelude::*;

pub use crate::install::{
    ProvisionOutcome, ProvisionProgress, install_runtime, install_runtime_named,
};
pub use crate::wsl::installed_distros;

verus! {

/// File name of the distro's root file system.
pub const ROOTFS_FILE: &'static str = "sparecycles-runtime.tar";

/// File name of the render image.
pub const JOB_IMAGE_FILE: &'static str = "job-image.tar";

/// Directory, below the user's local data, that runtimes are installed in.
pub const INSTALL_ROOT: &'static str = "SpareCycles";

/// How many directories, from the executable's own upwards, are searched for
/// artifacts.
pub const SEARCHED_LEVELS: usize = 6;

// ---------------------------------------------------------------------------
// Names and places
// ---------------------------------------------------------------------------

/// The distro to use: the configured one, else the default.
pub open spec fn chosen_distro(configured: Option<Seq<char>>) -> Seq<char> {
    match configured {
        Some(name) => name,
        None => DEFAULT_WSL_DISTRO@,
    }
}

/// The name of the distro that jobs run in.
pub fn distro_name(configured: Option<String>) -> (name: String)
    ensures
        name@ == chosen_distro(optional(configured)),
{
    match configured {
        Some(name) => name,
        None => DEFAULT_WSL_DISTRO.to_owned(),
    }
}

/// A directory: a base and the components below it.
#[derive(Debug)]
pub struct Directory {
    pub base: String,
    pub below: Vec<String>,
}

pub open spec fn no_install_place() -> Seq<char> {
    "LOCALAPPDATA is not set, so there is nowhere to install the runtime"@
}

/// The components below the user's local data directory that a distro is
/// installed in. WSL writes the distro's virtual disk there.
pub open spec fn install_place(distro: Seq<char>) -> Seq<Seq<char>> {
    seq![INSTALL_ROOT@, distro]
}

/// Where a distro is installed. `local_app_data` is the user's local data
/// directory, as far as the host has one.
pub fn install_dir(local_app_data: &Option<String>, distro: &str) -> (r: Result<Directory, String>)
    ensures
        match *local_app_data {
            Some(base) => r matches Ok(dir) && dir.base@ == base@ && text::texts(dir.below@)
                == install_place(distro@),
            None => r matches Err(e) && e@ == no_install_place(),
        },
{
    match local_app_data {
        Some(base) => Ok(
            Directory { base: base.clone(), below: text::list2(INSTALL_ROOT, distro) },
        ),
        None => Err(
            "LOCALAPPDATA is not set, so there is nowhere to install the runtime".to_owned(),
        ),
    }
}

/// Which artifacts a directory holds.
#[derive(Debug, Clone, Copy)]
pub struct ArtifactFiles {
    pub rootfs: bool,
    pub job_image: bool,
}

/// A directory that artifacts were found in.
#[derive(Debug, Clone, Copy, PartialEq, Eq, Structural)]
pub enum ArtifactsAt {
    /// The configured one.
    Configured,
    /// The candidate at this position.
    Candidate(usize),
}

/// The directories whose `runtime/dist` is searched for artifacts, as levels
/// above the directory of the executable, in order. `levels` is how many
/// directories there are from that one up to the root.
pub open spec fn searched(levels: nat) -> Seq<usize> {
    seq![0usize] + Seq::new(
        if levels < SEARCHED_LEVELS {
            levels
        } else {
            SEARCHED_LEVELS as nat
        },
        |i: int| i as usize,
    )
}

pub fn artifact_candidates(levels: usize) -> (r: Vec<usize>)
    ensures
        r@ == searched(levels as nat),
{
    let most: usize = if levels < SEARCHED_LEVELS {
        levels
    } else {
        SEARCHED_LEVELS
    };
    let mut r: Vec<usize> = vec![0];
    let mut i: usize = 0;
    while i < most
        invariant
            i <= most <= SEARCHED_LEVELS,
            r@ == seq![0usize] + Seq::new(i as nat, |j: int| j as usize),
        decreases most - i,
    {
        r.push(i);
        i += 1;
        assert(r@ =~= seq![0usize] + Seq::new(i as nat, |j: int| j as usize));
    }
    r
}

/// The first candidate from position `from` on that holds both artifacts.
pub open spec fn first_complete(candidates: Seq<ArtifactFiles>, from: nat) -> Option<nat>
    decreases candidates.len() - from,
{
    if from >= candidates.len() {
        None
    } else if candidates[from as int].rootfs && candidates[from as int].job_image {
        Some(from)
    } else {
        first_complete(candidates, from + 1)
    }
}

/// This is the directory to install from, if there is one.
pub open spec fn is_choice(
    r: Option<ArtifactsAt>,
    configured: Option<ArtifactFiles>,
    candidates: Seq<ArtifactFiles>,
) -> bool {
    if configured matches Some(files) && files.rootfs && files.job_image {
        r == Some(ArtifactsAt::Configured)
    } else {
        match first_complete(candidates, 0) {
            Some(at) => r matches Some(ArtifactsAt::Candidate(chosen)) && chosen == at,
            None => r is None,
        }
    }
}

/// Where to install from: the configured directory if it holds both artifacts,
/// else the first candidate that does.
///
/// `configured` says what the configured directory holds, if one is configured.
pub fn artifacts_dir(configured: Option<ArtifactFiles>, candidates: &Vec<ArtifactFiles>) -> (r:
    Option<ArtifactsAt>)
    ensures
        r == if configured is Some && configured->0.rootfs && configured->0.job_image {
            Some(ArtifactsAt::Configured)
        } else {
            match first_complete(candidates@, 0) {
                Some(at) => Some(ArtifactsAt::Candidate(at as usize)),
                None => None,
            }
        },
        r matches Some(ArtifactsAt::Candidate(at)) ==> at < candidates@.len()
            && candidates@[at as int].rootfs && candidates@[at as int].job_image,
        is_choice(r, configured, candidates@),
{
    match configured {
        Some(files) => {
            if files.rootfs && files.job_image {
                return Some(ArtifactsAt::Configured);
            }
        },
        None => {},
    }
    let mut i: usize = 0;
    while i < candidates.len()
        invariant
            !(configured is Some && configured->0.rootfs && configured->0.job_image),
            i <= candidates@.len(),
            first_complete(candidates@, i as nat) == first_complete(candidates@, 0),
        decreases candidates@.len() - i,
    {
        if candidates[i].rootfs && candidates[i].job_image {
            return Some(ArtifactsAt::Candidate(i));
        }
        i += 1;
    }
    None
}

// ---------------------------------------------------------------------------
// Status
// ---------------------------------------------------------------------------

#[derive(Debug, Clone)]
pub struct ProvisionStatus {
    /// False when `wsl.exe` cannot be run at all.
    pub wsl_available: bool,
    pub distro_name: String,
    pub distro_installed: bool,
    /// Where the artifacts were found, if they were.
    pub artifacts_dir: Option<String>,
    pub artifacts_present: bool,
    /// True when the node knows what the artifacts are supposed to hash to.
    pub artifacts_pinned: bool,
    /// True when there is nothing left to do.
    pub ready: bool,
    /// What a person should do next, in words.
    pub summary: String,
}

/// What a person should do next.
pub open spec fn status_summary(
    wsl_available: bool,
    name: Seq<char>,
    installed: bool,
    present: bool,
) -> Seq<char> {
    if !wsl_available {
        "WSL is not available on this machine. The job runtime needs WSL2 — install it with `wsl --install`, reboot, and try again."@
    } else if installed {
        "The '"@ + name + "' runtime is installed."@
    } else if !present {
        "The '"@ + name + "' runtime isn't installed, and the artifacts to install it ("@
            + ROOTFS_FILE@ + ", "@ + JOB_IMAGE_FILE@
            + ") weren't found. Build them with runtime/build.sh, or point SPARECYCLES_RUNTIME_DIR at them."@
    } else {
        "Ready to install the '"@ + name + "' runtime."@
    }
}

/// `wsl.exe` answered, and its answer lists `name`.
pub open spec fn lists_distro(end: Result<ProcessOutput, String>, name: Seq<char>) -> bool {
    distros(end) matches Ok(list) && list.contains(name)
}

/// The status is what there is to say about the runtime.
pub open spec fn tells_status(
    status: ProvisionStatus,
    name: Seq<char>,
    listing: Result<ProcessOutput, String>,
    artifacts_dir: Option<Seq<char>>,
    rootfs_pin: Option<Seq<char>>,
    image_pin: Option<Seq<char>>,
) -> bool {
    &&& status.wsl_available == (distros(listing) is Ok)
    &&& status.distro_name@ == name
    &&& status.distro_installed == lists_distro(listing, name)
    &&& status.ready == lists_distro(listing, name)
    &&& optional(status.artifacts_dir) == artifacts_dir
    &&& status.artifacts_present == (artifacts_dir is Some)
    &&& status.artifacts_pinned == (pinned(rootfs_pin) is Some && pinned(image_pin) is Some)
    &&& status.summary@ == status_summary(
        distros(listing) is Ok,
        name,
        lists_distro(listing, name),
        artifacts_dir is Some,
    )
}

/// What there is to say about the runtime: `listing` is what came of
/// [`crate::wsl::list_distros_command`], `artifacts_dir` where artifacts were found,
/// and the pins are the digests that the node was built with.
pub fn provision_status(
    name: String,
    listing: Result<ProcessOutput, String>,
    artifacts_dir: Option<String>,
    rootfs_pin: &Option<String>,
    image_pin: &Option<String>,
) -> (status: ProvisionStatus)
    ensures
        status.wsl_available == (distros(listing) is Ok),
        status.distro_name@ == name@,
        status.distro_installed == lists_distro(listing, name@),
        status.ready == status.distro_installed,
        status.artifacts_dir == artifacts_dir,
        status.artifacts_present == (artifacts_dir is Some),
        status.artifacts_pinned == (pinned(optional(*rootfs_pin)) is Some && pinned(
            optional(*image_pin),
        ) is Some),
        status.summary@ == status_summary(
            status.wsl_available,
            name@,
            status.distro_installed,
            status.artifacts_present,
        ),
        tells_status(
            status,
            name@,
            listing,
            optional(artifacts_dir),
            optional(*rootfs_pin),
            optional(*image_pin),
        ),
{
    let listed = installed_distros(listing);
    let wsl_available = listed.is_ok();
    let distro_installed = match &listed {
        Ok(list) => text::lists(list, &name),
        Err(_) => false,
    };
    let artifacts_present = artifacts_dir.is_some();
    let summary = if !wsl_available {
        "WSL is not available on this machine. The job runtime needs WSL2 — install it with `wsl --install`, reboot, and try again.".to_owned()
    } else if distro_installed {
        text::join3("The '", &name, "' runtime is installed.")
    } else if !artifacts_present {
        let start = text::join3(
            "The '",
            &name,
            "' runtime isn't installed, and the artifacts to install it (",
        );
        text::join5(
            &start,
            ROOTFS_FILE,
            ", ",
            JOB_IMAGE_FILE,
            ") weren't found. Build them with runtime/build.sh, or point SPARECYCLES_RUNTIME_DIR at them.",
        )
    } else {
        text::join3("Ready to install the '", &name, "' runtime.")
    };
    ProvisionStatus {
        wsl_available,
        distro_name: name,
        distro_installed,
        artifacts_dir,
        artifacts_present,
        artifacts_pinned: pin_of(rootfs_pin).is_some() && pin_of(image_pin).is_some(),
        ready: distro_installed,
        summary,
    }
}

// ---------------------------------------------------------------------------
// Verifying artifacts
// ---------------------------------------------------------------------------

/// How reading an artifact through a hasher ended. The texts are the system's
/// words for what went wrong.
pub enum HashEnd {
    OpenFailed(String),
    ReadFailed(String),
    /// The worker that did the hashing was lost.
    Lost(String),
    /// The whole file went through the hasher.
    Fed(ArtifactHasher),
}

/// A verdict or a message, as plain values.
pub open spec fn verdict_view(r: Result<bool, String>) -> Result<bool, Seq<char>> {
    match r {
        Ok(verified) => Ok(verified),
        Err(e) => Err(e@),
    }
}

/// The verdict on one artifact: whether it was verified, or why it must not be
/// installed. Without a pin nothing is verified and nothing refused.
pub open spec fn artifact_verdict(
    path: Seq<char>,
    expected: Option<Seq<char>>,
    end: HashEnd,
) -> Result<bool, Seq<char>> {
    match pinned(expected) {
        None => Ok(false),
        Some(wanted) => match end {
            HashEnd::OpenFailed(e) => Err("could not open "@ + path + ": "@ + e@),
            HashEnd::ReadFailed(e) => Err("could not read "@ + path + ": "@ + e@),
            HashEnd::Lost(e) => Err("hashing failed: "@ + e@),
            HashEnd::Fed(hasher) => {
                let actual = hex(sha256(hasher@));
                if same_but_for_case(actual, wanted) {
                    Ok(true)
                } else {
                    Err(
                        "refusing to install "@ + path + ": it hashes to "@ + actual
                            + ", but this build expects "@ + wanted
                            + ". The file has been replaced or corrupted since it was built."@,
                    )
                }
            },
        },
    }
}

/// Checks one artifact against its pinned digest, if there is one. Says whether
/// it verified anything.
pub fn verify_artifact(path: &str, expected: &Option<String>, end: HashEnd) -> (r: Result<
    bool,
    String,
>)
    ensures
        verdict_view(r) == artifact_verdict(path@, optional(*expected), end),
{
    match pin_of(expected) {
        None => Ok(false),
        Some(wanted) => match end {
            HashEnd::OpenFailed(e) => Err(text::join4("could not open ", path, ": ", &e)),
            HashEnd::ReadFailed(e) => Err(text::join4("could not read ", path, ": ", &e)),
            HashEnd::Lost(e) => Err(text::join2("hashing failed: ", &e)),
            HashEnd::Fed(hasher) => {
                let actual = hasher.finish();
                if same_ignoring_ascii_case(&actual, &wanted) {
                    Ok(true)
                } else {
                    let start = text::join5(
                        "refusing to install ",
                        path,
                        ": it hashes to ",
                        &actual,
                        ", but this build expects ",
                    );
                    Err(
                        text::join3(
                            &start,
                            &wanted,
                            ". The file has been replaced or corrupted since it was built.",
                        ),
                    )
                }
            },
        },
    }
}

// ---------------------------------------------------------------------------
// Laws
// ---------------------------------------------------------------------------

/// Two distros are never installed in one directory: the place is keyed by the
/// distro's name.
pub proof fn law_two_distros_never_share_a_directory(a: Seq<char>, b: Seq<char>)
    ensures
        install_place(a) == install_place(b) <==> a == b,
{
    assert(install_place(a)[1] == a);
    assert(install_place(b)[1] == b);
}

/// A pinned artifact that hashes to anything else is refused, whatever else it
/// is, and one that hashes to its pin passes, in whichever case the pin is
/// written.
pub proof fn law_a_tampered_artifact_is_refused(
    path: Seq<char>,
    expected: Option<Seq<char>>,
    hasher: ArtifactHasher,
)
    ensures
        pinned(expected) matches Some(pin) ==> {
            &&& artifact_verdict(path, expected, HashEnd::Fed(hasher)) is Ok
                <==> same_but_for_case(hex(sha256(hasher@)), pin)
            &&& artifact_verdict(path, expected, HashEnd::Fed(hasher)) is Ok ==> artifact_verdict(
                path,
                expected,
                HashEnd::Fed(hasher),
            ) == Ok::<bool, Seq<char>>(true)
        },
        pinned(expected) is None ==> artifact_verdict(path, expected, HashEnd::Fed(hasher)) == Ok::<
            bool,
            Seq<char>,
        >(false),
{
}

/// A configured distro is used under its own name, and the default only when none is
/// configured. A distro is installed in a directory of that name below the one for
/// all of them.
pub proof fn law_a_configured_name_is_used(name: Seq<char>)
    ensures
        chosen_distro(Some(name)) == name,
        chosen_distro(None) == "SpareCycles"@,
        install_place(name).len() == 2,
        install_place(name)[0] == "SpareCycles"@,
        install_place(name)[1] == name,
{
}

/// The directory of the executable is searched first, and then it and those above
/// it, one after the other, at most six in all.
pub proof fn law_the_search_goes_upwards(levels: nat, i: int)
    ensures
        levels <= 6 ==> searched(levels).len() == 1 + levels,
        levels > 6 ==> searched(levels).len() == 7,
        searched(levels)[0] == 0,
        1 <= i < searched(levels).len() ==> searched(levels)[i] == i - 1,
{
}

/// Of the candidates the first with both artifacts is taken, and none only when
/// there is none.
pub proof fn law_the_first_complete_candidate_is_taken(candidates: Seq<ArtifactFiles>, from: nat)
    ensures
        first_complete(candidates, from) matches Some(at) ==> {
            &&& from <= at < candidates.len()
            &&& candidates[at as int].rootfs && candidates[at as int].job_image
            &&& forall|i: int|
                from <= i < at ==> !(#[trigger] candidates[i].rootfs && candidates[i].job_image)
        },
        first_complete(candidates, from) is None ==> forall|i: int|
            from <= i < candidates.len() ==> !(#[trigger] candidates[i].rootfs
                && candidates[i].job_image),
    decreases candidates.len() - from,
{
    if from < candidates.len() && !(candidates[from as int].rootfs
        && candidates[from as int].job_image) {
        law_the_first_complete_candidate_is_taken(candidates, from + 1);
    }
}

/// The runtime counts as installed exactly when `wsl.exe` lists it: when its answer
/// has a line that is the distro's name, but for white space around it.
pub proof fn law_installed_means_listed(output: ProcessOutput, e: String, name: Seq<char>)
    requires
        name.len() > 0,
    ensures
        !lists_distro(Err(e), name),
        !output.success ==> !lists_distro(Ok(output), name),
        output.success ==> (lists_distro(Ok(output), name) <==> exists|i: int|
            0 <= i < text::lines_of(decoded(output.stdout@)).len() && text::trimmed(
                #[trigger] text::lines_of(decoded(output.stdout@))[i],
            ) == name),
{
    if output.success {
        law_no_distro_is_left_out(output, name);
    }
}

/// The summary names the distro whenever WSL is there, and says of it, in this
/// order, that it is installed, that its artifacts are missing, or that it is ready
/// to be installed.
#[verifier::rlimit(40)]
pub proof fn law_the_summary_says_what_is_so(name: Seq<char>, installed: bool, present: bool)
    ensures
        text::begins_with(status_summary(false, name, installed, present), "WSL is not available"@),
        status_summary(true, name, true, present) == "The '"@ + name + "' runtime is installed."@,
        text::begins_with(
            status_summary(true, name, false, false),
            "The '"@ + name + "' runtime isn't installed"@,
        ),
        status_summary(true, name, false, true) == "Ready to install the '"@ + name + "' runtime."@,
{
    reveal_strlit("WSL is not available");
    reveal_strlit(
        "WSL is not available on this machine. The job runtime needs WSL2 — install it with `wsl --install`, reboot, and try again.",
    );
    reveal_strlit("' runtime isn't installed");
    reveal_strlit("' runtime isn't installed, and the artifacts to install it (");
    assert(status_summary(false, name, installed, present).subrange(0, 20)
        =~= "WSL is not available"@);
    let said = status_summary(true, name, false, false);
    let start = "The '"@ + name + "' runtime isn't installed"@;
    assert(said.subrange(0, start.len() as int) =~= start);
}

/// A pinned artifact that could not be hashed is refused, with what the system said,
/// and one with another digest is refused with its path, its digest and the pin.
/// Nothing is refused for want of a pin.
#[verifier::rlimit(40)]
pub proof fn law_a_refusal_says_why(
    path: Seq<char>,
    expected: Option<Seq<char>>,
    end: HashEnd,
    r: Result<bool, String>,
)
    ensures
        pinned(expected) is None ==> artifact_verdict(path, expected, end) == Ok::<bool, Seq<char>>(
            false,
        ),
        pinned(expected) is Some ==> match end {
            HashEnd::OpenFailed(e) => artifact_verdict(path, expected, end) matches Err(message)
                && text::occurs_in(message, path) && text::ends_in(message, e@),
            HashEnd::ReadFailed(e) => artifact_verdict(path, expected, end) matches Err(message)
                && text::occurs_in(message, path) && text::ends_in(message, e@),
            HashEnd::Lost(e) => artifact_verdict(path, expected, end) matches Err(message)
                && text::ends_in(message, e@),
            HashEnd::Fed(hasher) => artifact_verdict(path, expected, end) matches Err(message)
                ==> text::occurs_in(message, path) && text::occurs_in(message, hex(sha256(hasher@)))
                && text::occurs_in(message, pinned(expected)->0),
        },
        match r {
            Ok(verified) => verdict_view(r) == Ok::<bool, Seq<char>>(verified),
            Err(e) => verdict_view(r) == Err::<bool, Seq<char>>(e@),
        },
{
    match end {
        HashEnd::OpenFailed(e) => {
            text::law_parts_are_found("could not open "@, path, ": "@ + e@);
            text::law_parts_are_found("could not open "@ + path + ": "@, e@, Seq::empty());
            assert("could not open "@ + path + (": "@ + e@) =~= "could not open "@ + path + ": "@
                + e@);
        },
        HashEnd::ReadFailed(e) => {
            text::law_parts_are_found("could not read "@, path, ": "@ + e@);
            text::law_parts_are_found("could not read "@ + path + ": "@, e@, Seq::empty());
            assert("could not read "@ + path + (": "@ + e@) =~= "could not read "@ + path + ": "@
                + e@);
        },
        HashEnd::Lost(e) => {
            text::law_parts_are_found("hashing failed: "@, e@, Seq::empty());
        },
        HashEnd::Fed(hasher) => {
            if pinned(expected) is Some {
                let actual = hex(sha256(hasher@));
                let wanted = pinned(expected)->0;
                let a = "refusing to install "@;
                let b = ": it hashes to "@;
                let c = ", but this build expects "@;
                let d = ". The file has been replaced or corrupted since it was built."@;
                let message = a + path + b + actual + c + wanted + d;
                text::law_parts_are_found(a, path, b + actual + c + wanted + d);
                text::law_parts_are_found(a + path + b, actual, c + wanted + d);
                text::law_parts_are_found(a + path + b + actual + c, wanted, d);
                assert(a + path + (b + actual + c + wanted + d) =~= message);
                assert(a + path + b + actual + (c + wanted + d) =~= message);
            }
        },
    }
}

/// The configured directory is taken when it holds both artifacts, else the first
/// candidate that does, and nothing only when neither is so.
pub proof fn law_a_complete_directory_is_chosen(
    r: Option<ArtifactsAt>,
    configured: Option<ArtifactFiles>,
    candidates: Seq<ArtifactFiles>,
)
    requires
        is_choice(r, configured, candidates),
    ensures
        ({
            let complete = configured is Some && configured->0.rootfs && configured->0.job_image;
            &&& r == Some(ArtifactsAt::Configured) <==> complete
            &&& r matches Some(ArtifactsAt::Candidate(at)) ==> {
                &&& at < candidates.len()
                &&& candidates[at as int].rootfs && candidates[at as int].job_image
                &&& forall|i: int|
                    0 <= i < at ==> !(#[trigger] candidates[i].rootfs && candidates[i].job_image)
            }
            &&& r is None ==> !complete && forall|i: int|
                0 <= i < candidates.len() ==> !(#[trigger] candidates[i].rootfs
                    && candidates[i].job_image)
        }),
{
    law_the_first_complete_candidate_is_taken(candidates, 0);
}

/// A status says that the runtime is installed, and that nothing is left to do,
/// exactly when a line of a successful listing is the distro's name; that WSL is there
/// exactly when it could be asked; that the artifacts are pinned exactly when both
/// pins hold more than white space; and where the artifacts are, as it was found.
pub proof fn law_a_status_tells_what_is_so(
    status: ProvisionStatus,
    name: Seq<char>,
    listing: Result<ProcessOutput, String>,
    artifacts_dir: Option<Seq<char>>,
    rootfs_pin: Option<Seq<char>>,
    image_pin: Option<Seq<char>>,
)
    requires
        tells_status(status, name, listing, artifacts_dir, rootfs_pin, image_pin),
        name.len() > 0,
    ensures
        status.wsl_available <==> (listing matches Ok(output) && output.success),
        status.ready == status.distro_installed,
        status.distro_installed <==> (listing matches Ok(output) && output.success && exists|i: int|
            0 <= i < text::lines_of(decoded(output.stdout@)).len() && text::trimmed(
                #[trigger] text::lines_of(decoded(output.stdout@))[i],
            ) == name),
        status.distro_name@ == name,
        optional(status.artifacts_dir) == artifacts_dir,
        status.artifacts_present <==> artifacts_dir is Some,
        status.artifacts_pinned <==> rootfs_pin is Some && !text::is_blank(rootfs_pin->0)
            && image_pin is Some && !text::is_blank(image_pin->0),
        status.distro_installed ==> status.summary@ == "The '"@ + name + "' runtime is installed."@,
{
    match listing {
        Ok(output) => {
            law_installed_means_listed(output, arbitrary(), name);
            if output.success {
                law_no_distro_is_left_out(output, name);
            }
        },
        Err(e) => {
            law_installed_means_listed(arbitrary(), e, name);
        },
    }
    if rootfs_pin is Some {
        text::law_trimming_takes_white_space_only(rootfs_pin->0);
    }
    if image_pin is Some {
        text::law_trimming_takes_white_space_only(image_pin->0);
    }
}

} // verus!
