//! A headless contributor node: sign in, find or register the node, claim a job
//! and run it.
//!
//! Each step is something for the host to do, after printing some lines.

use crate::command::optional;
use crate::job_runner::{JobStep, NodeSettings, RunJobRequest, run_and_report, starts_job};
use crate::render::JobOutcome;
use crate::sandbox::{ContributorLimits, RenderJobParams};
use crate::text;
use vstd::prelude::*;

verus! {

/// The name that the node registers under.
pub const NODE_NAME: &'static str = "dev-node-2";

/// Share of the processor that the node offers.
pub const NODE_CPU_PERCENT: u32 = 50;

/// Memory that the node offers a job.
pub const NODE_MEMORY_MB: u64 = 4096;

/// Time that the node gives a job.
pub const NODE_TIMEOUT_SECONDS: u64 = 3600;

/// How much of an id is shown.
pub const SHOWN_ID_BYTES: usize = 8;

/// The HTTP status of an answer without content.
pub const NO_CONTENT: u16 = 204;

// ---------------------------------------------------------------------------
// Pieces
// ---------------------------------------------------------------------------

/// The characters at the start of a text that take exactly `bytes` bytes in
/// UTF-8, if there are such.
pub open spec fn start_of(id: Seq<char>, bytes: nat) -> Option<Seq<char>>
    decreases id.len(),
{
    if bytes == 0 {
        Some(Seq::empty())
    } else if id.len() == 0 || text::utf8_width(id[0]) > bytes {
        None
    } else {
        match start_of(id.drop_first(), (bytes - text::utf8_width(id[0])) as nat) {
            Some(rest) => Some(seq![id[0]] + rest),
            None => None,
        }
    }
}

/// The form in which an id is shown: its first eight bytes.
pub open spec fn short_id(id: Seq<char>) -> Option<Seq<char>> {
    start_of(id, SHOWN_ID_BYTES as nat)
}

/// The form in which an id is shown. An id that is too short, or whose eighth
/// byte stands inside a character, has none.
pub fn shorten_id(id: &str) -> (r: Option<String>)
    ensures
        optional(r) == short_id(id@),
{
    let chars = text::chars_of(id);
    let mut left: usize = SHOWN_ID_BYTES;
    let mut r = String::new();
    let mut i: usize = 0;
    proof {
        assert(chars@.skip(0) =~= id@);
        lemma_joined(Seq::empty(), short_id(id@));
    }
    while left > 0
        invariant
            i <= chars@.len(),
            left <= SHOWN_ID_BYTES,
            short_id(id@) == joined(r@, start_of(chars@.skip(i as int), left as nat)),
        decreases left,
    {
        if i == chars.len() {
            return None;
        }
        let width: usize = text::width_of(chars[i]);
        if width > left {
            return None;
        }
        let ghost rest = start_of(chars@.skip(i + 1), (left - width) as nat);
        assert(chars@.skip(i as int).drop_first() =~= chars@.skip(i + 1));
        assert(chars@.skip(i as int)[0] == chars@[i as int]);
        let ghost before = r@;
        r.push(chars[i]);
        proof {
            if rest is Some {
                assert(before + (seq![chars@[i as int]] + rest->0) =~= r@ + rest->0);
            }
        }
        left -= width;
        i += 1;
    }
    assert(r@ + Seq::<char>::empty() =~= r@);
    Some(r)
}

/// A text in front of another one, if there is one.
spec fn joined(before: Seq<char>, rest: Option<Seq<char>>) -> Option<Seq<char>> {
    match rest {
        Some(r) => Some(before + r),
        None => None,
    }
}

proof fn lemma_joined(before: Seq<char>, rest: Option<Seq<char>>)
    requires
        before.len() == 0,
    ensures
        joined(before, rest) == rest,
{
    if rest is Some {
        assert(before + rest->0 =~= rest->0);
    }
}

/// How a request that is answered with a value ended. The texts are the words of
/// the system, or the status of the answer.
#[derive(Debug)]
pub enum PostEnd<T> {
    NotSent(String),
    Refused(String),
    Unreadable(String),
    Answered(T),
}

/// Why a request to `path` gave nothing, if it did not.
pub open spec fn post_failure<T>(path: Seq<char>, end: PostEnd<T>) -> Option<Seq<char>> {
    match end {
        PostEnd::NotSent(e) => Some(path + ": "@ + e@),
        PostEnd::Refused(status) => Some(path + ": HTTP "@ + status@),
        PostEnd::Unreadable(e) => Some(path + ": "@ + e@),
        PostEnd::Answered(_) => None,
    }
}

/// Reads what came of a request to `path`.
pub fn post<T>(path: &str, end: PostEnd<T>) -> (r: Result<T, String>)
    ensures
        match r {
            Ok(value) => end == PostEnd::Answered(value),
            Err(e) => post_failure(path@, end) == Some(e@),
        },
{
    match end {
        PostEnd::NotSent(e) => Err(text::join3(path, ": ", &e)),
        PostEnd::Refused(status) => Err(text::join3(path, ": HTTP ", &status)),
        PostEnd::Unreadable(e) => Err(text::join3(path, ": ", &e)),
        PostEnd::Answered(value) => Ok(value),
    }
}

/// A node as the backend lists it.
#[derive(Debug)]
pub struct NodeResponse {
    pub id: String,
    /// Empty when the backend gives none.
    pub name: String,
}

/// The id of the first node with this name.
pub open spec fn node_named(nodes: Seq<NodeResponse>, name: Seq<char>) -> Option<Seq<char>>
    decreases nodes.len(),
{
    if nodes.len() == 0 {
        None
    } else if nodes[0].name@ == name {
        Some(nodes[0].id@)
    } else {
        node_named(nodes.drop_first(), name)
    }
}

/// Finds a node by its name.
pub fn find_node(nodes: &Vec<NodeResponse>, name: &str) -> (id: Option<String>)
    ensures
        optional(id) == node_named(nodes@, name@),
{
    let mut i: usize = 0;
    assert(nodes@.skip(0) =~= nodes@);
    while i < nodes.len()
        invariant
            i <= nodes@.len(),
            node_named(nodes@.skip(i as int), name@) == node_named(nodes@, name@),
        decreases nodes@.len() - i,
    {
        if text::same_text(&nodes[i].name, name) {
            return Some(nodes[i].id.clone());
        }
        assert(nodes@.skip(i as int).drop_first() =~= nodes@.skip(i + 1));
        i += 1;
    }
    None
}

/// A job that the backend handed out.
#[derive(Debug)]
pub struct Claim {
    pub assignment_id: String,
    pub job_id: String,
    pub params: RenderJobParams,
}

// ---------------------------------------------------------------------------
// Steps
// ---------------------------------------------------------------------------

/// What the node is started with.
#[derive(Debug)]
pub struct NodeConfig {
    pub backend: String,
    pub email: String,
    pub password: String,
    pub settings: NodeSettings,
}

/// The backend to use: the configured one, else the local one.
pub open spec fn backend_or_default(configured: Option<Seq<char>>) -> Seq<char> {
    match configured {
        Some(backend) => backend,
        None => "http://localhost:3000"@,
    }
}

pub open spec fn email_or_default(configured: Option<Seq<char>>) -> Seq<char> {
    match configured {
        Some(email) => email,
        None => "contributor2@sparecycles.dev"@,
    }
}

pub open spec fn password_or_default(configured: Option<Seq<char>>) -> Seq<char> {
    match configured {
        Some(password) => password,
        None => "password123"@,
    }
}

/// The node's configuration, with the defaults of local development for what is
/// not configured.
pub fn configure(
    backend: Option<String>,
    email: Option<String>,
    password: Option<String>,
    settings: NodeSettings,
) -> (config: NodeConfig)
    ensures
        config.backend@ == backend_or_default(optional(backend)),
        config.email@ == email_or_default(optional(email)),
        config.password@ == password_or_default(optional(password)),
        config.settings == settings,
{
    NodeConfig {
        backend: match backend {
            Some(backend) => backend,
            None => "http://localhost:3000".to_owned(),
        },
        email: match email {
            Some(email) => email,
            None => "contributor2@sparecycles.dev".to_owned(),
        },
        password: match password {
            Some(password) => password,
            None => "password123".to_owned(),
        },
        settings,
    }
}

/// What asking for a session is for.
#[derive(Debug)]
pub enum AuthPhase {
    Register,
    Login,
}

#[derive(Debug)]
pub struct AfterAuth {
    pub config: NodeConfig,
    pub phase: AuthPhase,
}

#[derive(Debug)]
pub struct AfterListNodes {
    pub config: NodeConfig,
    pub token: String,
}

#[derive(Debug)]
pub struct AfterNewNode {
    pub config: NodeConfig,
    pub token: String,
}

#[derive(Debug)]
pub struct AfterClaim {
    pub config: NodeConfig,
    pub token: String,
}

#[derive(Debug)]
pub struct AfterReadClaim {
    pub config: NodeConfig,
    pub token: String,
}

#[derive(Debug)]
pub struct AfterNodeScratch {
    pub config: NodeConfig,
    pub token: String,
    pub claim: Claim,
}

#[derive(Debug)]
pub struct AfterNodeJob {}

#[derive(Debug)]
pub struct AfterCleanUp {
    pub outcome: JobOutcome,
}

/// What the host has to do next.
#[allow(inconsistent_fields)]
#[derive(Debug)]
pub enum NodeAction {
    /// Post the credentials to `backend` and `path`; answered with a token.
    Authenticate {
        backend: String,
        path: String,
        email: String,
        password: String,
        then: AfterAuth,
    },
    /// List this account's nodes; answered with nothing when that fails.
    ListNodes { url: String, token: String, then: AfterListNodes },
    /// Post a new node to `backend` and `path`.
    NewNode {
        backend: String,
        path: String,
        token: String,
        name: String,
        cpu_core_count: u32,
        max_cpu_percent: u32,
        then: AfterNewNode,
    },
    /// Post a claim, without a body; answered with the status of the answer.
    Claim { url: String, token: String, then: AfterClaim },
    /// Read the answer to the claim.
    ReadClaim { then: AfterReadClaim },
    /// Make a directory of this name among the temporary ones.
    MakeScratch { name: String, then: AfterNodeScratch },
    /// Perform a job from its first step on; answered with its result.
    RunAndReport { first: JobStep, then: AfterNodeJob },
    /// Remove the directory that was made.
    RemoveScratch { then: AfterCleanUp },
    /// All is done.
    Done(Result<(), String>),
}

/// Lines to print, and what to do then.
#[derive(Debug)]
pub struct NodeStep {
    pub say: Vec<String>,
    pub action: NodeAction,
}

impl NodeStep {
    /// What is printed.
    pub open spec fn said(self) -> Seq<Seq<char>> {
        text::texts(self.say@)
    }
}

/// Nothing is printed and the node stops with a message.
pub open spec fn stops(next: NodeStep, message: Seq<char>) -> bool {
    next.said() == Seq::<Seq<char>>::empty() && (next.action matches NodeAction::Done(Err(e)) && e@
        == message)
}

fn stop(message: String) -> (next: NodeStep)
    ensures
        stops(next, message@),
{
    let say: Vec<String> = Vec::new();
    assert(text::texts(say@) =~= Seq::<Seq<char>>::empty());
    NodeStep { say, action: NodeAction::Done(Err(message)) }
}

/// The step asks for a session.
pub open spec fn authenticates(
    next: NodeStep,
    config: NodeConfig,
    path: Seq<char>,
    phase: AuthPhase,
) -> bool {
    &&& next.said() == Seq::<Seq<char>>::empty()
    &&& next.action matches NodeAction::Authenticate {
        backend,
        path: to,
        email,
        password,
        then,
    } && {
        &&& backend@ == config.backend@
        &&& to@ == path
        &&& email@ == config.email@
        &&& password@ == config.password@
        &&& then == (AfterAuth { config, phase })
    }
}

fn authenticate(config: NodeConfig, path: &str, phase: AuthPhase) -> (next: NodeStep)
    ensures
        authenticates(next, config, path@, phase),
{
    let say: Vec<String> = Vec::new();
    assert(text::texts(say@) =~= Seq::<Seq<char>>::empty());
    NodeStep {
        say,
        action: NodeAction::Authenticate {
            backend: config.backend.clone(),
            path: path.to_owned(),
            email: config.email.clone(),
            password: config.password.clone(),
            then: AfterAuth { config, phase },
        },
    }
}

/// Starts the node: register, or sign in if it has been run before.
pub fn run(config: NodeConfig) -> (first: NodeStep)
    ensures
        authenticates(first, config, "/auth/register"@, AuthPhase::Register),
{
    authenticate(config, "/auth/register", AuthPhase::Register)
}

/// What follows the request for a session.
pub open spec fn follows_auth(then: AfterAuth, end: PostEnd<String>, next: NodeStep) -> bool {
    let config = then.config;
    match end {
        PostEnd::Answered(token) => {
            &&& next.said() == match then.phase {
                AuthPhase::Register => seq!["created second contributor account "@ + config.email@],
                AuthPhase::Login => seq!["signed in as "@ + config.email@],
            }
            &&& next.action matches NodeAction::ListNodes { url, token: shown, then: after } && {
                &&& url@ == config.backend@ + "/nodes"@
                &&& shown@ == token@
                &&& after == (AfterListNodes { config, token })
            }
        },
        _ => match then.phase {
            AuthPhase::Register => authenticates(next, config, "/auth/login"@, AuthPhase::Login),
            AuthPhase::Login => stops(next, post_failure("/auth/login"@, end)->0),
        },
    }
}

impl AfterAuth {
    /// Goes on with the session's token.
    pub fn resume(self, end: PostEnd<String>) -> (next: NodeStep)
        ensures
            follows_auth(self, end, next),
    {
        let config = self.config;
        match post("/auth/login", end) {
            Ok(token) => {
                let say = match self.phase {
                    AuthPhase::Register => text::list1(
                        &text::join2("created second contributor account ", &config.email),
                    ),
                    AuthPhase::Login => text::list1(&text::join2("signed in as ", &config.email)),
                };
                let url = text::join2(&config.backend, "/nodes");
                NodeStep {
                    say,
                    action: NodeAction::ListNodes {
                        url,
                        token: token.clone(),
                        then: AfterListNodes { config, token },
                    },
                }
            },
            Err(message) => match self.phase {
                AuthPhase::Register => authenticate(config, "/auth/login", AuthPhase::Login),
                AuthPhase::Login => stop(message),
            },
        }
    }
}

/// The step claims a job for a node.
pub open spec fn claims(
    action: NodeAction,
    config: NodeConfig,
    token: String,
    node_id: Seq<char>,
) -> bool {
    action matches NodeAction::Claim { url, token: shown, then: after } && {
        &&& url@ == config.backend@ + "/nodes/"@ + node_id + "/claim"@
        &&& shown@ == token@
        &&& after == (AfterClaim { config, token })
    }
}

fn claim(config: NodeConfig, token: String, node_id: &str) -> (action: NodeAction)
    ensures
        claims(action, config, token, node_id@),
{
    let url = text::join4(&config.backend, "/nodes/", node_id, "/claim");
    NodeAction::Claim { url, token: token.clone(), then: AfterClaim { config, token } }
}

/// The id of this account's node, if it is among these.
pub open spec fn known_node(nodes: Option<Vec<NodeResponse>>) -> Option<Seq<char>> {
    match nodes {
        Some(list) => node_named(list@, NODE_NAME@),
        None => None,
    }
}

/// What follows the listing of this account's nodes.
pub open spec fn follows_list_nodes(
    then: AfterListNodes,
    nodes: Option<Vec<NodeResponse>>,
    next: NodeStep,
) -> bool {
    let config = then.config;
    match known_node(nodes) {
        Some(id) => {
            &&& next.said() == seq![
                "reusing node "@ + short_id(id)->0 + " ("@ + NODE_NAME@ + ")"@,
            ]
            &&& claims(next.action, config, then.token, id)
        },
        None => {
            &&& next.said() == Seq::<Seq<char>>::empty()
            &&& next.action matches NodeAction::NewNode {
                backend,
                path,
                token,
                name,
                cpu_core_count,
                max_cpu_percent,
                then: after,
            } && {
                &&& backend@ == config.backend@
                &&& path@ == "/nodes"@
                &&& token@ == then.token@
                &&& name@ == NODE_NAME@
                &&& cpu_core_count == config.settings.host_cores
                &&& max_cpu_percent == NODE_CPU_PERCENT
                &&& after == (AfterNewNode { config, token: then.token })
            }
        },
    }
}

impl AfterListNodes {
    /// Goes on with this account's nodes. One of them is reused rather than
    /// another one registered.
    pub fn resume(self, nodes: Option<Vec<NodeResponse>>) -> (next: NodeStep)
        requires
            known_node(nodes) matches Some(id) ==> short_id(id) is Some,
        ensures
            follows_list_nodes(self, nodes, next),
    {
        let known = match &nodes {
            Some(list) => find_node(list, NODE_NAME),
            None => None,
        };
        match known {
            Some(id) => {
                let shown = match shorten_id(&id) {
                    Some(shown) => shown,
                    None => String::new(),
                };
                let line = text::join5("reusing node ", &shown, " (", NODE_NAME, ")");
                NodeStep {
                    say: text::list1(&line),
                    action: claim(self.config, self.token, &id),
                }
            },
            None => {
                let say: Vec<String> = Vec::new();
                assert(text::texts(say@) =~= Seq::<Seq<char>>::empty());
                let cpu_core_count: u32 = self.config.settings.host_cores;
                NodeStep {
                    say,
                    action: NodeAction::NewNode {
                        backend: self.config.backend.clone(),
                        path: "/nodes".to_owned(),
                        token: self.token.clone(),
                        name: NODE_NAME.to_owned(),
                        cpu_core_count,
                        max_cpu_percent: NODE_CPU_PERCENT,
                        then: AfterNewNode { config: self.config, token: self.token },
                    },
                }
            },
        }
    }
}

/// What follows the registering of the node.
pub open spec fn follows_new_node(
    then: AfterNewNode,
    end: PostEnd<NodeResponse>,
    next: NodeStep,
) -> bool {
    match end {
        PostEnd::Answered(node) => {
            &&& next.said() == seq![
                "registered node "@ + short_id(node.id@)->0 + " ("@ + NODE_NAME@ + ")"@,
            ]
            &&& claims(next.action, then.config, then.token, node.id@)
        },
        _ => stops(next, post_failure("/nodes"@, end)->0),
    }
}

impl AfterNewNode {
    /// Goes on with the new node.
    pub fn resume(self, end: PostEnd<NodeResponse>) -> (next: NodeStep)
        requires
            end matches PostEnd::Answered(node) ==> short_id(node.id@) is Some,
        ensures
            follows_new_node(self, end, next),
    {
        match post("/nodes", end) {
            Ok(node) => {
                let shown = match shorten_id(&node.id) {
                    Some(shown) => shown,
                    None => String::new(),
                };
                let line = text::join5("registered node ", &shown, " (", NODE_NAME, ")");
                NodeStep {
                    say: text::list1(&line),
                    action: claim(self.config, self.token, &node.id),
                }
            },
            Err(message) => stop(message),
        }
    }
}

/// What is printed about a claimed job.
pub open spec fn claimed_line(claim: Claim) -> Seq<char> {
    "claimed job "@ + short_id(claim.job_id@)->0 + " — rendering "@ + text::decimal(
        claim.params.resolution_x as nat,
    ) + "x"@ + text::decimal(claim.params.resolution_y as nat) + " at "@ + text::decimal(
        claim.params.samples as nat,
    ) + " samples"@
}

/// The name of the directory for a claimed job.
pub open spec fn node_scratch(assignment_id: Seq<char>) -> Seq<char> {
    "sc-dev-node-"@ + assignment_id
}

/// What is printed when there is nothing to claim.
pub open spec fn nothing_to_claim() -> Seq<Seq<char>> {
    seq![
        "\nNothing to claim. Either no job is waiting, or this node already has them all."@,
        "Queue one with:  npm run seed -w backend"@,
    ]
}

/// What follows the claim. An answer without content is not read.
pub open spec fn follows_claim(
    then: AfterClaim,
    status: Result<u16, String>,
    next: NodeStep,
) -> bool {
    match status {
        Err(e) => stops(next, "claim failed: "@ + e@),
        Ok(code) => if code == NO_CONTENT {
            next.said() == nothing_to_claim() && next.action == NodeAction::Done(Ok(()))
        } else {
            next.said() == Seq::<Seq<char>>::empty() && next.action == (NodeAction::ReadClaim {
                then: AfterReadClaim { config: then.config, token: then.token },
            })
        },
    }
}

impl AfterClaim {
    /// Goes on with the status of the answer to the claim.
    pub fn resume(self, status: Result<u16, String>) -> (next: NodeStep)
        ensures
            follows_claim(self, status, next),
    {
        match status {
            Err(e) => stop(text::join2("claim failed: ", &e)),
            Ok(code) => {
                if code == NO_CONTENT {
                    let say = text::list2(
                        "\nNothing to claim. Either no job is waiting, or this node already has them all.",
                        "Queue one with:  npm run seed -w backend",
                    );
                    return NodeStep { say, action: NodeAction::Done(Ok(())) };
                }
                let say: Vec<String> = Vec::new();
                assert(text::texts(say@) =~= Seq::<Seq<char>>::empty());
                NodeStep {
                    say,
                    action: NodeAction::ReadClaim {
                        then: AfterReadClaim { config: self.config, token: self.token },
                    },
                }
            },
        }
    }
}

/// What follows the reading of the claim.
pub open spec fn follows_read_claim(
    then: AfterReadClaim,
    read: Result<Claim, String>,
    next: NodeStep,
) -> bool {
    match read {
        Err(e) => stops(next, "could not read the claim: "@ + e@),
        Ok(claim) => {
            &&& next.said() == seq![claimed_line(claim)]
            &&& next.action matches NodeAction::MakeScratch { name, then: after } && name@
                == node_scratch(claim.assignment_id@) && after == (AfterNodeScratch {
                config: then.config,
                token: then.token,
                claim,
            })
        },
    }
}

impl AfterReadClaim {
    /// Goes on with the claim.
    pub fn resume(self, read: Result<Claim, String>) -> (next: NodeStep)
        requires
            read matches Ok(claim) ==> short_id(claim.job_id@) is Some,
        ensures
            follows_read_claim(self, read, next),
    {
        match read {
            Err(e) => stop(text::join2("could not read the claim: ", &e)),
            Ok(claim) => {
                let shown = match shorten_id(&claim.job_id) {
                    Some(shown) => shown,
                    None => String::new(),
                };
                let start = text::join5(
                    "claimed job ",
                    &shown,
                    " — rendering ",
                    &text::to_decimal(claim.params.resolution_x as u64),
                    "x",
                );
                let line = text::join5(
                    &start,
                    &text::to_decimal(claim.params.resolution_y as u64),
                    " at ",
                    &text::to_decimal(claim.params.samples as u64),
                    " samples",
                );
                let name = text::join2("sc-dev-node-", &claim.assignment_id);
                NodeStep {
                    say: text::list1(&line),
                    action: NodeAction::MakeScratch {
                        name,
                        then: AfterNodeScratch { config: self.config, token: self.token, claim },
                    },
                }
            },
        }
    }
}

/// The request is the one for a claim: the claimed job, under the node's own
/// limits.
pub open spec fn is_request(
    request: RunJobRequest,
    claim: Claim,
    backend: Seq<char>,
    token: Seq<char>,
) -> bool {
    &&& request.assignment_id@ == claim.assignment_id@
    &&& request.job_id@ == claim.job_id@
    &&& request.params == claim.params
    &&& request.limits == (ContributorLimits {
        max_cpu_percent: NODE_CPU_PERCENT,
        max_memory_mb: NODE_MEMORY_MB,
        max_timeout_seconds: NODE_TIMEOUT_SECONDS,
    })
    &&& request.backend_url@ == backend
    &&& request.token@ == token
}

/// What follows the making of the directory.
pub open spec fn follows_node_scratch(
    then: AfterNodeScratch,
    made: Result<(), String>,
    next: NodeStep,
) -> bool {
    match made {
        Err(e) => stops(next, "could not create scratch dir: "@ + e@),
        Ok(_) => {
            &&& next.said() == Seq::<Seq<char>>::empty()
            &&& next.action matches NodeAction::RunAndReport { first, .. } && exists|
                request: RunJobRequest,
            | #[trigger]
                starts_job(request, then.config.settings, first) && is_request(
                    request,
                    then.claim,
                    then.config.backend@,
                    then.token@,
                )
        },
    }
}

impl AfterNodeScratch {
    /// Goes on once the directory is made.
    pub fn resume(self, made: Result<(), String>) -> (next: NodeStep)
        ensures
            follows_node_scratch(self, made, next),
    {
        match made {
            Err(e) => stop(text::join2("could not create scratch dir: ", &e)),
            Ok(_) => {
                let say: Vec<String> = Vec::new();
                assert(text::texts(say@) =~= Seq::<Seq<char>>::empty());
                let request = RunJobRequest {
                    assignment_id: self.claim.assignment_id,
                    job_id: self.claim.job_id,
                    params: self.claim.params,
                    limits: ContributorLimits {
                        max_cpu_percent: NODE_CPU_PERCENT,
                        max_memory_mb: NODE_MEMORY_MB,
                        max_timeout_seconds: NODE_TIMEOUT_SECONDS,
                    },
                    backend_url: self.config.backend,
                    token: self.token,
                };
                NodeStep {
                    say,
                    action: NodeAction::RunAndReport {
                        first: run_and_report(request, self.config.settings),
                        then: AfterNodeJob {  },
                    },
                }
            },
        }
    }
}

/// What follows the job.
pub open spec fn follows_node_job(result: Result<JobOutcome, String>, next: NodeStep) -> bool {
    match result {
        Err(e) => stops(next, e@),
        Ok(outcome) => {
            &&& next.said() == Seq::<Seq<char>>::empty()
            &&& next.action == (NodeAction::RemoveScratch { then: AfterCleanUp { outcome } })
        },
    }
}

impl AfterNodeJob {
    /// Goes on with the result of the job.
    pub fn resume(self, result: Result<JobOutcome, String>) -> (next: NodeStep)
        ensures
            follows_node_job(result, next),
    {
        match result {
            Err(e) => stop(e),
            Ok(outcome) => {
                let say: Vec<String> = Vec::new();
                assert(text::texts(say@) =~= Seq::<Seq<char>>::empty());
                NodeStep {
                    say,
                    action: NodeAction::RemoveScratch { then: AfterCleanUp { outcome } },
                }
            },
        }
    }
}

/// What is printed about an outcome.
pub open spec fn outcome_line(outcome: JobOutcome) -> Seq<char> {
    "\nrender "@ + (if outcome.success {
        "succeeded"@
    } else {
        "FAILED"@
    }) + " — "@ + text::decimal(outcome.effective_caps.cpu_cores as nat) + " cores, "@
        + text::decimal(outcome.effective_caps.memory_mb as nat) + " MB, gVisor: "@ + (
    if outcome.used_gvisor {
        "true"@
    } else {
        "false"@
    })
}

/// What is printed once a result has been reported. The verdict is the buyer's
/// to read.
pub open spec fn farewell() -> Seq<Seq<char>> {
    seq![
        "\nResult reported. The backend compares the two nodes' output hashes:"@,
        "  agreeing   -> 'verified', and payable"@,
        "  disagreeing-> 'mismatch', held for a human, nothing paid"@,
        "\nSee the verdict as the buyer:"@,
        "  npm run job-status -w backend"@,
    ]
}

/// The end of the node's run. Only a successful render is a success.
pub open spec fn follows_clean_up(then: AfterCleanUp, next: NodeStep) -> bool {
    let outcome = then.outcome;
    if outcome.success {
        &&& next.said() == seq![outcome_line(outcome)] + farewell()
        &&& next.action == NodeAction::Done(Ok(()))
    } else {
        &&& next.said() == seq![outcome_line(outcome), outcome.log_tail@]
        &&& next.action matches NodeAction::Done(Err(e)) && e@
            == "the render did not produce a result"@
    }
}

fn describe_outcome(outcome: &JobOutcome) -> (line: String)
    ensures
        line@ == outcome_line(*outcome),
{
    let word = if outcome.success {
        "succeeded"
    } else {
        "FAILED"
    };
    let gvisor = if outcome.used_gvisor {
        "true"
    } else {
        "false"
    };
    let cores = text::to_decimal(outcome.effective_caps.cpu_cores as u64);
    let memory = text::to_decimal(outcome.effective_caps.memory_mb);
    let start = text::join5("\nrender ", word, " — ", &cores, " cores, ");
    text::join4(&start, &memory, " MB, gVisor: ", gvisor)
}

impl AfterCleanUp {
    /// Ends the node's run.
    pub fn resume(self) -> (next: NodeStep)
        ensures
            follows_clean_up(self, next),
    {
        let outcome = self.outcome;
        let line = describe_outcome(&outcome);
        if outcome.success {
            let mut say = text::list1(&line);
            let mut more = text::list5(
                "\nResult reported. The backend compares the two nodes' output hashes:",
                "  agreeing   -> 'verified', and payable",
                "  disagreeing-> 'mismatch', held for a human, nothing paid",
                "\nSee the verdict as the buyer:",
                "  npm run job-status -w backend",
            );
            let ghost first = say@;
            let ghost rest = more@;
            say.append(&mut more);
            assert(text::texts(say@) =~= text::texts(first) + text::texts(rest));
            NodeStep { say, action: NodeAction::Done(Ok(())) }
        } else {
            NodeStep {
                say: text::list2(&line, &outcome.log_tail),
                action: NodeAction::Done(Err("the render did not produce a result".to_owned())),
            }
        }
    }
}

} // verus!
