//! The job loop: one request at a time, cleared directory first, download,
//! answer, upload, and back to listening whatever happened.
//!
//! The loop is a state machine. Each call of [`JobLoop::step`] takes what the
//! last action brought about and returns the next actions, in order. Each list
//! ends with exactly one action that brings about an event (clear, await,
//! run, list); the actions before it (answer, log) bring about none.

use vstd::prelude::*;
use crate::invocation::{
    Invocation,
    download_invocation,
    upload_invocation,
    download_args,
    upload_args,
};
use crate::query::{BadRequest, parse_request_target, request_url};
use crate::startup::CredentialRecord;

verus! {

/// How a run of an external tool ended.
#[derive(Debug)]
pub enum ToolOutcome {
    /// The program could not be started.
    NotLaunched { reason: String },
    /// The program ran; `status` is its exit code, `None` when a signal ended it.
    Exited { status: Option<i32>, stdout: String, stderr: String },
}

impl ToolOutcome {
    /// The run counts as a success: the tool ran and exited with status 0.
    pub open spec fn succeeded(&self) -> bool {
        self matches ToolOutcome::Exited { status, .. } && status == Some(0i32)
    }

    /// Tells whether the run succeeded.
    pub fn is_success(&self) -> (r: bool)
        ensures
            r == self.succeeded(),
    {
        match self {
            ToolOutcome::Exited { status: Some(code), .. } => *code == 0,
            _ => false,
        }
    }
}

/// A failure that ends the current job, and only it.
#[derive(Debug)]
pub enum JobError {
    /// The request target names no URL to fetch.
    BadRequest { kind: BadRequest, target: String },
    /// Waiting for a request failed.
    ReceiveFailed { reason: String },
    /// The downloader failed to start or did not exit with status 0.
    DownloadFailed { url: String, outcome: ToolOutcome },
    /// The scratch directory could not be listed after a download.
    ListingFailed { reason: String },
    /// The download reported success but left no file.
    NoArtifactFound,
    /// The FTP client failed to start or did not exit with status 0.
    UploadFailed { file: String, outcome: ToolOutcome },
    /// Emptying the scratch directory failed; the next iteration tries again.
    DirectoryCleanupFailed { reason: String },
    /// An event came that the current phase does not wait for.
    UnexpectedEvent,
}

/// Where the loop stands, and the job in flight if there is one.
#[derive(Debug)]
pub enum Phase {
    /// Waiting for the scratch directory to be emptied.
    Clearing,
    /// Waiting for a request.
    Idle,
    /// Waiting for the downloader to fetch `url`.
    Downloading { url: String },
    /// The download of `url` succeeded and was answered; waiting for the
    /// listing of the scratch directory.
    Resolving { url: String },
    /// Waiting for the FTP client to send `file`, fetched from `url`.
    Uploading { url: String, file: String },
}

/// What happened as the last action was performed.
#[derive(Debug)]
pub enum Event {
    /// The scratch directory was emptied.
    DirCleared,
    /// Emptying the scratch directory failed.
    ClearFailed { reason: String },
    /// A request came in for the request target `target`.
    RequestArrived { target: String },
    /// Waiting for a request failed.
    ReceiveFailed { reason: String },
    /// The downloader run ended.
    DownloadFinished { outcome: ToolOutcome },
    /// The names of the files in the scratch directory, in listing order.
    DirListed { entries: Vec<String> },
    /// The scratch directory could not be listed.
    ListFailed { reason: String },
    /// The FTP client run ended.
    UploadFinished { outcome: ToolOutcome },
}

/// What the loop asks the program around it to do.
#[derive(Debug)]
pub enum Action {
    /// Remove every file of the scratch directory.
    ClearDir,
    /// Block until one request arrives.
    AwaitRequest,
    /// Answer the pending request with an empty body and this status.
    Respond { status: u16 },
    /// Run the downloader in the scratch directory.
    RunDownload { invocation: Invocation },
    /// List the files of the scratch directory.
    ListDir,
    /// Run the FTP client in the scratch directory.
    RunUpload { invocation: Invocation },
    /// Record a failure in the server's log.
    Log { error: JobError },
}

/// The action answers the pending request with `status`.
pub open spec fn is_respond(a: Action, status: u16) -> bool {
    a matches Action::Respond { status: s } && s == status
}

/// The action runs the downloader on `url`.
pub open spec fn runs_download(a: Action, url: Seq<char>) -> bool {
    a matches Action::RunDownload { invocation } && invocation.program@ == "svtplay-dl"@
        && invocation.arg_texts() == download_args(url)
}

/// The action runs the FTP client to send `file` to `host`.
pub open spec fn runs_upload(a: Action, host: Seq<char>, file: Seq<char>) -> bool {
    a matches Action::RunUpload { invocation } && invocation.program@ == "lftp"@
        && invocation.arg_texts() == upload_args(host, file)
}

/// The action empties the scratch directory.
pub open spec fn is_clear(a: Action) -> bool {
    a is ClearDir
}

/// The loop gives up on the job: it logs `error` and empties the directory.
pub open spec fn abandons(next: Phase, acts: Seq<Action>, error: JobError) -> bool {
    next is Clearing && acts == seq![Action::Log { error }, Action::ClearDir]
}

/// The loop answers 500, logs `error` and empties the directory.
pub open spec fn refuses(next: Phase, acts: Seq<Action>, error: JobError) -> bool {
    next is Clearing && acts == seq![
        Action::Respond { status: 500 },
        Action::Log { error },
        Action::ClearDir,
    ]
}

/// How a request target moves an idle loop.
pub open spec fn request_transition(
    target: String,
    parsed: Result<Seq<char>, BadRequest>,
    next: Phase,
    acts: Seq<Action>,
) -> bool {
    match parsed {
        Ok(u) => next matches Phase::Downloading { url } && url@ == u && acts.len() == 1
            && runs_download(acts[0], u),
        Err(kind) => refuses(next, acts, JobError::BadRequest { kind, target }),
    }
}

/// One move of the loop: in `phase`, with uploads going to `host`, `event`
/// leads to `next` and to the actions `acts`.
pub open spec fn transition(
    host: Seq<char>,
    phase: Phase,
    event: Event,
    next: Phase,
    acts: Seq<Action>,
) -> bool {
    match phase {
        Phase::Clearing => match event {
            Event::DirCleared => next is Idle && acts == seq![Action::AwaitRequest],
            Event::ClearFailed { reason } => next is Idle && acts == seq![
                Action::Log { error: JobError::DirectoryCleanupFailed { reason } },
                Action::AwaitRequest,
            ],
            _ => abandons(next, acts, JobError::UnexpectedEvent),
        },
        Phase::Idle => match event {
            Event::RequestArrived { target } => request_transition(
                target,
                request_url(target@),
                next,
                acts,
            ),
            Event::ReceiveFailed { reason } => abandons(
                next,
                acts,
                JobError::ReceiveFailed { reason },
            ),
            _ => abandons(next, acts, JobError::UnexpectedEvent),
        },
        Phase::Downloading { url } => match event {
            Event::DownloadFinished { outcome } => if outcome.succeeded() {
                next == (Phase::Resolving { url }) && acts == seq![
                    Action::Respond { status: 200 },
                    Action::ListDir,
                ]
            } else {
                refuses(next, acts, JobError::DownloadFailed { url, outcome })
            },
            _ => abandons(next, acts, JobError::UnexpectedEvent),
        },
        Phase::Resolving { url } => match event {
            Event::DirListed { entries } => if entries@.len() > 0 {
                next matches Phase::Uploading { url: u, file } && u == url && file@
                    == entries@[0]@ && acts.len() == 1 && runs_upload(acts[0], host, entries@[0]@)
            } else {
                abandons(next, acts, JobError::NoArtifactFound)
            },
            Event::ListFailed { reason } => abandons(
                next,
                acts,
                JobError::ListingFailed { reason },
            ),
            _ => abandons(next, acts, JobError::UnexpectedEvent),
        },
        Phase::Uploading { url, file } => match event {
            Event::UploadFinished { outcome } => if outcome.succeeded() {
                next is Clearing && acts == seq![Action::ClearDir]
            } else {
                abandons(next, acts, JobError::UploadFailed { file, outcome })
            },
            _ => abandons(next, acts, JobError::UnexpectedEvent),
        },
    }
}

/// The file to upload, out of the names listed in the scratch directory:
/// the first one. The directory holds one file after a download, so there is
/// no choice to make unless a tool left more behind.
pub fn get_file_name(entries: &Vec<String>) -> (r: Result<String, JobError>)
    ensures
        r is Ok <==> entries@.len() > 0,
        r matches Ok(f) ==> f@ == entries@[0]@,
        r matches Err(e) ==> e is NoArtifactFound,
{
    if entries.len() == 0 {
        Err(JobError::NoArtifactFound)
    } else {
        Ok(entries[0].clone())
    }
}

/// The job loop: the upload host and where the loop stands.
#[derive(Debug)]
pub struct JobLoop {
    pub host: String,
    pub phase: Phase,
}

impl JobLoop {
    /// A loop that starts by emptying the scratch directory; its first action
    /// is the one that [`JobLoop::opening_actions`] returns.
    pub fn new(credentials: CredentialRecord) -> (r: JobLoop)
        ensures
            r.host@ == credentials.host@,
            r.phase is Clearing,
    {
        JobLoop { host: credentials.host, phase: Phase::Clearing }
    }

    /// The actions that start a loop in the clearing phase.
    pub fn opening_actions() -> (r: Vec<Action>)
        ensures
            r@ == seq![Action::ClearDir],
    {
        let mut r: Vec<Action> = Vec::new();
        r.push(Action::ClearDir);
        r
    }

    /// Starts the job that a request asks for, from the URL read out of its
    /// target or the reason there is none.
    pub fn begin_job(&mut self, target: String, parsed: Result<String, BadRequest>) -> (r: Vec<
        Action,
    >)
        ensures
            final(self).host == old(self).host,
            request_transition(
                target,
                match parsed {
                    Ok(u) => Ok::<Seq<char>, BadRequest>(u@),
                    Err(e) => Err::<Seq<char>, BadRequest>(e),
                },
                final(self).phase,
                r@,
            ),
    {
        let mut r: Vec<Action> = Vec::new();
        match parsed {
            Ok(url) => {
                let invocation = download_invocation(url.as_str());
                r.push(Action::RunDownload { invocation });
                self.phase = Phase::Downloading { url };
            },
            Err(kind) => {
                r.push(Action::Respond { status: 500 });
                r.push(Action::Log { error: JobError::BadRequest { kind, target } });
                r.push(Action::ClearDir);
                self.phase = Phase::Clearing;
                assert(r@ =~= seq![
                    Action::Respond { status: 500 },
                    Action::Log { error: JobError::BadRequest { kind, target } },
                    Action::ClearDir,
                ]);
            },
        }
        r
    }

    /// Gives up on the job in flight: logs `error` and empties the directory.
    fn abandon(&mut self, error: JobError) -> (r: Vec<Action>)
        ensures
            final(self).host == old(self).host,
            abandons(final(self).phase, r@, error),
    {
        let mut r: Vec<Action> = Vec::new();
        r.push(Action::Log { error });
        r.push(Action::ClearDir);
        self.phase = Phase::Clearing;
        assert(r@ =~= seq![Action::Log { error }, Action::ClearDir]);
        r
    }

    /// Answers the pending request with 500, logs `error` and empties the
    /// directory.
    fn refuse(&mut self, error: JobError) -> (r: Vec<Action>)
        ensures
            final(self).host == old(self).host,
            refuses(final(self).phase, r@, error),
    {
        let mut r: Vec<Action> = Vec::new();
        r.push(Action::Respond { status: 500 });
        r.push(Action::Log { error });
        r.push(Action::ClearDir);
        self.phase = Phase::Clearing;
        assert(r@ =~= seq![Action::Respond { status: 500 }, Action::Log { error }, Action::ClearDir]);
        r
    }

    /// Moves the loop on by what the last action brought about, and returns
    /// the actions to perform next, in order.
    pub fn step(&mut self, event: Event) -> (r: Vec<Action>)
        ensures
            final(self).host == old(self).host,
            transition(old(self).host@, old(self).phase, event, final(self).phase, r@),
    {
        let mut phase = Phase::Clearing;
        std::mem::swap(&mut self.phase, &mut phase);
        match phase {
            Phase::Clearing => match event {
                Event::DirCleared => {
                    let mut r: Vec<Action> = Vec::new();
                    r.push(Action::AwaitRequest);
                    self.phase = Phase::Idle;
                    assert(r@ =~= seq![Action::AwaitRequest]);
                    r
                },
                Event::ClearFailed { reason } => {
                    let mut r: Vec<Action> = Vec::new();
                    r.push(Action::Log { error: JobError::DirectoryCleanupFailed { reason } });
                    r.push(Action::AwaitRequest);
                    self.phase = Phase::Idle;
                    assert(r@ =~= seq![
                        Action::Log { error: JobError::DirectoryCleanupFailed { reason } },
                        Action::AwaitRequest,
                    ]);
                    r
                },
                _ => self.abandon(JobError::UnexpectedEvent),
            },
            Phase::Idle => match event {
                Event::RequestArrived { target } => {
                    let parsed = parse_request_target(target.as_str());
                    self.begin_job(target, parsed)
                },
                Event::ReceiveFailed { reason } => self.abandon(
                    JobError::ReceiveFailed { reason },
                ),
                _ => self.abandon(JobError::UnexpectedEvent),
            },
            Phase::Downloading { url } => match event {
                Event::DownloadFinished { outcome } => {
                    if outcome.is_success() {
                        let mut r: Vec<Action> = Vec::new();
                        r.push(Action::Respond { status: 200 });
                        r.push(Action::ListDir);
                        self.phase = Phase::Resolving { url };
                        assert(r@ =~= seq![Action::Respond { status: 200 }, Action::ListDir]);
                        r
                    } else {
                        self.refuse(JobError::DownloadFailed { url, outcome })
                    }
                },
                _ => self.abandon(JobError::UnexpectedEvent),
            },
            Phase::Resolving { url } => match event {
                Event::DirListed { entries } => match get_file_name(&entries) {
                    Ok(file) => {
                        let invocation = upload_invocation(self.host.as_str(), file.as_str());
                        let mut r: Vec<Action> = Vec::new();
                        r.push(Action::RunUpload { invocation });
                        self.phase = Phase::Uploading { url, file };
                        r
                    },
                    Err(error) => self.abandon(error),
                },
                Event::ListFailed { reason } => self.abandon(JobError::ListingFailed { reason }),
                _ => self.abandon(JobError::UnexpectedEvent),
            },
            Phase::Uploading { url, file } => match event {
                Event::UploadFinished { outcome } => {
                    if outcome.is_success() {
                        let mut r: Vec<Action> = Vec::new();
                        r.push(Action::ClearDir);
                        self.phase = Phase::Clearing;
                        assert(r@ =~= seq![Action::ClearDir]);
                        r
                    } else {
                        self.abandon(JobError::UploadFailed { file, outcome })
                    }
                },
                _ => self.abandon(JobError::UnexpectedEvent),
            },
        }
    }
}

/// No action of `acts` runs the FTP client.
pub open spec fn no_upload(acts: Seq<Action>) -> bool {
    forall|i: int| 0 <= i < acts.len() ==> !(#[trigger] acts[i] is RunUpload)
}

/// No action of `acts` runs the downloader.
pub open spec fn no_download(acts: Seq<Action>) -> bool {
    forall|i: int| 0 <= i < acts.len() ==> !(#[trigger] acts[i] is RunDownload)
}

/// No action of `acts` empties the scratch directory.
pub open spec fn no_clear(acts: Seq<Action>) -> bool {
    forall|i: int| 0 <= i < acts.len() ==> !is_clear(#[trigger] acts[i])
}

/// A request whose target names a URL is served: the loop runs the
/// downloader on that URL; once the download succeeds the caller gets 200
/// and the directory is listed; the first listed file goes to the upload
/// host. Nothing empties the directory from the download to the end of the
/// upload, so the downloaded file stays until the next iteration's clear.
pub proof fn lemma_request_served(
    host: Seq<char>,
    target: String,
    p1: Phase,
    a1: Seq<Action>,
    outcome: ToolOutcome,
    p2: Phase,
    a2: Seq<Action>,
    entries: Vec<String>,
    p3: Phase,
    a3: Seq<Action>,
)
    requires
        request_url(target@) is Ok,
        transition(host, Phase::Idle, (Event::RequestArrived { target }), p1, a1),
        outcome.succeeded(),
        transition(host, p1, (Event::DownloadFinished { outcome }), p2, a2),
        entries@.len() > 0,
        transition(host, p2, (Event::DirListed { entries }), p3, a3),
    ensures
        a1.len() == 1,
        runs_download(a1[0], request_url(target@)->Ok_0),
        a2.len() == 2,
        is_respond(a2[0], 200),
        a2[1] is ListDir,
        a3.len() == 1,
        runs_upload(a3[0], host, entries@[0]@),
        no_clear(a1),
        no_clear(a2),
        no_clear(a3),
{
}

/// A request whose target has no `url` parameter, or one that does not
/// decode, gets 500; nothing is downloaded, and the loop goes back to
/// clearing the directory, and from there to listening.
pub proof fn lemma_bad_request_refused(
    host: Seq<char>,
    target: String,
    p1: Phase,
    a1: Seq<Action>,
    clear: Event,
    p2: Phase,
    a2: Seq<Action>,
)
    requires
        request_url(target@) is Err,
        transition(host, Phase::Idle, (Event::RequestArrived { target }), p1, a1),
        clear is DirCleared || clear is ClearFailed,
        transition(host, p1, clear, p2, a2),
    ensures
        a1.len() == 3,
        is_respond(a1[0], 500),
        a1[2] is ClearDir,
        no_download(a1),
        no_upload(a1),
        p1 is Clearing,
        p2 is Idle,
        a2.last() is AwaitRequest,
{
}

/// A download that fails to start or exits with a status other than 0 gets
/// 500; no upload is attempted and the loop goes back to clearing the
/// directory.
pub proof fn lemma_failed_download_refused(
    host: Seq<char>,
    url: String,
    outcome: ToolOutcome,
    p1: Phase,
    a1: Seq<Action>,
)
    requires
        !outcome.succeeded(),
        transition(host, (Phase::Downloading { url }), (Event::DownloadFinished { outcome }), p1, a1),
    ensures
        a1.len() == 3,
        is_respond(a1[0], 500),
        a1[1] matches Action::Log { error: JobError::DownloadFailed { .. } },
        a1[2] is ClearDir,
        no_upload(a1),
        p1 is Clearing,
{
}

/// In `phase`, `event` reports a failed run of the tool that the phase
/// waits for.
pub open spec fn is_tool_failure(phase: Phase, event: Event) -> bool {
    match event {
        Event::DownloadFinished { outcome } => phase is Downloading && !outcome.succeeded(),
        Event::UploadFinished { outcome } => phase is Uploading && !outcome.succeeded(),
        _ => false,
    }
}

/// After a failed download or upload, the next well-formed request is
/// served as any other: one clear later the loop listens again, and the
/// request runs the downloader on its URL.
pub proof fn lemma_recovers_after_tool_failure(
    host: Seq<char>,
    phase: Phase,
    failure: Event,
    p1: Phase,
    a1: Seq<Action>,
    clear: Event,
    p2: Phase,
    a2: Seq<Action>,
    target: String,
    p3: Phase,
    a3: Seq<Action>,
)
    requires
        is_tool_failure(phase, failure),
        transition(host, phase, failure, p1, a1),
        clear is DirCleared || clear is ClearFailed,
        transition(host, p1, clear, p2, a2),
        request_url(target@) is Ok,
        transition(host, p2, (Event::RequestArrived { target }), p3, a3),
    ensures
        p1 is Clearing,
        a1.last() is ClearDir,
        no_upload(a1),
        p2 is Idle,
        a2.last() is AwaitRequest,
        p3 matches Phase::Downloading { url } && url@ == request_url(target@)->Ok_0,
        a3.len() == 1,
        runs_download(a3[0], request_url(target@)->Ok_0),
{
}

/// A failed clear of the directory does not stop the loop: it is logged, the
/// loop listens, and the next well-formed request runs the downloader.
pub proof fn lemma_recovers_after_cleanup_failure(
    host: Seq<char>,
    reason: String,
    p1: Phase,
    a1: Seq<Action>,
    target: String,
    p2: Phase,
    a2: Seq<Action>,
)
    requires
        transition(host, Phase::Clearing, (Event::ClearFailed { reason }), p1, a1),
        request_url(target@) is Ok,
        transition(host, p1, (Event::RequestArrived { target }), p2, a2),
    ensures
        p1 is Idle,
        a1.len() == 2,
        a1[0] matches Action::Log { error: JobError::DirectoryCleanupFailed { .. } },
        a1[1] is AwaitRequest,
        p2 matches Phase::Downloading { url } && url@ == request_url(target@)->Ok_0,
        a2.len() == 1,
        runs_download(a2[0], request_url(target@)->Ok_0),
{
}

/// Performing the action brings about an event for the loop.
pub open spec fn brings_event(a: Action) -> bool {
    ||| a is ClearDir
    ||| a is AwaitRequest
    ||| a is RunDownload
    ||| a is ListDir
    ||| a is RunUpload
}

/// Whatever the phase and the event, the loop goes on: the actions it returns
/// end with exactly one that brings about the next event.
pub proof fn lemma_loop_never_stalls(
    host: Seq<char>,
    phase: Phase,
    event: Event,
    next: Phase,
    acts: Seq<Action>,
)
    requires
        transition(host, phase, event, next, acts),
    ensures
        acts.len() > 0,
        brings_event(acts.last()),
        forall|i: int| 0 <= i < acts.len() - 1 ==> !brings_event(#[trigger] acts[i]),
{
}

} // verus!
