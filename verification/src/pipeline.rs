//! One run of the commit pipeline, as a machine that is told what happened
//! and answers what to do next.
//!
//! The stages are strictly sequential and the first failure ends the run.
//! Nothing is undone: what was staged stays staged, and a commit that could
//! not be published stays in the repository.

use crate::diff::{forwarded, DiffSummary};
use crate::error::{
    api_failure, commit_rejected, git_failure, missing_credential, publish_rejected,
    staging_rejected, AppError, ErrorView,
};
use crate::message::{
    accept_decoded, accept_reply, commit_request, decoded_view, endpoint, endpoint_url,
    first_text, proposal, reply_body, success, GenerationRequest, GenerationResponse, HttpReply,
    HttpReplyView, RequestView,
};
use crate::sanitize::{sanitize, sanitized};
use crate::text::lossy_utf8;
use vstd::prelude::*;

verus! {

/// How a run ended, where it did not fail.
#[derive(Debug, PartialEq, Eq)]
pub enum CommitOutcome {
    /// There was nothing to commit. This is no failure.
    NoChanges,
    /// The changes were committed and published under this message.
    Committed(String),
}

/// The mathematical value of a [`CommitOutcome`].
pub enum OutcomeView {
    NoChanges,
    Committed(Seq<char>),
}

impl View for CommitOutcome {
    type V = OutcomeView;

    open spec fn view(&self) -> OutcomeView {
        match self {
            CommitOutcome::NoChanges => OutcomeView::NoChanges,
            CommitOutcome::Committed(message) => OutcomeView::Committed(message@),
        }
    }
}

impl Clone for CommitOutcome {
    fn clone(&self) -> (copy: CommitOutcome)
        ensures
            copy@ == self@,
    {
        match self {
            CommitOutcome::NoChanges => CommitOutcome::NoChanges,
            CommitOutcome::Committed(message) => CommitOutcome::Committed(message.clone()),
        }
    }
}

/// The value of the result of a run.
pub open spec fn result_view(result: Result<CommitOutcome, AppError>) -> Result<
    OutcomeView,
    ErrorView,
> {
    match result {
        Ok(outcome) => Ok(outcome@),
        Err(error) => Err(error@),
    }
}

/// The text that stands for a run that found nothing to commit.
pub const NO_CHANGES: &'static str = "No changes to commit";

impl CommitOutcome {
    /// The text shown for this outcome: the commit message, or the marker
    /// [`NO_CHANGES`].
    pub fn describe(&self) -> (text: String)
        ensures
            text@ == match self@ {
                OutcomeView::NoChanges => NO_CHANGES@,
                OutcomeView::Committed(message) => message,
            },
    {
        match self {
            CommitOutcome::NoChanges => String::from_str(NO_CHANGES),
            CommitOutcome::Committed(message) => message.clone(),
        }
    }
}

/// How an attempt to run a repository command ended.
#[derive(Debug, PartialEq, Eq)]
pub enum CommandOutcome {
    /// The command could not be run, for the reason given.
    NotRun(String),
    /// The command ran; the flag tells whether it reported success.
    Exited(bool),
}

/// The mathematical value of a [`CommandOutcome`].
pub enum CommandView {
    NotRun(Seq<char>),
    Exited(bool),
}

impl View for CommandOutcome {
    type V = CommandView;

    open spec fn view(&self) -> CommandView {
        match self {
            CommandOutcome::NotRun(why) => CommandView::NotRun(why@),
            CommandOutcome::Exited(ok) => CommandView::Exited(*ok),
        }
    }
}

/// The output of the two diff commands on the staged changes, as they wrote it.
#[derive(Debug, PartialEq, Eq)]
pub struct RawDiff {
    /// Output of the short summary.
    pub stat: Vec<u8>,
    /// Output of the detailed diff.
    pub body: Vec<u8>,
}

/// What the driver reports back after it did what it was asked.
#[derive(Debug, PartialEq, Eq)]
pub enum Event {
    /// The repository was opened and inspected: the number of pending
    /// changes, or why it could not be opened or inspected.
    Inspected(Result<usize, String>),
    /// The attempt to stage all pending changes ended.
    Staged(CommandOutcome),
    /// The staged changes were read, or could not be, for the reason given.
    DiffCollected(Result<RawDiff, String>),
    /// The exchange with the remote service ended.
    Replied(HttpReply),
    /// The body of a successful response was decoded, or could not be, for
    /// the reason given.
    Decoded(Result<GenerationResponse, String>),
    /// The attempt to commit ended.
    Committed(CommandOutcome),
    /// The attempt to publish ended.
    Published(CommandOutcome),
}

/// The mathematical value of an [`Event`].
pub enum EventView {
    Inspected(Result<usize, Seq<char>>),
    Staged(CommandView),
    DiffCollected(Result<(Seq<u8>, Seq<u8>), Seq<char>>),
    Replied(HttpReplyView),
    Decoded(Result<Seq<Seq<Seq<char>>>, Seq<char>>),
    Committed(CommandView),
    Published(CommandView),
}

impl View for Event {
    type V = EventView;

    open spec fn view(&self) -> EventView {
        match self {
            Event::Inspected(Ok(pending)) => EventView::Inspected(Ok(*pending)),
            Event::Inspected(Err(why)) => EventView::Inspected(Err(why@)),
            Event::Staged(outcome) => EventView::Staged(outcome@),
            Event::DiffCollected(Ok(raw)) => EventView::DiffCollected(Ok((raw.stat@, raw.body@))),
            Event::DiffCollected(Err(why)) => EventView::DiffCollected(Err(why@)),
            Event::Replied(reply) => EventView::Replied(reply@),
            Event::Decoded(decoded) => EventView::Decoded(decoded_view(*decoded)),
            Event::Committed(outcome) => EventView::Committed(outcome@),
            Event::Published(outcome) => EventView::Published(outcome@),
        }
    }
}

/// What the driver is asked to do next.
#[derive(Debug, PartialEq, Eq)]
pub enum Action {
    /// Open the repository and count its pending changes.
    Inspect,
    /// Stage all pending changes.
    StageAll,
    /// Read the staged changes: the short summary and the detailed diff.
    CollectDiff,
    /// Send `request` to `url`.
    Generate { url: String, request: GenerationRequest },
    /// Decode `body`, the body of a successful response.
    Decode { body: String },
    /// Commit the staged changes under `message`.
    Commit { message: String },
    /// Publish the commit.
    Publish,
    /// Nothing more: the run is over, with this result.
    Finish(Result<CommitOutcome, AppError>),
}

/// The mathematical value of an [`Action`].
pub enum ActionView {
    Inspect,
    StageAll,
    CollectDiff,
    Generate { url: Seq<char>, request: RequestView },
    Decode { body: Seq<char> },
    Commit { message: Seq<char> },
    Publish,
    Finish(Result<OutcomeView, ErrorView>),
}

impl View for Action {
    type V = ActionView;

    open spec fn view(&self) -> ActionView {
        match self {
            Action::Inspect => ActionView::Inspect,
            Action::StageAll => ActionView::StageAll,
            Action::CollectDiff => ActionView::CollectDiff,
            Action::Generate { url, request } => ActionView::Generate {
                url: url@,
                request: request@,
            },
            Action::Decode { body } => ActionView::Decode { body: body@ },
            Action::Commit { message } => ActionView::Commit { message: message@ },
            Action::Publish => ActionView::Publish,
            Action::Finish(result) => ActionView::Finish(result_view(*result)),
        }
    }
}

/// Where a run stands: what it is waiting for.
#[derive(Clone, Copy, Debug, PartialEq, Eq, Structural)]
pub enum Phase {
    /// For the repository to be inspected.
    Inspecting,
    /// For the pending changes to be staged.
    Staging,
    /// For the staged changes to be read.
    Collecting,
    /// For the remote service to reply.
    Generating,
    /// For the reply to be decoded.
    Decoding,
    /// For the commit to be made.
    Committing,
    /// For the commit to be published.
    Publishing,
    /// For nothing: the run is over.
    Finished,
}

/// The mathematical value of a [`Pipeline`].
pub struct PipelineView {
    /// The credential that the run was begun with.
    pub credential: Seq<char>,
    /// What the run is waiting for.
    pub phase: Phase,
    /// The commit message, once the remote service proposed one; empty before.
    pub message: Seq<char>,
}

/// One run of the pipeline.
#[derive(Debug)]
pub struct Pipeline {
    credential: String,
    phase: Phase,
    message: String,
}

impl View for Pipeline {
    type V = PipelineView;

    closed spec fn view(&self) -> PipelineView {
        PipelineView { credential: self.credential@, phase: self.phase, message: self.message@ }
    }
}

/// A run that has just begun with `credential`.
pub open spec fn start(credential: Seq<char>) -> PipelineView {
    PipelineView { credential, phase: Phase::Inspecting, message: Seq::empty() }
}

/// `event` is the report that a run in `phase` is waiting for.
pub open spec fn awaits(phase: Phase, event: EventView) -> bool {
    match (phase, event) {
        (Phase::Inspecting, EventView::Inspected(_)) => true,
        (Phase::Staging, EventView::Staged(_)) => true,
        (Phase::Collecting, EventView::DiffCollected(_)) => true,
        (Phase::Generating, EventView::Replied(_)) => true,
        (Phase::Decoding, EventView::Decoded(_)) => true,
        (Phase::Committing, EventView::Committed(_)) => true,
        (Phase::Publishing, EventView::Published(_)) => true,
        _ => false,
    }
}

/// The run `p` moved on to `phase`, with `action` as the next thing to do.
pub open spec fn proceed(p: PipelineView, phase: Phase, action: ActionView) -> (
    PipelineView,
    ActionView,
) {
    (PipelineView { phase, ..p }, action)
}

/// The run `p` ended with `result`.
pub open spec fn finish(p: PipelineView, result: Result<OutcomeView, ErrorView>) -> (
    PipelineView,
    ActionView,
) {
    proceed(p, Phase::Finished, ActionView::Finish(result))
}

/// What a run `p` becomes when it is told `event`, and what it asks for next.
///
/// Stage by stage: a repository that cannot be inspected ends the run; so
/// does one without pending changes, as a success that changed nothing; so
/// does an empty credential, before anything is staged. Staging fails where
/// the command could not be run or reported failure; reading the diff fails
/// where it could not be read. The request goes to the address made of the
/// credential and carries the forwarded summary. A reply that never came, a
/// status that is no success, a body that cannot be read or decoded and an
/// answer without text each end the run. The proposed text is cleaned and
/// committed; the commit and the publication fail where the command could
/// not be run or reported failure.
pub open spec fn transition(p: PipelineView, event: EventView) -> (PipelineView, ActionView)
    recommends
        awaits(p.phase, event),
{
    match event {
        EventView::Inspected(Err(why)) => finish(p, Err(git_failure(why))),
        EventView::Inspected(Ok(pending)) => if pending == 0 {
            finish(p, Ok(OutcomeView::NoChanges))
        } else if p.credential.len() == 0 {
            finish(p, Err(missing_credential()))
        } else {
            proceed(p, Phase::Staging, ActionView::StageAll)
        },
        EventView::Staged(CommandView::NotRun(why)) => finish(p, Err(git_failure(why))),
        EventView::Staged(CommandView::Exited(ok)) => if ok {
            proceed(p, Phase::Collecting, ActionView::CollectDiff)
        } else {
            finish(p, Err(staging_rejected()))
        },
        EventView::DiffCollected(Err(why)) => finish(p, Err(git_failure(why))),
        EventView::DiffCollected(Ok((stat, body))) => proceed(
            p,
            Phase::Generating,
            ActionView::Generate {
                url: endpoint(p.credential),
                request: commit_request(forwarded(lossy_utf8(stat), lossy_utf8(body))),
            },
        ),
        EventView::Replied(reply) => match reply_body(reply) {
            Err(failure) => finish(p, Err(failure)),
            Ok(body) => proceed(p, Phase::Decoding, ActionView::Decode { body }),
        },
        EventView::Decoded(decoded) => match proposal(decoded) {
            Err(failure) => finish(p, Err(failure)),
            Ok(text) => (
                PipelineView { phase: Phase::Committing, message: sanitized(text), ..p },
                ActionView::Commit { message: sanitized(text) },
            ),
        },
        EventView::Committed(CommandView::NotRun(why)) => finish(p, Err(git_failure(why))),
        EventView::Committed(CommandView::Exited(ok)) => if ok {
            proceed(p, Phase::Publishing, ActionView::Publish)
        } else {
            finish(p, Err(commit_rejected()))
        },
        EventView::Published(CommandView::NotRun(why)) => finish(p, Err(git_failure(why))),
        EventView::Published(CommandView::Exited(ok)) => if ok {
            finish(p, Ok(OutcomeView::Committed(p.message)))
        } else {
            finish(p, Err(publish_rejected()))
        },
    }
}

impl Pipeline {
    /// Begins a run with the credential in force. The first thing to do is
    /// to inspect the repository.
    pub fn begin(credential: String) -> (begun: (Pipeline, Action))
        ensures
            begun.0@ == start(credential@),
            begun.1@ == ActionView::Inspect,
    {
        (Pipeline { credential, phase: Phase::Inspecting, message: String::new() }, Action::Inspect)
    }

    /// What the run is waiting for.
    pub fn phase(&self) -> (phase: Phase)
        ensures
            phase == self@.phase,
    {
        self.phase
    }

    /// Tells whether the run is over.
    pub fn is_finished(&self) -> (over: bool)
        ensures
            over == (self@.phase == Phase::Finished),
    {
        match self.phase {
            Phase::Finished => true,
            _ => false,
        }
    }

    /// Tells whether `event` is the report that the run is waiting for.
    pub fn awaits(&self, event: &Event) -> (expected: bool)
        ensures
            expected == awaits(self@.phase, event@),
    {
        match (self.phase, event) {
            (Phase::Inspecting, Event::Inspected(_)) => true,
            (Phase::Staging, Event::Staged(_)) => true,
            (Phase::Collecting, Event::DiffCollected(_)) => true,
            (Phase::Generating, Event::Replied(_)) => true,
            (Phase::Decoding, Event::Decoded(_)) => true,
            (Phase::Committing, Event::Committed(_)) => true,
            (Phase::Publishing, Event::Published(_)) => true,
            _ => false,
        }
    }

    fn end(&mut self, result: Result<CommitOutcome, AppError>) -> (action: Action)
        ensures
            final(self)@ == (PipelineView { phase: Phase::Finished, ..old(self)@ }),
            action@ == ActionView::Finish(result_view(result)),
    {
        self.phase = Phase::Finished;
        Action::Finish(result)
    }

    /// Takes in the report that the run was waiting for, and answers what to
    /// do next.
    pub fn step(&mut self, event: Event) -> (action: Action)
        requires
            awaits(old(self)@.phase, event@),
        ensures
            (final(self)@, action@) == transition(old(self)@, event@),
    {
        match event {
            Event::Inspected(Err(why)) => self.end(Err(AppError::git(why))),
            Event::Inspected(Ok(pending)) => {
                if pending == 0 {
                    self.end(Ok(CommitOutcome::NoChanges))
                } else if self.credential.as_str().is_empty() {
                    self.end(Err(AppError::missing_credential()))
                } else {
                    self.phase = Phase::Staging;
                    Action::StageAll
                }
            },
            Event::Staged(CommandOutcome::NotRun(why)) => self.end(Err(AppError::git(why))),
            Event::Staged(CommandOutcome::Exited(ok)) => {
                if ok {
                    self.phase = Phase::Collecting;
                    Action::CollectDiff
                } else {
                    self.end(Err(AppError::staging_rejected()))
                }
            },
            Event::DiffCollected(Err(why)) => self.end(Err(AppError::git(why))),
            Event::DiffCollected(Ok(raw)) => {
                let summary = DiffSummary::from_output(raw.stat.as_slice(), raw.body.as_slice());
                let request = GenerationRequest::for_commit(&summary);
                let url = endpoint_url(self.credential.as_str());
                self.phase = Phase::Generating;
                Action::Generate { url, request }
            },
            Event::Replied(reply) => match accept_reply(reply) {
                Err(failure) => self.end(Err(failure)),
                Ok(body) => {
                    self.phase = Phase::Decoding;
                    Action::Decode { body }
                },
            },
            Event::Decoded(decoded) => match accept_decoded(decoded) {
                Err(failure) => self.end(Err(failure)),
                Ok(text) => {
                    let message = sanitize(text.as_str());
                    self.message = message.clone();
                    self.phase = Phase::Committing;
                    Action::Commit { message }
                },
            },
            Event::Committed(CommandOutcome::NotRun(why)) => self.end(Err(AppError::git(why))),
            Event::Committed(CommandOutcome::Exited(ok)) => {
                if ok {
                    self.phase = Phase::Publishing;
                    Action::Publish
                } else {
                    self.end(Err(AppError::commit_rejected()))
                }
            },
            Event::Published(CommandOutcome::NotRun(why)) => self.end(Err(AppError::git(why))),
            Event::Published(CommandOutcome::Exited(ok)) => {
                if ok {
                    let message = self.message.clone();
                    self.end(Ok(CommitOutcome::Committed(message)))
                } else {
                    self.end(Err(AppError::publish_rejected()))
                }
            },
        }
    }
}

/// What a run `p` asks for, one answer after the other, while it is told
/// `events` in turn. A report that the run is not waiting for ends the
/// sequence: a run that is over asks for nothing more.
pub open spec fn answers(p: PipelineView, events: Seq<EventView>) -> Seq<ActionView>
    decreases events.len(),
{
    if events.len() == 0 || !awaits(p.phase, events[0]) {
        Seq::empty()
    } else {
        seq![transition(p, events[0]).1] + answers(transition(p, events[0]).0, events.drop_first())
    }
}

/// The place of a phase in the order of the stages.
pub open spec fn stage(phase: Phase) -> int {
    match phase {
        Phase::Inspecting => 0,
        Phase::Staging => 1,
        Phase::Collecting => 2,
        Phase::Generating => 3,
        Phase::Decoding => 4,
        Phase::Committing => 5,
        Phase::Publishing => 6,
        Phase::Finished => 7,
    }
}

/// The place, in the order of the stages, of the stage that an action opens.
pub open spec fn opens(action: ActionView) -> int {
    match action {
        ActionView::Inspect => 0,
        ActionView::StageAll => 1,
        ActionView::CollectDiff => 2,
        ActionView::Generate { .. } => 3,
        ActionView::Decode { .. } => 4,
        ActionView::Commit { .. } => 5,
        ActionView::Publish => 6,
        ActionView::Finish(_) => 7,
    }
}

/// The stages come one after the other, and the run ends at the first stage
/// that does not go on: whatever a run is told, each thing that it asks for
/// either opens the stage that follows the one before, or is the end of the
/// run and the last thing that it asks for. So no stage is opened twice,
/// none is opened before the one that precedes it, and none after the end.
pub proof fn law_stages_come_in_order(p: PipelineView, events: Seq<EventView>, i: int)
    requires
        0 <= i < answers(p, events).len(),
    ensures
        answers(p, events)[i] is Finish || opens(answers(p, events)[i]) == stage(p.phase) + 1 + i,
        answers(p, events)[i] is Finish ==> i == answers(p, events).len() - 1,
    decreases events.len(),
{
    let first = transition(p, events[0]).1;
    let q = transition(p, events[0]).0;
    let rest = events.drop_first();
    assert(first is Finish || (opens(first) == stage(p.phase) + 1 && stage(q.phase) == stage(
        p.phase,
    ) + 1));
    if first is Finish {
        assert(q.phase == Phase::Finished);
        law_finished_run_is_silent(q, rest);
    }
    if i > 0 {
        law_stages_come_in_order(q, rest, i - 1);
    }
}

/// Told `event`, a stage of the run `p` has failed: the repository could not
/// be inspected, or has pending changes while no credential is set; a
/// command could not be run or reported failure; the diff could not be
/// read; the reply never came, has a status that is no success, or could
/// not be read; the body could not be decoded, or holds no text.
pub open spec fn failed(p: PipelineView, event: EventView) -> bool {
    match event {
        EventView::Inspected(Err(_)) => true,
        EventView::Inspected(Ok(pending)) => pending > 0 && p.credential.len() == 0,
        EventView::Staged(outcome) => outcome != CommandView::Exited(true),
        EventView::DiffCollected(read) => read is Err,
        EventView::Replied(HttpReplyView::Unreachable(_)) => true,
        EventView::Replied(HttpReplyView::Response { status, .. }) => !success(status),
        EventView::Replied(HttpReplyView::Unread { .. }) => true,
        EventView::Decoded(Err(_)) => true,
        EventView::Decoded(Ok(response)) => first_text(response) is None,
        EventView::Committed(outcome) => outcome != CommandView::Exited(true),
        EventView::Published(outcome) => outcome != CommandView::Exited(true),
    }
}

/// The first failure ends the run, and nothing else makes a run fail: told
/// a report, a run ends in failure exactly where a stage has failed, and it
/// is then over: no later stage is opened, nothing is tried again, nothing
/// is undone.
pub proof fn law_first_failure_ends_the_run(
    p: PipelineView,
    event: EventView,
    later: Seq<EventView>,
)
    requires
        awaits(p.phase, event),
    ensures
        failed(p, event) <==> (transition(p, event).1 matches ActionView::Finish(r) && r is Err),
        failed(p, event) ==> transition(p, event).0.phase == Phase::Finished && answers(
            p,
            seq![event] + later,
        ) == seq![transition(p, event).1],
{
    let events = seq![event] + later;
    assert(events[0] == event);
    if failed(p, event) {
        law_finished_run_is_silent(transition(p, event).0, events.drop_first());
        assert(answers(p, events) =~= seq![transition(p, event).1]);
    }
}

/// A run that is over asks for nothing, whatever it is told.
pub proof fn law_finished_run_is_silent(p: PipelineView, events: Seq<EventView>)
    requires
        p.phase == Phase::Finished,
    ensures
        answers(p, events) == Seq::<ActionView>::empty(),
{
}

/// A run on a repository without pending changes ends at once, as a success
/// that changed nothing: after the inspection it asks for nothing but to
/// finish, so nothing is staged, nothing is sent and nothing is committed,
/// whatever the credential and whatever is reported afterwards.
pub proof fn law_no_changes_is_a_noop(credential: Seq<char>, events: Seq<EventView>)
    requires
        events.len() > 0,
        events[0] == EventView::Inspected(Ok(0)),
    ensures
        answers(start(credential), events) == seq![ActionView::Finish(Ok(OutcomeView::NoChanges))],
{
    let p = start(credential);
    let q = transition(p, events[0]).0;
    assert(q.phase == Phase::Finished);
    law_finished_run_is_silent(q, events.drop_first());
    assert(answers(p, events) =~= seq![ActionView::Finish(Ok(OutcomeView::NoChanges))]);
}

/// A run without a credential never asks for anything but to finish,
/// whatever it is told.
pub proof fn law_missing_credential_only_finishes(events: Seq<EventView>)
    ensures
        forall|i: int|
            0 <= i < answers(start(Seq::empty()), events).len() ==> #[trigger] answers(
                start(Seq::empty()),
                events,
            )[i] is Finish,
{
    let p = start(Seq::<char>::empty());
    if events.len() > 0 && awaits(p.phase, events[0]) {
        let q = transition(p, events[0]).0;
        assert(q.phase == Phase::Finished);
        law_finished_run_is_silent(q, events.drop_first());
        assert(answers(p, events) =~= seq![transition(p, events[0]).1]);
    }
}

/// A run without a credential on a repository with pending changes fails for
/// want of a credential, and asks for nothing else: nothing is staged.
pub proof fn law_missing_credential_stages_nothing(pending: usize, events: Seq<EventView>)
    requires
        pending > 0,
        events.len() > 0,
        events[0] == EventView::Inspected(Ok(pending)),
    ensures
        answers(start(Seq::empty()), events) == seq![
            ActionView::Finish(Err(missing_credential())),
        ],
{
    let p = start(Seq::<char>::empty());
    let q = transition(p, events[0]).0;
    assert(q.phase == Phase::Finished);
    law_finished_run_is_silent(q, events.drop_first());
    assert(answers(p, events) =~= seq![transition(p, events[0]).1]);
}

/// Where the remote service answers with a status that is no success, the
/// run ends with the failure that carries the body of that answer. By then
/// it has asked to stage the changes, and it never asks to commit.
pub proof fn law_refusal_ends_after_staging(
    credential: Seq<char>,
    pending: usize,
    stat: Seq<u8>,
    body: Seq<u8>,
    status: u16,
    reason: Seq<char>,
    later: Seq<EventView>,
)
    requires
        credential.len() > 0,
        pending > 0,
        !success(status),
    ensures
        answers(
            start(credential),
            seq![
                EventView::Inspected(Ok(pending)),
                EventView::Staged(CommandView::Exited(true)),
                EventView::DiffCollected(Ok((stat, body))),
                EventView::Replied(HttpReplyView::Response { status, body: reason }),
            ] + later,
        ) == seq![
            ActionView::StageAll,
            ActionView::CollectDiff,
            ActionView::Generate {
                url: endpoint(credential),
                request: commit_request(forwarded(lossy_utf8(stat), lossy_utf8(body))),
            },
            ActionView::Finish(Err(api_failure(reason))),
        ],
{
    let told0 = EventView::Inspected(Ok(pending));
    let told1 = EventView::Staged(CommandView::Exited(true));
    let told2 = EventView::DiffCollected(Ok((stat, body)));
    let told3 = EventView::Replied(HttpReplyView::Response { status, body: reason });
    let events = seq![told0, told1, told2, told3] + later;
    let run0 = start(credential);
    let run1 = transition(run0, told0).0;
    let run2 = transition(run1, told1).0;
    let run3 = transition(run2, told2).0;
    let run4 = transition(run3, told3).0;
    let rest1 = events.drop_first();
    let rest2 = rest1.drop_first();
    let rest3 = rest2.drop_first();
    let rest4 = rest3.drop_first();
    assert(events[0] == told0 && rest1[0] == told1 && rest2[0] == told2 && rest3[0] == told3);
    law_finished_run_is_silent(run4, rest4);
    assert(answers(run3, rest3) =~= seq![transition(run3, told3).1]);
    assert(answers(run2, rest2) =~= seq![transition(run2, told2).1] + answers(run3, rest3));
    assert(answers(run1, rest1) =~= seq![transition(run1, told1).1] + answers(run2, rest2));
    assert(answers(run0, events) =~= seq![transition(run0, told0).1] + answers(run1, rest1));
}

/// Where every stage succeeds, the run asks for each stage in order and ends
/// with the cleaned text of the first candidate, which is also the message
/// that it asked to commit.
pub proof fn law_success_commits_the_cleaned_text(
    credential: Seq<char>,
    pending: usize,
    stat: Seq<u8>,
    body: Seq<u8>,
    status: u16,
    reply: Seq<char>,
    response: Seq<Seq<Seq<char>>>,
    later: Seq<EventView>,
)
    requires
        credential.len() > 0,
        pending > 0,
        success(status),
        first_text(response) is Some,
    ensures
        answers(
            start(credential),
            seq![
                EventView::Inspected(Ok(pending)),
                EventView::Staged(CommandView::Exited(true)),
                EventView::DiffCollected(Ok((stat, body))),
                EventView::Replied(HttpReplyView::Response { status, body: reply }),
                EventView::Decoded(Ok(response)),
                EventView::Committed(CommandView::Exited(true)),
                EventView::Published(CommandView::Exited(true)),
            ] + later,
        ) == seq![
            ActionView::StageAll,
            ActionView::CollectDiff,
            ActionView::Generate {
                url: endpoint(credential),
                request: commit_request(forwarded(lossy_utf8(stat), lossy_utf8(body))),
            },
            ActionView::Decode { body: reply },
            ActionView::Commit { message: sanitized(first_text(response)->Some_0) },
            ActionView::Publish,
            ActionView::Finish(
                Ok(OutcomeView::Committed(sanitized(first_text(response)->Some_0))),
            ),
        ],
{
    let told0 = EventView::Inspected(Ok(pending));
    let told1 = EventView::Staged(CommandView::Exited(true));
    let told2 = EventView::DiffCollected(Ok((stat, body)));
    let told3 = EventView::Replied(HttpReplyView::Response { status, body: reply });
    let told4 = EventView::Decoded(Ok(response));
    let told5 = EventView::Committed(CommandView::Exited(true));
    let told6 = EventView::Published(CommandView::Exited(true));
    let events = seq![told0, told1, told2, told3, told4, told5, told6] + later;
    let run0 = start(credential);
    let run1 = transition(run0, told0).0;
    let run2 = transition(run1, told1).0;
    let run3 = transition(run2, told2).0;
    let run4 = transition(run3, told3).0;
    let run5 = transition(run4, told4).0;
    let run6 = transition(run5, told5).0;
    let run7 = transition(run6, told6).0;
    let rest1 = events.drop_first();
    let rest2 = rest1.drop_first();
    let rest3 = rest2.drop_first();
    let rest4 = rest3.drop_first();
    let rest5 = rest4.drop_first();
    let rest6 = rest5.drop_first();
    let rest7 = rest6.drop_first();
    assert(events[0] == told0 && rest1[0] == told1 && rest2[0] == told2 && rest3[0] == told3);
    assert(rest4[0] == told4 && rest5[0] == told5 && rest6[0] == told6);
    law_finished_run_is_silent(run7, rest7);
    assert(answers(run6, rest6) =~= seq![transition(run6, told6).1]);
    assert(answers(run5, rest5) =~= seq![transition(run5, told5).1] + answers(run6, rest6));
    assert(answers(run4, rest4) =~= seq![transition(run4, told4).1] + answers(run5, rest5));
    assert(answers(run3, rest3) =~= seq![transition(run3, told3).1] + answers(run4, rest4));
    assert(answers(run2, rest2) =~= seq![transition(run2, told2).1] + answers(run3, rest3));
    assert(answers(run1, rest1) =~= seq![transition(run1, told1).1] + answers(run2, rest2));
    assert(answers(run0, events) =~= seq![transition(run0, told0).1] + answers(run1, rest1));
}

} // verus!
