//! The scheduler: whether timed runs are on, and the loop that makes them.
//!
//! The scheduler is idle or active. Starting it takes a snapshot of the
//! interval and of the repository path, which the loop keeps until it ends:
//! a later change of configuration reaches the next start, not the loop that
//! runs. Stopping is cooperative. The loop looks at the scheduler once per
//! tick, never during a run, so a run that has begun always completes.
//!
//! The scheduler numbers the starts that it grants, and each loop knows the
//! number of its own. A loop that finds the scheduler idle, or active under
//! a later number, ends: a stop followed at once by a new start still ends
//! the loop that ran, and at most one loop makes runs at any time.

use crate::config::{AppConfig, ConfigView};
use crate::error::{already_running, AppError, ErrorView};
use crate::pipeline::{result_view, CommitOutcome, OutcomeView};
use vstd::prelude::*;

verus! {

/// Whether timed runs are on.
#[derive(Clone, Copy, Debug, PartialEq, Eq, Structural)]
pub enum RunState {
    Idle,
    Active,
}

/// The seconds between two ticks for an interval given in minutes, held at
/// the largest value that fits where the product does not.
pub open spec fn period_secs(minutes: u64) -> u64 {
    if minutes * 60 <= u64::MAX {
        (minutes * 60) as u64
    } else {
        u64::MAX
    }
}

/// The seconds between two ticks for an interval of `minutes`.
pub fn tick_period_secs(minutes: u64) -> (secs: u64)
    ensures
        secs == period_secs(minutes),
{
    if minutes > u64::MAX / 60 {
        u64::MAX
    } else {
        minutes * 60
    }
}

/// The longest wait between two ticks that is handed to a timer: thirty
/// years of 365 days.
pub const MAX_WAIT_SECS: u64 = 946_080_000;

/// The wait between two ticks that a timer is set to for a period of
/// `period` seconds: the period, but no less than one second and no more
/// than [`MAX_WAIT_SECS`]. So an interval of zero makes a loop that ticks
/// once a second, and an absurd one a loop that ticks once in thirty years.
pub open spec fn wait_secs(period: u64) -> u64 {
    if period < 1 {
        1
    } else if period > MAX_WAIT_SECS {
        MAX_WAIT_SECS
    } else {
        period
    }
}

/// What a loop works with: taken when the scheduler grants the start, and
/// fixed from then on.
#[derive(Debug, PartialEq, Eq)]
pub struct Schedule {
    /// The seconds between two ticks.
    pub period_secs: u64,
    /// The repository on which the runs are made.
    pub repo_path: String,
    /// Which grant this is: the number of starts granted up to and with it.
    pub epoch: u64,
}

/// The mathematical value of a [`Schedule`].
pub struct ScheduleView {
    pub period_secs: u64,
    pub repo_path: Seq<char>,
    pub epoch: nat,
}

impl View for Schedule {
    type V = ScheduleView;

    open spec fn view(&self) -> ScheduleView {
        ScheduleView {
            period_secs: self.period_secs,
            repo_path: self.repo_path@,
            epoch: self.epoch as nat,
        }
    }
}

/// The schedule that the grant numbered `epoch` takes from `config`.
pub open spec fn snapshot(config: ConfigView, epoch: nat) -> ScheduleView {
    ScheduleView {
        period_secs: period_secs(config.interval_minutes),
        repo_path: config.repo_path,
        epoch,
    }
}

/// The mathematical value of a [`Scheduler`], and of what a loop sees of it.
pub struct SchedulerView {
    /// Whether timed runs are on.
    pub state: RunState,
    /// The number of starts granted so far.
    pub epoch: nat,
}

/// The scheduler before any request.
pub open spec fn initial() -> SchedulerView {
    SchedulerView { state: RunState::Idle, epoch: 0 }
}

/// The scheduler after a request to start, and whether the request was
/// granted: an idle scheduler grants it and counts the grant, an active one
/// refuses and stays as it is.
pub open spec fn started(s: SchedulerView) -> (SchedulerView, bool) {
    match s.state {
        RunState::Idle => (SchedulerView { state: RunState::Active, epoch: s.epoch + 1 }, true),
        RunState::Active => (s, false),
    }
}

/// The scheduler after a request to stop.
pub open spec fn stopped(s: SchedulerView) -> SchedulerView {
    SchedulerView { state: RunState::Idle, epoch: s.epoch }
}

/// What a loop sees of the scheduler when it looks at it.
#[derive(Clone, Copy, Debug, PartialEq, Eq, Structural)]
pub struct Sighting {
    /// Whether timed runs are on.
    pub state: RunState,
    /// The number of starts granted so far.
    pub epoch: u64,
}

impl View for Sighting {
    type V = SchedulerView;

    open spec fn view(&self) -> SchedulerView {
        SchedulerView { state: self.state, epoch: self.epoch as nat }
    }
}

/// Holds the run state and counts the starts that it granted. Each grant
/// sets one loop going and gives it its number. A loop makes a run only
/// while the scheduler is active and the last grant is its own, so of all
/// the loops that were ever set going at most one makes runs.
#[derive(Debug)]
pub struct Scheduler {
    state: RunState,
    epoch: u64,
}

impl View for Scheduler {
    type V = SchedulerView;

    closed spec fn view(&self) -> SchedulerView {
        SchedulerView { state: self.state, epoch: self.epoch as nat }
    }
}

impl Scheduler {
    /// An idle scheduler that has granted no start.
    pub fn new() -> (scheduler: Scheduler)
        ensures
            scheduler@ == initial(),
    {
        Scheduler { state: RunState::Idle, epoch: 0 }
    }

    /// The run state.
    pub fn state(&self) -> (state: RunState)
        ensures
            state == self@.state,
    {
        self.state
    }

    /// The number of starts granted so far.
    pub fn epoch(&self) -> (epoch: u64)
        ensures
            epoch == self@.epoch,
    {
        self.epoch
    }

    /// Tells whether timed runs are on.
    pub fn is_active(&self) -> (active: bool)
        ensures
            active == (self@.state == RunState::Active),
    {
        match self.state {
            RunState::Active => true,
            RunState::Idle => false,
        }
    }

    /// What a loop sees of the scheduler now.
    pub fn observe(&self) -> (seen: Sighting)
        ensures
            seen@ == self@,
    {
        Sighting { state: self.state, epoch: self.epoch }
    }

    /// Turns timed runs on. An idle scheduler becomes active, counts the
    /// grant, and hands out the schedule for the one loop to set going. An
    /// active scheduler refuses and stays as it is.
    ///
    /// The count of grants must have room for one more.
    pub fn start(&mut self, config: &AppConfig) -> (granted: Result<Schedule, AppError>)
        requires
            old(self)@.state == RunState::Idle ==> old(self)@.epoch < u64::MAX,
        ensures
            final(self)@ == started(old(self)@).0,
            granted is Ok <==> started(old(self)@).1,
            old(self)@.state == RunState::Idle ==> granted is Ok && final(self)@.state
                == RunState::Active && final(self)@.epoch == old(self)@.epoch + 1
                && granted->Ok_0@ == snapshot(config@, final(self)@.epoch),
            old(self)@.state == RunState::Active ==> granted is Err && granted->Err_0@
                == already_running() && final(self)@ == old(self)@,
    {
        match self.state {
            RunState::Active => Err(AppError::already_running()),
            RunState::Idle => {
                self.state = RunState::Active;
                self.epoch = self.epoch + 1;
                Ok(
                    Schedule {
                        period_secs: tick_period_secs(config.interval_minutes),
                        repo_path: config.repo_path.clone(),
                        epoch: self.epoch,
                    },
                )
            },
        }
    }

    /// Turns timed runs off. The loop learns of it at its next tick, and
    /// ends there even if the scheduler has been started again by then. On
    /// an idle scheduler this changes nothing.
    pub fn stop(&mut self)
        ensures
            final(self)@ == stopped(old(self)@),
            old(self)@.state == RunState::Idle ==> final(self)@ == old(self)@,
    {
        self.state = RunState::Idle;
    }
}

/// What is made known of a timed run.
#[derive(Debug, PartialEq, Eq)]
pub enum Notification {
    /// A commit was made and published, under this message.
    Completed(String),
    /// The run failed, with this diagnostic text.
    Failed(String),
}

/// The mathematical value of a [`Notification`].
pub enum NotificationView {
    Completed(Seq<char>),
    Failed(Seq<char>),
}

impl View for Notification {
    type V = NotificationView;

    open spec fn view(&self) -> NotificationView {
        match self {
            Notification::Completed(message) => NotificationView::Completed(message@),
            Notification::Failed(text) => NotificationView::Failed(text@),
        }
    }
}

/// The name under which a completed commit is made known.
pub const COMPLETED_CHANNEL: &'static str = "commit-status";

/// The name under which a failed run is made known.
pub const FAILED_CHANNEL: &'static str = "commit-error";

impl Notification {
    /// The name under which this notification is made known.
    pub fn channel(&self) -> (name: &'static str)
        ensures
            name@ == match self@ {
                NotificationView::Completed(_) => COMPLETED_CHANNEL@,
                NotificationView::Failed(_) => FAILED_CHANNEL@,
            },
    {
        match self {
            Notification::Completed(_) => COMPLETED_CHANNEL,
            Notification::Failed(_) => FAILED_CHANNEL,
        }
    }

    /// The text that this notification carries.
    pub fn text(&self) -> (text: &str)
        ensures
            text@ == match self@ {
                NotificationView::Completed(message) => message,
                NotificationView::Failed(diagnostic) => diagnostic,
            },
    {
        match self {
            Notification::Completed(message) => message.as_str(),
            Notification::Failed(diagnostic) => diagnostic.as_str(),
        }
    }
}

/// What is made known of a run that ended with `result`: the message of a
/// commit, the text of a failure, and nothing of a run that found no changes.
pub open spec fn notification_for(result: Result<OutcomeView, ErrorView>) -> Option<
    NotificationView,
> {
    match result {
        Ok(OutcomeView::NoChanges) => None,
        Ok(OutcomeView::Committed(message)) => Some(NotificationView::Completed(message)),
        Err(error) => Some(NotificationView::Failed(error.message)),
    }
}

/// The value of an optional notification.
pub open spec fn notice_view(notice: Option<Notification>) -> Option<NotificationView> {
    match notice {
        Some(notification) => Some(notification@),
        None => None,
    }
}

/// What to make known of a run that ended with `result`.
pub fn notify(result: Result<CommitOutcome, AppError>) -> (notice: Option<Notification>)
    ensures
        notice_view(notice) == notification_for(result_view(result)),
{
    match result {
        Ok(CommitOutcome::NoChanges) => None,
        Ok(CommitOutcome::Committed(message)) => Some(Notification::Completed(message)),
        Err(error) => Some(Notification::Failed(error.message)),
    }
}

/// Where a loop stands.
#[derive(Clone, Copy, Debug, PartialEq, Eq, Structural)]
pub enum LoopPhase {
    /// Between two runs, waiting for the tick.
    Waiting,
    /// In a run, waiting for its result.
    Running,
    /// Ended.
    Exited,
}

/// What a loop does at a tick.
#[derive(Debug, PartialEq, Eq)]
pub enum TickAction {
    /// Make one run on the repository at this path.
    Run { repo_path: String },
    /// End.
    Exit,
}

/// The mathematical value of a [`TickAction`].
pub enum TickView {
    Run { repo_path: Seq<char> },
    Exit,
}

impl View for TickAction {
    type V = TickView;

    open spec fn view(&self) -> TickView {
        match self {
            TickAction::Run { repo_path } => TickView::Run { repo_path: repo_path@ },
            TickAction::Exit => TickView::Exit,
        }
    }
}

/// The mathematical value of a [`TimerLoop`].
pub struct LoopView {
    pub schedule: ScheduleView,
    pub phase: LoopPhase,
}

/// The periodic loop that a granted start sets going.
#[derive(Debug)]
pub struct TimerLoop {
    schedule: Schedule,
    phase: LoopPhase,
}

impl View for TimerLoop {
    type V = LoopView;

    closed spec fn view(&self) -> LoopView {
        LoopView { schedule: self.schedule@, phase: self.phase }
    }
}

/// A loop that has just been set going with `schedule`.
pub open spec fn fresh(schedule: ScheduleView) -> LoopView {
    LoopView { schedule, phase: LoopPhase::Waiting }
}

/// The loop `l` is the one that the scheduler last set going, and timed runs
/// are on.
pub open spec fn entitled(l: LoopView, found: SchedulerView) -> bool {
    found.state == RunState::Active && found.epoch == l.schedule.epoch
}

/// What a waiting loop becomes at a tick at which it finds the scheduler as
/// `found`, and what it does: a run where the scheduler is active and the
/// last grant is the loop's own; else it ends.
pub open spec fn at_tick(l: LoopView, found: SchedulerView) -> (LoopView, TickView)
    recommends
        l.phase == LoopPhase::Waiting,
{
    if entitled(l, found) {
        (
            LoopView { phase: LoopPhase::Running, ..l },
            TickView::Run { repo_path: l.schedule.repo_path },
        )
    } else {
        (LoopView { phase: LoopPhase::Exited, ..l }, TickView::Exit)
    }
}

/// What a loop in a run becomes when the run ends with `result`, and what it
/// makes known.
pub open spec fn at_result(l: LoopView, result: Result<OutcomeView, ErrorView>) -> (
    LoopView,
    Option<NotificationView>,
)
    recommends
        l.phase == LoopPhase::Running,
{
    (LoopView { phase: LoopPhase::Waiting, ..l }, notification_for(result))
}

impl TimerLoop {
    /// The loop for a granted start.
    pub fn new(schedule: Schedule) -> (timer: TimerLoop)
        ensures
            timer@ == fresh(schedule@),
    {
        TimerLoop { schedule, phase: LoopPhase::Waiting }
    }

    /// The seconds between two ticks of this loop, as the schedule has
    /// them. The timer is set to [`TimerLoop::wait_secs`].
    pub fn period_secs(&self) -> (secs: u64)
        ensures
            secs == self@.schedule.period_secs,
    {
        self.schedule.period_secs
    }

    /// The seconds to set the timer of this loop to: the period, kept
    /// within what a timer carries.
    pub fn wait_secs(&self) -> (secs: u64)
        ensures
            secs == wait_secs(self@.schedule.period_secs),
            1 <= secs <= MAX_WAIT_SECS,
    {
        let period = self.schedule.period_secs;
        if period < 1 {
            1
        } else if period > MAX_WAIT_SECS {
            MAX_WAIT_SECS
        } else {
            period
        }
    }

    /// Where the loop stands.
    pub fn phase(&self) -> (phase: LoopPhase)
        ensures
            phase == self@.phase,
    {
        self.phase
    }

    /// The number of the grant that set this loop going.
    pub fn epoch(&self) -> (epoch: u64)
        ensures
            epoch == self@.schedule.epoch,
    {
        self.schedule.epoch
    }

    /// Takes in a tick, at which the scheduler was found as `found`.
    pub fn on_tick(&mut self, found: Sighting) -> (action: TickAction)
        requires
            old(self)@.phase == LoopPhase::Waiting,
        ensures
            (final(self)@, action@) == at_tick(old(self)@, found@),
    {
        let active = match found.state {
            RunState::Active => true,
            RunState::Idle => false,
        };
        if active && found.epoch == self.schedule.epoch {
            self.phase = LoopPhase::Running;
            TickAction::Run { repo_path: self.schedule.repo_path.clone() }
        } else {
            self.phase = LoopPhase::Exited;
            TickAction::Exit
        }
    }

    /// Takes in the result of the run that the last tick began.
    pub fn on_result(&mut self, result: Result<CommitOutcome, AppError>) -> (notice: Option<
        Notification,
    >)
        requires
            old(self)@.phase == LoopPhase::Running,
        ensures
            (final(self)@, notice_view(notice)) == at_result(old(self)@, result_view(result)),
    {
        self.phase = LoopPhase::Waiting;
        notify(result)
    }
}

/// What happens to a loop: a tick, with the scheduler as it is found at it,
/// or the end of the run in progress.
pub enum LoopEvent {
    Tick(SchedulerView),
    Ended(Result<OutcomeView, ErrorView>),
}

/// What a loop does in answer to what happens to it.
pub enum LoopAnswer {
    Did(TickView),
    Told(Option<NotificationView>),
}

/// What a loop `l` does, one answer after the other, while `events` happen
/// to it in turn. A tick during a run, a result outside one, and anything
/// after the loop has ended are not taken in and end the sequence.
pub open spec fn course(l: LoopView, events: Seq<LoopEvent>) -> Seq<LoopAnswer>
    decreases events.len(),
{
    if events.len() == 0 {
        Seq::empty()
    } else {
        match (l.phase, events[0]) {
            (LoopPhase::Waiting, LoopEvent::Tick(found)) => seq![
                LoopAnswer::Did(at_tick(l, found).1),
            ] + course(at_tick(l, found).0, events.drop_first()),
            (LoopPhase::Running, LoopEvent::Ended(result)) => seq![
                LoopAnswer::Told(at_result(l, result).1),
            ] + course(at_result(l, result).0, events.drop_first()),
            _ => Seq::empty(),
        }
    }
}

/// What is asked of a scheduler.
pub enum Request {
    Start,
    Stop,
}

/// The scheduler `s` after `requests` were made of it in turn.
pub open spec fn after(s: SchedulerView, requests: Seq<Request>) -> SchedulerView
    decreases requests.len(),
{
    if requests.len() == 0 {
        s
    } else {
        after(
            match requests[0] {
                Request::Start => started(s).0,
                Request::Stop => stopped(s),
            },
            requests.drop_first(),
        )
    }
}

/// The scheduler `s` has left the grant numbered `epoch` behind: it is
/// idle, or it has granted a later start.
pub open spec fn past(s: SchedulerView, epoch: nat) -> bool {
    s.epoch >= epoch && (s.state == RunState::Idle || s.epoch > epoch)
}

/// A scheduler that has left a grant behind never comes back to it,
/// whatever is asked of it.
pub proof fn lemma_past_stays_past(s: SchedulerView, epoch: nat, requests: Seq<Request>)
    requires
        past(s, epoch),
    ensures
        past(after(s, requests), epoch),
    decreases requests.len(),
{
    if requests.len() > 0 {
        let next = match requests[0] {
            Request::Start => started(s).0,
            Request::Stop => stopped(s),
        };
        lemma_past_stays_past(next, epoch, requests.drop_first());
    }
}

/// The count of grants never goes down, and each start that is granted has
/// a number that no earlier grant has.
pub proof fn law_each_grant_has_a_new_number(s: SchedulerView, requests: Seq<Request>)
    ensures
        after(s, requests).epoch >= s.epoch,
        started(after(s, requests)).1 ==> started(after(s, requests)).0.epoch > s.epoch,
    decreases requests.len(),
{
    if requests.len() > 0 {
        let next = match requests[0] {
            Request::Start => started(s).0,
            Request::Stop => stopped(s),
        };
        law_each_grant_has_a_new_number(next, requests.drop_first());
    }
}

/// Of two loops that were set going by different grants, at most one makes
/// a run at a tick, however the scheduler is found: there is at most one
/// active periodic loop.
pub proof fn law_one_loop_runs(a: LoopView, b: LoopView, found: SchedulerView)
    requires
        a.schedule.epoch != b.schedule.epoch,
    ensures
        !(at_tick(a, found).1 is Run && at_tick(b, found).1 is Run),
{
}

/// A request to start made of an active scheduler is refused and changes
/// nothing: the loop that runs finds the scheduler as before at its next
/// tick and makes its run.
pub proof fn law_refused_start_changes_nothing(
    l: LoopView,
    s: SchedulerView,
    later: Seq<LoopEvent>,
)
    requires
        l.phase == LoopPhase::Waiting,
        entitled(l, s),
    ensures
        started(s) == (s, false),
        course(l, seq![LoopEvent::Tick(started(s).0)] + later).len() > 0,
        course(l, seq![LoopEvent::Tick(started(s).0)] + later)[0] == LoopAnswer::Did(
            TickView::Run { repo_path: l.schedule.repo_path },
        ),
{
    let events = seq![LoopEvent::Tick(started(s).0)] + later;
    assert(events[0] == LoopEvent::Tick(s));
}

/// A request to stop made of an idle scheduler changes nothing.
pub proof fn law_stop_of_idle_changes_nothing(s: SchedulerView)
    requires
        s.state == RunState::Idle,
    ensures
        stopped(s) == s,
{
}

/// A loop ends at the first tick after a stop, whether or not the scheduler
/// was started again, and however often it was started and stopped in
/// between: it makes no run at that tick.
pub proof fn law_stopped_loop_ends_at_its_next_tick(
    l: LoopView,
    s: SchedulerView,
    requests: Seq<Request>,
)
    requires
        l.schedule.epoch == s.epoch,
    ensures
        at_tick(l, after(stopped(s), requests)).1 == TickView::Exit,
        at_tick(l, after(stopped(s), requests)).0.phase == LoopPhase::Exited,
{
    lemma_past_stays_past(stopped(s), l.schedule.epoch, requests);
}

/// A stop during a run does not cut the run short. The loop takes in the
/// result of the run and makes it known. At the tick that follows it ends,
/// whatever was asked of the scheduler after the stop, a new start too, and
/// it begins no run then or later.
pub proof fn law_stop_takes_effect_at_the_next_tick(
    l: LoopView,
    s: SchedulerView,
    requests: Seq<Request>,
    result: Result<OutcomeView, ErrorView>,
    later: Seq<LoopEvent>,
)
    requires
        l.phase == LoopPhase::Running,
        l.schedule.epoch == s.epoch,
    ensures
        course(
            l,
            seq![LoopEvent::Ended(result), LoopEvent::Tick(after(stopped(s), requests))] + later,
        ) == seq![LoopAnswer::Told(notification_for(result)), LoopAnswer::Did(TickView::Exit)],
{
    let found = after(stopped(s), requests);
    let ended = LoopEvent::Ended(result);
    let tick = LoopEvent::Tick(found);
    let events = seq![ended, tick] + later;
    let waiting = at_result(l, result).0;
    let exited = at_tick(waiting, found).0;
    let rest = events.drop_first();
    assert(events[0] == ended && rest[0] == tick);
    law_stopped_loop_ends_at_its_next_tick(waiting, s, requests);
    assert(course(exited, rest.drop_first()) =~= Seq::<LoopAnswer>::empty());
    assert(course(waiting, rest) =~= seq![LoopAnswer::Did(TickView::Exit)] + course(
        exited,
        rest.drop_first(),
    ));
    assert(course(l, events) =~= seq![LoopAnswer::Told(notification_for(result))] + course(
        waiting,
        rest,
    ));
}

/// A loop that does not make a run at a tick ends, and does nothing from
/// then on.
pub proof fn law_a_tick_without_a_run_ends_the_loop(
    l: LoopView,
    found: SchedulerView,
    later: Seq<LoopEvent>,
)
    requires
        l.phase == LoopPhase::Waiting,
        !entitled(l, found),
    ensures
        course(l, seq![LoopEvent::Tick(found)] + later) == seq![LoopAnswer::Did(TickView::Exit)],
{
    let events = seq![LoopEvent::Tick(found)] + later;
    let exited = at_tick(l, found).0;
    assert(events[0] == LoopEvent::Tick(found));
    assert(course(exited, events.drop_first()) =~= Seq::<LoopAnswer>::empty());
    assert(course(l, events) =~= seq![LoopAnswer::Did(TickView::Exit)] + course(
        exited,
        events.drop_first(),
    ));
}

} // verus!
