//! The loop that drives the poll cycles, as a state machine. Whoever runs
//! the loop performs the action that a step asks for and reports what came
//! of it as the next event; the machine decides what happens next.

use vstd::prelude::*;
use vstd::string::*;
use crate::detect::{
    all_delivered, answers_view, cycle, delivered_at, detect, detected, lemma_detected_wf,
    Answers, Change, ChangeRecord,
};
use crate::monitored_set::{well_formed, Entries, MonitoredSet};
use crate::resolve::{failure_message, ResolutionError};

verus! {

/// Where the loop stands.
#[derive(Clone, Copy, Debug, PartialEq, Eq, Structural)]
pub enum Phase {
    /// The notification that monitoring has begun is due or on its way.
    Starting,
    /// The hosts are being resolved.
    Polling,
    /// The change notifications of this cycle are being sent.
    Notifying,
    /// The updated set is being stored.
    Persisting,
    /// The notification that this cycle failed is on its way.
    Reporting,
    /// The loop sleeps until the next cycle.
    Idle,
    /// The first notification did not go out: the loop has given up.
    Aborted,
    /// The loop was shut down.
    Stopped,
}

/// What the runner of the loop reports.
#[derive(Debug, PartialEq, Eq)]
pub enum Event {
    /// The loop is to begin.
    Begin,
    /// The notification that was asked for went out.
    Sent,
    /// The notification that was asked for did not go out.
    SendFailed(String),
    /// The hosts were looked up: what the resolver said of each, in the
    /// order of the set.
    Resolved(Vec<Result<String, ResolutionError>>),
    /// The set was stored.
    Persisted,
    /// The set could not be stored.
    PersistFailed(String),
    /// The sleep is over.
    Woke,
    /// The loop is to end.
    Shutdown,
}

/// An `Event` as contracts see it.
pub enum EventView {
    Begin,
    Sent,
    SendFailed(Seq<char>),
    Resolved(Answers),
    Persisted,
    PersistFailed(Seq<char>),
    Woke,
    Shutdown,
}

impl View for Event {
    type V = EventView;

    open spec fn view(&self) -> EventView {
        match self {
            Event::Begin => EventView::Begin,
            Event::Sent => EventView::Sent,
            Event::SendFailed(why) => EventView::SendFailed(why@),
            Event::Resolved(answers) => EventView::Resolved(answers_view(answers@)),
            Event::Persisted => EventView::Persisted,
            Event::PersistFailed(why) => EventView::PersistFailed(why@),
            Event::Woke => EventView::Woke,
            Event::Shutdown => EventView::Shutdown,
        }
    }
}

/// What the runner of the loop is to do next.
#[derive(Debug, PartialEq, Eq)]
pub enum Action {
    /// Send the notification that monitoring of the loop's set has begun.
    Announce,
    /// Look up every host of the loop's set.
    Resolve,
    /// Send the notification of this change.
    NotifyChange(ChangeRecord),
    /// Store the loop's set.
    Persist,
    /// Send the notification that the cycle failed for this reason, and
    /// report what came of it; if it does not go out either, that is all.
    ReportFailure(String),
    /// Sleep for this many seconds.
    Sleep(u64),
    /// Give up, for this reason.
    Abort(String),
    /// End the loop.
    Stop,
    /// Nothing: the event was not one that the loop waits for.
    Wait,
}

/// An `Action` as contracts see it.
pub enum ActionView {
    Announce,
    Resolve,
    NotifyChange(Change),
    Persist,
    ReportFailure(Seq<char>),
    Sleep(u64),
    Abort(Seq<char>),
    Stop,
    Wait,
}

impl View for Action {
    type V = ActionView;

    open spec fn view(&self) -> ActionView {
        match self {
            Action::Announce => ActionView::Announce,
            Action::Resolve => ActionView::Resolve,
            Action::NotifyChange(change) => ActionView::NotifyChange(change@),
            Action::Persist => ActionView::Persist,
            Action::ReportFailure(why) => ActionView::ReportFailure(why@),
            Action::Sleep(seconds) => ActionView::Sleep(*seconds),
            Action::Abort(why) => ActionView::Abort(why@),
            Action::Stop => ActionView::Stop,
            Action::Wait => ActionView::Wait,
        }
    }
}

/// The state of the loop.
pub struct LoopView {
    pub phase: Phase,
    /// The monitored set: the baseline of the next cycle.
    pub state: Entries,
    /// The set with the addresses resolved in this cycle; it becomes the
    /// monitored set once the change notifications have gone out.
    pub candidate: Entries,
    /// The changes found in this cycle.
    pub report: Seq<Change>,
    /// How many change notifications of this cycle have gone out.
    pub sent: nat,
    /// The seconds between two cycles.
    pub interval: u64,
}

/// `s` in another phase.
pub open spec fn in_phase(s: LoopView, phase: Phase) -> LoopView {
    LoopView {
        phase,
        state: s.state,
        candidate: s.candidate,
        report: s.report,
        sent: s.sent,
        interval: s.interval,
    }
}

/// The text that reports that a notification did not go out.
pub open spec fn send_failure(why: Seq<char>) -> Seq<char> {
    "Failed to send email: "@ + why
}

/// The text that reports that the first notification did not go out.
pub open spec fn start_failure(why: Seq<char>) -> Seq<char> {
    "Initialization error: "@ + why
}

/// The loop after the hosts were looked up. Where a host was not resolved
/// the failure is reported and the set stays. Where nothing changed the
/// set takes the resolved addresses and the loop sleeps. Else the first
/// change notification is due.
pub open spec fn polled(s: LoopView, answers: Answers) -> (LoopView, ActionView) {
    match detected(s.state, answers) {
        Err(failure) => (
            in_phase(s, Phase::Reporting),
            ActionView::ReportFailure(failure_message(failure)),
        ),
        Ok((set, report)) => if report.len() == 0 {
            (
                LoopView {
                    phase: Phase::Idle,
                    state: set,
                    candidate: s.candidate,
                    report: s.report,
                    sent: s.sent,
                    interval: s.interval,
                },
                ActionView::Sleep(s.interval),
            )
        } else {
            (
                LoopView {
                    phase: Phase::Notifying,
                    state: s.state,
                    candidate: set,
                    report,
                    sent: 0,
                    interval: s.interval,
                },
                ActionView::NotifyChange(report[0]),
            )
        },
    }
}

/// The loop after a change notification went out: the next one is due,
/// or, after the last, the set takes the resolved addresses and is to be
/// stored.
pub open spec fn notified(s: LoopView) -> (LoopView, ActionView) {
    if s.sent + 1 < s.report.len() {
        (
            LoopView {
                phase: Phase::Notifying,
                state: s.state,
                candidate: s.candidate,
                report: s.report,
                sent: s.sent + 1,
                interval: s.interval,
            },
            ActionView::NotifyChange(s.report[s.sent as int + 1]),
        )
    } else {
        (
            LoopView {
                phase: Phase::Persisting,
                state: s.candidate,
                candidate: s.candidate,
                report: s.report,
                sent: s.report.len(),
                interval: s.interval,
            },
            ActionView::Persist,
        )
    }
}

/// The loop after an event, and the action that is due.
pub open spec fn next(s: LoopView, e: EventView) -> (LoopView, ActionView) {
    match s.phase {
        Phase::Starting => match e {
            EventView::Begin => (s, ActionView::Announce),
            EventView::Sent => (in_phase(s, Phase::Polling), ActionView::Resolve),
            EventView::SendFailed(why) => (
                in_phase(s, Phase::Aborted),
                ActionView::Abort(start_failure(why)),
            ),
            _ => (s, ActionView::Wait),
        },
        Phase::Polling => match e {
            EventView::Resolved(answers) => polled(s, answers),
            _ => (s, ActionView::Wait),
        },
        Phase::Notifying => match e {
            EventView::Sent => notified(s),
            EventView::SendFailed(why) => (
                in_phase(s, Phase::Reporting),
                ActionView::ReportFailure(send_failure(why)),
            ),
            _ => (s, ActionView::Wait),
        },
        Phase::Persisting => match e {
            EventView::Persisted => (in_phase(s, Phase::Idle), ActionView::Sleep(s.interval)),
            EventView::PersistFailed(why) => (
                in_phase(s, Phase::Reporting),
                ActionView::ReportFailure(why),
            ),
            _ => (s, ActionView::Wait),
        },
        Phase::Reporting => match e {
            EventView::Sent => (in_phase(s, Phase::Idle), ActionView::Sleep(s.interval)),
            EventView::SendFailed(_) => (in_phase(s, Phase::Idle), ActionView::Sleep(s.interval)),
            _ => (s, ActionView::Wait),
        },
        Phase::Idle => match e {
            EventView::Woke => (in_phase(s, Phase::Polling), ActionView::Resolve),
            EventView::Shutdown => (in_phase(s, Phase::Stopped), ActionView::Persist),
            _ => (s, ActionView::Wait),
        },
        Phase::Aborted => (s, ActionView::Wait),
        Phase::Stopped => match e {
            EventView::Persisted => (s, ActionView::Stop),
            EventView::PersistFailed(_) => (s, ActionView::Stop),
            _ => (s, ActionView::Wait),
        },
    }
}

/// The sets of the loop are well formed, and while change notifications
/// are being sent there is one that has not gone out yet.
pub open spec fn loop_wf(s: LoopView) -> bool {
    &&& well_formed(s.state)
    &&& well_formed(s.candidate)
    &&& s.phase == Phase::Notifying ==> s.sent < s.report.len()
}

/// The loop that monitors a set.
pub struct MonitorLoop {
    phase: Phase,
    state: MonitoredSet,
    candidate: MonitoredSet,
    report: Vec<ChangeRecord>,
    sent: usize,
    interval: u64,
}

impl View for MonitorLoop {
    type V = LoopView;

    closed spec fn view(&self) -> LoopView {
        LoopView {
            phase: self.phase,
            state: self.state@,
            candidate: self.candidate@,
            report: self.report@.map_values(|c: ChangeRecord| c@),
            sent: self.sent as nat,
            interval: self.interval,
        }
    }
}

impl MonitorLoop {
    /// The loop keeps its invariant.
    pub open spec fn wf(&self) -> bool {
        loop_wf(self@)
    }

    /// A loop that is to monitor `state`, with `interval` seconds between
    /// two cycles.
    pub fn new(state: MonitoredSet, interval: u64) -> (r: Self)
        requires
            state.wf(),
        ensures
            r.wf(),
            r@ == (LoopView {
                phase: Phase::Starting,
                state: state@,
                candidate: Seq::empty(),
                report: Seq::empty(),
                sent: 0,
                interval,
            }),
    {
        let r = MonitorLoop {
            phase: Phase::Starting,
            state,
            candidate: MonitoredSet::new(),
            report: Vec::new(),
            sent: 0,
            interval,
        };
        assert(r.report@.map_values(|c: ChangeRecord| c@) =~= Seq::<Change>::empty());
        r
    }

    /// Where the loop stands.
    pub fn phase(&self) -> (r: Phase)
        ensures
            r == self@.phase,
    {
        self.phase
    }

    /// The monitored set.
    pub fn state(&self) -> (r: &MonitoredSet)
        requires
            self.wf(),
        ensures
            r@ == self@.state,
            r.wf(),
    {
        &self.state
    }

    /// The seconds between two cycles.
    pub fn interval(&self) -> (r: u64)
        ensures
            r == self@.interval,
    {
        self.interval
    }

    fn poll(&mut self, answers: &Vec<Result<String, ResolutionError>>) -> (a: Action)
        requires
            old(self).wf(),
            old(self)@.phase == Phase::Polling,
        ensures
            final(self).wf(),
            (final(self)@, a@) == polled(old(self)@, answers_view(answers@)),
    {
        match detect(&self.state, answers) {
            Err(e) => {
                self.phase = Phase::Reporting;
                Action::ReportFailure(e.message())
            },
            Ok((set, report)) => {
                if report.changes.len() == 0 {
                    self.state = set;
                    self.phase = Phase::Idle;
                    Action::Sleep(self.interval)
                } else {
                    let first = report.changes[0].clone();
                    assert(report@[0] == report.changes@[0]@);
                    self.candidate = set;
                    self.report = report.changes;
                    self.sent = 0;
                    self.phase = Phase::Notifying;
                    Action::NotifyChange(first)
                }
            },
        }
    }

    fn notify_next(&mut self) -> (a: Action)
        requires
            old(self).wf(),
            old(self)@.phase == Phase::Notifying,
        ensures
            final(self).wf(),
            (final(self)@, a@) == notified(old(self)@),
    {
        let n: usize = self.report.len();
        assert(self@.report.len() == n);
        if self.sent + 1 < n {
            self.sent = self.sent + 1;
            let change = self.report[self.sent].clone();
            assert(self@.report[self.sent as int] == self.report@[self.sent as int]@);
            Action::NotifyChange(change)
        } else {
            self.state = self.candidate.clone();
            self.sent = self.report.len();
            self.phase = Phase::Persisting;
            Action::Persist
        }
    }

    /// Takes an event and says what is to be done next.
    pub fn step(&mut self, event: Event) -> (a: Action)
        requires
            old(self).wf(),
        ensures
            final(self).wf(),
            (final(self)@, a@) == next(old(self)@, event@),
    {
        match self.phase {
            Phase::Starting => match event {
                Event::Begin => Action::Announce,
                Event::Sent => {
                    self.phase = Phase::Polling;
                    Action::Resolve
                },
                Event::SendFailed(why) => {
                    self.phase = Phase::Aborted;
                    let mut text = "Initialization error: ".to_string();
                    text.append(why.as_str());
                    Action::Abort(text)
                },
                _ => Action::Wait,
            },
            Phase::Polling => match event {
                Event::Resolved(answers) => self.poll(&answers),
                _ => Action::Wait,
            },
            Phase::Notifying => match event {
                Event::Sent => self.notify_next(),
                Event::SendFailed(why) => {
                    self.phase = Phase::Reporting;
                    let mut text = "Failed to send email: ".to_string();
                    text.append(why.as_str());
                    Action::ReportFailure(text)
                },
                _ => Action::Wait,
            },
            Phase::Persisting => match event {
                Event::Persisted => {
                    self.phase = Phase::Idle;
                    Action::Sleep(self.interval)
                },
                Event::PersistFailed(why) => {
                    self.phase = Phase::Reporting;
                    Action::ReportFailure(why)
                },
                _ => Action::Wait,
            },
            Phase::Reporting => match event {
                Event::Sent => {
                    self.phase = Phase::Idle;
                    Action::Sleep(self.interval)
                },
                Event::SendFailed(_) => {
                    self.phase = Phase::Idle;
                    Action::Sleep(self.interval)
                },
                _ => Action::Wait,
            },
            Phase::Idle => match event {
                Event::Woke => {
                    self.phase = Phase::Polling;
                    Action::Resolve
                },
                Event::Shutdown => {
                    self.phase = Phase::Stopped;
                    Action::Persist
                },
                _ => Action::Wait,
            },
            Phase::Aborted => Action::Wait,
            Phase::Stopped => match event {
                Event::Persisted => Action::Stop,
                Event::PersistFailed(_) => Action::Stop,
                _ => Action::Wait,
            },
        }
    }
}

/// The loop gives up only at its start, when the first notification does
/// not go out: no failure of a cycle ends it.
pub proof fn law_only_the_start_aborts(s: LoopView, e: EventView)
    requires
        next(s, e).0.phase == Phase::Aborted,
    ensures
        s.phase == Phase::Aborted || (s.phase == Phase::Starting && e is SendFailed),
{
}

/// Within a cycle the set is stored only after the last change
/// notification has gone out, and it is stored with the addresses
/// resolved in that cycle.
pub proof fn law_stored_after_notified(s: LoopView, e: EventView)
    requires
        loop_wf(s),
        s.phase != Phase::Idle,
        next(s, e).1 is Persist,
    ensures
        s.phase == Phase::Notifying,
        e is Sent,
        s.sent + 1 == s.report.len(),
        next(s, e).0.state == s.candidate,
{
}

/// A cycle that fails leaves the monitored set as it was, so that the
/// next cycle finds the same changes again.
pub proof fn law_failed_cycle_keeps_the_set(s: LoopView, e: EventView)
    requires
        s.phase == Phase::Polling || s.phase == Phase::Notifying,
        next(s, e).0.phase == Phase::Reporting,
    ensures
        next(s, e).0.state == s.state,
{
}

/// What the runner reports of the change notification with the number
/// `i`: that it went out, or that it did not.
pub open spec fn delivery_event(delivered: Seq<bool>, i: int) -> EventView {
    if delivered_at(delivered, i) {
        EventView::Sent
    } else {
        EventView::SendFailed(Seq::empty())
    }
}

/// The loop after the runner has reported on the first `k` change
/// notifications of a cycle. Reports that come when no notification is on
/// its way are passed over.
pub open spec fn after_deliveries(s: LoopView, delivered: Seq<bool>, k: nat) -> LoopView
    decreases k,
{
    if k == 0 {
        s
    } else {
        let before = after_deliveries(s, delivered, (k - 1) as nat);
        if before.phase == Phase::Notifying {
            next(before, delivery_event(delivered, k - 1)).0
        } else {
            before
        }
    }
}

/// The loop after one cycle: the hosts were looked up, and the runner
/// has reported on every change notification.
pub open spec fn after_cycle(s: LoopView, answers: Answers, delivered: Seq<bool>) -> LoopView {
    let polled = next(s, EventView::Resolved(answers)).0;
    match detected(s.state, answers) {
        Ok((_, report)) => after_deliveries(polled, delivered, report.len()),
        Err(_) => polled,
    }
}

/// One of the first `k` change notifications did not go out.
pub open spec fn some_undelivered(delivered: Seq<bool>, k: int) -> bool {
    exists|j: int| 0 <= j < k && !#[trigger] delivered_at(delivered, j)
}

proof fn lemma_deliveries(s: LoopView, delivered: Seq<bool>, k: nat)
    requires
        s.phase == Phase::Notifying,
        s.sent == 0,
        s.report.len() > 0,
        k <= s.report.len(),
    ensures
        ({
            let end = after_deliveries(s, delivered, k);
            if some_undelivered(delivered, k as int) {
                end.phase == Phase::Reporting && end.state == s.state
            } else if k < s.report.len() {
                end == (LoopView {
                    phase: Phase::Notifying,
                    state: s.state,
                    candidate: s.candidate,
                    report: s.report,
                    sent: k,
                    interval: s.interval,
                })
            } else {
                end.phase == Phase::Persisting && end.state == s.candidate
            }
        }),
    decreases k,
{
    if k > 0 {
        lemma_deliveries(s, delivered, (k - 1) as nat);
        let before = after_deliveries(s, delivered, (k - 1) as nat);
        if some_undelivered(delivered, k - 1) {
            let j = choose|j: int| 0 <= j < k - 1 && !#[trigger] delivered_at(delivered, j);
            assert(0 <= j < k && !delivered_at(delivered, j));
        } else if !delivered_at(delivered, k - 1) {
            assert(0 <= k - 1 < k && !delivered_at(delivered, k - 1));
        } else {
            if some_undelivered(delivered, k as int) {
                let j = choose|j: int| 0 <= j < k && !#[trigger] delivered_at(delivered, j);
                assert(0 <= j < k - 1);
                assert(some_undelivered(delivered, k - 1));
            }
        }
    }
}

/// Run through the loop, a cycle comes to what `cycle` says of it: where
/// every host was resolved and every change notification went out, the
/// loop holds the set with the addresses resolved now, and is about to
/// store it or, where nothing changed, to sleep; else it holds the set it
/// held before, and is about to report the failure.
pub proof fn law_loop_runs_the_cycle(s: LoopView, answers: Answers, delivered: Seq<bool>)
    requires
        loop_wf(s),
        s.phase == Phase::Polling,
    ensures
        match cycle(s.state, answers, delivered) {
            Ok((set, report)) => {
                &&& after_cycle(s, answers, delivered).state == set
                &&& after_cycle(s, answers, delivered).phase == if report.len() == 0 {
                    Phase::Idle
                } else {
                    Phase::Persisting
                }
            },
            Err(_) => {
                &&& after_cycle(s, answers, delivered).state == s.state
                &&& after_cycle(s, answers, delivered).phase == Phase::Reporting
            },
        },
{
    match detected(s.state, answers) {
        Err(_) => {},
        Ok((set, report)) => {
            let polled = next(s, EventView::Resolved(answers)).0;
            if report.len() == 0 {
                assert(after_deliveries(polled, delivered, 0) == polled);
            } else {
                lemma_deliveries(polled, delivered, report.len());
                if some_undelivered(delivered, report.len() as int) {
                    let j = choose|j: int|
                        0 <= j < report.len() && !#[trigger] delivered_at(delivered, j);
                    assert(!all_delivered(report, delivered));
                } else {
                    assert forall|j: int| 0 <= j < report.len() implies delivered_at(
                        delivered,
                        j,
                    ) by {
                        if !delivered_at(delivered, j) {
                            assert(some_undelivered(delivered, report.len() as int));
                        }
                    }
                }
            }
        },
    }
}

/// Whatever happens, the sets of the loop stay well formed.
pub proof fn law_loop_stays_well_formed(s: LoopView, e: EventView)
    requires
        loop_wf(s),
    ensures
        loop_wf(next(s, e).0),
{
    match s.phase {
        Phase::Polling => match e {
            EventView::Resolved(answers) => {
                lemma_detected_wf(s.state, answers);
            },
            _ => {},
        },
        _ => {},
    }
}

} // verus!
