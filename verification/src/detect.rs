//! Change detection: one pass over the monitored hosts that compares the
//! address each host resolves to now with the address remembered for it.

use vstd::prelude::*;
use vstd::string::*;
use crate::monitored_set::{lemma_index_of, lookup, well_formed, Entries, MonitoredSet};
use crate::resolve::{outcome_view, Failure, ResolutionError};
use crate::text::{eq_ignore_ascii_case, same_ignoring_case};

verus! {

/// One host whose address changed.
#[derive(Debug, PartialEq, Eq)]
pub struct ChangeRecord {
    pub name: String,
    pub old_address: String,
    pub new_address: String,
}

/// A `ChangeRecord` as contracts see it.
pub struct Change {
    pub name: Seq<char>,
    pub old_address: Seq<char>,
    pub new_address: Seq<char>,
}

impl View for ChangeRecord {
    type V = Change;

    open spec fn view(&self) -> Change {
        Change {
            name: self.name@,
            old_address: self.old_address@,
            new_address: self.new_address@,
        }
    }
}

impl Clone for ChangeRecord {
    fn clone(&self) -> (r: Self)
        ensures
            r@ == self@,
    {
        ChangeRecord {
            name: self.name.clone(),
            old_address: self.old_address.clone(),
            new_address: self.new_address.clone(),
        }
    }
}

/// The hosts whose address changed in one pass, in the order of the
/// monitored set.
#[derive(Debug, PartialEq, Eq)]
pub struct ChangeReport {
    pub changes: Vec<ChangeRecord>,
}

impl View for ChangeReport {
    type V = Seq<Change>;

    open spec fn view(&self) -> Seq<Change> {
        self.changes@.map_values(|c: ChangeRecord| c@)
    }
}

impl ChangeReport {
    /// The number of hosts whose address changed.
    pub fn count(&self) -> (n: usize)
        ensures
            n == self@.len(),
    {
        self.changes.len()
    }
}

/// What the resolver said of each host, in the order of the monitored set.
pub type Answers = Seq<Result<Seq<char>, Failure>>;

/// The answers of a resolver as contracts see them.
pub open spec fn answers_view(answers: Seq<Result<String, ResolutionError>>) -> Answers {
    answers.map_values(|a: Result<String, ResolutionError>| outcome_view(a))
}

/// The host at position `i` was resolved: there is an answer for it, and
/// the answer is an address.
pub open spec fn answered(answers: Answers, i: int) -> bool {
    &&& 0 <= i < answers.len()
    &&& answers[i] is Ok
    &&& answers[i]->Ok_0.len() > 0
}

/// Every host of `current` was resolved.
pub open spec fn all_answered(current: Entries, answers: Answers) -> bool {
    forall|i: int| 0 <= i < current.len() ==> answered(answers, i)
}

/// The position of the first host of `current` that was not resolved.
pub open spec fn first_unanswered(current: Entries, answers: Answers) -> int {
    choose|i: int|
        0 <= i < current.len() && !answered(answers, i) && forall|j: int|
            0 <= j < i ==> answered(answers, j)
}

/// Why the host at position `i` was not resolved: the resolver's own
/// failure where it reported one, no address where it gave an empty one,
/// and a failed lookup where it gave no answer at all.
pub open spec fn failure_at(current: Entries, answers: Answers, i: int) -> Failure {
    if i < answers.len() {
        match answers[i] {
            Err(failure) => failure,
            Ok(_) => Failure::NoAddress(current[i].0),
        }
    } else {
        Failure::LookupFailed(current[i].0)
    }
}

/// `current` with every address replaced by the one resolved now.
pub open spec fn refreshed(current: Entries, answers: Answers) -> Entries {
    Seq::new(current.len(), |i: int| (current[i].0, answers[i]->Ok_0))
}

/// The address of the host at position `i` is no longer the remembered
/// one. The case of ASCII letters makes no difference.
pub open spec fn changed(current: Entries, answers: Answers, i: int) -> bool {
    !same_ignoring_case(answers[i]->Ok_0, current[i].1)
}

/// The record of the change of the host at position `i`.
pub open spec fn change_at(current: Entries, answers: Answers, i: int) -> Change {
    Change { name: current[i].0, old_address: current[i].1, new_address: answers[i]->Ok_0 }
}

/// The changes among the first `k` hosts of `current`, in order.
pub open spec fn changes(current: Entries, answers: Answers, k: nat) -> Seq<Change>
    decreases k,
{
    if k == 0 {
        Seq::empty()
    } else if changed(current, answers, k - 1) {
        changes(current, answers, (k - 1) as nat).push(change_at(current, answers, k - 1))
    } else {
        changes(current, answers, (k - 1) as nat)
    }
}

/// What one pass over `current` comes to. Where every host was resolved:
/// the set with the addresses resolved now, and the changes. Else the
/// failure of the first host that was not resolved.
pub open spec fn detected(current: Entries, answers: Answers) -> Result<
    (Entries, Seq<Change>),
    Failure,
> {
    if all_answered(current, answers) {
        Ok((refreshed(current, answers), changes(current, answers, current.len())))
    } else {
        Err(failure_at(current, answers, first_unanswered(current, answers)))
    }
}

/// One pass of change detection over `current`. `answers` holds what the
/// resolver said of each host, in the order of the set; a host without an
/// answer counts as a failed lookup. Where a single host was not resolved
/// the pass fails and nothing is updated.
pub fn detect(current: &MonitoredSet, answers: &Vec<Result<String, ResolutionError>>) -> (r: Result<
    (MonitoredSet, ChangeReport),
    ResolutionError,
>)
    requires
        current.wf(),
    ensures
        match r {
            Ok((set, report)) => set.wf() && detected(current@, answers_view(answers@)) == Ok::<
                (Entries, Seq<Change>),
                Failure,
            >((set@, report@)),
            Err(e) => detected(current@, answers_view(answers@)) == Err::<
                (Entries, Seq<Change>),
                Failure,
            >(e@),
        },
{
    let ghost all = answers_view(answers@);
    let mut set = current.clone();
    let mut found: Vec<ChangeRecord> = Vec::new();
    let mut i: usize = 0;
    while i < current.len()
        invariant
            current.wf(),
            set.wf(),
            all == answers_view(answers@),
            i <= current@.len(),
            set@.len() == current@.len(),
            forall|j: int| 0 <= j < i ==> answered(all, j),
            forall|j: int| 0 <= j < i ==> #[trigger] set@[j] == (current@[j].0, all[j]->Ok_0),
            forall|j: int| i <= j < current@.len() ==> #[trigger] set@[j] == current@[j],
            found@.map_values(|c: ChangeRecord| c@) == changes(current@, all, i as nat),
        decreases current@.len() - i,
    {
        let host = current.name_at(i);
        if i >= answers.len() {
            proof {
                lemma_first_unanswered(current@, all, i as int);
            }
            return Err(ResolutionError::LookupFailed(host.clone()));
        }
        assert(all[i as int] == outcome_view(answers@[i as int]));
        match &answers[i] {
            Err(e) => {
                proof {
                    lemma_first_unanswered(current@, all, i as int);
                }
                return Err(e.clone());
            },
            Ok(address) => {
                if address.as_str().is_empty() {
                    proof {
                        lemma_first_unanswered(current@, all, i as int);
                    }
                    return Err(ResolutionError::NoAddress(host.clone()));
                }
                let remembered = current.address_at(i);
                if !eq_ignore_ascii_case(address.as_str(), remembered.as_str()) {
                    found.push(
                        ChangeRecord {
                            name: host.clone(),
                            old_address: remembered.clone(),
                            new_address: address.clone(),
                        },
                    );
                    assert(found@.map_values(|c: ChangeRecord| c@) =~= changes(
                        current@,
                        all,
                        i as nat,
                    ).push(change_at(current@, all, i as int)));
                }
                set.set_address(i, address.clone());
            },
        }
        i += 1;
    }
    assert(set@ =~= refreshed(current@, all));
    Ok((set, ChangeReport { changes: found }))
}

/// Why a poll cycle failed.
#[derive(Debug, PartialEq, Eq)]
pub enum MonitorError {
    /// A host was not resolved.
    Resolution(ResolutionError),
    /// The notification of the change of the named host did not go out.
    NotDelivered(String),
}

/// A `MonitorError` as contracts see it.
pub enum CycleFailure {
    Resolution(Failure),
    NotDelivered(Seq<char>),
}

impl View for MonitorError {
    type V = CycleFailure;

    open spec fn view(&self) -> CycleFailure {
        match self {
            MonitorError::Resolution(e) => CycleFailure::Resolution(e@),
            MonitorError::NotDelivered(name) => CycleFailure::NotDelivered(name@),
        }
    }
}

/// The text that reports `failure`.
pub open spec fn cycle_failure_message(failure: CycleFailure) -> Seq<char> {
    match failure {
        CycleFailure::Resolution(f) => crate::resolve::failure_message(f),
        CycleFailure::NotDelivered(name) => "Failed to send email about "@ + name,
    }
}

impl MonitorError {
    /// The text that reports the error.
    pub fn message(&self) -> (r: String)
        ensures
            r@ == cycle_failure_message(self@),
    {
        match self {
            MonitorError::Resolution(e) => e.message(),
            MonitorError::NotDelivered(name) => {
                let mut r = "Failed to send email about ".to_string();
                r.append(name.as_str());
                r
            },
        }
    }
}

/// The notification of the change with the number `i` went out. A change
/// of which nothing is said counts as not delivered.
pub open spec fn delivered_at(delivered: Seq<bool>, i: int) -> bool {
    0 <= i < delivered.len() && delivered[i]
}

/// The notification of every change in `report` went out.
pub open spec fn all_delivered(report: Seq<Change>, delivered: Seq<bool>) -> bool {
    forall|i: int| 0 <= i < report.len() ==> delivered_at(delivered, i)
}

/// The number of the first change in `report` whose notification did not
/// go out.
pub open spec fn first_undelivered(report: Seq<Change>, delivered: Seq<bool>) -> int {
    choose|i: int|
        0 <= i < report.len() && !delivered_at(delivered, i) && forall|j: int|
            0 <= j < i ==> delivered_at(delivered, j)
}

/// What one poll cycle comes to. The hosts are resolved; where that fails
/// the cycle fails. The change notifications are sent in order; where one
/// does not go out the cycle fails, and the set stays as it was, so that
/// the next cycle finds the same changes again. Else the set takes the
/// addresses resolved now.
pub open spec fn cycle(state: Entries, answers: Answers, delivered: Seq<bool>) -> Result<
    (Entries, Seq<Change>),
    CycleFailure,
> {
    match detected(state, answers) {
        Err(failure) => Err(CycleFailure::Resolution(failure)),
        Ok((set, report)) => if all_delivered(report, delivered) {
            Ok((set, report))
        } else {
            Err(CycleFailure::NotDelivered(report[first_undelivered(report, delivered)].name))
        },
    }
}

/// Runs one poll cycle on `state`. `answers` holds what the resolver said
/// of each host, in the order of the set, and `delivered` what the
/// transport said of each change notification, in the order of the
/// report. The set is updated only where every host was resolved and
/// every notification went out.
pub fn monitor_state(
    state: &mut MonitoredSet,
    answers: &Vec<Result<String, ResolutionError>>,
    delivered: &Vec<bool>,
) -> (r: Result<ChangeReport, MonitorError>)
    requires
        old(state).wf(),
    ensures
        final(state).wf(),
        match r {
            Ok(report) => cycle(old(state)@, answers_view(answers@), delivered@) == Ok::<
                (Entries, Seq<Change>),
                CycleFailure,
            >((final(state)@, report@)),
            Err(e) => cycle(old(state)@, answers_view(answers@), delivered@) == Err::<
                (Entries, Seq<Change>),
                CycleFailure,
            >(e@) && final(state)@ == old(state)@,
        },
{
    match detect(state, answers) {
        Err(e) => Err(MonitorError::Resolution(e)),
        Ok((set, report)) => {
            let mut i: usize = 0;
            while i < report.changes.len()
                invariant
                    i <= report@.len(),
                    report@.len() == report.changes@.len(),
                    *state == *old(state),
                    state.wf(),
                    set.wf(),
                    detected(state@, answers_view(answers@)) == Ok::<
                        (Entries, Seq<Change>),
                        Failure,
                    >((set@, report@)),
                    forall|j: int| 0 <= j < i ==> delivered_at(delivered@, j),
                decreases report.changes.len() - i,
            {
                if i >= delivered.len() || !delivered[i] {
                    proof {
                        let k = first_undelivered(report@, delivered@);
                        assert(!delivered_at(delivered@, i as int));
                        assert(!all_delivered(report@, delivered@));
                        assert(0 <= k < report@.len() && !delivered_at(delivered@, k)
                            && forall|j: int| 0 <= j < k ==> delivered_at(delivered@, j));
                        if k < i {
                            assert(delivered_at(delivered@, k));
                        } else if i < k {
                            assert(delivered_at(delivered@, i as int));
                        }
                        assert(report@[i as int] == report.changes@[i as int]@);
                    }
                    return Err(MonitorError::NotDelivered(report.changes[i].name.clone()));
                }
                i += 1;
            }
            *state = set;
            Ok(report)
        },
    }
}

/// The records of `report` that speak of the host `name`, in order.
pub open spec fn records_of(report: Seq<Change>, name: Seq<char>) -> Seq<Change> {
    report.filter(speaks_of(name))
}

/// The test whether a record speaks of the host `name`.
pub open spec fn speaks_of(name: Seq<char>) -> spec_fn(Change) -> bool {
    |c: Change| c.name == name
}

/// Once a pass has succeeded, a second pass that gets the same answers
/// succeeds too, reports no change and leaves the set as the first pass
/// returned it.
pub proof fn law_second_pass_reports_nothing(current: Entries, answers: Answers)
    requires
        well_formed(current),
        all_answered(current, answers),
    ensures
        detected(current, answers) is Ok,
        detected(refreshed(current, answers), answers) == Ok::<(Entries, Seq<Change>), Failure>(
            (refreshed(current, answers), Seq::empty()),
        ),
{
    let first = refreshed(current, answers);
    assert(all_answered(first, answers)) by {
        assert forall|i: int| 0 <= i < first.len() implies answered(answers, i) by {
            assert(0 <= i < current.len());
        }
    }
    assert(refreshed(first, answers) =~= first);
    lemma_no_change(current, answers, first.len());
}

proof fn lemma_no_change(current: Entries, answers: Answers, k: nat)
    requires
        k <= current.len(),
    ensures
        changes(refreshed(current, answers), answers, k) == Seq::<Change>::empty(),
    decreases k,
{
    if k > 0 {
        lemma_no_change(current, answers, (k - 1) as nat);
        let first = refreshed(current, answers);
        assert(first[k - 1].1 == answers[k - 1]->Ok_0);
        assert(!changed(first, answers, k - 1));
    }
}

/// A host that is resolved at an address other than the remembered one is
/// reported exactly once, with the remembered address as the old one and
/// the resolved address as the new one, and the returned set remembers the
/// resolved address for it.
pub proof fn law_changed_host_is_reported_once(current: Entries, answers: Answers, i: int)
    requires
        well_formed(current),
        all_answered(current, answers),
        0 <= i < current.len(),
        !same_ignoring_case(answers[i]->Ok_0, current[i].1),
    ensures
        detected(current, answers) is Ok,
        records_of(detected(current, answers)->Ok_0.1, current[i].0) == seq![
            Change {
                name: current[i].0,
                old_address: current[i].1,
                new_address: answers[i]->Ok_0,
            },
        ],
        lookup(detected(current, answers)->Ok_0.0, current[i].0) == Some(answers[i]->Ok_0),
{
    lemma_records_of(current, answers, i, current.len());
    let now = refreshed(current, answers);
    lemma_detected_wf(current, answers);
    lemma_index_of(now, i);
}

proof fn lemma_records_of(current: Entries, answers: Answers, i: int, k: nat)
    requires
        well_formed(current),
        0 <= i < current.len(),
        k <= current.len(),
    ensures
        records_of(changes(current, answers, k), current[i].0) == if i < k && changed(
            current,
            answers,
            i,
        ) {
            seq![change_at(current, answers, i)]
        } else {
            Seq::<Change>::empty()
        },
    decreases k,
{
    let name = current[i].0;
    let of_host = speaks_of(name);
    if k > 0 {
        lemma_records_of(current, answers, i, (k - 1) as nat);
        let before = changes(current, answers, (k - 1) as nat);
        if changed(current, answers, k - 1) {
            let added = change_at(current, answers, k - 1);
            before.lemma_filter_push(added, of_host);
            if k - 1 < i {
                assert(current[k - 1].0 != current[i].0);
            } else if i < k - 1 {
                assert(current[i].0 != current[k - 1].0);
            } else {
                assert(Seq::<Change>::empty().push(added) =~= seq![added]);
            }
        }
    } else {
        Seq::<Change>::empty().lemma_filter_len(of_host);
        assert(changes(current, answers, 0).filter(of_host) =~= Seq::<Change>::empty());
    }
}

/// A pass that succeeds gives a well-formed set.
pub proof fn lemma_detected_wf(current: Entries, answers: Answers)
    requires
        well_formed(current),
    ensures
        detected(current, answers) is Ok ==> well_formed(detected(current, answers)->Ok_0.0),
{
    if all_answered(current, answers) {
        let now = refreshed(current, answers);
        assert forall|a: int, b: int| 0 <= a < b < now.len() implies (#[trigger] now[a]).0 != (
        #[trigger] now[b]).0 by {
            assert(current[a].0 != current[b].0);
        }
        assert forall|a: int| 0 <= a < now.len() implies (#[trigger] now[a]).0.len() > 0
            && now[a].1.len() > 0 by {
            assert(current[a].0.len() > 0);
            assert(answered(answers, a));
        }
    }
}

/// The position `i` is that of the first host that was not resolved when
/// the host there was not resolved and every host before it was.
pub proof fn lemma_first_unanswered(current: Entries, answers: Answers, i: int)
    requires
        0 <= i < current.len(),
        !answered(answers, i),
        forall|j: int| 0 <= j < i ==> answered(answers, j),
    ensures
        !all_answered(current, answers),
        first_unanswered(current, answers) == i,
{
    let k = first_unanswered(current, answers);
    assert(0 <= k < current.len() && !answered(answers, k) && forall|j: int|
        0 <= j < k ==> answered(answers, j));
    if k < i {
        assert(answered(answers, k));
    } else if i < k {
        assert(answered(answers, i));
    }
}

} // verus!
