//! Merging an operator's edits into the set of monitored hosts.
//!
//! An edit session walks the hosts of the old set in order. For each line the
//! operator enters, the host under the cursor is offered as the suggestion,
//! and the line keeps it, removes it, replaces it, adds a host or ends the
//! session. The session builds a new set and never touches the old one.

use vstd::prelude::*;
use vstd::string::*;
use crate::monitored_set::{
    has_name, index_of, lemma_index_of, lemma_put, put, well_formed, Entries, MonitoredSet,
};
use crate::text::{
    digits_of, is_blank, lemma_trimmed_unchanged, lines_of, texts_of, to_decimal, trim, trimmed,
};

verus! {

/// What one line of operator input asks for.
#[derive(Debug, PartialEq, Eq)]
pub enum EditDirective {
    /// A blank line: the suggested host stays as it is.
    Keep,
    /// The removal marker `-`: the suggested host is dropped.
    Remove,
    /// The end marker `.`: the session is over.
    Terminate,
    /// Any other text: the name of a host to monitor.
    SetOrAdd(String),
}

/// An `EditDirective` as contracts see it.
pub enum Edit {
    Keep,
    Remove,
    Terminate,
    SetOrAdd(Seq<char>),
}

impl View for EditDirective {
    type V = Edit;

    open spec fn view(&self) -> Edit {
        match self {
            EditDirective::Keep => Edit::Keep,
            EditDirective::Remove => Edit::Remove,
            EditDirective::Terminate => Edit::Terminate,
            EditDirective::SetOrAdd(name) => Edit::SetOrAdd(name@),
        }
    }
}

/// The directive that a line of input stands for, read without the white
/// space around it.
pub open spec fn classified(line: Seq<char>) -> Edit {
    let t = trimmed(line);
    if t.len() == 0 {
        Edit::Keep
    } else if t =~= seq!['.'] {
        Edit::Terminate
    } else if t =~= seq!['-'] {
        Edit::Remove
    } else {
        Edit::SetOrAdd(t)
    }
}

/// The markers read as what they stand for: the empty line keeps, the
/// dot ends the session, the dash removes.
pub proof fn lemma_markers()
    ensures
        classified(Seq::empty()) == Edit::Keep,
        classified(seq!['.']) == Edit::Terminate,
        classified(seq!['-']) == Edit::Remove,
{
    lemma_trimmed_unchanged(Seq::empty());
    lemma_trimmed_unchanged(seq!['.']);
    lemma_trimmed_unchanged(seq!['-']);
    assert(seq!['.'][0] != '-');
}

/// `name` is text that an operator can enter to name a host: it is not
/// empty, neither begins nor ends with white space, and is none of the
/// markers.
pub open spec fn plain_name(name: Seq<char>) -> bool {
    &&& name.len() > 0
    &&& !is_blank(name[0])
    &&& !is_blank(name.last())
    &&& !(name =~= seq!['.'])
    &&& !(name =~= seq!['-'])
}

/// A plain name, entered as it is, names itself.
pub proof fn lemma_plain_name(name: Seq<char>)
    requires
        plain_name(name),
    ensures
        classified(name) == Edit::SetOrAdd(name),
{
    lemma_trimmed_unchanged(name);
}

/// Reads one line of operator input.
pub fn classify(line: &str) -> (d: EditDirective)
    ensures
        d@ == classified(line@),
{
    let t = trim(line);
    let n: usize = t.as_str().unicode_len();
    if n == 0 {
        EditDirective::Keep
    } else if n == 1 && t.as_str().get_char(0) == '.' {
        assert(t@ =~= seq!['.']);
        EditDirective::Terminate
    } else if n == 1 && t.as_str().get_char(0) == '-' {
        assert(t@ =~= seq!['-']);
        EditDirective::Remove
    } else {
        assert(!(t@ =~= seq!['.']) && !(t@ =~= seq!['-'])) by {
            if t@ =~= seq!['.'] {
                assert(t@[0] == '.');
            }
            if t@ =~= seq!['-'] {
                assert(t@[0] == '-');
            }
        }
        EditDirective::SetOrAdd(t)
    }
}

/// The state of an edit session.
pub struct Session {
    /// The set that is being edited.
    pub old: Entries,
    /// The position in `old` of the host that is suggested next.
    pub cursor: nat,
    /// The set that is being built.
    pub fresh: Entries,
    /// The end marker was accepted.
    pub finished: bool,
}

/// The session that begins the editing of `old`.
pub open spec fn start(old: Entries) -> Session {
    Session { old, cursor: 0, fresh: Seq::empty(), finished: false }
}

/// The hostname offered at the next prompt: that of the host under the
/// cursor, or the empty text when the old hosts have all been offered.
pub open spec fn suggestion(s: Session) -> Seq<char> {
    if s.cursor < s.old.len() {
        s.old[s.cursor as int].0
    } else {
        Seq::empty()
    }
}

/// What the next prompt asks for: the host with the next number, counted
/// from one among the hosts accepted so far.
pub open spec fn prompt(s: Session) -> Seq<char> {
    "Host #"@ + digits_of(s.fresh.len() + 1)
}

/// `s` with the cursor moved past the suggested host, if there is one.
pub open spec fn advanced(s: Session) -> Session {
    Session {
        old: s.old,
        cursor: if s.cursor < s.old.len() {
            s.cursor + 1
        } else {
            s.cursor
        },
        fresh: s.fresh,
        finished: s.finished,
    }
}

/// `s` with `name` at `address` in the set being built and the cursor moved
/// past the suggested host.
pub open spec fn accepted(s: Session, name: Seq<char>, address: Seq<char>) -> Session {
    advanced(
        Session {
            old: s.old,
            cursor: s.cursor,
            fresh: put(s.fresh, name, address),
            finished: s.finished,
        },
    )
}

/// The address that a resolver's answer gives, if it gives one: no answer
/// and an empty address both count as a failed resolution.
pub open spec fn usable(answer: Option<Seq<char>>) -> bool {
    answer is Some && answer->0.len() > 0
}

/// The directive names a host that the old set does not know, so that its
/// address has to be resolved before the directive can be applied.
pub open spec fn needs_resolution(s: Session, e: Edit) -> bool {
    &&& !s.finished
    &&& e is SetOrAdd
    &&& !has_name(s.old, e->SetOrAdd_0)
}

/// The session after one directive. `answer` is what the resolver said of
/// the name in the directive; it is looked at only where the directive
/// needs a resolution.
pub open spec fn applied(s: Session, e: Edit, answer: Option<Seq<char>>) -> Session {
    if s.finished {
        s
    } else {
        match e {
            Edit::Keep => if s.cursor < s.old.len() {
                accepted(s, s.old[s.cursor as int].0, s.old[s.cursor as int].1)
            } else {
                s
            },
            Edit::Remove => advanced(s),
            Edit::Terminate => if s.fresh.len() > 0 {
                Session { old: s.old, cursor: s.cursor, fresh: s.fresh, finished: true }
            } else {
                s
            },
            Edit::SetOrAdd(name) => if has_name(s.old, name) {
                accepted(s, name, s.old[index_of(s.old, name)].1)
            } else if usable(answer) && name.len() > 0 {
                accepted(s, name, answer->0)
            } else {
                s
            },
        }
    }
}

/// What became of a directive.
#[derive(Clone, Copy, Debug, PartialEq, Eq, Structural)]
pub enum Outcome {
    /// The suggested host was carried over as it was.
    Kept,
    /// Nothing changed: there was no host to keep or to remove, or the
    /// session was over already.
    Ignored,
    /// The suggested host was dropped.
    Removed,
    /// The session ended.
    Finished,
    /// The end marker was refused: no host has been accepted yet.
    NeedHost,
    /// The named host was known to the old set and was carried over with
    /// the address remembered there.
    Retained,
    /// The named host was new and was added with its resolved address.
    Added,
    /// The named host was new and has no address: nothing changed, and
    /// the same prompt is due again.
    Unresolvable,
}

/// The outcome that `applied` stands for.
pub open spec fn outcome_of(s: Session, e: Edit, answer: Option<Seq<char>>) -> Outcome {
    if s.finished {
        Outcome::Ignored
    } else {
        match e {
            Edit::Keep => if s.cursor < s.old.len() {
                Outcome::Kept
            } else {
                Outcome::Ignored
            },
            Edit::Remove => if s.cursor < s.old.len() {
                Outcome::Removed
            } else {
                Outcome::Ignored
            },
            Edit::Terminate => if s.fresh.len() > 0 {
                Outcome::Finished
            } else {
                Outcome::NeedHost
            },
            Edit::SetOrAdd(name) => if has_name(s.old, name) {
                Outcome::Retained
            } else if usable(answer) && name.len() > 0 {
                Outcome::Added
            } else {
                Outcome::Unresolvable
            },
        }
    }
}

/// What the operator is told when the host `name` leaves the set.
pub open spec fn dropped_notice(name: Seq<char>) -> Seq<char> {
    name + " will not be monitored."@
}

/// What the operator is told when no host has been accepted and the end
/// marker comes.
pub open spec fn need_host_notice() -> Seq<char> {
    "You must specify at least one DNS name to monitor"@
}

/// What the operator is told when the known host `name` is carried over.
pub open spec fn retained_notice(name: Seq<char>, address: Seq<char>) -> Seq<char> {
    name + " retained for monitoring with remembered IP address "@ + address
}

/// What the operator is told when the new host `name` is added.
pub open spec fn added_notice(name: Seq<char>, address: Seq<char>) -> Seq<char> {
    name + " added for monitoring with current IP address "@ + address
}

/// What the operator is told when `name` has no address.
pub open spec fn unresolvable_notice(name: Seq<char>) -> Seq<char> {
    name + " is not a hostname or has no DNS entry; try again"@
}

/// What the operator is told of the suggested host when `name` is
/// accepted in its place: that it leaves the set, unless it is `name`
/// itself or nothing was suggested.
pub open spec fn replaced_notices(s: Session, name: Seq<char>) -> Seq<Seq<char>> {
    if s.cursor < s.old.len() && suggestion(s) != name {
        seq![dropped_notice(suggestion(s))]
    } else {
        Seq::empty()
    }
}

/// What the operator is told of a directive, line by line.
pub open spec fn notices(s: Session, e: Edit, answer: Option<Seq<char>>) -> Seq<Seq<char>> {
    match outcome_of(s, e, answer) {
        Outcome::Removed => seq![dropped_notice(suggestion(s))],
        Outcome::NeedHost => seq![need_host_notice()],
        Outcome::Retained => replaced_notices(s, e->SetOrAdd_0) + seq![
            retained_notice(e->SetOrAdd_0, s.old[index_of(s.old, e->SetOrAdd_0)].1),
        ],
        Outcome::Added => replaced_notices(s, e->SetOrAdd_0) + seq![
            added_notice(e->SetOrAdd_0, answer->0),
        ],
        Outcome::Unresolvable => seq![unresolvable_notice(e->SetOrAdd_0)],
        _ => Seq::empty(),
    }
}

/// What the operator is told before the first prompt, line by line: how
/// to enter hosts when there are none yet, how to edit them when there
/// are some.
pub open spec fn instructions(old: Entries) -> Seq<Seq<char>> {
    if old.len() == 0 {
        seq![
            "Please specify DNS names to check, one per line."@,
            "When done, enter just a dot ('.') alone on the line."@,
        ]
    } else {
        seq![
            "Please update your DNS names to check, one per line."@,
            "To keep an existing name, leave the line as it is or empty."@,
            "To remove an existing name, enter just a dash ('-') alone on the line."@,
            "When done, enter a dot ('.') alone on the line."@,
        ]
    }
}

/// Both sets of the session are well formed, the cursor is within the old
/// set, and a finished session has accepted a host.
pub open spec fn session_wf(s: Session) -> bool {
    &&& well_formed(s.old)
    &&& well_formed(s.fresh)
    &&& s.cursor <= s.old.len()
    &&& s.finished ==> s.fresh.len() > 0
}

/// A directive leaves a well-formed session well formed and the old set as
/// it was.
pub proof fn lemma_applied_wf(s: Session, e: Edit, answer: Option<Seq<char>>)
    requires
        session_wf(s),
    ensures
        session_wf(applied(s, e, answer)),
        applied(s, e, answer).old == s.old,
        applied(s, e, answer).fresh.len() >= s.fresh.len(),
{
    if !s.finished {
        match e {
            Edit::Keep => {
                if s.cursor < s.old.len() {
                    lemma_put(s.fresh, s.old[s.cursor as int].0, s.old[s.cursor as int].1);
                }
            },
            Edit::Remove => {},
            Edit::Terminate => {},
            Edit::SetOrAdd(name) => {
                if has_name(s.old, name) {
                    let i = index_of(s.old, name);
                    assert(s.old[i].0 == name);
                    lemma_put(s.fresh, name, s.old[i].1);
                } else if usable(answer) && name.len() > 0 {
                    lemma_put(s.fresh, name, answer->0);
                }
            },
        }
    }
}

/// An edit session in progress: the old set, the cursor into it, and the
/// set that is being built.
pub struct ReconciliationEngine {
    old: MonitoredSet,
    cursor: usize,
    fresh: MonitoredSet,
    finished: bool,
}

impl View for ReconciliationEngine {
    type V = Session;

    closed spec fn view(&self) -> Session {
        Session {
            old: self.old@,
            cursor: self.cursor as nat,
            fresh: self.fresh@,
            finished: self.finished,
        }
    }
}

/// What a resolver's answer holds, as contracts see it.
pub open spec fn answer_view(answer: Option<&str>) -> Option<Seq<char>> {
    match answer {
        Some(address) => Some(address@),
        None => None,
    }
}

impl ReconciliationEngine {
    /// The session keeps its invariant.
    pub open spec fn wf(&self) -> bool {
        session_wf(self@)
    }

    /// Begins the editing of `old`.
    pub fn new(old: MonitoredSet) -> (r: Self)
        requires
            old.wf(),
        ensures
            r.wf(),
            r@ == start(old@),
    {
        ReconciliationEngine { old, cursor: 0, fresh: MonitoredSet::new(), finished: false }
    }

    /// The hostname to offer at the next prompt.
    pub fn suggestion(&self) -> (r: String)
        requires
            self.wf(),
        ensures
            r@ == suggestion(self@),
    {
        if self.cursor < self.old.len() {
            self.old.name_at(self.cursor).clone()
        } else {
            String::new()
        }
    }

    /// What the next prompt asks for.
    pub fn prompt(&self) -> (r: String)
        ensures
            r@ == prompt(self@),
    {
        let mut r = "Host #".to_string();
        let n: u128 = self.fresh.len() as u128 + 1;
        r.append(to_decimal(n).as_str());
        r
    }

    /// The number of hosts accepted so far.
    pub fn accepted_count(&self) -> (n: usize)
        ensures
            n == self@.fresh.len(),
    {
        self.fresh.len()
    }

    /// Whether the end marker has been accepted.
    pub fn is_finished(&self) -> (b: bool)
        ensures
            b == self@.finished,
    {
        self.finished
    }

    /// Whether `directive` names a host whose address has to be resolved
    /// before the directive can be applied.
    pub fn needs_resolution(&self, directive: &EditDirective) -> (b: bool)
        requires
            self.wf(),
        ensures
            b == needs_resolution(self@, directive@),
    {
        if self.finished {
            return false;
        }
        match directive {
            EditDirective::SetOrAdd(name) => self.old.find(name.as_str()).is_none(),
            _ => false,
        }
    }

    fn advance(&mut self)
        requires
            old(self).wf(),
        ensures
            final(self)@ == advanced(old(self)@),
    {
        if self.cursor < self.old.len() {
            self.cursor = self.cursor + 1;
        }
    }

    /// What the operator is to be told before the first prompt.
    pub fn instructions(&self) -> (r: Vec<String>)
        ensures
            lines_of(r@) == instructions(self@.old),
    {
        let mut r: Vec<String> = Vec::new();
        if self.old.is_empty() {
            r.push("Please specify DNS names to check, one per line.".to_string());
            r.push("When done, enter just a dot ('.') alone on the line.".to_string());
        } else {
            r.push("Please update your DNS names to check, one per line.".to_string());
            r.push("To keep an existing name, leave the line as it is or empty.".to_string());
            r.push(
                "To remove an existing name, enter just a dash ('-') alone on the line.".to_string(),
            );
            r.push("When done, enter a dot ('.') alone on the line.".to_string());
        }
        assert(lines_of(r@) =~= instructions(self@.old));
        r
    }

    fn replaced_notices(&self, name: &String) -> (r: Vec<String>)
        requires
            self.wf(),
        ensures
            lines_of(r@) == replaced_notices(self@, name@),
    {
        let mut r: Vec<String> = Vec::new();
        if self.cursor < self.old.len() && !(*self.old.name_at(self.cursor) == *name) {
            let mut line = self.old.name_at(self.cursor).clone();
            line.append(" will not be monitored.");
            r.push(line);
        }
        assert(lines_of(r@) =~= replaced_notices(self@, name@));
        r
    }

    /// What the operator is to be told of a directive that is about to be
    /// applied with the given answer.
    pub fn notices(&self, directive: &EditDirective, answer: Option<&str>) -> (r: Vec<String>)
        requires
            self.wf(),
        ensures
            lines_of(r@) == notices(self@, directive@, answer_view(answer)),
    {
        let mut r: Vec<String> = Vec::new();
        if self.finished {
            assert(lines_of(r@) =~= Seq::<Seq<char>>::empty());
            return r;
        }
        match directive {
            EditDirective::Keep => {},
            EditDirective::Remove => {
                if self.cursor < self.old.len() {
                    let mut line = self.old.name_at(self.cursor).clone();
                    line.append(" will not be monitored.");
                    r.push(line);
                }
            },
            EditDirective::Terminate => {
                if self.fresh.len() == 0 {
                    r.push("You must specify at least one DNS name to monitor".to_string());
                }
            },
            EditDirective::SetOrAdd(name) => {
                let mut line = name.clone();
                let accepted = match self.old.find(name.as_str()) {
                    Some(i) => {
                        line.append(" retained for monitoring with remembered IP address ");
                        line.append(self.old.address_at(i).as_str());
                        true
                    },
                    None => match answer {
                        Some(address) => {
                            if !address.is_empty() && !name.as_str().is_empty() {
                                line.append(" added for monitoring with current IP address ");
                                line.append(address);
                                true
                            } else {
                                false
                            }
                        },
                        None => false,
                    },
                };
                if accepted {
                    r = self.replaced_notices(name);
                } else {
                    line.append(" is not a hostname or has no DNS entry; try again");
                }
                let ghost before = lines_of(r@);
                r.push(line);
                assert(lines_of(r@) =~= before + seq![line@]);
            },
        }
        assert(lines_of(r@) =~= notices(self@, directive@, answer_view(answer)));
        r
    }

    /// Applies one directive. `answer` is the address that the resolver gave
    /// for the name in the directive; it is looked at only where the
    /// directive needs a resolution, and `None` or an empty address there
    /// means that the name could not be resolved.
    pub fn apply(&mut self, directive: &EditDirective, answer: Option<&str>) -> (o: Outcome)
        requires
            old(self).wf(),
        ensures
            final(self).wf(),
            final(self)@ == applied(old(self)@, directive@, answer_view(answer)),
            o == outcome_of(old(self)@, directive@, answer_view(answer)),
    {
        proof {
            lemma_applied_wf(self@, directive@, answer_view(answer));
        }
        if self.finished {
            return Outcome::Ignored;
        }
        match directive {
            EditDirective::Keep => {
                if self.cursor < self.old.len() {
                    let name = self.old.name_at(self.cursor).clone();
                    let address = self.old.address_at(self.cursor).clone();
                    self.fresh.insert(name, address);
                    self.advance();
                    Outcome::Kept
                } else {
                    Outcome::Ignored
                }
            },
            EditDirective::Remove => {
                if self.cursor < self.old.len() {
                    self.advance();
                    Outcome::Removed
                } else {
                    Outcome::Ignored
                }
            },
            EditDirective::Terminate => {
                if self.fresh.len() > 0 {
                    self.finished = true;
                    Outcome::Finished
                } else {
                    Outcome::NeedHost
                }
            },
            EditDirective::SetOrAdd(name) => {
                match self.old.find(name.as_str()) {
                    Some(i) => {
                        let address = self.old.address_at(i).clone();
                        self.fresh.insert(name.clone(), address);
                        self.advance();
                        Outcome::Retained
                    },
                    None => {
                        match answer {
                            Some(address) => {
                                if !address.is_empty() && !name.as_str().is_empty() {
                                    self.fresh.insert(name.clone(), address.to_string());
                                    self.advance();
                                    Outcome::Added
                                } else {
                                    Outcome::Unresolvable
                                }
                            },
                            None => Outcome::Unresolvable,
                        }
                    },
                }
            },
        }
    }

    /// Ends the session and hands out the set that was built, if the end
    /// marker was accepted.
    pub fn finish(self) -> (r: Result<MonitoredSet, ReconcileError>)
        requires
            self.wf(),
        ensures
            set_view(r) == ended(self@),
            r is Ok ==> r->Ok_0.wf() && r->Ok_0@.len() > 0,
    {
        if self.finished {
            Ok(self.fresh)
        } else if self.fresh.is_empty() {
            Err(ReconcileError::EmptySet)
        } else {
            Err(ReconcileError::InputEnded)
        }
    }
}

/// Why an edit session gave no monitored set.
#[derive(Clone, Copy, Debug, PartialEq, Eq, Structural)]
pub enum ReconcileError {
    /// The input ended before a host was accepted: a monitored set must
    /// hold at least one.
    EmptySet,
    /// The input ended before the end marker came.
    InputEnded,
}

impl ReconcileError {
    /// The message for the operator.
    pub fn message(&self) -> (r: String)
        ensures
            r@ == match self {
                ReconcileError::EmptySet => need_host_notice(),
                ReconcileError::InputEnded => "Input error"@,
            },
    {
        match self {
            ReconcileError::EmptySet => {
                "You must specify at least one DNS name to monitor".to_string()
            },
            ReconcileError::InputEnded => "Input error".to_string(),
        }
    }
}

/// What a session that is over comes to. A session ends at the end
/// marker, and then gives the set it has built. One that was left before
/// the end marker came gives nothing: it has no host, or its input ended
/// too early.
pub open spec fn ended(s: Session) -> Result<Entries, ReconcileError> {
    if s.finished {
        Ok(s.fresh)
    } else if s.fresh.len() == 0 {
        Err(ReconcileError::EmptySet)
    } else {
        Err(ReconcileError::InputEnded)
    }
}

/// What the end of a session gave, as contracts see it.
pub open spec fn set_view(r: Result<MonitoredSet, ReconcileError>) -> Result<
    Entries,
    ReconcileError,
> {
    match r {
        Ok(set) => Ok(set@),
        Err(e) => Err(e),
    }
}

/// The answer with the number `i` among `answers`; past their end the
/// resolver has nothing to say.
pub open spec fn answer_at(answers: Seq<Option<Seq<char>>>, i: nat) -> Option<Seq<char>> {
    if i < answers.len() {
        answers[i as int]
    } else {
        None
    }
}

/// A session together with the number of resolutions it has asked for.
pub struct Progress {
    pub session: Session,
    pub asked: nat,
}

/// `p` after one line of input. A line that needs a resolution takes the
/// next of `answers`.
pub open spec fn stepped(p: Progress, line: Seq<char>, answers: Seq<Option<Seq<char>>>) -> Progress {
    let e = classified(line);
    if needs_resolution(p.session, e) {
        Progress {
            session: applied(p.session, e, answer_at(answers, p.asked)),
            asked: p.asked + 1,
        }
    } else {
        Progress { session: applied(p.session, e, None), asked: p.asked }
    }
}

/// `p` after the first `k` of `lines`.
pub open spec fn ran(
    p: Progress,
    lines: Seq<Seq<char>>,
    answers: Seq<Option<Seq<char>>>,
    k: nat,
) -> Progress
    decreases k,
{
    if k == 0 || k > lines.len() {
        p
    } else {
        stepped(ran(p, lines, answers, (k - 1) as nat), lines[k - 1], answers)
    }
}

/// What an edit session on `old` with the input `lines` comes to, where
/// the resolver gives `answers` in the order in which it is asked.
pub open spec fn reconciled(
    old: Entries,
    lines: Seq<Seq<char>>,
    answers: Seq<Option<Seq<char>>>,
) -> Result<Entries, ReconcileError> {
    ended(ran(Progress { session: start(old), asked: 0 }, lines, answers, lines.len()).session)
}

/// Runs a whole edit session on `old`: `lines` is the operator's input in
/// order, and `answers` holds what the resolver says each time it is asked,
/// in order, `None` standing for a failed resolution. The session gives
/// the set it has built when the end marker is accepted; input that ends
/// before that gives nothing.
pub fn reconcile(old: &MonitoredSet, lines: &Vec<String>, answers: &Vec<Option<String>>) -> (r:
    Result<MonitoredSet, ReconcileError>)
    requires
        old.wf(),
    ensures
        set_view(r) == reconciled(old@, lines_of(lines@), texts_of(answers@)),
        r is Ok ==> r->Ok_0.wf() && r->Ok_0@.len() > 0,
{
    let mut engine = ReconciliationEngine::new(old.clone());
    let mut asked: usize = 0;
    let mut k: usize = 0;
    let ghost begin = Progress { session: start(old@), asked: 0 };
    while k < lines.len()
        invariant
            k <= lines@.len(),
            asked <= k,
            engine.wf(),
            begin == (Progress { session: start(old@), asked: 0 }),
            ran(begin, lines_of(lines@), texts_of(answers@), k as nat) == (Progress {
                session: engine@,
                asked: asked as nat,
            }),
        decreases lines.len() - k,
    {
        let directive = classify(lines[k].as_str());
        assert(lines_of(lines@)[k as int] == lines@[k as int]@);
        if engine.needs_resolution(&directive) {
            let answer: Option<&str> = if asked < answers.len() {
                match &answers[asked] {
                    Some(address) => Some(address.as_str()),
                    None => None,
                }
            } else {
                None
            };
            assert(answer_view(answer) == answer_at(texts_of(answers@), asked as nat));
            engine.apply(&directive, answer);
            asked += 1;
        } else {
            engine.apply(&directive, None);
        }
        k += 1;
    }
    engine.finish()
}

/// While no host has been accepted the end marker does not end the
/// session: it changes nothing, and the same prompt is due again.
pub proof fn law_end_marker_needs_a_host(s: Session, answer: Option<Seq<char>>)
    requires
        session_wf(s),
        s.fresh.len() == 0,
    ensures
        applied(s, Edit::Terminate, answer) == s,
        !applied(s, Edit::Terminate, answer).finished,
        outcome_of(s, Edit::Terminate, answer) == Outcome::NeedHost,
{
}

/// The session on `old` after the first `k` of `lines`.
pub open spec fn session_after(
    old: Entries,
    lines: Seq<Seq<char>>,
    answers: Seq<Option<Seq<char>>>,
    k: nat,
) -> Session {
    ran(Progress { session: start(old), asked: 0 }, lines, answers, k).session
}

/// However a session went, it is finished only if it has accepted a host,
/// and the set it has built is well formed.
pub proof fn law_finished_session_has_a_host(
    old: Entries,
    lines: Seq<Seq<char>>,
    answers: Seq<Option<Seq<char>>>,
    k: nat,
)
    requires
        well_formed(old),
    ensures
        session_wf(session_after(old, lines, answers, k)),
        session_after(old, lines, answers, k).finished ==> session_after(
            old,
            lines,
            answers,
            k,
        ).fresh.len() > 0,
    decreases k,
{
    let begin = Progress { session: start(old), asked: 0 };
    if k == 0 || k > lines.len() {
    } else {
        law_finished_session_has_a_host(old, lines, answers, (k - 1) as nat);
        let before = ran(begin, lines, answers, (k - 1) as nat);
        let e = classified(lines[k - 1]);
        lemma_applied_wf(before.session, e, answer_at(answers, before.asked));
        lemma_applied_wf(before.session, e, None);
    }
}

proof fn lemma_ran_shift(
    p: Progress,
    lines: Seq<Seq<char>>,
    answers: Seq<Option<Seq<char>>>,
    k: nat,
)
    requires
        1 <= k <= lines.len(),
    ensures
        ran(p, lines, answers, k) == ran(
            stepped(p, lines[0], answers),
            lines.drop_first(),
            answers,
            (k - 1) as nat,
        ),
    decreases k,
{
    let rest = lines.drop_first();
    let next = stepped(p, lines[0], answers);
    if k > 1 {
        lemma_ran_shift(p, lines, answers, (k - 1) as nat);
        assert(rest[k - 2] == lines[k - 1]);
        assert(ran(next, rest, answers, (k - 1) as nat) == stepped(
            ran(next, rest, answers, (k - 2) as nat),
            rest[k - 2],
            answers,
        ));
    } else {
        assert(ran(p, lines, answers, 0) == p);
        assert(ran(next, rest, answers, 0) == next);
    }
}

/// An end marker on the first line of a session that starts from the empty
/// set is passed over: the session goes on as if the line had not been
/// entered, and so ends only after a host was accepted.
pub proof fn law_leading_end_marker_is_passed_over(
    lines: Seq<Seq<char>>,
    answers: Seq<Option<Seq<char>>>,
)
    requires
        lines.len() > 0,
        lines[0] == seq!['.'],
    ensures
        reconciled(Seq::empty(), lines, answers) == reconciled(
            Seq::empty(),
            lines.drop_first(),
            answers,
        ),
        !stepped(
            Progress { session: start(Seq::empty()), asked: 0 },
            lines[0],
            answers,
        ).session.finished,
{
    lemma_markers();
    let begin = Progress { session: start(Seq::empty()), asked: 0 };
    lemma_ran_shift(begin, lines, answers, lines.len());
    assert(stepped(begin, lines[0], answers) == begin);
}

/// A new hostname that cannot be resolved changes nothing: the cursor
/// stays, no host is added, and the prompt that is due is the one that was
/// due before.
pub proof fn law_failed_resolution_changes_nothing(
    s: Session,
    name: Seq<char>,
    answer: Option<Seq<char>>,
)
    requires
        !has_name(s.old, name),
        !usable(answer),
    ensures
        applied(s, Edit::SetOrAdd(name), answer) == s,
        suggestion(applied(s, Edit::SetOrAdd(name), answer)) == suggestion(s),
        !s.finished ==> outcome_of(s, Edit::SetOrAdd(name), answer) == Outcome::Unresolvable,
{
}

/// An operator who enters the name of every host of `old`, each in its
/// place, and then the end marker gets `old` back: the same hosts in the
/// same order at the same addresses, with no resolution asked for. This
/// holds of a set that is not empty and whose names are plain.
pub proof fn law_echo_gives_old_set(
    old: Entries,
    lines: Seq<Seq<char>>,
    answers: Seq<Option<Seq<char>>>,
)
    requires
        well_formed(old),
        old.len() > 0,
        forall|i: int| 0 <= i < old.len() ==> plain_name((#[trigger] old[i]).0),
        lines.len() == old.len() + 1,
        forall|i: int| 0 <= i < old.len() ==> #[trigger] lines[i] == old[i].0,
        lines[old.len() as int] == seq!['.'],
    ensures
        reconciled(old, lines, answers) == Ok::<Entries, ReconcileError>(old),
{
    lemma_markers();
    assert forall|i: int| 0 <= i < old.len() implies classified(#[trigger] lines[i])
        == Edit::SetOrAdd(old[i].0) by {
        assert(plain_name(old[i].0));
        lemma_plain_name(old[i].0);
    }
    lemma_lines_that_name_the_hosts(old, lines, answers);
}

/// Lines that read as the names of the hosts of `old`, each in its place,
/// followed by a line that reads as the end marker, give `old` back.
pub proof fn lemma_lines_that_name_the_hosts(
    old: Entries,
    lines: Seq<Seq<char>>,
    answers: Seq<Option<Seq<char>>>,
)
    requires
        well_formed(old),
        old.len() > 0,
        lines.len() == old.len() + 1,
        forall|i: int|
            0 <= i < old.len() ==> classified(#[trigger] lines[i]) == Edit::SetOrAdd(old[i].0),
        classified(lines[old.len() as int]) == Edit::Terminate,
    ensures
        reconciled(old, lines, answers) == Ok::<Entries, ReconcileError>(old),
{
    let begin = Progress { session: start(old), asked: 0 };
    lemma_echo_prefix(old, lines, answers, old.len());
    let before = ran(begin, lines, answers, old.len());
    assert(old.take(old.len() as int) =~= old);
    assert(ran(begin, lines, answers, lines.len()) == stepped(
        before,
        lines[old.len() as int],
        answers,
    ));
}

proof fn lemma_echo_prefix(
    old: Entries,
    lines: Seq<Seq<char>>,
    answers: Seq<Option<Seq<char>>>,
    k: nat,
)
    requires
        well_formed(old),
        k <= old.len() < lines.len(),
        forall|i: int|
            0 <= i < old.len() ==> classified(#[trigger] lines[i]) == Edit::SetOrAdd(old[i].0),
    ensures
        ran(Progress { session: start(old), asked: 0 }, lines, answers, k) == (Progress {
            session: Session { old, cursor: k, fresh: old.take(k as int), finished: false },
            asked: 0,
        }),
    decreases k,
{
    let begin = Progress { session: start(old), asked: 0 };
    if k == 0 {
        assert(old.take(0) =~= Seq::<(Seq<char>, Seq<char>)>::empty());
    } else {
        lemma_echo_prefix(old, lines, answers, (k - 1) as nat);
        let before = ran(begin, lines, answers, (k - 1) as nat);
        let name = old[k - 1].0;
        assert(classified(lines[k - 1]) == Edit::SetOrAdd(name));
        lemma_index_of(old, k - 1);
        let built = old.take(k - 1);
        assert(!has_name(built, name)) by {
            if has_name(built, name) {
                let j = index_of(built, name);
                assert(built[j] == old[j]);
                assert(old[j].0 != old[k - 1].0);
            }
        }
        assert(put(built, name, old[k - 1].1) =~= old.take(k as int));
    }
}

} // verus!
