//! Merging an operator's edits into the list of notified addresses.
//!
//! The session has the shape of the one for the monitored hosts: the old
//! addresses are offered in order, and each line keeps the suggestion,
//! removes it, adds an address or ends the session. An address is accepted
//! when it is an e-mail address; nothing is remembered about a recipient,
//! so there is nothing to carry over from the old list but the address.

use vstd::prelude::*;
use vstd::string::*;
use crate::mail::{all_addresses, copy_lines, is_address, parses_as_address};
use crate::reconcile::{
    classified, classify, lemma_markers, lemma_plain_name, plain_name, Edit, EditDirective,
};
use crate::text::{digits_of, lines_of, to_decimal};

verus! {

/// The state of an edit session on the recipients.
pub struct RecipientSession {
    /// The list that is being edited.
    pub old: Seq<Seq<char>>,
    /// The position in `old` of the address that is suggested next.
    pub cursor: nat,
    /// The list that is being built.
    pub fresh: Seq<Seq<char>>,
    /// The end marker was accepted.
    pub finished: bool,
}

/// The session that begins the editing of `old`.
pub open spec fn recipients_start(old: Seq<Seq<char>>) -> RecipientSession {
    RecipientSession { old, cursor: 0, fresh: Seq::empty(), finished: false }
}

/// The address offered at the next prompt, or the empty text when the old
/// addresses have all been offered.
pub open spec fn recipient_suggestion(s: RecipientSession) -> Seq<char> {
    if s.cursor < s.old.len() {
        s.old[s.cursor as int]
    } else {
        Seq::empty()
    }
}

/// What the next prompt asks for: the address with the next number,
/// counted from one among the addresses accepted so far.
pub open spec fn recipient_prompt(s: RecipientSession) -> Seq<char> {
    "Email #"@ + digits_of(s.fresh.len() + 1)
}

/// `list` with `address` at its end.
pub open spec fn with_recipient(list: Seq<Seq<char>>, address: Seq<char>) -> Seq<Seq<char>> {
    list.push(address)
}

/// `s` with the cursor moved past the suggested address, if there is one.
pub open spec fn recipient_advanced(s: RecipientSession) -> RecipientSession {
    RecipientSession {
        old: s.old,
        cursor: if s.cursor < s.old.len() {
            s.cursor + 1
        } else {
            s.cursor
        },
        fresh: s.fresh,
        finished: s.finished,
    }
}

/// `s` with `address` in the list being built and the cursor moved past
/// the suggested address.
pub open spec fn recipient_accepted(s: RecipientSession, address: Seq<char>) -> RecipientSession {
    recipient_advanced(
        RecipientSession {
            old: s.old,
            cursor: s.cursor,
            fresh: with_recipient(s.fresh, address),
            finished: s.finished,
        },
    )
}

/// The session after one directive.
pub open spec fn recipient_applied(s: RecipientSession, e: Edit) -> RecipientSession {
    if s.finished {
        s
    } else {
        match e {
            Edit::Keep => if s.cursor < s.old.len() {
                recipient_accepted(s, s.old[s.cursor as int])
            } else {
                s
            },
            Edit::Remove => recipient_advanced(s),
            Edit::Terminate => if s.fresh.len() > 0 {
                RecipientSession { old: s.old, cursor: s.cursor, fresh: s.fresh, finished: true }
            } else {
                s
            },
            Edit::SetOrAdd(address) => if is_address(address) {
                recipient_accepted(s, address)
            } else {
                s
            },
        }
    }
}

/// What became of a directive.
#[derive(Clone, Copy, Debug, PartialEq, Eq, Structural)]
pub enum RecipientOutcome {
    /// The suggested address was carried over.
    Kept,
    /// Nothing changed: there was no address to keep or to remove, or the
    /// session was over already.
    Ignored,
    /// The suggested address was dropped.
    Removed,
    /// The session ended.
    Finished,
    /// The end marker was refused: no address has been accepted yet.
    NeedRecipient,
    /// The entered address was accepted.
    Added,
    /// The entered text is no e-mail address: nothing changed, and the
    /// same prompt is due again.
    Invalid,
}

/// The outcome that `recipient_applied` stands for.
pub open spec fn recipient_outcome(s: RecipientSession, e: Edit) -> RecipientOutcome {
    if s.finished {
        RecipientOutcome::Ignored
    } else {
        match e {
            Edit::Keep => if s.cursor < s.old.len() {
                RecipientOutcome::Kept
            } else {
                RecipientOutcome::Ignored
            },
            Edit::Remove => if s.cursor < s.old.len() {
                RecipientOutcome::Removed
            } else {
                RecipientOutcome::Ignored
            },
            Edit::Terminate => if s.fresh.len() > 0 {
                RecipientOutcome::Finished
            } else {
                RecipientOutcome::NeedRecipient
            },
            Edit::SetOrAdd(address) => if is_address(address) {
                RecipientOutcome::Added
            } else {
                RecipientOutcome::Invalid
            },
        }
    }
}

/// What the operator is told when `address` leaves the list.
pub open spec fn not_notified_notice(address: Seq<char>) -> Seq<char> {
    address + " will not be notified."@
}

/// What the operator is told of a directive, line by line.
pub open spec fn recipient_notices(s: RecipientSession, e: Edit) -> Seq<Seq<char>> {
    match recipient_outcome(s, e) {
        RecipientOutcome::Removed => seq![not_notified_notice(recipient_suggestion(s))],
        RecipientOutcome::NeedRecipient => seq!["You must specify at least one email to notify"@],
        RecipientOutcome::Added => if recipient_suggestion(s) == e->SetOrAdd_0 {
            Seq::empty()
        } else if s.cursor < s.old.len() {
            seq![
                not_notified_notice(recipient_suggestion(s)),
                e->SetOrAdd_0 + " will be notified"@,
            ]
        } else {
            seq![e->SetOrAdd_0 + " will be notified"@]
        },
        RecipientOutcome::Invalid => seq![
            e->SetOrAdd_0 + " is not a valid email address; try again"@,
        ],
        _ => Seq::empty(),
    }
}

/// What the operator is told before the first prompt, line by line.
pub open spec fn recipient_instructions(old: Seq<Seq<char>>) -> Seq<Seq<char>> {
    if old.len() == 0 {
        seq![
            "Please specify emails to notify, one per line."@,
            "When done, enter just a dot ('.') alone on the line."@,
        ]
    } else {
        seq![
            "Please update emails to notify, one per line."@,
            "To keep an existing name, leave the line as it is or empty."@,
            "To remove an existing name, enter just a dash ('-') alone on the line."@,
            "When done, enter a dot ('.') alone on the line."@,
        ]
    }
}

/// The cursor is within the old list, and a finished session has accepted
/// an address.
pub open spec fn recipient_session_wf(s: RecipientSession) -> bool {
    &&& s.cursor <= s.old.len()
    &&& s.finished ==> s.fresh.len() > 0
}

/// The session after the first `k` of `lines`.
pub open spec fn recipients_ran(s: RecipientSession, lines: Seq<Seq<char>>, k: nat) -> RecipientSession
    decreases k,
{
    if k == 0 || k > lines.len() {
        s
    } else {
        recipient_applied(recipients_ran(s, lines, (k - 1) as nat), classified(lines[k - 1]))
    }
}

/// Why an edit session gave no list of recipients.
#[derive(Clone, Copy, Debug, PartialEq, Eq, Structural)]
pub enum RecipientsError {
    /// The input ended before an address was accepted.
    NoRecipient,
    /// The input ended before the end marker came.
    InputEnded,
}

impl RecipientsError {
    /// The message for the operator.
    pub fn message(&self) -> (r: String)
        ensures
            r@ == match self {
                RecipientsError::NoRecipient => "You must specify at least one email to notify"@,
                RecipientsError::InputEnded => "Input error"@,
            },
    {
        match self {
            RecipientsError::NoRecipient => {
                "You must specify at least one email to notify".to_string()
            },
            RecipientsError::InputEnded => "Input error".to_string(),
        }
    }
}

/// What a session that is over comes to. A session ends at the end
/// marker, and then gives the list it has built. One that was left before
/// the end marker came gives nothing: it has no recipient, or its input
/// ended too early.
pub open spec fn recipients_ended(s: RecipientSession) -> Result<Seq<Seq<char>>, RecipientsError> {
    if s.finished {
        Ok(s.fresh)
    } else if s.fresh.len() == 0 {
        Err(RecipientsError::NoRecipient)
    } else {
        Err(RecipientsError::InputEnded)
    }
}

/// What an edit session on `old` with the input `lines` comes to.
pub open spec fn recipients_reconciled(old: Seq<Seq<char>>, lines: Seq<Seq<char>>) -> Result<
    Seq<Seq<char>>,
    RecipientsError,
> {
    recipients_ended(recipients_ran(recipients_start(old), lines, lines.len()))
}

/// What the end of a session gave, as contracts see it.
pub open spec fn list_view(r: Result<Vec<String>, RecipientsError>) -> Result<
    Seq<Seq<char>>,
    RecipientsError,
> {
    match r {
        Ok(list) => Ok(lines_of(list@)),
        Err(e) => Err(e),
    }
}

/// An edit session on the recipients in progress.
pub struct RecipientEngine {
    old: Vec<String>,
    cursor: usize,
    fresh: Vec<String>,
    finished: bool,
}

impl View for RecipientEngine {
    type V = RecipientSession;

    closed spec fn view(&self) -> RecipientSession {
        RecipientSession {
            old: lines_of(self.old@),
            cursor: self.cursor as nat,
            fresh: lines_of(self.fresh@),
            finished: self.finished,
        }
    }
}

impl RecipientEngine {
    /// The session keeps its invariant.
    pub open spec fn wf(&self) -> bool {
        recipient_session_wf(self@)
    }

    /// Begins the editing of `old`.
    pub fn new(old: Vec<String>) -> (r: Self)
        ensures
            r.wf(),
            r@ == recipients_start(lines_of(old@)),
    {
        let r = RecipientEngine { old, cursor: 0, fresh: Vec::new(), finished: false };
        assert(lines_of(r.fresh@) =~= Seq::<Seq<char>>::empty());
        r
    }

    /// The address to offer at the next prompt.
    pub fn suggestion(&self) -> (r: String)
        requires
            self.wf(),
        ensures
            r@ == recipient_suggestion(self@),
    {
        if self.cursor < self.old.len() {
            self.old[self.cursor].clone()
        } else {
            String::new()
        }
    }

    /// What the next prompt asks for.
    pub fn prompt(&self) -> (r: String)
        ensures
            r@ == recipient_prompt(self@),
    {
        let mut r = "Email #".to_string();
        let n: u128 = self.fresh.len() as u128 + 1;
        r.append(to_decimal(n).as_str());
        r
    }

    /// The number of addresses accepted so far.
    pub fn accepted_count(&self) -> (n: usize)
        ensures
            n == self@.fresh.len(),
    {
        self.fresh.len()
    }

    /// Whether the end marker has been accepted.
    pub fn is_finished(&self) -> (b: bool)
        ensures
            b == self@.finished,
    {
        self.finished
    }

    fn accept(&mut self, address: String)
        requires
            old(self).wf(),
        ensures
            final(self).wf(),
            final(self)@ == recipient_accepted(old(self)@, address@),
    {
        let ghost list = lines_of(self.fresh@);
        self.fresh.push(address);
        assert(lines_of(self.fresh@) =~= list.push(address@));
        if self.cursor < self.old.len() {
            self.cursor = self.cursor + 1;
        }
    }

    /// What the operator is to be told before the first prompt.
    pub fn instructions(&self) -> (r: Vec<String>)
        ensures
            lines_of(r@) == recipient_instructions(self@.old),
    {
        let mut r: Vec<String> = Vec::new();
        if self.old.len() == 0 {
            r.push("Please specify emails to notify, one per line.".to_string());
            r.push("When done, enter just a dot ('.') alone on the line.".to_string());
        } else {
            r.push("Please update emails to notify, one per line.".to_string());
            r.push("To keep an existing name, leave the line as it is or empty.".to_string());
            r.push(
                "To remove an existing name, enter just a dash ('-') alone on the line.".to_string(),
            );
            r.push("When done, enter a dot ('.') alone on the line.".to_string());
        }
        assert(lines_of(r@) =~= recipient_instructions(self@.old));
        r
    }

    /// What the operator is to be told of a directive that is about to be
    /// applied.
    pub fn notices(&self, directive: &EditDirective) -> (r: Vec<String>)
        requires
            self.wf(),
        ensures
            lines_of(r@) == recipient_notices(self@, directive@),
    {
        let mut r: Vec<String> = Vec::new();
        if self.finished {
            assert(lines_of(r@) =~= Seq::<Seq<char>>::empty());
            return r;
        }
        match directive {
            EditDirective::Keep => {},
            EditDirective::Remove => {
                if self.cursor < self.old.len() {
                    let mut line = self.old[self.cursor].clone();
                    line.append(" will not be notified.");
                    let ghost only = line@;
                    r.push(line);
                    assert(lines_of(r@) =~= seq![only]);
                }
            },
            EditDirective::Terminate => {
                if self.fresh.len() == 0 {
                    r.push("You must specify at least one email to notify".to_string());
                }
            },
            EditDirective::SetOrAdd(address) => {
                let mut line = address.clone();
                if !parses_as_address(address.as_str()) {
                    line.append(" is not a valid email address; try again");
                    let ghost only = line@;
                    r.push(line);
                    assert(lines_of(r@) =~= seq![only]);
                } else if self.cursor < self.old.len() {
                    assert(recipient_suggestion(self@) == self.old@[self.cursor as int]@);
                    if !(self.old[self.cursor] == *address) {
                        let mut dropped = self.old[self.cursor].clone();
                        dropped.append(" will not be notified.");
                        line.append(" will be notified");
                        let ghost first = dropped@;
                        let ghost second = line@;
                        r.push(dropped);
                        r.push(line);
                        assert(lines_of(r@) =~= seq![first, second]);
                    }
                } else if !address.as_str().is_empty() {
                    line.append(" will be notified");
                    let ghost only = line@;
                    r.push(line);
                    assert(lines_of(r@) =~= seq![only]);
                } else {
                    assert(address@ =~= recipient_suggestion(self@));
                }
            },
        }
        assert(lines_of(r@) =~= recipient_notices(self@, directive@));
        r
    }

    /// Applies one directive.
    pub fn apply(&mut self, directive: &EditDirective) -> (o: RecipientOutcome)
        requires
            old(self).wf(),
        ensures
            final(self).wf(),
            final(self)@ == recipient_applied(old(self)@, directive@),
            o == recipient_outcome(old(self)@, directive@),
    {
        if self.finished {
            return RecipientOutcome::Ignored;
        }
        match directive {
            EditDirective::Keep => {
                if self.cursor < self.old.len() {
                    let address = self.old[self.cursor].clone();
                    self.accept(address);
                    RecipientOutcome::Kept
                } else {
                    RecipientOutcome::Ignored
                }
            },
            EditDirective::Remove => {
                if self.cursor < self.old.len() {
                    self.cursor = self.cursor + 1;
                    RecipientOutcome::Removed
                } else {
                    RecipientOutcome::Ignored
                }
            },
            EditDirective::Terminate => {
                if self.fresh.len() > 0 {
                    self.finished = true;
                    RecipientOutcome::Finished
                } else {
                    RecipientOutcome::NeedRecipient
                }
            },
            EditDirective::SetOrAdd(address) => {
                if parses_as_address(address.as_str()) {
                    self.accept(address.clone());
                    RecipientOutcome::Added
                } else {
                    RecipientOutcome::Invalid
                }
            },
        }
    }

    /// Ends the session and hands out the list that was built, if the end
    /// marker was accepted.
    pub fn finish(self) -> (r: Result<Vec<String>, RecipientsError>)
        requires
            self.wf(),
        ensures
            list_view(r) == recipients_ended(self@),
            r is Ok ==> r->Ok_0@.len() > 0,
    {
        if self.finished {
            Ok(self.fresh)
        } else if self.fresh.len() == 0 {
            Err(RecipientsError::NoRecipient)
        } else {
            Err(RecipientsError::InputEnded)
        }
    }
}

/// Runs a whole edit session on the recipients `old`, with `lines` as the
/// operator's input in order. The session gives the list it has built
/// when the end marker is accepted; input that ends before that gives
/// nothing.
pub fn reconcile_recipients(old: &Vec<String>, lines: &Vec<String>) -> (r: Result<
    Vec<String>,
    RecipientsError,
>)
    ensures
        list_view(r) == recipients_reconciled(lines_of(old@), lines_of(lines@)),
{
    let mut engine = RecipientEngine::new(copy_lines(old));
    let mut k: usize = 0;
    while k < lines.len()
        invariant
            k <= lines@.len(),
            engine.wf(),
            engine@ == recipients_ran(
                recipients_start(lines_of(old@)),
                lines_of(lines@),
                k as nat,
            ),
        decreases lines.len() - k,
    {
        let directive = classify(lines[k].as_str());
        assert(lines_of(lines@)[k as int] == lines@[k as int]@);
        engine.apply(&directive);
        k += 1;
    }
    engine.finish()
}

/// An operator who enters every address of `old`, each in its place, and
/// then the end marker gets `old` back, the same addresses in the same
/// order, an address that occurs twice included. This holds of a list
/// that is not empty and whose entries are e-mail addresses that read as
/// themselves.
pub proof fn law_echo_gives_old_list(old: Seq<Seq<char>>, lines: Seq<Seq<char>>)
    requires
        old.len() > 0,
        forall|i: int| 0 <= i < old.len() ==> plain_name(#[trigger] old[i]),
        lines.len() == old.len() + 1,
        forall|i: int| 0 <= i < old.len() ==> #[trigger] lines[i] == old[i],
        lines[old.len() as int] == seq!['.'],
    ensures
        all_addresses(old) ==> recipients_reconciled(old, lines) == Ok::<
            Seq<Seq<char>>,
            RecipientsError,
        >(old),
{
    if all_addresses(old) {
        lemma_markers();
        lemma_echo_prefix(old, lines, old.len());
        assert(old.take(old.len() as int) =~= old);
        assert(recipients_ran(recipients_start(old), lines, lines.len()) == recipient_applied(
            recipients_ran(recipients_start(old), lines, old.len()),
            classified(lines[old.len() as int]),
        ));
    }
}

proof fn lemma_echo_prefix(old: Seq<Seq<char>>, lines: Seq<Seq<char>>, k: nat)
    requires
        k <= old.len() < lines.len(),
        all_addresses(old),
        forall|i: int| 0 <= i < old.len() ==> plain_name(#[trigger] old[i]),
        forall|i: int| 0 <= i < old.len() ==> #[trigger] lines[i] == old[i],
    ensures
        recipients_ran(recipients_start(old), lines, k) == (RecipientSession {
            old,
            cursor: k,
            fresh: old.take(k as int),
            finished: false,
        }),
    decreases k,
{
    if k == 0 {
        assert(old.take(0) =~= Seq::<Seq<char>>::empty());
    } else {
        lemma_echo_prefix(old, lines, (k - 1) as nat);
        assert(plain_name(old[k - 1]));
        lemma_plain_name(old[k - 1]);
        assert(is_address(old[k - 1]));
        assert(old.take(k - 1).push(old[k - 1]) =~= old.take(k as int));
    }
}

/// Text that is no e-mail address changes nothing: the cursor stays, no
/// address is added, and the prompt that is due is the one that was due
/// before.
pub proof fn law_invalid_address_changes_nothing(s: RecipientSession, text: Seq<char>)
    ensures
        !is_address(text) ==> recipient_applied(s, Edit::SetOrAdd(text)) == s,
{
}

/// While no address has been accepted the end marker does not end the
/// session.
pub proof fn law_end_marker_needs_a_recipient(s: RecipientSession)
    requires
        recipient_session_wf(s),
        s.fresh.len() == 0,
    ensures
        recipient_applied(s, Edit::Terminate) == s,
        !recipient_applied(s, Edit::Terminate).finished,
{
}

} // verus!
