//! What a notification needs before a mail transport can send it.

use vstd::prelude::*;
use vstd::string::*;
use crate::text::lines_of;

verus! {

/// Whether `text` is accepted as an e-mail address.
pub uninterp spec fn is_address(text: Seq<char>) -> bool;

/// Parses `text` as a `lettre::Address` (its `FromStr`) and tells whether
/// the parse succeeded. The parse looks at the text alone; the contract
/// gives its verdict the name `is_address` and claims nothing else of it.
#[verifier::external_body]
pub(crate) fn parses_as_address(text: &str) -> (ok: bool)
    ensures
        ok == is_address(text@),
{
    text.parse::<lettre::Address>().is_ok()
}

/// A notification that is ready for the transport: the sending account,
/// the recipients, and the text.
#[derive(Debug, PartialEq, Eq)]
pub struct Dispatch {
    /// The host of the mail server that sends.
    pub server: String,
    /// The address of the sending account.
    pub from_address: String,
    /// The account's secret, as the configuration holds it.
    pub secret: String,
    /// The recipients.
    pub to_addresses: Vec<String>,
    pub subject: String,
    /// The lines of the body, in order.
    pub body: Vec<String>,
}

/// A `Dispatch` as contracts see it.
pub struct DispatchView {
    pub server: Seq<char>,
    pub from_address: Seq<char>,
    pub secret: Seq<char>,
    pub to_addresses: Seq<Seq<char>>,
    pub subject: Seq<char>,
    pub body: Seq<Seq<char>>,
}

impl View for Dispatch {
    type V = DispatchView;

    open spec fn view(&self) -> DispatchView {
        DispatchView {
            server: self.server@,
            from_address: self.from_address@,
            secret: self.secret@,
            to_addresses: lines_of(self.to_addresses@),
            subject: self.subject@,
            body: lines_of(self.body@),
        }
    }
}

/// Why a notification cannot be handed to the transport.
#[derive(Debug, PartialEq, Eq)]
pub enum NotifyError {
    /// The environment names no sending address.
    MissingFromAddress,
    /// The environment names no password.
    MissingFromPassword,
    /// The environment names no recipient.
    MissingToAddress,
    /// The sending address is no e-mail address.
    IllegalFromAddress(String),
    /// A recipient is no e-mail address.
    IllegalToAddress(String),
    /// There is no recipient.
    NoRecipient,
}

/// A `NotifyError` as contracts see it.
pub enum NotifyFailure {
    MissingFromAddress,
    MissingFromPassword,
    MissingToAddress,
    IllegalFromAddress(Seq<char>),
    IllegalToAddress(Seq<char>),
    NoRecipient,
}

impl View for NotifyError {
    type V = NotifyFailure;

    open spec fn view(&self) -> NotifyFailure {
        match self {
            NotifyError::MissingFromAddress => NotifyFailure::MissingFromAddress,
            NotifyError::MissingFromPassword => NotifyFailure::MissingFromPassword,
            NotifyError::MissingToAddress => NotifyFailure::MissingToAddress,
            NotifyError::IllegalFromAddress(a) => NotifyFailure::IllegalFromAddress(a@),
            NotifyError::IllegalToAddress(a) => NotifyFailure::IllegalToAddress(a@),
            NotifyError::NoRecipient => NotifyFailure::NoRecipient,
        }
    }
}

/// The text that reports `failure`.
pub open spec fn notify_failure_message(failure: NotifyFailure) -> Seq<char> {
    match failure {
        NotifyFailure::MissingFromAddress => "No DDNS_FROM_ADDRESS value found in environment"@,
        NotifyFailure::MissingFromPassword => "No DDNS_FROM_PASSWORD value found in environment"@,
        NotifyFailure::MissingToAddress => "No DDNS_TO_ADDRESS value found in environment"@,
        NotifyFailure::IllegalFromAddress(a) => "Illegal from address: "@ + a,
        NotifyFailure::IllegalToAddress(a) => "Illegal to address: "@ + a,
        NotifyFailure::NoRecipient => "E-mail message creation failed."@,
    }
}

impl NotifyError {
    /// The text that reports the error.
    pub fn message(&self) -> (r: String)
        ensures
            r@ == notify_failure_message(self@),
    {
        match self {
            NotifyError::MissingFromAddress => {
                "No DDNS_FROM_ADDRESS value found in environment".to_string()
            },
            NotifyError::MissingFromPassword => {
                "No DDNS_FROM_PASSWORD value found in environment".to_string()
            },
            NotifyError::MissingToAddress => {
                "No DDNS_TO_ADDRESS value found in environment".to_string()
            },
            NotifyError::IllegalFromAddress(a) => {
                let mut r = "Illegal from address: ".to_string();
                r.append(a.as_str());
                r
            },
            NotifyError::IllegalToAddress(a) => {
                let mut r = "Illegal to address: ".to_string();
                r.append(a.as_str());
                r
            },
            NotifyError::NoRecipient => "E-mail message creation failed.".to_string(),
        }
    }
}

/// Every one of `addresses` is an e-mail address.
pub open spec fn all_addresses(addresses: Seq<Seq<char>>) -> bool {
    forall|i: int| 0 <= i < addresses.len() ==> is_address(#[trigger] addresses[i])
}

/// The position of the first of `addresses` that is no e-mail address.
pub open spec fn first_illegal(addresses: Seq<Seq<char>>) -> int {
    choose|i: int|
        0 <= i < addresses.len() && !is_address(#[trigger] addresses[i]) && forall|j: int|
            0 <= j < i ==> is_address(#[trigger] addresses[j])
}

/// The dispatch that the given account, recipients and text make, or the
/// reason why they make none. The sending address is looked at first, then
/// the recipients in order.
pub open spec fn prepared(
    server: Seq<char>,
    from_address: Seq<char>,
    secret: Seq<char>,
    to_addresses: Seq<Seq<char>>,
    subject: Seq<char>,
    body: Seq<Seq<char>>,
) -> Result<DispatchView, NotifyFailure> {
    if !is_address(from_address) {
        Err(NotifyFailure::IllegalFromAddress(from_address))
    } else if !all_addresses(to_addresses) {
        Err(NotifyFailure::IllegalToAddress(to_addresses[first_illegal(to_addresses)]))
    } else if to_addresses.len() == 0 {
        Err(NotifyFailure::NoRecipient)
    } else {
        Ok(DispatchView { server, from_address, secret, to_addresses, subject, body })
    }
}

/// What the preparation of a dispatch came to, as contracts see it.
pub open spec fn dispatch_view(r: Result<Dispatch, NotifyError>) -> Result<
    DispatchView,
    NotifyFailure,
> {
    match r {
        Ok(d) => Ok(d@),
        Err(e) => Err(e@),
    }
}

/// A copy of `lines`.
pub fn copy_lines(lines: &Vec<String>) -> (r: Vec<String>)
    ensures
        lines_of(r@) == lines_of(lines@),
{
    let mut r: Vec<String> = Vec::new();
    let mut i: usize = 0;
    while i < lines.len()
        invariant
            i <= lines@.len(),
            r@.len() == i,
            forall|k: int| 0 <= k < i ==> (#[trigger] r@[k])@ == lines@[k]@,
        decreases lines.len() - i,
    {
        r.push(lines[i].clone());
        i += 1;
    }
    assert(lines_of(r@) =~= lines_of(lines@));
    r
}

/// Checks the addresses of a notification and puts together what the
/// transport needs to send it.
pub fn prepare(
    server: &str,
    from_address: &str,
    secret: &str,
    to_addresses: &Vec<String>,
    subject: String,
    body: Vec<String>,
) -> (r: Result<Dispatch, NotifyError>)
    ensures
        dispatch_view(r) == prepared(
            server@,
            from_address@,
            secret@,
            lines_of(to_addresses@),
            subject@,
            lines_of(body@),
        ),
{
    if !parses_as_address(from_address) {
        return Err(NotifyError::IllegalFromAddress(from_address.to_string()));
    }
    let ghost to = lines_of(to_addresses@);
    let mut i: usize = 0;
    while i < to_addresses.len()
        invariant
            i <= to_addresses@.len(),
            to == lines_of(to_addresses@),
            is_address(from_address@),
            forall|k: int| 0 <= k < i ==> is_address(#[trigger] to[k]),
        decreases to_addresses.len() - i,
    {
        if !parses_as_address(to_addresses[i].as_str()) {
            proof {
                let k = first_illegal(to);
                assert(to[i as int] == to_addresses@[i as int]@);
                assert(!is_address(to[i as int]));
                assert(!all_addresses(to));
                assert(0 <= k < to.len() && !is_address(to[k]) && forall|j: int|
                    0 <= j < k ==> is_address(#[trigger] to[j]));
                if k < i {
                    assert(is_address(to[k]));
                } else if i < k {
                    assert(is_address(to[i as int]));
                }
            }
            return Err(NotifyError::IllegalToAddress(to_addresses[i].clone()));
        }
        i += 1;
    }
    if to_addresses.len() == 0 {
        return Err(NotifyError::NoRecipient);
    }
    Ok(
        Dispatch {
            server: server.to_string(),
            from_address: from_address.to_string(),
            secret: secret.to_string(),
            to_addresses: copy_lines(to_addresses),
            subject,
            body,
        },
    )
}

} // verus!
