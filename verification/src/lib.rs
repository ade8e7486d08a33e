//! Tracks the addresses of dynamic-DNS hostnames and prepares the
//! notifications that report their changes.
//!
//! The items of this file serve a monitor that is configured through its
//! environment; `configure` and `monitor` serve one that keeps a
//! configuration record.

use vstd::prelude::*;
use vstd::string::*;

pub mod configure;
pub mod detect;
pub mod mail;
pub mod monitor;
pub mod monitor_loop;
pub mod monitored_set;
pub mod recipients;
pub mod reconcile;
pub mod resolve;
pub mod secret;
pub mod text;

pub use crate::configure::{Configuration, State};
pub use crate::resolve::{current_ip, ResolutionError};

pub use crate::detect::monitor_state;

use crate::detect::{
    all_answered, answered, answers_view, failure_at, first_unanswered, lemma_first_unanswered,
    refreshed, Answers,
};
use crate::mail::{
    dispatch_view, prepare, prepared, Dispatch, DispatchView, NotifyError, NotifyFailure,
};
use crate::monitored_set::{collected, Entries, MonitoredSet};
use crate::resolve::{outcome_view, Failure};
use crate::text::{lines_of, text_of, texts_of};

verus! {

/// What the environment says of the sending account and the recipient:
/// each value as it was found, or `None` where the variable is not set.
#[derive(Debug, PartialEq, Eq)]
pub struct MailEnvironment {
    /// The address of the sending account.
    pub from_address: Option<String>,
    /// The password of that account.
    pub from_password: Option<String>,
    /// The address that is notified.
    pub to_address: Option<String>,
}

/// The dispatch that the environment makes of a subject and a body, or
/// the reason why it makes none. The three values are looked for in the
/// order sender, password, recipient; mail goes out through the default
/// server.
pub open spec fn dispatch_from(
    env: MailEnvironment,
    subject: Seq<char>,
    body: Seq<Seq<char>>,
) -> Result<DispatchView, NotifyFailure> {
    if env.from_address is None {
        Err(NotifyFailure::MissingFromAddress)
    } else if env.from_password is None {
        Err(NotifyFailure::MissingFromPassword)
    } else if env.to_address is None {
        Err(NotifyFailure::MissingToAddress)
    } else {
        prepared(
            crate::configure::default_server(),
            env.from_address->0@,
            env.from_password->0@,
            seq![env.to_address->0@],
            subject,
            body,
        )
    }
}

/// How the notification that monitoring has begun speaks of the start.
pub open spec fn start_action(restart: bool) -> Seq<char> {
    if restart {
        "has been restarted"@
    } else {
        "has started"@
    }
}

/// The line that tells of one host in that notification.
pub open spec fn current_host_line(host: (Seq<char>, Seq<char>)) -> Seq<char> {
    "-- Host: "@ + host.0 + ", Current address: "@ + host.1
}

/// The body of the notification that monitoring of `state` has begun.
pub open spec fn start_body(state: Entries, restart: bool) -> Seq<Seq<char>> {
    seq!["Dynamic DNS monitoring "@ + start_action(restart) + " on the following hosts:"@]
        + state.map_values(|host: (Seq<char>, Seq<char>)| current_host_line(host))
        + seq!["You will be notified if any of these addresses change."@]
}

/// The body of the notification that the address of `name` changed.
pub open spec fn tunnel_change_body(
    name: Seq<char>,
    old_address: Seq<char>,
    new_address: Seq<char>,
) -> Seq<Seq<char>> {
    seq![
        "The IP address of "@ + name + " has changed."@,
        "-- The old address was: "@ + old_address + "."@,
        "-- The new address is: "@ + new_address + "."@,
        "You must reconfigure the VPN tunnel."@,
    ]
}

/// Prepares the notification that monitoring of `state` has started, or
/// has been restarted. It names every host with its current address.
pub fn send_initial_notification(env: &MailEnvironment, state: &State, restart: bool) -> (r: Result<
    Dispatch,
    NotifyError,
>)
    ensures
        dispatch_view(r) == dispatch_from(
            *env,
            "Dynamic DNS monitoring "@ + start_action(restart),
            start_body(state@, restart),
        ),
{
    let action = if restart {
        "has been restarted"
    } else {
        "has started"
    };
    let mut subject = "Dynamic DNS monitoring ".to_string();
    subject.append(action);
    let mut head = "Dynamic DNS monitoring ".to_string();
    head.append(action);
    head.append(" on the following hosts:");
    let mut body: Vec<String> = Vec::new();
    body.push(head);
    let ghost told = state@.map_values(|host: (Seq<char>, Seq<char>)| current_host_line(host));
    let ghost head_line = "Dynamic DNS monitoring "@ + start_action(restart)
        + " on the following hosts:"@;
    let mut i: usize = 0;
    while i < state.len()
        invariant
            i <= state@.len(),
            told == state@.map_values(|host: (Seq<char>, Seq<char>)| current_host_line(host)),
            lines_of(body@) == seq![head_line] + told.take(i as int),
        decreases state@.len() - i,
    {
        let mut line = "-- Host: ".to_string();
        line.append(state.name_at(i).as_str());
        line.append(", Current address: ");
        line.append(state.address_at(i).as_str());
        assert(line@ == told[i as int]);
        let ghost before = lines_of(body@);
        body.push(line);
        assert(lines_of(body@) =~= before.push(told[i as int]));
        assert(lines_of(body@) =~= seq![head_line] + told.take(i + 1));
        i += 1;
    }
    let ghost before = lines_of(body@);
    body.push("You will be notified if any of these addresses change.".to_string());
    assert(told.take(i as int) =~= told);
    assert(lines_of(body@) =~= before.push(
        "You will be notified if any of these addresses change."@,
    ));
    assert(lines_of(body@) =~= start_body(state@, restart));
    send_notification(env, subject, body)
}

/// Prepares the notification that the address of `name` changed from
/// `old_address` to `new_address`.
pub fn send_change_notification(
    env: &MailEnvironment,
    name: &str,
    old_address: &str,
    new_address: &str,
) -> (r: Result<Dispatch, NotifyError>)
    ensures
        dispatch_view(r) == dispatch_from(
            *env,
            "DNS change for "@ + name@,
            tunnel_change_body(name@, old_address@, new_address@),
        ),
{
    let mut subject = "DNS change for ".to_string();
    subject.append(name);
    let mut first = "The IP address of ".to_string();
    first.append(name);
    first.append(" has changed.");
    let mut second = "-- The old address was: ".to_string();
    second.append(old_address);
    second.append(".");
    let mut third = "-- The new address is: ".to_string();
    third.append(new_address);
    third.append(".");
    let mut body: Vec<String> = Vec::new();
    body.push(first);
    body.push(second);
    body.push(third);
    body.push("You must reconfigure the VPN tunnel.".to_string());
    assert(lines_of(body@) =~= tunnel_change_body(name@, old_address@, new_address@));
    send_notification(env, subject, body)
}

/// Prepares a notification with the given subject and body for the
/// transport, from what the environment says of the account and the
/// recipient.
pub fn send_notification(env: &MailEnvironment, subject: String, body: Vec<String>) -> (r: Result<
    Dispatch,
    NotifyError,
>)
    ensures
        dispatch_view(r) == dispatch_from(*env, subject@, lines_of(body@)),
{
    match &env.from_address {
        None => Err(NotifyError::MissingFromAddress),
        Some(from_address) => match &env.from_password {
            None => Err(NotifyError::MissingFromPassword),
            Some(from_password) => match &env.to_address {
                None => Err(NotifyError::MissingToAddress),
                Some(to_address) => {
                    let mut to: Vec<String> = Vec::new();
                    to.push(to_address.clone());
                    assert(lines_of(to@) =~= seq![to_address@]);
                    prepare(
                        "smtp.gmail.com",
                        from_address.as_str(),
                        from_password.as_str(),
                        &to,
                        subject,
                        body,
                    )
                },
            },
        },
    }
}

/// The number of hosts that the environment can name.
pub const MAX_ENVIRONMENT_HOSTS: usize = 99;

/// The first position at or after `from` at which the environment names
/// no host: the value there is missing or empty, or the values or the
/// hosts that the environment can name have run out.
pub open spec fn named_until(values: Seq<Option<Seq<char>>>, from: int) -> int
    decreases values.len() - from,
{
    if 0 <= from < values.len() && from < MAX_ENVIRONMENT_HOSTS && values[from] is Some
        && values[from]->0.len() > 0 {
        named_until(values, from + 1)
    } else {
        from
    }
}

/// The hosts that the environment names, each without an address yet:
/// the values in order, up to the first that is missing or empty.
pub open spec fn named_hosts(values: Seq<Option<Seq<char>>>) -> Entries {
    Seq::new(
        named_until(values, 0) as nat,
        |i: int| (values[i]->0, Seq::<char>::empty()),
    )
}

/// Why no initial state could be made.
#[derive(Debug, PartialEq, Eq)]
pub enum InitError {
    /// A host was not resolved.
    Resolution(ResolutionError),
    /// The environment names no host.
    NoHosts,
}

/// An `InitError` as contracts see it.
pub enum InitFailure {
    Resolution(Failure),
    NoHosts,
}

impl View for InitError {
    type V = InitFailure;

    open spec fn view(&self) -> InitFailure {
        match self {
            InitError::Resolution(e) => InitFailure::Resolution(e@),
            InitError::NoHosts => InitFailure::NoHosts,
        }
    }
}

impl InitError {
    /// The text that reports the error.
    pub fn message(&self) -> (r: String)
        ensures
            r@ == match self@ {
                InitFailure::Resolution(f) => crate::resolve::failure_message(f),
                InitFailure::NoHosts => "No DDNS_HOST_1 value found in environment"@,
            },
    {
        match self {
            InitError::Resolution(e) => e.message(),
            InitError::NoHosts => "No DDNS_HOST_1 value found in environment".to_string(),
        }
    }
}

/// The state that monitoring begins with: every host that the environment
/// names, at the address it resolves to now. A host that is named twice
/// is monitored once, at the address resolved for it last. It fails with
/// the failure of the first host that was not resolved, and where no host
/// is named.
pub open spec fn initial_state(values: Seq<Option<Seq<char>>>, answers: Answers) -> Result<
    Entries,
    InitFailure,
> {
    let hosts = named_hosts(values);
    if !all_answered(hosts, answers) {
        Err(InitFailure::Resolution(failure_at(hosts, answers, first_unanswered(hosts, answers))))
    } else if hosts.len() == 0 {
        Err(InitFailure::NoHosts)
    } else {
        Ok(collected(refreshed(hosts, answers)))
    }
}

proof fn lemma_named_until(values: Seq<Option<Seq<char>>>, from: int)
    requires
        0 <= from <= values.len(),
        from <= MAX_ENVIRONMENT_HOSTS,
    ensures
        from <= named_until(values, from) <= values.len(),
        named_until(values, from) <= MAX_ENVIRONMENT_HOSTS,
        forall|i: int|
            from <= i < named_until(values, from) ==> (#[trigger] values[i]) is Some
                && values[i]->0.len() > 0,
    decreases values.len() - from,
{
    if from < values.len() && from < MAX_ENVIRONMENT_HOSTS && values[from] is Some
        && values[from]->0.len() > 0 {
        lemma_named_until(values, from + 1);
    }
}

/// Makes the state that monitoring begins with. `values` holds what the
/// environment says of the first host, the second and so on, `None` where
/// it says nothing; `answers` holds what the resolver said of each host
/// that is named, in order.
pub fn initialize_state(
    values: &Vec<Option<String>>,
    answers: &Vec<Result<String, ResolutionError>>,
) -> (r: Result<State, InitError>)
    ensures
        match r {
            Ok(state) => state.wf() && initial_state(texts_of(values@), answers_view(answers@))
                == Ok::<Entries, InitFailure>(state@),
            Err(e) => initial_state(texts_of(values@), answers_view(answers@)) == Err::<
                Entries,
                InitFailure,
            >(e@),
        },
{
    let ghost named = texts_of(values@);
    let ghost all = answers_view(answers@);
    let ghost hosts = named_hosts(named);
    let mut state = MonitoredSet::new();
    let mut i: usize = 0;
    proof {
        lemma_named_until(named, 0);
    }
    while i < values.len() && i < MAX_ENVIRONMENT_HOSTS
        invariant
            named == texts_of(values@),
            all == answers_view(answers@),
            hosts == named_hosts(named),
            i <= values@.len(),
            i <= MAX_ENVIRONMENT_HOSTS,
            i <= hosts.len(),
            named_until(named, 0) == named_until(named, i as int),
            state.wf(),
            forall|j: int| 0 <= j < i ==> answered(all, j),
            state@ == collected(refreshed(hosts, all).take(i as int)),
        ensures
            i == hosts.len(),
        decreases values.len() - i,
    {
        assert(named[i as int] == text_of(values@[i as int]));
        let name = match &values[i] {
            Some(name) => name,
            None => {
                break ;
            },
        };
        if name.as_str().is_empty() {
            break ;
        }
        proof {
            lemma_named_until(named, i + 1);
            assert(hosts[i as int].0 == name@);
        }
        if i >= answers.len() {
            proof {
                lemma_first_unanswered(hosts, all, i as int);
            }
            return Err(InitError::Resolution(ResolutionError::LookupFailed(name.clone())));
        }
        assert(all[i as int] == outcome_view(answers@[i as int]));
        let address = match &answers[i] {
            Err(e) => {
                proof {
                    lemma_first_unanswered(hosts, all, i as int);
                }
                return Err(InitError::Resolution(e.clone()));
            },
            Ok(address) => address,
        };
        if address.as_str().is_empty() {
            proof {
                lemma_first_unanswered(hosts, all, i as int);
            }
            return Err(InitError::Resolution(ResolutionError::NoAddress(name.clone())));
        }
        proof {
            let now = refreshed(hosts, all);
            assert(now.take(i + 1).drop_last() =~= now.take(i as int));
            assert(now.take(i + 1).last() == (name@, address@));
        }
        state.insert(name.clone(), address.clone());
        i += 1;
    }
    proof {
        assert(refreshed(hosts, all).take(i as int) =~= refreshed(hosts, all));
        assert(all_answered(hosts, all));
        if hosts.len() == 0 {
            assert(state@.len() == 0);
        } else {
            crate::monitored_set::lemma_collected_not_empty(refreshed(hosts, all));
        }
    }
    if state.is_empty() {
        return Err(InitError::NoHosts);
    }
    Ok(state)
}

} // verus!
