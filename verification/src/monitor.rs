//! Monitoring a configuration: the notifications it sends, one poll cycle,
//! and the loop that drives the cycles.

use vstd::prelude::*;
use vstd::string::*;
use crate::configure::Configuration;
use crate::detect::{
    answers_view, cycle, monitor_state, Change, ChangeReport, CycleFailure, MonitorError,
};
use crate::mail::{
    dispatch_view, prepare, prepared, Dispatch, DispatchView, NotifyError, NotifyFailure,
};
use crate::monitored_set::Entries;
use crate::resolve::ResolutionError;
use crate::text::{decimal, lines_of, parse_decimal, text_of};

verus! {

/// The subject of the notification that monitoring has begun.
pub open spec fn initial_subject() -> Seq<char> {
    "Dynamic DNS monitoring status"@
}

/// The line that opens the notification that monitoring has begun.
pub open spec fn initial_head(hostname: Seq<char>, first: bool) -> Seq<char> {
    "Dynamic DNS monitoring from "@ + hostname + " is "@ + (if first {
        "starting"@
    } else {
        "restarting"@
    }) + " for the following hosts:"@
}

/// The line that tells of one host in that notification.
pub open spec fn initial_host_line(host: (Seq<char>, Seq<char>), first: bool) -> Seq<char> {
    "-- Host: "@ + host.0 + ", "@ + (if first {
        "Initial"@
    } else {
        "Last known"@
    }) + " address: "@ + host.1
}

/// The line that closes that notification.
pub open spec fn initial_tail() -> Seq<char> {
    "You will be notified if any of these addresses change."@
}

/// The body of the notification that monitoring of `state` has begun on
/// the machine `hostname`: the head, one line for each host in order, and
/// the tail.
pub open spec fn initial_body(hostname: Seq<char>, first: bool, state: Entries) -> Seq<
    Seq<char>,
> {
    seq![initial_head(hostname, first)] + state.map_values(
        |host: (Seq<char>, Seq<char>)| initial_host_line(host, first),
    ) + seq![initial_tail()]
}

/// The subject of the notification that the address of `name` changed.
pub open spec fn change_subject(name: Seq<char>) -> Seq<char> {
    "DNS change for "@ + name
}

/// The body of the notification that the address of `name` changed.
pub open spec fn change_body(
    name: Seq<char>,
    old_address: Seq<char>,
    new_address: Seq<char>,
) -> Seq<Seq<char>> {
    seq![
        "The IP address of "@ + name + " has changed."@,
        "-- The old IP address was: "@ + old_address + "."@,
        "-- The new IP address is: "@ + new_address + "."@,
        "You must reconfigure any services that had the old IP address."@,
    ]
}

/// The subject of the notification that a poll cycle failed.
pub open spec fn error_subject() -> Seq<char> {
    "DNS monitoring temporary failure"@
}

/// The body of the notification that a poll cycle failed with `error`.
pub open spec fn error_body(error: Seq<char>) -> Seq<Seq<char>> {
    seq![
        "DNS monitoring reported an error: "@ + error,
        "A retry will be performed on the normal schedule."@,
    ]
}

/// The dispatch that `config` makes of a subject and a body, or the reason
/// why it makes none.
pub open spec fn dispatch_of(
    config: Configuration,
    subject: Seq<char>,
    body: Seq<Seq<char>>,
) -> Result<DispatchView, NotifyFailure> {
    prepared(
        config.from_server@,
        config.from_address@,
        config.encrypted_password@,
        lines_of(config.to_addresses@),
        subject,
        body,
    )
}

/// Prepares the notification that monitoring has begun, or has begun
/// again, on the machine `hostname`. It names every monitored host with
/// its remembered address.
pub fn send_initial_notification(config: &Configuration, hostname: &str, first: bool) -> (r: Result<
    Dispatch,
    NotifyError,
>)
    ensures
        dispatch_view(r) == dispatch_of(
            *config,
            initial_subject(),
            initial_body(hostname@, first, config.state@),
        ),
{
    let subject = "Dynamic DNS monitoring status".to_string();
    let mut body: Vec<String> = Vec::new();
    let mut head = "Dynamic DNS monitoring from ".to_string();
    head.append(hostname);
    head.append(" is ");
    head.append(
        if first {
            "starting"
        } else {
            "restarting"
        },
    );
    head.append(" for the following hosts:");
    body.push(head);
    let ghost state = config.state@;
    let ghost told = state.map_values(
        |host: (Seq<char>, Seq<char>)| initial_host_line(host, first),
    );
    let mut i: usize = 0;
    while i < config.state.len()
        invariant
            i <= state.len(),
            state == config.state@,
            told == state.map_values(
                |host: (Seq<char>, Seq<char>)| initial_host_line(host, first),
            ),
            lines_of(body@) == seq![initial_head(hostname@, first)] + told.take(i as int),
        decreases state.len() - i,
    {
        let mut line = "-- Host: ".to_string();
        line.append(config.state.name_at(i).as_str());
        line.append(", ");
        line.append(
            if first {
                "Initial"
            } else {
                "Last known"
            },
        );
        line.append(" address: ");
        line.append(config.state.address_at(i).as_str());
        assert(line@ == told[i as int]);
        let ghost before = lines_of(body@);
        body.push(line);
        assert(lines_of(body@) =~= before.push(told[i as int]));
        assert(lines_of(body@) =~= seq![initial_head(hostname@, first)] + told.take(i + 1));
        i += 1;
    }
    let ghost before = lines_of(body@);
    body.push("You will be notified if any of these addresses change.".to_string());
    assert(told.take(i as int) =~= told);
    assert(lines_of(body@) =~= before.push(initial_tail()));
    assert(lines_of(body@) =~= initial_body(hostname@, first, state));
    send_notification(config, subject, body)
}

/// Prepares the notification that the address of `name` changed from
/// `old_address` to `new_address`.
pub fn send_change_notification(
    config: &Configuration,
    name: &str,
    old_address: &str,
    new_address: &str,
) -> (r: Result<Dispatch, NotifyError>)
    ensures
        dispatch_view(r) == dispatch_of(
            *config,
            change_subject(name@),
            change_body(name@, old_address@, new_address@),
        ),
{
    let mut subject = "DNS change for ".to_string();
    subject.append(name);
    let mut first = "The IP address of ".to_string();
    first.append(name);
    first.append(" has changed.");
    let mut second = "-- The old IP address was: ".to_string();
    second.append(old_address);
    second.append(".");
    let mut third = "-- The new IP address is: ".to_string();
    third.append(new_address);
    third.append(".");
    let mut body: Vec<String> = Vec::new();
    body.push(first);
    body.push(second);
    body.push(third);
    body.push("You must reconfigure any services that had the old IP address.".to_string());
    assert(lines_of(body@) =~= change_body(name@, old_address@, new_address@));
    send_notification(config, subject, body)
}

/// Prepares the notification that a poll cycle failed with `error` and
/// will be tried again.
pub fn send_error_notification(config: &Configuration, error: &str) -> (r: Result<
    Dispatch,
    NotifyError,
>)
    ensures
        dispatch_view(r) == dispatch_of(*config, error_subject(), error_body(error@)),
{
    let subject = "DNS monitoring temporary failure".to_string();
    let mut first = "DNS monitoring reported an error: ".to_string();
    first.append(error);
    let mut body: Vec<String> = Vec::new();
    body.push(first);
    body.push("A retry will be performed on the normal schedule.".to_string());
    assert(lines_of(body@) =~= error_body(error@));
    send_notification(config, subject, body)
}

/// Prepares a notification with the given subject and body for the
/// transport: it goes from the configured account to every configured
/// recipient. The sending address is checked first, then the recipients in
/// order; there has to be at least one.
pub fn send_notification(config: &Configuration, subject: String, body: Vec<String>) -> (r: Result<
    Dispatch,
    NotifyError,
>)
    ensures
        dispatch_view(r) == dispatch_of(*config, subject@, lines_of(body@)),
{
    prepare(
        config.from_server.as_str(),
        config.from_address.as_str(),
        config.encrypted_password.as_str(),
        &config.to_addresses,
        subject,
        body,
    )
}

/// The line that opens the log of a start.
pub open spec fn startup_head() -> Seq<char> {
    "Initializing state monitoring..."@
}

/// The line that the log of a start holds for one host.
pub open spec fn remembered_line(host: (Seq<char>, Seq<char>)) -> Seq<char> {
    "The remembered address for "@ + host.0 + " is "@ + host.1
}

/// The log of a start: the head, then one line for each host in order.
pub open spec fn startup_log(state: Entries) -> Seq<Seq<char>> {
    seq![startup_head()] + state.map_values(|host: (Seq<char>, Seq<char>)| remembered_line(host))
}

/// Begins the monitoring of `config` on the machine `hostname`: gives the
/// lines to log, which name every host with its remembered address, and
/// prepares the notification that monitoring has begun.
pub fn initialize_state(config: &Configuration, hostname: &str, first: bool) -> (r: (
    Vec<String>,
    Result<Dispatch, NotifyError>,
))
    ensures
        lines_of(r.0@) == startup_log(config.state@),
        dispatch_view(r.1) == dispatch_of(
            *config,
            initial_subject(),
            initial_body(hostname@, first, config.state@),
        ),
{
    let mut log: Vec<String> = Vec::new();
    log.push("Initializing state monitoring...".to_string());
    let ghost state = config.state@;
    let ghost told = state.map_values(|host: (Seq<char>, Seq<char>)| remembered_line(host));
    let mut i: usize = 0;
    while i < config.state.len()
        invariant
            i <= state.len(),
            state == config.state@,
            told == state.map_values(|host: (Seq<char>, Seq<char>)| remembered_line(host)),
            lines_of(log@) == seq![startup_head()] + told.take(i as int),
        decreases state.len() - i,
    {
        let mut line = "The remembered address for ".to_string();
        line.append(config.state.name_at(i).as_str());
        line.append(" is ");
        line.append(config.state.address_at(i).as_str());
        assert(line@ == told[i as int]);
        let ghost before = lines_of(log@);
        log.push(line);
        assert(lines_of(log@) =~= before.push(told[i as int]));
        assert(lines_of(log@) =~= seq![startup_head()] + told.take(i + 1));
        i += 1;
    }
    assert(told.take(i as int) =~= told);
    (log, send_initial_notification(config, hostname, first))
}

/// Runs one poll cycle on the hosts of `config`. `answers` holds what the
/// resolver said of each host, in the order of the set, and `delivered`
/// what the transport said of each change notification, in the order of
/// the report. The hosts are updated only where every host was resolved
/// and every notification went out; nothing else in `config` changes.
pub fn monitor_once(
    config: &mut Configuration,
    answers: &Vec<Result<String, ResolutionError>>,
    delivered: &Vec<bool>,
) -> (r: Result<ChangeReport, MonitorError>)
    requires
        old(config).wf(),
    ensures
        final(config).wf(),
        final(config).from_server == old(config).from_server,
        final(config).from_address == old(config).from_address,
        final(config).encrypted_password == old(config).encrypted_password,
        final(config).to_addresses == old(config).to_addresses,
        match r {
            Ok(report) => cycle(old(config).state@, answers_view(answers@), delivered@) == Ok::<
                (Entries, Seq<Change>),
                CycleFailure,
            >((final(config).state@, report@)),
            Err(e) => cycle(old(config).state@, answers_view(answers@), delivered@) == Err::<
                (Entries, Seq<Change>),
                CycleFailure,
            >(e@) && final(config).state@ == old(config).state@,
        },
{
    monitor_state(&mut config.state, answers, delivered)
}

/// The seconds to wait before monitoring starts, where nothing else is
/// said.
pub const DEFAULT_START_DELAY_SECONDS: u64 = 300;

/// The seconds between two poll cycles, where nothing else is said.
pub const DEFAULT_INTERVAL_SECONDS: u64 = 3600;

/// The number of seconds that a setting stands for: the number it writes,
/// and `default` where it is missing or writes none.
pub open spec fn seconds_of(value: Option<Seq<char>>, default: u64) -> u64 {
    match value {
        Some(text) => match decimal(text) {
            Some(seconds) => seconds,
            None => default,
        },
        None => default,
    }
}

/// Reads a number of seconds from a setting, with `default` standing in
/// where the setting is missing or cannot be read.
pub fn seconds_or(value: &Option<String>, default: u64) -> (seconds: u64)
    ensures
        seconds == seconds_of(text_of(*value), default),
{
    match value {
        Some(text) => match parse_decimal(text.as_str()) {
            Some(seconds) => seconds,
            None => default,
        },
        None => default,
    }
}

/// The seconds to wait before monitoring starts.
pub fn start_delay(value: &Option<String>) -> (seconds: u64)
    ensures
        seconds == seconds_of(text_of(*value), DEFAULT_START_DELAY_SECONDS),
{
    seconds_or(value, DEFAULT_START_DELAY_SECONDS)
}

/// The seconds between two poll cycles.
pub fn poll_interval(value: &Option<String>) -> (seconds: u64)
    ensures
        seconds == seconds_of(text_of(*value), DEFAULT_INTERVAL_SECONDS),
{
    seconds_or(value, DEFAULT_INTERVAL_SECONDS)
}

} // verus!
