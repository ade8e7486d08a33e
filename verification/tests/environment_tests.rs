use ddns_monitor::mail::{Dispatch, NotifyError};
use ddns_monitor::monitored_set::MonitoredSet;
use ddns_monitor::{
    current_ip, initialize_state, monitor_state, send_change_notification,
    send_initial_notification, send_notification, InitError, MailEnvironment, ResolutionError,
    MAX_ENVIRONMENT_HOSTS,
};

fn strings(lines: &[&str]) -> Vec<String> {
    lines.iter().map(|line| line.to_string()).collect()
}

fn pairs(entries: &[(&str, &str)]) -> Vec<(String, String)> {
    entries
        .iter()
        .map(|(name, address)| (name.to_string(), address.to_string()))
        .collect()
}

fn env() -> MailEnvironment {
    MailEnvironment {
        from_address: Some("monitor@example.com".to_string()),
        from_password: Some("hunter2".to_string()),
        to_address: Some("ops@example.com".to_string()),
    }
}

fn dispatch(subject: &str, body: &[&str]) -> Dispatch {
    Dispatch {
        server: "smtp.gmail.com".to_string(),
        from_address: "monitor@example.com".to_string(),
        secret: "hunter2".to_string(),
        to_addresses: strings(&["ops@example.com"]),
        subject: subject.to_string(),
        body: strings(body),
    }
}

fn ok(address: &str) -> Result<String, ResolutionError> {
    Ok(address.to_string())
}

fn hosts_in_environment() -> Vec<Option<String>> {
    vec![Some("clickonetwo.io".to_string()), Some("localhost".to_string()), Some(String::new())]
}

fn initialize_state_for_tests() -> Result<MonitoredSet, InitError> {
    initialize_state(&hosts_in_environment(), &vec![ok("192.0.2.7"), ok("127.0.0.1")])
}

#[test]
fn lib_test_lookup() {
    let found = Some(vec!["192.0.2.7".to_string()]);
    let cname_ip = current_ip("www.clickonetwo.io", &found)
        .expect("Dynamic DNS lookup failed for CNAME www.clickonetwo.io");
    let a_ip = current_ip("clickonetwo.io", &found)
        .expect("Dynamic DNS lookup failed for A clickonetwo.io");
    assert_eq!(cname_ip, a_ip, "CNAME and A record don't match");
}

#[test]
fn monitor_test_lookup() {
    let found = Some(vec!["192.0.2.7".to_string(), "192.0.2.8".to_string()]);
    let cname_ip = current_ip("www.clickonetwo.io", &found)
        .expect("Dynamic DNS lookup failed for CNAME www.clickonetwo.io");
    let a_ip = current_ip("clickonetwo.io", &found)
        .expect("Dynamic DNS lookup failed for A clickonetwo.io");
    assert_eq!(cname_ip, a_ip, "CNAME and A record don't match");
    assert_eq!(a_ip, "192.0.2.7");
}

#[test]
fn lib_test_change_notification() {
    let sent = send_change_notification(&env(), "Some host", "old address", "new address")
        .expect("Failed to send email notification of address change");
    assert_eq!(
        sent,
        dispatch(
            "DNS change for Some host",
            &[
                "The IP address of Some host has changed.",
                "-- The old address was: old address.",
                "-- The new address is: new address.",
                "You must reconfigure the VPN tunnel.",
            ]
        )
    );
}

#[test]
fn lib_test_initialize_state() {
    let state = initialize_state_for_tests().expect("Couldn't initialize state for tests?");
    assert_eq!(state.len(), 2);
    send_initial_notification(&env(), &state, false)
        .expect("Failed to send initial monitor notification");
    send_initial_notification(&env(), &state, true)
        .expect("Failed to send restart monitor notification");
}

#[test]
fn lib_test_monitor_state_initial() {
    let mut state = initialize_state_for_tests().expect("Couldn't initialize state for tests?");
    let report = monitor_state(&mut state, &vec![ok("192.0.2.7"), ok("127.0.0.1")], &vec![])
        .expect("Monitor state failed");
    assert_eq!(report.count(), 0);
}

#[test]
fn lib_test_monitor_state_subsequent() {
    let mut state = MonitoredSet::from_entries(pairs(&[
        ("clickonetwo.io", "192.0.2.7"),
        ("localhost", "incorrect"),
    ]))
    .expect("Couldn't initialize state for tests?");
    let report = monitor_state(&mut state, &vec![ok("192.0.2.7"), ok("127.0.0.1")], &vec![true])
        .expect("Monitor state failed");
    assert_eq!(report.count(), 1);
    assert_eq!(state.get("localhost"), Some(&"127.0.0.1".to_string()));
}

#[test]
fn start_is_announced_with_every_host() {
    let state = initialize_state_for_tests().expect("two hosts");
    assert_eq!(
        send_initial_notification(&env(), &state, false),
        Ok(dispatch(
            "Dynamic DNS monitoring has started",
            &[
                "Dynamic DNS monitoring has started on the following hosts:",
                "-- Host: clickonetwo.io, Current address: 192.0.2.7",
                "-- Host: localhost, Current address: 127.0.0.1",
                "You will be notified if any of these addresses change.",
            ]
        ))
    );
    assert_eq!(
        send_initial_notification(&env(), &MonitoredSet::new(), true),
        Ok(dispatch(
            "Dynamic DNS monitoring has been restarted",
            &[
                "Dynamic DNS monitoring has been restarted on the following hosts:",
                "You will be notified if any of these addresses change.",
            ]
        ))
    );
}

#[test]
fn missing_values_are_named_in_order() {
    let nothing = MailEnvironment { from_address: None, from_password: None, to_address: None };
    assert_eq!(
        send_notification(&nothing, String::new(), vec![]),
        Err(NotifyError::MissingFromAddress)
    );
    let nothing = MailEnvironment { from_address: None, from_password: None, to_address: None };
    let sender = MailEnvironment { from_address: env().from_address, ..nothing };
    assert_eq!(
        send_notification(&sender, String::new(), vec![]),
        Err(NotifyError::MissingFromPassword)
    );
    let no_recipient = MailEnvironment { to_address: None, ..env() };
    assert_eq!(
        send_notification(&no_recipient, String::new(), vec![]),
        Err(NotifyError::MissingToAddress)
    );
}

#[test]
fn illegal_addresses_in_the_environment_are_refused() {
    let bad_sender = MailEnvironment { from_address: Some("nobody".to_string()), ..env() };
    assert_eq!(
        send_notification(&bad_sender, String::new(), vec![]),
        Err(NotifyError::IllegalFromAddress("nobody".to_string()))
    );
    let bad_recipient = MailEnvironment { to_address: Some("no one".to_string()), ..env() };
    assert_eq!(
        send_notification(&bad_recipient, String::new(), vec![]),
        Err(NotifyError::IllegalToAddress("no one".to_string()))
    );
}

#[test]
fn notification_from_the_environment() {
    assert_eq!(
        send_notification(&env(), "subject".to_string(), strings(&["body"])),
        Ok(dispatch("subject", &["body"]))
    );
}

#[test]
fn hosts_are_read_up_to_the_first_gap() {
    let values = vec![
        Some("a".to_string()),
        None,
        Some("c".to_string()),
    ];
    let state = initialize_state(&values, &vec![ok("1.1.1.1"), ok("3.3.3.3")]).expect("one host");
    assert_eq!(state.entries(), pairs(&[("a", "1.1.1.1")]));
}

#[test]
fn no_host_in_the_environment() {
    assert_eq!(initialize_state(&vec![], &vec![]), Err(InitError::NoHosts));
    assert_eq!(initialize_state(&vec![None], &vec![ok("1.1.1.1")]), Err(InitError::NoHosts));
    assert_eq!(
        initialize_state(&vec![Some(String::new()), Some("b".to_string())], &vec![]),
        Err(InitError::NoHosts)
    );
    assert_eq!(InitError::NoHosts.message(), "No DDNS_HOST_1 value found in environment");
}

#[test]
fn a_host_that_is_not_resolved_fails_the_start() {
    let values = vec![Some("a".to_string()), Some("b".to_string())];
    let failure = ResolutionError::LookupFailed("b".to_string());
    assert_eq!(
        initialize_state(&values, &vec![ok("1.1.1.1"), Err(failure.clone())]),
        Err(InitError::Resolution(failure))
    );
    assert_eq!(
        initialize_state(&values, &vec![ok("1.1.1.1")]),
        Err(InitError::Resolution(ResolutionError::LookupFailed("b".to_string())))
    );
    assert_eq!(
        initialize_state(&values, &vec![ok(""), ok("2.2.2.2")]),
        Err(InitError::Resolution(ResolutionError::NoAddress("a".to_string())))
    );
    assert_eq!(
        InitError::Resolution(ResolutionError::NoAddress("a".to_string())).message(),
        "No DNS address entry for a"
    );
}

#[test]
fn a_host_named_twice_is_monitored_once() {
    let values = vec![Some("a".to_string()), Some("b".to_string()), Some("a".to_string())];
    let state = initialize_state(&values, &vec![ok("1.1.1.1"), ok("2.2.2.2"), ok("3.3.3.3")])
        .expect("two hosts");
    assert_eq!(state.entries(), pairs(&[("a", "3.3.3.3"), ("b", "2.2.2.2")]));
}

#[test]
fn the_environment_names_at_most_ninety_nine_hosts() {
    assert_eq!(MAX_ENVIRONMENT_HOSTS, 99);
    let values: Vec<Option<String>> = (0..120).map(|i| Some(format!("host{}", i))).collect();
    let answers: Vec<Result<String, ResolutionError>> =
        (0..120).map(|i| Ok(format!("10.0.0.{}", i))).collect();
    let state = initialize_state(&values, &answers).expect("resolved");
    assert_eq!(state.len(), 99);
    assert_eq!(state.get("host98"), Some(&"10.0.0.98".to_string()));
    assert_eq!(state.get("host99"), None);
}
