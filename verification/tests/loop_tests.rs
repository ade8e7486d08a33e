use ddns_monitor::detect::ChangeRecord;
use ddns_monitor::monitor_loop::{Action, Event, MonitorLoop, Phase};
use ddns_monitor::monitored_set::MonitoredSet;
use ddns_monitor::ResolutionError;

fn pairs(entries: &[(&str, &str)]) -> Vec<(String, String)> {
    entries
        .iter()
        .map(|(name, address)| (name.to_string(), address.to_string()))
        .collect()
}

fn two_hosts() -> MonitoredSet {
    MonitoredSet::from_entries(pairs(&[("a", "1.1.1.1"), ("b", "2.2.2.2")])).expect("well formed")
}

fn resolved(addresses: &[&str]) -> Event {
    Event::Resolved(addresses.iter().map(|address| Ok(address.to_string())).collect())
}

fn change(name: &str, old_address: &str, new_address: &str) -> ChangeRecord {
    ChangeRecord {
        name: name.to_string(),
        old_address: old_address.to_string(),
        new_address: new_address.to_string(),
    }
}

fn polling() -> MonitorLoop {
    let mut monitor = MonitorLoop::new(two_hosts(), 60);
    assert_eq!(monitor.step(Event::Begin), Action::Announce);
    assert_eq!(monitor.step(Event::Sent), Action::Resolve);
    monitor
}

#[test]
fn the_loop_begins_with_the_announcement() {
    let mut monitor = MonitorLoop::new(two_hosts(), 3600);
    assert_eq!(monitor.phase(), Phase::Starting);
    assert_eq!(monitor.interval(), 3600);
    assert_eq!(monitor.state(), &two_hosts());
    assert_eq!(monitor.step(Event::Woke), Action::Wait);
    assert_eq!(monitor.step(Event::Begin), Action::Announce);
    assert_eq!(monitor.phase(), Phase::Starting);
    assert_eq!(monitor.step(Event::Sent), Action::Resolve);
    assert_eq!(monitor.phase(), Phase::Polling);
}

#[test]
fn the_loop_gives_up_when_the_announcement_fails() {
    let mut monitor = MonitorLoop::new(two_hosts(), 3600);
    monitor.step(Event::Begin);
    assert_eq!(
        monitor.step(Event::SendFailed("connection refused".to_string())),
        Action::Abort("Initialization error: connection refused".to_string())
    );
    assert_eq!(monitor.phase(), Phase::Aborted);
    assert_eq!(monitor.step(Event::Begin), Action::Wait);
    assert_eq!(monitor.step(Event::Woke), Action::Wait);
    assert_eq!(monitor.phase(), Phase::Aborted);
}

#[test]
fn a_cycle_without_changes_sleeps() {
    let mut monitor = polling();
    assert_eq!(monitor.step(resolved(&["1.1.1.1", "2.2.2.2"])), Action::Sleep(60));
    assert_eq!(monitor.phase(), Phase::Idle);
    assert_eq!(monitor.step(Event::Sent), Action::Wait);
    assert_eq!(monitor.step(Event::Woke), Action::Resolve);
    assert_eq!(monitor.phase(), Phase::Polling);
}

#[test]
fn changes_are_notified_and_then_stored() {
    let mut monitor = polling();
    assert_eq!(
        monitor.step(resolved(&["5.5.5.5", "6.6.6.6"])),
        Action::NotifyChange(change("a", "1.1.1.1", "5.5.5.5"))
    );
    assert_eq!(monitor.phase(), Phase::Notifying);
    assert_eq!(monitor.state(), &two_hosts());
    assert_eq!(monitor.step(Event::Sent), Action::NotifyChange(change("b", "2.2.2.2", "6.6.6.6")));
    assert_eq!(monitor.state(), &two_hosts());
    assert_eq!(monitor.step(Event::Sent), Action::Persist);
    assert_eq!(monitor.phase(), Phase::Persisting);
    assert_eq!(monitor.state().entries(), pairs(&[("a", "5.5.5.5"), ("b", "6.6.6.6")]));
    assert_eq!(monitor.step(Event::Persisted), Action::Sleep(60));
    assert_eq!(monitor.phase(), Phase::Idle);
    assert_eq!(monitor.step(Event::Woke), Action::Resolve);
    assert_eq!(monitor.step(resolved(&["5.5.5.5", "6.6.6.6"])), Action::Sleep(60));
}

#[test]
fn a_notification_that_fails_keeps_the_set() {
    let mut monitor = polling();
    monitor.step(resolved(&["5.5.5.5", "6.6.6.6"]));
    assert_eq!(monitor.step(Event::Sent), Action::NotifyChange(change("b", "2.2.2.2", "6.6.6.6")));
    assert_eq!(
        monitor.step(Event::SendFailed("timeout".to_string())),
        Action::ReportFailure("Failed to send email: timeout".to_string())
    );
    assert_eq!(monitor.phase(), Phase::Reporting);
    assert_eq!(monitor.state(), &two_hosts());
    assert_eq!(monitor.step(Event::SendFailed("timeout".to_string())), Action::Sleep(60));
    assert_eq!(monitor.phase(), Phase::Idle);
    assert_eq!(monitor.step(Event::Woke), Action::Resolve);
    assert_eq!(
        monitor.step(resolved(&["5.5.5.5", "6.6.6.6"])),
        Action::NotifyChange(change("a", "1.1.1.1", "5.5.5.5"))
    );
}

#[test]
fn a_host_that_is_not_resolved_is_reported_and_the_loop_goes_on() {
    let mut monitor = polling();
    let answers = vec![
        Ok("5.5.5.5".to_string()),
        Err(ResolutionError::LookupFailed("b".to_string())),
    ];
    assert_eq!(
        monitor.step(Event::Resolved(answers)),
        Action::ReportFailure("DNS lookup failed on b".to_string())
    );
    assert_eq!(monitor.phase(), Phase::Reporting);
    assert_eq!(monitor.state(), &two_hosts());
    assert_eq!(monitor.step(Event::Sent), Action::Sleep(60));
    assert_eq!(monitor.phase(), Phase::Idle);
}

#[test]
fn a_set_that_cannot_be_stored_is_reported() {
    let mut monitor = polling();
    monitor.step(resolved(&["1.1.1.1", "6.6.6.6"]));
    assert_eq!(monitor.step(Event::Sent), Action::Persist);
    assert_eq!(
        monitor.step(Event::PersistFailed("disk full".to_string())),
        Action::ReportFailure("disk full".to_string())
    );
    assert_eq!(monitor.step(Event::Sent), Action::Sleep(60));
    assert_eq!(monitor.state().entries(), pairs(&[("a", "1.1.1.1"), ("b", "6.6.6.6")]));
}

#[test]
fn events_that_are_not_waited_for_change_nothing() {
    let mut monitor = polling();
    assert_eq!(monitor.step(Event::Sent), Action::Wait);
    assert_eq!(monitor.step(Event::Persisted), Action::Wait);
    assert_eq!(monitor.step(Event::Shutdown), Action::Wait);
    assert_eq!(monitor.phase(), Phase::Polling);
    monitor.step(resolved(&["5.5.5.5", "2.2.2.2"]));
    assert_eq!(monitor.step(Event::Woke), Action::Wait);
    assert_eq!(monitor.step(resolved(&["1.1.1.1", "2.2.2.2"])), Action::Wait);
    assert_eq!(monitor.phase(), Phase::Notifying);
    assert_eq!(monitor.step(Event::Sent), Action::Persist);
    assert_eq!(monitor.step(Event::Sent), Action::Wait);
    assert_eq!(monitor.phase(), Phase::Persisting);
}

#[test]
fn shutdown_stores_the_set_and_stops() {
    let mut monitor = polling();
    monitor.step(resolved(&["1.1.1.1", "2.2.2.2"]));
    assert_eq!(monitor.step(Event::Shutdown), Action::Persist);
    assert_eq!(monitor.phase(), Phase::Stopped);
    assert_eq!(monitor.step(Event::Woke), Action::Wait);
    assert_eq!(monitor.step(Event::Persisted), Action::Stop);
    assert_eq!(monitor.step(Event::PersistFailed("disk full".to_string())), Action::Stop);
    assert_eq!(monitor.phase(), Phase::Stopped);
}
