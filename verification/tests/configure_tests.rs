use ddns_monitor::configure::{
    starting_configuration, Configuration, ConfigurationError, InterviewError, Purpose,
    SenderInterview, SenderOutcome, SenderStage, Stored,
};
use ddns_monitor::detect::MonitorError;
use ddns_monitor::monitor::monitor_once;
use ddns_monitor::monitored_set::MonitoredSet;
use ddns_monitor::recipients::RecipientEngine;
use ddns_monitor::reconcile::{classify, ReconciliationEngine};
use ddns_monitor::secret::{encrypt_password, DecryptionError};
use ddns_monitor::ResolutionError;

const KEY: &str = "00:11:22:33:44:55";

fn pairs(entries: &[(&str, &str)]) -> Vec<(String, String)> {
    entries
        .iter()
        .map(|(name, address)| (name.to_string(), address.to_string()))
        .collect()
}

fn ok(address: &str) -> Result<String, ResolutionError> {
    Ok(address.to_string())
}

fn get_test_config(is_first_time: bool) -> Configuration {
    let localhost = if is_first_time { "127.0.0.1" } else { "incorrect" };
    let state = MonitoredSet::from_entries(pairs(&[
        ("clickonetwo.io", "192.0.2.7"),
        ("localhost", localhost),
    ]))
    .expect("well formed");
    Configuration::new_from_environment(
        "monitor@example.com".to_string(),
        "hunter2",
        "ops@example.com".to_string(),
        state,
        KEY,
    )
}

fn finished_sender() -> SenderInterview {
    let mut sender = SenderInterview::new(&Configuration::default(), KEY).expect("no password");
    assert_eq!(sender.answer("mail.example.com", true), SenderOutcome::Accepted);
    assert_eq!(sender.answer("monitor@example.com", false), SenderOutcome::Accepted);
    assert_eq!(sender.answer("hunter2", false), SenderOutcome::Accepted);
    assert_eq!(sender.tested(true), SenderOutcome::Accepted);
    sender
}

fn finished_recipients() -> RecipientEngine {
    let mut recipients = RecipientEngine::new(vec![]);
    recipients.apply(&classify("ops@example.com"));
    recipients.apply(&classify("."));
    recipients
}

fn finished_hosts() -> ReconciliationEngine {
    let mut hosts = ReconciliationEngine::new(MonitoredSet::new());
    hosts.apply(&classify("c.example.com"), Some("9.9.9.9"));
    hosts.apply(&classify("."), None);
    hosts
}

#[test]
fn default_configuration_is_empty() {
    let config = Configuration::default();
    assert_eq!(config.from_server, "");
    assert_eq!(config.from_address, "");
    assert_eq!(config.encrypted_password, "");
    assert_eq!(config.to_addresses, Vec::<String>::new());
    assert!(config.state.is_empty());
}

#[test]
fn configuration_from_the_environment() {
    let config = get_test_config(true);
    assert_eq!(config.from_server, "smtp.gmail.com");
    assert_eq!(config.from_address, "monitor@example.com");
    assert_eq!(config.encrypted_password, encrypt_password(KEY, "hunter2"));
    assert_eq!(
        config.to_addresses,
        vec!["ops@example.com".to_string(), "monitor@example.com".to_string()]
    );
    assert_eq!(config.state.len(), 2);
    assert_eq!(config.password(KEY), Ok("hunter2".to_string()));
}

#[test]
fn password_that_is_no_encryption() {
    let mut config = get_test_config(true);
    config.encrypted_password = "plain text".to_string();
    assert_eq!(config.password(KEY), Err(DecryptionError {}));
}

#[test]
fn monitor_test_monitor_state_initial() {
    let mut config = get_test_config(true);
    let report = monitor_once(&mut config, &vec![ok("192.0.2.7"), ok("127.0.0.1")], &vec![])
        .expect("Monitor state failed");
    assert_eq!(report.count(), 0);
}

#[test]
fn monitor_test_monitor_state_subsequent() {
    let mut config = get_test_config(false);
    assert_eq!(config.state.get("localhost"), Some(&"incorrect".to_string()));
    let report = monitor_once(&mut config, &vec![ok("192.0.2.7"), ok("127.0.0.1")], &vec![true])
        .expect("Monitor state failed");
    assert_eq!(report.count(), 1);
    assert_eq!(config.state.get("localhost"), Some(&"127.0.0.1".to_string()));
}

#[test]
fn a_failed_cycle_leaves_the_configuration_alone() {
    let mut config = get_test_config(false);
    let before = config.clone();
    assert_eq!(
        monitor_once(&mut config, &vec![ok("192.0.2.7"), ok("127.0.0.1")], &vec![false]),
        Err(MonitorError::NotDelivered("localhost".to_string()))
    );
    assert_eq!(config, before);
    assert_eq!(
        monitor_once(&mut config, &vec![ok("192.0.2.7")], &vec![true]),
        Err(MonitorError::Resolution(ResolutionError::LookupFailed("localhost".to_string())))
    );
    assert_eq!(config, before);
}

#[test]
fn sender_interview_suggests_what_is_configured() {
    let config = get_test_config(true);
    let mut sender = SenderInterview::new(&config, KEY).expect("password decrypts");
    assert_eq!(sender.stage(), SenderStage::Server);
    assert_eq!(sender.suggestion(), "smtp.gmail.com");
    assert_eq!(sender.answer("smtp.gmail.com", true), SenderOutcome::Accepted);
    assert_eq!(sender.stage(), SenderStage::Account);
    assert_eq!(sender.suggestion(), "monitor@example.com");
    assert_eq!(sender.answer("monitor@example.com", false), SenderOutcome::Accepted);
    assert_eq!(sender.stage(), SenderStage::Password);
    assert_eq!(sender.suggestion(), "hunter2");
}

#[test]
fn sender_interview_starts_with_the_default_server() {
    let sender = SenderInterview::new(&Configuration::default(), KEY).expect("no password");
    assert_eq!(sender.suggestion(), "smtp.gmail.com");
    let answers = sender.answers();
    assert_eq!(answers.server, "smtp.gmail.com");
    assert_eq!(answers.account, "");
    assert_eq!(answers.password, "");
}

#[test]
fn sender_interview_does_not_begin_without_the_password() {
    let mut config = get_test_config(true);
    config.encrypted_password = "plain text".to_string();
    assert!(SenderInterview::new(&config, KEY).is_err());
    assert!(SenderInterview::new(&get_test_config(true), "another key").is_err());
}

#[test]
fn sender_interview_refuses_bad_answers() {
    let mut sender = SenderInterview::new(&Configuration::default(), KEY).expect("no password");
    assert_eq!(sender.answer("", true), SenderOutcome::Empty);
    assert_eq!(sender.answer("no.such.host", false), SenderOutcome::NotAHostname);
    assert_eq!(sender.stage(), SenderStage::Server);
    assert_eq!(sender.suggestion(), "smtp.gmail.com");
    assert_eq!(sender.tested(true), SenderOutcome::Ignored);
    assert_eq!(sender.answer("mail.example.com", true), SenderOutcome::Accepted);
    assert_eq!(sender.answer("", true), SenderOutcome::Empty);
    assert_eq!(sender.answer("nobody", true), SenderOutcome::NotAnEmail);
    assert_eq!(sender.stage(), SenderStage::Account);
    assert_eq!(sender.answer("me@example.com", false), SenderOutcome::Accepted);
    assert_eq!(sender.answer("", true), SenderOutcome::Empty);
    assert_eq!(sender.answer(" padded", true), SenderOutcome::PaddedPassword);
    assert_eq!(sender.answer("padded ", true), SenderOutcome::PaddedPassword);
    assert_eq!(sender.stage(), SenderStage::Password);
    assert_eq!(sender.answer("pass word", false), SenderOutcome::Accepted);
    assert_eq!(sender.stage(), SenderStage::Testing);
    assert_eq!(sender.suggestion(), "");
    assert_eq!(sender.answer("late", true), SenderOutcome::Ignored);
    let answers = sender.answers();
    assert_eq!(answers.server, "mail.example.com");
    assert_eq!(answers.account, "me@example.com");
    assert_eq!(answers.password, "pass word");
}

#[test]
fn sender_interview_starts_over_without_a_connection() {
    let mut sender = SenderInterview::new(&Configuration::default(), KEY).expect("no password");
    sender.answer("mail.example.com", true);
    sender.answer("me@example.com", false);
    sender.answer("secret", false);
    assert_eq!(sender.tested(false), SenderOutcome::NoConnection);
    assert_eq!(sender.stage(), SenderStage::Server);
    assert_eq!(sender.suggestion(), "mail.example.com");
    assert!(sender.finish().is_none());
}

#[test]
fn sender_interview_ends_with_a_connection() {
    let sender = finished_sender();
    assert_eq!(sender.stage(), SenderStage::Done);
    let account = sender.finish().expect("connected");
    assert_eq!(account.server, "mail.example.com");
    assert_eq!(account.account, "monitor@example.com");
    assert_eq!(account.password, "hunter2");
}

#[test]
fn interview_gives_a_configuration() {
    let config = Configuration::new_from_interview(
        finished_sender(),
        finished_recipients(),
        finished_hosts(),
        KEY,
    )
    .expect("all three parts are finished");
    assert_eq!(config.from_server, "mail.example.com");
    assert_eq!(config.from_address, "monitor@example.com");
    assert_eq!(config.encrypted_password, encrypt_password(KEY, "hunter2"));
    assert_eq!(config.password(KEY), Ok("hunter2".to_string()));
    assert_eq!(config.to_addresses, vec!["ops@example.com".to_string()]);
    assert_eq!(config.state.entries(), pairs(&[("c.example.com", "9.9.9.9")]));
}

#[test]
fn interview_updates_a_configuration() {
    let mut config = get_test_config(true);
    let result =
        config.update_from_interview(finished_sender(), finished_recipients(), finished_hosts(), KEY);
    assert_eq!(result, Ok(()));
    assert_eq!(config.from_server, "mail.example.com");
    assert_eq!(config.to_addresses, vec!["ops@example.com".to_string()]);
    assert_eq!(config.state.entries(), pairs(&[("c.example.com", "9.9.9.9")]));
}

#[test]
fn unfinished_interview_changes_nothing() {
    let mut config = get_test_config(true);
    let before = config.clone();
    let unfinished = SenderInterview::new(&config, KEY).expect("password decrypts");
    assert_eq!(
        config.update_from_interview(unfinished, finished_recipients(), finished_hosts(), KEY),
        Err(InterviewError::NoSender)
    );
    assert_eq!(config, before);
    assert_eq!(
        config.update_from_interview(
            finished_sender(),
            RecipientEngine::new(vec!["old@example.com".to_string()]),
            finished_hosts(),
            KEY
        ),
        Err(InterviewError::NoRecipient)
    );
    assert_eq!(config, before);
    assert_eq!(
        config.update_from_interview(
            finished_sender(),
            finished_recipients(),
            ReconciliationEngine::new(before.state.clone()),
            KEY
        ),
        Err(InterviewError::EmptySet)
    );
    assert_eq!(config, before);
    assert_eq!(
        Configuration::new_from_interview(
            finished_sender(),
            finished_recipients(),
            ReconciliationEngine::new(MonitoredSet::new()),
            KEY
        ),
        Err(InterviewError::EmptySet)
    );
    let mut recipients_left = RecipientEngine::new(vec!["old@example.com".to_string()]);
    recipients_left.apply(&classify(""));
    assert_eq!(
        config.update_from_interview(finished_sender(), recipients_left, finished_hosts(), KEY),
        Err(InterviewError::Unfinished)
    );
    assert_eq!(config, before);
    let mut hosts_left = ReconciliationEngine::new(before.state.clone());
    hosts_left.apply(&classify(""), None);
    assert_eq!(
        config.update_from_interview(finished_sender(), finished_recipients(), hosts_left, KEY),
        Err(InterviewError::Unfinished)
    );
    assert_eq!(config, before);
}

#[test]
fn sender_interview_prompts_and_notices() {
    let mut sender = SenderInterview::new(&Configuration::default(), KEY).expect("no password");
    assert_eq!(
        SenderInterview::instructions(),
        "Sending notifications requires an SMTP server, email account, and password."
    );
    assert_eq!(sender.prompt(), "Sending SMTP server");
    sender.answer("mail.example.com", true);
    assert_eq!(sender.prompt(), "Sender account email");
    sender.answer("me@example.com", true);
    assert_eq!(sender.prompt(), "Sender account password");
    sender.answer("secret", true);
    assert_eq!(sender.prompt(), "");
    assert_eq!(
        SenderInterview::notice(SenderOutcome::NotAHostname, "nowhere"),
        Some("nowhere is not a valid hostname".to_string())
    );
    assert_eq!(
        SenderInterview::notice(SenderOutcome::NotAnEmail, "nobody"),
        Some("nobody is not a valid email".to_string())
    );
    assert_eq!(
        SenderInterview::notice(SenderOutcome::PaddedPassword, " pw "),
        Some("' pw ' cannot have leading or trailing spaces".to_string())
    );
    assert_eq!(
        SenderInterview::notice(SenderOutcome::NoConnection, ""),
        Some("Couldn't connect to that server with those credentials".to_string())
    );
    assert_eq!(SenderInterview::notice(SenderOutcome::Accepted, "x"), None);
    assert_eq!(SenderInterview::notice(SenderOutcome::Empty, ""), None);
    assert_eq!(SenderInterview::notice(SenderOutcome::Ignored, "x"), None);
}

#[test]
fn editing_starts_from_what_is_there() {
    let config = get_test_config(true);
    assert_eq!(
        starting_configuration(Purpose::Configure, Stored::Found(config.clone())),
        Ok(config)
    );
    assert_eq!(
        starting_configuration(Purpose::Configure, Stored::Unusable("no such file".to_string())),
        Ok(Configuration::default())
    );
    assert_eq!(
        starting_configuration(Purpose::Configure, Stored::Found(Configuration::default())),
        Ok(Configuration::default())
    );
}

#[test]
fn monitoring_needs_a_usable_configuration() {
    let config = get_test_config(true);
    assert_eq!(
        starting_configuration(Purpose::Monitor, Stored::Found(config.clone())),
        Ok(config)
    );
    assert_eq!(
        starting_configuration(Purpose::Monitor, Stored::Unusable("no such file".to_string())),
        Err(ConfigurationError::Unusable("no such file".to_string()))
    );
    assert_eq!(
        starting_configuration(Purpose::Monitor, Stored::Found(Configuration::default())),
        Err(ConfigurationError::NoState)
    );
    assert_eq!(
        ConfigurationError::Unusable("no such file".to_string()).message(),
        "can't load configuration: no such file"
    );
    assert_eq!(
        ConfigurationError::NoState.message(),
        "the configuration names no host to monitor"
    );
}
