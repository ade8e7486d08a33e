//! The configuration record: the sending account, the recipients, and the
//! monitored hosts.

use vstd::prelude::*;
use vstd::string::*;
use crate::mail::{copy_lines, is_address, parses_as_address};
use crate::monitored_set::{Entries, MonitoredSet};
use crate::recipients::{recipients_ended, RecipientEngine, RecipientSession, RecipientsError};
use crate::reconcile::{ended, ReconcileError, ReconciliationEngine, Session};
use crate::secret::{decrypt_password, decrypted, encrypt_password, encrypted, DecryptionError};
use crate::text::{lines_of, text_of, trim, trimmed};

verus! {

/// The monitored hosts with their last-known addresses.
pub type State = MonitoredSet;

/// The mail server that a configuration names when nothing else was said.
pub open spec fn default_server() -> Seq<char> {
    "smtp.gmail.com"@
}

/// What the monitor is configured with.
#[derive(Debug, PartialEq, Eq)]
pub struct Configuration {
    /// The host of the mail server that sends the notifications.
    pub from_server: String,
    /// The address of the account that sends them.
    pub from_address: String,
    /// The password of that account, encrypted.
    pub encrypted_password: String,
    /// The addresses that are notified.
    pub to_addresses: Vec<String>,
    /// The monitored hosts.
    pub state: State,
}

impl Clone for Configuration {
    fn clone(&self) -> (r: Self)
        ensures
            r.from_server@ == self.from_server@,
            r.from_address@ == self.from_address@,
            r.encrypted_password@ == self.encrypted_password@,
            lines_of(r.to_addresses@) == lines_of(self.to_addresses@),
            r.state@ == self.state@,
    {
        Configuration {
            from_server: self.from_server.clone(),
            from_address: self.from_address.clone(),
            encrypted_password: self.encrypted_password.clone(),
            to_addresses: copy_lines(&self.to_addresses),
            state: self.state.clone(),
        }
    }
}

impl Default for Configuration {
    fn default() -> (r: Self)
        ensures
            r.wf(),
            r.is_empty(),
    {
        Configuration {
            from_server: String::new(),
            from_address: String::new(),
            encrypted_password: String::new(),
            to_addresses: Vec::new(),
            state: MonitoredSet::new(),
        }
    }
}

impl Configuration {
    /// The monitored set keeps its invariant.
    pub open spec fn wf(&self) -> bool {
        self.state.wf()
    }

    /// Nothing is configured: no server, no account, no password, no
    /// recipient and no host.
    pub open spec fn is_empty(&self) -> bool {
        &&& self.from_server@.len() == 0
        &&& self.from_address@.len() == 0
        &&& self.encrypted_password@.len() == 0
        &&& self.to_addresses@.len() == 0
        &&& self.state@.len() == 0
    }

    /// The password of the sending account, decrypted under `key`.
    pub fn password(&self, key: &str) -> (r: Result<String, DecryptionError>)
        ensures
            match r {
                Ok(pw) => decrypted(key@, self.encrypted_password@) == Some(pw@),
                Err(_) => decrypted(key@, self.encrypted_password@) is None,
            },
    {
        decrypt_password(key, self.encrypted_password.as_str())
    }

    /// The configuration that a first run is given by hand: mail goes out
    /// through the default server from `from_address`, whose password is
    /// kept encrypted under `key`, and goes to `to_address` and to the
    /// sender. `state` holds the hosts to monitor, of which there is at
    /// least one.
    pub fn new_from_environment(
        from_address: String,
        from_password: &str,
        to_address: String,
        state: State,
        key: &str,
    ) -> (r: Self)
        requires
            state.wf(),
            state@.len() > 0,
        ensures
            r.wf(),
            r.from_server@ == default_server(),
            r.from_address@ == from_address@,
            r.encrypted_password@ == encrypted(key@, from_password@),
            decrypted(key@, r.encrypted_password@) == Some(from_password@),
            lines_of(r.to_addresses@) == seq![to_address@, from_address@],
            r.state == state,
    {
        let mut to_addresses: Vec<String> = Vec::new();
        to_addresses.push(to_address);
        to_addresses.push(from_address.clone());
        assert(lines_of(to_addresses@) =~= seq![to_address@, from_address@]);
        Configuration {
            from_server: "smtp.gmail.com".to_string(),
            from_address,
            encrypted_password: encrypt_password(key, from_password),
            to_addresses,
            state,
        }
    }
}

/// What a configuration is wanted for.
#[derive(Clone, Copy, Debug, PartialEq, Eq, Structural)]
pub enum Purpose {
    /// It is to be edited.
    Configure,
    /// Its hosts are to be monitored.
    Monitor,
}

/// What the store gave when the configuration was asked for.
#[derive(Debug, PartialEq, Eq)]
pub enum Stored {
    /// The record could not be read: it is missing or damaged. The text
    /// says why.
    Unusable(String),
    /// The record that was read.
    Found(Configuration),
}

/// Why there is no configuration to monitor with.
#[derive(Debug, PartialEq, Eq)]
pub enum ConfigurationError {
    /// The record could not be read.
    Unusable(String),
    /// The record names no host.
    NoState,
}

/// A `ConfigurationError` as contracts see it.
pub enum Refusal {
    Unusable(Seq<char>),
    NoState,
}

impl View for ConfigurationError {
    type V = Refusal;

    open spec fn view(&self) -> Refusal {
        match self {
            ConfigurationError::Unusable(why) => Refusal::Unusable(why@),
            ConfigurationError::NoState => Refusal::NoState,
        }
    }
}

/// The text that reports `refusal`.
pub open spec fn refusal_message(refusal: Refusal) -> Seq<char> {
    match refusal {
        Refusal::Unusable(why) => "can't load configuration: "@ + why,
        Refusal::NoState => "the configuration names no host to monitor"@,
    }
}

impl ConfigurationError {
    /// The text that reports the error.
    pub fn message(&self) -> (r: String)
        ensures
            r@ == refusal_message(self@),
    {
        match self {
            ConfigurationError::Unusable(why) => {
                let mut r = "can't load configuration: ".to_string();
                r.append(why.as_str());
                r
            },
            ConfigurationError::NoState => {
                "the configuration names no host to monitor".to_string()
            },
        }
    }
}

/// Why what the store gave will not do for `purpose`, if it will not.
/// Monitoring needs a record that can be read and that names a host;
/// editing can start from anything.
pub open spec fn refusal(purpose: Purpose, stored: Stored) -> Option<Refusal> {
    match purpose {
        Purpose::Configure => None,
        Purpose::Monitor => match stored {
            Stored::Unusable(why) => Some(Refusal::Unusable(why@)),
            Stored::Found(config) => if config.state@.len() == 0 {
                Some(Refusal::NoState)
            } else {
                None
            },
        },
    }
}

/// The configuration to work with, given what the store gave: the stored
/// record, or an empty one where none can be read and one is to be made.
pub fn starting_configuration(purpose: Purpose, stored: Stored) -> (r: Result<
    Configuration,
    ConfigurationError,
>)
    requires
        stored matches Stored::Found(config) ==> config.wf(),
    ensures
        match r {
            Ok(config) => {
                &&& refusal(purpose, stored) is None
                &&& config.wf()
                &&& match stored {
                    Stored::Found(found) => config == found,
                    Stored::Unusable(_) => config.is_empty(),
                }
            },
            Err(e) => refusal(purpose, stored) == Some(e@),
        },
{
    match stored {
        Stored::Found(config) => {
            if purpose == Purpose::Monitor && config.state.is_empty() {
                Err(ConfigurationError::NoState)
            } else {
                Ok(config)
            }
        },
        Stored::Unusable(why) => match purpose {
            Purpose::Configure => Ok(Configuration::default()),
            Purpose::Monitor => Err(ConfigurationError::Unusable(why)),
        },
    }
}

/// Where the interview about the sending account stands.
#[derive(Clone, Copy, Debug, PartialEq, Eq, Structural)]
pub enum SenderStage {
    /// The mail server is asked for.
    Server,
    /// The address of the account is asked for.
    Account,
    /// The password of the account is asked for.
    Password,
    /// The three answers are in, and a connection with them is to be
    /// tried.
    Testing,
    /// A connection was made: the answers stand.
    Done,
}

/// The state of the interview about the sending account.
pub struct SenderView {
    pub server: Seq<char>,
    pub account: Seq<char>,
    pub password: Seq<char>,
    pub stage: SenderStage,
}

/// The interview that begins with the given texts as suggestions. Where
/// no server is known yet the default server is suggested.
pub open spec fn sender_start(
    server: Seq<char>,
    account: Seq<char>,
    password: Seq<char>,
) -> SenderView {
    SenderView {
        server: if server.len() == 0 {
            default_server()
        } else {
            server
        },
        account,
        password,
        stage: SenderStage::Server,
    }
}

/// The text that is suggested at the prompt that is due.
pub open spec fn sender_suggestion(s: SenderView) -> Seq<char> {
    match s.stage {
        SenderStage::Server => s.server,
        SenderStage::Account => s.account,
        SenderStage::Password => s.password,
        SenderStage::Testing => Seq::empty(),
        SenderStage::Done => Seq::empty(),
    }
}

/// What became of an answer.
#[derive(Clone, Copy, Debug, PartialEq, Eq, Structural)]
pub enum SenderOutcome {
    /// The answer stands, and the interview has moved on.
    Accepted,
    /// Nothing was asked: the answer was passed over.
    Ignored,
    /// The answer was empty.
    Empty,
    /// The server has no address.
    NotAHostname,
    /// The account is no e-mail address.
    NotAnEmail,
    /// The password begins or ends with white space.
    PaddedPassword,
    /// No connection could be made with the three answers: the interview
    /// starts over, with the answers as suggestions.
    NoConnection,
}

/// What an answer comes to at the stage of `s`. `resolves` tells whether
/// the answer, taken as a hostname, has an address; it counts only where
/// the server is asked for.
pub open spec fn sender_verdict(s: SenderView, line: Seq<char>, resolves: bool) -> SenderOutcome {
    match s.stage {
        SenderStage::Testing => SenderOutcome::Ignored,
        SenderStage::Done => SenderOutcome::Ignored,
        _ => if line.len() == 0 {
            SenderOutcome::Empty
        } else {
            match s.stage {
                SenderStage::Server => if resolves {
                    SenderOutcome::Accepted
                } else {
                    SenderOutcome::NotAHostname
                },
                SenderStage::Account => if is_address(line) {
                    SenderOutcome::Accepted
                } else {
                    SenderOutcome::NotAnEmail
                },
                _ => if trimmed(line) == line {
                    SenderOutcome::Accepted
                } else {
                    SenderOutcome::PaddedPassword
                },
            }
        },
    }
}

/// What the operator is told before the first prompt.
pub open spec fn sender_instructions() -> Seq<char> {
    "Sending notifications requires an SMTP server, email account, and password."@
}

/// What the prompt at the stage of `s` asks for.
pub open spec fn sender_prompt(s: SenderView) -> Seq<char> {
    match s.stage {
        SenderStage::Server => "Sending SMTP server"@,
        SenderStage::Account => "Sender account email"@,
        SenderStage::Password => "Sender account password"@,
        SenderStage::Testing => Seq::empty(),
        SenderStage::Done => Seq::empty(),
    }
}

/// What the operator is told when an answer or a connection came to
/// `outcome`; `line` is the answer.
pub open spec fn sender_notice(outcome: SenderOutcome, line: Seq<char>) -> Option<Seq<char>> {
    match outcome {
        SenderOutcome::NotAHostname => Some(line + " is not a valid hostname"@),
        SenderOutcome::NotAnEmail => Some(line + " is not a valid email"@),
        SenderOutcome::PaddedPassword => Some(
            "'"@ + line + "' cannot have leading or trailing spaces"@,
        ),
        SenderOutcome::NoConnection => Some(
            "Couldn't connect to that server with those credentials"@,
        ),
        _ => None,
    }
}

/// The interview after an answer: an accepted answer is taken down and
/// the next stage is due, any other answer changes nothing.
pub open spec fn sender_answered(s: SenderView, line: Seq<char>, resolves: bool) -> SenderView {
    if sender_verdict(s, line, resolves) != SenderOutcome::Accepted {
        s
    } else {
        match s.stage {
            SenderStage::Server => SenderView {
                server: line,
                account: s.account,
                password: s.password,
                stage: SenderStage::Account,
            },
            SenderStage::Account => SenderView {
                server: s.server,
                account: line,
                password: s.password,
                stage: SenderStage::Password,
            },
            _ => SenderView {
                server: s.server,
                account: s.account,
                password: line,
                stage: SenderStage::Testing,
            },
        }
    }
}

/// The interview after a connection was tried with the three answers.
pub open spec fn sender_tested(s: SenderView, connected: bool) -> SenderView {
    if s.stage != SenderStage::Testing {
        s
    } else {
        SenderView {
            server: s.server,
            account: s.account,
            password: s.password,
            stage: if connected {
                SenderStage::Done
            } else {
                SenderStage::Server
            },
        }
    }
}

/// The password that a configuration holds, in the clear: the empty text
/// where it holds none, and `None` where what it holds cannot be decrypted
/// under `key`.
pub open spec fn stored_password(key: Seq<char>, encrypted_password: Seq<char>) -> Option<
    Seq<char>,
> {
    if encrypted_password.len() == 0 {
        Some(Seq::empty())
    } else {
        decrypted(key, encrypted_password)
    }
}

/// The sending account that an interview came to.
#[derive(Debug, PartialEq, Eq)]
pub struct SenderAccount {
    /// The host of the mail server.
    pub server: String,
    /// The address of the account.
    pub account: String,
    /// The password of the account, in the clear.
    pub password: String,
}

/// The interview about the sending account: the server, the address of
/// the account and its password are asked for in turn, and then a
/// connection is tried with them. It is over once a connection was made.
pub struct SenderInterview {
    server: String,
    account: String,
    password: String,
    stage: SenderStage,
}

impl View for SenderInterview {
    type V = SenderView;

    closed spec fn view(&self) -> SenderView {
        SenderView {
            server: self.server@,
            account: self.account@,
            password: self.password@,
            stage: self.stage,
        }
    }
}

impl SenderInterview {
    /// Begins the interview with what `config` holds as suggestions. The
    /// stored password is decrypted under `key`; where it cannot be, the
    /// interview does not begin.
    pub fn new(config: &Configuration, key: &str) -> (r: Result<Self, DecryptionError>)
        ensures
            match r {
                Ok(interview) => {
                    &&& stored_password(key@, config.encrypted_password@) is Some
                    &&& interview@ == sender_start(
                        config.from_server@,
                        config.from_address@,
                        stored_password(key@, config.encrypted_password@)->0,
                    )
                },
                Err(_) => stored_password(key@, config.encrypted_password@) is None,
            },
    {
        let server = if config.from_server.as_str().is_empty() {
            "smtp.gmail.com".to_string()
        } else {
            config.from_server.clone()
        };
        let password = if config.encrypted_password.as_str().is_empty() {
            String::new()
        } else {
            match config.password(key) {
                Ok(pw) => pw,
                Err(e) => {
                    return Err(e);
                },
            }
        };
        Ok(
            SenderInterview {
                server,
                account: config.from_address.clone(),
                password,
                stage: SenderStage::Server,
            },
        )
    }

    /// The stage that the interview is at.
    pub fn stage(&self) -> (r: SenderStage)
        ensures
            r == self@.stage,
    {
        self.stage
    }

    /// The text to suggest at the prompt that is due.
    pub fn suggestion(&self) -> (r: String)
        ensures
            r@ == sender_suggestion(self@),
    {
        match self.stage {
            SenderStage::Server => self.server.clone(),
            SenderStage::Account => self.account.clone(),
            SenderStage::Password => self.password.clone(),
            SenderStage::Testing => String::new(),
            SenderStage::Done => String::new(),
        }
    }

    /// What the prompt that is due asks for.
    pub fn prompt(&self) -> (r: String)
        ensures
            r@ == sender_prompt(self@),
    {
        match self.stage {
            SenderStage::Server => "Sending SMTP server".to_string(),
            SenderStage::Account => "Sender account email".to_string(),
            SenderStage::Password => "Sender account password".to_string(),
            SenderStage::Testing => String::new(),
            SenderStage::Done => String::new(),
        }
    }

    /// What the operator is to be told before the first prompt.
    pub fn instructions() -> (r: String)
        ensures
            r@ == sender_instructions(),
    {
        "Sending notifications requires an SMTP server, email account, and password.".to_string()
    }

    /// What the operator is to be told when an answer or a connection
    /// came to `outcome`; `line` is the answer.
    pub fn notice(outcome: SenderOutcome, line: &str) -> (r: Option<String>)
        ensures
            text_of(r) == sender_notice(outcome, line@),
    {
        match outcome {
            SenderOutcome::NotAHostname => {
                let mut text = line.to_string();
                text.append(" is not a valid hostname");
                Some(text)
            },
            SenderOutcome::NotAnEmail => {
                let mut text = line.to_string();
                text.append(" is not a valid email");
                Some(text)
            },
            SenderOutcome::PaddedPassword => {
                let mut text = "'".to_string();
                text.append(line);
                text.append("' cannot have leading or trailing spaces");
                Some(text)
            },
            SenderOutcome::NoConnection => Some(
                "Couldn't connect to that server with those credentials".to_string(),
            ),
            _ => None,
        }
    }

    /// The three answers as they stand.
    pub fn answers(&self) -> (r: SenderAccount)
        ensures
            r.server@ == self@.server,
            r.account@ == self@.account,
            r.password@ == self@.password,
    {
        SenderAccount {
            server: self.server.clone(),
            account: self.account.clone(),
            password: self.password.clone(),
        }
    }

    /// Takes the answer to the prompt that is due. `resolves` tells
    /// whether the answer, taken as a hostname, has an address; it counts
    /// only where the server is asked for.
    pub fn answer(&mut self, line: &str, resolves: bool) -> (o: SenderOutcome)
        ensures
            o == sender_verdict(old(self)@, line@, resolves),
            final(self)@ == sender_answered(old(self)@, line@, resolves),
    {
        match self.stage {
            SenderStage::Testing => SenderOutcome::Ignored,
            SenderStage::Done => SenderOutcome::Ignored,
            SenderStage::Server => {
                if line.is_empty() {
                    SenderOutcome::Empty
                } else if resolves {
                    self.server = line.to_string();
                    self.stage = SenderStage::Account;
                    SenderOutcome::Accepted
                } else {
                    SenderOutcome::NotAHostname
                }
            },
            SenderStage::Account => {
                if line.is_empty() {
                    SenderOutcome::Empty
                } else if parses_as_address(line) {
                    self.account = line.to_string();
                    self.stage = SenderStage::Password;
                    SenderOutcome::Accepted
                } else {
                    SenderOutcome::NotAnEmail
                }
            },
            SenderStage::Password => {
                if line.is_empty() {
                    SenderOutcome::Empty
                } else if trim(line) == line.to_string() {
                    self.password = line.to_string();
                    self.stage = SenderStage::Testing;
                    SenderOutcome::Accepted
                } else {
                    SenderOutcome::PaddedPassword
                }
            },
        }
    }

    /// Takes the result of the connection that was tried with the three
    /// answers: a connection ends the interview, a failure starts it over
    /// with the answers as suggestions.
    pub fn tested(&mut self, connected: bool) -> (o: SenderOutcome)
        ensures
            final(self)@ == sender_tested(old(self)@, connected),
            o == if old(self)@.stage != SenderStage::Testing {
                SenderOutcome::Ignored
            } else if connected {
                SenderOutcome::Accepted
            } else {
                SenderOutcome::NoConnection
            },
    {
        match self.stage {
            SenderStage::Testing => {
                if connected {
                    self.stage = SenderStage::Done;
                    SenderOutcome::Accepted
                } else {
                    self.stage = SenderStage::Server;
                    SenderOutcome::NoConnection
                }
            },
            _ => SenderOutcome::Ignored,
        }
    }

    /// Ends the interview and hands out the account it came to, if a
    /// connection was made.
    pub fn finish(self) -> (r: Option<SenderAccount>)
        ensures
            r is Some <==> self@.stage == SenderStage::Done,
            r is Some ==> r->0.server@ == self@.server && r->0.account@ == self@.account
                && r->0.password@ == self@.password,
    {
        match self.stage {
            SenderStage::Done => Some(
                SenderAccount {
                    server: self.server,
                    account: self.account,
                    password: self.password,
                },
            ),
            _ => None,
        }
    }
}

/// Why an interview gave no configuration.
#[derive(Clone, Copy, Debug, PartialEq, Eq, Structural)]
pub enum InterviewError {
    /// No connection was made with the sending account.
    NoSender,
    /// No recipient was accepted.
    NoRecipient,
    /// No host was accepted: a monitored set must hold at least one.
    EmptySet,
    /// The recipients or the hosts were left before the end marker came.
    Unfinished,
}

/// What an interview comes to, given where its three parts ended: the
/// first part that has nothing to show fails it.
pub open spec fn interview_verdict(
    sender: SenderView,
    recipients: RecipientSession,
    hosts: Session,
) -> Option<InterviewError> {
    if sender.stage != SenderStage::Done {
        Some(InterviewError::NoSender)
    } else {
        match recipients_ended(recipients) {
            Err(RecipientsError::NoRecipient) => Some(InterviewError::NoRecipient),
            Err(RecipientsError::InputEnded) => Some(InterviewError::Unfinished),
            Ok(_) => match ended(hosts) {
                Err(ReconcileError::EmptySet) => Some(InterviewError::EmptySet),
                Err(ReconcileError::InputEnded) => Some(InterviewError::Unfinished),
                Ok(_) => None,
            },
        }
    }
}

impl Configuration {
    /// Takes over what an interview came to: the sending account, with
    /// its password encrypted under `key`, the recipients and the
    /// monitored hosts that the three sessions built. Where one of them
    /// has nothing to show the configuration stays as it was.
    pub fn update_from_interview(
        &mut self,
        sender: SenderInterview,
        recipients: RecipientEngine,
        hosts: ReconciliationEngine,
        key: &str,
    ) -> (r: Result<(), InterviewError>)
        requires
            old(self).wf(),
            recipients.wf(),
            hosts.wf(),
        ensures
            final(self).wf(),
            match r {
                Ok(_) => {
                    &&& interview_verdict(sender@, recipients@, hosts@) is None
                    &&& final(self).from_server@ == sender@.server
                    &&& final(self).from_address@ == sender@.account
                    &&& final(self).encrypted_password@ == encrypted(key@, sender@.password)
                    &&& decrypted(key@, final(self).encrypted_password@) == Some(
                        sender@.password,
                    )
                    &&& lines_of(final(self).to_addresses@) == recipients@.fresh
                    &&& final(self).state@ == hosts@.fresh
                },
                Err(e) => {
                    &&& interview_verdict(sender@, recipients@, hosts@) == Some(e)
                    &&& *final(self) == *old(self)
                },
            },
    {
        let account = match sender.finish() {
            Some(account) => account,
            None => {
                return Err(InterviewError::NoSender);
            },
        };
        let to_addresses = match recipients.finish() {
            Ok(list) => list,
            Err(RecipientsError::NoRecipient) => {
                return Err(InterviewError::NoRecipient);
            },
            Err(RecipientsError::InputEnded) => {
                return Err(InterviewError::Unfinished);
            },
        };
        let state = match hosts.finish() {
            Ok(set) => set,
            Err(ReconcileError::EmptySet) => {
                return Err(InterviewError::EmptySet);
            },
            Err(ReconcileError::InputEnded) => {
                return Err(InterviewError::Unfinished);
            },
        };
        self.encrypted_password = encrypt_password(key, account.password.as_str());
        self.from_server = account.server;
        self.from_address = account.account;
        self.to_addresses = to_addresses;
        self.state = state;
        Ok(())
    }

    /// The configuration that an interview came to, starting from
    /// nothing.
    pub fn new_from_interview(
        sender: SenderInterview,
        recipients: RecipientEngine,
        hosts: ReconciliationEngine,
        key: &str,
    ) -> (r: Result<Self, InterviewError>)
        requires
            recipients.wf(),
            hosts.wf(),
        ensures
            match r {
                Ok(config) => {
                    &&& config.wf()
                    &&& interview_verdict(sender@, recipients@, hosts@) is None
                    &&& config.from_server@ == sender@.server
                    &&& config.from_address@ == sender@.account
                    &&& config.encrypted_password@ == encrypted(key@, sender@.password)
                    &&& decrypted(key@, config.encrypted_password@) == Some(sender@.password)
                    &&& lines_of(config.to_addresses@) == recipients@.fresh
                    &&& config.state@ == hosts@.fresh
                },
                Err(e) => interview_verdict(sender@, recipients@, hosts@) == Some(e),
            },
    {
        let mut config = Configuration::default();
        match config.update_from_interview(sender, recipients, hosts, key) {
            Ok(_) => Ok(config),
            Err(e) => Err(e),
        }
    }
}

} // verus!
