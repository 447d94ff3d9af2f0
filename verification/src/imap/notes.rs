//! What is written to the log while waiting for messages.

use vstd::prelude::*;
use vstd::string::*;
use crate::cause::Cause;
use crate::events::Event;
use crate::imap::Security;
use crate::log;
use crate::log::line_text;
use crate::text::{decimal, decimal_text, pad_left, padded_left};

verus! {

/// How serious a note is.
#[derive(Debug, Clone, Copy, PartialEq, Eq, Structural)]
pub enum Level {
    Info,
    Warning,
    Error,
}

/// A note for the log.
#[derive(Debug)]
pub enum Note {
    /// The server is idling; secure waits are repeated, `loops` times at most.
    SecureReady { loops: u64, wait_secs: u64, max_timeout_duration: u64 },
    /// The server is idling; an insecure wait is made once.
    InsecureReady { wait_secs: u64 },
    /// An interruption came before the wait.
    Skipped(Security),
    /// The wait begins.
    Entering(Security),
    /// The server sent something, shown in the text.
    NewData(Security, String),
    /// A secure wait timed out. `n` counts the waits, `diff` are the seconds since
    /// the timeout before, `secs` those since the first wait, and `end` says that
    /// this was the last one.
    SecureTimeout { n: u64, diff: u64, secs: u64, end: bool },
    /// An insecure wait timed out.
    InsecureTimeout,
    /// The wait was interrupted.
    Interrupted(Security),
    /// The wait failed.
    WaitFailed(Security, Cause),
    /// The server did not end idling in time.
    TerminationTimeout,
    /// The server did not end idling properly.
    TerminationFailed(Cause),
    /// Polling begins.
    FakeIdling,
    /// An interruption came before polling.
    FakeSkipped,
    /// Polling could not connect.
    FakeConnectFailed(Cause),
    /// Polling is connected.
    FakeConnected,
    /// Polling has looked for messages, and found some or none.
    Fetched(bool),
    /// Polling could not look for messages.
    FetchFailed(Cause),
    /// Polling has ended after so many seconds.
    FakeDone(String),
    /// A wait is about to be interrupted.
    DroppingSource,
}

/// What notes on a wait begin with.
pub open spec fn wait_prefix(security: Security) -> Seq<char> {
    match security {
        Security::Secure => "Idle wait - "@,
        Security::Insecure => "Is Idle wait - "@,
    }
}

impl Note {
    /// How serious the note is.
    pub open spec fn severity(self) -> Level {
        match self {
            Note::WaitFailed(_, _) => Level::Warning,
            Note::FakeConnectFailed(_) => Level::Warning,
            Note::FetchFailed(_) => Level::Error,
            _ => Level::Info,
        }
    }

    /// The words of the note.
    pub open spec fn words(self) -> Seq<char> {
        match self {
            Note::SecureReady { loops, wait_secs, max_timeout_duration } =>
                "Idle wait (Secure) - handle timeout set to "@ + decimal_text(loops as nat) + " * "@
                    + decimal_text(wait_secs as nat) + "s - max_timeout_duration: "@
                    + decimal_text(max_timeout_duration as nat),
            Note::InsecureReady { wait_secs } =>
                "Idle wait (Inecure) - timeout set to "@ + decimal_text(wait_secs as nat) + "s s"@,
            Note::Skipped(security) => wait_prefix(security) + "was skipped"@,
            Note::Entering(security) => wait_prefix(security) + "entering wait-on-remote state"@,
            Note::NewData(Security::Secure, data) =>
                wait_prefix(Security::Secure) + "has NewData, "@ + data@,
            Note::NewData(Security::Insecure, _) =>
                wait_prefix(Security::Insecure) + "has NewData"@,
            Note::SecureTimeout { n, diff, secs, end } =>
                wait_prefix(Security::Secure) + "timeout, n: "@ + padded_left(
                    decimal_text(n as nat),
                    2,
                ) + ", diff: "@ + padded_left(decimal_text(diff as nat), 3) + ", secs: "@
                    + decimal_text(secs as nat) + (if end { ", *** end *** reached"@ } else { " "@ }),
            Note::InsecureTimeout => wait_prefix(Security::Insecure) + "timeout"@,
            Note::Interrupted(security) => wait_prefix(security) + "interrupted manually"@,
            Note::WaitFailed(security, cause) => wait_prefix(security) + "error: "@ + cause.text@,
            Note::TerminationTimeout =>
                wait_prefix(Security::Secure)
                    + "timeout in terminating idle: triggering reconnect"@,
            Note::TerminationFailed(cause) =>
                wait_prefix(Security::Secure)
                    + "IdleProtocolFailed: triggering reconnect, err: "@ + cause.text@,
            Note::FakeIdling => "IMAP-fake-IDLEing..."@,
            Note::FakeSkipped => "fake_idle: wait was skipped"@,
            Note::FakeConnectFailed(cause) => "fake_idle: could not connect: "@ + cause.text@,
            Note::FakeConnected => "fake_idle: is connected"@,
            Note::Fetched(found) => "fetch_new_messages returned "@ + (if found {
                "true"@
            } else {
                "false"@
            }),
            Note::FetchFailed(cause) => "could not fetch from folder: "@ + cause.text@,
            Note::FakeDone(secs) => "IMAP-fake-IDLE done after "@ + secs@ + "s"@,
            Note::DroppingSource => "low-level: dropping stop-source to interrupt idle"@,
        }
    }

    /// Tells how serious the note is.
    pub fn level(&self) -> (r: Level)
        ensures
            r == self.severity(),
    {
        match self {
            Note::WaitFailed(_, _) => Level::Warning,
            Note::FakeConnectFailed(_) => Level::Warning,
            Note::FetchFailed(_) => Level::Error,
            _ => Level::Info,
        }
    }

    /// Puts the note into words.
    pub fn text(&self) -> (r: String)
        ensures
            r@ == self.words(),
    {
        match self {
            Note::SecureReady { loops, wait_secs, max_timeout_duration } => {
                let mut r: String = "Idle wait (Secure) - handle timeout set to ".to_owned();
                r.append(decimal(*loops).as_str());
                r.append(" * ");
                r.append(decimal(*wait_secs).as_str());
                r.append("s - max_timeout_duration: ");
                r.append(decimal(*max_timeout_duration).as_str());
                r
            },
            Note::InsecureReady { wait_secs } => {
                let mut r: String = "Idle wait (Inecure) - timeout set to ".to_owned();
                r.append(decimal(*wait_secs).as_str());
                r.append("s s");
                r
            },
            Note::Skipped(security) => about_wait(*security).concat("was skipped"),
            Note::Entering(security) => about_wait(*security).concat("entering wait-on-remote state"),
            Note::NewData(Security::Secure, data) => {
                about_wait(Security::Secure).concat("has NewData, ").concat(data.as_str())
            },
            Note::NewData(Security::Insecure, _) => {
                about_wait(Security::Insecure).concat("has NewData")
            },
            Note::SecureTimeout { n, diff, secs, end } => {
                let mut r: String = about_wait(Security::Secure);
                r.append("timeout, n: ");
                r.append(pad_left(decimal(*n).as_str(), 2).as_str());
                r.append(", diff: ");
                r.append(pad_left(decimal(*diff).as_str(), 3).as_str());
                r.append(", secs: ");
                r.append(decimal(*secs).as_str());
                if *end {
                    r.append(", *** end *** reached");
                } else {
                    r.append(" ");
                }
                r
            },
            Note::InsecureTimeout => about_wait(Security::Insecure).concat("timeout"),
            Note::Interrupted(security) => about_wait(*security).concat("interrupted manually"),
            Note::WaitFailed(security, cause) => {
                about_wait(*security).concat("error: ").concat(cause.text.as_str())
            },
            Note::TerminationTimeout => about_wait(Security::Secure).concat(
                "timeout in terminating idle: triggering reconnect",
            ),
            Note::TerminationFailed(cause) => about_wait(Security::Secure).concat(
                "IdleProtocolFailed: triggering reconnect, err: ",
            ).concat(cause.text.as_str()),
            Note::FakeIdling => "IMAP-fake-IDLEing...".to_owned(),
            Note::FakeSkipped => "fake_idle: wait was skipped".to_owned(),
            Note::FakeConnectFailed(cause) => {
                "fake_idle: could not connect: ".to_owned().concat(cause.text.as_str())
            },
            Note::FakeConnected => "fake_idle: is connected".to_owned(),
            Note::Fetched(found) => {
                "fetch_new_messages returned ".to_owned().concat(
                    if *found {
                        "true"
                    } else {
                        "false"
                    },
                )
            },
            Note::FetchFailed(cause) => {
                "could not fetch from folder: ".to_owned().concat(cause.text.as_str())
            },
            Note::FakeDone(secs) => {
                "IMAP-fake-IDLE done after ".to_owned().concat(secs.as_str()).concat("s")
            },
            Note::DroppingSource => "low-level: dropping stop-source to interrupt idle".to_owned(),
        }
    }

    /// The event for the note, from a thread and a place in the source.
    pub fn report(&self, thread: &str, file: &str, line: u32) -> (r: Event)
        ensures
            match self.severity() {
                Level::Info => r matches Event::Info(full) && full@ == line_text(
                    thread@,
                    file@,
                    line as nat,
                    self.words(),
                ),
                Level::Warning => r matches Event::Warning(full) && full@ == line_text(
                    thread@,
                    file@,
                    line as nat,
                    self.words(),
                ),
                Level::Error => r matches Event::Error(text) && text@ == self.words(),
            },
    {
        let text: String = self.text();
        match self.level() {
            Level::Info => log::info(thread, file, line, text.as_str()),
            Level::Warning => log::warn(thread, file, line, text.as_str()),
            Level::Error => log::error(text),
        }
    }
}

/// Begins a note on a wait.
fn about_wait(security: Security) -> (r: String)
    ensures
        r@ == wait_prefix(security),
{
    match security {
        Security::Secure => "Idle wait - ".to_owned(),
        Security::Insecure => "Is Idle wait - ".to_owned(),
    }
}

/// A note that reports a failure tells its cause in full, at its end, and its other words
/// do not depend on the cause.
pub proof fn notes_tell_causes(security: Security, cause: Cause, empty: Cause)
    requires
        empty.text@.len() == 0,
    ensures
        Note::WaitFailed(security, cause).words() == Note::WaitFailed(security, empty).words()
            + cause.text@,
        Note::TerminationFailed(cause).words() == Note::TerminationFailed(empty).words()
            + cause.text@,
        Note::FakeConnectFailed(cause).words() == Note::FakeConnectFailed(empty).words()
            + cause.text@,
        Note::FetchFailed(cause).words() == Note::FetchFailed(empty).words() + cause.text@,
{
    assert(empty.text@ =~= Seq::<char>::empty());
    assert(Note::WaitFailed(security, cause).words() =~= Note::WaitFailed(security, empty).words()
        + cause.text@);
    assert(Note::TerminationFailed(cause).words() =~= Note::TerminationFailed(empty).words()
        + cause.text@);
    assert(Note::FakeConnectFailed(cause).words() =~= Note::FakeConnectFailed(empty).words()
        + cause.text@);
    assert(Note::FetchFailed(cause).words() =~= Note::FetchFailed(empty).words() + cause.text@);
}

/// A note on new data shows the data in full on a secure connection, and nothing of it on
/// an insecure one.
pub proof fn notes_show_data(data: String, other: String, empty: String)
    requires
        empty@.len() == 0,
    ensures
        Note::NewData(Security::Secure, data).words() == Note::NewData(
            Security::Secure,
            empty,
        ).words() + data@,
        Note::NewData(Security::Insecure, data).words() == Note::NewData(
            Security::Insecure,
            other,
        ).words(),
{
    assert(empty@ =~= Seq::<char>::empty());
    assert(Note::NewData(Security::Secure, data).words() =~= Note::NewData(
        Security::Secure,
        empty,
    ).words() + data@);
}

/// The note on a timeout shows its numbers in decimal, in columns of at least two and
/// three characters where they are aligned, and says where it was the last one.
pub proof fn notes_show_timeouts(n: u64, diff: u64, secs: u64)
    ensures
        (Note::SecureTimeout { n, diff, secs, end: true }).words()
            == "Idle wait - timeout, n: "@ + padded_left(decimal_text(n as nat), 2) + ", diff: "@
            + padded_left(decimal_text(diff as nat), 3) + ", secs: "@ + decimal_text(secs as nat)
            + ", *** end *** reached"@,
        (Note::SecureTimeout { n, diff, secs, end: false }).words()
            == "Idle wait - timeout, n: "@ + padded_left(decimal_text(n as nat), 2) + ", diff: "@
            + padded_left(decimal_text(diff as nat), 3) + ", secs: "@ + decimal_text(secs as nat)
            + " "@,
{
    reveal_strlit("Idle wait - ");
    reveal_strlit("timeout, n: ");
    reveal_strlit("Idle wait - timeout, n: ");
    assert("Idle wait - "@ + "timeout, n: "@ =~= "Idle wait - timeout, n: "@);
}

/// The notes on the beginning and the end of waiting show their numbers and times.
pub proof fn notes_show_limits(loops: u64, wait_secs: u64, max: u64, secs: String)
    ensures
        (Note::SecureReady { loops, wait_secs, max_timeout_duration: max }).words()
            == "Idle wait (Secure) - handle timeout set to "@ + decimal_text(loops as nat) + " * "@
            + decimal_text(wait_secs as nat) + "s - max_timeout_duration: "@ + decimal_text(
            max as nat,
        ),
        (Note::InsecureReady { wait_secs }).words() == "Idle wait (Inecure) - timeout set to "@
            + decimal_text(wait_secs as nat) + "s s"@,
        Note::FakeDone(secs).words() == "IMAP-fake-IDLE done after "@ + secs@ + "s"@,
{
}

/// Failed waits and failed connections are warned of, a failed look for messages is an
/// error, and all else is for information.
pub proof fn failures_stand_out(note: Note)
    ensures
        note.severity() == Level::Warning <==> note is WaitFailed || note is FakeConnectFailed,
        note.severity() == Level::Error <==> note is FetchFailed,
{
}

} // verus!
