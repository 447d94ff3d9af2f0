//! The IMAP side of a mail account: the state that threads share while one of them
//! waits for new messages.

pub mod fake_idle;
pub mod idle;
pub mod idling_laws;
pub mod interrupt;
pub mod laws;
pub mod meeting;
pub mod notes;
pub mod polling_laws;
pub mod select_folder;

use vstd::prelude::*;
use crate::cause::Cause;

verus! {

/// A handle that ends the wait it belongs to when it is dropped.
#[verifier::external_type_specification]
#[verifier::external_body]
pub struct ExStopSource(stop_token::StopSource);

/// The other end of a stop source, held by the wait.
#[verifier::external_type_specification]
#[verifier::external_body]
pub struct ExStopToken(stop_token::StopToken);

/// Why a connection could not be set up.
#[derive(Debug)]
pub struct Error {
    pub cause: Cause,
}

/// Whether a connection is encrypted.
#[derive(Debug, Clone, Copy, PartialEq, Eq, Structural)]
pub enum Security {
    Secure,
    Insecure,
}

/// A logged-in connection: `S` is an encrypted one, `I` a plain one.
pub enum Session<S, I> {
    Secure(S),
    Insecure(I),
}

impl<S, I> Session<S, I> {
    /// Whether the connection is encrypted.
    pub open spec fn kind(self) -> Security {
        match self {
            Session::Secure(_) => Security::Secure,
            Session::Insecure(_) => Security::Insecure,
        }
    }

    /// Tells whether the connection is encrypted.
    pub fn security(&self) -> (r: Security)
        ensures
            r == self.kind(),
    {
        match self {
            Session::Secure(_) => Security::Secure,
            Session::Insecure(_) => Security::Insecure,
        }
    }
}

/// What is known of the server.
pub struct ImapConfig {
    /// Whether the server has the IDLE capability.
    pub can_idle: bool,
}

/// What the threads of an IMAP account share.
pub struct Imap<S, I> {
    pub config: ImapConfig,
    /// The connection, while nobody uses it.
    pub session: Option<Session<S, I>>,
    /// Ends the wait that is going on, or is about to begin.
    pub interrupt: Option<stop_token::StopSource>,
    /// Set where an interruption came while no wait could be ended.
    pub skip_next_idle_wait: bool,
    /// Seconds after which a wait is given up; zero before the first wait.
    pub max_timeout_duration: u64,
}

} // verus!
