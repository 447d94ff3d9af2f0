//! What the library reports to the application's callback.

use vstd::prelude::*;

verus! {

/// An event for the application, with the text that goes with it.
#[derive(Debug)]
pub enum Event {
    /// Something worth a line in the log.
    Info(String),
    /// Something odd that the library can live with.
    Warning(String),
    /// Something that the user should see.
    Error(String),
    /// A message has left through the SMTP transport.
    SmtpMessageSent(String),
}

} // verus!
