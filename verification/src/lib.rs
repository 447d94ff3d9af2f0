//! What the network threads of a mail account decide: waiting for messages over
//! IMAP, interrupting such a wait, and sending messages over SMTP.

pub mod cause;
pub mod events;
pub mod imap;
pub mod log;
pub mod smtp;
pub mod text;
