//! SMTP message sending.

use vstd::prelude::*;
use vstd::string::*;
use crate::cause::Cause;
use crate::events::Event;
use crate::smtp::{
    address_accepted, address_texts, optional_text, recipients_text, EmailAddress, EmailError, Smtp,
};
use crate::text::{comma_separated, decimal, decimal_text};

verus! {

/// Seconds that every message gets.
pub const BASE_TIMEOUT: u64 = 60;

/// Seconds more per megabyte.
pub const TIMEOUT_PER_MB: usize = 180;

/// Bytes in a megabyte.
pub const MEGABYTE: usize = 1_000_000;

/// Why a message was not sent.
#[derive(Debug)]
pub enum Error {
    /// No envelope can be made.
    EnvelopeError(EmailError),
    /// The transport failed.
    SendError(Cause),
    /// There is no transport.
    NoTransport,
}

impl Error {
    /// The words for the error.
    pub open spec fn words(self) -> Seq<char> {
        match self {
            Error::EnvelopeError(error) => "Envelope error: "@ + error.words(),
            Error::SendError(cause) => "Send error: "@ + cause.text@,
            Error::NoTransport => "SMTP has no transport"@,
        }
    }

    /// Puts the error into words.
    pub fn describe(&self) -> (r: String)
        ensures
            r@ == self.words(),
    {
        match self {
            Error::EnvelopeError(error) => "Envelope error: ".to_owned().concat(error.describe()),
            Error::SendError(cause) => "Send error: ".to_owned().concat(cause.text.as_str()),
            Error::NoTransport => "SMTP has no transport".to_owned(),
        }
    }
}

/// A sender and the recipients, as the mail library keeps them.
#[verifier::external_type_specification]
#[verifier::external_body]
pub struct ExEnvelope(async_smtp::Envelope);

/// A mail in the form that the transport takes.
#[verifier::external_type_specification]
#[verifier::external_body]
pub struct ExSendableEmail(async_smtp::SendableEmail);

/// The envelope from a sender to some recipients.
pub uninterp spec fn envelope_of(
    from: Option<Seq<char>>,
    to: Seq<Seq<char>>,
) -> async_smtp::Envelope;

/// The mail with an envelope, an identifier and a content.
pub uninterp spec fn mail_of(
    envelope: async_smtp::Envelope,
    message_id: Seq<char>,
    message: Seq<u8>,
) -> async_smtp::SendableEmail;

/// Calls `async_smtp::Envelope::new`. Claimed of it: without a recipient it fails,
/// and says that the recipient is missing; otherwise it makes the one envelope
/// for this sender and these recipients. The addresses are handed over by way of
/// `async_smtp::EmailAddress::new`, which accepts each of them as it did before.
#[verifier::external_body]
fn new_envelope(from: &Option<EmailAddress>, to: &Vec<EmailAddress>) -> (r: Result<
    async_smtp::Envelope,
    EmailError,
>)
    requires
        from matches Some(a) ==> address_accepted(a@),
        forall|i: int| 0 <= i < to@.len() ==> address_accepted((#[trigger] to@[i])@),
    ensures
        match r {
            Ok(e) => to@.len() > 0 && e == envelope_of(optional_text(*from), address_texts(to@)),
            Err(e) => to@.len() == 0 && e == EmailError::MissingTo,
        },
{
    let address = |a: &EmailAddress| async_smtp::EmailAddress::new(a.as_str().to_string());
    let from = from.as_ref().map(address).transpose();
    let to = to.iter().map(address).collect::<Result<Vec<_>, _>>();
    from.and_then(|f| to.and_then(|t| async_smtp::Envelope::new(f, t))).map_err(|e| match e {
        async_smtp::error::Error::MissingFrom => EmailError::MissingFrom,
        async_smtp::error::Error::MissingTo => EmailError::MissingTo,
        async_smtp::error::Error::InvalidEmailAddress => EmailError::InvalidEmailAddress,
    })
}

/// Calls `async_smtp::SendableEmail::new`. Claimed of it: it makes the one mail
/// with this envelope, this identifier and this content.
#[verifier::external_body]
fn new_mail(envelope: async_smtp::Envelope, message_id: &str, message: &Vec<u8>) -> (r:
    async_smtp::SendableEmail)
    ensures
        r == mail_of(envelope, message_id@, message@),
{
    async_smtp::SendableEmail::new(envelope, message_id, message)
}

/// Seconds that a message of `len` bytes may take: one minute, and three minutes
/// per megabyte.
pub open spec fn timeout_for(len: nat) -> nat {
    BASE_TIMEOUT as nat + TIMEOUT_PER_MB as nat * len / MEGABYTE as nat
}

/// What has to be known of a mail when the transport is done with it.
#[derive(Debug)]
pub struct Receipt {
    /// Bytes in the message.
    pub message_len: usize,
    /// The recipients, as they are shown.
    pub recipients: String,
}

/// Says that a mail has left. Only `Smtp::sent` makes it, so that the time of a success
/// is kept for no other mail.
#[derive(Debug)]
pub struct Delivered(());

/// What is to be done about a message.
pub enum Sending {
    /// Hand `mail` to the transport, wait for `timeout` seconds at most, and come
    /// back with `receipt`.
    Transmit { mail: async_smtp::SendableEmail, timeout: u64, receipt: Receipt },
    /// Nothing is sent; a `warning` goes to the log.
    Refused { warning: Option<String>, error: Error },
}

/// What is said when a message cannot leave for want of a transport.
pub open spec fn no_transport_text(recipients: Seq<EmailAddress>) -> Seq<char> {
    "uh? SMTP has no transport, failed to send to "@ + recipients_text(recipients)
}

/// What is said when a message has left.
pub open spec fn sent_text(receipt: Receipt) -> Seq<char> {
    "Message len="@ + decimal_text(receipt.message_len as nat) + " was smtp-sent to "@
        + receipt.recipients@
}

/// Shows a list of recipients.
fn show_recipients(recipients: &Vec<EmailAddress>) -> (r: String)
    ensures
        r@ == recipients_text(recipients@),
        forall|i: int| 0 <= i < recipients@.len() ==> address_accepted((#[trigger] recipients@[i])@),
{
    let ghost texts = address_texts(recipients@);
    let mut r: String = String::new();
    let mut i: usize = 0;
    while i < recipients.len()
        invariant
            i <= recipients@.len(),
            texts == address_texts(recipients@),
            r@ == comma_separated(texts.take(i as int)),
            forall|j: int| 0 <= j < i ==> address_accepted((#[trigger] recipients@[j])@),
        decreases recipients@.len() - i,
    {
        let recipient = &recipients[i];
        proof {
            use_type_invariant(recipient);
        }
        if i > 0 {
            r.append(",");
        }
        r.append(recipient.as_str());
        proof {
            assert(texts.take(i + 1).drop_last() =~= texts.take(i as int));
        }
        i = i + 1;
    }
    assert(texts.take(i as int) =~= texts);
    r
}

impl<T> Smtp<T> {
    /// Send a prepared mail to recipients.
    ///
    /// Says what the transport is to do, or why the mail cannot be sent: for want
    /// of a recipient, or else for want of a transport.
    pub fn send(&self, recipients: Vec<EmailAddress>, message: Vec<u8>, job_id: u32) -> (r: Sending)
        requires
            recipients@.len() > 0 && self.transport is Some ==> TIMEOUT_PER_MB * message@.len()
                <= usize::MAX,
        ensures
            recipients@.len() == 0 ==> r == (Sending::Refused {
                warning: None,
                error: Error::EnvelopeError(EmailError::MissingTo),
            }),
            recipients@.len() > 0 && self.transport is None ==> {
                &&& r matches Sending::Refused { warning: Some(text), error: Error::NoTransport }
                &&& text@ == no_transport_text(recipients@)
            },
            recipients@.len() > 0 && self.transport is Some ==> {
                &&& r matches Sending::Transmit { mail, timeout, receipt }
                &&& mail == mail_of(
                    envelope_of(optional_text(self.from), address_texts(recipients@)),
                    decimal_text(job_id as nat),
                    message@,
                )
                &&& timeout == timeout_for(message@.len())
                &&& receipt.message_len == message@.len()
                &&& receipt.recipients@ == recipients_text(recipients@)
            },
    {
        let message_len: usize = message.len();
        let recipients_display: String = show_recipients(&recipients);
        if let Some(from) = &self.from {
            proof {
                use_type_invariant(from);
            }
        }
        match new_envelope(&self.from, &recipients) {
            Err(e) => Sending::Refused { warning: None, error: Error::EnvelopeError(e) },
            Ok(envelope) => {
                // only used for internal logging
                let message_id: String = decimal(job_id as u64);
                let mail = new_mail(envelope, message_id.as_str(), &message);
                if self.transport.is_some() {
                    // The timeout is 1min + 3min per MB.
                    let timeout: u64 = BASE_TIMEOUT + (TIMEOUT_PER_MB * message_len / MEGABYTE) as u64;
                    Sending::Transmit {
                        mail,
                        timeout,
                        receipt: Receipt { message_len, recipients: recipients_display },
                    }
                } else {
                    let warning: String = "uh? SMTP has no transport, failed to send to ".to_owned().concat(
                        recipients_display.as_str(),
                    );
                    Sending::Refused { warning: Some(warning), error: Error::NoTransport }
                }
            },
        }
    }

    /// Takes in what the transport did with a mail. A mail that has left is to be
    /// reported; after that, `reported` is to be called.
    pub fn sent(&self, receipt: Receipt, outcome: Result<(), Cause>) -> (r: Result<
        (Event, Delivered),
        Error,
    >)
        ensures
            match outcome {
                Ok(()) => r matches Ok((Event::SmtpMessageSent(text), _)) && text@ == sent_text(
                    receipt,
                ),
                Err(cause) => r matches Err(Error::SendError(c)) && c == cause,
            },
    {
        match outcome {
            Err(cause) => Err(Error::SendError(cause)),
            Ok(()) => {
                let mut text: String = "Message len=".to_owned();
                text.append(decimal(receipt.message_len as u64).as_str());
                text.append(" was smtp-sent to ");
                text.append(receipt.recipients.as_str());
                Ok((Event::SmtpMessageSent(text), Delivered(())))
            },
        }
    }

    /// Keeps the time, once a mail that has left was reported. On successful send out
    /// `Ok` is returned.
    pub fn reported(&mut self, delivered: Delivered, now: std::time::Instant) -> (r: Result<
        (),
        Error,
    >)
        ensures
            r is Ok,
            *final(self) == (Smtp { last_success: Some(now), ..*old(self) }),
    {
        self.last_success = Some(now);
        Ok(())
    }
}

/// Every whole megabyte is worth three minutes.
pub proof fn three_minutes_per_megabyte(megabytes: nat)
    ensures
        timeout_for(megabytes * MEGABYTE as nat) == 60 + 3 * 60 * megabytes,
{
    let seconds: nat = 180 * megabytes;
    assert(180 * (megabytes * 1_000_000) == seconds * 1_000_000) by (nonlinear_arith)
        requires
            seconds == 180 * megabytes,
    ;
    assert(seconds * 1_000_000 / 1_000_000 == seconds);
}

/// Beyond the first minute, a message gets the whole seconds that 180 seconds per million
/// bytes come to, no more and no less.
pub proof fn time_is_proportional_to_size(len: nat)
    ensures
        60 <= timeout_for(len),
        (timeout_for(len) - 60) * 1_000_000 <= 180 * len,
        180 * len < (timeout_for(len) - 60 + 1) * 1_000_000,
{
}

/// A longer message never gets less time, and none gets less than a minute.
pub proof fn longer_messages_get_more_time(shorter: nat, longer: nat)
    requires
        shorter <= longer,
    ensures
        60 <= timeout_for(shorter) <= timeout_for(longer),
{
}

/// What is reported of a mail that has left is the size and the recipients that it
/// was given.
pub proof fn report_is_about_the_mail(
    recipients: Seq<EmailAddress>,
    message: Seq<u8>,
    receipt: Receipt,
)
    requires
        receipt.message_len == message.len(),
        receipt.recipients@ == recipients_text(recipients),
    ensures
        sent_text(receipt) == "Message len="@ + decimal_text(message.len()) + " was smtp-sent to "@
            + recipients_text(recipients),
{
}

/// A warning for want of a transport ends with all recipients, and what comes before is
/// the same for all of them.
pub proof fn warning_names_the_recipients(a: Seq<EmailAddress>, b: Seq<EmailAddress>)
    ensures
        no_transport_text(a).skip(no_transport_text(a).len() - recipients_text(a).len())
            == recipients_text(a),
        no_transport_text(a).take(no_transport_text(a).len() - recipients_text(a).len())
            == no_transport_text(b).take(no_transport_text(b).len() - recipients_text(b).len()),
{
    let before = "uh? SMTP has no transport, failed to send to "@;
    let shown = recipients_text(a);
    assert(no_transport_text(a).skip(no_transport_text(a).len() - shown.len()) =~= shown);
    assert(no_transport_text(a).take(before.len() as int) =~= before);
    assert(no_transport_text(b).take(before.len() as int) =~= before);
}

/// An error is described with its cause, behind words that are the same for all causes.
pub proof fn errors_tell_their_cause(cause: Cause, error: EmailError)
    ensures
        Error::SendError(cause).words() == "Send error: "@ + cause.text@,
        Error::EnvelopeError(error).words() == "Envelope error: "@ + error.words(),
{
}

} // verus!
