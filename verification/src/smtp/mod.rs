//! The SMTP side of a mail account.

pub mod send;

use vstd::prelude::*;
use crate::text::{comma_separated, lists_hold_every_text, offset};

verus! {

/// A point in time, carried through unread.
#[verifier::external_type_specification]
#[verifier::external_body]
pub struct ExInstant(std::time::Instant);

/// Whether the mail library takes a text for an email address.
pub uninterp spec fn address_accepted(text: Seq<char>) -> bool;

/// What is wrong with an address or an envelope.
#[derive(Debug, Clone, Copy, PartialEq, Eq, Structural)]
pub enum EmailError {
    /// The envelope has no sender.
    MissingFrom,
    /// The envelope has no recipient.
    MissingTo,
    /// The text is no email address.
    InvalidEmailAddress,
}

impl EmailError {
    /// The words for the error.
    pub open spec fn words(self) -> Seq<char> {
        match self {
            EmailError::MissingFrom => "missing source address"@,
            EmailError::MissingTo => "missing destination address"@,
            EmailError::InvalidEmailAddress => "invalid email address"@,
        }
    }

    /// Puts the error into words.
    pub fn describe(&self) -> (r: &'static str)
        ensures
            r@ == self.words(),
    {
        match self {
            EmailError::MissingFrom => "missing source address",
            EmailError::MissingTo => "missing destination address",
            EmailError::InvalidEmailAddress => "invalid email address",
        }
    }
}

/// Calls `async_smtp::EmailAddress::new`, which takes or refuses a text as an
/// email address. Claimed of it: whether it takes a text depends on the text
/// alone, and `address_accepted` says whether it does.
#[verifier::external_body]
fn accepts_address(text: &str) -> (r: bool)
    ensures
        r == address_accepted(text@),
{
    async_smtp::EmailAddress::new(text.to_string()).is_ok()
}

/// An email address that the mail library accepts.
#[derive(Debug)]
pub struct EmailAddress {
    address: String,
}

impl View for EmailAddress {
    type V = Seq<char>;

    closed spec fn view(&self) -> Seq<char> {
        self.address@
    }
}

impl EmailAddress {
    #[verifier::type_invariant]
    spec fn accepted(self) -> bool {
        address_accepted(self.address@)
    }

    /// Takes a text for an email address, if the mail library does.
    pub fn new(address: String) -> (r: Result<EmailAddress, EmailError>)
        ensures
            match r {
                Ok(a) => address_accepted(address@) && a@ == address@,
                Err(e) => !address_accepted(address@) && e == EmailError::InvalidEmailAddress,
            },
    {
        if accepts_address(address.as_str()) {
            Ok(EmailAddress { address })
        } else {
            Err(EmailError::InvalidEmailAddress)
        }
    }

    /// The address as text.
    pub fn as_str(&self) -> (r: &str)
        ensures
            r@ == self@,
    {
        self.address.as_str()
    }
}

/// The texts of some addresses.
pub open spec fn address_texts(addresses: Seq<EmailAddress>) -> Seq<Seq<char>> {
    Seq::new(addresses.len(), |i: int| addresses[i]@)
}

/// How a list of recipients is shown.
pub open spec fn recipients_text(recipients: Seq<EmailAddress>) -> Seq<char> {
    comma_separated(address_texts(recipients))
}

/// The text of an address that may be missing.
pub open spec fn optional_text(address: Option<EmailAddress>) -> Option<Seq<char>> {
    match address {
        Some(a) => Some(a@),
        None => None,
    }
}

/// No address is lost, and none is added: the texts are those of all addresses, in their
/// order.
pub proof fn every_address_has_its_text(addresses: Seq<EmailAddress>)
    ensures
        address_texts(addresses).len() == addresses.len(),
        forall|i: int|
            0 <= i < addresses.len() ==> #[trigger] address_texts(addresses)[i] == addresses[i]@,
{
}

/// A sender that is known goes by its own address.
pub proof fn a_sender_has_its_text(address: EmailAddress)
    ensures
        optional_text(Some(address)) == Some(address@),
        optional_text(None) is None,
{
}

/// Every recipient is shown, in the order of the list, with one comma before each but the
/// first, and nothing else is.
pub proof fn every_recipient_is_shown(recipients: Seq<EmailAddress>)
    requires
        recipients.len() > 0,
    ensures
        recipients_text(recipients).len() == offset(
            address_texts(recipients),
            recipients.len() as int,
        ) - 1,
        forall|i: int|
            0 <= i < recipients.len() ==> recipients_text(recipients).subrange(
                offset(address_texts(recipients), i),
                offset(address_texts(recipients), i) + (#[trigger] recipients[i])@.len(),
            ) == recipients[i]@,
        forall|i: int|
            0 < i < recipients.len() ==> recipients_text(recipients)[#[trigger] offset(
                address_texts(recipients),
                i,
            ) - 1] == ',',
{
    let texts = address_texts(recipients);
    lists_hold_every_text(texts);
    assert forall|i: int| 0 <= i < recipients.len() implies recipients_text(recipients).subrange(
        offset(texts, i),
        offset(texts, i) + (#[trigger] recipients[i])@.len(),
    ) == recipients[i]@ by {
        assert(texts[i] == recipients[i]@);
    }
}

/// Lists of recipients whose texts agree have the same length, and the same address at
/// every place.
pub proof fn different_recipients_have_different_texts(
    a: Seq<EmailAddress>,
    b: Seq<EmailAddress>,
)
    requires
        address_texts(a) == address_texts(b),
    ensures
        a.len() == b.len(),
        forall|i: int| 0 <= i < a.len() ==> (#[trigger] a[i])@ == b[i]@,
{
    every_address_has_its_text(a);
    every_address_has_its_text(b);
    assert forall|i: int| 0 <= i < a.len() implies (#[trigger] a[i])@ == b[i]@ by {
        assert(address_texts(a)[i] == address_texts(b)[i]);
    }
}

/// An SMTP account: who sends, over which transport, and when that last worked.
pub struct Smtp<T> {
    /// The sender's address, where it is known.
    pub from: Option<EmailAddress>,
    /// The connection to the server, where there is one.
    pub transport: Option<T>,
    /// When a message was last sent.
    pub last_success: Option<std::time::Instant>,
}

} // verus!
