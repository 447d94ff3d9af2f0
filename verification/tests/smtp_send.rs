use async_std::task::block_on;
use mail_session::cause::Cause;
use mail_session::events::Event;
use mail_session::smtp::send::{Error, Receipt, Sending};
use mail_session::smtp::{EmailAddress, EmailError, Smtp};
use std::time::Instant;

fn address(text: &str) -> EmailAddress {
    EmailAddress::new(text.to_string()).unwrap()
}

fn account(transport: Option<u8>) -> Smtp<u8> {
    Smtp {
        from: Some(address("alice@example.org")),
        transport,
        last_success: None,
    }
}

#[test]
fn addresses_are_checked() {
    assert_eq!(address("bob@example.org").as_str(), "bob@example.org");
    assert_eq!(address("root@localhost").as_str(), "root@localhost");
    assert!(matches!(
        EmailAddress::new("bob at example".to_string()),
        Err(EmailError::InvalidEmailAddress)
    ));
    assert!(EmailAddress::new(String::new()).is_err());
}

#[test]
fn mail_holds_what_it_was_given() {
    let to = vec![address("bob@example.org"), address("carol@example.net")];
    let sending = account(Some(0)).send(to, b"Subject: hi\r\n\r\nho".to_vec(), 4711);
    match sending {
        Sending::Transmit { mail, timeout, receipt } => {
            let to: Vec<String> = mail.envelope().to().iter().map(|a| a.to_string()).collect();
            assert_eq!(to, vec!["bob@example.org", "carol@example.net"]);
            assert_eq!(mail.envelope().from().unwrap().to_string(), "alice@example.org");
            assert_eq!(mail.message_id(), "4711");
            assert_eq!(block_on(mail.message_to_string()).unwrap(), "Subject: hi\r\n\r\nho");
            assert_eq!(timeout, 60);
            assert_eq!(receipt.message_len, 17);
            assert_eq!(receipt.recipients, "bob@example.org,carol@example.net");
        }
        Sending::Refused { .. } => panic!("refused"),
    }
}

#[test]
fn sender_may_be_missing() {
    let smtp = Smtp { from: None, transport: Some(0u8), last_success: None };
    match smtp.send(vec![address("bob@example.org")], Vec::new(), 0) {
        Sending::Transmit { mail, .. } => {
            assert!(mail.envelope().from().is_none());
            assert_eq!(mail.message_id(), "0");
        }
        Sending::Refused { .. } => panic!("refused"),
    }
}

#[test]
fn recipients_are_needed() {
    for transport in [None, Some(0)] {
        let sending = account(transport).send(Vec::new(), b"x".to_vec(), 1);
        match sending {
            Sending::Refused { warning, error } => {
                assert!(warning.is_none());
                assert!(matches!(error, Error::EnvelopeError(EmailError::MissingTo)));
                assert_eq!(error.describe(), "Envelope error: missing destination address");
            }
            Sending::Transmit { .. } => panic!("transmitted"),
        }
    }
}

#[test]
fn transport_is_needed() {
    let to = vec![address("bob@example.org"), address("carol@example.net")];
    match account(None).send(to, b"x".to_vec(), 1) {
        Sending::Refused { warning, error } => {
            assert_eq!(
                warning.unwrap(),
                "uh? SMTP has no transport, failed to send to bob@example.org,carol@example.net"
            );
            assert!(matches!(error, Error::NoTransport));
            assert_eq!(error.describe(), "SMTP has no transport");
        }
        Sending::Transmit { .. } => panic!("transmitted"),
    }
}

fn timeout_of(len: usize) -> u64 {
    match account(Some(0)).send(vec![address("bob@example.org")], vec![0; len], 1) {
        Sending::Transmit { timeout, .. } => timeout,
        Sending::Refused { .. } => panic!("refused"),
    }
}

#[test]
fn time_grows_with_size() {
    assert_eq!(timeout_of(0), 60);
    assert_eq!(timeout_of(5_555), 60);
    assert_eq!(timeout_of(5_556), 61);
    assert_eq!(timeout_of(999_999), 239);
    assert_eq!(timeout_of(1_000_000), 240);
    assert_eq!(timeout_of(10_000_000), 1860);
}

#[test]
fn success_is_reported_and_kept() {
    let mut smtp = account(Some(7));
    let receipt = Receipt { message_len: 12, recipients: "bob@example.org".to_string() };
    let (event, delivered) = smtp.sent(receipt, Ok(())).unwrap();
    assert!(matches!(
        event,
        Event::SmtpMessageSent(text) if text == "Message len=12 was smtp-sent to bob@example.org"
    ));
    assert_eq!(smtp.last_success, None);
    let now = Instant::now();
    assert!(smtp.reported(delivered, now).is_ok());
    assert_eq!(smtp.last_success, Some(now));
    assert_eq!(smtp.transport, Some(7));
}

#[test]
fn failure_leaves_the_account_alone() {
    let smtp = account(Some(7));
    let receipt = Receipt { message_len: 12, recipients: "bob@example.org".to_string() };
    let cause = Cause { text: "no stream".to_string() };
    let error = smtp.sent(receipt, Err(cause)).unwrap_err();
    assert!(matches!(&error, Error::SendError(cause) if cause.text == "no stream"));
    assert_eq!(error.describe(), "Send error: no stream");
    assert_eq!(smtp.last_success, None);
}

#[test]
fn report_names_size_and_recipients_of_the_mail() {
    let smtp = account(Some(0));
    let to = vec![address("bob@example.org"), address("carol@example.net")];
    match smtp.send(to, vec![1, 2, 3], 1) {
        Sending::Transmit { receipt, .. } => {
            let (event, _) = smtp.sent(receipt, Ok(())).unwrap();
            assert!(matches!(
                event,
                Event::SmtpMessageSent(text)
                    if text == "Message len=3 was smtp-sent to bob@example.org,carol@example.net"
            ));
        }
        Sending::Refused { .. } => panic!("refused"),
    }
}

#[test]
fn email_errors_have_words() {
    assert_eq!(EmailError::MissingFrom.describe(), "missing source address");
    assert_eq!(EmailError::MissingTo.describe(), "missing destination address");
    assert_eq!(EmailError::InvalidEmailAddress.describe(), "invalid email address");
}
