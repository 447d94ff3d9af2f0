# mail_session

The decisions of a mail account's network threads, verified with Verus: how to
wait for new messages over IMAP, how to interrupt such a wait from another
thread, and how to send a message over SMTP.

The library makes no network calls. Waiting and interrupting are step by step
machines: a step names an action for the caller, and takes its outcome. Sending
says what the transport is to do, and takes note of how that went.

| module | |
| --- | --- |
| `imap::idle` | waiting with the IDLE command |
| `imap::fake_idle` | waiting by polling |
| `imap::interrupt` | interrupting a wait |
| `imap::meeting` | why an interruption that finds a wait ends it, and one that finds no stop source forbids the next wait, whatever the order of the threads |
| `imap::laws` | what holds of every run |
| `imap::notes` | what is written to the log on the way |
| `smtp`, `smtp::send` | addresses, mails, timeouts, reports |
| `log`, `events`, `text` | log lines, events, and the text they are made of |

A run with the IDLE command leaves its stop source in place when it ends. An
interruption that comes then, before the next wait has put its own source there,
is spent on the old source.

`app/` performs the actions over real connections.

Taken on trust, and said so where it stands: `async_smtp::EmailAddress::new`,
`async_smtp::Envelope::new` and `async_smtp::SendableEmail::new` (in `smtp`), and
`stop_token::StopSource::new` and `stop_token::StopSource::stop_token` (in
`imap::fake_idle`).
