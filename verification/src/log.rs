//! How a message becomes a log event.

use vstd::prelude::*;
use vstd::string::*;
use crate::events::Event;
use crate::text::{decimal, decimal_text, pad_left, pad_right, padded_left, padded_right};

verus! {

/// Characters reserved for the thread.
pub const THREAD_WIDTH: usize = 12;

/// Characters reserved for the source file.
pub const FILE_WIDTH: usize = 21;

/// Characters reserved for the line number.
pub const LINE_WIDTH: usize = 4;

/// The thread and the place that a message comes from, in columns.
pub open spec fn origin_text(thread: Seq<char>, file: Seq<char>, line: nat) -> Seq<char> {
    padded_right(thread, THREAD_WIDTH as nat) + " "@ + padded_right(file, FILE_WIDTH as nat) + ":"@
        + padded_left(decimal_text(line), LINE_WIDTH as nat) + ": "@
}

/// A message behind its origin.
pub open spec fn line_text(
    thread: Seq<char>,
    file: Seq<char>,
    line: nat,
    msg: Seq<char>,
) -> Seq<char> {
    origin_text(thread, file, line) + msg
}

/// Puts the origin in front of a message: the thread, the file and the line,
/// each with a standard width.
pub fn full_line(thread: &str, file: &str, line: u32, msg: &str) -> (r: String)
    ensures
        r@ == line_text(thread@, file@, line as nat, msg@),
{
    let mut r: String = pad_right(thread, THREAD_WIDTH);
    r.append(" ");
    r.append(pad_right(file, FILE_WIDTH).as_str());
    r.append(":");
    r.append(pad_left(decimal(line as u64).as_str(), LINE_WIDTH).as_str());
    r.append(": ");
    r.append(msg);
    r
}

/// The event for an informational message.
pub fn info(thread: &str, file: &str, line: u32, msg: &str) -> (r: Event)
    ensures
        r matches Event::Info(full) && full@ == line_text(thread@, file@, line as nat, msg@),
{
    Event::Info(full_line(thread, file, line, msg))
}

/// The event for a warning.
pub fn warn(thread: &str, file: &str, line: u32, msg: &str) -> (r: Event)
    ensures
        r matches Event::Warning(full) && full@ == line_text(thread@, file@, line as nat, msg@),
{
    Event::Warning(full_line(thread, file, line, msg))
}

/// The event for an error, which the user sees as it is, without an origin.
pub fn error(msg: String) -> (r: Event)
    ensures
        r == Event::Error(msg),
{
    Event::Error(msg)
}

/// The column at which messages start.
pub open spec fn message_column() -> int {
    THREAD_WIDTH + 1 + FILE_WIDTH + 1 + LINE_WIDTH + 2
}

/// Messages line up: wherever thread, file and line fit their columns, every
/// message starts at the same column.
pub proof fn messages_line_up(thread: Seq<char>, file: Seq<char>, line: nat, msg: Seq<char>)
    requires
        thread.len() <= THREAD_WIDTH,
        file.len() <= FILE_WIDTH,
        line < 10_000,
    ensures
        origin_text(thread, file, line).len() == message_column(),
        line_text(thread, file, line, msg).skip(message_column()) == msg,
{
    reveal_strlit(" ");
    reveal_strlit(":");
    reveal_strlit(": ");
    reveal_with_fuel(decimal_text, 4);
    assert(line_text(thread, file, line, msg).skip(message_column()) =~= msg);
}

/// How many characters a text takes up in a column of a given width.
pub open spec fn taken(text: Seq<char>, width: nat) -> nat {
    if text.len() < width {
        width
    } else {
        text.len()
    }
}

/// A log line shows its origin in full, however long it is: the thread in front, in a
/// column of 12, then the file, in a column of 21, then the number of the line, at the end
/// of a column of 4, and at last the message, up to the end of the line.
pub proof fn lines_show_their_origin(thread: Seq<char>, file: Seq<char>, line: nat, msg: Seq<char>)
    ensures
        ({
            let text = line_text(thread, file, line, msg);
            let number = decimal_text(line);
            let file_start = taken(thread, 12) + 1int;
            let file_end = file_start + taken(file, 21);
            let number_end = file_end + 1 + taken(number, 4);
            &&& text.subrange(0, thread.len() as int) == thread
            &&& text[file_start - 1] == ' '
            &&& text.subrange(file_start, file_start + file.len()) == file
            &&& text[file_end] == ':'
            &&& text.subrange(number_end - number.len(), number_end) == number
            &&& text[number_end] == ':'
            &&& text[number_end + 1] == ' '
            &&& text.skip(number_end + 2) == msg
            &&& text.len() == number_end + 2 + msg.len()
        }),
{
    reveal_strlit(" ");
    reveal_strlit(":");
    reveal_strlit(": ");
    let text = line_text(thread, file, line, msg);
    let number = decimal_text(line);
    let file_start: int = taken(thread, 12) + 1int;
    let file_end: int = file_start + taken(file, 21);
    let number_end: int = file_end + 1 + taken(number, 4);
    assert(text.subrange(0, thread.len() as int) =~= thread);
    assert(text.subrange(file_start, file_start + file.len()) =~= file);
    assert(text.subrange(number_end - number.len(), number_end) =~= number);
    assert(text.skip(number_end + 2) =~= msg);
}

} // verus!
