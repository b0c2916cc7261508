//! The fatal conditions of the buffer, and the line that reports one of them
//! with the place in the source that ran into it.
//!
//! Nothing here writes or terminates: a caller prints the line and ends the
//! process with `EXIT_STATUS`.

use vstd::prelude::*;
use vstd::string::StringExecFns;

verus! {

/// Status with which a process ends after a fatal condition.
pub const EXIT_STATUS: i32 = 69;

/// A condition after which the program must not go on.
#[derive(Clone, Copy, Debug, PartialEq, Eq, Structural)]
pub enum Fatal {
    /// The host could not provide the storage that a growing buffer asked for.
    AllocationFailure,
    /// A buffer without storage was released.
    InvalidRelease,
}

impl Fatal {
    /// The message that reports the condition.
    pub open spec fn message_text(self) -> Seq<char> {
        match self {
            Fatal::AllocationFailure => "Failed to allocate memory for array."@,
            Fatal::InvalidRelease => "Tried to free empty array."@,
        }
    }

    /// Returns the message that reports the condition.
    pub fn message(&self) -> (text: &'static str)
        ensures
            text@ == self.message_text(),
    {
        match self {
            Fatal::AllocationFailure => "Failed to allocate memory for array.",
            Fatal::InvalidRelease => "Tried to free empty array.",
        }
    }
}

/// A place in a source file.
#[derive(Debug)]
pub struct Location {
    pub file: String,
    pub line: u32,
    pub column: u32,
}

/// The character of the decimal digit `value`.
pub open spec fn digit(value: nat) -> char
    recommends
        value < 10,
{
    "0123456789"@[value as int]
}

/// The decimal numeral of `value`, without sign or leading zeros.
pub open spec fn decimal(value: nat) -> Seq<char>
    decreases value,
{
    if value < 10 {
        seq![digit(value)]
    } else {
        decimal(value / 10).push(digit(value % 10))
    }
}

/// The line that reports an error met at line `line`, column `column` of
/// `file`: the place, the word ERROR and, where there is one, the message.
pub open spec fn report_text(
    file: Seq<char>,
    line: nat,
    column: nat,
    message: Option<Seq<char>>,
) -> Seq<char> {
    let place = file + ":"@ + decimal(line) + ":"@ + decimal(column) + ": ERROR"@;
    match message {
        Some(text) => place + ": "@ + text + "\n"@,
        None => place + "\n"@,
    }
}

/// The characters of an optional string.
pub open spec fn message_view(message: Option<&str>) -> Option<Seq<char>> {
    match message {
        Some(text) => Some(text@),
        None => None,
    }
}

/// Returns the decimal digit `value` as a string of one character.
fn digit_str(value: u32) -> (text: &'static str)
    requires
        value < 10,
    ensures
        text@ == seq![digit(value as nat)],
{
    proof {
        reveal_strlit("0123456789");
        reveal_strlit("0");
        reveal_strlit("1");
        reveal_strlit("2");
        reveal_strlit("3");
        reveal_strlit("4");
        reveal_strlit("5");
        reveal_strlit("6");
        reveal_strlit("7");
        reveal_strlit("8");
        reveal_strlit("9");
    }
    let text = match value {
        0 => "0",
        1 => "1",
        2 => "2",
        3 => "3",
        4 => "4",
        5 => "5",
        6 => "6",
        7 => "7",
        8 => "8",
        _ => "9",
    };
    assert(text@ =~= seq![digit(value as nat)]);
    text
}

/// Writes `value` as a decimal numeral.
pub fn to_decimal(value: u32) -> (text: String)
    ensures
        text@ == decimal(value as nat),
    decreases value,
{
    if value < 10 {
        String::from_str(digit_str(value))
    } else {
        let mut text = to_decimal(value / 10);
        text.append(digit_str(value % 10));
        assert(text@ =~= decimal(value as nat));
        text
    }
}

/// Builds the line that reports an error met at `location`, with `message`
/// where there is one.
pub fn report(location: &Location, message: Option<&str>) -> (text: String)
    ensures
        text@ == report_text(
            location.file@,
            location.line as nat,
            location.column as nat,
            message_view(message),
        ),
{
    let mut text = String::from_str(location.file.as_str());
    text.append(":");
    text.append(to_decimal(location.line).as_str());
    text.append(":");
    text.append(to_decimal(location.column).as_str());
    text.append(": ERROR");
    match message {
        Some(message) => {
            text.append(": ");
            text.append(message);
        },
        None => {},
    }
    text.append("\n");
    text
}

} // verus!
