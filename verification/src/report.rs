//! The wording of what a run reports: why a row or a page gave nothing, and
//! how much was read.

use crate::pipeline::{Diagnostic, Totals};
use crate::row::RowFailure;
use crate::text::IntegerFault;
use crate::wof_date_format::DateError;
use vstd::prelude::*;
use vstd::string::StringExecFns;

verus! {

/// The character of the decimal digit `d`.
pub open spec fn digit_text(d: nat) -> Seq<char> {
    if d == 0 {
        seq!['0']
    } else if d == 1 {
        seq!['1']
    } else if d == 2 {
        seq!['2']
    } else if d == 3 {
        seq!['3']
    } else if d == 4 {
        seq!['4']
    } else if d == 5 {
        seq!['5']
    } else if d == 6 {
        seq!['6']
    } else if d == 7 {
        seq!['7']
    } else if d == 8 {
        seq!['8']
    } else {
        seq!['9']
    }
}

/// `n` in decimal, without leading zeros.
pub open spec fn decimal(n: nat) -> Seq<char>
    decreases n,
{
    if n < 10 {
        digit_text(n)
    } else {
        decimal(n / 10) + digit_text(n % 10)
    }
}

/// `n` in decimal, with `-` in front where it is negative.
pub open spec fn signed_decimal(n: int) -> Seq<char> {
    if n < 0 {
        seq!['-'] + decimal((-n) as nat)
    } else {
        decimal(n as nat)
    }
}

/// Why a piece of text is no number, in words.
pub open spec fn fault_text(fault: IntegerFault) -> Seq<char> {
    match fault {
        IntegerFault::Empty => "cannot parse integer from empty string"@,
        IntegerFault::InvalidDigit => "invalid digit found in string"@,
        IntegerFault::TooLarge => "number too large to fit in target type"@,
        IntegerFault::TooSmall => "number too small to fit in target type"@,
    }
}

/// Why a row gave no record, in words.
pub open spec fn failure_text(failure: RowFailure) -> Seq<char> {
    match failure {
        RowFailure::CellCount(found) => "expected 2 cells, found "@ + decimal(found as nat),
        RowFailure::LocatorMissing => "Could not extract locker allocation."@,
        RowFailure::PercentMissing => "Could not extract locker allocation number."@,
        RowFailure::NotANumber(fault) => "Could not parse locker allocation number ("@
            + fault_text(fault) + ")."@,
    }
}

/// The note on a page or a row that gave no record, in words.
pub open spec fn diagnostic_text(diagnostic: Diagnostic) -> Seq<char> {
    match diagnostic {
        Diagnostic::TooLong { snapshot } => "Skipping snapshot with id '"@ + signed_decimal(
            snapshot as int,
        ) + "' because its markup is too long to be parsed."@,
        Diagnostic::NoTable { snapshot } => "Skipping snapshot with id '"@ + signed_decimal(
            snapshot as int,
        ) + "' because it does not contain a table."@,
        Diagnostic::Row { snapshot, row, reason } => "Skip parsing row "@ + decimal(row as nat)
            + " of snapshot with id '"@ + signed_decimal(snapshot as int)
            + "' because of following error: "@ + failure_text(reason),
    }
}

/// How many of how many were parsed, in words; `things` names what was
/// counted.
pub open spec fn summary_text(parsed: nat, total: nat, things: Seq<char>) -> Seq<char> {
    "Parsed "@ + decimal(parsed) + " of "@ + decimal(total) + " "@ + things + "."@
}

/// The digit `d` as text.
fn digit_str(d: u8) -> (text: &'static str)
    requires
        d < 10,
    ensures
        text@ == digit_text(d as nat),
{
    proof {
        reveal_strlit("0");
        reveal_strlit("1");
        reveal_strlit("2");
        reveal_strlit("3");
        reveal_strlit("4");
        reveal_strlit("5");
        reveal_strlit("6");
        reveal_strlit("7");
        reveal_strlit("8");
        reveal_strlit("9");
    }
    let text = if d == 0 {
        "0"
    } else if d == 1 {
        "1"
    } else if d == 2 {
        "2"
    } else if d == 3 {
        "3"
    } else if d == 4 {
        "4"
    } else if d == 5 {
        "5"
    } else if d == 6 {
        "6"
    } else if d == 7 {
        "7"
    } else if d == 8 {
        "8"
    } else {
        "9"
    };
    text
}

/// Writes `n` in decimal.
pub fn write_decimal(n: u128) -> (text: String)
    ensures
        text@ == decimal(n as nat),
    decreases n,
{
    if n < 10 {
        String::from_str(digit_str(n as u8))
    } else {
        let mut text = write_decimal(n / 10);
        text.append(digit_str((n % 10) as u8));
        text
    }
}

/// Writes `n` in decimal, with `-` in front where it is negative.
pub fn write_signed_decimal(n: i64) -> (text: String)
    ensures
        text@ == signed_decimal(n as int),
{
    if n < 0 {
        proof {
            reveal_strlit("-");
        }
        let size: u128 = (-(n as i128)) as u128;
        let mut text = String::from_str("-");
        text.append(write_decimal(size).as_str());
        text
    } else {
        write_decimal(n as u128)
    }
}

impl IntegerFault {
    /// Why the text is no number, in words.
    pub fn message(&self) -> (text: String)
        ensures
            text@ == fault_text(*self),
    {
        match self {
            IntegerFault::Empty => String::from_str("cannot parse integer from empty string"),
            IntegerFault::InvalidDigit => String::from_str("invalid digit found in string"),
            IntegerFault::TooLarge => String::from_str("number too large to fit in target type"),
            IntegerFault::TooSmall => String::from_str("number too small to fit in target type"),
        }
    }
}

impl RowFailure {
    /// Why the row gave no record, in words.
    pub fn message(&self) -> (text: String)
        ensures
            text@ == failure_text(*self),
    {
        match self {
            RowFailure::CellCount(found) => {
                let mut text = String::from_str("expected 2 cells, found ");
                text.append(write_decimal(*found as u128).as_str());
                text
            },
            RowFailure::LocatorMissing => String::from_str("Could not extract locker allocation."),
            RowFailure::PercentMissing => String::from_str(
                "Could not extract locker allocation number.",
            ),
            RowFailure::NotANumber(fault) => {
                let mut text = String::from_str("Could not parse locker allocation number (");
                text.append(fault.message().as_str());
                text.append(").");
                text
            },
        }
    }
}

impl Diagnostic {
    /// The note, in words.
    pub fn message(&self) -> (text: String)
        ensures
            text@ == diagnostic_text(*self),
    {
        match self {
            Diagnostic::TooLong { snapshot } => {
                let mut text = String::from_str("Skipping snapshot with id '");
                text.append(write_signed_decimal(*snapshot).as_str());
                text.append("' because its markup is too long to be parsed.");
                text
            },
            Diagnostic::NoTable { snapshot } => {
                let mut text = String::from_str("Skipping snapshot with id '");
                text.append(write_signed_decimal(*snapshot).as_str());
                text.append("' because it does not contain a table.");
                text
            },
            Diagnostic::Row { snapshot, row, reason } => {
                let mut text = String::from_str("Skip parsing row ");
                text.append(write_decimal(*row as u128).as_str());
                text.append(" of snapshot with id '");
                text.append(write_signed_decimal(*snapshot).as_str());
                text.append("' because of following error: ");
                text.append(reason.message().as_str());
                text
            },
        }
    }
}

/// Writes how many of how many were parsed.
fn write_summary(parsed: u128, total: u128, things: &str) -> (text: String)
    ensures
        text@ == summary_text(parsed as nat, total as nat, things@),
{
    let mut text = String::from_str("Parsed ");
    text.append(write_decimal(parsed).as_str());
    text.append(" of ");
    text.append(write_decimal(total).as_str());
    text.append(" ");
    text.append(things);
    text.append(".");
    text
}

impl Totals {
    /// How many of the snapshots were fully parsed, in words.
    pub fn snapshots_summary(&self) -> (text: String)
        ensures
            text@ == summary_text(self@.snapshots_fully_parsed, self@.snapshots_total, "snapshots"@),
    {
        write_summary(
            self.snapshots_fully_parsed as u128,
            self.snapshots_total as u128,
            "snapshots",
        )
    }

    /// How many of the rows were parsed, in words.
    pub fn rows_summary(&self) -> (text: String)
        ensures
            text@ == summary_text(self@.rows_parsed, self@.rows_total, "rows"@),
    {
        write_summary(self.rows_parsed as u128, self.rows_total, "rows")
    }
}

/// Why a capture time could not be read, in words.
pub open spec fn date_error_text(error: DateError) -> Seq<char> {
    match error {
        DateError::Unreadable(reason) => reason@,
    }
}

impl DateError {
    /// Why the capture time could not be read, in words: for text of
    /// another format, the parser's own description.
    pub fn message(&self) -> (text: String)
        ensures
            text@ == date_error_text(*self),
    {
        match self {
            DateError::Unreadable(reason) => reason.clone(),
        }
    }
}

} // verus!
