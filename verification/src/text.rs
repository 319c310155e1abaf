//! The plain-text bodies of responses, and the decimal form of an id in them.

use vstd::prelude::*;
use vstd::string::StringExecFns;

verus! {

/// The character for one decimal digit.
pub open spec fn digit(d: nat) -> char
    recommends
        d < 10,
{
    if d == 0 {
        '0'
    } else if d == 1 {
        '1'
    } else if d == 2 {
        '2'
    } else if d == 3 {
        '3'
    } else if d == 4 {
        '4'
    } else if d == 5 {
        '5'
    } else if d == 6 {
        '6'
    } else if d == 7 {
        '7'
    } else if d == 8 {
        '8'
    } else {
        '9'
    }
}

/// A number in decimal: most significant digit first, no sign, no leading
/// zero but for zero itself.
pub open spec fn decimal(n: nat) -> Seq<char>
    decreases n,
{
    if n < 10 {
        seq![digit(n)]
    } else {
        decimal(n / 10).push(digit(n % 10))
    }
}

/// The body that says the service is up.
pub open spec fn healthy_text() -> Seq<char> {
    "API is healthy!"@
}

/// The body that says no task has `id`.
pub open spec fn not_found_text(id: nat) -> Seq<char> {
    "Task with ID "@ + decimal(id) + " not found"@
}

/// The body that says the task with `id` is gone.
pub open spec fn deleted_text(id: nat) -> Seq<char> {
    "Task with ID "@ + decimal(id) + " has been deleted"@
}

/// One decimal digit as text.
fn digit_str(d: u64) -> (text: &'static str)
    requires
        d < 10,
    ensures
        text@ == seq![digit(d as nat)],
{
    proof {
        reveal_strlit("0");
        reveal_strlit("1");
        reveal_strlit("2");
        reveal_strlit("3");
        reveal_strlit("4");
        reveal_strlit("5");
        reveal_strlit("6");
        reveal_strlit("7");
        reveal_strlit("8");
        reveal_strlit("9");
    }
    match d {
        0 => "0",
        1 => "1",
        2 => "2",
        3 => "3",
        4 => "4",
        5 => "5",
        6 => "6",
        7 => "7",
        8 => "8",
        _ => "9",
    }
}

/// A number written out in decimal.
pub fn decimal_string(n: u64) -> (text: String)
    ensures
        text@ == decimal(n as nat),
    decreases n,
{
    if n < 10 {
        String::from_str(digit_str(n))
    } else {
        let mut text = decimal_string(n / 10);
        text.append(digit_str(n % 10));
        text
    }
}

/// The text of the health answer.
pub fn healthy_message() -> (text: String)
    ensures
        text@ == healthy_text(),
{
    String::from_str("API is healthy!")
}

/// The text that reports a missing task.
pub fn not_found_message(id: u64) -> (text: String)
    ensures
        text@ == not_found_text(id as nat),
{
    let mut text = String::from_str("Task with ID ");
    text.append(decimal_string(id).as_str());
    text.append(" not found");
    text
}

/// The text that reports a deletion.
pub fn deleted_message(id: u64) -> (text: String)
    ensures
        text@ == deleted_text(id as nat),
{
    let mut text = String::from_str("Task with ID ");
    text.append(decimal_string(id).as_str());
    text.append(" has been deleted");
    text
}

} // verus!
