//! What the caller reports of an operation that it performed for the cycle.

use crate::view::result_view;
use vstd::prelude::*;

verus! {

/// The text that an operation gave, or the message of its failure.
pub type Reply = Result<String, String>;

/// A [`Reply`] with its texts as sequences of characters.
pub type ReplyView = Result<Seq<char>, Seq<char>>;

/// Whether an HTTP status stands for success.
pub open spec fn is_success(status: u16) -> bool {
    200 <= status < 300
}

/// The character of the decimal digit `d`.
pub open spec fn digit(d: nat) -> char {
    if d == 0 {
        '0'
    } else if d == 1 {
        '1'
    } else if d == 2 {
        '2'
    } else if d == 3 {
        '3'
    } else if d == 4 {
        '4'
    } else if d == 5 {
        '5'
    } else if d == 6 {
        '6'
    } else if d == 7 {
        '7'
    } else if d == 8 {
        '8'
    } else {
        '9'
    }
}

/// `n` in decimal digits, without leading zeros.
pub open spec fn decimal(n: nat) -> Seq<char>
    decreases n,
{
    if n < 10 {
        seq![digit(n)]
    } else {
        decimal(n / 10).push(digit(n % 10))
    }
}

/// What an answered GET amounts to: its body where the status is a success,
/// otherwise a failure that names the status.
pub open spec fn http_reply_spec(status: u16, body: Seq<char>) -> ReplyView {
    if is_success(status) {
        Ok(body)
    } else {
        Err("unexpected HTTP status "@ + decimal(status as nat))
    }
}

/// The decimal digit `d` as a text of one character.
fn digit_text(d: u16) -> (text: &'static str)
    requires
        d < 10,
    ensures
        text@ == seq![digit(d as nat)],
{
    proof {
        reveal_strlit("0");
        reveal_strlit("1");
        reveal_strlit("2");
        reveal_strlit("3");
        reveal_strlit("4");
        reveal_strlit("5");
        reveal_strlit("6");
        reveal_strlit("7");
        reveal_strlit("8");
        reveal_strlit("9");
    }
    if d == 0 {
        "0"
    } else if d == 1 {
        "1"
    } else if d == 2 {
        "2"
    } else if d == 3 {
        "3"
    } else if d == 4 {
        "4"
    } else if d == 5 {
        "5"
    } else if d == 6 {
        "6"
    } else if d == 7 {
        "7"
    } else if d == 8 {
        "8"
    } else {
        "9"
    }
}

/// `n` in decimal digits.
pub fn decimal_text(n: u16) -> (text: String)
    ensures
        text@ == decimal(n as nat),
    decreases n,
{
    if n < 10 {
        String::from_str(digit_text(n))
    } else {
        let mut text = decimal_text(n / 10);
        text.append(digit_text(n % 10));
        text
    }
}

/// The reply that stands for a GET answered with `status` and `body`.
pub fn http_reply(status: u16, body: String) -> (reply: Reply)
    ensures
        result_view(reply) == http_reply_spec(status, body@),
{
    if 200 <= status && status < 300 {
        Ok(body)
    } else {
        let mut message = String::from_str("unexpected HTTP status ");
        let number = decimal_text(status);
        message.append(number.as_str());
        Err(message)
    }
}

} // verus!
