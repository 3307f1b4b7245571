//! Errors as text, for callers that report a failure as one line.

use crate::codec::{ClientError, ClientErrorView, RpcError, RpcErrorView};
use vstd::prelude::*;

verus! {

/// The character of one decimal digit.
pub open spec fn digit_char(digit: int) -> char {
    if digit == 0 {
        '0'
    } else if digit == 1 {
        '1'
    } else if digit == 2 {
        '2'
    } else if digit == 3 {
        '3'
    } else if digit == 4 {
        '4'
    } else if digit == 5 {
        '5'
    } else if digit == 6 {
        '6'
    } else if digit == 7 {
        '7'
    } else if digit == 8 {
        '8'
    } else {
        '9'
    }
}

/// The decimal digits of a natural number, most significant first, without
/// leading zeros.
pub open spec fn digits(number: nat) -> Seq<char>
    decreases number,
{
    if number < 10 {
        seq![digit_char(number as int)]
    } else {
        digits(number / 10).push(digit_char((number % 10) as int))
    }
}

/// An integer in decimal, with a minus sign where it is negative.
pub open spec fn decimal(number: int) -> Seq<char> {
    if number < 0 {
        seq!['-'] + digits((-number) as nat)
    } else {
        digits(number as nat)
    }
}

impl RpcErrorView {
    /// The line that reports this error: `RPC error `, the code in decimal,
    /// a colon and a space, and the node's message.
    pub open spec fn line(self) -> Seq<char> {
        "RPC error "@ + decimal(self.code as int) + ": "@ + self.message
    }
}

impl ClientErrorView {
    /// The line that reports this failure: the cause of a transport failure
    /// as it is, a fixed text for an answer that cannot be read, and the
    /// node's error as [`RpcErrorView::line`] gives it.
    pub open spec fn line(self) -> Seq<char> {
        match self {
            ClientErrorView::TransportError(cause) => cause,
            ClientErrorView::DecodeError => "error decoding response body"@,
            ClientErrorView::RemoteError(error) => error.line(),
        }
    }
}

/// One decimal digit as text.
fn digit_text(digit: u64) -> (text: &'static str)
    requires
        digit < 10,
    ensures
        text@ == seq![digit_char(digit as int)],
{
    let text = if digit == 0 {
        "0"
    } else if digit == 1 {
        "1"
    } else if digit == 2 {
        "2"
    } else if digit == 3 {
        "3"
    } else if digit == 4 {
        "4"
    } else if digit == 5 {
        "5"
    } else if digit == 6 {
        "6"
    } else if digit == 7 {
        "7"
    } else if digit == 8 {
        "8"
    } else {
        "9"
    };
    proof {
        reveal_strlit("0");
        reveal_strlit("1");
        reveal_strlit("2");
        reveal_strlit("3");
        reveal_strlit("4");
        reveal_strlit("5");
        reveal_strlit("6");
        reveal_strlit("7");
        reveal_strlit("8");
        reveal_strlit("9");
        assert(text@ =~= seq![digit_char(digit as int)]);
    }
    text
}

/// A natural number in decimal.
fn unsigned_text(number: u64) -> (text: String)
    ensures
        text@ == digits(number as nat),
    decreases number,
{
    if number < 10 {
        digit_text(number).to_owned()
    } else {
        let mut text = unsigned_text(number / 10);
        text.append(digit_text(number % 10));
        assert(text@ =~= digits(number as nat));
        text
    }
}

/// An integer in decimal.
pub fn decimal_text(number: i64) -> (text: String)
    ensures
        text@ == decimal(number as int),
{
    if number < 0 {
        let magnitude: u64 = (-(number + 1)) as u64 + 1;
        let mut text = "-".to_owned();
        text.append(unsigned_text(magnitude).as_str());
        proof {
            reveal_strlit("-");
            assert(text@ =~= decimal(number as int));
        }
        text
    } else {
        unsigned_text(number as u64)
    }
}

impl RpcError {
    /// The line that reports this error.
    pub fn describe(&self) -> (line: String)
        ensures
            line@ == self@.line(),
    {
        let mut line = "RPC error ".to_owned();
        line.append(decimal_text(self.code).as_str());
        line.append(": ");
        line.append(self.message.as_str());
        line
    }
}

impl ClientError {
    /// The line that reports this failure.
    pub fn describe(&self) -> (line: String)
        ensures
            line@ == self@.line(),
    {
        match self {
            ClientError::TransportError(cause) => cause.clone(),
            ClientError::DecodeError => "error decoding response body".to_owned(),
            ClientError::RemoteError(error) => error.describe(),
        }
    }
}

} // verus!
