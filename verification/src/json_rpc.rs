//! The envelope of a JSON-RPC response, as plain data, and the text with
//! which a failed response is reported.

use vstd::prelude::*;
use vstd::string::StringExecFns;

verus! {

/// `serde_json::value::Number`, as it stands in the `id` member of a response.
#[verifier::external_type_specification]
#[verifier::external_body]
pub struct ExJsonNumber(serde_json::value::Number);

/// A response that carries a result.
#[derive(Debug)]
pub struct JsonRpcSuccessfulResponse<T> {
    pub id: Option<serde_json::value::Number>,
    pub result: T,
}

/// The `error` member of a failed JSON-RPC response.
#[derive(Debug)]
pub struct ErrorDetails {
    pub code: i16,
    pub message: Option<String>,
}

/// A response that carries an error.
#[derive(Debug)]
pub struct JsonRpcError {
    pub id: Option<serde_json::value::Number>,
    pub error: ErrorDetails,
}

/// A response: a result or an error.
#[derive(Debug)]
pub enum JsonRpcResponse<T> {
    Result(JsonRpcSuccessfulResponse<T>),
    Error(JsonRpcError),
}

/// The character for the digit `d`.
pub open spec fn digit_char(d: int) -> char {
    if d == 0 {
        '0'
    } else if d == 1 {
        '1'
    } else if d == 2 {
        '2'
    } else if d == 3 {
        '3'
    } else if d == 4 {
        '4'
    } else if d == 5 {
        '5'
    } else if d == 6 {
        '6'
    } else if d == 7 {
        '7'
    } else if d == 8 {
        '8'
    } else {
        '9'
    }
}

/// The decimal digits of `n`, without leading zeros.
pub open spec fn decimal(n: nat) -> Seq<char>
    decreases n,
{
    if n < 10 {
        seq![digit_char(n as int)]
    } else {
        decimal(n / 10).push(digit_char((n % 10) as int))
    }
}

/// The decimal form of `v`, with a minus sign where it is negative.
pub open spec fn signed_decimal(v: int) -> Seq<char> {
    if v < 0 {
        seq!['-'] + decimal((-v) as nat)
    } else {
        decimal(v as nat)
    }
}

/// The text that reports a failed response with `code` and `message`.
pub open spec fn error_text(code: i16, message: Option<String>) -> Seq<char> {
    "Error code: "@ + signed_decimal(code as int) + ", message: "@ + match message {
        Some(m) => m@,
        None => Seq::empty(),
    }
}

/// The digit `d` as a string slice.
fn digit_str(d: u32) -> (s: &'static str)
    requires
        d < 10,
    ensures
        s@ == seq![digit_char(d as int)],
{
    proof {
        reveal_strlit("0");
        reveal_strlit("1");
        reveal_strlit("2");
        reveal_strlit("3");
        reveal_strlit("4");
        reveal_strlit("5");
        reveal_strlit("6");
        reveal_strlit("7");
        reveal_strlit("8");
        reveal_strlit("9");
    }
    let s = if d == 0 {
        "0"
    } else if d == 1 {
        "1"
    } else if d == 2 {
        "2"
    } else if d == 3 {
        "3"
    } else if d == 4 {
        "4"
    } else if d == 5 {
        "5"
    } else if d == 6 {
        "6"
    } else if d == 7 {
        "7"
    } else if d == 8 {
        "8"
    } else {
        "9"
    };
    proof {
        assert(s@ =~= seq![digit_char(d as int)]);
    }
    s
}

/// Appends the decimal digits of `n` to `out`.
fn push_decimal(out: &mut String, n: u32)
    ensures
        final(out)@ == old(out)@ + decimal(n as nat),
    decreases n,
{
    if n >= 10 {
        push_decimal(out, n / 10);
    }
    out.append(digit_str(n % 10));
    proof {
        if n >= 10 {
            assert(final(out)@ =~= old(out)@ + decimal(n as nat));
        } else {
            assert(final(out)@ =~= old(out)@ + decimal(n as nat));
        }
    }
}

impl JsonRpcError {
    /// The text that reports this error: its code, then its message, or
    /// nothing where it has none.
    pub fn to_string(&self) -> (text: String)
        ensures
            text@ == error_text(self.error.code, self.error.message),
    {
        let mut text = String::from_str("Error code: ");
        let code = self.error.code;
        if code < 0 {
            proof {
                reveal_strlit("-");
            }
            text.append("-");
            let magnitude: u32 = (-(code as i32)) as u32;
            push_decimal(&mut text, magnitude);
        } else {
            push_decimal(&mut text, code as u32);
        }
        text.append(", message: ");
        match &self.error.message {
            Some(m) => {
                text.append(m.as_str());
            },
            None => {},
        }
        proof {
            assert(text@ =~= error_text(self.error.code, self.error.message));
        }
        text
    }
}

} // verus!
