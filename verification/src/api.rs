//! Classification of the log-retrieval HTTP response.
//!
//! The request itself is issued outside the library; the status code and
//! body text arrive here as plain values. Any non-success status is a soft
//! failure: it carries a diagnostic but yields the same empty text as "no
//! logs found". Only a transport-level failure, which never produces a
//! status code, is surfaced as a hard error by the caller.

use vstd::prelude::*;
use vstd::string::StringExecFns;

verus! {

/// The outcome of one log-retrieval request, tagged with its diagnostic
/// class instead of conflating "no data" and "rejected" into one string.
#[derive(Debug)]
pub enum LogResponse {
    /// A success status with a non-empty body: the raw newline-delimited
    /// JSON text, unmodified.
    Success { body: String },
    /// A success status with an empty body: no logs matched the range.
    EmptyBody,
    /// A non-success status: the code and the raw error body.
    HttpError { status: u16, detail: String },
}

/// Success statuses, as HTTP defines them: the 2xx range.
pub open spec fn is_success_status(status: u16) -> bool {
    200 <= status < 300
}

/// How a status code and body text are classified into a `LogResponse`.
pub open spec fn classifies(status: u16, body: Seq<char>, r: LogResponse) -> bool {
    match r {
        LogResponse::Success { body: b } => is_success_status(status) && body.len() > 0 && b@
            == body,
        LogResponse::EmptyBody => is_success_status(status) && body.len() == 0,
        LogResponse::HttpError { status: s, detail } => !is_success_status(status) && s == status
            && detail@ == body,
    }
}

/// The text a response yields: the raw body on success, the empty string
/// for every other outcome.
pub open spec fn response_text_spec(r: LogResponse) -> Seq<char> {
    match r {
        LogResponse::Success { body } => body@,
        LogResponse::EmptyBody => Seq::empty(),
        LogResponse::HttpError { .. } => Seq::empty(),
    }
}

/// The decimal digit characters of `n`, most significant first, with no
/// leading zeros (a single `'0'` for zero).
pub open spec fn decimal_of(n: nat) -> Seq<char>
    decreases n,
{
    if n < 10 {
        seq![digit_char(n as int)]
    } else {
        decimal_of((n / 10) as nat).push(digit_char((n % 10) as int))
    }
}

/// The character for one decimal digit.
pub open spec fn digit_char(d: int) -> char {
    if d == 0 {
        '0'
    } else if d == 1 {
        '1'
    } else if d == 2 {
        '2'
    } else if d == 3 {
        '3'
    } else if d == 4 {
        '4'
    } else if d == 5 {
        '5'
    } else if d == 6 {
        '6'
    } else if d == 7 {
        '7'
    } else if d == 8 {
        '8'
    } else {
        '9'
    }
}

/// The diagnostic lines a response carries: none on success, a hint to
/// check the time range when no logs matched, and the status code with the
/// raw error body on a remote rejection.
pub open spec fn diagnostic_spec(r: LogResponse) -> Seq<Seq<char>> {
    match r {
        LogResponse::Success { .. } => Seq::empty(),
        LogResponse::EmptyBody => seq!["No logs found"@, "Please check time range"@],
        LogResponse::HttpError { status, detail } => seq![
            "Failed to retrieve logs: "@ + decimal_of(status as nat),
            "Error Detail: "@ + detail@,
        ],
    }
}

fn digit_str(d: u16) -> (r: &'static str)
    requires
        d < 10,
    ensures
        r@ == seq![digit_char(d as int)],
{
    proof {
        reveal_strlit("0");
        reveal_strlit("1");
        reveal_strlit("2");
        reveal_strlit("3");
        reveal_strlit("4");
        reveal_strlit("5");
        reveal_strlit("6");
        reveal_strlit("7");
        reveal_strlit("8");
        reveal_strlit("9");
    }
    let r: &'static str = if d == 0 {
        "0"
    } else if d == 1 {
        "1"
    } else if d == 2 {
        "2"
    } else if d == 3 {
        "3"
    } else if d == 4 {
        "4"
    } else if d == 5 {
        "5"
    } else if d == 6 {
        "6"
    } else if d == 7 {
        "7"
    } else if d == 8 {
        "8"
    } else {
        "9"
    };
    proof {
        assert(r@ =~= seq![digit_char(d as int)]);
    }
    r
}

/// Renders `n` in decimal, most significant digit first.
pub fn u16_decimal(n: u16) -> (r: String)
    ensures
        r@ == decimal_of(n as nat),
    decreases n,
{
    if n < 10 {
        String::from_str(digit_str(n))
    } else {
        let mut s = u16_decimal(n / 10);
        s.append(digit_str(n % 10));
        proof {
            assert(s@ =~= decimal_of(n as nat));
        }
        s
    }
}

impl LogResponse {
    /// Classifies a status code and body text: a non-success status is a
    /// remote rejection carrying the code and raw body, a success status
    /// with an empty body means no logs matched, and a success status with
    /// a non-empty body carries the raw text unmodified.
    pub fn classify(status: u16, body: String) -> (r: LogResponse)
        ensures
            classifies(status, body@, r),
    {
        if !(200 <= status && status < 300) {
            LogResponse::HttpError { status, detail: body }
        } else if body.as_str().is_empty() {
            LogResponse::EmptyBody
        } else {
            LogResponse::Success { body }
        }
    }

    /// The text this response yields on standard output: the raw body on
    /// success, the empty string for every other outcome.
    pub fn text(self) -> (r: String)
        ensures
            r@ == response_text_spec(self),
    {
        match self {
            LogResponse::Success { body } => body,
            LogResponse::EmptyBody => String::new(),
            LogResponse::HttpError { .. } => String::new(),
        }
    }

    /// The diagnostic lines to print on the error stream for this
    /// response.
    pub fn diagnostic(&self) -> (r: Vec<String>)
        ensures
            r.deep_view() == diagnostic_spec(*self),
    {
        let mut lines: Vec<String> = Vec::new();
        match self {
            LogResponse::Success { .. } => {},
            LogResponse::EmptyBody => {
                lines.push(String::from_str("No logs found"));
                lines.push(String::from_str("Please check time range"));
            },
            LogResponse::HttpError { status, detail } => {
                let mut first = String::from_str("Failed to retrieve logs: ");
                first.append(u16_decimal(*status).as_str());
                lines.push(first);
                let mut second = String::from_str("Error Detail: ");
                second.append(detail.as_str());
                lines.push(second);
            },
        }
        proof {
            assert(lines.deep_view() =~= diagnostic_spec(*self));
        }
        lines
    }
}

/// Any non-success status yields an empty text result, whatever the body
/// held: a remote rejection is observably the same as "no logs found".
pub proof fn lemma_error_status_text_empty(status: u16, body: Seq<char>, r: LogResponse)
    requires
        !is_success_status(status),
        classifies(status, body, r),
    ensures
        response_text_spec(r).len() == 0,
{
}

/// A success status with an empty body yields an empty text result.
pub proof fn lemma_empty_body_text_empty(status: u16, body: Seq<char>, r: LogResponse)
    requires
        is_success_status(status),
        body.len() == 0,
        classifies(status, body, r),
    ensures
        response_text_spec(r).len() == 0,
{
}

/// A success status with a non-empty body yields exactly that body.
pub proof fn lemma_success_text_is_body(status: u16, body: Seq<char>, r: LogResponse)
    requires
        is_success_status(status),
        body.len() > 0,
        classifies(status, body, r),
    ensures
        response_text_spec(r) == body,
{
}

} // verus!
