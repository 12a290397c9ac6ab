use vstd::prelude::*;
use vstd::string::StringExecFns;

verus! {

/// The closed set of failures a fetch (or config load) can end in.
///
/// Variants that stem from an outside cause carry that cause's textual
/// rendering, so a diagnostic message can still be produced at the boundary.
#[derive(Debug, Clone, PartialEq, Eq)]
pub enum Error {
    /// A HTTP or connection error occurred (DNS, TLS, connection refused,
    /// timeout, or the redirect limit was exceeded).
    ReqwestError(String),
    /// Parsing the given URI failed.
    UriParseError,
    /// After parsing, no valid title could be found.
    NoValidTitleError,
    /// The requested content is too big to parse; carries the declared length.
    ContentTooBigError(u64),
    /// There was a problem reading the config file.
    ConfigError(String),
    /// The requested content does not have a defined content-length.
    ContentLengthMissingError,
    /// There was an I/O error while reading a body or a file.
    IoError(String),
}

/// The character standing for a single decimal digit.
pub open spec fn spec_digit_char(d: nat) -> char {
    if d == 0 {
        '0'
    } else if d == 1 {
        '1'
    } else if d == 2 {
        '2'
    } else if d == 3 {
        '3'
    } else if d == 4 {
        '4'
    } else if d == 5 {
        '5'
    } else if d == 6 {
        '6'
    } else if d == 7 {
        '7'
    } else if d == 8 {
        '8'
    } else {
        '9'
    }
}

/// The decimal rendering of `n`, most significant digit first and without
/// leading zeroes (a single `0` for zero itself).
pub open spec fn spec_decimal(n: nat) -> Seq<char>
    decreases n,
{
    if n < 10 {
        seq![spec_digit_char(n)]
    } else {
        spec_decimal(n / 10).push(spec_digit_char(n % 10))
    }
}

/// The one-character text for a single decimal digit.
fn digit_str(d: u64) -> (r: &'static str)
    requires
        d < 10,
    ensures
        r@ =~= seq![spec_digit_char(d as nat)],
{
    proof {
        reveal_strlit("0");
        reveal_strlit("1");
        reveal_strlit("2");
        reveal_strlit("3");
        reveal_strlit("4");
        reveal_strlit("5");
        reveal_strlit("6");
        reveal_strlit("7");
        reveal_strlit("8");
        reveal_strlit("9");
    }
    if d == 0 {
        "0"
    } else if d == 1 {
        "1"
    } else if d == 2 {
        "2"
    } else if d == 3 {
        "3"
    } else if d == 4 {
        "4"
    } else if d == 5 {
        "5"
    } else if d == 6 {
        "6"
    } else if d == 7 {
        "7"
    } else if d == 8 {
        "8"
    } else {
        "9"
    }
}

/// Append the decimal rendering of `n` to `out`.
fn push_decimal(n: u64, out: &mut String)
    ensures
        final(out)@ == old(out)@ + spec_decimal(n as nat),
    decreases n,
{
    if n < 10 {
        out.append(digit_str(n));
    } else {
        push_decimal(n / 10, out);
        out.append(digit_str(n % 10));
    }
}

/// The stable textual description of each error kind, as shown to callers.
pub open spec fn spec_message(e: Error) -> Seq<char> {
    match e {
        Error::ReqwestError(_) => "http client error"@,
        Error::UriParseError => "URL parse error"@,
        Error::NoValidTitleError => "No valid title found"@,
        Error::ContentTooBigError(length) => "Content-Length exceeds limit: "@ + spec_decimal(
            length as nat,
        ),
        Error::ConfigError(_) => "failed to parse config"@,
        Error::ContentLengthMissingError => "Content-Length is not returned"@,
        Error::IoError(_) => "I/O error"@,
    }
}

impl Error {
    /// The stable textual description of this error, intended for direct
    /// exposure to the caller; no internal detail is shown.
    pub fn message(&self) -> (r: String)
        ensures
            r@ == spec_message(*self),
    {
        match self {
            Error::ReqwestError(_) => "http client error".to_owned(),
            Error::UriParseError => "URL parse error".to_owned(),
            Error::NoValidTitleError => "No valid title found".to_owned(),
            Error::ContentTooBigError(length) => {
                let mut out = "Content-Length exceeds limit: ".to_owned();
                push_decimal(*length, &mut out);
                out
            },
            Error::ConfigError(_) => "failed to parse config".to_owned(),
            Error::ContentLengthMissingError => "Content-Length is not returned".to_owned(),
            Error::IoError(_) => "I/O error".to_owned(),
        }
    }
}

} // verus!
