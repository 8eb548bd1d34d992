//! Error type shared by the transport, the framing layer and the control
//! engine, together with a verified decimal rendering used to build error
//! texts.

use vstd::prelude::*;
use vstd::string::*;

verus! {

/// Declares `std::io::Error`, carried opaquely inside the library's I/O
/// error variant.
#[verifier::external_type_specification]
#[verifier::external_body]
pub struct ExIoError(std::io::Error);

/// Every failure the library reports: connection setup, transport I/O,
/// frame decoding, message parsing, control-protocol violations,
/// configuration, and outbound-request timeouts.
#[derive(Debug)]
pub enum ClaudeSDKError {
    CLIConnection(String),
    CLINotFound(String),
    Process { message: String, exit_code: Option<i32>, stderr: Option<String> },
    JSONDecode(serde_json::Error),
    MessageParse { message: String, data: Option<serde_json::Value> },
    IO(std::io::Error),
    ControlProtocol(String),
    Transport(String),
    InvalidConfig(String),
    Timeout(String),
}

pub type SdkResult<T> = core::result::Result<T, ClaudeSDKError>;

/// The character for one decimal digit.
pub open spec fn digit_char(d: nat) -> char {
    if d == 0 {
        '0'
    } else if d == 1 {
        '1'
    } else if d == 2 {
        '2'
    } else if d == 3 {
        '3'
    } else if d == 4 {
        '4'
    } else if d == 5 {
        '5'
    } else if d == 6 {
        '6'
    } else if d == 7 {
        '7'
    } else if d == 8 {
        '8'
    } else {
        '9'
    }
}

/// Decimal rendering of a natural number, most significant digit first.
pub open spec fn dec_digits(n: nat) -> Seq<char>
    decreases n,
{
    if n < 10 {
        seq![digit_char(n)]
    } else {
        dec_digits(n / 10) + seq![digit_char(n % 10)]
    }
}

/// Decimal rendering of an integer, with a leading minus sign when negative.
pub open spec fn int_str(n: int) -> Seq<char> {
    if n < 0 {
        seq!['-'] + dec_digits((-n) as nat)
    } else {
        dec_digits(n as nat)
    }
}

fn push_digit(s: &mut String, d: u64)
    requires
        d < 10,
    ensures
        final(s)@ == old(s)@ + seq![digit_char(d as nat)],
{
    proof {
        reveal_strlit("0");
        reveal_strlit("1");
        reveal_strlit("2");
        reveal_strlit("3");
        reveal_strlit("4");
        reveal_strlit("5");
        reveal_strlit("6");
        reveal_strlit("7");
        reveal_strlit("8");
        reveal_strlit("9");
    }
    if d == 0 {
        s.append("0");
    } else if d == 1 {
        s.append("1");
    } else if d == 2 {
        s.append("2");
    } else if d == 3 {
        s.append("3");
    } else if d == 4 {
        s.append("4");
    } else if d == 5 {
        s.append("5");
    } else if d == 6 {
        s.append("6");
    } else if d == 7 {
        s.append("7");
    } else if d == 8 {
        s.append("8");
    } else {
        s.append("9");
    }
    assert(final(s)@ =~= old(s)@ + seq![digit_char(d as nat)]);
}

fn push_u64_digits(s: &mut String, n: u64)
    ensures
        final(s)@ == old(s)@ + dec_digits(n as nat),
    decreases n,
{
    if n >= 10 {
        push_u64_digits(s, n / 10);
    }
    push_digit(s, n % 10);
    assert(final(s)@ =~= old(s)@ + dec_digits(n as nat));
}

/// Decimal text of an unsigned integer.
pub fn u64_string(n: u64) -> (r: String)
    ensures
        r@ == dec_digits(n as nat),
{
    let mut s = String::new();
    push_u64_digits(&mut s, n);
    assert(s@ =~= dec_digits(n as nat));
    s
}

/// Decimal text of a signed integer, with a minus sign when negative.
pub fn i64_string(n: i64) -> (r: String)
    ensures
        r@ == int_str(n as int),
{
    if n >= 0 {
        let r = u64_string(n as u64);
        assert(r@ =~= int_str(n as int));
        r
    } else {
        let mut s = String::new();
        proof {
            reveal_strlit("-");
        }
        s.append("-");
        let m: u64 = if n == i64::MIN {
            9223372036854775808u64
        } else {
            (-n) as u64
        };
        assert(m as nat == (-(n as int)) as nat);
        push_u64_digits(&mut s, m);
        assert(s@ =~= int_str(n as int));
        s
    }
}

/// The rendering of an optional exit code, as the error text shows it.
pub open spec fn exit_code_str(c: Option<i32>) -> Seq<char> {
    match c {
        Some(n) => "Some("@ + int_str(n as int) + ")"@,
        None => "None"@,
    }
}

/// What `message` returns for each variant; the two variants that carry an
/// opaque outside error are not pinned down.
pub open spec fn message_pins(e: ClaudeSDKError, out: Seq<char>) -> bool {
    match e {
        ClaudeSDKError::CLIConnection(m) => out == "CLI connection error: "@ + m@,
        ClaudeSDKError::CLINotFound(m) => out == "CLI not found: "@ + m@,
        ClaudeSDKError::Process { message, exit_code, stderr: _ } => out == "Process error (exit code: "@
            + exit_code_str(exit_code) + "): "@ + message@,
        ClaudeSDKError::JSONDecode(_) => out.len() >= "JSON decode error: "@.len(),
        ClaudeSDKError::MessageParse { message, data: _ } => out == "Message parse error: "@
            + message@,
        ClaudeSDKError::IO(_) => out.len() >= "I/O error: "@.len(),
        ClaudeSDKError::ControlProtocol(m) => out == "Control protocol error: "@ + m@,
        ClaudeSDKError::Transport(m) => out == "Transport error: "@ + m@,
        ClaudeSDKError::InvalidConfig(m) => out == "Invalid configuration: "@ + m@,
        ClaudeSDKError::Timeout(m) => out == "Timeout: "@ + m@,
    }
}

/// Relies on the `Display` implementation of `serde_json::Error`.
#[verifier::external_body]
fn json_error_text(e: &serde_json::Error) -> String {
    e.to_string()
}

/// Relies on the `Display` implementation of `std::io::Error`.
#[verifier::external_body]
fn io_error_text(e: &std::io::Error) -> String {
    e.to_string()
}

impl ClaudeSDKError {
    /// The error's display text.
    pub fn message(&self) -> (r: String)
        ensures
            message_pins(*self, r@),
    {
        match self {
            ClaudeSDKError::CLIConnection(m) => {
                let mut s = String::new();
                proof {
                    reveal_strlit("CLI connection error: ");
                }
                s.append("CLI connection error: ");
                s.append(m.as_str());
                assert(s@ =~= "CLI connection error: "@ + m@);
                s
            },
            ClaudeSDKError::CLINotFound(m) => {
                let mut s = String::new();
                proof {
                    reveal_strlit("CLI not found: ");
                }
                s.append("CLI not found: ");
                s.append(m.as_str());
                assert(s@ =~= "CLI not found: "@ + m@);
                s
            },
            ClaudeSDKError::Process { message, exit_code, stderr: _ } => {
                let mut s = String::new();
                proof {
                    reveal_strlit("Process error (exit code: ");
                    reveal_strlit("Some(");
                    reveal_strlit(")");
                    reveal_strlit("None");
                    reveal_strlit("): ");
                }
                s.append("Process error (exit code: ");
                match exit_code {
                    Some(c) => {
                        s.append("Some(");
                        let num = i64_string(*c as i64);
                        s.append(num.as_str());
                        s.append(")");
                    },
                    None => {
                        s.append("None");
                    },
                }
                assert(s@ =~= "Process error (exit code: "@ + exit_code_str(*exit_code));
                s.append("): ");
                s.append(message.as_str());
                assert(s@ =~= "Process error (exit code: "@ + exit_code_str(*exit_code) + "): "@
                    + message@);
                s
            },
            ClaudeSDKError::JSONDecode(e) => {
                let mut s = String::new();
                proof {
                    reveal_strlit("JSON decode error: ");
                }
                s.append("JSON decode error: ");
                s.append(json_error_text(e).as_str());
                s
            },
            ClaudeSDKError::MessageParse { message, data: _ } => {
                let mut s = String::new();
                proof {
                    reveal_strlit("Message parse error: ");
                }
                s.append("Message parse error: ");
                s.append(message.as_str());
                assert(s@ =~= "Message parse error: "@ + message@);
                s
            },
            ClaudeSDKError::IO(e) => {
                let mut s = String::new();
                proof {
                    reveal_strlit("I/O error: ");
                }
                s.append("I/O error: ");
                s.append(io_error_text(e).as_str());
                s
            },
            ClaudeSDKError::ControlProtocol(m) => {
                let mut s = String::new();
                proof {
                    reveal_strlit("Control protocol error: ");
                }
                s.append("Control protocol error: ");
                s.append(m.as_str());
                assert(s@ =~= "Control protocol error: "@ + m@);
                s
            },
            ClaudeSDKError::Transport(m) => {
                let mut s = String::new();
                proof {
                    reveal_strlit("Transport error: ");
                }
                s.append("Transport error: ");
                s.append(m.as_str());
                assert(s@ =~= "Transport error: "@ + m@);
                s
            },
            ClaudeSDKError::InvalidConfig(m) => {
                let mut s = String::new();
                proof {
                    reveal_strlit("Invalid configuration: ");
                }
                s.append("Invalid configuration: ");
                s.append(m.as_str());
                assert(s@ =~= "Invalid configuration: "@ + m@);
                s
            },
            ClaudeSDKError::Timeout(m) => {
                let mut s = String::new();
                proof {
                    reveal_strlit("Timeout: ");
                }
                s.append("Timeout: ");
                s.append(m.as_str());
                assert(s@ =~= "Timeout: "@ + m@);
                s
            },
        }
    }

    /// A CLI-not-found error.
    pub fn cli_not_found(path: &str) -> (r: Self)
        ensures
            r matches ClaudeSDKError::CLINotFound(m) && m@ == path@,
    {
        ClaudeSDKError::CLINotFound(path.to_owned())
    }

    /// A CLI connection error.
    pub fn cli_connection(msg: &str) -> (r: Self)
        ensures
            r matches ClaudeSDKError::CLIConnection(m) && m@ == msg@,
    {
        ClaudeSDKError::CLIConnection(msg.to_owned())
    }

    /// A process error.
    pub fn process(message: &str, exit_code: Option<i32>, stderr: Option<String>) -> (r: Self)
        ensures
            r matches ClaudeSDKError::Process { message: m, exit_code: c, stderr: s } && m@
                == message@ && c == exit_code && s == stderr,
    {
        ClaudeSDKError::Process { message: message.to_owned(), exit_code, stderr }
    }

    /// A message parse error.
    pub fn message_parse(message: &str, data: Option<serde_json::Value>) -> (r: Self)
        ensures
            r matches ClaudeSDKError::MessageParse { message: m, data: d } && m@ == message@ && d
                == data,
    {
        ClaudeSDKError::MessageParse { message: message.to_owned(), data }
    }

    /// A control protocol error.
    pub fn control_protocol(msg: &str) -> (r: Self)
        ensures
            r matches ClaudeSDKError::ControlProtocol(m) && m@ == msg@,
    {
        ClaudeSDKError::ControlProtocol(msg.to_owned())
    }

    /// A transport error.
    pub fn transport(msg: &str) -> (r: Self)
        ensures
            r matches ClaudeSDKError::Transport(m) && m@ == msg@,
    {
        ClaudeSDKError::Transport(msg.to_owned())
    }

    /// An invalid-configuration error.
    pub fn invalid_config(msg: &str) -> (r: Self)
        ensures
            r matches ClaudeSDKError::InvalidConfig(m) && m@ == msg@,
    {
        ClaudeSDKError::InvalidConfig(msg.to_owned())
    }

    /// A timeout error.
    pub fn timeout(msg: &str) -> (r: Self)
        ensures
            r matches ClaudeSDKError::Timeout(m) && m@ == msg@,
    {
        ClaudeSDKError::Timeout(msg.to_owned())
    }
}

impl From<serde_json::Error> for ClaudeSDKError {
    fn from(e: serde_json::Error) -> (r: Self) {
        ClaudeSDKError::JSONDecode(e)
    }
}

impl vstd::std_specs::convert::FromSpecImpl<serde_json::Error> for ClaudeSDKError {
    open spec fn obeys_from_spec() -> bool {
        true
    }

    open spec fn from_spec(e: serde_json::Error) -> Self {
        ClaudeSDKError::JSONDecode(e)
    }
}

impl From<std::io::Error> for ClaudeSDKError {
    fn from(e: std::io::Error) -> (r: Self) {
        ClaudeSDKError::IO(e)
    }
}

impl vstd::std_specs::convert::FromSpecImpl<std::io::Error> for ClaudeSDKError {
    open spec fn obeys_from_spec() -> bool {
        true
    }

    open spec fn from_spec(e: std::io::Error) -> Self {
        ClaudeSDKError::IO(e)
    }
}

} // verus!
