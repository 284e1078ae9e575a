//! Run configuration: the port argument's grammar and the decision between
//! server and client mode.
//!
//! Argument collection itself is the binary's concern; this module holds
//! the rules — what counts as a valid port, which mode a flag combination
//! selects, and which configuration errors are fatal before any network
//! activity.

use vstd::prelude::*;
use vstd::string::StrSliceExecFns;

verus! {

/// The default port when none is given.
pub const DEFAULT_PORT: u16 = 55455;

/// Every character of `s` is a decimal digit.
pub open spec fn all_digits(s: Seq<char>) -> bool {
    forall|i: int| 0 <= i < s.len() ==> 48 <= #[trigger] s[i] as int <= 57
}

/// The number the digit string `s` denotes, most significant digit first.
pub open spec fn digits_value(s: Seq<char>) -> nat
    decreases s.len(),
{
    if s.len() == 0 {
        0
    } else {
        (digits_value(s.drop_last()) * 10 + (s.last() as int - 48)) as nat
    }
}

/// The digit part of a port argument: one optional leading plus sign is
/// allowed, as the standard integer grammar has it.
pub open spec fn port_digits(s: Seq<char>) -> Seq<char> {
    if s.len() > 0 && s[0] == '+' {
        s.skip(1)
    } else {
        s
    }
}

/// What parsing a port argument yields: the denoted number if the text is
/// digits after an optional plus sign and the number is between 1 and
/// 65535; nothing otherwise.
pub open spec fn parse_port_spec(s: Seq<char>) -> Option<u16> {
    let ds = port_digits(s);
    if ds.len() > 0 && all_digits(ds) && 1 <= digits_value(ds) <= 65535 {
        Some(digits_value(ds) as u16)
    } else {
        None
    }
}

/// Parses a port argument: `Some` exactly for digit strings (after an
/// optional plus sign) denoting 1 through 65535.
pub fn parse_port(s: &str) -> (r: Option<u16>)
    ensures
        r == parse_port_spec(s@),
{
    let len: usize = s.unicode_len();
    let start: usize = if len > 0 && s.get_char(0) == '+' {
        1
    } else {
        0
    };
    proof {
        assert(port_digits(s@) =~= s@.subrange(start as int, len as int));
    }
    if start >= len {
        return None;
    }
    let mut i: usize = start;
    let mut acc: u32 = 0;
    while i < len
        invariant
            start <= i <= len,
            len == s@.len(),
            port_digits(s@) =~= s@.subrange(start as int, len as int),
            all_digits(s@.subrange(start as int, i as int)),
            if digits_value(s@.subrange(start as int, i as int)) <= 65535 {
                acc == digits_value(s@.subrange(start as int, i as int))
            } else {
                acc == 65536
            },
        decreases len - i,
    {
        let c = s.get_char(i);
        let d: u32 = if c == '0' { 0 } else if c == '1' { 1 } else if c == '2' { 2 }
        else if c == '3' { 3 } else if c == '4' { 4 } else if c == '5' { 5 }
        else if c == '6' { 6 } else if c == '7' { 7 } else if c == '8' { 8 }
        else if c == '9' { 9 } else {
            proof {
                assert(port_digits(s@)[i - start] == s@[i as int]);
                assert(!all_digits(port_digits(s@)));
            }
            return None;
        };
        proof {
            assert(s@.subrange(start as int, i + 1).drop_last() =~= s@.subrange(
                start as int,
                i as int,
            ));
            assert(s@.subrange(start as int, i + 1).last() == s@[i as int]);
        }
        acc = if acc * 10 + d > 65535 {
            65536
        } else {
            acc * 10 + d
        };
        i = i + 1;
    }
    proof {
        assert(s@.subrange(start as int, i as int) =~= port_digits(s@));
    }
    if acc == 0 || acc > 65535 {
        None
    } else {
        Some(acc as u16)
    }
}

/// What one process invocation does: serve (once or in a loop) or connect
/// to the given address.
#[derive(Debug, PartialEq, Eq)]
pub enum RunMode {
    /// Accept connections and benchmark each; with `once`, stop after one.
    Server { once: bool },
    /// Connect to this address and run the benchmark as the initiator.
    Client { addr: String },
}

/// A fatal configuration error, reported before any network activity.
#[derive(Clone, Copy, Debug, PartialEq, Eq, Structural)]
pub enum ConfigError {
    /// The port argument is not a number between 1 and 65535.
    BadPort,
    /// Client mode without a server address to connect to.
    MissingAddr,
}

impl ConfigError {
    /// The message reported for this configuration error.
    pub fn message(&self) -> (s: &'static str)
        ensures
            *self is BadPort ==> s@ == "Port argument must be a number between 1 and 65535"@,
            *self is MissingAddr ==> s@
                == "Need a server to connect to when running in client mode, see --help"@,
    {
        match self {
            ConfigError::BadPort => "Port argument must be a number between 1 and 65535",
            ConfigError::MissingAddr => "Need a server to connect to when running in client mode, see --help",
        }
    }
}

/// A validated run configuration.
#[derive(Debug, PartialEq, Eq)]
pub struct RunPlan {
    /// Server or client, with its mode-specific data.
    pub mode: RunMode,
    /// The TCP port to bind or connect to.
    pub port: u16,
}

/// Decides what an invocation does. The port argument, when present, must
/// denote 1 through 65535; either server flag selects server mode, the
/// one-shot flag making it stop after one connection; otherwise client mode
/// needs the server address.
pub fn plan_run(server_mode: bool, one_shot: bool, addr: Option<String>, port_text: Option<String>)
    -> (r: Result<RunPlan, ConfigError>)
    ensures
        ({
            let pspec = match port_text {
                Some(t) => parse_port_spec(t@),
                None => Some(DEFAULT_PORT),
            };
            match pspec {
                None => r matches Err(e) && e is BadPort,
                Some(p) => if server_mode || one_shot {
                    &&& r matches Ok(plan)
                    &&& plan.port == p
                    &&& plan.mode matches RunMode::Server { once }
                    &&& once == one_shot
                } else {
                    match addr {
                        Some(a) => {
                            &&& r matches Ok(plan)
                            &&& plan.port == p
                            &&& plan.mode matches RunMode::Client { addr: pa }
                            &&& pa@ == a@
                        },
                        None => r matches Err(e) && e is MissingAddr,
                    }
                },
            }
        }),
{
    let port: u16 = match port_text {
        None => DEFAULT_PORT,
        Some(t) => match parse_port(t.as_str()) {
            Some(p) => p,
            None => {
                return Err(ConfigError::BadPort);
            },
        },
    };
    if server_mode || one_shot {
        Ok(RunPlan { mode: RunMode::Server { once: one_shot }, port: port })
    } else {
        match addr {
            Some(a) => Ok(RunPlan { mode: RunMode::Client { addr: a }, port: port }),
            None => Err(ConfigError::MissingAddr),
        }
    }
}

} // verus!
