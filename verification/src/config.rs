//! The resolved configuration the server starts from.
//!
//! Command-line handling itself is a thin collaborator outside the core;
//! it hands over raw optional strings, and this module computes from them
//! what the core needs: a worker count, a listen address, and a log
//! verbosity. The worker-count argument is a line of decimal digits,
//! parsed here with an exact account of overflow.

use vstd::prelude::*;

verus! {

/// How much the surrounding process should log.
#[derive(Clone, Copy, Debug, PartialEq, Eq, Structural)]
pub enum LogLevel {
    /// Failures only.
    Error,
    /// The ordinary verbosity.
    Info,
    /// Raised verbosity, as asked for on the command line.
    Debug,
}

/// What the server starts from: everything the core needs from the
/// outside world, as plain values.
pub struct Config {
    /// How many worker threads the pool holds; at least one.
    pub threads: usize,
    /// The version string shown at startup.
    pub version: String,
    /// The address to bind, as `host:port`.
    pub iface: String,
    /// How much the surrounding process should log.
    pub log_level: LogLevel,
    /// Stop after this many accepted connections; for deterministic
    /// test harnesses only.
    pub exit_after: Option<usize>,
}

/// Whether `c` is a decimal digit.
pub open spec fn is_digit(c: char) -> bool {
    48 <= (c as u32) && (c as u32) <= 57
}

/// The numeric value of the digit `c`.
pub open spec fn digit_value(c: char) -> int {
    (c as u32) - 48
}

/// Whether every character of `s` is a decimal digit.
pub open spec fn all_digits(s: Seq<char>) -> bool {
    forall|i: int| 0 <= i < s.len() ==> is_digit(#[trigger] s[i])
}

/// The number a line of decimal digits denotes, most significant first.
pub open spec fn dec_value(s: Seq<char>) -> int
    decreases s.len(),
{
    if s.len() == 0 {
        0
    } else {
        dec_value(s.drop_last()) * 10 + digit_value(s.last())
    }
}

proof fn lemma_dec_value_nonneg(s: Seq<char>)
    requires
        all_digits(s),
    ensures
        dec_value(s) >= 0,
    decreases s.len(),
{
    if s.len() > 0 {
        assert(all_digits(s.drop_last()));
        lemma_dec_value_nonneg(s.drop_last());
    }
}

proof fn lemma_dec_value_prefix(s: Seq<char>, i: int)
    requires
        0 <= i <= s.len(),
        all_digits(s),
    ensures
        dec_value(s.subrange(0, i)) <= dec_value(s),
    decreases s.len() - i,
{
    if i < s.len() {
        assert(s.subrange(0, i + 1).drop_last() =~= s.subrange(0, i));
        assert(s.subrange(0, i + 1).last() == s[i]);
        assert(all_digits(s.subrange(0, i)));
        lemma_dec_value_nonneg(s.subrange(0, i));
        lemma_dec_value_prefix(s, i + 1);
    } else {
        assert(s.subrange(0, i) =~= s);
    }
}

/// Parse a line of decimal digits as a number. Fails exactly on an empty
/// line, on any character that is not a digit, and on a value that does
/// not fit the machine's word.
pub fn parse_usize(s: &str) -> (r: Option<usize>)
    ensures
        match r {
            Some(v) => s@.len() > 0 && all_digits(s@) && v == dec_value(s@),
            None => !(s@.len() > 0 && all_digits(s@) && dec_value(s@) <= usize::MAX),
        },
{
    let n = s.unicode_len();
    if n == 0 {
        return None;
    }
    let mut acc: usize = 0;
    let mut i: usize = 0;
    proof {
        assert(s@.subrange(0, 0) =~= Seq::<char>::empty());
    }
    while i < n
        invariant
            i <= n,
            n == s@.len(),
            all_digits(s@.subrange(0, i as int)),
            acc == dec_value(s@.subrange(0, i as int)),
        decreases n - i,
    {
        let c = s.get_char(i);
        let u = c as u32;
        if u < 48 || u > 57 {
            return None;
        }
        let d = (u - 48) as usize;
        proof {
            assert(s@.subrange(0, i + 1).drop_last() =~= s@.subrange(0, i as int));
            assert(s@.subrange(0, i + 1).last() == s@[i as int]);
        }
        if acc > (usize::MAX - d) / 10 {
            proof {
                assert(10 * ((usize::MAX - d) / 10) + d <= usize::MAX) by (nonlinear_arith);
                if all_digits(s@) {
                    lemma_dec_value_prefix(s@, i + 1);
                }
            }
            return None;
        }
        proof {
            assert(acc * 10 + d <= usize::MAX) by (nonlinear_arith)
                requires
                    acc <= (usize::MAX - d) / 10,
                    d <= 9,
            ;
        }
        acc = acc * 10 + d;
        i = i + 1;
    }
    proof {
        assert(s@.subrange(0, n as int) =~= s@);
    }
    Some(acc)
}

/// Resolve the raw command-line values into a configuration: the worker
/// count defaults to 4, the listen address to `127.0.0.1:7001`, and the
/// verbosity flag raises the log level from `Info` to `Debug`. Fails
/// exactly when a worker count was given and is not a number that fits.
pub fn resolve_config(
    threads_arg: Option<&str>,
    iface_arg: Option<&str>,
    verbose: bool,
    version: &str,
) -> (r: Option<Config>)
    ensures
        match r {
            Some(c) => {
                &&& match threads_arg {
                    None => c.threads == 4,
                    Some(t) => t@.len() > 0 && all_digits(t@) && c.threads == dec_value(t@),
                }
                &&& match iface_arg {
                    None => c.iface@ == "127.0.0.1:7001"@,
                    Some(a) => c.iface@ == a@,
                }
                &&& c.log_level == (if verbose {
                    LogLevel::Debug
                } else {
                    LogLevel::Info
                })
                &&& c.version@ == version@
                &&& c.exit_after is None
            },
            None => match threads_arg {
                None => false,
                Some(t) => !(t@.len() > 0 && all_digits(t@) && dec_value(t@) <= usize::MAX),
            },
        },
{
    let threads = match threads_arg {
        None => 4,
        Some(t) => {
            match parse_usize(t) {
                Some(v) => v,
                None => {
                    return None;
                },
            }
        },
    };
    let iface = match iface_arg {
        None => String::from_str("127.0.0.1:7001"),
        Some(a) => String::from_str(a),
    };
    let log_level = if verbose {
        LogLevel::Debug
    } else {
        LogLevel::Info
    };
    Some(
        Config {
            threads,
            version: String::from_str(version),
            iface,
            log_level,
            exit_after: None,
        },
    )
}

} // verus!
