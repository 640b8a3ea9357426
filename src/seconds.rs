//! A count of seconds read from text, bounded above.

use vstd::prelude::*;

verus! {

/// The largest count of seconds that `Seconds` holds.
pub const MAX_SECONDS: u64 = 500;

/// Whether `c` is an ASCII decimal digit.
pub open spec fn is_digit(c: char) -> bool {
    '0' <= c && c <= '9'
}

/// The value of a string of decimal digits, most significant first.
pub open spec fn digits_value(d: Seq<char>) -> nat
    decreases d.len(),
{
    if d.len() == 0 {
        0
    } else {
        digits_value(d.drop_last()) * 10 + (d.last() as u32 - '0' as u32) as nat
    }
}

/// The `u64` that a decimal literal denotes: an optional `+`, then one or more
/// digits whose value fits in 64 bits; `None` for any other text.
pub open spec fn u64_literal(s: Seq<char>) -> Option<u64> {
    let d = if s.len() > 0 && s[0] == '+' {
        s.skip(1)
    } else {
        s
    };
    if d.len() > 0 && (forall|i: int| 0 <= i < d.len() ==> is_digit(#[trigger] d[i]))
        && digits_value(d) <= u64::MAX {
        Some(digits_value(d) as u64)
    } else {
        None
    }
}

/// Relies on `<u64 as FromStr>::from_str`: it accepts an optional `+` and then
/// ASCII digits only, and fails on empty text and on a value past `u64::MAX`.
#[verifier::external_body]
fn parse_u64(s: &str) -> (r: Option<u64>)
    ensures
        r == u64_literal(s@),
{
    s.parse::<u64>().ok()
}

/// A number of seconds, at most `MAX_SECONDS`.
#[derive(Clone, Copy, Debug, PartialEq, Eq)]
pub struct Seconds(u64);

impl View for Seconds {
    type V = u64;

    closed spec fn view(&self) -> u64 {
        self.0
    }
}

impl Seconds {
    /// No count is over `MAX_SECONDS`.
    #[verifier::type_invariant]
    closed spec fn within_bound(&self) -> bool {
        self.0 <= MAX_SECONDS
    }

    /// Reads a decimal count of seconds; text that is no `u64` literal, and a
    /// count over `MAX_SECONDS`, are refused.
    pub fn parse(src: &str) -> (r: Result<Seconds, ()>)
        ensures
            match u64_literal(src@) {
                Some(n) => if n <= MAX_SECONDS {
                    r matches Ok(s) && s@ == n
                } else {
                    r is Err
                },
                None => r is Err,
            },
    {
        match parse_u64(src) {
            Some(n) => if n <= MAX_SECONDS {
                Ok(Seconds(n))
            } else {
                Err(())
            },
            None => Err(()),
        }
    }

    /// The count of seconds.
    pub fn get(&self) -> (r: u64)
        ensures
            r == self@,
            r <= MAX_SECONDS,
    {
        proof {
            use_type_invariant(self);
        }
        self.0
    }
}

impl std::str::FromStr for Seconds {
    type Err = ();

    fn from_str(src: &str) -> Result<Seconds, ()> {
        Seconds::parse(src)
    }
}

} // verus!
