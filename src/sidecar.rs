//! The worker's environment and its startup handshake: the worker announces
//! the port it bound by a line `HONO_PORT:<port>` on its standard output.

use vstd::prelude::*;
use vstd::string::*;

verus! {

/// Prefix of the line by which the worker announces its port.
pub const PORT_MARKER: &'static str = "HONO_PORT:";

/// Environment variable that carries the relay's base URL.
pub const ENV_BRIDGE_URL: &'static str = "BRIDGE_URL";

/// Environment variable that carries the session token.
pub const ENV_BRIDGE_TOKEN: &'static str = "BRIDGE_TOKEN";

/// Environment variable that tells the worker which port to bind.
pub const ENV_WORKER_PORT: &'static str = "WORKER_PORT";

/// Loopback origin of the relay, without its port.
pub const RELAY_ORIGIN: &'static str = "http://127.0.0.1:";

/// What one line of the worker's output says.
#[derive(PartialEq, Eq, Structural, Clone, Copy, Debug)]
pub enum LineVerdict {
    /// The marker, followed by a valid port.
    Port(u16),
    /// The marker, followed by something that is not a port.
    Malformed,
    /// Free-form diagnostic text.
    Other,
}

pub open spec fn is_digit(c: char) -> bool {
    48 <= (c as u32) <= 57
}

pub open spec fn digit_value(c: char) -> nat {
    ((c as u32) - 48) as nat
}

/// The number that a string of decimal digits denotes.
pub open spec fn digits_value(s: Seq<char>) -> nat
    decreases s.len(),
{
    if s.len() == 0 {
        0
    } else {
        digits_value(s.drop_last()) * 10 + digit_value(s.last())
    }
}

/// The digits of an unsigned number's text: one leading `+` is dropped.
pub open spec fn unsigned_digits(s: Seq<char>) -> Seq<char> {
    if s.len() > 0 && s[0] == '+' {
        s.subrange(1, s.len() as int)
    } else {
        s
    }
}

/// The `u16` that `s` denotes as Rust reads an unsigned number: an optional
/// `+`, then one or more decimal digits, of value at most 65535.
pub open spec fn parse_u16_spec(s: Seq<char>) -> Option<u16> {
    let d = unsigned_digits(s);
    if d.len() > 0 && (forall|i: int| 0 <= i < d.len() ==> is_digit(d[i])) && digits_value(d)
        <= 65535 {
        Some(digits_value(d) as u16)
    } else {
        None
    }
}

/// The text after the marker, where `line` starts with it.
pub open spec fn after_marker(line: Seq<char>) -> Option<Seq<char>> {
    let m = PORT_MARKER@;
    if line.len() >= m.len() && line.subrange(0, m.len() as int) == m {
        Some(line.subrange(m.len() as int, line.len() as int))
    } else {
        None
    }
}

/// The text with leading and trailing Unicode white space removed, as `str::trim` gives it.
pub uninterp spec fn trimmed(s: Seq<char>) -> Seq<char>;

/// What a line of the worker's output says.
pub open spec fn line_verdict(line: Seq<char>) -> LineVerdict {
    match after_marker(line) {
        None => LineVerdict::Other,
        Some(rest) => match parse_u16_spec(trimmed(rest)) {
            Some(p) => LineVerdict::Port(p),
            None => LineVerdict::Malformed,
        },
    }
}

/// Relies on str::trim: removes leading and trailing white space; the result
/// depends on the text alone.
#[verifier::external_body]
fn trim_text(s: &str) -> (r: &str)
    ensures
        r@ == trimmed(s@),
{
    s.trim()
}

/// Relies on String::push: appends one character.
#[verifier::external_body]
fn push_char(s: &mut String, c: char)
    ensures
        final(s)@ == old(s)@.push(c),
{
    s.push(c)
}

/// Reads a `u16` written in decimal, with an optional leading `+`.
pub fn parse_port(s: &str) -> (r: Option<u16>)
    ensures
        r == parse_u16_spec(s@),
{
    let n = s.unicode_len();
    let mut i: usize = 0;
    if n > 0 && s.get_char(0) == '+' {
        i = 1;
    }
    let start = i;
    let ghost d = unsigned_digits(s@);
    assert(d =~= s@.subrange(start as int, n as int));
    if start == n {
        return None;
    }
    let mut acc: u32 = 0;
    let mut too_big = false;
    while i < n
        invariant
            start <= i <= n,
            n == s@.len(),
            start < n,
            d == s@.subrange(start as int, n as int),
            d == unsigned_digits(s@),
            forall|j: int| 0 <= j < i - start ==> is_digit(d[j]),
            too_big ==> digits_value(d.subrange(0, i - start)) > 65535,
            !too_big ==> acc as nat == digits_value(d.subrange(0, i - start)) && acc <= 65535,
        decreases n - i,
    {
        let c = s.get_char(i);
        if !(48 <= (c as u32) && (c as u32) <= 57) {
            assert(d[i - start] == c);
            assert(!is_digit(d[i - start]));
            return None;
        }
        let ghost k = (i - start) as int;
        assert(d.subrange(0, k + 1).drop_last() =~= d.subrange(0, k));
        assert(d.subrange(0, k + 1).last() == c);
        if !too_big {
            acc = acc * 10 + (c as u32 - 48);
            if acc > 65535 {
                too_big = true;
            }
        }
        i = i + 1;
    }
    assert(d.subrange(0, n - start) =~= d);
    if too_big {
        None
    } else {
        Some(acc as u16)
    }
}

/// Classifies one line of the worker's output.
pub fn scan_line(line: &str) -> (r: LineVerdict)
    ensures
        r == line_verdict(line@),
{
    let n = line.unicode_len();
    let m = PORT_MARKER.unicode_len();
    if n < m {
        return LineVerdict::Other;
    }
    let mut i: usize = 0;
    while i < m
        invariant
            i <= m <= n,
            n == line@.len(),
            m == PORT_MARKER@.len(),
            forall|j: int| 0 <= j < i ==> line@[j] == PORT_MARKER@[j],
        decreases m - i,
    {
        if line.get_char(i) != PORT_MARKER.get_char(i) {
            assert(line@.subrange(0, m as int)[i as int] != PORT_MARKER@[i as int]);
            return LineVerdict::Other;
        }
        i = i + 1;
    }
    assert(line@.subrange(0, m as int) =~= PORT_MARKER@);
    let rest = line.substring_char(m, n);
    match parse_port(trim_text(rest)) {
        Some(p) => LineVerdict::Port(p),
        None => LineVerdict::Malformed,
    }
}

pub open spec fn digit_char(d: nat) -> char
    recommends
        d < 10,
{
    ((48 + d) as u8) as char
}

/// The decimal text of `n`, without leading zeros.
pub open spec fn decimal(n: nat) -> Seq<char>
    decreases n,
{
    if n < 10 {
        seq![digit_char(n)]
    } else {
        decimal(n / 10).push(digit_char(n % 10))
    }
}

/// Appends the decimal text of `n`.
pub fn push_decimal(s: &mut String, n: u16)
    ensures
        final(s)@ == old(s)@ + decimal(n as nat),
    decreases n,
{
    if n >= 10 {
        push_decimal(s, n / 10);
    }
    let c = ((48 + n % 10) as u8) as char;
    push_char(s, c);
    assert(decimal(n as nat) == if n < 10 {
        seq![digit_char(n as nat)]
    } else {
        decimal((n / 10) as nat).push(digit_char((n % 10) as nat))
    });
    assert(final(s)@ =~= old(s)@ + decimal(n as nat));
}

/// The relay's base URL for a relay bound to `port`.
pub open spec fn relay_url(port: u16) -> Seq<char> {
    RELAY_ORIGIN@ + decimal(port as nat)
}

/// The environment handed to the worker: the relay's URL, the session token,
/// and port `0`, which asks the worker to pick any free port.
pub open spec fn worker_env_spec(bridge_port: u16, token: Seq<char>) -> Seq<(Seq<char>, Seq<char>)> {
    seq![
        (ENV_BRIDGE_URL@, relay_url(bridge_port)),
        (ENV_BRIDGE_TOKEN@, token),
        (ENV_WORKER_PORT@, seq!['0']),
    ]
}

/// Builds the environment variables for the worker process.
pub fn worker_env(bridge_port: u16, bridge_token: &str) -> (r: Vec<(String, String)>)
    ensures
        r@.len() == 3,
        forall|i: int|
            0 <= i < 3 ==> (#[trigger] r@[i]).0@ == worker_env_spec(bridge_port, bridge_token@)[i].0
                && r@[i].1@ == worker_env_spec(bridge_port, bridge_token@)[i].1,
{
    let mut url = String::from_str(RELAY_ORIGIN);
    push_decimal(&mut url, bridge_port);
    let mut zero = String::new();
    push_char(&mut zero, '0');
    let mut r: Vec<(String, String)> = Vec::new();
    r.push((String::from_str(ENV_BRIDGE_URL), url));
    r.push((String::from_str(ENV_BRIDGE_TOKEN), String::from_str(bridge_token)));
    r.push((String::from_str(ENV_WORKER_PORT), zero));
    assert(seq![] + seq!['0'] =~= seq!['0']);
    r
}

} // verus!
