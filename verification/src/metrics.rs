//! Outcome counters and their text rendering.  Every terminal outcome of a
//! core operation bumps exactly one counter; the metrics endpoint serves the
//! counters as one `name value` line each.
use vstd::prelude::*;

verus! {

/// Counters never wrap: an increment at the top of the range is absorbed.
pub open spec fn sat_inc(c: u64) -> u64 {
    if c < u64::MAX {
        (c + 1) as u64
    } else {
        c
    }
}

/// Saturating counter increment.
pub fn saturating_inc(c: u64) -> (r: u64)
    ensures
        r == sat_inc(c),
{
    if c < u64::MAX {
        c + 1
    } else {
        c
    }
}

/// The monotonic outcome counters kept over an instance's lifetime.
#[derive(Clone, Copy, Debug, PartialEq, Eq, Structural)]
pub struct Metrics {
    pub login_success_total: u64,
    pub login_failure_total: u64,
    pub secret_fetch_total: u64,
    pub secret_fetch_access_denied_total: u64,
    pub secret_set_total: u64,
    pub secret_set_access_denied_total: u64,
}

impl Metrics {
    /// All counters at zero.
    pub open spec fn spec_zero() -> Metrics {
        Metrics {
            login_success_total: 0,
            login_failure_total: 0,
            secret_fetch_total: 0,
            secret_fetch_access_denied_total: 0,
            secret_set_total: 0,
            secret_set_access_denied_total: 0,
        }
    }

    /// A fresh set of counters.
    pub fn new() -> (m: Metrics)
        ensures
            m == Metrics::spec_zero(),
    {
        Metrics {
            login_success_total: 0,
            login_failure_total: 0,
            secret_fetch_total: 0,
            secret_fetch_access_denied_total: 0,
            secret_set_total: 0,
            secret_set_access_denied_total: 0,
        }
    }

    /// The text encoding served by the metrics endpoint.
    pub open spec fn spec_render(self) -> Seq<char> {
        counter_line("simple_secrets_login_success_total"@, self.login_success_total)
            + counter_line("simple_secrets_login_failure_total"@, self.login_failure_total)
            + counter_line("simple_secrets_secret_fetch_total"@, self.secret_fetch_total)
            + counter_line(
            "simple_secrets_secret_fetch_access_denied_total"@,
            self.secret_fetch_access_denied_total,
        ) + counter_line("simple_secrets_secret_set_total"@, self.secret_set_total)
            + counter_line(
            "simple_secrets_secret_set_access_denied_total"@,
            self.secret_set_access_denied_total,
        )
    }

    /// Renders every counter as a `name value` line.
    pub fn render(&self) -> (r: String)
        ensures
            r@ == self.spec_render(),
    {
        let mut s = String::new();
        push_counter_line(&mut s, "simple_secrets_login_success_total", self.login_success_total);
        push_counter_line(&mut s, "simple_secrets_login_failure_total", self.login_failure_total);
        push_counter_line(&mut s, "simple_secrets_secret_fetch_total", self.secret_fetch_total);
        push_counter_line(
            &mut s,
            "simple_secrets_secret_fetch_access_denied_total",
            self.secret_fetch_access_denied_total,
        );
        push_counter_line(&mut s, "simple_secrets_secret_set_total", self.secret_set_total);
        push_counter_line(
            &mut s,
            "simple_secrets_secret_set_access_denied_total",
            self.secret_set_access_denied_total,
        );
        assert(s@ =~= self.spec_render());
        s
    }
}

/// One line of the text encoding: the counter's name, a space, its decimal
/// value, and a line feed.
pub open spec fn counter_line(name: Seq<char>, v: u64) -> Seq<char> {
    name + seq![' '] + dec_str(v) + seq!['\n']
}

/// The decimal numeral of `d`, for a single digit.
pub open spec fn digit_char(d: u64) -> char {
    if d == 0 {
        '0'
    } else if d == 1 {
        '1'
    } else if d == 2 {
        '2'
    } else if d == 3 {
        '3'
    } else if d == 4 {
        '4'
    } else if d == 5 {
        '5'
    } else if d == 6 {
        '6'
    } else if d == 7 {
        '7'
    } else if d == 8 {
        '8'
    } else {
        '9'
    }
}

/// The decimal numeral of `n`, most significant digit first, without
/// leading zeros (except for `n == 0` itself).
pub open spec fn dec_str(n: u64) -> Seq<char>
    decreases n,
{
    if n < 10 {
        seq![digit_char(n)]
    } else {
        dec_str((n / 10) as u64).push(digit_char(n % 10))
    }
}

/// The numeral of a single decimal digit.
fn digit(d: u64) -> (c: char)
    requires
        d < 10,
    ensures
        c == digit_char(d),
{
    if d == 0 {
        '0'
    } else if d == 1 {
        '1'
    } else if d == 2 {
        '2'
    } else if d == 3 {
        '3'
    } else if d == 4 {
        '4'
    } else if d == 5 {
        '5'
    } else if d == 6 {
        '6'
    } else if d == 7 {
        '7'
    } else if d == 8 {
        '8'
    } else {
        '9'
    }
}

/// Appends the decimal numeral of `n` to `s`.
fn push_decimal(s: &mut String, n: u64)
    ensures
        final(s)@ == old(s)@ + dec_str(n),
    decreases n,
{
    if n < 10 {
        s.push(digit(n));
        assert(old(s)@.push(digit_char(n)) =~= old(s)@ + dec_str(n));
    } else {
        push_decimal(s, n / 10);
        s.push(digit(n % 10));
        assert((old(s)@ + dec_str(n / 10)).push(digit_char(n % 10)) =~= old(s)@ + dec_str(n));
    }
}

/// Appends `counter_line(name, v)` to `s`.
fn push_counter_line(s: &mut String, name: &str, v: u64)
    ensures
        final(s)@ == old(s)@ + counter_line(name@, v),
{
    s.append(name);
    s.push(' ');
    push_decimal(s, v);
    s.push('\n');
    assert((((old(s)@ + name@).push(' ') + dec_str(v)).push('\n')) =~= old(s)@ + counter_line(
        name@,
        v,
    ));
}

} // verus!
