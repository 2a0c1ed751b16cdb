use vstd::prelude::*;
use vstd::string::{StrSliceExecFns, StringExecFns};

verus! {

/// Startup parameters, built once and then only read.
pub struct Config {
    /// Base that `token + ".jpg"` is appended to, to reach the origin.
    pub origin_base_url: String,
    /// Directory that holds the local images.
    pub local_image_root: String,
    /// Port that the gateway binds.
    pub bind_port_base: u16,
    /// Number of workers; 0 leaves the choice to the HTTP framework.
    pub worker_count: usize,
}

/// Origin base used when none is configured.
pub open spec fn default_origin_url() -> Seq<char> {
    "http://localhost:8080/"@
}

/// Directory of the local images, relative to where the gateway runs.
pub open spec fn default_image_root() -> Seq<char> {
    "../../../images"@
}

/// Port used when none is configured or the setting does not parse.
pub const DEFAULT_PORT: u16 = 3001;

/// Worker count used when none is configured or the setting does not parse.
pub const DEFAULT_WORKERS: usize = 0;

/// A decimal digit.
pub open spec fn is_digit(c: char) -> bool {
    48 <= (c as u32) && (c as u32) <= 57
}

/// The value that a sequence of decimal digits denotes.
pub open spec fn digits_value(s: Seq<char>) -> nat
    decreases s.len(),
{
    if s.len() == 0 {
        0
    } else {
        digits_value(s.drop_last()) * 10 + ((s.last() as u32) - 48) as nat
    }
}

/// The digits of an unsigned number's text: a leading `+` is allowed.
pub open spec fn unsigned_digits(s: Seq<char>) -> Seq<char> {
    if s.len() > 0 && s[0] == '+' {
        s.drop_first()
    } else {
        s
    }
}

/// The number that `s` denotes in decimal, if it is one no larger than `max`:
/// an optional `+`, then one or more digits, and nothing else.
pub open spec fn parse_unsigned(s: Seq<char>, max: nat) -> Option<nat> {
    let d = unsigned_digits(s);
    if d.len() > 0 && (forall|i: int| 0 <= i < d.len() ==> is_digit(#[trigger] d[i]))
        && digits_value(d) <= max {
        Some(digits_value(d))
    } else {
        None
    }
}

/// A numeric setting: its parsed value, or `default` when it is absent or
/// does not parse.
pub open spec fn numeric_setting(v: Option<Seq<char>>, max: nat, default: nat) -> nat {
    match v {
        Some(s) => match parse_unsigned(s, max) {
            Some(n) => n,
            None => default,
        },
        None => default,
    }
}

/// The text of an optional string.
pub open spec fn opt_text(v: Option<String>) -> Option<Seq<char>> {
    match v {
        Some(s) => Some(s@),
        None => None,
    }
}

proof fn lemma_digits_value_prefix(d: Seq<char>, k: int)
    requires
        0 <= k <= d.len(),
        forall|i: int| 0 <= i < d.len() ==> is_digit(#[trigger] d[i]),
    ensures
        digits_value(d.subrange(0, k)) <= digits_value(d),
    decreases d.len(),
{
    if k < d.len() {
        let p = d.drop_last();
        assert(p.subrange(0, k) =~= d.subrange(0, k));
        assert forall|i: int| 0 <= i < p.len() implies is_digit(#[trigger] p[i]) by {
            assert(p[i] == d[i]);
        }
        lemma_digits_value_prefix(p, k);
    } else {
        assert(d.subrange(0, k) =~= d);
    }
}

/// Parses the decimal text of an unsigned number no larger than `max`, as
/// std's integer parsing does: an optional `+`, then digits only.
pub fn parse_unsigned_text(s: &str, max: usize) -> (r: Option<usize>)
    ensures
        match parse_unsigned(s@, max as nat) {
            Some(n) => r == Some(n as usize),
            None => r is None,
        },
{
    let n = s.unicode_len();
    let mut start: usize = 0;
    if n > 0 && s.get_char(0) == '+' {
        start = 1;
    }
    let ghost d = unsigned_digits(s@);
    assert(d =~= s@.subrange(start as int, n as int));
    if start == n {
        return None;
    }
    let mut value: usize = 0;
    let mut i: usize = start;
    while i < n
        invariant
            start <= i <= n,
            n == s@.len(),
            d == unsigned_digits(s@),
            d =~= s@.subrange(start as int, n as int),
            value <= max,
            value as nat == digits_value(d.subrange(0, i - start)),
            forall|j: int| 0 <= j < i - start ==> is_digit(#[trigger] d[j]),
        decreases n - i,
    {
        let c = s.get_char(i);
        let code = c as u32;
        let ghost k = i - start;
        if code < 48 || code > 57 {
            assert(!is_digit(d[k]));
            return None;
        }
        let digit = (code - 48) as usize;
        assert(d.subrange(0, k + 1).drop_last() =~= d.subrange(0, k));
        if digit > max || value > (max - digit) / 10 {
            assert(value * 10 + digit > max) by (nonlinear_arith)
                requires
                    digit > max || value > (max - digit) / 10,
                    digit <= max ==> (max - digit) / 10 * 10 >= max - digit - 9,
            ;
            proof {
                if forall|j: int| 0 <= j < d.len() ==> is_digit(#[trigger] d[j]) {
                    lemma_digits_value_prefix(d, k + 1);
                }
            }
            return None;
        }
        assert(value * 10 + digit <= max) by (nonlinear_arith)
            requires
                value <= (max - digit) / 10,
                digit <= max,
        ;
        value = value * 10 + digit;
        i = i + 1;
    }
    assert(d.subrange(0, n - start) =~= d);
    Some(value)
}

impl Config {
    /// Builds the configuration from the raw settings, each absent when it
    /// was not given. A numeric setting that does not parse takes its default.
    pub fn from_settings(
        origin_base_url: Option<String>,
        start_port: Option<String>,
        worker_count: Option<String>,
    ) -> (r: Config)
        ensures
            r.origin_base_url@ == (match origin_base_url {
                Some(s) => s@,
                None => default_origin_url(),
            }),
            r.local_image_root@ == default_image_root(),
            r.bind_port_base as nat == numeric_setting(
                opt_text(start_port),
                u16::MAX as nat,
                DEFAULT_PORT as nat,
            ),
            r.worker_count as nat == numeric_setting(
                opt_text(worker_count),
                usize::MAX as nat,
                DEFAULT_WORKERS as nat,
            ),
    {
        let origin = match origin_base_url {
            Some(s) => s,
            None => String::from_str("http://localhost:8080/"),
        };
        let port = match start_port {
            Some(s) => match parse_unsigned_text(s.as_str(), u16::MAX as usize) {
                Some(p) => p as u16,
                None => DEFAULT_PORT,
            },
            None => DEFAULT_PORT,
        };
        let workers = match worker_count {
            Some(s) => match parse_unsigned_text(s.as_str(), usize::MAX) {
                Some(w) => w,
                None => DEFAULT_WORKERS,
            },
            None => DEFAULT_WORKERS,
        };
        Config {
            origin_base_url: origin,
            local_image_root: String::from_str("../../../images"),
            bind_port_base: port,
            worker_count: workers,
        }
    }

    /// The worker count to ask the HTTP framework for; `None` leaves it to the
    /// framework's default.
    pub fn worker_override(&self) -> (r: Option<usize>)
        ensures
            r == (if self.worker_count == 0 {
                None
            } else {
                Some(self.worker_count)
            }),
    {
        if self.worker_count == 0 {
            None
        } else {
            Some(self.worker_count)
        }
    }
}

} // verus!
