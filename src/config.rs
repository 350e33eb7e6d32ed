use vstd::prelude::*;

verus! {

/// The port the server listens on when none is configured.
pub const DEFAULT_PORT: u16 = 3000;

/// The log filter used when none is configured.
pub const DEFAULT_LOG_FILTER: &'static str = "info";

/// Why the configuration could not be used.
#[derive(Debug, Clone, Copy, PartialEq, Eq, Structural)]
pub enum ConfigError {
    /// The port setting is not a decimal number in `0..=65535`.
    InvalidPort,
}

pub open spec fn is_digit(c: char) -> bool {
    '0' <= c && c <= '9'
}

pub open spec fn digit_value(c: char) -> nat {
    (c as nat - '0' as nat) as nat
}

pub open spec fn all_digits(s: Seq<char>) -> bool {
    forall|i: int| 0 <= i < s.len() ==> #[trigger] is_digit(s[i])
}

/// The number that a string of decimal digits denotes, most significant first.
pub open spec fn decimal_value(s: Seq<char>) -> nat
    decreases s.len(),
{
    if s.len() == 0 {
        0
    } else {
        decimal_value(s.drop_last()) * 10 + digit_value(s.last())
    }
}

/// The digits of an unsigned number: the text without one optional leading `+`.
pub open spec fn unsigned_digits(s: Seq<char>) -> Seq<char> {
    if s.len() > 0 && s[0] == '+' {
        s.drop_first()
    } else {
        s
    }
}

/// The port that a text denotes: an optional `+` followed by at least one decimal
/// digit, with a value that fits in 16 bits. Leading zeros are allowed; any other
/// character, whitespace included, makes the text invalid.
pub open spec fn port_of(s: Seq<char>) -> Option<u16> {
    let d = unsigned_digits(s);
    if d.len() > 0 && all_digits(d) && decimal_value(d) <= u16::MAX {
        Some(decimal_value(d) as u16)
    } else {
        None
    }
}

/// The port setting: the default when the variable is not set, else the value
/// it denotes.
pub open spec fn port_setting_spec(var: Option<Seq<char>>) -> Result<u16, ConfigError> {
    match var {
        None => Ok(DEFAULT_PORT),
        Some(s) => match port_of(s) {
            Some(p) => Ok(p),
            None => Err(ConfigError::InvalidPort),
        },
    }
}

proof fn lemma_decimal_value_grows(s: Seq<char>, k: int)
    requires
        0 <= k <= s.len(),
    ensures
        decimal_value(s.take(k)) <= decimal_value(s),
    decreases s.len(),
{
    if k < s.len() {
        lemma_decimal_value_grows(s.drop_last(), k);
        assert(s.drop_last().take(k) =~= s.take(k));
    } else {
        assert(s.take(k) =~= s);
    }
}

/// Parses a port number written in decimal.
pub fn parse_port(text: &str) -> (r: Result<u16, ConfigError>)
    ensures
        r == (match port_of(text@) {
            Some(p) => Ok::<u16, ConfigError>(p),
            None => Err(ConfigError::InvalidPort),
        }),
{
    let n = text.unicode_len();
    let mut start: usize = 0;
    if n > 0 && text.get_char(0) == '+' {
        start = 1;
    }
    let ghost d = unsigned_digits(text@);
    assert(d =~= text@.subrange(start as int, n as int));
    if start == n {
        return Err(ConfigError::InvalidPort);
    }
    let mut value: u32 = 0;
    let mut i: usize = start;
    while i < n
        invariant
            start <= i <= n,
            n == text@.len(),
            d == text@.subrange(start as int, n as int),
            d == unsigned_digits(text@),
            all_digits(d.take(i - start)),
            value as nat == decimal_value(d.take(i - start)),
            value <= u16::MAX,
        decreases n - i,
    {
        let c = text.get_char(i);
        let ghost k = i - start;
        assert(d.take(k + 1).drop_last() =~= d.take(k));
        assert(d.take(k + 1).last() == c);
        if !('0' <= c && c <= '9') {
            assert(!is_digit(d[k]));
            return Err(ConfigError::InvalidPort);
        }
        value = value * 10 + (c as u32 - '0' as u32);
        assert(all_digits(d.take(k + 1))) by {
            assert forall|j: int| 0 <= j < k + 1 implies #[trigger] is_digit(d.take(k + 1)[j]) by {
                if j < k {
                    assert(d.take(k + 1)[j] == d.take(k)[j]);
                }
            }
        }
        if value > 65535 {
            proof {
                if all_digits(d) {
                    lemma_decimal_value_grows(d, k + 1);
                }
            }
            return Err(ConfigError::InvalidPort);
        }
        i = i + 1;
    }
    assert(d.take(d.len() as int) =~= d);
    Ok(value as u16)
}

/// The listening port: `PORT`'s value when it is set, else the default.
pub fn port_setting(var: Option<&str>) -> (r: Result<u16, ConfigError>)
    ensures
        r == port_setting_spec(
            match var {
                Some(s) => Some(s@),
                None => None,
            },
        ),
{
    match var {
        Some(s) => parse_port(s),
        None => Ok(DEFAULT_PORT),
    }
}

/// The address the server listens on: every interface, on `port`.
#[derive(Debug, Clone, Copy, PartialEq, Eq)]
pub struct ListenAddr {
    pub octets: [u8; 4],
    pub port: u16,
}

/// The address to bind for `port`: `0.0.0.0:port`.
pub fn listen_addr(port: u16) -> (r: ListenAddr)
    ensures
        r.octets@ == seq![0u8, 0u8, 0u8, 0u8],
        r.port == port,
{
    let r = ListenAddr { octets: [0u8, 0u8, 0u8, 0u8], port };
    assert(r.octets@ =~= seq![0u8, 0u8, 0u8, 0u8]);
    r
}

/// The log filter: the configured one when it is set, else the default.
pub fn log_filter(var: Option<String>) -> (r: String)
    ensures
        var matches Some(s) ==> r@ == s@,
        var is None ==> r@ == DEFAULT_LOG_FILTER@,
{
    match var {
        Some(s) => s,
        None => String::from_str(DEFAULT_LOG_FILTER),
    }
}

} // verus!
