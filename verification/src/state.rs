//! The configuration that every request handler shares: built once at
//! startup from the values found in the environment, and read-only after.

use vstd::prelude::*;
use vstd::string::is_ascii_spec_bytes;
use vstd::utf8::is_ascii_chars;

verus! {

/// The environment label used where none is configured.
pub open spec fn default_env() -> Seq<char> {
    "development"@
}

/// The signing secret used where none is configured. It is public knowledge:
/// a deployment that runs on it signs tokens that anyone can forge.
pub open spec fn default_jwt_secret() -> Seq<char> {
    "default-secret-key-change-in-production"@
}

/// The port that the service listens on where none is configured.
pub const DEFAULT_PORT: u16 = 3000;

/// Why the configuration could not be built.
#[derive(Clone, Copy, Debug, PartialEq, Eq, Structural)]
pub enum ConfigurationError {
    /// The port is configured but is not a decimal number below 65536.
    InvalidPort,
}

/// The process-wide configuration.
#[derive(Debug)]
pub struct AppState {
    /// The name of the environment, such as `development` or `production`.
    pub env: String,
    /// The secret that tokens are signed with.
    pub jwt_secret: String,
}

/// The mathematical value of an `AppState`.
pub struct AppStateView {
    pub env: Seq<char>,
    pub jwt_secret: Seq<char>,
}

impl View for AppState {
    type V = AppStateView;

    open spec fn view(&self) -> AppStateView {
        AppStateView { env: self.env@, jwt_secret: self.jwt_secret@ }
    }
}

impl Clone for AppState {
    /// A copy for another handler: it holds the same label and secret.
    fn clone(&self) -> (r: Self)
        ensures
            r@ == self@,
    {
        AppState { env: self.env.clone(), jwt_secret: self.jwt_secret.clone() }
    }
}

impl AppState {
    /// The configuration for the values found in the environment: each value
    /// that is there is taken as it is, and each that is missing is replaced
    /// by its default.
    pub open spec fn configured(
        env: Option<Seq<char>>,
        jwt_secret: Option<Seq<char>>,
    ) -> AppStateView {
        AppStateView {
            env: match env {
                Some(name) => name,
                None => default_env(),
            },
            jwt_secret: match jwt_secret {
                Some(secret) => secret,
                None => default_jwt_secret(),
            },
        }
    }

    /// Builds the configuration from the environment's label and signing
    /// secret, each `None` where the environment does not define it.
    ///
    /// Neither value has a format to break, so this always succeeds.
    pub fn new(env: Option<String>, jwt_secret: Option<String>) -> (r: Result<
        AppState,
        ConfigurationError,
    >)
        ensures
            r matches Ok(state) && state@ == AppState::configured(
                match env {
                    Some(name) => Some(name@),
                    None => None,
                },
                match jwt_secret {
                    Some(secret) => Some(secret@),
                    None => None,
                },
            ),
    {
        let env = match env {
            Some(name) => name,
            None => String::from_str("development"),
        };
        let jwt_secret = match jwt_secret {
            Some(secret) => secret,
            None => String::from_str("default-secret-key-change-in-production"),
        };
        Ok(AppState { env, jwt_secret })
    }

    /// Whether a signing secret is set at all. This is what a status page may
    /// show of the secret: never the secret itself.
    pub fn jwt_secret_set(&self) -> (r: bool)
        ensures
            r == (self.jwt_secret@.len() > 0),
    {
        !self.jwt_secret.as_str().is_empty()
    }
}

/// The ASCII code of `+`.
const ASCII_PLUS: u8 = 43;

/// The ASCII code of `0`.
const ASCII_ZERO: u8 = 48;

/// The ASCII code of `9`.
const ASCII_NINE: u8 = 57;

/// Whether a character is one of the decimal digits `0` to `9`.
pub open spec fn is_digit(c: char) -> bool {
    '0' <= c <= '9'
}

/// Whether every character is a decimal digit.
pub open spec fn all_digits(text: Seq<char>) -> bool {
    forall|i: int| 0 <= i < text.len() ==> is_digit(#[trigger] text[i])
}

/// The number that a run of decimal digits writes.
pub open spec fn decimal_value(digits: Seq<char>) -> int
    decreases digits.len(),
{
    if digits.len() == 0 {
        0
    } else {
        decimal_value(digits.drop_last()) * 10 + (digits.last() as u32 - '0' as u32)
    }
}

/// The digits of a number's text: the text itself, or what follows one
/// leading `+`.
pub open spec fn unsigned_digits(text: Seq<char>) -> Seq<char> {
    if text.len() > 0 && text[0] == '+' {
        text.subrange(1, text.len() as int)
    } else {
        text
    }
}

/// The port that a text names: an optional `+`, then one or more decimal
/// digits and nothing else, for a number below 65536.
pub open spec fn port_in(text: Seq<char>) -> Option<u16> {
    let digits = unsigned_digits(text);
    if digits.len() > 0 && all_digits(digits) && decimal_value(digits) <= u16::MAX {
        Some(decimal_value(digits) as u16)
    } else {
        None
    }
}

/// A run of digits writes a number at least as large as any of its prefixes.
proof fn lemma_prefix_value(digits: Seq<char>, k: int)
    requires
        all_digits(digits),
        0 <= k <= digits.len(),
    ensures
        0 <= decimal_value(digits.subrange(0, k)) <= decimal_value(digits),
    decreases digits.len(),
{
    if k == digits.len() {
        assert(digits.subrange(0, k) =~= digits);
        if k > 0 {
            lemma_prefix_value(digits.drop_last(), k - 1);
        }
    } else {
        lemma_prefix_value(digits.drop_last(), k);
        assert(digits.drop_last().subrange(0, k) =~= digits.subrange(0, k));
    }
}

/// A text with a character outside ASCII names no port.
proof fn lemma_port_is_ascii(text: Seq<char>)
    requires
        !is_ascii_chars(text),
    ensures
        port_in(text) is None,
{
    let digits = unsigned_digits(text);
    if all_digits(digits) {
        assert forall|i: int| 0 <= i < text.len() implies '\0' <= #[trigger] text[i]
            <= '\u{7f}' by {
            if digits.len() == text.len() {
                assert(is_digit(digits[i]));
            } else if i > 0 {
                assert(is_digit(digits[i - 1]));
            }
        }
    }
}

/// Reads a port number from its text.
pub fn parse_port(text: &str) -> (r: Option<u16>)
    ensures
        r == port_in(text@),
{
    if !text.is_ascii() {
        proof {
            lemma_port_is_ascii(text@);
        }
        return None;
    }
    broadcast use is_ascii_spec_bytes;

    let bytes = text.as_bytes();
    let n = bytes.len();
    let start: usize = if n > 0 && bytes[0] == ASCII_PLUS {
        1
    } else {
        0
    };
    if start == n {
        return None;
    }
    let ghost digits = unsigned_digits(text@);
    let mut value: u32 = 0;
    let mut i: usize = start;
    while i < n
        invariant
            start <= i <= n,
            n == bytes@.len(),
            n == text@.len(),
            is_ascii_chars(text@),
            forall|k: int| 0 <= k < n ==> bytes@[k] == text@[k] as u8,
            digits == text@.subrange(start as int, n as int),
            digits == unsigned_digits(text@),
            all_digits(digits.subrange(0, i - start)),
            value == decimal_value(digits.subrange(0, i - start)),
            value <= u16::MAX,
        decreases n - i,
    {
        let byte = bytes[i];
        if byte < ASCII_ZERO || byte > ASCII_NINE {
            assert(!is_digit(digits[i - start]));
            return None;
        }
        let ghost before = digits.subrange(0, i - start);
        let ghost after = digits.subrange(0, i + 1 - start);
        assert(after.drop_last() =~= before);
        value = value * 10 + (byte - ASCII_ZERO) as u32;
        if value > 65535 {
            proof {
                if all_digits(digits) {
                    lemma_prefix_value(digits, i + 1 - start);
                }
            }
            return None;
        }
        i += 1;
    }
    assert(digits.subrange(0, n - start) =~= digits);
    Some(value as u16)
}

/// The port to listen on, given the configured text if there is one: the
/// default port where none is configured, the port that the text names where
/// it names one, and an error where it does not.
pub fn listen_port(configured: Option<&str>) -> (r: Result<u16, ConfigurationError>)
    ensures
        r == match configured {
            None => Ok::<u16, ConfigurationError>(DEFAULT_PORT),
            Some(text) => match port_in(text@) {
                Some(port) => Ok::<u16, ConfigurationError>(port),
                None => Err::<u16, ConfigurationError>(ConfigurationError::InvalidPort),
            },
        },
{
    match configured {
        None => Ok(DEFAULT_PORT),
        Some(text) => match parse_port(text) {
            Some(port) => Ok(port),
            None => Err(ConfigurationError::InvalidPort),
        },
    }
}

} // verus!
