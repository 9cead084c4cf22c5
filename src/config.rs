use vstd::prelude::*;

use crate::target::{digits_value, is_digits};
use crate::throttle::ThrottleConfig;

verus! {

/// Buffer size of a throttled relay when none is configured.
pub const DEFAULT_BUFFER_SIZE: usize = 4096;

/// Delay of a throttled relay, in milliseconds, when none is configured.
pub const DEFAULT_DELAY_MILLIS: u64 = 200;

/// A setting that cannot be used.
#[derive(Debug, Clone, Copy, PartialEq, Eq)]
pub enum ConfigError {
    /// The buffer size is not an unsigned integer.
    InvalidBufferSize,
    /// The delay is not an unsigned integer.
    InvalidDelay,
    /// Throttling is on with a buffer of zero bytes.
    ZeroBufferSize,
}

/// What `str::to_lowercase` makes of a text.
pub uninterp spec fn lowercase_of(s: Seq<char>) -> Seq<char>;

/// Relies on `str::to_lowercase`: its result depends on the characters alone.
#[verifier::external_body]
fn lowercase(s: &str) -> (r: String)
    ensures
        r@ == lowercase_of(s@),
{
    s.to_lowercase()
}

/// Whether `s` is an optional `+` followed by decimal digits, the form in
/// which std reads an unsigned integer.
pub open spec fn is_unsigned_text(s: Seq<char>) -> bool {
    is_digits(s) || (s.len() > 0 && s[0] == '+' && is_digits(s.skip(1)))
}

/// The number that an unsigned integer text writes.
pub open spec fn unsigned_value(s: Seq<char>) -> nat {
    if s.len() > 0 && s[0] == '+' {
        digits_value(s.skip(1))
    } else {
        digits_value(s)
    }
}

/// Relies on `<usize as FromStr>::from_str`: an optional `+` and decimal
/// digits, read where the value fits; anything else is an error.
#[verifier::external_body]
fn parse_usize(s: &str) -> (r: Option<usize>)
    ensures
        r is Some == (is_unsigned_text(s@) && unsigned_value(s@) <= usize::MAX),
        r matches Some(n) ==> n as nat == unsigned_value(s@),
{
    s.parse::<usize>().ok()
}

/// Relies on `<u64 as FromStr>::from_str`: an optional `+` and decimal
/// digits, read where the value fits; anything else is an error.
#[verifier::external_body]
fn parse_u64(s: &str) -> (r: Option<u64>)
    ensures
        r is Some == (is_unsigned_text(s@) && unsigned_value(s@) <= u64::MAX),
        r matches Some(n) ==> n as nat == unsigned_value(s@),
{
    s.parse::<u64>().ok()
}

/// Whether throttling is on: the setting is present and reads `true` in
/// any mix of cases.
pub fn throttling_enabled(value: Option<&str>) -> (r: bool)
    ensures
        r == (value matches Some(v) && lowercase_of(v@) == "true"@),
{
    match value {
        Some(v) => lowercase(v) == "true".to_string(),
        None => false,
    }
}

/// The buffer size setting, or its default where it is absent.
pub fn buffer_size_setting(value: Option<&str>) -> (r: Result<usize, ConfigError>)
    ensures
        r is Ok == buffer_size_setting_spec(value) is Some,
        r matches Ok(n) ==> buffer_size_setting_spec(value) == Some(n as nat),
        r is Err ==> r->Err_0 is InvalidBufferSize,
{
    match value {
        None => Ok(DEFAULT_BUFFER_SIZE),
        Some(v) => match parse_usize(v) {
            Some(n) => Ok(n),
            None => Err(ConfigError::InvalidBufferSize),
        },
    }
}

/// The delay setting, in milliseconds, or its default where it is absent.
pub fn delay_setting(value: Option<&str>) -> (r: Result<u64, ConfigError>)
    ensures
        r is Ok == delay_setting_spec(value) is Some,
        r matches Ok(n) ==> delay_setting_spec(value) == Some(n as nat),
        r is Err ==> r->Err_0 is InvalidDelay,
{
    match value {
        None => Ok(DEFAULT_DELAY_MILLIS),
        Some(v) => match parse_u64(v) {
            Some(n) => Ok(n),
            None => Err(ConfigError::InvalidDelay),
        },
    }
}

/// The throttling of every tunnel, from the three settings as they are
/// given at startup (`None` where one is absent). Both sizes are read even
/// when throttling is off, the buffer size first; with throttling on, a
/// zero buffer is refused. `Ok(None)` means tunnels are not throttled.
pub fn throttle_settings(
    enabled: Option<&str>,
    buffer_size: Option<&str>,
    delay_millis: Option<&str>,
) -> (r: Result<Option<ThrottleConfig>, ConfigError>)
    ensures
        buffer_size_setting_spec(buffer_size) is None ==> r == Err::<Option<ThrottleConfig>, ConfigError>(
            ConfigError::InvalidBufferSize,
        ),
        buffer_size_setting_spec(buffer_size) is Some && delay_setting_spec(delay_millis) is None
            ==> r == Err::<Option<ThrottleConfig>, ConfigError>(ConfigError::InvalidDelay),
        buffer_size_setting_spec(buffer_size) is Some && delay_setting_spec(delay_millis) is Some
            ==> ({
            let b = buffer_size_setting_spec(buffer_size)->Some_0;
            let d = delay_setting_spec(delay_millis)->Some_0;
            &&& !(enabled matches Some(v) && lowercase_of(v@) == "true"@) ==> r == Ok::<
                Option<ThrottleConfig>,
                ConfigError,
            >(None)
            &&& (enabled matches Some(v) && lowercase_of(v@) == "true"@) && b == 0 ==> r == Err::<
                Option<ThrottleConfig>,
                ConfigError,
            >(ConfigError::ZeroBufferSize)
            &&& (enabled matches Some(v) && lowercase_of(v@) == "true"@) && b > 0 ==> (r matches Ok(
                Some(c),
            ) && c.chunk_limit() == b && c.pause_millis() == d)
        }),
{
    let b = match buffer_size_setting(buffer_size) {
        Ok(b) => b,
        Err(e) => return Err(e),
    };
    let d = match delay_setting(delay_millis) {
        Ok(d) => d,
        Err(e) => return Err(e),
    };
    if !throttling_enabled(enabled) {
        return Ok(None);
    }
    match ThrottleConfig::new(b, d) {
        Some(c) => Ok(Some(c)),
        None => Err(ConfigError::ZeroBufferSize),
    }
}

/// The buffer size that a setting gives, `None` where it is not a number
/// that fits.
pub open spec fn buffer_size_setting_spec(value: Option<&str>) -> Option<nat> {
    match value {
        None => Some(DEFAULT_BUFFER_SIZE as nat),
        Some(v) => if is_unsigned_text(v@) && unsigned_value(v@) <= usize::MAX {
            Some(unsigned_value(v@))
        } else {
            None
        },
    }
}

/// The delay that a setting gives, `None` where it is not a number that
/// fits.
pub open spec fn delay_setting_spec(value: Option<&str>) -> Option<nat> {
    match value {
        None => Some(DEFAULT_DELAY_MILLIS as nat),
        Some(v) => if is_unsigned_text(v@) && unsigned_value(v@) <= u64::MAX {
            Some(unsigned_value(v@))
        } else {
            None
        },
    }
}

} // verus!
