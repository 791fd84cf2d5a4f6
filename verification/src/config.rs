//! The gateway's configuration: where the upstream provider is, and the secrets in use.

use vstd::prelude::*;
use crate::text::chars_of;

verus! {

/// The port on which the gateway listens where none is set.
pub const DEFAULT_PORT: u16 = 8080;

/// A setting that must be present for the gateway to start.
#[derive(Clone, Copy, Debug, PartialEq, Eq, Structural)]
pub enum Setting {
    UpstreamKey,
    Endpoint,
    Deployment,
    ApiVersion,
}

impl Setting {
    /// The name of the environment variable that carries the setting.
    pub open spec fn variable_name(self) -> Seq<char> {
        match self {
            Setting::UpstreamKey => "AZURE_OPENAI_KEY"@,
            Setting::Endpoint => "AZURE_OPENAI_ENDPOINT"@,
            Setting::Deployment => "AZURE_OPENAI_DEPLOYMENT_NAME"@,
            Setting::ApiVersion => "AZURE_OPENAI_API_VERSION"@,
        }
    }

    /// The name of the environment variable that carries the setting.
    pub fn variable(self) -> (name: &'static str)
        ensures
            name@ == self.variable_name(),
    {
        match self {
            Setting::UpstreamKey => "AZURE_OPENAI_KEY",
            Setting::Endpoint => "AZURE_OPENAI_ENDPOINT",
            Setting::Deployment => "AZURE_OPENAI_DEPLOYMENT_NAME",
            Setting::ApiVersion => "AZURE_OPENAI_API_VERSION",
        }
    }
}

/// Why the gateway cannot start.
#[derive(Clone, Copy, Debug, PartialEq, Eq, Structural)]
pub enum ConfigError {
    /// A required setting is absent.
    Missing(Setting),
    /// The port is not a number from 0 to 65535.
    InvalidPort,
}

/// The settings of a running gateway. They are read once and never change.
#[derive(Clone, Debug, PartialEq, Eq)]
pub struct Config {
    /// The base address of the upstream provider.
    pub endpoint: String,
    /// The secret that the gateway presents to the upstream provider.
    pub upstream_key: String,
    /// The name of the upstream deployment.
    pub deployment: String,
    /// The version of the upstream API.
    pub api_version: String,
    /// The secret that callers of the gateway must present.
    pub inbound_key: String,
}

/// A configuration as a mathematical value.
pub struct ConfigView {
    pub endpoint: Seq<char>,
    pub upstream_key: Seq<char>,
    pub deployment: Seq<char>,
    pub api_version: Seq<char>,
    pub inbound_key: Seq<char>,
}

impl View for Config {
    type V = ConfigView;

    open spec fn view(&self) -> ConfigView {
        ConfigView {
            endpoint: self.endpoint@,
            upstream_key: self.upstream_key@,
            deployment: self.deployment@,
            api_version: self.api_version@,
            inbound_key: self.inbound_key@,
        }
    }
}

/// The view of a setting's value.
pub open spec fn setting_view(value: Option<String>) -> Option<Seq<char>> {
    match value {
        Some(text) => Some(text@),
        None => None,
    }
}

/// The configuration that four settings give: the first absent one, in the order upstream key,
/// endpoint, deployment, API version, is reported; the inbound secret is the upstream key.
pub open spec fn configured(
    upstream_key: Option<Seq<char>>,
    endpoint: Option<Seq<char>>,
    deployment: Option<Seq<char>>,
    api_version: Option<Seq<char>>,
) -> Result<ConfigView, ConfigError> {
    if upstream_key is None {
        Err(ConfigError::Missing(Setting::UpstreamKey))
    } else if endpoint is None {
        Err(ConfigError::Missing(Setting::Endpoint))
    } else if deployment is None {
        Err(ConfigError::Missing(Setting::Deployment))
    } else if api_version is None {
        Err(ConfigError::Missing(Setting::ApiVersion))
    } else {
        Ok(
            ConfigView {
                endpoint: endpoint->0,
                upstream_key: upstream_key->0,
                deployment: deployment->0,
                api_version: api_version->0,
                inbound_key: upstream_key->0,
            },
        )
    }
}

/// The view of a configuration that was built, or of the reason why it was not.
pub open spec fn config_result_view(
    result: Result<Config, ConfigError>,
) -> Result<ConfigView, ConfigError> {
    match result {
        Ok(config) => Ok(config@),
        Err(e) => Err(e),
    }
}

impl Config {
    /// Builds the configuration from the values of the four required settings.
    pub fn from_settings(
        upstream_key: Option<String>,
        endpoint: Option<String>,
        deployment: Option<String>,
        api_version: Option<String>,
    ) -> (result: Result<Config, ConfigError>)
        ensures
            config_result_view(result) == configured(
                setting_view(upstream_key),
                setting_view(endpoint),
                setting_view(deployment),
                setting_view(api_version),
            ),
    {
        let upstream_key = match upstream_key {
            Some(value) => value,
            None => return Err(ConfigError::Missing(Setting::UpstreamKey)),
        };
        let endpoint = match endpoint {
            Some(value) => value,
            None => return Err(ConfigError::Missing(Setting::Endpoint)),
        };
        let deployment = match deployment {
            Some(value) => value,
            None => return Err(ConfigError::Missing(Setting::Deployment)),
        };
        let api_version = match api_version {
            Some(value) => value,
            None => return Err(ConfigError::Missing(Setting::ApiVersion)),
        };
        let inbound_key = upstream_key.clone();
        Ok(Config { endpoint, upstream_key, deployment, api_version, inbound_key })
    }
}

/// A decimal digit.
pub open spec fn is_digit(c: char) -> bool {
    '0' <= c <= '9'
}

/// The value of a decimal digit.
pub open spec fn digit_value(c: char) -> nat {
    (c as u32 - '0' as u32) as nat
}

/// Every character is a decimal digit.
pub open spec fn all_digits(digits: Seq<char>) -> bool {
    forall|i: int| 0 <= i < digits.len() ==> is_digit(#[trigger] digits[i])
}

/// The number that a run of decimal digits writes.
pub open spec fn decimal_value(digits: Seq<char>) -> nat
    decreases digits.len(),
{
    if digits.len() == 0 {
        0
    } else {
        10 * decimal_value(digits.drop_last()) + digit_value(digits.last())
    }
}

/// The text without one leading plus sign.
pub open spec fn unsigned_part(text: Seq<char>) -> Seq<char> {
    if text.len() > 0 && text[0] == '+' {
        text.drop_first()
    } else {
        text
    }
}

/// The port that a text writes: one or more decimal digits, after at most one plus sign,
/// with a value of at most 65535.
pub open spec fn port_number(text: Seq<char>) -> Option<u16> {
    let digits = unsigned_part(text);
    if digits.len() > 0 && all_digits(digits) && decimal_value(digits) <= u16::MAX {
        Some(decimal_value(digits) as u16)
    } else {
        None
    }
}

/// The port to listen on: the default where none is set, else the port that the setting
/// writes.
pub open spec fn listening_port(raw: Option<Seq<char>>) -> Result<u16, ConfigError> {
    match raw {
        None => Ok(DEFAULT_PORT),
        Some(text) => match port_number(text) {
            Some(port) => Ok(port),
            None => Err(ConfigError::InvalidPort),
        },
    }
}

/// The view of a port setting.
pub open spec fn port_setting_view(raw: Option<&str>) -> Option<Seq<char>> {
    match raw {
        Some(text) => Some(text@),
        None => None,
    }
}

/// The digits read so far never write more than all of them do.
proof fn lemma_decimal_value_grows(digits: Seq<char>, k: int)
    requires
        0 <= k <= digits.len(),
    ensures
        decimal_value(digits.take(k)) <= decimal_value(digits),
    decreases digits.len() - k,
{
    if k == digits.len() {
        assert(digits.take(k) =~= digits);
    } else {
        lemma_decimal_value_grows(digits.drop_last(), k);
        assert(digits.drop_last().take(k) =~= digits.take(k));
    }
}

/// The value of a character where it is a decimal digit.
fn digit_of(c: char) -> (digit: Option<u32>)
    ensures
        digit is Some <==> is_digit(c),
        digit is Some ==> digit->0 == digit_value(c),
{
    let code: u32 = c as u32;
    if 0x30 <= code && code <= 0x39 {
        Some(code - 0x30)
    } else {
        None
    }
}

/// Reads a port number.
pub fn parse_port(text: &str) -> (port: Option<u16>)
    ensures
        port == port_number(text@),
{
    let chars = chars_of(text);
    let start: usize = if chars.len() > 0 && chars[0] == '+' {
        1
    } else {
        0
    };
    let ghost digits = unsigned_part(text@);
    assert(digits =~= chars@.subrange(start as int, chars@.len() as int));
    if start == chars.len() {
        return None;
    }
    let mut value: u32 = 0;
    let mut i: usize = start;
    while i < chars.len()
        invariant
            start <= i <= chars@.len(),
            digits == unsigned_part(text@),
            digits == chars@.subrange(start as int, chars@.len() as int),
            all_digits(digits.take(i - start)),
            value == decimal_value(digits.take(i - start)),
            value <= u16::MAX,
        decreases chars@.len() - i,
    {
        let ghost upto = digits.take(i - start + 1);
        proof {
            assert(upto.drop_last() =~= digits.take(i - start));
            assert(upto.last() == chars@[i as int]);
            assert(digits[i - start] == chars@[i as int]);
        }
        let digit: u32 = match digit_of(chars[i]) {
            Some(digit) => digit,
            None => {
                return None;
            },
        };
        value = value * 10 + digit;
        if value > 0xffff {
            proof {
                lemma_decimal_value_grows(digits, i - start + 1);
            }
            return None;
        }
        assert forall|j: int| 0 <= j < upto.len() implies is_digit(#[trigger] upto[j]) by {
            if j < i - start {
                assert(upto[j] == digits.take(i - start)[j]);
            }
        }
        i += 1;
    }
    assert(digits.take(i - start) =~= digits);
    Some(value as u16)
}

/// The port to listen on, given the port setting where there is one.
pub fn listen_port(raw: Option<&str>) -> (port: Result<u16, ConfigError>)
    ensures
        port == listening_port(port_setting_view(raw)),
{
    match raw {
        None => Ok(DEFAULT_PORT),
        Some(text) => match parse_port(text) {
            Some(port) => Ok(port),
            None => Err(ConfigError::InvalidPort),
        },
    }
}

} // verus!
