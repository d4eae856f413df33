//! The configuration snapshot that the evaluator reads, and how it is made
//! from the settings as they were found.
//!
//! Human-scale quantities are held as integers in the smallest unit of the
//! token they are denominated in, so that every comparison made on them is
//! exact.

use crate::address::{parsed_address, Address, AddressError};
use crate::amount::{all_digits, digits_value, is_digit};
use vstd::prelude::*;

verus! {

/// `s` without a leading `+`.
pub open spec fn unsigned_body(s: Seq<char>) -> Seq<char> {
    if s.len() > 0 && s[0] == '+' {
        s.subrange(1, s.len() as int)
    } else {
        s
    }
}

/// What a text means as an unsigned 32-bit number: an optional `+`, then one
/// or more decimal digits whose value fits; anything else means nothing.
pub open spec fn parsed_u32(s: Seq<char>) -> Option<u32> {
    let body = unsigned_body(s);
    if body.len() > 0 && all_digits(body) && digits_value(body) <= u32::MAX {
        Some(digits_value(body) as u32)
    } else {
        None
    }
}

/// A number is at least the number that any prefix of its digits stands for.
proof fn lemma_digits_value_prefix(s: Seq<char>, k: int)
    requires
        0 <= k <= s.len(),
    ensures
        digits_value(s.subrange(0, k)) <= digits_value(s),
    decreases s.len(),
{
    if k == s.len() {
        assert(s.subrange(0, k) =~= s);
    } else {
        lemma_digits_value_prefix(s.drop_last(), k);
        assert(s.drop_last().subrange(0, k) =~= s.subrange(0, k));
    }
}

/// Reads an unsigned 32-bit number from decimal text.
pub fn parse_u32(text: &str) -> (r: Option<u32>)
    ensures
        r == parsed_u32(text@),
{
    let len = text.unicode_len();
    let first: usize = if len > 0 && text.get_char(0) == '+' {
        1
    } else {
        0
    };
    let ghost body = text@.subrange(first as int, len as int);
    assert(body =~= unsigned_body(text@));
    if first == len {
        return None;
    }
    let mut acc: u64 = 0;
    let mut i: usize = first;
    assert(body.subrange(0, 0) =~= Seq::<char>::empty());
    while i < len
        invariant
            first <= i <= len,
            len == text@.len(),
            body == text@.subrange(first as int, len as int),
            body == unsigned_body(text@),
            forall|j: int| 0 <= j < i - first ==> is_digit(#[trigger] body[j]),
            acc == digits_value(body.subrange(0, i - first)),
            acc <= u32::MAX,
        decreases len - i,
    {
        let c = text.get_char(i);
        assert(c == body[i - first]);
        if c < '0' || c > '9' {
            return None;
        }
        let digit: u64 = (c as u32 - '0' as u32) as u64;
        acc = acc * 10 + digit;
        proof {
            let next = body.subrange(0, i - first + 1);
            assert(next.drop_last() =~= body.subrange(0, i - first));
            assert(next.last() == c);
            lemma_digits_value_prefix(body, i - first + 1);
        }
        if acc > u32::MAX as u64 {
            return None;
        }
        i = i + 1;
    }
    assert(body.subrange(0, len - first) =~= body);
    Some(acc as u32)
}

/// The number that an optional text stands for, or `default` where the text
/// is absent or stands for none.
pub fn parse_u32_or(text: Option<&str>, default: u32) -> (r: u32)
    ensures
        r == match text {
            Some(t) => match parsed_u32(t@) {
                Some(v) => v,
                None => default,
            },
            None => default,
        },
{
    match text {
        Some(t) => match parse_u32(t) {
            Some(v) => v,
            None => default,
        },
        None => default,
    }
}

/// Decimal count of the input token where none is given.
pub const DEFAULT_TOKEN_IN_DECIMALS: u32 = 18;

/// Decimal count of the output token where none is given.
pub const DEFAULT_TOKEN_OUT_DECIMALS: u32 = 6;

/// Seconds between two sampling cycles where none are given.
pub const DEFAULT_POLL_INTERVAL_SECS: u32 = 20;

/// A setting that has no default.
#[derive(Clone, Copy, Debug, PartialEq, Eq, Structural)]
pub enum Setting {
    RpcUrl,
    DexARouter,
    DexBRouter,
    TokenIn,
    TokenOut,
}

/// The name of the variable that holds a setting.
pub open spec fn setting_key(which: Setting) -> Seq<char> {
    match which {
        Setting::RpcUrl => "RPC_URL"@,
        Setting::DexARouter => "DEX_A_ROUTER"@,
        Setting::DexBRouter => "DEX_B_ROUTER"@,
        Setting::TokenIn => "TOKEN_IN"@,
        Setting::TokenOut => "TOKEN_OUT"@,
    }
}

impl Setting {
    /// The name of the variable that holds the setting.
    pub fn key(self) -> (r: &'static str)
        ensures
            r@ == setting_key(self),
    {
        match self {
            Setting::RpcUrl => "RPC_URL",
            Setting::DexARouter => "DEX_A_ROUTER",
            Setting::DexBRouter => "DEX_B_ROUTER",
            Setting::TokenIn => "TOKEN_IN",
            Setting::TokenOut => "TOKEN_OUT",
        }
    }
}

/// Why a set of raw settings is no configuration.
#[derive(Clone, Copy, Debug, PartialEq, Eq, Structural)]
pub enum ConfigError {
    /// The setting is absent.
    Missing(Setting),
    /// The setting is present and is not an address.
    BadAddress(Setting, AddressError),
}

/// What an error says.
pub open spec fn error_message(e: ConfigError) -> Seq<char> {
    match e {
        ConfigError::Missing(which) => "missing env "@ + setting_key(which),
        ConfigError::BadAddress(which, AddressError::InvalidHex) => "invalid hex for "@
            + setting_key(which),
        ConfigError::BadAddress(which, AddressError::WrongLength) => setting_key(which)
            + " must be 20 bytes (40 hex chars)"@,
    }
}

impl ConfigError {
    /// The error in words, naming the variable at fault.
    pub fn message(&self) -> (r: String)
        ensures
            r@ == error_message(*self),
    {
        match self {
            ConfigError::Missing(which) => {
                let mut out = String::from_str("missing env ");
                out.append(which.key());
                out
            },
            ConfigError::BadAddress(which, AddressError::InvalidHex) => {
                let mut out = String::from_str("invalid hex for ");
                out.append(which.key());
                out
            },
            ConfigError::BadAddress(which, AddressError::WrongLength) => {
                let mut out = String::from_str(which.key());
                out.append(" must be 20 bytes (40 hex chars)");
                out
            },
        }
    }
}

/// The settings as they were found: the texts of those that have no default,
/// where present, and the numbers of the others.
pub struct RawConfig {
    pub rpc_url: Option<String>,
    pub dex_a_router: Option<String>,
    pub dex_b_router: Option<String>,
    pub token_in: Option<String>,
    pub token_out: Option<String>,
    pub token_in_decimals: u32,
    pub token_out_decimals: u32,
    pub trade_size_in_token_in: u128,
    pub gas_cost_usdc: u128,
    pub min_profit_usdc: u128,
    pub poll_interval_secs: u32,
}

/// What an address setting means: its bytes, or the error it gives.
pub open spec fn address_setting(text: Option<String>, which: Setting) -> Result<
    Seq<u8>,
    ConfigError,
> {
    match text {
        None => Err(ConfigError::Missing(which)),
        Some(t) => match parsed_address(t@) {
            Ok(bytes) => Ok(bytes),
            Err(e) => Err(ConfigError::BadAddress(which, e)),
        },
    }
}

/// The first fault of the raw settings, in the order endpoint, first router,
/// second router, input token, output token; `None` where there is none.
pub open spec fn first_fault(raw: RawConfig) -> Option<ConfigError> {
    if raw.rpc_url is None {
        Some(ConfigError::Missing(Setting::RpcUrl))
    } else if address_setting(raw.dex_a_router, Setting::DexARouter) is Err {
        Some(address_setting(raw.dex_a_router, Setting::DexARouter)->Err_0)
    } else if address_setting(raw.dex_b_router, Setting::DexBRouter) is Err {
        Some(address_setting(raw.dex_b_router, Setting::DexBRouter)->Err_0)
    } else if address_setting(raw.token_in, Setting::TokenIn) is Err {
        Some(address_setting(raw.token_in, Setting::TokenIn)->Err_0)
    } else if address_setting(raw.token_out, Setting::TokenOut) is Err {
        Some(address_setting(raw.token_out, Setting::TokenOut)->Err_0)
    } else {
        None
    }
}

/// Reads one address setting.
fn read_address(text: &Option<String>, which: Setting) -> (r: Result<Address, ConfigError>)
    ensures
        match address_setting(*text, which) {
            Ok(bytes) => r is Ok && r->Ok_0.bytes@ == bytes,
            Err(e) => r == Err::<Address, ConfigError>(e),
        },
{
    match text {
        None => Err(ConfigError::Missing(which)),
        Some(t) => match Address::parse(t.as_str()) {
            Ok(address) => Ok(address),
            Err(e) => Err(ConfigError::BadAddress(which, e)),
        },
    }
}

/// The settings of one run. They do not change while it lasts.
#[derive(Clone, Debug)]
pub struct AppConfig {
    /// Endpoint of the node that answers quote requests.
    pub rpc_url: String,
    /// Router contract of the first venue.
    pub dex_a_router: Address,
    /// Router contract of the second venue.
    pub dex_b_router: Address,
    /// The token that is paid.
    pub token_in: Address,
    /// The token that is received, in which profit is counted.
    pub token_out: Address,
    /// Decimal count of the input token.
    pub token_in_decimals: u32,
    /// Decimal count of the output token.
    pub token_out_decimals: u32,
    /// Trade size, in smallest units of the input token.
    pub trade_size_in_token_in: u128,
    /// Fixed cost of one round trip, in smallest units of the output token.
    pub gas_cost_usdc: u128,
    /// Least net profit that is reported, in smallest units of the output token.
    pub min_profit_usdc: u128,
    /// Seconds between two sampling cycles.
    pub poll_interval_secs: u32,
}

/// A configuration that is safe to print: the endpoint, which may carry a
/// credential, is masked.
#[derive(Debug)]
pub struct RedactedConfig {
    pub rpc_url: String,
    pub dex_a_router: Address,
    pub dex_b_router: Address,
    pub token_in: Address,
    pub token_out: Address,
    pub token_in_decimals: u32,
    pub token_out_decimals: u32,
    pub trade_size_in_token_in: u128,
    pub gas_cost_usdc: u128,
    pub min_profit_usdc: u128,
    pub poll_interval_secs: u32,
}

impl AppConfig {
    /// Checks raw settings and makes a configuration of them.
    ///
    /// The endpoint must be present and each of the four addresses must be
    /// present and well formed. The first that is not, in that order, is
    /// the error; the numbers are taken as they are.
    pub fn from_raw(raw: RawConfig) -> (r: Result<AppConfig, ConfigError>)
        ensures
            match first_fault(raw) {
                Some(e) => r == Err::<AppConfig, ConfigError>(e),
                None => {
                    &&& r matches Ok(cfg)
                    &&& cfg.rpc_url@ == raw.rpc_url->0@
                    &&& Ok::<Seq<u8>, ConfigError>(cfg.dex_a_router.bytes@) == address_setting(
                        raw.dex_a_router,
                        Setting::DexARouter,
                    )
                    &&& Ok::<Seq<u8>, ConfigError>(cfg.dex_b_router.bytes@) == address_setting(
                        raw.dex_b_router,
                        Setting::DexBRouter,
                    )
                    &&& Ok::<Seq<u8>, ConfigError>(cfg.token_in.bytes@) == address_setting(
                        raw.token_in,
                        Setting::TokenIn,
                    )
                    &&& Ok::<Seq<u8>, ConfigError>(cfg.token_out.bytes@) == address_setting(
                        raw.token_out,
                        Setting::TokenOut,
                    )
                    &&& cfg.token_in_decimals == raw.token_in_decimals
                    &&& cfg.token_out_decimals == raw.token_out_decimals
                    &&& cfg.trade_size_in_token_in == raw.trade_size_in_token_in
                    &&& cfg.gas_cost_usdc == raw.gas_cost_usdc
                    &&& cfg.min_profit_usdc == raw.min_profit_usdc
                    &&& cfg.poll_interval_secs == raw.poll_interval_secs
                },
            },
    {
        let rpc_url = match raw.rpc_url {
            None => {
                return Err(ConfigError::Missing(Setting::RpcUrl));
            },
            Some(url) => url,
        };
        let dex_a_router = match read_address(&raw.dex_a_router, Setting::DexARouter) {
            Err(e) => {
                return Err(e);
            },
            Ok(address) => address,
        };
        let dex_b_router = match read_address(&raw.dex_b_router, Setting::DexBRouter) {
            Err(e) => {
                return Err(e);
            },
            Ok(address) => address,
        };
        let token_in = match read_address(&raw.token_in, Setting::TokenIn) {
            Err(e) => {
                return Err(e);
            },
            Ok(address) => address,
        };
        let token_out = match read_address(&raw.token_out, Setting::TokenOut) {
            Err(e) => {
                return Err(e);
            },
            Ok(address) => address,
        };
        Ok(
            AppConfig {
                rpc_url,
                dex_a_router,
                dex_b_router,
                token_in,
                token_out,
                token_in_decimals: raw.token_in_decimals,
                token_out_decimals: raw.token_out_decimals,
                trade_size_in_token_in: raw.trade_size_in_token_in,
                gas_cost_usdc: raw.gas_cost_usdc,
                min_profit_usdc: raw.min_profit_usdc,
                poll_interval_secs: raw.poll_interval_secs,
            },
        )
    }

    /// The same settings with the endpoint replaced by `<redacted>`.
    pub fn redacted(&self) -> (r: RedactedConfig)
        ensures
            r.rpc_url@ == "<redacted>"@,
            r.dex_a_router == self.dex_a_router,
            r.dex_b_router == self.dex_b_router,
            r.token_in == self.token_in,
            r.token_out == self.token_out,
            r.token_in_decimals == self.token_in_decimals,
            r.token_out_decimals == self.token_out_decimals,
            r.trade_size_in_token_in == self.trade_size_in_token_in,
            r.gas_cost_usdc == self.gas_cost_usdc,
            r.min_profit_usdc == self.min_profit_usdc,
            r.poll_interval_secs == self.poll_interval_secs,
    {
        RedactedConfig {
            rpc_url: String::from_str("<redacted>"),
            dex_a_router: self.dex_a_router,
            dex_b_router: self.dex_b_router,
            token_in: self.token_in,
            token_out: self.token_out,
            token_in_decimals: self.token_in_decimals,
            token_out_decimals: self.token_out_decimals,
            trade_size_in_token_in: self.trade_size_in_token_in,
            gas_cost_usdc: self.gas_cost_usdc,
            min_profit_usdc: self.min_profit_usdc,
            poll_interval_secs: self.poll_interval_secs,
        }
    }
}

} // verus!
