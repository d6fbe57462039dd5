//! GLM platform description: plans, platforms, quota data and the countdown
//! to the next quota reset.

use vstd::prelude::*;
use vstd::string::StringExecFns;
use vstd::string::StringSliceAdditionalSpecFns;
use std::time::Duration;
use std::time::SystemTime;
use std::time::SystemTimeError;
use crate::text::contains_text;
use crate::text::decimal_text;
use crate::text::push_decimal;
use crate::text::str_contains;

verus! {

/// Credentials and endpoint of the GLM service.
#[derive(Debug)]
pub struct GlmApiConfig {
    pub base_url: String,
    pub auth_token: String,
}

/// The operator of a GLM endpoint.
#[derive(Debug, Clone, Copy, PartialEq, Eq, Structural)]
pub enum GlmPlatform {
    ZAI,
    ZHIPU,
}

/// The subscription tier detected from the token quota.
#[derive(Debug, Clone, Copy, PartialEq, Eq, Structural)]
pub enum GlmPlan {
    Lite,
    Pro,
    Max,
    Unknown,
}

/// The token quota of the Pro tier, in thousandths of a token.
pub const PRO_LIMIT_MILLI: i64 = 200_000_000_000;

/// The token quota of the Lite tier, a fifth of Pro, in thousandths.
pub const LITE_LIMIT_MILLI: i64 = 40_000_000_000;

/// The token quota of the Max tier, four times Pro, in thousandths.
pub const MAX_LIMIT_MILLI: i64 = 800_000_000_000;

/// Whether a quota lies strictly less than one token away from `limit`.
pub open spec fn within_one_token(usage_milli: int, limit_milli: int) -> bool {
    limit_milli - 1000 < usage_milli < limit_milli + 1000
}

/// The tier that a token quota stands for: the first of Lite, Pro and Max
/// whose quota is less than one token away, else `Unknown`.
pub open spec fn plan_of_usage(usage_milli: int) -> GlmPlan {
    if within_one_token(usage_milli, LITE_LIMIT_MILLI as int) {
        GlmPlan::Lite
    } else if within_one_token(usage_milli, PRO_LIMIT_MILLI as int) {
        GlmPlan::Pro
    } else if within_one_token(usage_milli, MAX_LIMIT_MILLI as int) {
        GlmPlan::Max
    } else {
        GlmPlan::Unknown
    }
}

impl GlmPlan {
    /// The tier's name as a sequence of characters.
    pub open spec fn name_text(self) -> Seq<char> {
        match self {
            GlmPlan::Lite => "Lite"@,
            GlmPlan::Pro => "Pro"@,
            GlmPlan::Max => "Max"@,
            GlmPlan::Unknown => "Unknown"@,
        }
    }

    /// Detects the tier from the token quota, given in thousandths of a token.
    pub fn from_token_usage(usage_milli: i64) -> (r: GlmPlan)
        ensures
            r == plan_of_usage(usage_milli as int),
    {
        if Self::near(usage_milli, LITE_LIMIT_MILLI) {
            GlmPlan::Lite
        } else if Self::near(usage_milli, PRO_LIMIT_MILLI) {
            GlmPlan::Pro
        } else if Self::near(usage_milli, MAX_LIMIT_MILLI) {
            GlmPlan::Max
        } else {
            GlmPlan::Unknown
        }
    }

    fn near(usage_milli: i64, limit_milli: i64) -> (r: bool)
        requires
            0 <= limit_milli <= MAX_LIMIT_MILLI,
        ensures
            r == within_one_token(usage_milli as int, limit_milli as int),
    {
        limit_milli - 1000 < usage_milli && usage_milli < limit_milli + 1000
    }

    /// The tier's name.
    pub fn name(&self) -> (r: &'static str)
        ensures
            r@ == self.name_text(),
    {
        match self {
            GlmPlan::Lite => "Lite",
            GlmPlan::Pro => "Pro",
            GlmPlan::Max => "Max",
            GlmPlan::Unknown => "Unknown",
        }
    }

    /// The tier's name as shown to the user, without decoration.
    pub fn display_name(&self) -> (r: &'static str)
        ensures
            r@ == self.name_text(),
    {
        match self {
            GlmPlan::Lite => "Lite",
            GlmPlan::Pro => "Pro",
            GlmPlan::Max => "Max",
            GlmPlan::Unknown => "Unknown",
        }
    }
}

/// The operator that a base URL belongs to: Z.ai when the URL names
/// `api.z.ai`, else Zhipu.
pub open spec fn platform_of(base_url: Seq<char>) -> GlmPlatform {
    if contains_text(base_url, "api.z.ai"@) {
        GlmPlatform::ZAI
    } else {
        GlmPlatform::ZHIPU
    }
}

/// Whether a base URL names one of the two GLM operators.
pub open spec fn is_glm_endpoint(base_url: Seq<char>) -> bool {
    contains_text(base_url, "api.z.ai"@) || contains_text(base_url, "bigmodel.cn"@)
}

impl Clone for GlmApiConfig {
    fn clone(&self) -> (r: Self)
        ensures
            r.base_url@ == self.base_url@,
            r.auth_token@ == self.auth_token@,
    {
        GlmApiConfig { base_url: self.base_url.clone(), auth_token: self.auth_token.clone() }
    }
}

impl GlmApiConfig {
    /// A configuration from its two parts.
    pub fn new(base_url: String, auth_token: String) -> (r: Self)
        ensures
            r.base_url == base_url,
            r.auth_token == auth_token,
    {
        GlmApiConfig { base_url, auth_token }
    }

    /// A configuration from the two settings of the assistant's environment,
    /// present only when both are set and the URL names a GLM operator.
    pub fn from_settings(base_url: Option<String>, auth_token: Option<String>) -> (r: Option<Self>)
        ensures
            match r {
                Some(c) => base_url == Some(c.base_url) && auth_token == Some(c.auth_token)
                    && is_glm_endpoint(c.base_url@),
                None => base_url is None || auth_token is None || !is_glm_endpoint(
                    base_url->0@,
                ),
            },
    {
        match base_url {
            Some(url) => {
                if !str_contains(url.as_str(), "api.z.ai") && !str_contains(
                    url.as_str(),
                    "bigmodel.cn",
                ) {
                    return None;
                }
                match auth_token {
                    Some(token) => Some(GlmApiConfig::new(url, token)),
                    None => None,
                }
            },
            None => None,
        }
    }

    /// The operator of this endpoint.
    pub fn platform(&self) -> (r: GlmPlatform)
        ensures
            r == platform_of(self.base_url@),
    {
        if str_contains(self.base_url.as_str(), "api.z.ai") {
            GlmPlatform::ZAI
        } else if str_contains(self.base_url.as_str(), "bigmodel.cn") {
            GlmPlatform::ZHIPU
        } else {
            GlmPlatform::ZHIPU
        }
    }
}

/// One quota of the account.
///
/// `percentage` is in thousandths of a percent, `current_value` and `usage`
/// in thousandths of a unit, `next_reset_time` in milliseconds since the Unix
/// epoch.
#[derive(Debug)]
pub struct QuotaLimitItem {
    pub limit_type: String,
    pub percentage: i64,
    pub current_value: Option<i64>,
    pub usage: Option<i64>,
    pub next_reset_time: Option<i64>,
}

/// The quotas of the account, in the order the service lists them.
#[derive(Debug)]
pub struct GlmQuotaLimit {
    pub limits: Vec<QuotaLimitItem>,
}

/// Recent model performance; speeds in thousandths of a token per second,
/// success rates in thousandths.
#[derive(Debug)]
pub struct GlmModelPerformance {
    pub x_time: Vec<String>,
    pub lite_decode_speed: Vec<i64>,
    pub pro_max_decode_speed: Vec<i64>,
    pub lite_success_rate: Vec<i64>,
    pub pro_max_success_rate: Vec<i64>,
}

/// The countdown shown for a reset that lies `diff_ms` milliseconds ahead:
/// the coarsest unit that is not zero, followed by the next finer one unless
/// that is zero; `expired` when nothing is left.
pub open spec fn reset_time_text(diff_ms: int) -> Seq<char> {
    let seconds = diff_ms / 1000;
    let minutes = seconds / 60;
    let hours = minutes / 60;
    let days = hours / 24;
    if diff_ms <= 0 {
        "expired"@
    } else if days > 0 {
        if hours % 24 > 0 {
            decimal_text(days as nat) + "d "@ + decimal_text((hours % 24) as nat) + "h"@
        } else {
            decimal_text(days as nat) + "d"@
        }
    } else if hours > 0 {
        if minutes % 60 > 0 {
            decimal_text(hours as nat) + "h "@ + decimal_text((minutes % 60) as nat) + "m"@
        } else {
            decimal_text(hours as nat) + "h"@
        }
    } else if minutes > 0 {
        decimal_text(minutes as nat) + "m"@
    } else {
        decimal_text(seconds as nat) + "s"@
    }
}

/// The countdown shown at `now_ms` for a reset at `reset_timestamp_ms`.
pub open spec fn countdown_text(reset_timestamp_ms: i64, now_ms: i64) -> Seq<char> {
    reset_time_text(reset_timestamp_ms - now_ms)
}

/// The countdown from `now_ms` to `reset_timestamp_ms`, both in milliseconds
/// since the Unix epoch.
pub fn format_reset_time_at(reset_timestamp_ms: i64, now_ms: i64) -> (r: String)
    ensures
        r@ == countdown_text(reset_timestamp_ms, now_ms),
{
    let diff_ms: i128 = reset_timestamp_ms as i128 - now_ms as i128;
    if diff_ms <= 0 {
        return String::from_str("expired");
    }
    let seconds: u128 = (diff_ms / 1000) as u128;
    let minutes: u128 = seconds / 60;
    let hours: u128 = minutes / 60;
    let days: u128 = hours / 24;
    let mut out = String::new();
    if days > 0 {
        let rest: u128 = hours % 24;
        push_decimal(&mut out, days);
        if rest > 0 {
            out.append("d ");
            push_decimal(&mut out, rest);
            out.append("h");
        } else {
            out.append("d");
        }
    } else if hours > 0 {
        let rest: u128 = minutes % 60;
        push_decimal(&mut out, hours);
        if rest > 0 {
            out.append("h ");
            push_decimal(&mut out, rest);
            out.append("m");
        } else {
            out.append("h");
        }
    } else if minutes > 0 {
        push_decimal(&mut out, minutes);
        out.append("m");
    } else {
        push_decimal(&mut out, seconds);
        out.append("s");
    }
    assert(out@ =~= reset_time_text(reset_timestamp_ms - now_ms));
    out
}

/// `std::time::SystemTime`, carried through as an opaque value.
#[verifier::external_type_specification]
#[verifier::external_body]
pub struct ExSystemTime(SystemTime);

/// `std::time::SystemTimeError`, carried through as an opaque value.
#[verifier::external_type_specification]
#[verifier::external_body]
pub struct ExSystemTimeError(SystemTimeError);

/// Calls `SystemTime::now`. The reading depends on the machine's clock, so
/// nothing is claimed of it.
#[verifier::external_body]
fn clock_now() -> SystemTime {
    SystemTime::now()
}

/// Calls `SystemTime::duration_since` with the Unix epoch as the earlier
/// instant. Nothing is claimed of the result.
#[verifier::external_body]
fn since_unix_epoch(instant: &SystemTime) -> Result<Duration, SystemTimeError> {
    instant.duration_since(std::time::UNIX_EPOCH)
}

/// Calls `Duration::as_millis`. Nothing is claimed of the result.
#[verifier::external_body]
fn whole_millis(span: &Duration) -> u128 {
    span.as_millis()
}

/// The time that a reading of the clock stands for: the milliseconds it
/// counts since the Unix epoch; zero for a clock that reads before the
/// epoch, which has no count, and for a count beyond what fits.
pub open spec fn time_of_reading(since_epoch: Option<u128>) -> i64 {
    match since_epoch {
        Some(millis) => if millis <= i64::MAX {
            millis as i64
        } else {
            0
        },
        None => 0,
    }
}

/// The time that a reading of the clock stands for.
pub fn time_from_reading(since_epoch: Option<u128>) -> (r: i64)
    ensures
        r == time_of_reading(since_epoch),
{
    match since_epoch {
        Some(millis) => if millis <= 0x7fff_ffff_ffff_ffff {
            millis as i64
        } else {
            0
        },
        None => 0,
    }
}

/// The machine's clock in milliseconds since the Unix epoch: the time that
/// its reading stands for, never negative.
pub fn current_time_ms() -> (r: i64)
    ensures
        r >= 0,
{
    let instant = clock_now();
    let since_epoch: Option<u128> = match since_unix_epoch(&instant) {
        Ok(span) => Some(whole_millis(&span)),
        Err(_) => None,
    };
    time_from_reading(since_epoch)
}

/// The countdown from the machine's clock to `reset_timestamp_ms`: for some
/// time that the clock may read, the text that `format_reset_time_at` gives.
pub fn format_reset_time(reset_timestamp_ms: i64) -> (r: String)
    ensures
        exists|now_ms: i64|
            now_ms >= 0 && r@ == #[trigger] countdown_text(reset_timestamp_ms, now_ms),
{
    let now_ms: i64 = current_time_ms();
    format_reset_time_at(reset_timestamp_ms, now_ms)
}

/// The scheme and the host of an absolute URL, as `url::Url::parse` and the
/// accessors `scheme` and `host` of its result give them: nothing for a text
/// that does not parse, no host for a URL that has none.
pub uninterp spec fn url_scheme_and_host(input: Seq<char>) -> Option<(Seq<char>, Option<Seq<char>>)>;

/// Calls `url::Url::parse`, and reads from the parsed URL its `scheme` and
/// its `host`, the host written as its `Display` writes it. The result is a
/// function of the text alone.
#[verifier::external_body]
fn parse_scheme_and_host(input: &str) -> (r: Option<(String, Option<String>)>)
    ensures
        match r {
            Some((scheme, Some(host))) => url_scheme_and_host(input@) == Some(
                (scheme@, Some(host@)),
            ),
            Some((scheme, None)) => url_scheme_and_host(input@) == Some(
                (scheme@, None::<Seq<char>>),
            ),
            None => url_scheme_and_host(input@) is None,
        },
{
    match url::Url::parse(input) {
        Ok(parsed) => {
            let host = match parsed.host() {
                Some(host) => Some(host.to_string()),
                None => None,
            };
            Some((parsed.scheme().to_string(), host))
        },
        Err(_) => None,
    }
}

/// Whether a byte stands for itself in a percent-encoded text: a letter or
/// digit of ASCII, or one of `-`, `.`, `_`, `~`.
pub open spec fn is_unreserved(byte: u8) -> bool {
    (0x30 <= byte <= 0x39) || (0x41 <= byte <= 0x5a) || (0x61 <= byte <= 0x7a) || byte == 0x2d
        || byte == 0x2e || byte == 0x5f || byte == 0x7e
}

/// The upper-case hexadecimal digit of a value below 16.
pub open spec fn hex_digit(value: int) -> char {
    if value < 10 {
        crate::text::digit_char(value)
    } else if value == 10 {
        'A'
    } else if value == 11 {
        'B'
    } else if value == 12 {
        'C'
    } else if value == 13 {
        'D'
    } else if value == 14 {
        'E'
    } else {
        'F'
    }
}

/// The percent-encoding of a sequence of bytes: an unreserved byte as its
/// ASCII character, any other as `%` and its two hexadecimal digits.
pub open spec fn percent_encoded(bytes: Seq<u8>) -> Seq<char>
    decreases bytes.len(),
{
    if bytes.len() == 0 {
        Seq::empty()
    } else if is_unreserved(bytes.last()) {
        percent_encoded(bytes.drop_last()).push(bytes.last() as char)
    } else {
        percent_encoded(bytes.drop_last()) + seq![
            '%',
            hex_digit(bytes.last() as int / 16),
            hex_digit(bytes.last() as int % 16),
        ]
    }
}

/// Calls `urlencoding::encode`: the percent-encoding of the UTF-8 bytes of
/// the text.
#[verifier::external_body]
fn url_encode(text: &str) -> (r: String)
    ensures
        r@ == percent_encoded(text.spec_bytes()),
{
    urlencoding::encode(text).into_owned()
}

/// The path of the quota endpoint.
pub open spec fn quota_limit_path() -> Seq<char> {
    "/api/monitor/usage/quota/limit"@
}

/// The path of the model performance endpoint.
pub open spec fn model_performance_path() -> Seq<char> {
    "/api/monitor/usage/model-performance"@
}

/// Whether a base URL parses as an absolute URL with a host.
pub open spec fn has_origin(base_url: Seq<char>) -> bool {
    url_scheme_and_host(base_url) matches Some((_, Some(_)))
}

/// Scheme and host of a base URL, joined as `scheme://host`.
pub open spec fn origin_text(base_url: Seq<char>) -> Seq<char>
    recommends
        has_origin(base_url),
{
    match url_scheme_and_host(base_url) {
        Some((scheme, Some(host))) => scheme + "://"@ + host,
        _ => Seq::empty(),
    }
}

/// The query that asks for the performance between two times.
pub open spec fn time_range_query(start_time: Seq<u8>, end_time: Seq<u8>) -> Seq<char> {
    "?startTime="@ + percent_encoded(start_time) + "&endTime="@ + percent_encoded(end_time)
}

impl GlmApiConfig {
    /// Scheme and host of the base URL, joined as `scheme://host`; nothing
    /// when the base URL does not parse or has no host.
    pub fn origin(&self) -> (r: Option<String>)
        ensures
            match r {
                Some(origin) => has_origin(self.base_url@) && origin@ == origin_text(
                    self.base_url@,
                ),
                None => !has_origin(self.base_url@),
            },
    {
        match parse_scheme_and_host(self.base_url.as_str()) {
            Some((scheme, Some(host))) => {
                let mut origin = scheme;
                origin.append("://");
                origin.append(host.as_str());
                Some(origin)
            },
            _ => None,
        }
    }

    /// The URL of the quota endpoint of a base URL that has an origin.
    pub fn quota_limit_url(&self) -> (r: String)
        requires
            has_origin(self.base_url@),
        ensures
            r@ == origin_text(self.base_url@) + quota_limit_path(),
    {
        let mut url = match self.origin() {
            Some(origin) => origin,
            None => String::new(),
        };
        url.append("/api/monitor/usage/quota/limit");
        url
    }

    /// The URL of the model performance endpoint of a base URL that has an
    /// origin.
    pub fn model_performance_url(&self) -> (r: String)
        requires
            has_origin(self.base_url@),
        ensures
            r@ == origin_text(self.base_url@) + model_performance_path(),
    {
        let mut url = match self.origin() {
            Some(origin) => origin,
            None => String::new(),
        };
        url.append("/api/monitor/usage/model-performance");
        url
    }

    /// The URL of the quota endpoint; nothing when the base URL has no
    /// origin.
    pub fn checked_quota_limit_url(&self) -> (r: Option<String>)
        ensures
            match r {
                Some(url) => has_origin(self.base_url@) && url@ == origin_text(self.base_url@)
                    + quota_limit_path(),
                None => !has_origin(self.base_url@),
            },
    {
        if self.origin().is_some() {
            Some(self.quota_limit_url())
        } else {
            None
        }
    }

    /// The URL that asks the model performance endpoint for the time between
    /// `start_time` and `end_time`; nothing when the base URL has no origin.
    pub fn model_performance_query(&self, start_time: &str, end_time: &str) -> (r: Option<String>)
        ensures
            match r {
                Some(url) => has_origin(self.base_url@) && url@ == origin_text(self.base_url@)
                    + model_performance_path() + time_range_query(
                    start_time.spec_bytes(),
                    end_time.spec_bytes(),
                ),
                None => !has_origin(self.base_url@),
            },
    {
        if self.origin().is_some() {
            let mut url = self.model_performance_url();
            url.append("?startTime=");
            url.append(url_encode(start_time).as_str());
            url.append("&endTime=");
            url.append(url_encode(end_time).as_str());
            assert(url@ =~= origin_text(self.base_url@) + model_performance_path()
                + time_range_query(start_time.spec_bytes(), end_time.spec_bytes()));
            Some(url)
        } else {
            None
        }
    }
}

} // verus!
