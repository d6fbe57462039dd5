//! The quota indicator: a progress bar over the token quota, the time to its
//! reset, and the monthly tool quota beside it.

use vstd::prelude::*;
use vstd::string::StringExecFns;
use crate::api::countdown_text;
use crate::api::format_reset_time_at;
use crate::api::plan_of_usage;
use crate::api::platform_of;
use crate::api::GlmPlan;
use crate::api::GlmPlatform;
use crate::api::QuotaLimitItem;
use crate::config::InputData;
use crate::config::SegmentId;
use crate::fixed::one_decimal_text;
use crate::fixed::push_one_decimal;
use crate::fixed::push_whole;
use crate::fixed::whole_text;
use crate::segments::placeholder_view;
use crate::segments::Segment;
use crate::segments::SegmentData;
use crate::segments::SegmentDataView;
use crate::text::contains_text;
use crate::text::push_repeated;
use crate::text::push_signed_decimal;
use crate::text::repeated;
use crate::text::signed_decimal_text;
use crate::text::str_contains;

verus! {

/// The number of cells of a progress bar.
pub const BAR_LENGTH: usize = 10;

/// The escape sequence that ends a colored run.
pub open spec fn reset_code() -> Seq<char> {
    "\x1b[0m"@
}

/// The tone of a quota: soft green up to 50 %, soft amber up to 80 %, soft
/// red above. The percentage is in thousandths of a percent.
pub open spec fn status_color_code(percentage: int) -> Seq<char> {
    if percentage <= 50_000 {
        "\x1b[38;5;114m"@
    } else if percentage <= 80_000 {
        "\x1b[38;5;179m"@
    } else {
        "\x1b[38;5;167m"@
    }
}

/// The number of filled cells for a percentage in thousandths of a percent:
/// a tenth of the percentage, rounded to the nearest cell with a half going
/// up, and kept within the bar.
pub open spec fn filled_cells(percentage: int) -> nat {
    if percentage < 5_000 {
        0
    } else if percentage >= 95_000 {
        10
    } else {
        ((percentage + 5_000) / 10_000) as nat
    }
}

/// The colored bar of a percentage: filled cells, then empty ones.
pub open spec fn progress_bar_text(percentage: int) -> Seq<char> {
    status_color_code(percentage) + repeated("▓"@, filled_cells(percentage)) + repeated(
        "░"@,
        (10 - filled_cells(percentage)) as nat,
    ) + reset_code()
}

/// A percentage written without decimals, with its sign.
pub open spec fn percentage_text(percentage: int) -> Seq<char> {
    whole_text(percentage) + "%"@
}

/// The name an operator is shown under.
pub open spec fn platform_name(platform: GlmPlatform) -> Seq<char> {
    match platform {
        GlmPlatform::ZAI => "Z.ai"@,
        GlmPlatform::ZHIPU => "智谱"@,
    }
}

/// Whether a quota of this type counts tokens.
pub open spec fn is_tokens_kind(limit_type: Seq<char>) -> bool {
    limit_type == "TOKENS_LIMIT"@ || contains_text(limit_type, "TOKENS"@)
}

/// Whether a quota of this type counts tool time.
pub open spec fn is_time_kind(limit_type: Seq<char>) -> bool {
    limit_type == "TIME_LIMIT"@ || contains_text(limit_type, "TIME"@)
}

/// The position of the first quota from `start` on whose type `wanted`
/// accepts.
pub open spec fn first_limit_from(
    limits: Seq<QuotaLimitItem>,
    wanted: spec_fn(Seq<char>) -> bool,
    start: int,
) -> Option<int>
    decreases limits.len() - start,
{
    if start < 0 || start >= limits.len() {
        None
    } else if wanted(limits[start].limit_type@) {
        Some(start)
    } else {
        first_limit_from(limits, wanted, start + 1)
    }
}

/// The position of the first token quota.
pub open spec fn tokens_limit_index(limits: Seq<QuotaLimitItem>) -> Option<int> {
    first_limit_from(limits, |t: Seq<char>| is_tokens_kind(t), 0)
}

/// The position of the first tool-time quota.
pub open spec fn time_limit_index(limits: Seq<QuotaLimitItem>) -> Option<int> {
    first_limit_from(limits, |t: Seq<char>| is_time_kind(t), 0)
}

/// The text after the percentage: the countdown to the reset, if one is
/// known.
pub open spec fn reset_suffix(next_reset_time: Option<i64>, now_ms: i64) -> Seq<char> {
    match next_reset_time {
        Some(at) => " 🔄 "@ + countdown_text(at, now_ms),
        None => Seq::empty(),
    }
}

/// The metadata of a result led by the token quota.
pub open spec fn tokens_metadata(
    platform: GlmPlatform,
    tokens: QuotaLimitItem,
    time: Option<QuotaLimitItem>,
) -> Map<Seq<char>, Seq<char>> {
    let base = Map::<Seq<char>, Seq<char>>::empty().insert("platform"@, platform_name(platform))
        .insert("tokens_percentage"@, one_decimal_text(tokens.percentage as int));
    let with_plan = match tokens.usage {
        Some(usage) => base.insert("plan"@, plan_of_usage(usage as int).name_text()),
        None => base,
    };
    let with_reset = match tokens.next_reset_time {
        Some(at) => with_plan.insert("next_reset_time"@, signed_decimal_text(at as int)),
        None => with_plan,
    };
    match time {
        Some(t) => with_reset.insert("time_percentage"@, one_decimal_text(t.percentage as int)),
        None => with_reset,
    }
}

/// The result led by the token quota: bar, percentage and countdown; the
/// tool-time quota, if there is one, as secondary text.
pub open spec fn tokens_view(
    platform: GlmPlatform,
    tokens: QuotaLimitItem,
    time: Option<QuotaLimitItem>,
    now_ms: i64,
) -> SegmentDataView {
    SegmentDataView {
        primary: progress_bar_text(tokens.percentage as int) + " "@ + percentage_text(
            tokens.percentage as int,
        ) + reset_suffix(tokens.next_reset_time, now_ms),
        secondary: match time {
            Some(t) => "MCP "@ + percentage_text(t.percentage as int),
            None => Seq::empty(),
        },
        metadata: tokens_metadata(platform, tokens, time),
    }
}

/// The result when only a tool-time quota is known.
pub open spec fn time_view(platform: GlmPlatform, time: QuotaLimitItem) -> SegmentDataView {
    SegmentDataView {
        primary: platform_name(platform) + " MCP "@ + progress_bar_text(time.percentage as int)
            + " "@ + percentage_text(time.percentage as int),
        secondary: Seq::empty(),
        metadata: Map::<Seq<char>, Seq<char>>::empty().insert("platform"@, platform_name(platform))
            .insert("time_percentage"@, one_decimal_text(time.percentage as int)),
    }
}

/// The result when no quota of either kind is known.
pub open spec fn no_data_view(platform: GlmPlatform) -> SegmentDataView {
    SegmentDataView {
        primary: platform_name(platform) + " 暂无数据"@,
        secondary: Seq::empty(),
        metadata: Map::<Seq<char>, Seq<char>>::empty().insert("platform"@, platform_name(platform)),
    }
}

/// The result for the quotas of an account: the first token quota leads; else
/// the first tool-time quota; else a notice that there is nothing to show.
pub open spec fn quota_view(platform: GlmPlatform, limits: Seq<QuotaLimitItem>, now_ms: i64)
    -> SegmentDataView {
    let time = match time_limit_index(limits) {
        Some(j) => Some(limits[j]),
        None => None,
    };
    match tokens_limit_index(limits) {
        Some(i) => tokens_view(platform, limits[i], time, now_ms),
        None => match time {
            Some(t) => time_view(platform, t),
            None => no_data_view(platform),
        },
    }
}

/// What the quota indicator shows for an input: a notice when no GLM
/// endpoint is set up, another while the quotas are not at hand, else the
/// quotas.
pub open spec fn glm_usage_view(input: InputData) -> SegmentDataView {
    match input.glm {
        None => placeholder_view("未配置 GLM"@),
        Some(config) => match input.quota {
            None => placeholder_view("⏳ 获取中..."@),
            Some(quota) => quota_view(platform_of(config.base_url@), quota.limits@, input.now_ms),
        },
    }
}

/// For a percentage from 0 to 100, the filled cells of a bar are a tenth of
/// the percentage rounded to the nearest cell, a half going up.
pub proof fn lemma_filled_cells_round(percentage: int)
    requires
        0 <= percentage <= 100_000,
    ensures
        filled_cells(percentage) <= 10,
        filled_cells(percentage) * 10_000 - 5_000 <= percentage < filled_cells(percentage) * 10_000
            + 5_000,
{
}

/// Whatever the percentage, the cells between the color and the reset code
/// are ten: the filled ones and the empty ones together.
pub proof fn lemma_bar_has_ten_cells(percentage: int)
    ensures
        filled_cells(percentage) <= 10,
        (repeated("▓"@, filled_cells(percentage)) + repeated(
            "░"@,
            (10 - filled_cells(percentage)) as nat,
        )).len() == 10,
{
    reveal_strlit("▓");
    reveal_strlit("░");
    let filled = filled_cells(percentage);
    crate::text::lemma_repeated_len("▓"@, filled);
    crate::text::lemma_repeated_len("░"@, (10 - filled) as nat);
}

/// The tone of a quota, as an escape sequence.
pub fn get_status_color(percentage: i64) -> (r: &'static str)
    ensures
        r@ == status_color_code(percentage as int),
{
    if percentage <= 50_000 {
        "\x1b[38;5;114m"
    } else if percentage <= 80_000 {
        "\x1b[38;5;179m"
    } else {
        "\x1b[38;5;167m"
    }
}

/// The numbers of filled and of empty cells of a bar.
pub fn bar_cells(percentage: i64) -> (r: (usize, usize))
    ensures
        r.0 == filled_cells(percentage as int),
        r.0 + r.1 == BAR_LENGTH,
{
    let filled: usize = if percentage < 5_000 {
        0
    } else if percentage >= 95_000 {
        BAR_LENGTH
    } else {
        ((percentage + 5_000) / 10_000) as usize
    };
    (filled, BAR_LENGTH - filled)
}

/// Appends the colored bar of a percentage.
pub fn push_progress_bar(out: &mut String, percentage: i64)
    ensures
        final(out)@ == old(out)@ + progress_bar_text(percentage as int),
{
    let (filled, empty) = bar_cells(percentage);
    out.append(get_status_color(percentage));
    push_repeated(out, "▓", filled);
    push_repeated(out, "░", empty);
    out.append("\x1b[0m");
    assert(out@ =~= old(out)@ + progress_bar_text(percentage as int));
}

/// Appends a percentage written without decimals.
pub fn push_percentage(out: &mut String, percentage: i64)
    ensures
        final(out)@ == old(out)@ + percentage_text(percentage as int),
{
    push_whole(out, percentage);
    out.append("%");
    assert(out@ =~= old(out)@ + percentage_text(percentage as int));
}

/// A percentage written without decimals.
pub fn format_percentage(percentage: i64) -> (r: String)
    ensures
        r@ == percentage_text(percentage as int),
{
    let mut out = String::new();
    push_percentage(&mut out, percentage);
    assert(out@ =~= percentage_text(percentage as int));
    out
}

/// A quantity of thousandths written with one decimal.
pub fn format_one_decimal(milli: i64) -> (r: String)
    ensures
        r@ == one_decimal_text(milli as int),
{
    let mut out = String::new();
    push_one_decimal(&mut out, milli);
    assert(out@ =~= one_decimal_text(milli as int));
    out
}

/// The name an operator is shown under.
pub fn platform_label(platform: GlmPlatform) -> (r: &'static str)
    ensures
        r@ == platform_name(platform),
{
    match platform {
        GlmPlatform::ZAI => "Z.ai",
        GlmPlatform::ZHIPU => "智谱",
    }
}

/// A text that is `TOKENS_LIMIT` holds `TOKENS`, and one that is `TIME_LIMIT`
/// holds `TIME`.
proof fn lemma_full_names_hold_their_stem()
    ensures
        contains_text("TOKENS_LIMIT"@, "TOKENS"@),
        contains_text("TIME_LIMIT"@, "TIME"@),
{
    reveal_strlit("TOKENS_LIMIT");
    reveal_strlit("TOKENS");
    reveal_strlit("TIME_LIMIT");
    reveal_strlit("TIME");
    assert("TOKENS_LIMIT"@.subrange(0, 0int + "TOKENS"@.len()) =~= "TOKENS"@);
    assert("TIME_LIMIT"@.subrange(0, 0int + "TIME"@.len()) =~= "TIME"@);
}

/// Whether a quota of this type counts tokens.
pub fn is_tokens_limit(limit_type: &str) -> (r: bool)
    ensures
        r == is_tokens_kind(limit_type@),
{
    proof {
        lemma_full_names_hold_their_stem();
    }
    str_contains(limit_type, "TOKENS")
}

/// Whether a quota of this type counts tool time.
pub fn is_time_limit(limit_type: &str) -> (r: bool)
    ensures
        r == is_time_kind(limit_type@),
{
    proof {
        lemma_full_names_hold_their_stem();
    }
    str_contains(limit_type, "TIME")
}

/// The position of the first token quota.
pub fn find_tokens_limit(limits: &Vec<QuotaLimitItem>) -> (r: Option<usize>)
    ensures
        match r {
            Some(i) => tokens_limit_index(limits@) == Some(i as int) && i < limits@.len(),
            None => tokens_limit_index(limits@) is None,
        },
{
    let ghost wanted = |t: Seq<char>| is_tokens_kind(t);
    let mut i: usize = 0;
    while i < limits.len()
        invariant
            i <= limits.len(),
            wanted == (|t: Seq<char>| is_tokens_kind(t)),
            tokens_limit_index(limits@) == first_limit_from(limits@, wanted, i as int),
        decreases limits.len() - i,
    {
        if is_tokens_limit(limits[i].limit_type.as_str()) {
            assert(wanted(limits@[i as int].limit_type@));
            return Some(i);
        }
        assert(!wanted(limits@[i as int].limit_type@));
        i += 1;
    }
    None
}

/// The position of the first tool-time quota.
pub fn find_time_limit(limits: &Vec<QuotaLimitItem>) -> (r: Option<usize>)
    ensures
        match r {
            Some(i) => time_limit_index(limits@) == Some(i as int) && i < limits@.len(),
            None => time_limit_index(limits@) is None,
        },
{
    let ghost wanted = |t: Seq<char>| is_time_kind(t);
    let mut i: usize = 0;
    while i < limits.len()
        invariant
            i <= limits.len(),
            wanted == (|t: Seq<char>| is_time_kind(t)),
            time_limit_index(limits@) == first_limit_from(limits@, wanted, i as int),
        decreases limits.len() - i,
    {
        if is_time_limit(limits[i].limit_type.as_str()) {
            assert(wanted(limits@[i as int].limit_type@));
            return Some(i);
        }
        assert(!wanted(limits@[i as int].limit_type@));
        i += 1;
    }
    None
}

/// The result led by the token quota.
fn tokens_data(
    platform: GlmPlatform,
    tokens: &QuotaLimitItem,
    time: Option<&QuotaLimitItem>,
    now_ms: i64,
) -> (r: SegmentData)
    ensures
        r@ == tokens_view(
            platform,
            *tokens,
            match time {
                Some(t) => Some(*t),
                None => None,
            },
            now_ms,
        ),
{
    let mut data = SegmentData::placeholder("");
    data.insert_metadata("platform", platform_label(platform).to_owned());
    data.insert_metadata("tokens_percentage", format_one_decimal(tokens.percentage));
    if let Some(usage) = tokens.usage {
        let detected_plan = GlmPlan::from_token_usage(usage);
        data.insert_metadata("plan", detected_plan.name().to_owned());
    }
    let mut primary = String::new();
    push_progress_bar(&mut primary, tokens.percentage);
    primary.append(" ");
    push_percentage(&mut primary, tokens.percentage);
    if let Some(reset_at) = tokens.next_reset_time {
        let mut stamp = String::new();
        push_signed_decimal(&mut stamp, reset_at);
        assert(stamp@ =~= signed_decimal_text(reset_at as int));
        data.insert_metadata("next_reset_time", stamp);
        let formatted = format_reset_time_at(reset_at, now_ms);
        primary.append(" 🔄 ");
        primary.append(formatted.as_str());
    }
    let mut secondary = String::new();
    if let Some(t) = time {
        data.insert_metadata("time_percentage", format_one_decimal(t.percentage));
        secondary.append("MCP ");
        push_percentage(&mut secondary, t.percentage);
    }
    data.primary = primary;
    data.secondary = secondary;
    proof {
        let ghost want = tokens_view(
            platform,
            *tokens,
            match time {
                Some(t) => Some(*t),
                None => None,
            },
            now_ms,
        );
        assert(data@.primary =~= want.primary);
        assert(data@.secondary =~= want.secondary);
        assert(data@.metadata =~= want.metadata);
    }
    data
}

/// The result when only a tool-time quota is known.
fn time_data(platform: GlmPlatform, time: &QuotaLimitItem) -> (r: SegmentData)
    ensures
        r@ == time_view(platform, *time),
{
    let mut data = SegmentData::placeholder("");
    data.insert_metadata("platform", platform_label(platform).to_owned());
    data.insert_metadata("time_percentage", format_one_decimal(time.percentage));
    let mut primary = String::new();
    primary.append(platform_label(platform));
    primary.append(" MCP ");
    push_progress_bar(&mut primary, time.percentage);
    primary.append(" ");
    push_percentage(&mut primary, time.percentage);
    data.primary = primary;
    proof {
        let ghost want = time_view(platform, *time);
        assert(data@.primary =~= want.primary);
        assert(data@.metadata =~= want.metadata);
    }
    data
}

/// The result for the quotas of an account.
pub fn quota_data(platform: GlmPlatform, limits: &Vec<QuotaLimitItem>, now_ms: i64) -> (r:
    SegmentData)
    ensures
        r@ == quota_view(platform, limits@, now_ms),
{
    let tokens_at = find_tokens_limit(limits);
    let time_at = find_time_limit(limits);
    let time: Option<&QuotaLimitItem> = match time_at {
        Some(j) => Some(&limits[j]),
        None => None,
    };
    match tokens_at {
        Some(i) => tokens_data(platform, &limits[i], time, now_ms),
        None => match time {
            Some(t) => time_data(platform, t),
            None => {
                let mut data = SegmentData::placeholder("");
                data.insert_metadata("platform", platform_label(platform).to_owned());
                let mut primary = String::new();
                primary.append(platform_label(platform));
                primary.append(" 暂无数据");
                data.primary = primary;
                proof {
                    let ghost want = no_data_view(platform);
                    assert(data@.primary =~= want.primary);
                    assert(data@.metadata =~= want.metadata);
                }
                data
            },
        },
    }
}

/// The collector of the quota indicator.
#[derive(Debug, Clone, Copy)]
pub struct GlmUsageSegment;

impl GlmUsageSegment {
    /// The collector.
    pub fn new() -> (r: Self) {
        GlmUsageSegment
    }
}

impl Segment for GlmUsageSegment {
    /// Always some data: the quotas, or a notice that says why there are none.
    fn collect(&self, input: &InputData) -> (r: Option<SegmentData>)
        ensures
            r matches Some(data) && data@ == glm_usage_view(*input),
    {
        let api_config = match &input.glm {
            Some(config) => config,
            None => {
                return Some(SegmentData::placeholder("未配置 GLM"));
            },
        };
        let platform = api_config.platform();
        let quota = match &input.quota {
            Some(quota) => quota,
            None => {
                return Some(SegmentData::placeholder("⏳ 获取中..."));
            },
        };
        Some(quota_data(platform, &quota.limits, input.now_ms))
    }

    fn id(&self) -> (r: SegmentId)
        ensures
            r == SegmentId::GlmUsage,
    {
        SegmentId::GlmUsage
    }
}

} // verus!
