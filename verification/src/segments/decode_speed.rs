//! The decode-speed indicator: the current speed, its trend and a sparkline
//! of the recent samples.

use vstd::prelude::*;
use vstd::string::StringExecFns;
use vstd::arithmetic::div_mod::lemma_div_is_ordered;
use vstd::arithmetic::div_mod::lemma_div_pos_is_pos;
use crate::api::plan_of_usage;
use crate::api::GlmPlan;
use crate::api::GlmQuotaLimit;
use crate::api::QuotaLimitItem;
use crate::config::InputData;
use crate::config::SegmentId;
use crate::fixed::one_decimal_text;
use crate::fixed::push_tenths;
use crate::fixed::push_whole;
use crate::fixed::round_half_even;
use crate::fixed::round_half_even_exec;
use crate::fixed::tenths_numeral;
use crate::fixed::whole_text;
use crate::segments::glm_usage::format_one_decimal;
use crate::segments::glm_usage::is_tokens_kind;
use crate::segments::glm_usage::is_tokens_limit;
use crate::segments::glm_usage::reset_code;
use crate::segments::placeholder_view;
use crate::segments::Segment;
use crate::segments::SegmentData;
use crate::segments::SegmentDataView;

verus! {

/// How many of the latest samples the indicator looks at.
pub const WINDOW_LENGTH: usize = 5;

/// The highest sparkline level; levels run from 0, a blank, to this, a full
/// block.
pub const TOP_LEVEL: usize = 8;

/// The level of a window in which all samples are equal.
pub const MID_LEVEL: usize = 4;

/// The direction a window of samples is heading in.
#[derive(Debug, Clone, Copy, PartialEq, Eq, Structural)]
pub enum Trend {
    Rising,
    Falling,
    Steady,
}

/// The smallest sample of a window that is not empty.
pub open spec fn window_min(samples: Seq<i64>) -> int
    decreases samples.len(),
{
    if samples.len() <= 1 {
        samples[0] as int
    } else if samples.last() < window_min(samples.drop_last()) {
        samples.last() as int
    } else {
        window_min(samples.drop_last())
    }
}

/// The largest sample of a window that is not empty.
pub open spec fn window_max(samples: Seq<i64>) -> int
    decreases samples.len(),
{
    if samples.len() <= 1 {
        samples[0] as int
    } else if samples.last() > window_max(samples.drop_last()) {
        samples.last() as int
    } else {
        window_max(samples.drop_last())
    }
}

/// The level of a sample between the bounds `lo` and `hi` of its window: its
/// place on the way from `lo` to `hi`, in eighths, rounded to the nearest
/// level with a half going up; the middle level when the bounds coincide.
pub open spec fn spark_level(sample: int, lo: int, hi: int) -> int {
    if hi <= lo {
        4
    } else {
        (16 * (sample - lo) + (hi - lo)) / (2 * (hi - lo))
    }
}

/// The block glyph of a level.
pub open spec fn spark_glyph(level: int) -> Seq<char> {
    if level <= 0 {
        " "@
    } else if level == 1 {
        "▁"@
    } else if level == 2 {
        "▂"@
    } else if level == 3 {
        "▃"@
    } else if level == 4 {
        "▄"@
    } else if level == 5 {
        "▅"@
    } else if level == 6 {
        "▆"@
    } else if level == 7 {
        "▇"@
    } else {
        "█"@
    }
}

/// The glyphs of the first `n` samples, each placed between `lo` and `hi`.
pub open spec fn spark_cells(samples: Seq<i64>, lo: int, hi: int, n: nat) -> Seq<char>
    decreases n,
{
    if n == 0 {
        Seq::empty()
    } else {
        spark_cells(samples, lo, hi, (n - 1) as nat) + spark_glyph(
            spark_level(samples[n - 1] as int, lo, hi),
        )
    }
}

/// The sparkline of a window: one glyph per sample, placed between the
/// smallest and the largest sample; `N/A` for an empty window.
pub open spec fn sparkline_text(samples: Seq<i64>) -> Seq<char> {
    if samples.len() == 0 {
        "N/A"@
    } else {
        spark_cells(samples, window_min(samples), window_max(samples), samples.len())
    }
}

/// The last samples of a series, at most `WINDOW_LENGTH` of them, in order.
pub open spec fn recent_window(samples: Seq<i64>) -> Seq<i64> {
    if samples.len() <= 5 {
        samples
    } else {
        samples.subrange(samples.len() - 5, samples.len() as int)
    }
}

/// The trend of a window: rising when the last sample is more than 5 % above
/// the first, falling when it is more than 5 % below, else steady; steady
/// for fewer than two samples.
pub open spec fn trend_of(window: Seq<i64>) -> Trend {
    if window.len() < 2 {
        Trend::Steady
    } else if window.last() * 100 > window.first() * 105 {
        Trend::Rising
    } else if window.last() * 100 < window.first() * 95 {
        Trend::Falling
    } else {
        Trend::Steady
    }
}

/// The arrow of a trend.
pub open spec fn trend_glyph(trend: Trend) -> Seq<char> {
    match trend {
        Trend::Rising => "↗"@,
        Trend::Falling => "↘"@,
        Trend::Steady => "→"@,
    }
}

/// A speed as shown: in thousands with one decimal and a `k` from 1000 on,
/// else without decimals. The speed is in thousandths.
pub open spec fn speed_text(speed: int) -> Seq<char> {
    if speed >= 1_000_000 {
        tenths_numeral(round_half_even(speed as nat, 100_000)) + "k"@
    } else {
        whole_text(speed)
    }
}

/// The tier found in a list of quotas from `start` on: that of the first
/// token quota that states its size, else `Unknown`.
pub open spec fn plan_from(limits: Seq<QuotaLimitItem>, start: int) -> GlmPlan
    decreases limits.len() - start,
{
    if start < 0 || start >= limits.len() {
        GlmPlan::Unknown
    } else if is_tokens_kind(limits[start].limit_type@) && limits[start].usage is Some {
        plan_of_usage(limits[start].usage->0 as int)
    } else {
        plan_from(limits, start + 1)
    }
}

/// The tier of an account: `Unknown` when its quotas are not at hand.
pub open spec fn detected_plan(quota: Option<GlmQuotaLimit>) -> GlmPlan {
    match quota {
        Some(q) => plan_from(q.limits@, 0),
        None => GlmPlan::Unknown,
    }
}

/// The latest sample of a window, zero for an empty one.
pub open spec fn current_speed(window: Seq<i64>) -> int {
    if window.len() == 0 {
        0
    } else {
        window.last() as int
    }
}

/// The result for a tier and its series of speeds.
pub open spec fn speed_view(plan: GlmPlan, speeds: Seq<i64>) -> SegmentDataView {
    let window = recent_window(speeds);
    SegmentDataView {
        primary: plan.name_text() + " "@ + trend_glyph(trend_of(window)) + speed_text(
            current_speed(window),
        ) + "t/s "@ + "\x1b[38;5;214m"@ + sparkline_text(window) + reset_code(),
        secondary: Seq::empty(),
        metadata: Map::<Seq<char>, Seq<char>>::empty().insert("plan"@, plan.name_text()).insert(
            "current_speed"@,
            one_decimal_text(current_speed(window)),
        ).insert("sparkline"@, sparkline_text(window)),
    }
}

/// What the decode-speed indicator shows for an input: a notice when no GLM
/// endpoint is set up, another while the performance data is not at hand,
/// else the speeds of the account's tier, those of Pro and Max unless the
/// tier is Lite.
pub open spec fn decode_speed_view(input: InputData) -> SegmentDataView {
    match input.glm {
        None => placeholder_view("未配置 GLM"@),
        Some(_) => match input.performance {
            None => placeholder_view("⏳ 获取中..."@),
            Some(performance) => {
                let plan = detected_plan(input.quota);
                speed_view(
                    plan,
                    if plan == GlmPlan::Lite {
                        performance.lite_decode_speed@
                    } else {
                        performance.pro_max_decode_speed@
                    },
                )
            },
        },
    }
}

/// Every sample of a window lies between its smallest and its largest.
pub proof fn lemma_window_bounds(samples: Seq<i64>, i: int)
    requires
        0 <= i < samples.len(),
    ensures
        window_min(samples) <= samples[i] <= window_max(samples),
    decreases samples.len(),
{
    if samples.len() > 1 {
        let rest = samples.drop_last();
        if i < rest.len() {
            assert(rest[i] == samples[i]);
            lemma_window_bounds(rest, i);
        } else {
            lemma_window_bounds(rest, 0);
        }
    }
}

/// A window of equal samples has equal bounds.
pub proof fn lemma_constant_window(samples: Seq<i64>)
    requires
        samples.len() > 0,
        forall|i: int| 0 <= i < samples.len() ==> #[trigger] samples[i] == samples[0],
    ensures
        window_min(samples) == samples[0],
        window_max(samples) == samples[0],
    decreases samples.len(),
{
    if samples.len() > 1 {
        let rest = samples.drop_last();
        assert forall|i: int| 0 <= i < rest.len() implies #[trigger] rest[i] == rest[0] by {
            assert(rest[i] == samples[i]);
            assert(rest[0] == samples[0]);
        }
        lemma_constant_window(rest);
    }
}

/// A sample between the bounds has a level from 0 to 8.
pub proof fn lemma_spark_level_range(sample: int, lo: int, hi: int)
    requires
        lo <= sample <= hi,
    ensures
        0 <= spark_level(sample, lo, hi) <= 8,
{
    if hi > lo {
        let num = 16 * (sample - lo) + (hi - lo);
        let den = 2 * (hi - lo);
        lemma_div_pos_is_pos(num, den);
        assert(num < 9 * den);
        assert(num / den < 9) by (nonlinear_arith)
            requires
                0 <= num < 9 * den,
                den > 0,
        ;
    }
}

/// Between the same bounds, a larger sample never has a lower level.
pub proof fn lemma_spark_level_monotonic(a: int, b: int, lo: int, hi: int)
    requires
        a <= b,
    ensures
        spark_level(a, lo, hi) <= spark_level(b, lo, hi),
{
    if hi > lo {
        lemma_div_is_ordered(16 * (a - lo) + (hi - lo), 16 * (b - lo) + (hi - lo), 2 * (hi - lo));
    }
}

/// Within one window, the level of a sample is between 0 and 8 and never
/// falls as the sample grows.
pub proof fn lemma_sparkline_levels(samples: Seq<i64>, i: int, j: int)
    requires
        0 <= i < samples.len(),
        0 <= j < samples.len(),
        samples[i] <= samples[j],
    ensures
        0 <= spark_level(samples[i] as int, window_min(samples), window_max(samples))
            <= spark_level(samples[j] as int, window_min(samples), window_max(samples)) <= 8,
{
    lemma_window_bounds(samples, i);
    lemma_window_bounds(samples, j);
    let lo = window_min(samples);
    let hi = window_max(samples);
    lemma_spark_level_range(samples[i] as int, lo, hi);
    lemma_spark_level_range(samples[j] as int, lo, hi);
    lemma_spark_level_monotonic(samples[i] as int, samples[j] as int, lo, hi);
}

/// The sparkline of a window of equal samples is the middle glyph, once per
/// sample.
pub proof fn lemma_constant_sparkline(samples: Seq<i64>)
    requires
        samples.len() > 0,
        forall|i: int| 0 <= i < samples.len() ==> #[trigger] samples[i] == samples[0],
    ensures
        sparkline_text(samples) == crate::text::repeated("▄"@, samples.len()),
{
    lemma_constant_window(samples);
    let lo = window_min(samples);
    let hi = window_max(samples);
    lemma_constant_cells(samples, lo, hi, samples.len());
}

proof fn lemma_constant_cells(samples: Seq<i64>, lo: int, hi: int, n: nat)
    requires
        hi <= lo,
        n <= samples.len(),
    ensures
        spark_cells(samples, lo, hi, n) == crate::text::repeated("▄"@, n),
    decreases n,
{
    if n > 0 {
        lemma_constant_cells(samples, lo, hi, (n - 1) as nat);
    }
}

/// The smallest and the largest sample of a window that is not empty.
pub fn window_bounds(samples: &Vec<i64>) -> (r: (i64, i64))
    requires
        samples@.len() > 0,
    ensures
        r.0 == window_min(samples@),
        r.1 == window_max(samples@),
{
    let mut lo: i64 = samples[0];
    let mut hi: i64 = samples[0];
    let mut i: usize = 1;
    assert(samples@.take(1).len() == 1);
    while i < samples.len()
        invariant
            1 <= i <= samples.len(),
            lo == window_min(samples@.take(i as int)),
            hi == window_max(samples@.take(i as int)),
        decreases samples.len() - i,
    {
        let ghost next = samples@.take(i + 1);
        assert(next.drop_last() =~= samples@.take(i as int));
        assert(next.last() == samples@[i as int]);
        if samples[i] < lo {
            lo = samples[i];
        }
        if samples[i] > hi {
            hi = samples[i];
        }
        i += 1;
    }
    assert(samples@.take(i as int) =~= samples@);
    (lo, hi)
}

/// The level of a sample between the bounds of its window.
pub fn level_of(sample: i64, lo: i64, hi: i64) -> (r: usize)
    requires
        lo <= sample <= hi,
    ensures
        r == spark_level(sample as int, lo as int, hi as int),
        r <= TOP_LEVEL,
{
    if hi <= lo {
        return MID_LEVEL;
    }
    let span: i128 = hi as i128 - lo as i128;
    let offset: i128 = sample as i128 - lo as i128;
    let num: i128 = 16 * offset + span;
    let den: i128 = 2 * span;
    proof {
        lemma_spark_level_range(sample as int, lo as int, hi as int);
    }
    (num / den) as usize
}

/// The block glyph of a level.
pub fn glyph_of(level: usize) -> (r: &'static str)
    ensures
        r@ == spark_glyph(level as int),
{
    match level {
        0 => " ",
        1 => "▁",
        2 => "▂",
        3 => "▃",
        4 => "▄",
        5 => "▅",
        6 => "▆",
        7 => "▇",
        _ => "█",
    }
}

/// The sparkline of a window.
pub fn generate_sparkline(speeds: &Vec<i64>) -> (r: String)
    ensures
        r@ == sparkline_text(speeds@),
{
    if speeds.len() == 0 {
        return String::from_str("N/A");
    }
    let (lo, hi) = window_bounds(speeds);
    let mut out = String::new();
    let mut i: usize = 0;
    assert(out@ =~= spark_cells(speeds@, lo as int, hi as int, 0));
    while i < speeds.len()
        invariant
            i <= speeds.len(),
            lo == window_min(speeds@),
            hi == window_max(speeds@),
            out@ == spark_cells(speeds@, lo as int, hi as int, i as nat),
        decreases speeds.len() - i,
    {
        proof {
            lemma_window_bounds(speeds@, i as int);
        }
        out.append(glyph_of(level_of(speeds[i], lo, hi)));
        i += 1;
    }
    out
}

/// The last samples of a series, at most `WINDOW_LENGTH` of them, in order.
pub fn latest_samples(speeds: &Vec<i64>) -> (r: Vec<i64>)
    ensures
        r@ == recent_window(speeds@),
{
    let start: usize = if speeds.len() > WINDOW_LENGTH {
        speeds.len() - WINDOW_LENGTH
    } else {
        0
    };
    let mut window: Vec<i64> = Vec::new();
    let mut i: usize = start;
    while i < speeds.len()
        invariant
            start <= i <= speeds.len(),
            window@ == speeds@.subrange(start as int, i as int),
        decreases speeds.len() - i,
    {
        window.push(speeds[i]);
        i += 1;
        assert(window@ =~= speeds@.subrange(start as int, i as int));
    }
    assert(window@ =~= recent_window(speeds@));
    window
}

/// The trend of a window.
pub fn classify_trend(window: &Vec<i64>) -> (r: Trend)
    ensures
        r == trend_of(window@),
{
    if window.len() < 2 {
        return Trend::Steady;
    }
    let first: i128 = window[0] as i128;
    let last: i128 = window[window.len() - 1] as i128;
    if last * 100 > first * 105 {
        Trend::Rising
    } else if last * 100 < first * 95 {
        Trend::Falling
    } else {
        Trend::Steady
    }
}

/// The arrow of a trend.
pub fn trend_arrow(trend: Trend) -> (r: &'static str)
    ensures
        r@ == trend_glyph(trend),
{
    match trend {
        Trend::Rising => "↗",
        Trend::Falling => "↘",
        Trend::Steady => "→",
    }
}

/// A speed as shown.
pub fn format_speed(speed: i64) -> (r: String)
    ensures
        r@ == speed_text(speed as int),
{
    let mut out = String::new();
    if speed >= 1_000_000 {
        let tenths: u128 = round_half_even_exec(speed as u128, 100_000);
        push_tenths(&mut out, tenths);
        out.append("k");
    } else {
        push_whole(&mut out, speed);
    }
    assert(out@ =~= speed_text(speed as int));
    out
}

/// The tier of an account, from the quotas it has.
pub fn detect_plan(quota: &Option<GlmQuotaLimit>) -> (r: GlmPlan)
    ensures
        r == detected_plan(*quota),
{
    match quota {
        Some(q) => {
            let mut i: usize = 0;
            while i < q.limits.len()
                invariant
                    i <= q.limits.len(),
                    *quota == Some(*q),
                    plan_from(q.limits@, 0) == plan_from(q.limits@, i as int),
                decreases q.limits.len() - i,
            {
                let item = &q.limits[i];
                if is_tokens_limit(item.limit_type.as_str()) {
                    if let Some(usage) = item.usage {
                        assert(plan_from(q.limits@, i as int) == plan_of_usage(usage as int));
                        return GlmPlan::from_token_usage(usage);
                    }
                }
                i += 1;
            }
            GlmPlan::Unknown
        },
        None => GlmPlan::Unknown,
    }
}

/// The result for a tier and its series of speeds.
pub fn speed_data(plan: GlmPlan, speeds: &Vec<i64>) -> (r: SegmentData)
    ensures
        r@ == speed_view(plan, speeds@),
{
    let window = latest_samples(speeds);
    let current: i64 = if window.len() == 0 {
        0
    } else {
        window[window.len() - 1]
    };
    let sparkline = generate_sparkline(&window);
    let trend = classify_trend(&window);
    let mut data = SegmentData::placeholder("");
    data.insert_metadata("plan", plan.name().to_owned());
    data.insert_metadata("current_speed", format_one_decimal(current));
    data.insert_metadata("sparkline", sparkline.clone());
    let mut primary = String::new();
    primary.append(plan.name());
    primary.append(" ");
    primary.append(trend_arrow(trend));
    primary.append(format_speed(current).as_str());
    primary.append("t/s ");
    primary.append("\x1b[38;5;214m");
    primary.append(sparkline.as_str());
    primary.append("\x1b[0m");
    data.primary = primary;
    proof {
        let ghost want = speed_view(plan, speeds@);
        assert(data@.primary =~= want.primary);
        assert(data@.metadata =~= want.metadata);
    }
    data
}

/// The collector of the decode-speed indicator.
#[derive(Debug, Clone, Copy)]
pub struct DecodeSpeedSegment;

impl DecodeSpeedSegment {
    /// The collector.
    pub fn new() -> (r: Self) {
        DecodeSpeedSegment
    }
}

impl Segment for DecodeSpeedSegment {
    /// Always some data: the speeds, or a notice that says why there are none.
    fn collect(&self, input: &InputData) -> (r: Option<SegmentData>)
        ensures
            r matches Some(data) && data@ == decode_speed_view(*input),
    {
        if input.glm.is_none() {
            return Some(SegmentData::placeholder("未配置 GLM"));
        }
        let plan = detect_plan(&input.quota);
        let performance = match &input.performance {
            Some(data) => data,
            None => {
                return Some(SegmentData::placeholder("⏳ 获取中..."));
            },
        };
        let speeds = match plan {
            GlmPlan::Lite => &performance.lite_decode_speed,
            GlmPlan::Pro | GlmPlan::Max => &performance.pro_max_decode_speed,
            GlmPlan::Unknown => &performance.pro_max_decode_speed,
        };
        Some(speed_data(plan, speeds))
    }

    fn id(&self) -> (r: SegmentId)
        ensures
            r == SegmentId::DecodeSpeed,
    {
        SegmentId::DecodeSpeed
    }
}

} // verus!
