use glmcode::api::GlmApiConfig;
use glmcode::api::GlmModelPerformance;
use glmcode::api::GlmQuotaLimit;
use glmcode::api::QuotaLimitItem;
use glmcode::config::InputData;
use glmcode::config::SegmentId;
use glmcode::segments::decode_speed::classify_trend;
use glmcode::segments::decode_speed::format_speed;
use glmcode::segments::decode_speed::generate_sparkline;
use glmcode::segments::decode_speed::latest_samples;
use glmcode::segments::decode_speed::level_of;
use glmcode::segments::decode_speed::window_bounds;
use glmcode::segments::decode_speed::Trend;
use glmcode::segments::glm_usage::bar_cells;
use glmcode::segments::glm_usage::format_one_decimal;
use glmcode::segments::glm_usage::format_percentage;
use glmcode::segments::glm_usage::get_status_color;
use glmcode::segments::glm_usage::is_time_limit;
use glmcode::segments::glm_usage::is_tokens_limit;
use glmcode::segments::DecodeSpeedSegment;
use glmcode::segments::GlmUsageSegment;
use glmcode::segments::Segment;
use glmcode::segments::SegmentData;

fn zai() -> Option<GlmApiConfig> {
    Some(GlmApiConfig::new("https://api.z.ai/api/anthropic".to_string(), "token".to_string()))
}

fn zhipu() -> Option<GlmApiConfig> {
    Some(GlmApiConfig::new("https://open.bigmodel.cn/api/anthropic".to_string(), "token".to_string()))
}

fn limit(
    limit_type: &str,
    percentage: i64,
    usage: Option<i64>,
    next_reset_time: Option<i64>,
) -> QuotaLimitItem {
    QuotaLimitItem {
        limit_type: limit_type.to_string(),
        percentage,
        current_value: None,
        usage,
        next_reset_time,
    }
}

fn performance(lite: Vec<i64>, pro_max: Vec<i64>) -> Option<GlmModelPerformance> {
    Some(GlmModelPerformance {
        x_time: vec![],
        lite_decode_speed: lite,
        pro_max_decode_speed: pro_max,
        lite_success_rate: vec![],
        pro_max_success_rate: vec![],
    })
}

fn meta(data: &SegmentData, key: &str) -> Option<String> {
    data.metadata_value(key).cloned()
}

#[test]
fn progress_bar_rounds_a_tenth_of_every_percentage() {
    for p in 0..=100i64 {
        let (filled, empty) = bar_cells(p * 1000);
        assert_eq!(filled, ((p as f64) / 10.0).round() as usize, "at {}", p);
        assert_eq!(filled + empty, 10);
    }
}

#[test]
fn progress_bar_ties_and_bounds() {
    assert_eq!(bar_cells(4_999), (0, 10));
    assert_eq!(bar_cells(5_000), (1, 9));
    assert_eq!(bar_cells(94_999), (9, 1));
    assert_eq!(bar_cells(95_000), (10, 0));
    assert_eq!(bar_cells(250_000), (10, 0));
    assert_eq!(bar_cells(-3_000), (0, 10));
    assert_eq!(bar_cells(i64::MAX), (10, 0));
    assert_eq!(bar_cells(i64::MIN), (0, 10));
}

#[test]
fn status_color_bands() {
    assert_eq!(get_status_color(0), "\x1b[38;5;114m");
    assert_eq!(get_status_color(50_000), "\x1b[38;5;114m");
    assert_eq!(get_status_color(50_001), "\x1b[38;5;179m");
    assert_eq!(get_status_color(80_000), "\x1b[38;5;179m");
    assert_eq!(get_status_color(80_001), "\x1b[38;5;167m");
}

#[test]
fn percentage_is_rounded_half_to_even() {
    assert_eq!(format_percentage(42_400), "42%");
    assert_eq!(format_percentage(42_500), "42%");
    assert_eq!(format_percentage(43_500), "44%");
    assert_eq!(format_percentage(42_501), "43%");
    assert_eq!(format_percentage(0), "0%");
    assert_eq!(format_percentage(999), "1%");
    assert_eq!(format_percentage(-400), "-0%");
    assert_eq!(format_percentage(-1_600), "-2%");
    assert_eq!(format_percentage(100_000), "100%");
}

#[test]
fn one_decimal_is_rounded_half_to_even() {
    assert_eq!(format_one_decimal(42_449), "42.4");
    assert_eq!(format_one_decimal(42_450), "42.4");
    assert_eq!(format_one_decimal(42_350), "42.4");
    assert_eq!(format_one_decimal(42_451), "42.5");
    assert_eq!(format_one_decimal(0), "0.0");
    assert_eq!(format_one_decimal(99_950), "100.0");
    assert_eq!(format_one_decimal(-50), "-0.0");
    assert_eq!(format_one_decimal(i64::MIN), "-9223372036854775.8");
}

#[test]
fn limit_kinds_by_name() {
    assert!(is_tokens_limit("TOKENS_LIMIT"));
    assert!(is_tokens_limit("MY_TOKENS"));
    assert!(!is_tokens_limit("tokens_limit"));
    assert!(!is_tokens_limit("TIME_LIMIT"));
    assert!(is_time_limit("TIME_LIMIT"));
    assert!(is_time_limit("RUNTIME"));
    assert!(!is_time_limit("TOKENS_LIMIT"));
    assert!(!is_time_limit(""));
}

#[test]
fn usage_without_endpoint_is_a_notice() {
    let input = InputData { glm: None, quota: None, performance: None, now_ms: 0 };
    let data = GlmUsageSegment::new().collect(&input).unwrap();
    assert_eq!(data.primary, "未配置 GLM");
    assert_eq!(data.secondary, "");
    assert!(data.metadata.is_empty());
}

#[test]
fn usage_without_quota_is_a_notice() {
    let input = InputData { glm: zai(), quota: None, performance: None, now_ms: 0 };
    let data = GlmUsageSegment::new().collect(&input).unwrap();
    assert_eq!(data.primary, "⏳ 获取中...");
    assert_eq!(data.secondary, "");
    assert!(data.metadata.is_empty());
}

#[test]
fn usage_with_tokens_and_time_quota() {
    let now = 1_700_000_000_000i64;
    let reset = now + (3 * 3600 + 40 * 60) * 1000;
    let quota = GlmQuotaLimit {
        limits: vec![
            limit("TIME_LIMIT", 12_600, None, None),
            limit("TOKENS_LIMIT", 42_400, Some(200_000_000_000), Some(reset)),
        ],
    };
    let input = InputData { glm: zai(), quota: Some(quota), performance: None, now_ms: now };
    let data = GlmUsageSegment::new().collect(&input).unwrap();
    assert_eq!(data.primary, "\x1b[38;5;114m▓▓▓▓░░░░░░\x1b[0m 42% 🔄 3h 40m");
    assert_eq!(data.secondary, "MCP 13%");
    assert_eq!(meta(&data, "platform").as_deref(), Some("Z.ai"));
    assert_eq!(meta(&data, "tokens_percentage").as_deref(), Some("42.4"));
    assert_eq!(meta(&data, "plan").as_deref(), Some("Pro"));
    assert_eq!(meta(&data, "next_reset_time"), Some(reset.to_string()));
    assert_eq!(meta(&data, "time_percentage").as_deref(), Some("12.6"));
    assert_eq!(meta(&data, "sparkline"), None);
}

#[test]
fn usage_with_tokens_quota_only() {
    let quota = GlmQuotaLimit { limits: vec![limit("TOKENS_LIMIT", 85_000, None, None)] };
    let input = InputData { glm: zhipu(), quota: Some(quota), performance: None, now_ms: 5 };
    let data = GlmUsageSegment::new().collect(&input).unwrap();
    assert_eq!(data.primary, "\x1b[38;5;167m▓▓▓▓▓▓▓▓▓░\x1b[0m 85%");
    assert_eq!(data.secondary, "");
    assert_eq!(meta(&data, "platform").as_deref(), Some("智谱"));
    assert_eq!(meta(&data, "tokens_percentage").as_deref(), Some("85.0"));
    assert_eq!(meta(&data, "plan"), None);
    assert_eq!(meta(&data, "next_reset_time"), None);
    assert_eq!(meta(&data, "time_percentage"), None);
}

#[test]
fn usage_with_expired_reset() {
    let quota =
        GlmQuotaLimit { limits: vec![limit("TOKENS_LIMIT", 65_000, Some(1), Some(1_000))] };
    let input = InputData { glm: zai(), quota: Some(quota), performance: None, now_ms: 1_000 };
    let data = GlmUsageSegment::new().collect(&input).unwrap();
    assert_eq!(data.primary, "\x1b[38;5;179m▓▓▓▓▓▓▓░░░\x1b[0m 65% 🔄 expired");
    assert_eq!(meta(&data, "plan").as_deref(), Some("Unknown"));
    assert_eq!(meta(&data, "next_reset_time").as_deref(), Some("1000"));
}

#[test]
fn usage_with_time_quota_only() {
    let quota = GlmQuotaLimit { limits: vec![limit("TIME_LIMIT", 7_000, None, Some(99))] };
    let input = InputData { glm: zhipu(), quota: Some(quota), performance: None, now_ms: 0 };
    let data = GlmUsageSegment::new().collect(&input).unwrap();
    assert_eq!(data.primary, "智谱 MCP \x1b[38;5;114m▓░░░░░░░░░\x1b[0m 7%");
    assert_eq!(data.secondary, "");
    assert_eq!(meta(&data, "platform").as_deref(), Some("智谱"));
    assert_eq!(meta(&data, "time_percentage").as_deref(), Some("7.0"));
    assert_eq!(meta(&data, "tokens_percentage"), None);
}

#[test]
fn usage_without_known_quota() {
    let quota = GlmQuotaLimit { limits: vec![limit("OTHER", 7_000, None, None)] };
    let input = InputData { glm: zai(), quota: Some(quota), performance: None, now_ms: 0 };
    let data = GlmUsageSegment::new().collect(&input).unwrap();
    assert_eq!(data.primary, "Z.ai 暂无数据");
    assert_eq!(meta(&data, "platform").as_deref(), Some("Z.ai"));
    let empty = InputData {
        glm: zai(),
        quota: Some(GlmQuotaLimit { limits: vec![] }),
        performance: None,
        now_ms: 0,
    };
    assert_eq!(GlmUsageSegment::new().collect(&empty).unwrap().primary, "Z.ai 暂无数据");
}

#[test]
fn usage_takes_the_first_quota_of_each_kind() {
    let quota = GlmQuotaLimit {
        limits: vec![
            limit("TOKENS_A", 10_000, None, None),
            limit("TIME_A", 20_000, None, None),
            limit("TOKENS_LIMIT", 90_000, None, None),
            limit("TIME_LIMIT", 95_000, None, None),
        ],
    };
    let input = InputData { glm: zai(), quota: Some(quota), performance: None, now_ms: 0 };
    let data = GlmUsageSegment::new().collect(&input).unwrap();
    assert_eq!(data.primary, "\x1b[38;5;114m▓░░░░░░░░░\x1b[0m 10%");
    assert_eq!(data.secondary, "MCP 20%");
}

#[test]
fn collector_ids() {
    assert_eq!(GlmUsageSegment::new().id(), SegmentId::GlmUsage);
    assert_eq!(DecodeSpeedSegment::new().id(), SegmentId::DecodeSpeed);
}

#[test]
fn trend_of_short_windows_is_steady() {
    assert_eq!(classify_trend(&vec![]), Trend::Steady);
    assert_eq!(classify_trend(&vec![10_000]), Trend::Steady);
}

#[test]
fn trend_within_five_percent_is_steady() {
    assert_eq!(classify_trend(&vec![10_000, 10_400]), Trend::Steady);
    assert_eq!(classify_trend(&vec![10_000, 10_500]), Trend::Steady);
    assert_eq!(classify_trend(&vec![10_000, 9_500]), Trend::Steady);
    assert_eq!(classify_trend(&vec![10_000, 99_000, 10_000]), Trend::Steady);
}

#[test]
fn trend_above_five_percent_is_rising() {
    assert_eq!(classify_trend(&vec![10_000, 10_600]), Trend::Rising);
    assert_eq!(classify_trend(&vec![10_000, 10_501]), Trend::Rising);
    assert_eq!(classify_trend(&vec![0, 1]), Trend::Rising);
    assert_eq!(classify_trend(&vec![i64::MIN, i64::MAX]), Trend::Rising);
}

#[test]
fn trend_below_five_percent_is_falling() {
    assert_eq!(classify_trend(&vec![10_000, 9_300]), Trend::Falling);
    assert_eq!(classify_trend(&vec![10_000, 9_499]), Trend::Falling);
    assert_eq!(classify_trend(&vec![i64::MAX, i64::MIN]), Trend::Falling);
}

#[test]
fn sparkline_of_nothing() {
    assert_eq!(generate_sparkline(&vec![]), "N/A");
}

#[test]
fn sparkline_of_constant_window() {
    assert_eq!(generate_sparkline(&vec![5_000, 5_000, 5_000]), "▄▄▄");
    assert_eq!(generate_sparkline(&vec![0]), "▄");
    assert_eq!(generate_sparkline(&vec![-7, -7]), "▄▄");
}

#[test]
fn sparkline_spans_blank_to_full_block() {
    assert_eq!(
        generate_sparkline(&vec![0, 1_000, 2_000, 3_000, 4_000, 5_000, 6_000, 7_000, 8_000]),
        " ▁▂▃▄▅▆▇█"
    );
    assert_eq!(generate_sparkline(&vec![30_000, 10_000, 20_000]), "█ ▄");
    assert_eq!(generate_sparkline(&vec![i64::MIN, 0, i64::MAX]), " ▄█");
}

#[test]
fn sparkline_levels_round_half_up() {
    // 1/16 of the span is half a level.
    assert_eq!(level_of(1, 0, 16), 1);
    assert_eq!(level_of(0, 0, 16), 0);
    assert_eq!(level_of(2, 0, 16), 1);
    assert_eq!(level_of(3, 0, 16), 2);
    assert_eq!(level_of(15, 0, 16), 8);
    assert_eq!(level_of(7, 7, 7), 4);
}

#[test]
fn sparkline_levels_never_fall_as_samples_grow() {
    let window: Vec<i64> = vec![12_300, 900, 45_000, 44_999, 7, 30_000];
    let (lo, hi) = window_bounds(&window);
    assert_eq!((lo, hi), (7, 45_000));
    let mut sorted = window.clone();
    sorted.sort();
    let levels: Vec<usize> = sorted.iter().map(|v| level_of(*v, lo, hi)).collect();
    for pair in levels.windows(2) {
        assert!(pair[0] <= pair[1]);
    }
    assert_eq!(levels[0], 0);
    assert_eq!(levels[levels.len() - 1], 8);
}

#[test]
fn latest_samples_keeps_the_last_five_in_order() {
    assert_eq!(latest_samples(&vec![1, 2, 3, 4, 5, 6, 7]), vec![3, 4, 5, 6, 7]);
    assert_eq!(latest_samples(&vec![1, 2, 3]), vec![1, 2, 3]);
    assert_eq!(latest_samples(&vec![]), Vec::<i64>::new());
}

#[test]
fn speed_formats() {
    assert_eq!(format_speed(0), "0");
    assert_eq!(format_speed(52_300), "52");
    assert_eq!(format_speed(52_500), "52");
    assert_eq!(format_speed(53_500), "54");
    assert_eq!(format_speed(999_600), "1000");
    assert_eq!(format_speed(1_000_000), "1.0k");
    assert_eq!(format_speed(1_250_000), "1.2k");
    assert_eq!(format_speed(1_350_000), "1.4k");
    assert_eq!(format_speed(12_345_678), "12.3k");
    assert_eq!(format_speed(-1_500), "-2");
}

#[test]
fn decode_speed_without_endpoint_is_a_notice() {
    let input = InputData {
        glm: None,
        quota: None,
        performance: performance(vec![1], vec![2]),
        now_ms: 0,
    };
    let data = DecodeSpeedSegment::new().collect(&input).unwrap();
    assert_eq!(data.primary, "未配置 GLM");
    assert!(data.metadata.is_empty());
}

#[test]
fn decode_speed_without_performance_is_a_notice() {
    let input = InputData { glm: zai(), quota: None, performance: None, now_ms: 0 };
    let data = DecodeSpeedSegment::new().collect(&input).unwrap();
    assert_eq!(data.primary, "⏳ 获取中...");
    assert_eq!(data.secondary, "");
}

#[test]
fn decode_speed_of_a_lite_account() {
    let quota = GlmQuotaLimit {
        limits: vec![
            limit("TOKENS_LIMIT", 1_000, None, None),
            limit("TOKENS_LIMIT", 1_000, Some(40_000_000_000), None),
            limit("TOKENS_LIMIT", 1_000, Some(200_000_000_000), None),
        ],
    };
    let input = InputData {
        glm: zai(),
        quota: Some(quota),
        performance: performance(
            vec![99_000, 40_000, 41_000, 42_000, 43_000, 50_000],
            vec![1_000, 2_000],
        ),
        now_ms: 0,
    };
    let data = DecodeSpeedSegment::new().collect(&input).unwrap();
    assert_eq!(data.primary, "Lite ↗50t/s \x1b[38;5;214m ▁▂▂█\x1b[0m");
    assert_eq!(data.secondary, "");
    assert_eq!(meta(&data, "plan").as_deref(), Some("Lite"));
    assert_eq!(meta(&data, "current_speed").as_deref(), Some("50.0"));
    assert_eq!(meta(&data, "sparkline").as_deref(), Some(" ▁▂▂█"));
}

#[test]
fn decode_speed_of_an_unknown_account_uses_pro_max() {
    let input = InputData {
        glm: zhipu(),
        quota: None,
        performance: performance(vec![1_000], vec![1_234_560, 1_100_000]),
        now_ms: 0,
    };
    let data = DecodeSpeedSegment::new().collect(&input).unwrap();
    assert_eq!(data.primary, "Unknown ↘1.1kt/s \x1b[38;5;214m█ \x1b[0m");
    assert_eq!(meta(&data, "plan").as_deref(), Some("Unknown"));
    assert_eq!(meta(&data, "current_speed").as_deref(), Some("1100.0"));
}

#[test]
fn decode_speed_without_samples() {
    let quota =
        GlmQuotaLimit { limits: vec![limit("TOKENS_LIMIT", 0, Some(800_000_000_000), None)] };
    let input = InputData {
        glm: zai(),
        quota: Some(quota),
        performance: performance(vec![5_000], vec![]),
        now_ms: 0,
    };
    let data = DecodeSpeedSegment::new().collect(&input).unwrap();
    assert_eq!(data.primary, "Max →0t/s \x1b[38;5;214mN/A\x1b[0m");
    assert_eq!(meta(&data, "current_speed").as_deref(), Some("0.0"));
    assert_eq!(meta(&data, "sparkline").as_deref(), Some("N/A"));
}

#[test]
fn metadata_keeps_the_latest_value_of_a_key() {
    let mut data = SegmentData::placeholder("x");
    data.insert_metadata("k", "one".to_string());
    data.insert_metadata("other", "o".to_string());
    data.insert_metadata("k", "two".to_string());
    assert_eq!(data.metadata_value("k").map(|s| s.as_str()), Some("two"));
    assert_eq!(data.metadata_value("other").map(|s| s.as_str()), Some("o"));
    assert_eq!(data.metadata_value("missing"), None);
    assert_eq!(data.primary, "x");
}
