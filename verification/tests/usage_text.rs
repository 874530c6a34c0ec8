use cc_switch::usage_nav::{UsageMetric, UsagePane};
use cc_switch::usage_text::{
    display_provider_name, fit_trend_points, pad_label, usage_trend_range_text, format_ms, status_label, status_severity,
    to_decimal, usage_detail_pane_title, usage_detail_summary_line, usage_metric_label,
    usage_text, StatusSeverity,
};

#[test]
fn decimal_rendering() {
    assert_eq!(to_decimal(0), "0");
    assert_eq!(to_decimal(7), "7");
    assert_eq!(to_decimal(1200), "1200");
    assert_eq!(to_decimal(u64::MAX), u64::MAX.to_string());
}

#[test]
fn status_and_latency_cells() {
    assert_eq!(status_label(200), "ok");
    assert_eq!(status_label(299), "ok");
    assert_eq!(status_label(300), "300");
    assert_eq!(status_label(502), "502");
    assert_eq!(format_ms(Some(42)), "42ms");
    assert_eq!(format_ms(None), "-");
    assert_eq!(status_severity(true, 500), StatusSeverity::Normal);
    assert_eq!(status_severity(false, 503), StatusSeverity::Error);
    assert_eq!(status_severity(false, 429), StatusSeverity::Warning);
}

#[test]
fn provider_names_fall_back_to_the_id() {
    assert_eq!(display_provider_name(Some("Primary"), "p1"), "Primary");
    assert_eq!(display_provider_name(Some("  "), "p1"), "p1");
    assert_eq!(display_provider_name(None, "p1"), "p1");
}

#[test]
fn labels_follow_the_language() {
    assert_eq!(usage_text("Cost", "费用", false), "Cost");
    assert_eq!(usage_text("Cost", "费用", true), "费用");
    assert_eq!(usage_metric_label(UsageMetric::Errors, false), "Errors");
    assert_eq!(usage_metric_label(UsageMetric::Tokens, true), "Token");
    assert_eq!(usage_detail_pane_title(UsagePane::Providers, true), "Provider 统计");
    assert_eq!(usage_detail_pane_title(UsagePane::Recent, false), "Request Logs");
}

#[test]
fn detail_summary_lines() {
    assert_eq!(
        usage_detail_summary_line(UsagePane::Models, "7 days", 12, 3, 50, 900, false),
        "7 days · model stats · 12 rows"
    );
    assert_eq!(
        usage_detail_summary_line(UsagePane::Providers, "今日", 12, 3, 50, 900, true),
        "今日 · Provider 统计 · 3 条"
    );
    assert_eq!(
        usage_detail_summary_line(UsagePane::Recent, "x", 12, 3, 50, 900, false),
        "request logs · latest 50 rows shown · 900 total rows"
    );
    assert_eq!(
        usage_detail_summary_line(UsagePane::Recent, "x", 12, 3, 50, 900, true),
        "请求日志 · 显示最近 50 条 · 共 900 条"
    );
}

#[test]
fn trend_points_fit_the_chart_width() {
    let trend: Vec<u32> = (0..100).collect();
    assert_eq!(fit_trend_points(&trend, 10).len(), 6);
    assert_eq!(fit_trend_points(&trend, 30).len(), 26);
    assert_eq!(fit_trend_points(&trend, 30)[0], 74);
    assert_eq!(fit_trend_points(&trend, 60).len(), 48);
    assert_eq!(fit_trend_points(&trend[..5], 60).len(), 5);
}

#[test]
fn trend_range_and_detail_labels() {
    assert_eq!(usage_trend_range_text(Some("05-01"), Some("05-07")), "05-01 -> 05-07");
    assert_eq!(usage_trend_range_text(None, None), "- -> -");
    assert_eq!(pad_label("Cost", 14), "Cost          ");
    assert_eq!(pad_label("Cost", 14), format!("{:<14}", "Cost"));
    assert_eq!(pad_label("供应商类型", 14), format!("{:<14}", "供应商类型"));
    assert_eq!(pad_label("A very long label", 14), "A very long label");
}
