use cc_switch::overlay::Rect;
use cc_switch::usage_layout::{
    detail_tabs, find_request_log, line_chart_extent, logs_table_headers, logs_table_is_compact,
    metric_card_text_width, models_table_headers, providers_table_headers, metric_card_visible, overview_is_compact, trend_chart_kind,
    usage_log_detail_rows, TrendChart, UsageLogDetailFields,
};
use cc_switch::usage_nav::UsagePane;

fn fields() -> UsageLogDetailFields<'static> {
    UsageLogDetailFields {
        request_id: "req-1",
        time: "2025/05/01 10:00",
        app_type: "codex",
        provider_name: Some("  "),
        provider_id: "p1",
        provider_type: None,
        model: "m-large",
        request_model: Some("m"),
        status_code: 503,
        total_tokens: 1500,
        input_tokens: 1000,
        output_tokens: 400,
        cache_read_tokens: 100,
        cache_creation_tokens: 0,
        cost: "$0.012",
        latency_ms: 850,
        first_token_ms: Some(120),
        duration_ms: None,
        is_streaming: true,
        session_id: None,
        data_source: None,
        error_message: Some("upstream unavailable"),
    }
}

#[test]
fn layout_thresholds() {
    assert!(overview_is_compact(Rect::new(0, 0, 91, 10)));
    assert!(overview_is_compact(Rect::new(0, 0, 120, 4)));
    assert!(!overview_is_compact(Rect::new(0, 0, 92, 5)));
    assert!(!metric_card_visible(Rect::new(0, 0, 7, 3)));
    assert!(metric_card_visible(Rect::new(0, 0, 8, 2)));
    assert_eq!(metric_card_text_width(Rect::new(0, 0, 20, 3)), 19);
    assert_eq!(metric_card_text_width(Rect::new(0, 0, 0, 3)), 0);
    assert!(logs_table_is_compact(Rect::new(0, 0, 95, 10)));
    assert!(!logs_table_is_compact(Rect::new(0, 0, 96, 10)));
}

#[test]
fn trend_chart_choice() {
    assert_eq!(trend_chart_kind(Rect::new(0, 0, 44, 7), 2), TrendChart::LineChart);
    assert_eq!(trend_chart_kind(Rect::new(0, 0, 43, 7), 2), TrendChart::Sparkline);
    assert_eq!(trend_chart_kind(Rect::new(0, 0, 80, 20), 1), TrendChart::Sparkline);
    assert_eq!(line_chart_extent(1), (2, 1));
    assert_eq!(line_chart_extent(0), (0, 1));
    assert_eq!(line_chart_extent(30), (30, 29));
}

#[test]
fn detail_tabs_mark_the_active_pane() {
    assert_eq!(
        detail_tabs(UsagePane::Providers),
        vec![
            (UsagePane::Models, false),
            (UsagePane::Providers, true),
            (UsagePane::Recent, false)
        ]
    );
}

#[test]
fn request_logs_are_found_by_id() {
    let ids = vec!["a".to_string(), "b".to_string(), "b".to_string()];
    assert_eq!(find_request_log(&ids, "b"), Some(1));
    assert_eq!(find_request_log(&ids, "zz"), None);
}

#[test]
fn detail_rows_apply_fallbacks() {
    let rows = usage_log_detail_rows(&fields(), false);
    let get = |label: &str| rows.iter().find(|(l, _)| *l == label).map(|(_, v)| v.clone());
    assert_eq!(rows.len(), 21);
    assert_eq!(rows[0], ("Request", "req-1".to_string()));
    assert_eq!(get("Provider").as_deref(), Some("p1"));
    assert_eq!(get("Provider Type").as_deref(), Some("-"));
    assert_eq!(get("Status").as_deref(), Some("503"));
    assert_eq!(get("Tokens").as_deref(), Some("1500"));
    assert_eq!(get("Latency").as_deref(), Some("850ms"));
    assert_eq!(get("First Token").as_deref(), Some("120ms"));
    assert_eq!(get("Duration").as_deref(), Some("-"));
    assert_eq!(get("Streaming").as_deref(), Some("yes"));
    assert_eq!(get("Source").as_deref(), Some("proxy"));
    assert_eq!(rows[20], ("Error", "upstream unavailable".to_string()));
    let zh = usage_log_detail_rows(&fields(), true);
    assert_eq!(zh[17], ("流式", "是".to_string()));
    assert_eq!(zh[4].0, "供应商类型");
}

#[test]
fn table_headers_follow_language() {
    assert_eq!(
        providers_table_headers(false),
        vec!["Provider", "Req", "Success", "Tokens", "Cost", "Avg"]
    );
    assert_eq!(
        providers_table_headers(true),
        vec!["供应商", "请求", "成功", "Token", "费用", "平均"]
    );
    assert_eq!(
        models_table_headers(false),
        vec!["Model", "Req", "Success", "Tokens", "Cost", "Avg"]
    );
    assert_eq!(models_table_headers(true)[0], "模型");
}

#[test]
fn log_table_headers_switch_at_96_columns() {
    let narrow = Rect { x: 0, y: 0, width: 95, height: 20 };
    let wide = Rect { x: 0, y: 0, width: 96, height: 20 };
    assert_eq!(logs_table_headers(narrow, false), vec!["Time", "Model", "Status", "Cost"]);
    assert_eq!(logs_table_headers(narrow, true), vec!["时间", "模型", "状态", "费用"]);
    assert_eq!(
        logs_table_headers(wide, false),
        vec!["Time", "Provider", "Model", "Status", "Tokens", "Cost", "Latency"]
    );
    assert_eq!(
        logs_table_headers(wide, true),
        vec!["时间", "供应商", "模型", "状态", "Token", "费用", "延迟"]
    );
}
