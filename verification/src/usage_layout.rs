//! Layout decisions and cell contents of the usage views: when the overview
//! and the log table switch to their compact forms, which trend chart is
//! drawn, the detail tabs, and the rows of a request log's detail view.

use vstd::prelude::*;
use crate::overlay::Rect;
use crate::text::all_whitespace;
use crate::usage_nav::UsagePane;
use crate::usage_text::{decimal, display_provider_name, format_ms, status_label, to_decimal, usage_text};

verus! {

/// The overview shows three text lines instead of the card grid when its
/// inner area is narrower than 92 columns or lower than 5 rows.
pub fn overview_is_compact(inner: Rect) -> (b: bool)
    ensures
        b == (inner.width < 92 || inner.height < 5),
{
    inner.width < 92 || inner.height < 5
}

/// A metric card is drawn only in an area at least 8 wide and 2 high.
pub fn metric_card_visible(area: Rect) -> (b: bool)
    ensures
        b == !(area.width < 8 || area.height < 2),
{
    !(area.width < 8 || area.height < 2)
}

/// Card lines are cut to one column less than the card.
pub fn metric_card_text_width(area: Rect) -> (w: u16)
    ensures
        w == (if area.width >= 1 {
            area.width - 1
        } else {
            0
        }),
{
    area.width.saturating_sub(1)
}

/// The drawing of the usage trend.
#[derive(Debug, Clone, Copy, PartialEq, Eq, Structural)]
pub enum TrendChart {
    /// A braille line chart with axes.
    LineChart,
    /// A one-line sparkline with the range and the latest value.
    Sparkline,
}

/// The line chart needs an area at least 44 × 7 and two points; otherwise
/// a sparkline is drawn.
pub fn trend_chart_kind(area: Rect, visible_points: usize) -> (k: TrendChart)
    ensures
        k == (if area.width >= 44 && area.height >= 7 && visible_points >= 2 {
            TrendChart::LineChart
        } else {
            TrendChart::Sparkline
        }),
{
    if area.width >= 44 && area.height >= 7 && visible_points >= 2 {
        TrendChart::LineChart
    } else {
        TrendChart::Sparkline
    }
}

/// The points of the line chart (a single point is drawn twice, at x 0 and
/// 1) and the upper bound of its x axis (at least 1).
pub fn line_chart_extent(points: usize) -> (r: (usize, usize))
    ensures
        r.0 == (if points == 1 {
            2
        } else {
            points
        }),
        r.1 == (if r.0 >= 2 {
            r.0 - 1
        } else {
            1
        }),
{
    let n = if points == 1 {
        2
    } else {
        points
    };
    let last_x = if n >= 2 {
        n - 1
    } else {
        1
    };
    (n, last_x)
}

/// The request-log table drops the provider, token and latency columns
/// when narrower than 96 columns.
pub fn logs_table_is_compact(area: Rect) -> (b: bool)
    ensures
        b == (area.width < 96),
{
    area.width < 96
}

/// A label in the interface language, as characters.
pub open spec fn label_of(en: &'static str, zh: &'static str, chinese: bool) -> Seq<char> {
    if chinese {
        zh@
    } else {
        en@
    }
}

/// The characters of each label in a header row.
pub open spec fn header_texts(row: Seq<&'static str>) -> Seq<Seq<char>> {
    row.map_values(|s: &'static str| s@)
}

/// The column headers of the per-provider statistics table.
pub fn providers_table_headers(chinese: bool) -> (row: Vec<&'static str>)
    ensures
        header_texts(row@) == seq![
            label_of("Provider", "供应商", chinese),
            label_of("Req", "请求", chinese),
            label_of("Success", "成功", chinese),
            label_of("Tokens", "Token", chinese),
            label_of("Cost", "费用", chinese),
            label_of("Avg", "平均", chinese),
        ],
{
    let row = vec![
        usage_text("Provider", "供应商", chinese),
        usage_text("Req", "请求", chinese),
        usage_text("Success", "成功", chinese),
        usage_text("Tokens", "Token", chinese),
        usage_text("Cost", "费用", chinese),
        usage_text("Avg", "平均", chinese),
    ];
    assert(header_texts(row@) =~= seq![
        label_of("Provider", "供应商", chinese),
        label_of("Req", "请求", chinese),
        label_of("Success", "成功", chinese),
        label_of("Tokens", "Token", chinese),
        label_of("Cost", "费用", chinese),
        label_of("Avg", "平均", chinese),
    ]);
    row
}

/// The column headers of the per-model statistics table.
pub fn models_table_headers(chinese: bool) -> (row: Vec<&'static str>)
    ensures
        header_texts(row@) == seq![
            label_of("Model", "模型", chinese),
            label_of("Req", "请求", chinese),
            label_of("Success", "成功", chinese),
            label_of("Tokens", "Token", chinese),
            label_of("Cost", "费用", chinese),
            label_of("Avg", "平均", chinese),
        ],
{
    let row = vec![
        usage_text("Model", "模型", chinese),
        usage_text("Req", "请求", chinese),
        usage_text("Success", "成功", chinese),
        usage_text("Tokens", "Token", chinese),
        usage_text("Cost", "费用", chinese),
        usage_text("Avg", "平均", chinese),
    ];
    assert(header_texts(row@) =~= seq![
        label_of("Model", "模型", chinese),
        label_of("Req", "请求", chinese),
        label_of("Success", "成功", chinese),
        label_of("Tokens", "Token", chinese),
        label_of("Cost", "费用", chinese),
        label_of("Avg", "平均", chinese),
    ]);
    row
}

/// The column headers of the request log table: time, model, status and
/// cost in the compact form, with provider, tokens and latency besides in
/// the full one.
pub fn logs_table_headers(area: Rect, chinese: bool) -> (row: Vec<&'static str>)
    ensures
        header_texts(row@) == (if area.width < 96 {
            seq![
                label_of("Time", "时间", chinese),
                label_of("Model", "模型", chinese),
                label_of("Status", "状态", chinese),
                label_of("Cost", "费用", chinese),
            ]
        } else {
            seq![
                label_of("Time", "时间", chinese),
                label_of("Provider", "供应商", chinese),
                label_of("Model", "模型", chinese),
                label_of("Status", "状态", chinese),
                label_of("Tokens", "Token", chinese),
                label_of("Cost", "费用", chinese),
                label_of("Latency", "延迟", chinese),
            ]
        }),
{
    if logs_table_is_compact(area) {
        let row = vec![
            usage_text("Time", "时间", chinese),
            usage_text("Model", "模型", chinese),
            usage_text("Status", "状态", chinese),
            usage_text("Cost", "费用", chinese),
        ];
        assert(header_texts(row@) =~= seq![
            label_of("Time", "时间", chinese),
            label_of("Model", "模型", chinese),
            label_of("Status", "状态", chinese),
            label_of("Cost", "费用", chinese),
        ]);
        row
    } else {
        let row = vec![
            usage_text("Time", "时间", chinese),
            usage_text("Provider", "供应商", chinese),
            usage_text("Model", "模型", chinese),
            usage_text("Status", "状态", chinese),
            usage_text("Tokens", "Token", chinese),
            usage_text("Cost", "费用", chinese),
            usage_text("Latency", "延迟", chinese),
        ];
        assert(header_texts(row@) =~= seq![
            label_of("Time", "时间", chinese),
            label_of("Provider", "供应商", chinese),
            label_of("Model", "模型", chinese),
            label_of("Status", "状态", chinese),
            label_of("Tokens", "Token", chinese),
            label_of("Cost", "费用", chinese),
            label_of("Latency", "延迟", chinese),
        ]);
        row
    }
}

/// The detail tabs in display order, each with whether it is the active
/// pane.
pub fn detail_tabs(active: UsagePane) -> (tabs: Vec<(UsagePane, bool)>)
    ensures
        tabs@ == seq![
            (UsagePane::Models, active == UsagePane::Models),
            (UsagePane::Providers, active == UsagePane::Providers),
            (UsagePane::Recent, active == UsagePane::Recent),
        ],
{
    let v = vec![
        (UsagePane::Models, active == UsagePane::Models),
        (UsagePane::Providers, active == UsagePane::Providers),
        (UsagePane::Recent, active == UsagePane::Recent),
    ];
    assert(v@ =~= seq![
        (UsagePane::Models, active == UsagePane::Models),
        (UsagePane::Providers, active == UsagePane::Providers),
        (UsagePane::Recent, active == UsagePane::Recent),
    ]);
    v
}

/// The row of the recent logs with this request id, if it is still cached.
pub fn find_request_log(request_ids: &Vec<String>, request_id: &str) -> (r: Option<usize>)
    ensures
        r matches Some(i) ==> i < request_ids@.len() && request_ids@[i as int]@ == request_id@
            && forall|j: int| 0 <= j < i ==> (#[trigger] request_ids@[j])@ != request_id@,
        r is None ==> forall|j: int|
            0 <= j < request_ids@.len() ==> (#[trigger] request_ids@[j])@ != request_id@,
{
    let mut i: usize = 0;
    while i < request_ids.len()
        invariant
            i <= request_ids@.len(),
            forall|j: int| 0 <= j < i ==> (#[trigger] request_ids@[j])@ != request_id@,
        decreases request_ids@.len() - i,
    {
        if crate::json::str_eq(request_ids[i].as_str(), request_id) {
            return Some(i);
        }
        i = i + 1;
    }
    None
}

/// What the detail view of a request log shows; times and costs arrive
/// already rendered.
pub struct UsageLogDetailFields<'a> {
    pub request_id: &'a str,
    pub time: &'a str,
    pub app_type: &'a str,
    pub provider_name: Option<&'a str>,
    pub provider_id: &'a str,
    pub provider_type: Option<&'a str>,
    pub model: &'a str,
    pub request_model: Option<&'a str>,
    pub status_code: u16,
    pub total_tokens: u64,
    pub input_tokens: u64,
    pub output_tokens: u64,
    pub cache_read_tokens: u64,
    pub cache_creation_tokens: u64,
    pub cost: &'a str,
    pub latency_ms: u64,
    pub first_token_ms: Option<u64>,
    pub duration_ms: Option<u64>,
    pub is_streaming: bool,
    pub session_id: Option<&'a str>,
    pub data_source: Option<&'a str>,
    pub error_message: Option<&'a str>,
}

/// An optional text, or `fallback` when it is missing.
pub open spec fn or_else(v: Option<&str>, fallback: Seq<char>) -> Seq<char> {
    match v {
        Some(s) => s@,
        None => fallback,
    }
}

pub open spec fn ms_text(v: Option<u64>) -> Seq<char> {
    match v {
        Some(x) => decimal(x as nat) + "ms"@,
        None => "-"@,
    }
}

pub open spec fn lang(chinese: bool, en: Seq<char>, zh: Seq<char>) -> Seq<char> {
    if chinese {
        zh
    } else {
        en
    }
}

/// The labelled rows of the detail view, in order.
pub open spec fn spec_detail_rows(d: UsageLogDetailFields, chinese: bool) -> Seq<
    (Seq<char>, Seq<char>),
> {
    seq![
        (lang(chinese, "Request"@, "请求"@), d.request_id@),
        (lang(chinese, "Time"@, "时间"@), d.time@),
        (lang(chinese, "App"@, "应用"@), d.app_type@),
        (lang(chinese, "Provider"@, "供应商"@), match d.provider_name {
            Some(n) => if all_whitespace(n@) {
                d.provider_id@
            } else {
                n@
            },
            None => d.provider_id@,
        }),
        (lang(chinese, "Provider Type"@, "供应商类型"@), or_else(d.provider_type, "-"@)),
        (lang(chinese, "Model"@, "模型"@), d.model@),
        (lang(chinese, "Request Model"@, "请求模型"@), or_else(d.request_model, "-"@)),
        (lang(chinese, "Status"@, "状态"@), if 200 <= d.status_code < 300 {
            "ok"@
        } else {
            decimal(d.status_code as nat)
        }),
        (lang(chinese, "Tokens"@, "Token"@), decimal(d.total_tokens as nat)),
        (lang(chinese, "Input"@, "输入"@), decimal(d.input_tokens as nat)),
        (lang(chinese, "Output"@, "输出"@), decimal(d.output_tokens as nat)),
        (lang(chinese, "Cache Read"@, "缓存读取"@), decimal(d.cache_read_tokens as nat)),
        (lang(chinese, "Cache Create"@, "缓存创建"@), decimal(d.cache_creation_tokens as nat)),
        (lang(chinese, "Cost"@, "费用"@), d.cost@),
        (lang(chinese, "Latency"@, "延迟"@), decimal(d.latency_ms as nat) + "ms"@),
        (lang(chinese, "First Token"@, "首字"@), ms_text(d.first_token_ms)),
        (lang(chinese, "Duration"@, "耗时"@), ms_text(d.duration_ms)),
        (lang(chinese, "Streaming"@, "流式"@), if d.is_streaming {
            lang(chinese, "yes"@, "是"@)
        } else {
            lang(chinese, "no"@, "否"@)
        }),
        (lang(chinese, "Session"@, "会话"@), or_else(d.session_id, "-"@)),
        (lang(chinese, "Source"@, "来源"@), or_else(d.data_source, "proxy"@)),
        (lang(chinese, "Error"@, "错误"@), or_else(d.error_message, "-"@)),
    ]
}

pub open spec fn rows_view(rows: Seq<(&'static str, String)>) -> Seq<(Seq<char>, Seq<char>)> {
    rows.map_values(|r: (&'static str, String)| (r.0@, r.1@))
}

fn pick(chinese: bool, en: &'static str, zh: &'static str) -> (s: &'static str)
    ensures
        s@ == lang(chinese, en@, zh@),
{
    if chinese {
        zh
    } else {
        en
    }
}

fn text_or(v: Option<&str>, fallback: &str) -> (s: String)
    ensures
        s@ == or_else(v, fallback@),
{
    match v {
        Some(x) => x.to_owned(),
        None => fallback.to_owned(),
    }
}

fn push_row(rows: &mut Vec<(&'static str, String)>, label: &'static str, value: String)
    ensures
        rows_view(final(rows)@) == rows_view(old(rows)@).push((label@, value@)),
{
    let ghost before = rows@;
    rows.push((label, value));
    assert(rows_view(rows@) =~= rows_view(before).push((label@, value@)));
}

/// The labelled rows of a request log's detail view.
pub fn usage_log_detail_rows(d: &UsageLogDetailFields, chinese: bool) -> (rows: Vec<
    (&'static str, String),
>)
    ensures
        rows_view(rows@) == spec_detail_rows(*d, chinese),
{
    let mut rows: Vec<(&'static str, String)> = Vec::new();
    assert(rows_view(rows@) =~= Seq::empty());
    push_row(&mut rows, pick(chinese, "Request", "请求"), d.request_id.to_owned());
    push_row(&mut rows, pick(chinese, "Time", "时间"), d.time.to_owned());
    push_row(&mut rows, pick(chinese, "App", "应用"), d.app_type.to_owned());
    push_row(
        &mut rows,
        pick(chinese, "Provider", "供应商"),
        display_provider_name(d.provider_name, d.provider_id),
    );
    push_row(&mut rows, pick(chinese, "Provider Type", "供应商类型"), text_or(d.provider_type, "-"));
    push_row(&mut rows, pick(chinese, "Model", "模型"), d.model.to_owned());
    push_row(&mut rows, pick(chinese, "Request Model", "请求模型"), text_or(d.request_model, "-"));
    push_row(&mut rows, pick(chinese, "Status", "状态"), status_label(d.status_code));
    push_row(&mut rows, pick(chinese, "Tokens", "Token"), to_decimal(d.total_tokens));
    push_row(&mut rows, pick(chinese, "Input", "输入"), to_decimal(d.input_tokens));
    push_row(&mut rows, pick(chinese, "Output", "输出"), to_decimal(d.output_tokens));
    push_row(&mut rows, pick(chinese, "Cache Read", "缓存读取"), to_decimal(d.cache_read_tokens));
    push_row(
        &mut rows,
        pick(chinese, "Cache Create", "缓存创建"),
        to_decimal(d.cache_creation_tokens),
    );
    push_row(&mut rows, pick(chinese, "Cost", "费用"), d.cost.to_owned());
    push_row(&mut rows, pick(chinese, "Latency", "延迟"), format_ms(Some(d.latency_ms)));
    push_row(&mut rows, pick(chinese, "First Token", "首字"), format_ms(d.first_token_ms));
    push_row(&mut rows, pick(chinese, "Duration", "耗时"), format_ms(d.duration_ms));
    let stream = if d.is_streaming {
        pick(chinese, "yes", "是")
    } else {
        pick(chinese, "no", "否")
    };
    push_row(&mut rows, pick(chinese, "Streaming", "流式"), stream.to_owned());
    push_row(&mut rows, pick(chinese, "Session", "会话"), text_or(d.session_id, "-"));
    push_row(&mut rows, pick(chinese, "Source", "来源"), text_or(d.data_source, "proxy"));
    push_row(&mut rows, pick(chinese, "Error", "错误"), text_or(d.error_message, "-"));
    assert(rows_view(rows@) =~= spec_detail_rows(*d, chinese));
    rows
}


/// The labels of the detail rows are pairwise distinct, in both languages.
proof fn lemma_detail_labels_distinct(d: UsageLogDetailFields, chinese: bool)
    ensures
        spec_detail_rows(d, chinese).len() == 21,
        forall|i: int, j: int|
            0 <= i < j < 21 ==> #[trigger] spec_detail_rows(d, chinese)[i].0
                != #[trigger] spec_detail_rows(d, chinese)[j].0,
{
    let rows = spec_detail_rows(d, chinese);
    reveal_strlit("Request");
    reveal_strlit("请求");
    reveal_strlit("Time");
    reveal_strlit("时间");
    reveal_strlit("App");
    reveal_strlit("应用");
    reveal_strlit("Provider");
    reveal_strlit("供应商");
    reveal_strlit("Provider Type");
    reveal_strlit("供应商类型");
    reveal_strlit("Model");
    reveal_strlit("模型");
    reveal_strlit("Request Model");
    reveal_strlit("请求模型");
    reveal_strlit("Status");
    reveal_strlit("状态");
    reveal_strlit("Tokens");
    reveal_strlit("Token");
    reveal_strlit("Input");
    reveal_strlit("输入");
    reveal_strlit("Output");
    reveal_strlit("输出");
    reveal_strlit("Cache Read");
    reveal_strlit("缓存读取");
    reveal_strlit("Cache Create");
    reveal_strlit("缓存创建");
    reveal_strlit("Cost");
    reveal_strlit("费用");
    reveal_strlit("Latency");
    reveal_strlit("延迟");
    reveal_strlit("First Token");
    reveal_strlit("首字");
    reveal_strlit("Duration");
    reveal_strlit("耗时");
    reveal_strlit("Streaming");
    reveal_strlit("流式");
    reveal_strlit("Session");
    reveal_strlit("会话");
    reveal_strlit("Source");
    reveal_strlit("来源");
    reveal_strlit("Error");
    reveal_strlit("错误");
    if chinese {
        assert("请求"@[0] != "时间"@[0]);
        assert("请求"@[0] != "应用"@[0]);
        assert("请求"@.len() != "供应商"@.len());
        assert("请求"@.len() != "供应商类型"@.len());
        assert("请求"@[0] != "模型"@[0]);
        assert("请求"@.len() != "请求模型"@.len());
        assert("请求"@[0] != "状态"@[0]);
        assert("请求"@.len() != "Token"@.len());
        assert("请求"@[0] != "输入"@[0]);
        assert("请求"@[0] != "输出"@[0]);
        assert("请求"@.len() != "缓存读取"@.len());
        assert("请求"@.len() != "缓存创建"@.len());
        assert("请求"@[0] != "费用"@[0]);
        assert("请求"@[0] != "延迟"@[0]);
        assert("请求"@[0] != "首字"@[0]);
        assert("请求"@[0] != "耗时"@[0]);
        assert("请求"@[0] != "流式"@[0]);
        assert("请求"@[0] != "会话"@[0]);
        assert("请求"@[0] != "来源"@[0]);
        assert("请求"@[0] != "错误"@[0]);
        assert("时间"@[0] != "应用"@[0]);
        assert("时间"@.len() != "供应商"@.len());
        assert("时间"@.len() != "供应商类型"@.len());
        assert("时间"@[0] != "模型"@[0]);
        assert("时间"@.len() != "请求模型"@.len());
        assert("时间"@[0] != "状态"@[0]);
        assert("时间"@.len() != "Token"@.len());
        assert("时间"@[0] != "输入"@[0]);
        assert("时间"@[0] != "输出"@[0]);
        assert("时间"@.len() != "缓存读取"@.len());
        assert("时间"@.len() != "缓存创建"@.len());
        assert("时间"@[0] != "费用"@[0]);
        assert("时间"@[0] != "延迟"@[0]);
        assert("时间"@[0] != "首字"@[0]);
        assert("时间"@[0] != "耗时"@[0]);
        assert("时间"@[0] != "流式"@[0]);
        assert("时间"@[0] != "会话"@[0]);
        assert("时间"@[0] != "来源"@[0]);
        assert("时间"@[0] != "错误"@[0]);
        assert("应用"@.len() != "供应商"@.len());
        assert("应用"@.len() != "供应商类型"@.len());
        assert("应用"@[0] != "模型"@[0]);
        assert("应用"@.len() != "请求模型"@.len());
        assert("应用"@[0] != "状态"@[0]);
        assert("应用"@.len() != "Token"@.len());
        assert("应用"@[0] != "输入"@[0]);
        assert("应用"@[0] != "输出"@[0]);
        assert("应用"@.len() != "缓存读取"@.len());
        assert("应用"@.len() != "缓存创建"@.len());
        assert("应用"@[0] != "费用"@[0]);
        assert("应用"@[0] != "延迟"@[0]);
        assert("应用"@[0] != "首字"@[0]);
        assert("应用"@[0] != "耗时"@[0]);
        assert("应用"@[0] != "流式"@[0]);
        assert("应用"@[0] != "会话"@[0]);
        assert("应用"@[0] != "来源"@[0]);
        assert("应用"@[0] != "错误"@[0]);
        assert("供应商"@.len() != "供应商类型"@.len());
        assert("供应商"@.len() != "模型"@.len());
        assert("供应商"@.len() != "请求模型"@.len());
        assert("供应商"@.len() != "状态"@.len());
        assert("供应商"@.len() != "Token"@.len());
        assert("供应商"@.len() != "输入"@.len());
        assert("供应商"@.len() != "输出"@.len());
        assert("供应商"@.len() != "缓存读取"@.len());
        assert("供应商"@.len() != "缓存创建"@.len());
        assert("供应商"@.len() != "费用"@.len());
        assert("供应商"@.len() != "延迟"@.len());
        assert("供应商"@.len() != "首字"@.len());
        assert("供应商"@.len() != "耗时"@.len());
        assert("供应商"@.len() != "流式"@.len());
        assert("供应商"@.len() != "会话"@.len());
        assert("供应商"@.len() != "来源"@.len());
        assert("供应商"@.len() != "错误"@.len());
        assert("供应商类型"@.len() != "模型"@.len());
        assert("供应商类型"@.len() != "请求模型"@.len());
        assert("供应商类型"@.len() != "状态"@.len());
        assert("供应商类型"@[0] != "Token"@[0]);
        assert("供应商类型"@.len() != "输入"@.len());
        assert("供应商类型"@.len() != "输出"@.len());
        assert("供应商类型"@.len() != "缓存读取"@.len());
        assert("供应商类型"@.len() != "缓存创建"@.len());
        assert("供应商类型"@.len() != "费用"@.len());
        assert("供应商类型"@.len() != "延迟"@.len());
        assert("供应商类型"@.len() != "首字"@.len());
        assert("供应商类型"@.len() != "耗时"@.len());
        assert("供应商类型"@.len() != "流式"@.len());
        assert("供应商类型"@.len() != "会话"@.len());
        assert("供应商类型"@.len() != "来源"@.len());
        assert("供应商类型"@.len() != "错误"@.len());
        assert("模型"@.len() != "请求模型"@.len());
        assert("模型"@[0] != "状态"@[0]);
        assert("模型"@.len() != "Token"@.len());
        assert("模型"@[0] != "输入"@[0]);
        assert("模型"@[0] != "输出"@[0]);
        assert("模型"@.len() != "缓存读取"@.len());
        assert("模型"@.len() != "缓存创建"@.len());
        assert("模型"@[0] != "费用"@[0]);
        assert("模型"@[0] != "延迟"@[0]);
        assert("模型"@[0] != "首字"@[0]);
        assert("模型"@[0] != "耗时"@[0]);
        assert("模型"@[0] != "流式"@[0]);
        assert("模型"@[0] != "会话"@[0]);
        assert("模型"@[0] != "来源"@[0]);
        assert("模型"@[0] != "错误"@[0]);
        assert("请求模型"@.len() != "状态"@.len());
        assert("请求模型"@.len() != "Token"@.len());
        assert("请求模型"@.len() != "输入"@.len());
        assert("请求模型"@.len() != "输出"@.len());
        assert("请求模型"@[0] != "缓存读取"@[0]);
        assert("请求模型"@[0] != "缓存创建"@[0]);
        assert("请求模型"@.len() != "费用"@.len());
        assert("请求模型"@.len() != "延迟"@.len());
        assert("请求模型"@.len() != "首字"@.len());
        assert("请求模型"@.len() != "耗时"@.len());
        assert("请求模型"@.len() != "流式"@.len());
        assert("请求模型"@.len() != "会话"@.len());
        assert("请求模型"@.len() != "来源"@.len());
        assert("请求模型"@.len() != "错误"@.len());
        assert("状态"@.len() != "Token"@.len());
        assert("状态"@[0] != "输入"@[0]);
        assert("状态"@[0] != "输出"@[0]);
        assert("状态"@.len() != "缓存读取"@.len());
        assert("状态"@.len() != "缓存创建"@.len());
        assert("状态"@[0] != "费用"@[0]);
        assert("状态"@[0] != "延迟"@[0]);
        assert("状态"@[0] != "首字"@[0]);
        assert("状态"@[0] != "耗时"@[0]);
        assert("状态"@[0] != "流式"@[0]);
        assert("状态"@[0] != "会话"@[0]);
        assert("状态"@[0] != "来源"@[0]);
        assert("状态"@[0] != "错误"@[0]);
        assert("Token"@.len() != "输入"@.len());
        assert("Token"@.len() != "输出"@.len());
        assert("Token"@.len() != "缓存读取"@.len());
        assert("Token"@.len() != "缓存创建"@.len());
        assert("Token"@.len() != "费用"@.len());
        assert("Token"@.len() != "延迟"@.len());
        assert("Token"@.len() != "首字"@.len());
        assert("Token"@.len() != "耗时"@.len());
        assert("Token"@.len() != "流式"@.len());
        assert("Token"@.len() != "会话"@.len());
        assert("Token"@.len() != "来源"@.len());
        assert("Token"@.len() != "错误"@.len());
        assert("输入"@[1] != "输出"@[1]);
        assert("输入"@.len() != "缓存读取"@.len());
        assert("输入"@.len() != "缓存创建"@.len());
        assert("输入"@[0] != "费用"@[0]);
        assert("输入"@[0] != "延迟"@[0]);
        assert("输入"@[0] != "首字"@[0]);
        assert("输入"@[0] != "耗时"@[0]);
        assert("输入"@[0] != "流式"@[0]);
        assert("输入"@[0] != "会话"@[0]);
        assert("输入"@[0] != "来源"@[0]);
        assert("输入"@[0] != "错误"@[0]);
        assert("输出"@.len() != "缓存读取"@.len());
        assert("输出"@.len() != "缓存创建"@.len());
        assert("输出"@[0] != "费用"@[0]);
        assert("输出"@[0] != "延迟"@[0]);
        assert("输出"@[0] != "首字"@[0]);
        assert("输出"@[0] != "耗时"@[0]);
        assert("输出"@[0] != "流式"@[0]);
        assert("输出"@[0] != "会话"@[0]);
        assert("输出"@[0] != "来源"@[0]);
        assert("输出"@[0] != "错误"@[0]);
        assert("缓存读取"@[2] != "缓存创建"@[2]);
        assert("缓存读取"@.len() != "费用"@.len());
        assert("缓存读取"@.len() != "延迟"@.len());
        assert("缓存读取"@.len() != "首字"@.len());
        assert("缓存读取"@.len() != "耗时"@.len());
        assert("缓存读取"@.len() != "流式"@.len());
        assert("缓存读取"@.len() != "会话"@.len());
        assert("缓存读取"@.len() != "来源"@.len());
        assert("缓存读取"@.len() != "错误"@.len());
        assert("缓存创建"@.len() != "费用"@.len());
        assert("缓存创建"@.len() != "延迟"@.len());
        assert("缓存创建"@.len() != "首字"@.len());
        assert("缓存创建"@.len() != "耗时"@.len());
        assert("缓存创建"@.len() != "流式"@.len());
        assert("缓存创建"@.len() != "会话"@.len());
        assert("缓存创建"@.len() != "来源"@.len());
        assert("缓存创建"@.len() != "错误"@.len());
        assert("费用"@[0] != "延迟"@[0]);
        assert("费用"@[0] != "首字"@[0]);
        assert("费用"@[0] != "耗时"@[0]);
        assert("费用"@[0] != "流式"@[0]);
        assert("费用"@[0] != "会话"@[0]);
        assert("费用"@[0] != "来源"@[0]);
        assert("费用"@[0] != "错误"@[0]);
        assert("延迟"@[0] != "首字"@[0]);
        assert("延迟"@[0] != "耗时"@[0]);
        assert("延迟"@[0] != "流式"@[0]);
        assert("延迟"@[0] != "会话"@[0]);
        assert("延迟"@[0] != "来源"@[0]);
        assert("延迟"@[0] != "错误"@[0]);
        assert("首字"@[0] != "耗时"@[0]);
        assert("首字"@[0] != "流式"@[0]);
        assert("首字"@[0] != "会话"@[0]);
        assert("首字"@[0] != "来源"@[0]);
        assert("首字"@[0] != "错误"@[0]);
        assert("耗时"@[0] != "流式"@[0]);
        assert("耗时"@[0] != "会话"@[0]);
        assert("耗时"@[0] != "来源"@[0]);
        assert("耗时"@[0] != "错误"@[0]);
        assert("流式"@[0] != "会话"@[0]);
        assert("流式"@[0] != "来源"@[0]);
        assert("流式"@[0] != "错误"@[0]);
        assert("会话"@[0] != "来源"@[0]);
        assert("会话"@[0] != "错误"@[0]);
        assert("来源"@[0] != "错误"@[0]);
    } else {
        assert("Request"@.len() != "Time"@.len());
        assert("Request"@.len() != "App"@.len());
        assert("Request"@.len() != "Provider"@.len());
        assert("Request"@.len() != "Provider Type"@.len());
        assert("Request"@.len() != "Model"@.len());
        assert("Request"@.len() != "Request Model"@.len());
        assert("Request"@.len() != "Status"@.len());
        assert("Request"@.len() != "Tokens"@.len());
        assert("Request"@.len() != "Input"@.len());
        assert("Request"@.len() != "Output"@.len());
        assert("Request"@.len() != "Cache Read"@.len());
        assert("Request"@.len() != "Cache Create"@.len());
        assert("Request"@.len() != "Cost"@.len());
        assert("Request"@[0] != "Latency"@[0]);
        assert("Request"@.len() != "First Token"@.len());
        assert("Request"@.len() != "Duration"@.len());
        assert("Request"@.len() != "Streaming"@.len());
        assert("Request"@[0] != "Session"@[0]);
        assert("Request"@.len() != "Source"@.len());
        assert("Request"@.len() != "Error"@.len());
        assert("Time"@.len() != "App"@.len());
        assert("Time"@.len() != "Provider"@.len());
        assert("Time"@.len() != "Provider Type"@.len());
        assert("Time"@.len() != "Model"@.len());
        assert("Time"@.len() != "Request Model"@.len());
        assert("Time"@.len() != "Status"@.len());
        assert("Time"@.len() != "Tokens"@.len());
        assert("Time"@.len() != "Input"@.len());
        assert("Time"@.len() != "Output"@.len());
        assert("Time"@.len() != "Cache Read"@.len());
        assert("Time"@.len() != "Cache Create"@.len());
        assert("Time"@[0] != "Cost"@[0]);
        assert("Time"@.len() != "Latency"@.len());
        assert("Time"@.len() != "First Token"@.len());
        assert("Time"@.len() != "Duration"@.len());
        assert("Time"@.len() != "Streaming"@.len());
        assert("Time"@.len() != "Session"@.len());
        assert("Time"@.len() != "Source"@.len());
        assert("Time"@.len() != "Error"@.len());
        assert("App"@.len() != "Provider"@.len());
        assert("App"@.len() != "Provider Type"@.len());
        assert("App"@.len() != "Model"@.len());
        assert("App"@.len() != "Request Model"@.len());
        assert("App"@.len() != "Status"@.len());
        assert("App"@.len() != "Tokens"@.len());
        assert("App"@.len() != "Input"@.len());
        assert("App"@.len() != "Output"@.len());
        assert("App"@.len() != "Cache Read"@.len());
        assert("App"@.len() != "Cache Create"@.len());
        assert("App"@.len() != "Cost"@.len());
        assert("App"@.len() != "Latency"@.len());
        assert("App"@.len() != "First Token"@.len());
        assert("App"@.len() != "Duration"@.len());
        assert("App"@.len() != "Streaming"@.len());
        assert("App"@.len() != "Session"@.len());
        assert("App"@.len() != "Source"@.len());
        assert("App"@.len() != "Error"@.len());
        assert("Provider"@.len() != "Provider Type"@.len());
        assert("Provider"@.len() != "Model"@.len());
        assert("Provider"@.len() != "Request Model"@.len());
        assert("Provider"@.len() != "Status"@.len());
        assert("Provider"@.len() != "Tokens"@.len());
        assert("Provider"@.len() != "Input"@.len());
        assert("Provider"@.len() != "Output"@.len());
        assert("Provider"@.len() != "Cache Read"@.len());
        assert("Provider"@.len() != "Cache Create"@.len());
        assert("Provider"@.len() != "Cost"@.len());
        assert("Provider"@.len() != "Latency"@.len());
        assert("Provider"@.len() != "First Token"@.len());
        assert("Provider"@[0] != "Duration"@[0]);
        assert("Provider"@.len() != "Streaming"@.len());
        assert("Provider"@.len() != "Session"@.len());
        assert("Provider"@.len() != "Source"@.len());
        assert("Provider"@.len() != "Error"@.len());
        assert("Provider Type"@.len() != "Model"@.len());
        assert("Provider Type"@[0] != "Request Model"@[0]);
        assert("Provider Type"@.len() != "Status"@.len());
        assert("Provider Type"@.len() != "Tokens"@.len());
        assert("Provider Type"@.len() != "Input"@.len());
        assert("Provider Type"@.len() != "Output"@.len());
        assert("Provider Type"@.len() != "Cache Read"@.len());
        assert("Provider Type"@.len() != "Cache Create"@.len());
        assert("Provider Type"@.len() != "Cost"@.len());
        assert("Provider Type"@.len() != "Latency"@.len());
        assert("Provider Type"@.len() != "First Token"@.len());
        assert("Provider Type"@.len() != "Duration"@.len());
        assert("Provider Type"@.len() != "Streaming"@.len());
        assert("Provider Type"@.len() != "Session"@.len());
        assert("Provider Type"@.len() != "Source"@.len());
        assert("Provider Type"@.len() != "Error"@.len());
        assert("Model"@.len() != "Request Model"@.len());
        assert("Model"@.len() != "Status"@.len());
        assert("Model"@.len() != "Tokens"@.len());
        assert("Model"@[0] != "Input"@[0]);
        assert("Model"@.len() != "Output"@.len());
        assert("Model"@.len() != "Cache Read"@.len());
        assert("Model"@.len() != "Cache Create"@.len());
        assert("Model"@.len() != "Cost"@.len());
        assert("Model"@.len() != "Latency"@.len());
        assert("Model"@.len() != "First Token"@.len());
        assert("Model"@.len() != "Duration"@.len());
        assert("Model"@.len() != "Streaming"@.len());
        assert("Model"@.len() != "Session"@.len());
        assert("Model"@.len() != "Source"@.len());
        assert("Model"@[0] != "Error"@[0]);
        assert("Request Model"@.len() != "Status"@.len());
        assert("Request Model"@.len() != "Tokens"@.len());
        assert("Request Model"@.len() != "Input"@.len());
        assert("Request Model"@.len() != "Output"@.len());
        assert("Request Model"@.len() != "Cache Read"@.len());
        assert("Request Model"@.len() != "Cache Create"@.len());
        assert("Request Model"@.len() != "Cost"@.len());
        assert("Request Model"@.len() != "Latency"@.len());
        assert("Request Model"@.len() != "First Token"@.len());
        assert("Request Model"@.len() != "Duration"@.len());
        assert("Request Model"@.len() != "Streaming"@.len());
        assert("Request Model"@.len() != "Session"@.len());
        assert("Request Model"@.len() != "Source"@.len());
        assert("Request Model"@.len() != "Error"@.len());
        assert("Status"@[0] != "Tokens"@[0]);
        assert("Status"@.len() != "Input"@.len());
        assert("Status"@[0] != "Output"@[0]);
        assert("Status"@.len() != "Cache Read"@.len());
        assert("Status"@.len() != "Cache Create"@.len());
        assert("Status"@.len() != "Cost"@.len());
        assert("Status"@.len() != "Latency"@.len());
        assert("Status"@.len() != "First Token"@.len());
        assert("Status"@.len() != "Duration"@.len());
        assert("Status"@.len() != "Streaming"@.len());
        assert("Status"@.len() != "Session"@.len());
        assert("Status"@[1] != "Source"@[1]);
        assert("Status"@.len() != "Error"@.len());
        assert("Tokens"@.len() != "Input"@.len());
        assert("Tokens"@[0] != "Output"@[0]);
        assert("Tokens"@.len() != "Cache Read"@.len());
        assert("Tokens"@.len() != "Cache Create"@.len());
        assert("Tokens"@.len() != "Cost"@.len());
        assert("Tokens"@.len() != "Latency"@.len());
        assert("Tokens"@.len() != "First Token"@.len());
        assert("Tokens"@.len() != "Duration"@.len());
        assert("Tokens"@.len() != "Streaming"@.len());
        assert("Tokens"@.len() != "Session"@.len());
        assert("Tokens"@[0] != "Source"@[0]);
        assert("Tokens"@.len() != "Error"@.len());
        assert("Input"@.len() != "Output"@.len());
        assert("Input"@.len() != "Cache Read"@.len());
        assert("Input"@.len() != "Cache Create"@.len());
        assert("Input"@.len() != "Cost"@.len());
        assert("Input"@.len() != "Latency"@.len());
        assert("Input"@.len() != "First Token"@.len());
        assert("Input"@.len() != "Duration"@.len());
        assert("Input"@.len() != "Streaming"@.len());
        assert("Input"@.len() != "Session"@.len());
        assert("Input"@.len() != "Source"@.len());
        assert("Input"@[0] != "Error"@[0]);
        assert("Output"@.len() != "Cache Read"@.len());
        assert("Output"@.len() != "Cache Create"@.len());
        assert("Output"@.len() != "Cost"@.len());
        assert("Output"@.len() != "Latency"@.len());
        assert("Output"@.len() != "First Token"@.len());
        assert("Output"@.len() != "Duration"@.len());
        assert("Output"@.len() != "Streaming"@.len());
        assert("Output"@.len() != "Session"@.len());
        assert("Output"@[0] != "Source"@[0]);
        assert("Output"@.len() != "Error"@.len());
        assert("Cache Read"@.len() != "Cache Create"@.len());
        assert("Cache Read"@.len() != "Cost"@.len());
        assert("Cache Read"@.len() != "Latency"@.len());
        assert("Cache Read"@.len() != "First Token"@.len());
        assert("Cache Read"@.len() != "Duration"@.len());
        assert("Cache Read"@.len() != "Streaming"@.len());
        assert("Cache Read"@.len() != "Session"@.len());
        assert("Cache Read"@.len() != "Source"@.len());
        assert("Cache Read"@.len() != "Error"@.len());
        assert("Cache Create"@.len() != "Cost"@.len());
        assert("Cache Create"@.len() != "Latency"@.len());
        assert("Cache Create"@.len() != "First Token"@.len());
        assert("Cache Create"@.len() != "Duration"@.len());
        assert("Cache Create"@.len() != "Streaming"@.len());
        assert("Cache Create"@.len() != "Session"@.len());
        assert("Cache Create"@.len() != "Source"@.len());
        assert("Cache Create"@.len() != "Error"@.len());
        assert("Cost"@.len() != "Latency"@.len());
        assert("Cost"@.len() != "First Token"@.len());
        assert("Cost"@.len() != "Duration"@.len());
        assert("Cost"@.len() != "Streaming"@.len());
        assert("Cost"@.len() != "Session"@.len());
        assert("Cost"@.len() != "Source"@.len());
        assert("Cost"@.len() != "Error"@.len());
        assert("Latency"@.len() != "First Token"@.len());
        assert("Latency"@.len() != "Duration"@.len());
        assert("Latency"@.len() != "Streaming"@.len());
        assert("Latency"@[0] != "Session"@[0]);
        assert("Latency"@.len() != "Source"@.len());
        assert("Latency"@.len() != "Error"@.len());
        assert("First Token"@.len() != "Duration"@.len());
        assert("First Token"@.len() != "Streaming"@.len());
        assert("First Token"@.len() != "Session"@.len());
        assert("First Token"@.len() != "Source"@.len());
        assert("First Token"@.len() != "Error"@.len());
        assert("Duration"@.len() != "Streaming"@.len());
        assert("Duration"@.len() != "Session"@.len());
        assert("Duration"@.len() != "Source"@.len());
        assert("Duration"@.len() != "Error"@.len());
        assert("Streaming"@.len() != "Session"@.len());
        assert("Streaming"@.len() != "Source"@.len());
        assert("Streaming"@.len() != "Error"@.len());
        assert("Session"@.len() != "Source"@.len());
        assert("Session"@.len() != "Error"@.len());
        assert("Source"@.len() != "Error"@.len());
    }
    assert(rows[0].0 != rows[1].0);
    assert(rows[0].0 != rows[2].0);
    assert(rows[0].0 != rows[3].0);
    assert(rows[0].0 != rows[4].0);
    assert(rows[0].0 != rows[5].0);
    assert(rows[0].0 != rows[6].0);
    assert(rows[0].0 != rows[7].0);
    assert(rows[0].0 != rows[8].0);
    assert(rows[0].0 != rows[9].0);
    assert(rows[0].0 != rows[10].0);
    assert(rows[0].0 != rows[11].0);
    assert(rows[0].0 != rows[12].0);
    assert(rows[0].0 != rows[13].0);
    assert(rows[0].0 != rows[14].0);
    assert(rows[0].0 != rows[15].0);
    assert(rows[0].0 != rows[16].0);
    assert(rows[0].0 != rows[17].0);
    assert(rows[0].0 != rows[18].0);
    assert(rows[0].0 != rows[19].0);
    assert(rows[0].0 != rows[20].0);
    assert(rows[1].0 != rows[2].0);
    assert(rows[1].0 != rows[3].0);
    assert(rows[1].0 != rows[4].0);
    assert(rows[1].0 != rows[5].0);
    assert(rows[1].0 != rows[6].0);
    assert(rows[1].0 != rows[7].0);
    assert(rows[1].0 != rows[8].0);
    assert(rows[1].0 != rows[9].0);
    assert(rows[1].0 != rows[10].0);
    assert(rows[1].0 != rows[11].0);
    assert(rows[1].0 != rows[12].0);
    assert(rows[1].0 != rows[13].0);
    assert(rows[1].0 != rows[14].0);
    assert(rows[1].0 != rows[15].0);
    assert(rows[1].0 != rows[16].0);
    assert(rows[1].0 != rows[17].0);
    assert(rows[1].0 != rows[18].0);
    assert(rows[1].0 != rows[19].0);
    assert(rows[1].0 != rows[20].0);
    assert(rows[2].0 != rows[3].0);
    assert(rows[2].0 != rows[4].0);
    assert(rows[2].0 != rows[5].0);
    assert(rows[2].0 != rows[6].0);
    assert(rows[2].0 != rows[7].0);
    assert(rows[2].0 != rows[8].0);
    assert(rows[2].0 != rows[9].0);
    assert(rows[2].0 != rows[10].0);
    assert(rows[2].0 != rows[11].0);
    assert(rows[2].0 != rows[12].0);
    assert(rows[2].0 != rows[13].0);
    assert(rows[2].0 != rows[14].0);
    assert(rows[2].0 != rows[15].0);
    assert(rows[2].0 != rows[16].0);
    assert(rows[2].0 != rows[17].0);
    assert(rows[2].0 != rows[18].0);
    assert(rows[2].0 != rows[19].0);
    assert(rows[2].0 != rows[20].0);
    assert(rows[3].0 != rows[4].0);
    assert(rows[3].0 != rows[5].0);
    assert(rows[3].0 != rows[6].0);
    assert(rows[3].0 != rows[7].0);
    assert(rows[3].0 != rows[8].0);
    assert(rows[3].0 != rows[9].0);
    assert(rows[3].0 != rows[10].0);
    assert(rows[3].0 != rows[11].0);
    assert(rows[3].0 != rows[12].0);
    assert(rows[3].0 != rows[13].0);
    assert(rows[3].0 != rows[14].0);
    assert(rows[3].0 != rows[15].0);
    assert(rows[3].0 != rows[16].0);
    assert(rows[3].0 != rows[17].0);
    assert(rows[3].0 != rows[18].0);
    assert(rows[3].0 != rows[19].0);
    assert(rows[3].0 != rows[20].0);
    assert(rows[4].0 != rows[5].0);
    assert(rows[4].0 != rows[6].0);
    assert(rows[4].0 != rows[7].0);
    assert(rows[4].0 != rows[8].0);
    assert(rows[4].0 != rows[9].0);
    assert(rows[4].0 != rows[10].0);
    assert(rows[4].0 != rows[11].0);
    assert(rows[4].0 != rows[12].0);
    assert(rows[4].0 != rows[13].0);
    assert(rows[4].0 != rows[14].0);
    assert(rows[4].0 != rows[15].0);
    assert(rows[4].0 != rows[16].0);
    assert(rows[4].0 != rows[17].0);
    assert(rows[4].0 != rows[18].0);
    assert(rows[4].0 != rows[19].0);
    assert(rows[4].0 != rows[20].0);
    assert(rows[5].0 != rows[6].0);
    assert(rows[5].0 != rows[7].0);
    assert(rows[5].0 != rows[8].0);
    assert(rows[5].0 != rows[9].0);
    assert(rows[5].0 != rows[10].0);
    assert(rows[5].0 != rows[11].0);
    assert(rows[5].0 != rows[12].0);
    assert(rows[5].0 != rows[13].0);
    assert(rows[5].0 != rows[14].0);
    assert(rows[5].0 != rows[15].0);
    assert(rows[5].0 != rows[16].0);
    assert(rows[5].0 != rows[17].0);
    assert(rows[5].0 != rows[18].0);
    assert(rows[5].0 != rows[19].0);
    assert(rows[5].0 != rows[20].0);
    assert(rows[6].0 != rows[7].0);
    assert(rows[6].0 != rows[8].0);
    assert(rows[6].0 != rows[9].0);
    assert(rows[6].0 != rows[10].0);
    assert(rows[6].0 != rows[11].0);
    assert(rows[6].0 != rows[12].0);
    assert(rows[6].0 != rows[13].0);
    assert(rows[6].0 != rows[14].0);
    assert(rows[6].0 != rows[15].0);
    assert(rows[6].0 != rows[16].0);
    assert(rows[6].0 != rows[17].0);
    assert(rows[6].0 != rows[18].0);
    assert(rows[6].0 != rows[19].0);
    assert(rows[6].0 != rows[20].0);
    assert(rows[7].0 != rows[8].0);
    assert(rows[7].0 != rows[9].0);
    assert(rows[7].0 != rows[10].0);
    assert(rows[7].0 != rows[11].0);
    assert(rows[7].0 != rows[12].0);
    assert(rows[7].0 != rows[13].0);
    assert(rows[7].0 != rows[14].0);
    assert(rows[7].0 != rows[15].0);
    assert(rows[7].0 != rows[16].0);
    assert(rows[7].0 != rows[17].0);
    assert(rows[7].0 != rows[18].0);
    assert(rows[7].0 != rows[19].0);
    assert(rows[7].0 != rows[20].0);
    assert(rows[8].0 != rows[9].0);
    assert(rows[8].0 != rows[10].0);
    assert(rows[8].0 != rows[11].0);
    assert(rows[8].0 != rows[12].0);
    assert(rows[8].0 != rows[13].0);
    assert(rows[8].0 != rows[14].0);
    assert(rows[8].0 != rows[15].0);
    assert(rows[8].0 != rows[16].0);
    assert(rows[8].0 != rows[17].0);
    assert(rows[8].0 != rows[18].0);
    assert(rows[8].0 != rows[19].0);
    assert(rows[8].0 != rows[20].0);
    assert(rows[9].0 != rows[10].0);
    assert(rows[9].0 != rows[11].0);
    assert(rows[9].0 != rows[12].0);
    assert(rows[9].0 != rows[13].0);
    assert(rows[9].0 != rows[14].0);
    assert(rows[9].0 != rows[15].0);
    assert(rows[9].0 != rows[16].0);
    assert(rows[9].0 != rows[17].0);
    assert(rows[9].0 != rows[18].0);
    assert(rows[9].0 != rows[19].0);
    assert(rows[9].0 != rows[20].0);
    assert(rows[10].0 != rows[11].0);
    assert(rows[10].0 != rows[12].0);
    assert(rows[10].0 != rows[13].0);
    assert(rows[10].0 != rows[14].0);
    assert(rows[10].0 != rows[15].0);
    assert(rows[10].0 != rows[16].0);
    assert(rows[10].0 != rows[17].0);
    assert(rows[10].0 != rows[18].0);
    assert(rows[10].0 != rows[19].0);
    assert(rows[10].0 != rows[20].0);
    assert(rows[11].0 != rows[12].0);
    assert(rows[11].0 != rows[13].0);
    assert(rows[11].0 != rows[14].0);
    assert(rows[11].0 != rows[15].0);
    assert(rows[11].0 != rows[16].0);
    assert(rows[11].0 != rows[17].0);
    assert(rows[11].0 != rows[18].0);
    assert(rows[11].0 != rows[19].0);
    assert(rows[11].0 != rows[20].0);
    assert(rows[12].0 != rows[13].0);
    assert(rows[12].0 != rows[14].0);
    assert(rows[12].0 != rows[15].0);
    assert(rows[12].0 != rows[16].0);
    assert(rows[12].0 != rows[17].0);
    assert(rows[12].0 != rows[18].0);
    assert(rows[12].0 != rows[19].0);
    assert(rows[12].0 != rows[20].0);
    assert(rows[13].0 != rows[14].0);
    assert(rows[13].0 != rows[15].0);
    assert(rows[13].0 != rows[16].0);
    assert(rows[13].0 != rows[17].0);
    assert(rows[13].0 != rows[18].0);
    assert(rows[13].0 != rows[19].0);
    assert(rows[13].0 != rows[20].0);
    assert(rows[14].0 != rows[15].0);
    assert(rows[14].0 != rows[16].0);
    assert(rows[14].0 != rows[17].0);
    assert(rows[14].0 != rows[18].0);
    assert(rows[14].0 != rows[19].0);
    assert(rows[14].0 != rows[20].0);
    assert(rows[15].0 != rows[16].0);
    assert(rows[15].0 != rows[17].0);
    assert(rows[15].0 != rows[18].0);
    assert(rows[15].0 != rows[19].0);
    assert(rows[15].0 != rows[20].0);
    assert(rows[16].0 != rows[17].0);
    assert(rows[16].0 != rows[18].0);
    assert(rows[16].0 != rows[19].0);
    assert(rows[16].0 != rows[20].0);
    assert(rows[17].0 != rows[18].0);
    assert(rows[17].0 != rows[19].0);
    assert(rows[17].0 != rows[20].0);
    assert(rows[18].0 != rows[19].0);
    assert(rows[18].0 != rows[20].0);
    assert(rows[19].0 != rows[20].0);
}

/// The detail rows hold a row labelled `label`, and every row so labelled
/// shows `value`.
pub open spec fn row_shows(
    rows: Seq<(Seq<char>, Seq<char>)>,
    label: Seq<char>,
    value: Seq<char>,
) -> bool {
    &&& exists|k: int| 0 <= k < rows.len() && (#[trigger] rows[k]).0 == label
    &&& forall|k: int| 0 <= k < rows.len() && (#[trigger] rows[k]).0 == label ==> rows[k].1 == value
}

proof fn lemma_row_shows_at(d: UsageLogDetailFields, chinese: bool, t: int)
    requires
        0 <= t < 21,
    ensures
        row_shows(
            spec_detail_rows(d, chinese),
            spec_detail_rows(d, chinese)[t].0,
            spec_detail_rows(d, chinese)[t].1,
        ),
{
    let rows = spec_detail_rows(d, chinese);
    lemma_detail_labels_distinct(d, chinese);
    assert(rows[t].0 == rows[t].0);
    assert forall|k: int| 0 <= k < rows.len() && (#[trigger] rows[k]).0 == rows[t].0 implies rows[k].1
        == rows[t].1 by {
        if k < t {
            assert(rows[k].0 != rows[t].0);
        } else if t < k {
            assert(rows[t].0 != rows[k].0);
        }
    }
}

/// Each labelled row of a request log's detail view shows the field its
/// label names: the token rows their own counts (total, input, output,
/// cache read, cache creation), the latency its milliseconds, and the
/// request, time, model and cost rows their fields, in either language.
pub proof fn lemma_detail_rows_show_their_fields(d: UsageLogDetailFields, chinese: bool)
    ensures
        ({
            let rows = spec_detail_rows(d, chinese);
            &&& row_shows(rows, lang(chinese, "Request"@, "请求"@), d.request_id@)
            &&& row_shows(rows, lang(chinese, "Time"@, "时间"@), d.time@)
            &&& row_shows(rows, lang(chinese, "Model"@, "模型"@), d.model@)
            &&& row_shows(rows, lang(chinese, "Tokens"@, "Token"@), decimal(d.total_tokens as nat))
            &&& row_shows(rows, lang(chinese, "Input"@, "输入"@), decimal(d.input_tokens as nat))
            &&& row_shows(rows, lang(chinese, "Output"@, "输出"@), decimal(d.output_tokens as nat))
            &&& row_shows(
                rows,
                lang(chinese, "Cache Read"@, "缓存读取"@),
                decimal(d.cache_read_tokens as nat),
            )
            &&& row_shows(
                rows,
                lang(chinese, "Cache Create"@, "缓存创建"@),
                decimal(d.cache_creation_tokens as nat),
            )
            &&& row_shows(rows, lang(chinese, "Cost"@, "费用"@), d.cost@)
            &&& row_shows(
                rows,
                lang(chinese, "Latency"@, "延迟"@),
                decimal(d.latency_ms as nat) + "ms"@,
            )
        }),
{
    lemma_row_shows_at(d, chinese, 0);
    lemma_row_shows_at(d, chinese, 1);
    lemma_row_shows_at(d, chinese, 5);
    lemma_row_shows_at(d, chinese, 8);
    lemma_row_shows_at(d, chinese, 9);
    lemma_row_shows_at(d, chinese, 10);
    lemma_row_shows_at(d, chinese, 11);
    lemma_row_shows_at(d, chinese, 12);
    lemma_row_shows_at(d, chinese, 13);
    lemma_row_shows_at(d, chinese, 14);
}

} // verus!
