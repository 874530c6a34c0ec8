//! Text pieces of the usage views: bilingual labels, integer rendering,
//! status labels, latency cells, provider names, the detail summary line
//! and the trimming of trend points to the chart width.

use vstd::prelude::*;
use vstd::slice::slice_subrange;
use crate::text::{all_whitespace, is_blank};
use crate::usage_nav::{UsageMetric, UsagePane};

verus! {

/// The English or the Chinese text, by the interface language.
pub fn usage_text(en: &'static str, zh: &'static str, chinese: bool) -> (s: &'static str)
    ensures
        s == (if chinese {
            zh
        } else {
            en
        }),
{
    if chinese {
        zh
    } else {
        en
    }
}

/// The label of a trend metric.
pub fn usage_metric_label(metric: UsageMetric, chinese: bool) -> (s: &'static str)
    ensures
        s@ == (match metric {
            UsageMetric::Cost => if chinese {
                "费用"@
            } else {
                "Cost"@
            },
            UsageMetric::Tokens => if chinese {
                "Token"@
            } else {
                "Tokens"@
            },
            UsageMetric::Requests => if chinese {
                "请求"@
            } else {
                "Requests"@
            },
            UsageMetric::Errors => if chinese {
                "错误"@
            } else {
                "Errors"@
            },
        }),
{
    match metric {
        UsageMetric::Cost => usage_text("Cost", "费用", chinese),
        UsageMetric::Tokens => usage_text("Tokens", "Token", chinese),
        UsageMetric::Requests => usage_text("Requests", "请求", chinese),
        UsageMetric::Errors => usage_text("Errors", "错误", chinese),
    }
}

/// The title of a detail pane.
pub fn usage_detail_pane_title(pane: UsagePane, chinese: bool) -> (s: &'static str)
    ensures
        s@ == (match pane {
            UsagePane::Models => if chinese {
                "模型统计"@
            } else {
                "Model Stats"@
            },
            UsagePane::Providers => if chinese {
                "Provider 统计"@
            } else {
                "Provider Stats"@
            },
            UsagePane::Recent => if chinese {
                "请求日志"@
            } else {
                "Request Logs"@
            },
        }),
{
    match pane {
        UsagePane::Models => usage_text("Model Stats", "模型统计", chinese),
        UsagePane::Providers => usage_text("Provider Stats", "Provider 统计", chinese),
        UsagePane::Recent => usage_text("Request Logs", "请求日志", chinese),
    }
}

/// The decimal digit `d`.
pub open spec fn digit_char(d: nat) -> char {
    if d == 0 {
        '0'
    } else if d == 1 {
        '1'
    } else if d == 2 {
        '2'
    } else if d == 3 {
        '3'
    } else if d == 4 {
        '4'
    } else if d == 5 {
        '5'
    } else if d == 6 {
        '6'
    } else if d == 7 {
        '7'
    } else if d == 8 {
        '8'
    } else {
        '9'
    }
}

/// The decimal representation of `n`, without leading zeros.
pub open spec fn decimal(n: nat) -> Seq<char>
    decreases n,
{
    if n < 10 {
        seq![digit_char(n)]
    } else {
        decimal(n / 10).push(digit_char(n % 10))
    }
}

fn digit_str(d: u64) -> (s: &'static str)
    requires
        d < 10,
    ensures
        s@ == seq![digit_char(d as nat)],
{
    if d == 0 {
        proof {
            reveal_strlit("0");
        }
        "0"
    } else if d == 1 {
        proof {
            reveal_strlit("1");
        }
        "1"
    } else if d == 2 {
        proof {
            reveal_strlit("2");
        }
        "2"
    } else if d == 3 {
        proof {
            reveal_strlit("3");
        }
        "3"
    } else if d == 4 {
        proof {
            reveal_strlit("4");
        }
        "4"
    } else if d == 5 {
        proof {
            reveal_strlit("5");
        }
        "5"
    } else if d == 6 {
        proof {
            reveal_strlit("6");
        }
        "6"
    } else if d == 7 {
        proof {
            reveal_strlit("7");
        }
        "7"
    } else if d == 8 {
        proof {
            reveal_strlit("8");
        }
        "8"
    } else {
        proof {
            reveal_strlit("9");
        }
        "9"
    }
}

/// `n` in decimal, as `n.to_string()` renders it.
pub fn to_decimal(n: u64) -> (s: String)
    ensures
        s@ == decimal(n as nat),
    decreases n,
{
    if n < 10 {
        digit_str(n).to_owned()
    } else {
        let mut s = to_decimal(n / 10);
        s.append(digit_str(n % 10));
        s
    }
}

/// A status cell: `ok` for a 2xx status, otherwise the code.
pub fn status_label(status_code: u16) -> (s: String)
    ensures
        s@ == (if 200 <= status_code < 300 {
            "ok"@
        } else {
            decimal(status_code as nat)
        }),
{
    if 200 <= status_code && status_code < 300 {
        "ok".to_owned()
    } else {
        to_decimal(status_code as u64)
    }
}

/// A latency cell: the milliseconds with an `ms` suffix, or `-`.
pub fn format_ms(value: Option<u64>) -> (s: String)
    ensures
        s@ == (match value {
            Some(v) => decimal(v as nat) + "ms"@,
            None => "-"@,
        }),
{
    match value {
        Some(v) => {
            let mut s = to_decimal(v);
            s.append("ms");
            s
        },
        None => "-".to_owned(),
    }
}

/// The provider's name, or the fallback (its id) when the name is missing
/// or blank.
pub fn display_provider_name(name: Option<&str>, fallback: &str) -> (s: String)
    ensures
        s@ == (match name {
            Some(n) => if all_whitespace(n@) {
                fallback@
            } else {
                n@
            },
            None => fallback@,
        }),
{
    match name {
        Some(n) => {
            if is_blank(n) {
                fallback.to_owned()
            } else {
                n.to_owned()
            }
        },
        None => fallback.to_owned(),
    }
}

/// How a request-log row is highlighted.
#[derive(Debug, Clone, Copy, PartialEq, Eq, Structural)]
pub enum StatusSeverity {
    Normal,
    Warning,
    Error,
}

/// Successful requests are plain, 5xx failures errors, other failures
/// warnings.
pub fn status_severity(is_success: bool, status_code: u16) -> (s: StatusSeverity)
    ensures
        s == (if is_success {
            StatusSeverity::Normal
        } else if status_code >= 500 {
            StatusSeverity::Error
        } else {
            StatusSeverity::Warning
        }),
{
    if is_success {
        StatusSeverity::Normal
    } else if status_code >= 500 {
        StatusSeverity::Error
    } else {
        StatusSeverity::Warning
    }
}

/// How many trend points a chart `width` columns wide shows: narrow charts
/// keep `width - 4` (at least 6), wide ones `width - 12` (at least 12).
pub open spec fn point_budget(width: u16) -> nat {
    if width < 44 {
        if width >= 10 {
            (width - 4) as nat
        } else {
            6
        }
    } else if width >= 24 {
        (width - 12) as nat
    } else {
        12
    }
}

/// The trend points a chart `width` columns wide shows: all of them if they
/// fit, otherwise the most recent ones.
pub fn fit_trend_points<'a, T>(trend: &'a [T], width: u16) -> (r: &'a [T])
    ensures
        trend@.len() <= point_budget(width) ==> r@ == trend@,
        trend@.len() > point_budget(width) ==> r@ == trend@.subrange(
            trend@.len() - point_budget(width),
            trend@.len() as int,
        ),
{
    let budget: usize = if width < 44 {
        let w = width.saturating_sub(4);
        if w >= 6 {
            w as usize
        } else {
            6
        }
    } else {
        let w = width.saturating_sub(12);
        if w >= 12 {
            w as usize
        } else {
            12
        }
    };
    if trend.len() <= budget {
        return trend;
    }
    let start = trend.len() - budget;
    slice_subrange(trend, start, trend.len())
}

/// The summary line of the usage detail view for the active pane: the range
/// label and row count of the model or provider table, or the number of
/// request logs shown and stored.
pub open spec fn spec_detail_summary(
    pane: UsagePane,
    range_label: Seq<char>,
    models: nat,
    providers: nat,
    logs_shown: nat,
    logs_total: nat,
    chinese: bool,
) -> Seq<char> {
    match pane {
        UsagePane::Models => if chinese {
            range_label + " · 模型统计 · "@ + decimal(models) + " 条"@
        } else {
            range_label + " · model stats · "@ + decimal(models) + " rows"@
        },
        UsagePane::Providers => if chinese {
            range_label + " · Provider 统计 · "@ + decimal(providers) + " 条"@
        } else {
            range_label + " · provider stats · "@ + decimal(providers) + " rows"@
        },
        UsagePane::Recent => if chinese {
            "请求日志 · 显示最近 "@ + decimal(logs_shown) + " 条 · 共 "@ + decimal(logs_total)
                + " 条"@
        } else {
            "request logs · latest "@ + decimal(logs_shown) + " rows shown · "@ + decimal(
                logs_total,
            ) + " total rows"@
        },
    }
}

pub fn usage_detail_summary_line(
    pane: UsagePane,
    range_label: &str,
    models: u64,
    providers: u64,
    logs_shown: u64,
    logs_total: u64,
    chinese: bool,
) -> (s: String)
    ensures
        s@ == spec_detail_summary(
            pane,
            range_label@,
            models as nat,
            providers as nat,
            logs_shown as nat,
            logs_total as nat,
            chinese,
        ),
{
    match pane {
        UsagePane::Models => {
            let mut s = range_label.to_owned();
            s.append(
                if chinese {
                    " · 模型统计 · "
                } else {
                    " · model stats · "
                },
            );
            s.append(to_decimal(models).as_str());
            s.append(
                if chinese {
                    " 条"
                } else {
                    " rows"
                },
            );
            s
        },
        UsagePane::Providers => {
            let mut s = range_label.to_owned();
            s.append(
                if chinese {
                    " · Provider 统计 · "
                } else {
                    " · provider stats · "
                },
            );
            s.append(to_decimal(providers).as_str());
            s.append(
                if chinese {
                    " 条"
                } else {
                    " rows"
                },
            );
            s
        },
        UsagePane::Recent => {
            let mut s = (if chinese {
                "请求日志 · 显示最近 "
            } else {
                "request logs · latest "
            }).to_owned();
            s.append(to_decimal(logs_shown).as_str());
            s.append(
                if chinese {
                    " 条 · 共 "
                } else {
                    " rows shown · "
                },
            );
            s.append(to_decimal(logs_total).as_str());
            s.append(
                if chinese {
                    " 条"
                } else {
                    " total rows"
                },
            );
            s
        },
    }
}

/// `d` sits at the end of `s`, just before the unit `u`.
pub open spec fn ends_with_count(s: Seq<char>, d: Seq<char>, u: Seq<char>) -> bool {
    &&& s.len() >= d.len() + u.len()
    &&& s.subrange(s.len() - u.len() - d.len(), s.len() - u.len()) == d
    &&& s.subrange(s.len() - u.len(), s.len() as int) == u
}

proof fn lemma_ends_with_count(a: Seq<char>, d: Seq<char>, u: Seq<char>)
    ensures
        ends_with_count(a + d + u, d, u),
        (a + d + u).subrange(0, a.len() as int) == a,
{
    let s = a + d + u;
    assert(s.subrange(s.len() - u.len() - d.len(), s.len() - u.len()) =~= d);
    assert(s.subrange(s.len() - u.len(), s.len() as int) =~= u);
    assert(s.subrange(0, a.len() as int) =~= a);
}

/// The summary line of each pane shows its own count and no other: the
/// model table's line starts with the range label and ends with the number
/// of model rows and the unit, whatever the provider and log counts; the
/// provider table's line likewise with the number of provider rows; the
/// request-log line depends on the log counts alone. This holds in both
/// languages.
pub proof fn lemma_summary_shows_its_count(
    range_label: Seq<char>,
    models: nat,
    providers: nat,
    logs_shown: nat,
    logs_total: nat,
    chinese: bool,
    other_models: nat,
    other_providers: nat,
    other_shown: nat,
    other_total: nat,
    other_label: Seq<char>,
)
    ensures
        ({
            let unit = if chinese {
                " 条"@
            } else {
                " rows"@
            };
            let m = spec_detail_summary(
                UsagePane::Models,
                range_label,
                models,
                providers,
                logs_shown,
                logs_total,
                chinese,
            );
            let p = spec_detail_summary(
                UsagePane::Providers,
                range_label,
                models,
                providers,
                logs_shown,
                logs_total,
                chinese,
            );
            &&& m == spec_detail_summary(
                UsagePane::Models,
                range_label,
                models,
                other_providers,
                other_shown,
                other_total,
                chinese,
            )
            &&& m.subrange(0, range_label.len() as int) == range_label
            &&& ends_with_count(m, decimal(models), unit)
            &&& p == spec_detail_summary(
                UsagePane::Providers,
                range_label,
                other_models,
                providers,
                other_shown,
                other_total,
                chinese,
            )
            &&& p.subrange(0, range_label.len() as int) == range_label
            &&& ends_with_count(p, decimal(providers), unit)
            &&& spec_detail_summary(
                UsagePane::Recent,
                range_label,
                models,
                providers,
                logs_shown,
                logs_total,
                chinese,
            ) == spec_detail_summary(
                UsagePane::Recent,
                other_label,
                other_models,
                other_providers,
                logs_shown,
                logs_total,
                chinese,
            )
        }),
{
    if chinese {
        lemma_ends_with_count(range_label + " · 模型统计 · "@, decimal(models), " 条"@);
        lemma_ends_with_count(range_label + " · Provider 统计 · "@, decimal(providers), " 条"@);
        assert((range_label + " · 模型统计 · "@).subrange(0, range_label.len() as int) =~= range_label);
        assert((range_label + " · Provider 统计 · "@).subrange(0, range_label.len() as int)
            =~= range_label);
    } else {
        lemma_ends_with_count(range_label + " · model stats · "@, decimal(models), " rows"@);
        lemma_ends_with_count(range_label + " · provider stats · "@, decimal(providers), " rows"@);
        assert((range_label + " · model stats · "@).subrange(0, range_label.len() as int)
            =~= range_label);
        assert((range_label + " · provider stats · "@).subrange(0, range_label.len() as int)
            =~= range_label);
    }
}

/// The range line of the usage trend: first and last bucket labels joined
/// by ` -> `, `-` standing for a missing label.
pub fn usage_trend_range_text(first: Option<&str>, last: Option<&str>) -> (s: String)
    ensures
        s@ == (match first {
            Some(f) => f@,
            None => "-"@,
        }) + " -> "@ + (match last {
            Some(l) => l@,
            None => "-"@,
        }),
{
    let mut s = match first {
        Some(f) => f.to_owned(),
        None => "-".to_owned(),
    };
    s.append(" -> ");
    match last {
        Some(l) => s.append(l),
        None => s.append("-"),
    }
    s
}

/// `label` left-aligned in a field `width` characters wide (`{:<width}`):
/// padded with spaces, never cut.
pub fn pad_label(label: &str, width: usize) -> (s: String)
    ensures
        s@ == label@ + Seq::new(
            (if label@.len() < width {
                width - label@.len()
            } else {
                0
            }) as nat,
            |i: int| ' ',
        ),
{
    proof {
        reveal_strlit(" ");
    }
    let n = label.unicode_len();
    let mut s = label.to_owned();
    let mut k: usize = n;
    while k < width
        invariant
            n == label@.len(),
            " "@ == seq![' '],
            k >= n,
            n < width ==> k <= width,
            n >= width ==> k == n,
            s@ == label@ + Seq::new((k - n) as nat, |i: int| ' '),
        decreases width - k,
    {
        s.append(" ");
        k = k + 1;
        assert(s@ =~= label@ + Seq::new((k - n) as nat, |i: int| ' '));
    }
    assert(s@ =~= label@ + Seq::new(
        (if n < width {
            width - n
        } else {
            0
        }) as nat,
        |i: int| ' ',
    ));
    s
}

} // verus!
