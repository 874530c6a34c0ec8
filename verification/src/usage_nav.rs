//! Keyboard navigation of the usage statistics views: the metric shown in
//! the trend chart, the detail pane (models, providers, request logs), the
//! selected row of each table and the range preset.
//!
//! The table sizes come from the loaded usage data, which the caller holds;
//! handlers return the action the runtime performs.

use vstd::prelude::*;

verus! {

/// The metric plotted in the usage trend.
#[derive(Debug, Clone, Copy, PartialEq, Eq, Structural)]
pub enum UsageMetric {
    Cost,
    Tokens,
    Requests,
    Errors,
}

pub open spec fn spec_metric_next(m: UsageMetric) -> UsageMetric {
    match m {
        UsageMetric::Cost => UsageMetric::Tokens,
        UsageMetric::Tokens => UsageMetric::Requests,
        UsageMetric::Requests => UsageMetric::Errors,
        UsageMetric::Errors => UsageMetric::Cost,
    }
}

impl UsageMetric {
    /// Cycles Cost → Tokens → Requests → Errors → Cost.
    pub fn next(self) -> (m: Self)
        ensures
            m == spec_metric_next(self),
    {
        match self {
            UsageMetric::Cost => UsageMetric::Tokens,
            UsageMetric::Tokens => UsageMetric::Requests,
            UsageMetric::Requests => UsageMetric::Errors,
            UsageMetric::Errors => UsageMetric::Cost,
        }
    }
}

/// The detail table shown in the usage logs view.
#[derive(Debug, Clone, Copy, PartialEq, Eq, Structural)]
pub enum UsagePane {
    Models,
    Providers,
    Recent,
}

pub open spec fn spec_pane_next(p: UsagePane) -> UsagePane {
    match p {
        UsagePane::Models => UsagePane::Providers,
        UsagePane::Providers => UsagePane::Recent,
        UsagePane::Recent => UsagePane::Models,
    }
}

pub open spec fn spec_pane_previous(p: UsagePane) -> UsagePane {
    match p {
        UsagePane::Models => UsagePane::Recent,
        UsagePane::Providers => UsagePane::Models,
        UsagePane::Recent => UsagePane::Providers,
    }
}

impl UsagePane {
    /// Cycles Models → Providers → Recent → Models.
    pub fn next(self) -> (p: Self)
        ensures
            p == spec_pane_next(self),
    {
        match self {
            UsagePane::Models => UsagePane::Providers,
            UsagePane::Providers => UsagePane::Recent,
            UsagePane::Recent => UsagePane::Models,
        }
    }

    /// Cycles Models → Recent → Providers → Models.
    pub fn previous(self) -> (p: Self)
        ensures
            p == spec_pane_previous(self),
    {
        match self {
            UsagePane::Models => UsagePane::Recent,
            UsagePane::Providers => UsagePane::Models,
            UsagePane::Recent => UsagePane::Providers,
        }
    }
}

/// Going to the previous pane undoes going to the next one, and the other
/// way round; three steps in one direction come back to the start.
pub proof fn lemma_pane_cycle(p: UsagePane)
    ensures
        spec_pane_previous(spec_pane_next(p)) == p,
        spec_pane_next(spec_pane_previous(p)) == p,
        spec_pane_next(spec_pane_next(spec_pane_next(p))) == p,
        spec_pane_next(p) != p,
{
}

/// Four metric steps come back to the start, and every step changes the
/// metric.
pub proof fn lemma_metric_cycle(m: UsageMetric)
    ensures
        spec_metric_next(spec_metric_next(spec_metric_next(spec_metric_next(m)))) == m,
        spec_metric_next(m) != m,
{
}

/// The time range of the usage statistics.
#[derive(Debug, Clone, Copy, PartialEq, Eq, Structural)]
pub enum UsageRangePreset {
    Today,
    SevenDays,
    ThirtyDays,
}

/// The sizes of the usage tables in the loaded data: top models and top
/// providers per range, and the cached recent request logs.
#[derive(Debug, Clone, Copy, PartialEq, Eq, Structural)]
pub struct UsageCounts {
    pub models_today: usize,
    pub models_seven_days: usize,
    pub models_thirty_days: usize,
    pub providers_today: usize,
    pub providers_seven_days: usize,
    pub providers_thirty_days: usize,
    pub recent_logs: usize,
}

impl UsageCounts {
    pub open spec fn spec_models_for(&self, range: UsageRangePreset) -> usize {
        match range {
            UsageRangePreset::Today => self.models_today,
            UsageRangePreset::SevenDays => self.models_seven_days,
            UsageRangePreset::ThirtyDays => self.models_thirty_days,
        }
    }

    pub open spec fn spec_providers_for(&self, range: UsageRangePreset) -> usize {
        match range {
            UsageRangePreset::Today => self.providers_today,
            UsageRangePreset::SevenDays => self.providers_seven_days,
            UsageRangePreset::ThirtyDays => self.providers_thirty_days,
        }
    }

    pub fn models_for(&self, range: UsageRangePreset) -> (n: usize)
        ensures
            n == self.spec_models_for(range),
    {
        match range {
            UsageRangePreset::Today => self.models_today,
            UsageRangePreset::SevenDays => self.models_seven_days,
            UsageRangePreset::ThirtyDays => self.models_thirty_days,
        }
    }

    pub fn providers_for(&self, range: UsageRangePreset) -> (n: usize)
        ensures
            n == self.spec_providers_for(range),
    {
        match range {
            UsageRangePreset::Today => self.providers_today,
            UsageRangePreset::SevenDays => self.providers_seven_days,
            UsageRangePreset::ThirtyDays => self.providers_thirty_days,
        }
    }
}

/// The number of rows of `pane` for `range`.
pub open spec fn spec_active_pane_len(
    pane: UsagePane,
    range: UsageRangePreset,
    counts: UsageCounts,
) -> usize {
    match pane {
        UsagePane::Providers => counts.spec_providers_for(range),
        UsagePane::Models => counts.spec_models_for(range),
        UsagePane::Recent => counts.recent_logs,
    }
}

pub fn usage_active_pane_len(pane: &UsagePane, range: UsageRangePreset, counts: &UsageCounts) -> (n:
    usize)
    ensures
        n == spec_active_pane_len(*pane, range, *counts),
{
    match pane {
        UsagePane::Providers => counts.providers_for(range),
        UsagePane::Models => counts.models_for(range),
        UsagePane::Recent => counts.recent_logs,
    }
}

/// The state of the usage views.
#[derive(Debug, Clone, Copy, PartialEq, Eq, Structural)]
pub struct UsageState {
    pub range: UsageRangePreset,
    pub metric: UsageMetric,
    pub pane: UsagePane,
    /// Selected row of the model or provider table.
    pub selected_idx: usize,
    /// Selected row of the request-log table.
    pub logs_idx: usize,
}

/// `idx` clamped to a table of `len` rows (0 for an empty table).
pub open spec fn spec_clamp(idx: usize, len: usize) -> usize {
    if len == 0 {
        0
    } else if idx <= len - 1 {
        idx
    } else {
        (len - 1) as usize
    }
}

/// `current` moved by `delta` rows in a table of `len` rows: upwards it
/// stops at 0, downwards at the last row; an empty table gives 0.
pub open spec fn spec_move_index(current: usize, len: usize, delta: int) -> usize {
    if len == 0 {
        0
    } else if delta < 0 {
        if current + delta < 0 {
            0
        } else {
            (current + delta) as usize
        }
    } else if current + delta <= len - 1 {
        (current + delta) as usize
    } else {
        (len - 1) as usize
    }
}

/// A row index is valid for a table of `len` rows (0 when it is empty).
pub open spec fn index_in_table(idx: usize, len: usize) -> bool {
    if len == 0 {
        idx == 0
    } else {
        idx < len
    }
}

pub fn move_index(current: usize, len: usize, delta: isize) -> (r: usize)
    ensures
        r == spec_move_index(current, len, delta as int),
        len > 0 && (delta >= 0 || current < len) ==> r < len,
{
    if len == 0 {
        return 0;
    }
    if delta < 0 {
        let magnitude: usize = (-(delta + 1)) as usize + 1;
        if current < magnitude {
            0
        } else {
            current - magnitude
        }
    } else {
        let step = delta as usize;
        if current > usize::MAX - step {
            len - 1
        } else if current + step < len - 1 {
            current + step
        } else {
            len - 1
        }
    }
}

/// The row selected in the active pane.
pub open spec fn active_index(s: UsageState) -> usize {
    match s.pane {
        UsagePane::Recent => s.logs_idx,
        _ => s.selected_idx,
    }
}

/// The active pane's selection is a valid row of its table.
pub open spec fn selection_in_table(s: UsageState, counts: UsageCounts) -> bool {
    index_in_table(active_index(s), spec_active_pane_len(s.pane, s.range, counts))
}

/// Key codes the usage views react to.
#[derive(Debug, Clone, Copy, PartialEq, Eq, Structural)]
pub enum KeyCode {
    Char(char),
    Tab,
    BackTab,
    Up,
    Down,
    PageUp,
    PageDown,
    Enter,
    Other,
}

/// A key press: its code and whether Shift was held.
#[derive(Debug, Clone, Copy, PartialEq, Eq, Structural)]
pub struct KeyInput {
    pub code: KeyCode,
    pub shift: bool,
}

/// Views the usage handlers navigate to.
#[derive(Debug, Clone, Copy, PartialEq, Eq, Structural)]
pub enum UsageRoute {
    UsageLogs,
    /// The detail of the request log at this row of the recent logs.
    UsageLogDetail { log_index: usize },
}

/// What the runtime does after a usage key.
#[derive(Debug, Clone, Copy, PartialEq, Eq, Structural)]
pub enum UsageAction {
    NoOp,
    ReloadData,
    PushRoute(UsageRoute),
}

pub open spec fn spec_clamp_selected(s: UsageState, counts: UsageCounts) -> UsageState {
    UsageState {
        selected_idx: spec_clamp(s.selected_idx, spec_active_pane_len(s.pane, s.range, counts)),
        ..s
    }
}

pub open spec fn spec_set_range(
    s: UsageState,
    range: UsageRangePreset,
    counts: UsageCounts,
) -> UsageState {
    spec_clamp_selected(UsageState { range, ..s }, counts)
}

pub open spec fn spec_reset_selection(s: UsageState, counts: UsageCounts) -> UsageState {
    let reset = match s.pane {
        UsagePane::Recent => UsageState { logs_idx: 0, ..s },
        _ => UsageState { selected_idx: 0, ..s },
    };
    spec_clamp_selected(reset, counts)
}

pub open spec fn spec_move_selection(s: UsageState, counts: UsageCounts, delta: int) -> UsageState {
    match s.pane {
        UsagePane::Recent => UsageState {
            logs_idx: spec_move_index(s.logs_idx, counts.recent_logs, delta),
            ..s
        },
        _ => UsageState {
            selected_idx: spec_move_index(
                s.selected_idx,
                spec_active_pane_len(s.pane, s.range, counts),
                delta,
            ),
            ..s
        },
    }
}

/// The usage overview's keys: `1`/`2`/`3` pick the range, `m` the next
/// metric, `L` opens the detail view on the model table (clamping both
/// selections), `r` reloads.
pub open spec fn spec_on_usage_key(s: UsageState, key: KeyInput, counts: UsageCounts) -> (
    UsageState,
    UsageAction,
) {
    match key.code {
        KeyCode::Char('1') => (
            spec_set_range(s, UsageRangePreset::Today, counts),
            UsageAction::NoOp,
        ),
        KeyCode::Char('2') => (
            spec_set_range(s, UsageRangePreset::SevenDays, counts),
            UsageAction::NoOp,
        ),
        KeyCode::Char('3') => (
            spec_set_range(s, UsageRangePreset::ThirtyDays, counts),
            UsageAction::NoOp,
        ),
        KeyCode::Char('m') => (
            UsageState { metric: spec_metric_next(s.metric), ..s },
            UsageAction::NoOp,
        ),
        KeyCode::Char('L') => (
            UsageState {
                pane: UsagePane::Models,
                selected_idx: spec_clamp(s.selected_idx, counts.spec_models_for(s.range)),
                logs_idx: spec_clamp(s.logs_idx, counts.recent_logs),
                ..s
            },
            UsageAction::PushRoute(UsageRoute::UsageLogs),
        ),
        KeyCode::Char('r') => (s, UsageAction::ReloadData),
        _ => (s, UsageAction::NoOp),
    }
}

/// Shift+Tab, or the BackTab code.
pub open spec fn is_backtab(key: KeyInput) -> bool {
    key.code == KeyCode::BackTab || (key.code == KeyCode::Tab && key.shift)
}

/// The usage detail view's keys: Tab / Shift+Tab switch the pane and reset
/// its selection, arrows move by one row and page keys by ten, Enter on the
/// request-log pane opens the selected log, `r` reloads.
pub open spec fn spec_on_usage_logs_key(s: UsageState, key: KeyInput, counts: UsageCounts) -> (
    UsageState,
    UsageAction,
) {
    if is_backtab(key) {
        (
            spec_reset_selection(UsageState { pane: spec_pane_previous(s.pane), ..s }, counts),
            UsageAction::NoOp,
        )
    } else {
        match key.code {
            KeyCode::Tab => (
                spec_reset_selection(UsageState { pane: spec_pane_next(s.pane), ..s }, counts),
                UsageAction::NoOp,
            ),
            KeyCode::Up => (spec_move_selection(s, counts, -1), UsageAction::NoOp),
            KeyCode::Down => (spec_move_selection(s, counts, 1), UsageAction::NoOp),
            KeyCode::PageUp => (spec_move_selection(s, counts, -10), UsageAction::NoOp),
            KeyCode::PageDown => (spec_move_selection(s, counts, 10), UsageAction::NoOp),
            KeyCode::Enter => (
                s,
                if s.pane == UsagePane::Recent && s.logs_idx < counts.recent_logs {
                    UsageAction::PushRoute(UsageRoute::UsageLogDetail { log_index: s.logs_idx })
                } else {
                    UsageAction::NoOp
                },
            ),
            KeyCode::Char('r') => (s, UsageAction::ReloadData),
            _ => (s, UsageAction::NoOp),
        }
    }
}

proof fn lemma_move_keeps_in_table(current: usize, len: usize, delta: int)
    requires
        index_in_table(current, len),
    ensures
        index_in_table(spec_move_index(current, len, delta), len),
{
}

/// Every key of the detail view keeps the active pane's selection on a row
/// of its table; switching panes with Tab or Shift+Tab selects the first
/// row whatever was selected before.
pub proof fn lemma_logs_keys_keep_selection_in_table(
    s: UsageState,
    key: KeyInput,
    counts: UsageCounts,
)
    ensures
        selection_in_table(s, counts) ==> selection_in_table(
            spec_on_usage_logs_key(s, key, counts).0,
            counts,
        ),
        (key.code == KeyCode::Tab || key.code == KeyCode::BackTab) ==> active_index(
            spec_on_usage_logs_key(s, key, counts).0,
        ) == 0,
{
    if selection_in_table(s, counts) {
        let len = spec_active_pane_len(s.pane, s.range, counts);
        let idx = active_index(s);
        lemma_move_keeps_in_table(idx, len, -1);
        lemma_move_keeps_in_table(idx, len, 1);
        lemma_move_keeps_in_table(idx, len, -10);
        lemma_move_keeps_in_table(idx, len, 10);
    }
}

/// Every key of the overview keeps the active pane's selection on a row of
/// its table, and `L` opens the detail view with both selections on rows of
/// their tables.
pub proof fn lemma_overview_keys_keep_selection_in_table(
    s: UsageState,
    key: KeyInput,
    counts: UsageCounts,
)
    ensures
        selection_in_table(s, counts) ==> selection_in_table(
            spec_on_usage_key(s, key, counts).0,
            counts,
        ),
        key.code == KeyCode::Char('L') ==> {
            let t = spec_on_usage_key(s, key, counts).0;
            &&& selection_in_table(t, counts)
            &&& index_in_table(t.logs_idx, counts.recent_logs)
        },
{
}

/// Tab then Shift+Tab comes back to the pane it started from, with its
/// first row selected.
pub proof fn lemma_tab_then_backtab(s: UsageState, counts: UsageCounts, shift_tab: KeyInput)
    requires
        shift_tab.code == KeyCode::BackTab || (shift_tab.code == KeyCode::Tab && shift_tab.shift),
    ensures
        ({
            let s1 = spec_on_usage_logs_key(s, KeyInput { code: KeyCode::Tab, shift: false }, counts).0;
            let s2 = spec_on_usage_logs_key(s1, shift_tab, counts).0;
            &&& s2.pane == s.pane
            &&& active_index(s2) == 0
            &&& s2.range == s.range
            &&& s2.metric == s.metric
        }),
{
}

/// The overview's range keys pick the range they are labelled with (`1`
/// today, `2` seven days, `3` thirty days), change nothing else but the
/// model/provider selection, and only pull that selection back when it lies
/// past the last row of the new range's table.
pub proof fn lemma_range_keys_pick_their_range(s: UsageState, key: KeyInput, counts: UsageCounts)
    requires
        key.code == KeyCode::Char('1') || key.code == KeyCode::Char('2') || key.code
            == KeyCode::Char('3'),
    ensures
        ({
            let (t, a) = spec_on_usage_key(s, key, counts);
            let len = spec_active_pane_len(t.pane, t.range, counts);
            &&& key.code == KeyCode::Char('1') ==> t.range == UsageRangePreset::Today
            &&& key.code == KeyCode::Char('2') ==> t.range == UsageRangePreset::SevenDays
            &&& key.code == KeyCode::Char('3') ==> t.range == UsageRangePreset::ThirtyDays
            &&& a == UsageAction::NoOp
            &&& t.metric == s.metric
            &&& t.pane == s.pane
            &&& t.logs_idx == s.logs_idx
            &&& t.selected_idx <= s.selected_idx
            &&& s.selected_idx < len ==> t.selected_idx == s.selected_idx
            &&& len > 0 ==> t.selected_idx < len
            &&& len == 0 ==> t.selected_idx == 0
        }),
{
}

/// The detail view's movement keys move the active pane's selection and
/// nothing else: Up and PageUp go towards the first row by 1 and 10 rows,
/// stopping at row 0; Down and PageDown go towards the last row by 1 and 10
/// rows, stopping at the last row; an empty table keeps row 0.
pub proof fn lemma_detail_moves(s: UsageState, key: KeyInput, counts: UsageCounts)
    requires
        key.code == KeyCode::Up || key.code == KeyCode::Down || key.code == KeyCode::PageUp
            || key.code == KeyCode::PageDown,
    ensures
        ({
            let (t, a) = spec_on_usage_logs_key(s, key, counts);
            let len = spec_active_pane_len(s.pane, s.range, counts);
            let i = active_index(s);
            let j = active_index(t);
            let up = if key.code == KeyCode::Up {
                1int
            } else {
                10int
            };
            let down = if key.code == KeyCode::Down {
                1int
            } else {
                10int
            };
            &&& a == UsageAction::NoOp
            &&& t.pane == s.pane
            &&& t.range == s.range
            &&& t.metric == s.metric
            &&& s.pane == UsagePane::Recent ==> t.selected_idx == s.selected_idx
            &&& s.pane != UsagePane::Recent ==> t.logs_idx == s.logs_idx
            &&& len == 0 ==> j == 0
            &&& (len > 0 && (key.code == KeyCode::Up || key.code == KeyCode::PageUp)) ==> j == (if i
                >= up {
                i - up
            } else {
                0
            }) && j <= i
            &&& (len > 0 && (key.code == KeyCode::Down || key.code == KeyCode::PageDown)) ==> j == (
            if i + down <= len - 1 {
                i + down
            } else {
                len - 1
            }) && j < len && (i < len ==> i <= j)
        }),
{
}

/// The other overview keys: `m` moves to the next metric and nothing else,
/// `L` opens the request-log detail view on the model table, `r` reloads
/// without touching the state, and unbound keys do nothing. In the detail
/// view, Enter opens the selected request log only on the request-log pane
/// with a selection on a stored row, and `r` reloads.
pub proof fn lemma_other_usage_keys(s: UsageState, key: KeyInput, counts: UsageCounts)
    ensures
        key.code == KeyCode::Char('m') ==> spec_on_usage_key(s, key, counts) == (
            UsageState { metric: spec_metric_next(s.metric), ..s },
            UsageAction::NoOp,
        ) && spec_metric_next(s.metric) != s.metric,
        key.code == KeyCode::Char('L') ==> spec_on_usage_key(s, key, counts).1
            == UsageAction::PushRoute(UsageRoute::UsageLogs) && spec_on_usage_key(
            s,
            key,
            counts,
        ).0.pane == UsagePane::Models && spec_on_usage_key(s, key, counts).0.range == s.range,
        key.code == KeyCode::Char('r') ==> spec_on_usage_key(s, key, counts) == (
            s,
            UsageAction::ReloadData,
        ) && spec_on_usage_logs_key(s, key, counts) == (s, UsageAction::ReloadData),
        key.code == KeyCode::Other ==> spec_on_usage_key(s, key, counts) == (s, UsageAction::NoOp)
            && spec_on_usage_logs_key(s, key, counts) == (s, UsageAction::NoOp),
        key.code == KeyCode::Enter ==> spec_on_usage_logs_key(s, key, counts).0 == s && (
        spec_on_usage_logs_key(s, key, counts).1 is PushRoute <==> (s.pane == UsagePane::Recent
            && s.logs_idx < counts.recent_logs)) && (spec_on_usage_logs_key(s, key, counts).1 is PushRoute
            ==> spec_on_usage_logs_key(s, key, counts).1 == UsageAction::PushRoute(
            UsageRoute::UsageLogDetail { log_index: s.logs_idx },
        )),
{
}

/// Clamps the model/provider selection to the active pane's table.
pub fn clamp_usage_selected_idx(usage: &mut UsageState, counts: &UsageCounts)
    ensures
        *final(usage) == spec_clamp_selected(*old(usage), *counts),
{
    let len = usage_active_pane_len(&usage.pane, usage.range, counts);
    if len == 0 {
        usage.selected_idx = 0;
    } else if usage.selected_idx > len - 1 {
        usage.selected_idx = len - 1;
    }
}

impl UsageState {
    pub fn set_usage_range(&mut self, range: UsageRangePreset, counts: &UsageCounts)
        ensures
            *final(self) == spec_set_range(*old(self), range, *counts),
    {
        self.range = range;
        clamp_usage_selected_idx(self, counts);
    }

    pub fn reset_usage_detail_selection(&mut self, counts: &UsageCounts)
        ensures
            *final(self) == spec_reset_selection(*old(self), *counts),
    {
        match self.pane {
            UsagePane::Recent => {
                self.logs_idx = 0;
            },
            UsagePane::Models | UsagePane::Providers => {
                self.selected_idx = 0;
            },
        }
        clamp_usage_selected_idx(self, counts);
    }

    pub fn move_usage_detail_selection(&mut self, counts: &UsageCounts, delta: isize)
        ensures
            *final(self) == spec_move_selection(*old(self), *counts, delta as int),
    {
        match self.pane {
            UsagePane::Recent => {
                self.logs_idx = move_index(self.logs_idx, counts.recent_logs, delta);
            },
            UsagePane::Models | UsagePane::Providers => {
                let len = usage_active_pane_len(&self.pane, self.range, counts);
                self.selected_idx = move_index(self.selected_idx, len, delta);
            },
        }
    }

    pub fn on_usage_key(&mut self, key: KeyInput, counts: &UsageCounts) -> (a: UsageAction)
        ensures
            (*final(self), a) == spec_on_usage_key(*old(self), key, *counts),
    {
        match key.code {
            KeyCode::Char('1') => {
                self.set_usage_range(UsageRangePreset::Today, counts);
                UsageAction::NoOp
            },
            KeyCode::Char('2') => {
                self.set_usage_range(UsageRangePreset::SevenDays, counts);
                UsageAction::NoOp
            },
            KeyCode::Char('3') => {
                self.set_usage_range(UsageRangePreset::ThirtyDays, counts);
                UsageAction::NoOp
            },
            KeyCode::Char('m') => {
                self.metric = self.metric.next();
                UsageAction::NoOp
            },
            KeyCode::Char('L') => {
                self.pane = UsagePane::Models;
                let models = counts.models_for(self.range);
                let models_last = if models == 0 {
                    0
                } else {
                    models - 1
                };
                if self.selected_idx > models_last {
                    self.selected_idx = models_last;
                }
                let logs_last = if counts.recent_logs == 0 {
                    0
                } else {
                    counts.recent_logs - 1
                };
                if self.logs_idx > logs_last {
                    self.logs_idx = logs_last;
                }
                UsageAction::PushRoute(UsageRoute::UsageLogs)
            },
            KeyCode::Char('r') => UsageAction::ReloadData,
            _ => UsageAction::NoOp,
        }
    }

    pub fn on_usage_logs_key(&mut self, key: KeyInput, counts: &UsageCounts) -> (a: UsageAction)
        ensures
            (*final(self), a) == spec_on_usage_logs_key(*old(self), key, *counts),
    {
        let backtab = match key.code {
            KeyCode::BackTab => true,
            KeyCode::Tab => key.shift,
            _ => false,
        };
        if backtab {
            self.pane = self.pane.previous();
            self.reset_usage_detail_selection(counts);
            return UsageAction::NoOp;
        }
        match key.code {
            KeyCode::Tab => {
                self.pane = self.pane.next();
                self.reset_usage_detail_selection(counts);
                UsageAction::NoOp
            },
            KeyCode::Up => {
                self.move_usage_detail_selection(counts, -1);
                UsageAction::NoOp
            },
            KeyCode::Down => {
                self.move_usage_detail_selection(counts, 1);
                UsageAction::NoOp
            },
            KeyCode::PageUp => {
                self.move_usage_detail_selection(counts, -10);
                UsageAction::NoOp
            },
            KeyCode::PageDown => {
                self.move_usage_detail_selection(counts, 10);
                UsageAction::NoOp
            },
            KeyCode::Enter => {
                if matches!(self.pane, UsagePane::Recent) {
                    self.open_usage_log_detail_from_logs(counts)
                } else {
                    UsageAction::NoOp
                }
            },
            KeyCode::Char('r') => UsageAction::ReloadData,
            _ => UsageAction::NoOp,
        }
    }

    /// Opens the detail of the selected request log, if that row exists.
    pub fn open_usage_log_detail_from_logs(&self, counts: &UsageCounts) -> (a: UsageAction)
        ensures
            a == (if self.logs_idx < counts.recent_logs {
                UsageAction::PushRoute(UsageRoute::UsageLogDetail { log_index: self.logs_idx })
            } else {
                UsageAction::NoOp
            }),
    {
        if self.logs_idx < counts.recent_logs {
            UsageAction::PushRoute(UsageRoute::UsageLogDetail { log_index: self.logs_idx })
        } else {
            UsageAction::NoOp
        }
    }
}

/// The single-log detail view only reacts to `r`, which reloads.
pub fn on_usage_log_detail_key(key: KeyInput) -> (a: UsageAction)
    ensures
        a == (if key.code == KeyCode::Char('r') {
            UsageAction::ReloadData
        } else {
            UsageAction::NoOp
        }),
{
    match key.code {
        KeyCode::Char('r') => UsageAction::ReloadData,
        _ => UsageAction::NoOp,
    }
}

} // verus!
