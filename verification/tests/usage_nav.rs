use cc_switch::usage_nav::{
    move_index, on_usage_log_detail_key, KeyCode, KeyInput, UsageAction, UsageCounts,
    UsageMetric, UsagePane, UsageRangePreset, UsageRoute, UsageState,
};

fn key(code: KeyCode) -> KeyInput {
    KeyInput { code, shift: false }
}

fn counts() -> UsageCounts {
    UsageCounts {
        models_today: 3,
        models_seven_days: 10,
        models_thirty_days: 0,
        providers_today: 2,
        providers_seven_days: 5,
        providers_thirty_days: 1,
        recent_logs: 4,
    }
}

fn state() -> UsageState {
    UsageState {
        range: UsageRangePreset::SevenDays,
        metric: UsageMetric::Cost,
        pane: UsagePane::Models,
        selected_idx: 7,
        logs_idx: 9,
    }
}

#[test]
fn metric_and_pane_cycle() {
    assert_eq!(UsageMetric::Cost.next(), UsageMetric::Tokens);
    assert_eq!(UsageMetric::Errors.next(), UsageMetric::Cost);
    assert_eq!(UsagePane::Models.next(), UsagePane::Providers);
    assert_eq!(UsagePane::Recent.next(), UsagePane::Models);
    assert_eq!(UsagePane::Models.previous(), UsagePane::Recent);
    for p in [UsagePane::Models, UsagePane::Providers, UsagePane::Recent] {
        assert_eq!(p.next().previous(), p);
    }
}

#[test]
fn move_index_saturates_and_clamps() {
    assert_eq!(move_index(5, 0, 3), 0);
    assert_eq!(move_index(2, 10, -1), 1);
    assert_eq!(move_index(2, 10, -10), 0);
    assert_eq!(move_index(2, 10, 10), 9);
    assert_eq!(move_index(usize::MAX, 10, 1), 9);
    assert_eq!(move_index(20, 10, -1), 19);
    assert_eq!(move_index(0, 3, isize::MIN), 0);
}

#[test]
fn range_keys_clamp_the_selection() {
    let mut s = state();
    assert_eq!(s.on_usage_key(key(KeyCode::Char('1')), &counts()), UsageAction::NoOp);
    assert_eq!(s.range, UsageRangePreset::Today);
    assert_eq!(s.selected_idx, 2);
    assert_eq!(s.on_usage_key(key(KeyCode::Char('3')), &counts()), UsageAction::NoOp);
    assert_eq!(s.selected_idx, 0);
    assert_eq!(s.logs_idx, 9);
}

#[test]
fn overview_keys() {
    let mut s = state();
    assert_eq!(s.on_usage_key(key(KeyCode::Char('m')), &counts()), UsageAction::NoOp);
    assert_eq!(s.metric, UsageMetric::Tokens);
    assert_eq!(s.on_usage_key(key(KeyCode::Char('r')), &counts()), UsageAction::ReloadData);
    assert_eq!(s.on_usage_key(key(KeyCode::Up), &counts()), UsageAction::NoOp);
    s.pane = UsagePane::Recent;
    assert_eq!(
        s.on_usage_key(key(KeyCode::Char('L')), &counts()),
        UsageAction::PushRoute(UsageRoute::UsageLogs)
    );
    assert_eq!(s.pane, UsagePane::Models);
    assert_eq!(s.selected_idx, 7);
    assert_eq!(s.logs_idx, 3);
}

#[test]
fn detail_view_tab_switches_pane_and_resets_selection() {
    let mut s = state();
    s.logs_idx = 2;
    assert_eq!(s.on_usage_logs_key(key(KeyCode::Tab), &counts()), UsageAction::NoOp);
    assert_eq!(s.pane, UsagePane::Providers);
    assert_eq!(s.selected_idx, 0);
    let shift_tab = KeyInput { code: KeyCode::Tab, shift: true };
    s.on_usage_logs_key(shift_tab, &counts());
    assert_eq!(s.pane, UsagePane::Models);
    s.on_usage_logs_key(key(KeyCode::BackTab), &counts());
    assert_eq!(s.pane, UsagePane::Recent);
    assert_eq!(s.logs_idx, 0);
}

#[test]
fn detail_view_moves_and_opens_logs() {
    let mut s = state();
    s.selected_idx = 0;
    s.on_usage_logs_key(key(KeyCode::PageDown), &counts());
    assert_eq!(s.selected_idx, 9);
    s.on_usage_logs_key(key(KeyCode::Up), &counts());
    assert_eq!(s.selected_idx, 8);
    assert_eq!(s.on_usage_logs_key(key(KeyCode::Enter), &counts()), UsageAction::NoOp);
    s.pane = UsagePane::Recent;
    s.logs_idx = 0;
    s.on_usage_logs_key(key(KeyCode::Down), &counts());
    assert_eq!(
        s.on_usage_logs_key(key(KeyCode::Enter), &counts()),
        UsageAction::PushRoute(UsageRoute::UsageLogDetail { log_index: 1 })
    );
    s.logs_idx = 4;
    assert_eq!(s.on_usage_logs_key(key(KeyCode::Enter), &counts()), UsageAction::NoOp);
    assert_eq!(s.on_usage_logs_key(key(KeyCode::Char('r')), &counts()), UsageAction::ReloadData);
}

#[test]
fn log_detail_view_only_reloads() {
    assert_eq!(on_usage_log_detail_key(key(KeyCode::Char('r'))), UsageAction::ReloadData);
    assert_eq!(on_usage_log_detail_key(key(KeyCode::Enter)), UsageAction::NoOp);
}
