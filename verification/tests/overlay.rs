use cc_switch::overlay::{centered_lines_rect, overlay_body, OverlaySize, Rect, OVERLAY_CHROME_COLS, OVERLAY_CHROME_ROWS};

#[test]
fn fit_rows_adds_exactly_the_chrome() {
    let content = Rect::new(0, 0, 100, 30);
    let area = OverlaySize::FitRows {
        width: 50,
        body_rows: 6,
    }
    .resolve(content);
    assert_eq!(area.width, 50);
    assert_eq!(area.height, 6 + OVERLAY_CHROME_ROWS);
}

#[test]
fn fit_rows_clamps_to_the_content_pane() {
    let content = Rect::new(0, 0, 40, 8);
    let area = OverlaySize::FitRows {
        width: 50,
        body_rows: 20,
    }
    .resolve(content);
    assert!(area.width <= content.width);
    assert!(area.height <= content.height);
}

#[test]
fn fixed_overlay_is_centered_and_clamped() {
    let content = Rect::new(10, 5, 100, 30);
    let area = OverlaySize::Fixed(40, 10).resolve(content);
    assert_eq!(area, Rect::new(40, 15, 40, 10));
    let big = OverlaySize::Fixed(200, 100).resolve(content);
    assert_eq!(big, content);
}

#[test]
fn percent_overlay_takes_its_share() {
    let content = Rect::new(0, 0, 100, 40);
    let area = OverlaySize::Percent(80, 50).resolve(content);
    assert_eq!(area, Rect::new(10, 10, 80, 20));
    let full = OverlaySize::Percent(150, 100).resolve(content);
    assert_eq!(full, content);
}

#[test]
fn body_loses_exactly_the_chrome() {
    let body = overlay_body(Rect::new(5, 5, 50, 10));
    assert_eq!(body, Rect::new(7, 8, 50 - OVERLAY_CHROME_COLS, 10 - OVERLAY_CHROME_ROWS));
    let fitted = OverlaySize::FitRows { width: 50, body_rows: 6 }.resolve(Rect::new(0, 0, 100, 30));
    assert_eq!(overlay_body(fitted).height, 6);
    let tiny = overlay_body(Rect::new(3, 4, 3, 2));
    assert_eq!(tiny, Rect::new(3, 4, 0, 0));
}

#[test]
fn rect_new_clamps_to_the_coordinate_range() {
    let r = Rect::new(65_000, 0, 1_000, 10);
    assert_eq!(r.width, 535);
}

#[test]
fn centered_lines_sit_in_the_middle() {
    let area = Rect::new(2, 4, 30, 10);
    assert_eq!(centered_lines_rect(area, 2), Rect::new(2, 8, 30, 2));
    assert_eq!(centered_lines_rect(area, 20), Rect::new(2, 4, 30, 10));
}
