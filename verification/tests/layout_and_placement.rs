use dialkey::placement::{
    clamp_top_left, inset_for_dpi, search_window_pos, settings_window_pos, typing_window_pos, WorkArea,
};
use dialkey::settings_layout::{
    action_key_caption_col_w, clamp_size_to_work_area, fitted_button_width, footer_layout,
    footer_row_min_client_w, listbox_rows_h, outer_size_for_client, page_panel_rect, scale_for_dpi,
    settings_client_size, track_sizes, FooterLayout, FooterWidths,
};

const WA: WorkArea = WorkArea { left: 0, top: 0, right: 1920, bottom: 1040 };

#[test]
fn inset_scales_with_dpi() {
    assert_eq!(inset_for_dpi(None), 20);
    assert_eq!(inset_for_dpi(Some(96)), 20);
    assert_eq!(inset_for_dpi(Some(144)), 30);
    assert_eq!(inset_for_dpi(Some(120)), 25);
}

#[test]
fn clamp_moves_window_inside() {
    assert_eq!(clamp_top_left(1800, 1000, 420, 358, WA), (1500, 682));
    assert_eq!(clamp_top_left(-50, -10, 420, 358, WA), (0, 0));
    assert_eq!(clamp_top_left(100, 100, 420, 358, WA), (100, 100));
    // Wider than the work area: pinned to the left edge.
    assert_eq!(clamp_top_left(0, 0, 3000, 100, WA), (0, 0));
}

#[test]
fn window_anchors() {
    assert_eq!(typing_window_pos(420, 358, Some(WA), Some(96)), (1480, 20));
    assert_eq!(search_window_pos(480, 420, Some(WA), Some(96)), (1420, 600));
    assert_eq!(settings_window_pos(5, 6, 900, 700, Some(WA), Some(144)), (30, 30));
    assert_eq!(typing_window_pos(420, 358, None, None), (0, 0));
    assert_eq!(settings_window_pos(5, 6, 900, 700, None, None), (5, 6));
}

#[test]
fn page_band() {
    assert_eq!(page_panel_rect(900, 700), (0, 42, 900, 606));
    assert_eq!(page_panel_rect(50, 120), (0, 42, 100, 100));
}

#[test]
fn dpi_scaling_truncates_toward_zero() {
    assert_eq!(scale_for_dpi(100, 144), 150);
    assert_eq!(scale_for_dpi(7, 120), 8);
    assert_eq!(scale_for_dpi(-7, 120), -8);
    assert_eq!(scale_for_dpi(640, 72), 640);
}

#[test]
fn window_size_against_work_area() {
    let wa = WorkArea { left: 0, top: 0, right: 1280, bottom: 720 };
    assert_eq!(clamp_size_to_work_area(2000, 1500, Some(wa)), (1272, 712));
    assert_eq!(clamp_size_to_work_area(800, 600, Some(wa)), (800, 600));
    assert_eq!(clamp_size_to_work_area(2000, 1500, None), (2000, 1500));
    let tiny = WorkArea { left: 0, top: 0, right: 200, bottom: 100 };
    assert_eq!(clamp_size_to_work_area(2000, 1500, Some(tiny)), (320, 240));
    assert_eq!(track_sizes(900, 800, Some(wa)), ((900, 712), Some((1272, 712))));
    assert_eq!(track_sizes(900, 800, None), ((900, 800), None));
}

#[test]
fn outer_size() {
    assert_eq!(outer_size_for_client(800, 600, None), (816, 659));
    assert_eq!(outer_size_for_client(800, 600, Some((818, 661))), (818, 661));
    assert_eq!(outer_size_for_client(800, 600, Some((50, 50))), (800, 600));
}

#[test]
fn client_size_from_tab_heights() {
    let heights = [300, 200, 500, 100, 0, 350];
    assert_eq!(settings_client_size(heights, false, 100), (804, 452));
    assert_eq!(settings_client_size(heights, true, 100), (804, 602));
    assert_eq!(settings_client_size([10; 6], false, 900), (956, 400));
}

#[test]
fn buttons_and_lists() {
    assert_eq!(fitted_button_width(30), 72);
    assert_eq!(fitted_button_width(60), 84);
    assert_eq!(listbox_rows_h(18, 3), 72);
    assert_eq!(listbox_rows_h(20, 5), 104);
    assert_eq!(listbox_rows_h(2, 10), 164);
}

#[test]
fn caption_column() {
    assert_eq!(action_key_caption_col_w(500, &[50, 90]), 106);
    assert_eq!(action_key_caption_col_w(500, &[300]), 200);
    assert_eq!(action_key_caption_col_w(500, &[]), 88);
    assert_eq!(action_key_caption_col_w(100, &[]), 80);
}

fn widths() -> FooterWidths {
    FooterWidths { add: 80, delete: 80, swap: 80, update: 80, save: 80, apply: 80, cancel: 80 }
}

#[test]
fn footer_from_the_right_with_slot_buttons_on_the_left() {
    let l = footer_layout(900, 700, widths(), true);
    assert_eq!(
        l,
        FooterLayout {
            y: 660,
            add_x: 12,
            delete_x: 104,
            swap_x: 196,
            update_x: 288,
            save_x: 616,
            apply_x: 708,
            cancel_x: 800,
            slot_buttons_visible: true,
        }
    );
    let other_tab = footer_layout(900, 700, widths(), false);
    assert!(!other_tab.slot_buttons_visible);
    assert_eq!((other_tab.save_x, other_tab.apply_x, other_tab.cancel_x), (616, 708, 800));
}

#[test]
fn footer_packed_when_narrow() {
    let l = footer_layout(500, 700, widths(), true);
    assert_eq!((l.save_x, l.apply_x, l.cancel_x), (380, 472, 564));
}

#[test]
fn footer_minimum_width() {
    let w = footer_row_min_client_w(widths());
    assert!(w > 0);
    let l = footer_layout(w, 700, widths(), true);
    assert!(l.update_x + 80 + 12 <= l.save_x);
}
