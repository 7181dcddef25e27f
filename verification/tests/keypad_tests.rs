use eckhart_ui::button::{ButtonContent, ButtonMsg, ButtonStyleSheet, Icon};
use eckhart_ui::geometry::Insets;
use eckhart_ui::component::EventCtx;
use eckhart_ui::geometry::{Offset, Rect};
use eckhart_ui::keypad::{ButtonState, ButtonType, Keypad, KeypadButtonMsgs, KeypadMsg};
use eckhart_ui::overlap_grid::OverlapGrid;

fn screen() -> Rect {
    Rect { x0: 0, y0: 0, x1: 380, y1: 400 }
}

#[test]
fn overlap_grid_cells() {
    let grid = OverlapGrid::<4, 3>::new(screen());
    // ud = ((400 - 4 * 70) / 5) / 2 = 12, lr = (380 - 3 * 121) / 2 = 8
    assert_eq!(grid.ud_half_spacing, 12);
    assert_eq!(grid.lr_half_overlap, 8);
    assert_eq!(grid.border_of_cell(0), Rect { x0: 0, y0: 0, x1: 137, y1: 118 });
    assert_eq!(grid.border_of_row_col(1, 2), Rect { x0: 242, y0: 94, x1: 379, y1: 212 });
    assert_eq!(grid.border_of_cell(5), grid.border_of_row_col(1, 2));
    assert_eq!(grid.border_of_cell(11), Rect { x0: 242, y0: 282, x1: 379, y1: 400 });
}

#[test]
fn overlap_grid_touch_insets() {
    let grid = OverlapGrid::<4, 3>::new(screen());
    assert_eq!(grid.insets_of_cell(0), Insets { top: -12, right: -8, bottom: -12, left: 0 });
    assert_eq!(grid.insets_of_cell(4), Insets { top: -12, right: -8, bottom: -12, left: -8 });
    assert_eq!(grid.insets_of_row_col(3, 2), Insets { top: -12, right: 0, bottom: 0, left: -8 });
    assert_eq!(grid.insets_of_cell(9), Insets { top: -12, right: -8, bottom: 0, left: 0 });
}

#[test]
fn overlap_grid_touch_areas_tile() {
    let area = screen();
    let grid = OverlapGrid::<4, 3>::new(area);
    let touch = |r: usize, c: usize| grid.border_of_row_col(r, c).outset(grid.insets_of_row_col(r, c));
    for r in 0..4 {
        assert_eq!(touch(r, 0).x0, area.x0);
        for c in 0..2 {
            assert_eq!(touch(r, c).x1, touch(r, c + 1).x0);
        }
    }
    for r in 0..3 {
        for c in 0..3 {
            assert_eq!(touch(r, c).y1, touch(r + 1, c).y0);
        }
    }
    assert_eq!(touch(1, 1), Rect { x0: 129, y0: 106, x1: 250, y1: 200 });
}

#[test]
fn overlap_grid_inverted_area() {
    // an area narrower than the buttons: the buttons overlap it on both sides
    let grid = OverlapGrid::<1, 1>::new(Rect { x0: 10, y0: 10, x1: 0, y1: 0 });
    // ud = ((-10 - 70) / 2) / 2 = -20, lr = (-10 - 121) / 2 = -65
    assert_eq!(grid.ud_half_spacing, -20);
    assert_eq!(grid.lr_half_overlap, -65);
    assert_eq!(grid.border_of_cell(0), Rect { x0: 10, y0: 10, x1: 1, y1: 0 });
}

fn keypad() -> Keypad<10> {
    Keypad::<10>::new(true, false, true, true, [true; 10])
}

#[test]
fn keypad_new_states() {
    let kp = Keypad::<10>::new(false, true, false, true, [true, false, true, true, true, true, true, true, true, true]);
    assert!(!kp.cancel_btn.button.visible);
    assert!(kp.back_btn.button.visible);
    assert!(kp.back_btn.button.inner.enabled);
    assert!(!kp.erase_btn.button.visible);
    assert_eq!(kp.erase_btn.button.inner.long_press_ms, Some(1500));
    assert!(kp.confirm_btn.button.visible);
    assert!(kp.keys[0].button.inner.enabled);
    assert!(!kp.keys[1].button.inner.enabled);
    assert_eq!(kp.keys.len(), 10);
    assert!(kp.pressed.is_none());
}

#[test]
fn keypad_first_click_wins() {
    let mut kp = keypad();
    let mut msgs = KeypadButtonMsgs::none(10);
    msgs.keys[3] = Some(ButtonMsg::Clicked);
    msgs.keys[7] = Some(ButtonMsg::Clicked);
    assert_eq!(kp.event(&msgs), Some(KeypadMsg::KeyClicked(3)));
    msgs.cancel = Some(ButtonMsg::Clicked);
    assert_eq!(kp.event(&msgs), Some(KeypadMsg::CancelClicked));
    msgs.confirm = Some(ButtonMsg::Clicked);
    assert_eq!(kp.event(&msgs), Some(KeypadMsg::ConfirmClicked));
}

#[test]
fn keypad_no_report_no_message() {
    let mut kp = keypad();
    let msgs = KeypadButtonMsgs::none(10);
    assert_eq!(kp.event(&msgs), None);
    assert!(kp.pressed.is_none());
}

#[test]
fn keypad_tracks_pressed_button() {
    let mut kp = keypad();
    let mut msgs = KeypadButtonMsgs::none(10);
    msgs.keys[4] = Some(ButtonMsg::Pressed);
    assert_eq!(kp.event(&msgs), None);
    assert_eq!(kp.pressed, Some(ButtonType::Key(4)));
    let mut msgs = KeypadButtonMsgs::none(10);
    msgs.keys[4] = Some(ButtonMsg::Clicked);
    assert_eq!(kp.event(&msgs), Some(KeypadMsg::KeyClicked(4)));
    assert!(kp.pressed.is_none());
}

#[test]
fn keypad_erase_long_press() {
    let mut kp = keypad();
    let mut msgs = KeypadButtonMsgs::none(10);
    msgs.erase = Some(ButtonMsg::LongPressed);
    assert_eq!(kp.event(&msgs), Some(KeypadMsg::EraseLongPressed));
    // A long press elsewhere is no message.
    let mut msgs = KeypadButtonMsgs::none(10);
    msgs.keys[0] = Some(ButtonMsg::LongPressed);
    assert_eq!(kp.event(&msgs), None);
    let mut msgs = KeypadButtonMsgs::none(10);
    msgs.back = Some(ButtonMsg::Clicked);
    assert_eq!(kp.event(&msgs), Some(KeypadMsg::BackClicked));
    let mut msgs = KeypadButtonMsgs::none(10);
    msgs.erase = Some(ButtonMsg::Clicked);
    assert_eq!(kp.event(&msgs), Some(KeypadMsg::EraseClicked));
}

#[test]
fn keypad_click_before_later_press() {
    let mut kp = keypad();
    let mut msgs = KeypadButtonMsgs::none(10);
    msgs.erase = Some(ButtonMsg::Pressed);
    msgs.keys[2] = Some(ButtonMsg::Clicked);
    assert_eq!(kp.event(&msgs), Some(KeypadMsg::KeyClicked(2)));
    assert!(kp.pressed.is_none());
}

#[test]
fn keypad_content_and_states() {
    let mut kp = Keypad::<10>::new_empty(true).with_keypad_content(
        vec![ButtonContent::Text("1"), ButtonContent::Icon(Icon::Info)],
        ButtonStyleSheet::KeyboardNumeric,
    );
    assert!(matches!(kp.get_key_content(0), ButtonContent::Text("1")));
    assert!(matches!(kp.get_key_content(1), ButtonContent::Icon(Icon::Info)));
    assert!(matches!(kp.get_key_content(2), ButtonContent::Empty));
    kp.set_key_content(2, ButtonContent::Text("x"));
    assert!(matches!(kp.get_key_content(2), ButtonContent::Text("x")));
    let mut ctx = EventCtx::new();
    kp.set_keys_state(&mut ctx, &ButtonState::Disabled);
    assert!(ctx.paint_requested);
    assert!(kp.keys.iter().all(|k| !k.button.inner.enabled && k.button.visible));
    let mut ctx = EventCtx::new();
    kp.set_button_state(&mut ctx, ButtonType::Cancel, ButtonState::Hidden);
    assert!(!kp.cancel_btn.button.visible);
    assert!(ctx.paint_requested);
    kp.set_button_stylesheet(ButtonType::Confirm, ButtonStyleSheet::KeyboardConfirm);
    assert_eq!(kp.confirm_btn.button.inner.styles, ButtonStyleSheet::KeyboardConfirm);
}

#[test]
fn keypad_render_order() {
    let mut kp = Keypad::<10>::new(true, false, true, true, [true; 10]);
    kp.keys[5].button.visible = false;
    let order = kp.render();
    let mut expected: Vec<ButtonType> = (0..10).filter(|i| *i != 5).map(ButtonType::Key).collect();
    expected.extend([ButtonType::Cancel, ButtonType::Erase, ButtonType::Confirm]);
    assert_eq!(order, expected);
    kp.pressed = Some(ButtonType::Key(1));
    let order = kp.render();
    assert_eq!(order.last(), Some(&ButtonType::Key(1)));
    assert_eq!(order.len(), expected.len() + 1);
}

#[test]
fn keypad_place_layout() {
    let mut kp = keypad();
    let bounds = screen();
    assert_eq!(kp.place(bounds), bounds);
    let grid = OverlapGrid::<4, 3>::new(bounds);
    assert_eq!(kp.erase_btn.button.inner.area, grid.border_of_cell(9));
    assert_eq!(kp.cancel_btn.button.inner.area, grid.border_of_cell(9));
    assert_eq!(kp.confirm_btn.button.inner.area, grid.border_of_cell(11));
    assert_eq!(kp.keys[0].button.inner.area, grid.border_of_cell(0));
    assert_eq!(kp.keys[8].button.inner.area, grid.border_of_cell(8));
    // The tenth key sits in the middle of the last row.
    assert_eq!(kp.keys[9].button.inner.area, grid.border_of_cell(10));
    assert_eq!(kp.keys[9].button.inner.touch_expand, Some(grid.insets_of_cell(10)));
}

#[test]
fn overlap_grid_cell_formulas() {
    for area in [screen(), Rect { x0: 5, y0: 120, x1: 375, y1: 520 }, Rect { x0: 0, y0: 0, x1: 300, y1: 250 }] {
        let grid = OverlapGrid::<4, 3>::new(area);
        let ud = (area.height() - 4 * 70) / 5 / 2;
        let lr = (area.width() - 3 * 121) / 2;
        assert_eq!(grid.ud_half_spacing, ud);
        assert_eq!(grid.lr_half_overlap, lr);
        for r in 0..4usize {
            for c in 0..3usize {
                let top_left = area.top_left().ofs(Offset::new(c as i16 * 121, r as i16 * (70 + 2 * ud)));
                let expected = Rect::from_top_left_and_size(top_left, Offset::new(121 + 2 * lr, 70 + 4 * ud));
                assert_eq!(grid.border_of_row_col(r, c), expected);
                let insets = grid.insets_of_row_col(r, c);
                assert_eq!(insets.top, -ud);
                assert_eq!(insets.bottom, if r == 3 { 0 } else { -ud });
                assert_eq!(insets.left, if c == 0 { 0 } else { -lr });
                assert_eq!(insets.right, if c == 2 { 0 } else { -lr });
            }
        }
    }
}
