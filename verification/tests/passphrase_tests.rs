use eckhart_ui::button::{ButtonContent, ButtonMsg, ButtonStyleSheet, Icon};
use eckhart_ui::component::{Direction, Event, EventCtx, TimerToken, TouchEvent};
use eckhart_ui::geometry::{Insets, Point, Rect};
use eckhart_ui::keypad::{KeyboardMetrics, KeypadButtonMsgs};
use eckhart_ui::overlap_grid::OverlapGrid;
use eckhart_ui::passphrase::{
    key_content, key_style, key_text, keyboard_label, KeyboardLayout, PassphraseInput, PassphraseInputMsg,
    PassphraseKeyboard, PassphraseKeyboardMsg, PassphrasePart, MAX_LENGTH,
};
use eckhart_ui::text::{DisplayStyle, HiddenGlyph, InputPaint};

fn no_msgs() -> KeypadButtonMsgs {
    KeypadButtonMsgs::none(10)
}

fn click(kb: &mut PassphraseKeyboard, ctx: &mut EventCtx, key: usize) -> Option<PassphraseKeyboardMsg> {
    let mut msgs = no_msgs();
    msgs.keys[key] = Some(ButtonMsg::Clicked);
    kb.event(ctx, Event::Attach, None, None, &msgs)
}

fn label_of(kb: &PassphraseKeyboard, key: usize) -> String {
    match kb.keypad.keys[key].button.inner.content {
        ButtonContent::Text(t) => t.to_string(),
        ButtonContent::Icon(Icon::SpecialChars) => " *#".to_string(),
        _ => panic!("unexpected key content"),
    }
}

#[test]
fn layout_cycles() {
    let l = KeyboardLayout::LettersLower;
    assert_eq!(l.next(), KeyboardLayout::LettersUpper);
    assert_eq!(l.next().next(), KeyboardLayout::Numeric);
    assert_eq!(l.next().next().next(), KeyboardLayout::Special);
    assert_eq!(l.next().next().next().next(), l);
    assert_eq!(l.prev(), KeyboardLayout::Special);
    for l in [KeyboardLayout::LettersLower, KeyboardLayout::LettersUpper, KeyboardLayout::Numeric, KeyboardLayout::Special] {
        assert_eq!(l.next().prev(), l);
        assert_eq!(l.prev().next(), l);
    }
    assert_eq!(KeyboardLayout::Special.to_usize(), 3);
}

#[test]
fn layout_button_contents() {
    assert!(matches!(ButtonContent::from(KeyboardLayout::LettersLower), ButtonContent::Text("abc")));
    assert!(matches!(ButtonContent::from(KeyboardLayout::LettersUpper), ButtonContent::Text("ABC")));
    assert!(matches!(ButtonContent::from(KeyboardLayout::Numeric), ButtonContent::Text("123")));
    assert!(matches!(ButtonContent::from(KeyboardLayout::Special), ButtonContent::Icon(Icon::Asterisk)));
}

#[test]
fn labels_of_pages() {
    assert_eq!(keyboard_label(0, 0), "abc");
    assert_eq!(keyboard_label(0, 5), "pq");
    assert_eq!(keyboard_label(1, 8), "XYZ");
    assert_eq!(keyboard_label(2, 9), "0");
    assert_eq!(keyboard_label(3, 2), "/|\\");
    assert_eq!(keyboard_label(3, 8), ";\"~");
    assert_eq!(keyboard_label(0, 9), " *#");
}

#[test]
fn key_content_and_text_round_trip() {
    assert!(matches!(key_content(" *#"), ButtonContent::Icon(Icon::SpecialChars)));
    assert!(matches!(key_content("abc"), ButtonContent::Text("abc")));
    for layout in 0..4 {
        for key in 0..10 {
            let label = keyboard_label(layout, key);
            assert_eq!(key_text(&key_content(label)), label);
        }
    }
    assert_eq!(key_text(&ButtonContent::Empty), "");
    assert_eq!(key_text(&ButtonContent::Icon(Icon::Info)), " ");
}

#[test]
fn key_styles() {
    assert_eq!(key_style(KeyboardLayout::Numeric), ButtonStyleSheet::KeyboardNumeric);
    assert_eq!(key_style(KeyboardLayout::LettersLower), ButtonStyleSheet::Keyboard);
    assert_eq!(key_style(KeyboardLayout::Special), ButtonStyleSheet::Keyboard);
}

#[test]
fn passphrase_keyboard_new() {
    let kb = PassphraseKeyboard::new();
    assert_eq!(kb.passphrase(), "");
    assert_eq!(kb.active_layout, KeyboardLayout::LettersLower);
    let labels: Vec<String> = (0..10).map(|k| label_of(&kb, k)).collect();
    assert_eq!(labels, vec!["abc", "def", "ghi", "jkl", "mno", "pq", "rst", "uvw", "xyz", " *#"]);
    assert!(matches!(kb.next_btn.content, ButtonContent::Text("ABC")));
    assert!(!kb.keypad.confirm_btn.button.visible);
    assert!(!kb.keypad.erase_btn.button.visible);
}

#[test]
fn multi_tap_cycles_characters() {
    let mut kb = PassphraseKeyboard::new();
    let mut ctx = EventCtx::new();
    click(&mut kb, &mut ctx, 0);
    assert_eq!(kb.passphrase(), "a");
    click(&mut kb, &mut ctx, 0);
    assert_eq!(kb.passphrase(), "b");
    click(&mut kb, &mut ctx, 0);
    assert_eq!(kb.passphrase(), "c");
    click(&mut kb, &mut ctx, 0);
    assert_eq!(kb.passphrase(), "a");
    // another key starts a new character
    click(&mut kb, &mut ctx, 1);
    assert_eq!(kb.passphrase(), "ad");
    click(&mut kb, &mut ctx, 5);
    click(&mut kb, &mut ctx, 5);
    click(&mut kb, &mut ctx, 5);
    assert_eq!(kb.passphrase(), "adp");
}

#[test]
fn multi_tap_timeout_commits() {
    let mut kb = PassphraseKeyboard::new();
    let mut ctx = EventCtx::new();
    click(&mut kb, &mut ctx, 2);
    click(&mut kb, &mut ctx, 2);
    assert_eq!(kb.passphrase(), "h");
    let pending = kb.multi_tap.pending.expect("key is pending");
    assert_eq!(pending.key, 2);
    let timer = pending.timer;
    assert!(kb.event(&mut ctx, Event::Timer(timer), None, None, &no_msgs()).is_none());
    assert!(kb.multi_tap.pending.is_none());
    assert!(kb.input.last_char_timer.is_running());
    // the same key now appends
    click(&mut kb, &mut ctx, 2);
    assert_eq!(kb.passphrase(), "hg");
}

#[test]
fn page_changes_by_swipe_and_button() {
    let mut kb = PassphraseKeyboard::new();
    let mut ctx = EventCtx::new();
    kb.event(&mut ctx, Event::Attach, Some(Direction::Left), None, &no_msgs());
    assert_eq!(kb.active_layout, KeyboardLayout::LettersUpper);
    assert_eq!(label_of(&kb, 0), "ABC");
    assert!(matches!(kb.next_btn.content, ButtonContent::Text("123")));
    kb.event(&mut ctx, Event::Attach, Some(Direction::Right), None, &no_msgs());
    assert_eq!(kb.active_layout, KeyboardLayout::LettersLower);
    kb.event(&mut ctx, Event::Attach, Some(Direction::Right), None, &no_msgs());
    assert_eq!(kb.active_layout, KeyboardLayout::Special);
    assert_eq!(label_of(&kb, 1), ".:@");
    kb.event(&mut ctx, Event::Attach, None, Some(ButtonMsg::Clicked), &no_msgs());
    assert_eq!(kb.active_layout, KeyboardLayout::LettersLower);
    kb.event(&mut ctx, Event::Attach, None, Some(ButtonMsg::Clicked), &no_msgs());
    kb.event(&mut ctx, Event::Attach, None, Some(ButtonMsg::Clicked), &no_msgs());
    assert_eq!(kb.active_layout, KeyboardLayout::Numeric);
    let labels: Vec<String> = (0..10).map(|k| label_of(&kb, k)).collect();
    assert_eq!(labels, vec!["1", "2", "3", "4", "5", "6", "7", "8", "9", "0"]);
    assert!(kb.keypad.keys.iter().all(|k| k.button.inner.styles == ButtonStyleSheet::KeyboardNumeric));
}

#[test]
fn page_change_ends_pending_key() {
    let mut kb = PassphraseKeyboard::new();
    let mut ctx = EventCtx::new();
    click(&mut kb, &mut ctx, 0);
    assert!(kb.multi_tap.pending.is_some());
    kb.event(&mut ctx, Event::Attach, Some(Direction::Left), None, &no_msgs());
    assert!(kb.multi_tap.pending.is_none());
    click(&mut kb, &mut ctx, 0);
    assert_eq!(kb.passphrase(), "aA");
}

#[test]
fn numeric_keys_append_at_once() {
    let mut kb = PassphraseKeyboard::new();
    let mut ctx = EventCtx::new();
    kb.event(&mut ctx, Event::Attach, None, Some(ButtonMsg::Clicked), &no_msgs());
    kb.event(&mut ctx, Event::Attach, None, Some(ButtonMsg::Clicked), &no_msgs());
    click(&mut kb, &mut ctx, 3);
    click(&mut kb, &mut ctx, 3);
    click(&mut kb, &mut ctx, 9);
    assert_eq!(kb.passphrase(), "440");
    assert!(kb.multi_tap.pending.is_none());
}

#[test]
fn erase_and_clear_passphrase() {
    let mut kb = PassphraseKeyboard::new();
    let mut ctx = EventCtx::new();
    click(&mut kb, &mut ctx, 0);
    click(&mut kb, &mut ctx, 1);
    click(&mut kb, &mut ctx, 2);
    assert_eq!(kb.passphrase(), "adg");
    assert!(kb.keypad.erase_btn.button.visible);
    let mut msgs = no_msgs();
    msgs.erase = Some(ButtonMsg::Clicked);
    kb.event(&mut ctx, Event::Attach, None, None, &msgs);
    assert_eq!(kb.passphrase(), "ad");
    let mut msgs = no_msgs();
    msgs.erase = Some(ButtonMsg::LongPressed);
    kb.event(&mut ctx, Event::Attach, None, None, &msgs);
    assert_eq!(kb.passphrase(), "");
    assert!(!kb.keypad.erase_btn.button.visible);
}

#[test]
fn confirm_reports_passphrase() {
    let mut kb = PassphraseKeyboard::new();
    let mut ctx = EventCtx::new();
    click(&mut kb, &mut ctx, 4);
    click(&mut kb, &mut ctx, 4);
    let mut msgs = no_msgs();
    msgs.confirm = Some(ButtonMsg::Clicked);
    match kb.event(&mut ctx, Event::Attach, None, None, &msgs) {
        Some(PassphraseKeyboardMsg::Confirmed(p)) => assert_eq!(p, "n"),
        _ => panic!("expected a confirmation"),
    }
    let mut msgs = no_msgs();
    msgs.cancel = Some(ButtonMsg::Clicked);
    assert!(matches!(kb.event(&mut ctx, Event::Attach, None, None, &msgs), Some(PassphraseKeyboardMsg::Cancelled)));
}

#[test]
fn full_passphrase_disables_keys() {
    let mut kb = PassphraseKeyboard::new();
    let mut ctx = EventCtx::new();
    for i in 0..MAX_LENGTH {
        click(&mut kb, &mut ctx, i % 2);
    }
    assert_eq!(kb.passphrase().chars().count(), MAX_LENGTH);
    // only the pending key still accepts clicks
    let pending = kb.multi_tap.pending.expect("last key is pending").key;
    for (i, key) in kb.keypad.keys.iter().enumerate() {
        assert_eq!(key.button.inner.enabled, i == pending);
    }
    click(&mut kb, &mut ctx, pending);
    assert_eq!(kb.passphrase().chars().count(), MAX_LENGTH);
}

#[test]
fn passphrase_input_events() {
    let mut input = PassphraseInput::new();
    input.place(Rect { x0: 0, y0: 0, x1: 200, y1: 60 });
    let touch = Event::Touch(TouchEvent::TouchStart(Point { x: 10, y: 10 }));
    assert_eq!(input.event(touch), None);
    assert_eq!(input.display_style, DisplayStyle::LastOnly);
    let mut kb = PassphraseKeyboard::new();
    let mut ctx = EventCtx::new();
    click(&mut kb, &mut ctx, 0);
    kb.input.place(Rect { x0: 0, y0: 0, x1: 200, y1: 60 });
    assert_eq!(kb.input.event(touch), Some(PassphraseInputMsg::TouchStart));
    assert_eq!(kb.input.event(Event::Timer(TimerToken { id: 999 })), None);
}

#[test]
fn touching_input_shows_passphrase() {
    let mut kb = PassphraseKeyboard::new();
    let mut ctx = EventCtx::new();
    click(&mut kb, &mut ctx, 0);
    kb.input.place(Rect { x0: 0, y0: 0, x1: 200, y1: 60 });
    kb.event(&mut ctx, Event::Touch(TouchEvent::TouchStart(Point { x: 10, y: 10 })), None, None, &no_msgs());
    assert_eq!(kb.input.display_style, DisplayStyle::Shown);
    // touching the input ends cycling through the key
    assert!(kb.multi_tap.pending.is_none());
    kb.event(&mut ctx, Event::Touch(TouchEvent::TouchEnd(Point { x: 10, y: 10 })), None, None, &no_msgs());
    assert_eq!(kb.input.display_style, DisplayStyle::Hidden);
}

#[test]
fn passphrase_hidden_last_char_with_marker() {
    let mut kb = PassphraseKeyboard::new();
    let mut ctx = EventCtx::new();
    click(&mut kb, &mut ctx, 0);
    click(&mut kb, &mut ctx, 0);
    kb.input.place(Rect { x0: 0, y0: 0, x1: 200, y1: 60 });
    assert!(kb.input.marker);
    assert_eq!(
        kb.input.render_hidden(1, 20),
        vec![HiddenGlyph::LastChar { x: 0, y: 50, ch: 'b' }, HiddenGlyph::PendingMarker { x: 0, y: 50 }]
    );
}

#[test]
fn passphrase_hidden_dots_from_left_edge() {
    let mut kb = PassphraseKeyboard::new();
    let mut ctx = EventCtx::new();
    for key in [0, 1, 2] {
        click(&mut kb, &mut ctx, key);
    }
    kb.input.place(Rect { x0: 10, y0: 0, x1: 200, y1: 60 });
    kb.input.display_style = DisplayStyle::Hidden;
    assert_eq!(
        kb.input.render_hidden(3, 20),
        vec![HiddenGlyph::Dot { x: 10, y: 30 }, HiddenGlyph::Dot { x: 22, y: 30 }, HiddenGlyph::Dot { x: 34, y: 30 }]
    );
}

#[test]
fn passphrase_keyboard_render_and_fade() {
    let mut kb = PassphraseKeyboard::new();
    let (parts, fade) = kb.render();
    assert_eq!(parts, vec![PassphrasePart::Input, PassphrasePart::NextButton, PassphrasePart::Keypad]);
    assert!(!fade);
    let mut ctx = EventCtx::new();
    kb.event(&mut ctx, Event::Attach, Some(Direction::Left), None, &no_msgs());
    assert!(kb.render().1);
    assert!(!kb.render().1);
    kb.input.display_style = DisplayStyle::Shown;
    assert_eq!(kb.render().0, vec![PassphrasePart::Keypad, PassphrasePart::Input]);
}

#[test]
fn passphrase_keyboard_place() {
    let mut kb = PassphraseKeyboard::new();
    let metrics = KeyboardMetrics {
        input_height: 120,
        keypad_height: 400,
        input_touch_height: 120,
        prompt_insets: Insets { top: 0, right: 0, bottom: 0, left: 0 },
        input_insets: Insets { top: 0, right: 0, bottom: 0, left: 0 },
    };
    let bounds = Rect { x0: 0, y0: 0, x1: 380, y1: 520 };
    assert_eq!(kb.place(bounds, &metrics), bounds);
    assert_eq!(kb.input.total_area, Rect { x0: 0, y0: 0, x1: 380, y1: 120 });
    assert_eq!(kb.input.touch_area, Rect { x0: 0, y0: 0, x1: 249, y1: 120 });
    assert_eq!(kb.input_prompt.area, Rect { x0: 0, y0: 0, x1: 249, y1: 120 });
    assert_eq!(kb.next_btn.area, Rect { x0: 263, y0: 14, x1: 366, y1: 120 });
    let grid = OverlapGrid::<4, 3>::new(Rect { x0: 0, y0: 120, x1: 380, y1: 520 });
    assert_eq!(kb.keypad.keys[4].button.inner.area, grid.border_of_cell(4));
}

#[test]
fn swipe_there_and_back() {
    let mut kb = PassphraseKeyboard::new();
    let mut ctx = EventCtx::new();
    kb.event(&mut ctx, Event::Attach, Some(Direction::Right), None, &no_msgs());
    click(&mut kb, &mut ctx, 1);
    let layout = kb.active_layout;
    let labels: Vec<String> = (0..10).map(|k| label_of(&kb, k)).collect();
    let text = kb.passphrase().to_string();
    kb.event(&mut ctx, Event::Attach, Some(Direction::Left), None, &no_msgs());
    kb.event(&mut ctx, Event::Attach, Some(Direction::Right), None, &no_msgs());
    assert_eq!(kb.active_layout, layout);
    assert_eq!((0..10).map(|k| label_of(&kb, k)).collect::<Vec<String>>(), labels);
    assert_eq!(kb.passphrase(), text);
    assert!(kb.multi_tap.pending.is_none());
}

fn ten_px_per_char(width: i16, text: &str) -> usize {
    text.len().min((width.max(0) / 10) as usize)
}

#[test]
fn passphrase_shown_in_full() {
    let mut kb = PassphraseKeyboard::new();
    let mut ctx = EventCtx::new();
    for key in [0, 1, 2, 3, 4] {
        click(&mut kb, &mut ctx, key);
    }
    kb.input.place(Rect { x0: 0, y0: 0, x1: 200, y1: 60 });
    let insets = Insets { top: 10, right: 10, bottom: 10, left: 10 };
    let shown = kb.input.render_shown(insets, 20, &ten_px_per_char);
    assert!(!shown.centered);
    assert_eq!(shown.bar, Rect { x0: 9, y0: 10, x1: 270, y1: 50 });
    assert_eq!(shown.texts, vec![(Point { x: 10, y: 50 }, "adgjm")]);
    kb.input.display_style = DisplayStyle::Shown;
    assert!(matches!(kb.input.render(insets, 20, 5, &ten_px_per_char), InputPaint::Shown(_)));
    kb.input.display_style = DisplayStyle::Hidden;
    assert!(matches!(kb.input.render(insets, 20, 5, &ten_px_per_char), InputPaint::Hidden(_)));
    assert!(matches!(PassphraseInput::new().render(insets, 20, 0, &ten_px_per_char), InputPaint::Nothing));
}
