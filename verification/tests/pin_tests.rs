use eckhart_ui::button::{ButtonContent, ButtonMsg, Color, TString, TextStyle};
use eckhart_ui::component::{Event, EventCtx, TimerToken, TouchEvent};
use eckhart_ui::geometry::{Insets, Point, Rect};
use eckhart_ui::keypad::{KeyboardMetrics, KeypadButtonMsgs};
use eckhart_ui::overlap_grid::OverlapGrid;
use eckhart_ui::pin::{shuffle_digit_order, PinInput, PinInputMsg, PinKeyboard, PinKeyboardMsg, PinPart, MAX_LENGTH};
use eckhart_ui::text::{DisplayStyle, HiddenGlyph, InputPaint};

const IDENTITY: [usize; 10] = [0, 1, 2, 3, 4, 5, 6, 7, 8, 9];

fn keyboard(allow_cancel: bool) -> PinKeyboard<'static> {
    PinKeyboard::new(TString::Str("Enter PIN"), TString::Str("3 attempts left"), None, allow_cancel, &IDENTITY)
}

fn click_key(kb: &mut PinKeyboard<'static>, ctx: &mut EventCtx, key: usize) -> Option<PinKeyboardMsg> {
    let mut msgs = KeypadButtonMsgs::none(10);
    msgs.keys[key] = Some(ButtonMsg::Clicked);
    kb.event(ctx, Event::Attach, &msgs)
}

fn key_label(kb: &PinKeyboard<'static>, key: usize) -> &'static str {
    match kb.keypad.keys[key].button.inner.content {
        ButtonContent::Text(t) => t,
        _ => panic!("digit keys show text"),
    }
}

#[test]
fn pin_keyboard_new_layout() {
    let kb = keyboard(true);
    assert_eq!(kb.pin(), "");
    let labels: Vec<&str> = (0..10).map(|k| key_label(&kb, k)).collect();
    assert_eq!(labels, vec!["1", "2", "3", "4", "5", "6", "7", "8", "9", "0"]);
    assert!(kb.keypad.cancel_btn.button.visible);
    assert!(!kb.keypad.erase_btn.button.visible);
    assert!(!kb.keypad.confirm_btn.button.visible);
    assert!(!kb.keypad.back_btn.button.visible);
    let kb = keyboard(false);
    assert!(!kb.keypad.cancel_btn.button.visible);
}

#[test]
fn pin_keyboard_shuffled_order() {
    let order = [9, 8, 7, 6, 5, 4, 3, 2, 1, 0];
    let kb = PinKeyboard::new(TString::Str("Enter PIN"), TString::Str(""), None, false, &order);
    let labels: Vec<&str> = (0..10).map(|k| key_label(&kb, k)).collect();
    assert_eq!(labels, vec!["0", "9", "8", "7", "6", "5", "4", "3", "2", "1"]);
}

#[test]
fn pin_keyboard_enter_digits() {
    let mut kb = keyboard(true);
    let mut ctx = EventCtx::new();
    assert_eq!(click_key(&mut kb, &mut ctx, 0), None);
    assert_eq!(click_key(&mut kb, &mut ctx, 9), None);
    assert_eq!(click_key(&mut kb, &mut ctx, 4), None);
    assert_eq!(kb.pin(), "105");
    assert_eq!(kb.textbox.display_style, DisplayStyle::LastOnly);
    assert!(kb.textbox.last_digit_timer.is_running());
    // every digit asks for the last-digit timeout
    assert_eq!(ctx.timers.len(), 3);
    assert!(ctx.timers.iter().all(|(_, d)| *d == 1000));
    // erase and confirm appear, cancel goes away
    assert!(kb.keypad.erase_btn.button.visible && kb.keypad.erase_btn.button.inner.enabled);
    assert!(kb.keypad.confirm_btn.button.visible && kb.keypad.confirm_btn.button.inner.enabled);
    assert!(!kb.keypad.cancel_btn.button.visible);
}

#[test]
fn pin_keyboard_erase_and_clear() {
    let mut kb = keyboard(true);
    let mut ctx = EventCtx::new();
    click_key(&mut kb, &mut ctx, 1);
    click_key(&mut kb, &mut ctx, 2);
    let mut msgs = KeypadButtonMsgs::none(10);
    msgs.erase = Some(ButtonMsg::Clicked);
    assert_eq!(kb.event(&mut ctx, Event::Attach, &msgs), None);
    assert_eq!(kb.pin(), "2");
    click_key(&mut kb, &mut ctx, 3);
    let mut msgs = KeypadButtonMsgs::none(10);
    msgs.erase = Some(ButtonMsg::LongPressed);
    assert_eq!(kb.event(&mut ctx, Event::Attach, &msgs), None);
    assert_eq!(kb.pin(), "");
    // back to the empty state: cancel shown, confirm disabled, erase hidden
    assert!(kb.keypad.cancel_btn.button.visible);
    assert!(!kb.keypad.erase_btn.button.visible);
    assert!(!kb.keypad.confirm_btn.button.inner.enabled);
}

#[test]
fn pin_keyboard_confirm_and_cancel() {
    let mut kb = keyboard(true);
    let mut ctx = EventCtx::new();
    let mut msgs = KeypadButtonMsgs::none(10);
    msgs.cancel = Some(ButtonMsg::Clicked);
    assert_eq!(kb.event(&mut ctx, Event::Attach, &msgs), Some(PinKeyboardMsg::Cancelled));
    click_key(&mut kb, &mut ctx, 5);
    let mut msgs = KeypadButtonMsgs::none(10);
    msgs.confirm = Some(ButtonMsg::Clicked);
    assert_eq!(kb.event(&mut ctx, Event::Attach, &msgs), Some(PinKeyboardMsg::Confirmed));
    assert_eq!(kb.pin(), "6");
}

#[test]
fn pin_keyboard_full_disables_keys() {
    let mut kb = keyboard(false);
    let mut ctx = EventCtx::new();
    for _ in 0..MAX_LENGTH {
        click_key(&mut kb, &mut ctx, 6);
    }
    assert_eq!(kb.pin().len(), MAX_LENGTH);
    assert!(kb.keypad.keys.iter().all(|k| !k.button.inner.enabled));
    assert!(kb.keypad.confirm_btn.button.inner.enabled);
    assert!(kb.keypad.erase_btn.button.inner.enabled);
}

#[test]
fn pin_keyboard_warning_goes_away() {
    let mut kb = PinKeyboard::new(
        TString::Str("Enter PIN"),
        TString::Str(""),
        Some(TString::Str("Wrong PIN")),
        false,
        &IDENTITY,
    );
    let mut ctx = EventCtx::new();
    let msgs = KeypadButtonMsgs::none(10);
    assert_eq!(kb.render()[0], PinPart::MajorWarning);
    kb.event(&mut ctx, Event::Attach, &msgs);
    assert_eq!(ctx.timers.len(), 1);
    let (token, duration) = ctx.timers[0];
    assert_eq!(duration, 2000);
    assert!(kb.major_warning.is_some());
    kb.event(&mut ctx, Event::Timer(TimerToken { id: token.id + 100 }), &msgs);
    assert!(kb.major_warning.is_some());
    kb.event(&mut ctx, Event::Timer(token), &msgs);
    assert!(kb.major_warning.is_none());
    assert_eq!(kb.render(), vec![PinPart::MajorPrompt, PinPart::MinorPrompt, PinPart::Keypad]);
}

#[test]
fn pin_keyboard_touching_input_shows_pin() {
    let mut kb = keyboard(false);
    let mut ctx = EventCtx::new();
    click_key(&mut kb, &mut ctx, 0);
    kb.textbox.place(Rect { x0: 0, y0: 0, x1: 100, y1: 50 });
    let msgs = KeypadButtonMsgs::none(10);
    kb.event(&mut ctx, Event::Touch(TouchEvent::TouchStart(Point { x: 10, y: 10 })), &msgs);
    assert_eq!(kb.textbox.display_style, DisplayStyle::Shown);
    assert!(kb.keypad.keys.iter().all(|k| !k.button.inner.enabled));
    assert_eq!(kb.render(), vec![PinPart::Keypad, PinPart::Input]);
    kb.event(&mut ctx, Event::Touch(TouchEvent::TouchEnd(Point { x: 10, y: 10 })), &msgs);
    assert_eq!(kb.textbox.display_style, DisplayStyle::Hidden);
    assert!(kb.keypad.keys.iter().all(|k| k.button.inner.enabled));
    assert_eq!(kb.render(), vec![PinPart::Input, PinPart::Keypad]);
}

#[test]
fn pin_input_basics() {
    let mut input = PinInput::new(TextStyle::TextMonoLight);
    assert!(input.is_empty());
    assert_eq!(input.size().x, 0);
    input.push("12");
    input.push("3");
    assert_eq!(input.pin(), "123");
    // three dots of 10 px with 3 px between them
    assert_eq!(input.size().x, 36);
    assert_eq!(input.size().y, 6);
    input.pop();
    assert_eq!(input.pin(), "12");
    input.clear();
    assert!(input.is_empty());
    input.pop();
    assert_eq!(input.pin(), "");
}

#[test]
fn pin_input_size_is_capped() {
    let mut input = PinInput::new(TextStyle::TextMonoLight);
    for _ in 0..30 {
        input.push("7");
    }
    assert!(!input.is_full());
    // at most 19 dots: 19 * 10 + 18 * 3
    assert_eq!(input.size().x, 244);
    for _ in 0..20 {
        input.push("7");
    }
    assert!(input.is_full());
}

#[test]
fn pin_input_events() {
    let mut input = PinInput::new(TextStyle::TextMonoLight);
    input.place(Rect { x0: 0, y0: 0, x1: 10, y1: 10 });
    let inside = Event::Touch(TouchEvent::TouchStart(Point { x: 5, y: 5 }));
    // nothing is reported while the PIN is empty
    assert_eq!(input.event(inside), None);
    input.push("1");
    assert_eq!(input.event(inside), Some(PinInputMsg::TouchStart));
    let outside = Event::Touch(TouchEvent::TouchEnd(Point { x: 50, y: 5 }));
    assert_eq!(input.event(outside), None);
    let mut ctx = EventCtx::new();
    input.last_digit_timer.start(&mut ctx, 1000);
    let token = ctx.timers[0].0;
    assert_eq!(input.event(Event::Timer(token)), Some(PinInputMsg::LasDigitTimeout));
    assert!(!input.last_digit_timer.is_running());
    assert_eq!(input.event(Event::Timer(token)), None);
}

fn digits_input(digits: &str, style: DisplayStyle) -> PinInput {
    let mut input = PinInput::new(TextStyle::TextMonoLight);
    input.push(digits);
    input.display_style = style;
    input
}

const AREA: Rect = Rect { x0: 0, y0: 0, x1: 200, y1: 60 };

#[test]
fn pin_hidden_dots_centered() {
    let input = digits_input("1234", DisplayStyle::Hidden);
    // 49 px of dots centered on (100, 30)
    let expected: Vec<HiddenGlyph> =
        [76, 88, 100, 112].iter().map(|&x| HiddenGlyph::Dot { x, y: 27 }).collect();
    assert_eq!(input.render_hidden(AREA, 4, 20), expected);
}

#[test]
fn pin_hidden_last_digit_shown() {
    let input = digits_input("1234", DisplayStyle::LastOnly);
    assert_eq!(
        input.render_hidden(AREA, 4, 20),
        vec![
            HiddenGlyph::Dot { x: 76, y: 27 },
            HiddenGlyph::Dot { x: 88, y: 27 },
            HiddenGlyph::Dot { x: 100, y: 27 },
            HiddenGlyph::LastChar { x: 112, y: 46, ch: '4' },
        ]
    );
}

#[test]
fn pin_hidden_overflow_fades_and_jiggles() {
    let input = digits_input("123456", DisplayStyle::Hidden);
    // 75 px of dots start at 63; an even overflowing PIN moves 4 px right
    assert_eq!(
        input.render_hidden(AREA, 2, 20),
        vec![
            HiddenGlyph::FadedDot { x: 67, y: 27, color: Color::GreySuperDark },
            HiddenGlyph::FadedDot { x: 79, y: 27, color: Color::GreyExtraDark },
            HiddenGlyph::FadedDot { x: 91, y: 27, color: Color::GreyDark },
            HiddenGlyph::FadedDot { x: 103, y: 27, color: Color::Grey },
        ]
    );
    let input = digits_input("12345", DisplayStyle::LastOnly);
    assert_eq!(
        input.render_hidden(AREA, 3, 20),
        vec![
            HiddenGlyph::FadedDot { x: 69, y: 27, color: Color::GreyDark },
            HiddenGlyph::FadedDot { x: 81, y: 27, color: Color::Grey },
            HiddenGlyph::LastChar { x: 93, y: 46, ch: '5' },
        ]
    );
}

#[test]
fn pin_hidden_empty_paints_nothing() {
    let input = digits_input("", DisplayStyle::Hidden);
    assert!(input.render_hidden(AREA, 0, 20).is_empty());
}

#[test]
fn pin_keyboard_place() {
    let mut kb = PinKeyboard::new(
        TString::Str("Enter PIN"),
        TString::Str(""),
        Some(TString::Str("Wrong PIN")),
        false,
        &IDENTITY,
    );
    let metrics = KeyboardMetrics {
        input_height: 120,
        keypad_height: 400,
        input_touch_height: 120,
        prompt_insets: Insets { top: 10, right: 20, bottom: 10, left: 20 },
        input_insets: Insets { top: 0, right: 0, bottom: 0, left: 0 },
    };
    let bounds = Rect { x0: 0, y0: 0, x1: 380, y1: 520 };
    assert_eq!(kb.place(bounds, &metrics), bounds);
    let touch = Rect { x0: 0, y0: 0, x1: 380, y1: 120 };
    assert_eq!(kb.textbox.area, touch);
    assert_eq!(kb.major_prompt.area, Rect { x0: 20, y0: 10, x1: 360, y1: 110 });
    assert_eq!(kb.minor_prompt.area, Rect { x0: 20, y0: 10, x1: 360, y1: 110 });
    assert_eq!(kb.major_warning.unwrap().area, touch);
    let grid = OverlapGrid::<4, 3>::new(Rect { x0: 0, y0: 120, x1: 380, y1: 520 });
    assert_eq!(kb.keypad.keys[9].button.inner.area, grid.border_of_cell(10));
    assert_eq!(kb.keypad.erase_btn.button.inner.area, grid.border_of_cell(9));
}

#[test]
fn pin_erase_undoes_digit() {
    let mut kb = keyboard(false);
    let mut ctx = EventCtx::new();
    click_key(&mut kb, &mut ctx, 3);
    click_key(&mut kb, &mut ctx, 7);
    let before = kb.pin().to_string();
    assert_eq!(click_key(&mut kb, &mut ctx, 2), None);
    assert_eq!(kb.pin(), "483");
    let mut msgs = KeypadButtonMsgs::none(10);
    msgs.erase = Some(ButtonMsg::Clicked);
    assert_eq!(kb.event(&mut ctx, Event::Attach, &msgs), None);
    assert_eq!(kb.pin(), before);
}

fn ten_px_per_char(width: i16, text: &str) -> usize {
    text.len().min((width.max(0) / 10) as usize)
}

#[test]
fn pin_shown_in_lines() {
    let input = digits_input("1234567890123", DisplayStyle::Shown);
    let area = Rect { x0: 0, y0: 0, x1: 60, y1: 40 };
    let shown = input.render_shown(area, 20, &ten_px_per_char);
    assert!(!shown.centered);
    assert_eq!(shown.bar, Rect { x0: 0, y0: 0, x1: 60, y1: 104 });
    assert_eq!(
        shown.texts,
        vec![
            (Point { x: 0, y: 40 }, "123456"),
            (Point { x: 0, y: 72 }, "789012"),
            (Point { x: 0, y: 104 }, "3"),
        ]
    );
}

#[test]
fn pin_shown_single_line_centered() {
    let input = digits_input("123", DisplayStyle::Shown);
    let area = Rect { x0: 0, y0: 0, x1: 60, y1: 40 };
    let shown = input.render_shown(area, 20, &ten_px_per_char);
    assert!(shown.centered);
    assert_eq!(shown.bar, area);
    assert_eq!(shown.texts, vec![(Point { x: 30, y: 30 }, "123")]);
}

#[test]
fn pin_input_render_dispatch() {
    let zero = Insets { top: 0, right: 0, bottom: 0, left: 0 };
    let mut input = digits_input("", DisplayStyle::Hidden);
    input.place(AREA);
    assert!(matches!(input.render(zero, 20, 0, &ten_px_per_char), InputPaint::Nothing));
    input.push("12");
    match input.render(zero, 20, 2, &ten_px_per_char) {
        InputPaint::Hidden(glyphs) => assert_eq!(glyphs, input.render_hidden(AREA, 2, 20)),
        _ => panic!("a hidden PIN paints dots"),
    }
    input.display_style = DisplayStyle::Shown;
    match input.render(zero, 20, 2, &ten_px_per_char) {
        InputPaint::Shown(shown) => assert_eq!(shown.texts, vec![(Point { x: 100, y: 40 }, "12")]),
        _ => panic!("a shown PIN paints its digits"),
    }
}

#[test]
fn pin_input_render_checked() {
    let zero = Insets { top: 0, right: 0, bottom: 0, left: 0 };
    let mut input = digits_input("1234", DisplayStyle::Hidden);
    input.place(AREA);
    assert!(input.check_hidden_fits(AREA, 4, 20));
    match input.render_checked(zero, 20, 4, &ten_px_per_char) {
        Some(InputPaint::Hidden(glyphs)) => assert_eq!(glyphs, input.render_hidden(AREA, 4, 20)),
        _ => panic!("a hidden PIN in a small area paints dots"),
    }
    // the last digit would be drawn below the largest coordinate
    let low = Rect { x0: 0, y0: 32740, x1: 200, y1: 32760 };
    input.place(low);
    assert!(!input.check_hidden_fits(low, 4, 20));
    assert!(input.render_checked(zero, 20, 4, &ten_px_per_char).is_none());
    // an inverted area cannot hold the dots
    assert!(!input.check_hidden_fits(Rect { x0: 10, y0: 0, x1: 0, y1: 60 }, 4, 20));
    // an empty PIN paints nothing wherever it is
    let mut empty = digits_input("", DisplayStyle::Hidden);
    empty.place(low);
    assert!(matches!(empty.render_checked(zero, 20, 4, &ten_px_per_char), Some(InputPaint::Nothing)));
}

#[test]
fn pin_input_push_pop_clear() {
    let mut input = digits_input("12", DisplayStyle::Hidden);
    input.push("345");
    assert_eq!(input.pin(), "12345");
    input.pop();
    assert_eq!(input.pin(), "1234");
    input.clear();
    assert_eq!(input.pin(), "");
    input.pop();
    assert_eq!(input.pin(), "");
    assert!(input.is_empty());
}

#[test]
fn pin_digit_shuffle() {
    assert_eq!(shuffle_digit_order(&[0; 9]), vec![1, 2, 3, 4, 5, 6, 7, 8, 9, 0]);
    assert_eq!(shuffle_digit_order(&[1, 2, 3, 4, 5, 6, 7, 8, 9]), vec![0, 1, 2, 3, 4, 5, 6, 7, 8, 9]);
    let big = 1_000_000_000_000_000_007u64;
    let order = shuffle_digit_order(&[big; 9]);
    assert_eq!(order, vec![0, 6, 4, 3, 2, 5, 1, 9, 8, 7]);
    // the shuffled keys show every digit once
    let kb = PinKeyboard::new(TString::Str("Enter PIN"), TString::Str(""), None, false, &order);
    let mut labels: Vec<&str> = (0..10).map(|k| key_label(&kb, k)).collect();
    labels.sort();
    assert_eq!(labels, vec!["0", "1", "2", "3", "4", "5", "6", "7", "8", "9"]);
}
