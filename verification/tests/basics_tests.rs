use eckhart_ui::button::{Alignment, Button, ButtonContent, Color, Label, Maybe, TString, TextStyle};
use eckhart_ui::component::{anim_frame_timer, Event, EventCtx, Timer, TimerToken};
use eckhart_ui::geometry::{i32_div_trunc, Insets, Offset, Point, Rect};
use eckhart_ui::text::{char_len, split_text_into_lines, str_eq, MultiTapKeyboard, TextBox, TextEdit};

#[test]
fn rect_splits() {
    let r = Rect { x0: 10, y0: 20, x1: 110, y1: 220 };
    assert_eq!(r.split_top(50), (Rect { x0: 10, y0: 20, x1: 110, y1: 70 }, Rect { x0: 10, y0: 70, x1: 110, y1: 220 }));
    assert_eq!(r.split_bottom(50), (Rect { x0: 10, y0: 20, x1: 110, y1: 170 }, Rect { x0: 10, y0: 170, x1: 110, y1: 220 }));
    assert_eq!(r.split_left(30), (Rect { x0: 10, y0: 20, x1: 40, y1: 220 }, Rect { x0: 40, y0: 20, x1: 110, y1: 220 }));
    assert_eq!(r.split_right(30), (Rect { x0: 10, y0: 20, x1: 80, y1: 220 }, Rect { x0: 80, y0: 20, x1: 110, y1: 220 }));
    // clamped to the rectangle
    assert_eq!(r.split_top(500).1, Rect { x0: 10, y0: 220, x1: 110, y1: 220 });
    assert_eq!(r.split_left(-5).0, Rect { x0: 10, y0: 20, x1: 10, y1: 220 });
}

#[test]
fn rect_split_center() {
    let r = Rect { x0: 0, y0: 0, x1: 100, y1: 10 };
    let (l, c, rr) = r.split_center(20);
    assert_eq!(l, Rect { x0: 0, y0: 0, x1: 40, y1: 10 });
    assert_eq!(c, Rect { x0: 40, y0: 0, x1: 60, y1: 10 });
    assert_eq!(rr, Rect { x0: 60, y0: 0, x1: 100, y1: 10 });
    let (_, c, _) = r.split_center(21);
    assert_eq!(c, Rect { x0: 39, y0: 0, x1: 60, y1: 10 });
    let (l, c, _) = r.split_center(200);
    assert_eq!(l.x1, 0);
    assert_eq!(c, r);
}

#[test]
fn rect_measures() {
    let r = Rect::from_top_left_and_size(Point::new(5, 6), Offset::new(10, 20));
    assert_eq!(r, Rect { x0: 5, y0: 6, x1: 15, y1: 26 });
    assert_eq!(r.width(), 10);
    assert_eq!(r.height(), 20);
    assert_eq!(r.center(), Point { x: 10, y: 16 });
    assert_eq!(r.left_center(), Point { x: 5, y: 16 });
    assert!(r.contains(Point { x: 5, y: 6 }));
    assert!(!r.contains(Point { x: 15, y: 6 }));
    assert_eq!(r.inset(Insets::uniform(2)), Rect { x0: 7, y0: 8, x1: 13, y1: 24 });
    assert_eq!(r.outset(Insets::sides(3)), Rect { x0: 2, y0: 6, x1: 18, y1: 26 });
    assert_eq!(Insets::sides(3), Insets { top: 0, right: 3, bottom: 0, left: 3 });
}

#[test]
fn offsets_and_points() {
    assert_eq!(Offset::x(4), Offset { x: 4, y: 0 });
    assert_eq!(Offset::y(4), Offset { x: 0, y: 4 });
    assert_eq!(Offset::zero(), Offset { x: 0, y: 0 });
    assert_eq!(Point::new(1, 2).ofs(Offset::new(3, 4)), Point { x: 4, y: 6 });
    // a 10 x 6 box centered on (50, 50) starts at (45, 47)
    assert_eq!(Offset::new(10, 6).snap_center(Point::new(50, 50)), Point { x: 45, y: 47 });
}

#[test]
fn truncating_division() {
    assert_eq!(i32_div_trunc(7, 2), 3);
    assert_eq!(i32_div_trunc(-7, 2), -3);
    assert_eq!(i32_div_trunc(-1, 2), 0);
}

#[test]
fn event_ctx_timers() {
    let mut ctx = EventCtx::new();
    assert_eq!(anim_frame_timer(), TimerToken { id: 1 });
    let t1 = ctx.request_timer(500);
    let t2 = ctx.request_timer(700);
    assert_ne!(t1, t2);
    assert_eq!(ctx.timers, vec![(t1, 500), (t2, 700)]);
    assert!(!ctx.paint_requested);
    ctx.request_paint();
    assert!(ctx.paint_requested);
    ctx.request_anim_frame();
    assert!(ctx.anim_frame_requested);
}

#[test]
fn timer_fires_once() {
    let mut ctx = EventCtx::new();
    let mut timer = Timer::new();
    assert!(!timer.is_running());
    timer.start(&mut ctx, 100);
    let token = ctx.timers[0].0;
    assert!(timer.is_running());
    assert!(!timer.expire(Event::Attach));
    assert!(timer.expire(Event::Timer(token)));
    assert!(!timer.is_running());
    assert!(!timer.expire(Event::Timer(token)));
    // restarting keeps the token
    timer.start(&mut ctx, 100);
    assert_eq!(ctx.timers[1].0, token);
    timer.stop();
    assert!(!timer.expire(Event::Timer(token)));
}

#[test]
fn textbox_edits() {
    let mut ctx = EventCtx::new();
    let mut tb = TextBox::empty(3);
    assert!(tb.is_empty());
    tb.append('a');
    tb.append('b');
    tb.replace_last('c');
    assert_eq!(tb.content(), "ac");
    tb.append('d');
    tb.append('e');
    // full: further characters are dropped
    assert_eq!(tb.content(), "acd");
    assert_eq!(tb.len(), 3);
    tb.delete_last(&mut ctx);
    assert_eq!(tb.content(), "ac");
    assert!(ctx.paint_requested);
    tb.apply(&mut ctx, TextEdit::ReplaceLast('z'));
    assert_eq!(tb.content(), "az");
    tb.apply(&mut ctx, TextEdit::Append('y'));
    assert_eq!(tb.content(), "azy");
    tb.clear(&mut ctx);
    assert!(tb.is_empty());
    assert_eq!(char_len("héllo"), 5);
}

#[test]
fn multi_tap_clicks() {
    let mut ctx = EventCtx::new();
    let mut mt = MultiTapKeyboard::new();
    assert_eq!(mt.click_key(&mut ctx, 3, "jkl"), TextEdit::Append('j'));
    assert_eq!(mt.pending_key(), Some(3));
    assert_eq!(mt.pending_press(), Some(0));
    assert_eq!(mt.click_key(&mut ctx, 3, "jkl"), TextEdit::ReplaceLast('k'));
    assert_eq!(mt.click_key(&mut ctx, 3, "jkl"), TextEdit::ReplaceLast('l'));
    assert_eq!(mt.click_key(&mut ctx, 3, "jkl"), TextEdit::ReplaceLast('j'));
    assert_eq!(mt.click_key(&mut ctx, 4, "mno"), TextEdit::Append('m'));
    let timer = ctx.timers.last().unwrap().0;
    assert!(mt.timeout_event(Event::Timer(timer)));
    assert!(!mt.timeout_event(Event::Attach));
    // a single-character key is never pending
    assert_eq!(mt.click_key(&mut ctx, 0, "1"), TextEdit::Append('1'));
    assert_eq!(mt.pending_key(), None);
    mt.click_key(&mut ctx, 4, "mno");
    let mut ctx2 = EventCtx::new();
    mt.clear_pending_state(&mut ctx2);
    assert!(ctx2.paint_requested);
    assert_eq!(mt.pending_key(), None);
}

#[test]
fn buttons_and_labels() {
    let b = Button::with_text("OK").with_radius(4).initially_enabled(false).with_text_align(Alignment::Center);
    assert!(matches!(b.content, ButtonContent::Text("OK")));
    assert_eq!(b.radius, Some(4));
    assert!(!b.is_enabled());
    assert_eq!(b.text_align, Alignment::Center);
    let mut b = b.with_long_press(300);
    assert_eq!(b.long_press_ms, Some(300));
    let mut ctx = EventCtx::new();
    b.enable(&mut ctx);
    assert!(b.is_enabled() && ctx.paint_requested);
    let mut ctx = EventCtx::new();
    b.enable(&mut ctx);
    assert!(!ctx.paint_requested);
    b.disable(&mut ctx);
    assert!(!b.is_enabled() && ctx.paint_requested);
    let label = Label::right_aligned(TString::Str("x"), TextStyle::TextSmall).vertically_centered();
    assert_eq!(label.align, Alignment::End);
    assert!(label.vertically_centered);
    let mut m = Maybe::hidden(Color::Bg, 5u8);
    assert!(!m.is_visible());
    let mut ctx = EventCtx::new();
    m.show(&mut ctx);
    assert!(m.is_visible() && ctx.paint_requested);
    m.conceal(&mut ctx);
    assert!(!m.is_visible());
    assert_eq!(*m.inner(), 5);
}

#[test]
fn delete_undoes_append() {
    let mut ctx = EventCtx::new();
    let mut tb = TextBox::empty(5);
    tb.append('x');
    tb.append('y');
    let before = tb.content().to_string();
    tb.append('z');
    tb.delete_last(&mut ctx);
    assert_eq!(tb.content(), before);
}

fn ten_px_per_char(width: i16, text: &str) -> usize {
    text.len().min((width.max(0) / 10) as usize)
}

#[test]
fn split_lines_by_width() {
    let lines = split_text_into_lines("abcdefgh", &ten_px_per_char, 30);
    assert_eq!(lines.as_slice(), &["abc", "def", "gh"]);
    let lines = split_text_into_lines("", &ten_px_per_char, 30);
    assert!(lines.is_empty());
    // nothing fits: the number of lines is capped
    let lines = split_text_into_lines("abc", &ten_px_per_char, 5);
    assert_eq!(lines.len(), 10);
    assert!(lines.iter().all(|l| l.is_empty()));
    // a long text stops after ten lines
    let long = "x".repeat(25);
    let lines = split_text_into_lines(&long, &ten_px_per_char, 20);
    assert_eq!(lines.len(), 10);
    assert_eq!(lines.concat(), "x".repeat(20));
}

#[test]
fn str_eq_compares_characters() {
    assert!(str_eq("", ""));
    assert!(str_eq(" *#", " *#"));
    assert!(!str_eq("abc", "abd"));
    assert!(!str_eq("abc", "ab"));
    assert!(!str_eq("é", "e"));
}
