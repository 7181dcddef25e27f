use eckhart_ui::button::{Button, ButtonContent, ButtonMsg, ButtonStyleSheet, Color, Icon, TString, TextStyle, TR};
use eckhart_ui::component::{Event, EventCtx, TimerToken};
use eckhart_ui::geometry::{Insets, Point, Rect};
use eckhart_ui::header::{AttachAnimation, Header, HeaderMsg, HeaderPart};
use eckhart_ui::pager::Pager;
use eckhart_ui::select_word_screen::{SelectWordMsg, SelectWordPart, SelectWordScreen};
use eckhart_ui::share_words::ShareWords;
use eckhart_ui::share_words_screen::{
    ActionBar, ActionBarMsg, Hint, HintContent, ShareWordsScreen, ShareWordsScreenMsg, ShareWordsScreenPart,
};

fn words(list: &[&'static str]) -> heapless::Vec<&'static str, 33> {
    let mut v: heapless::Vec<&'static str, 33> = heapless::Vec::new();
    for w in list {
        v.push(w).unwrap();
    }
    v
}

#[test]
fn share_words_repeated_pages() {
    let mut sw = ShareWords::new(words(&["academic", "acid", "academic", "beard", "acid", "academic"]));
    assert_eq!(sw.pager(), Pager { current: 0, total: 6 });
    let mut repeated = Vec::new();
    for page in 0..6u16 {
        sw.change_page(page);
        repeated.push(sw.is_repeated());
    }
    assert_eq!(repeated, vec![false, false, true, false, true, true]);
    assert_eq!(sw.repeated_indices.as_slice(), &[2u8, 4, 5]);
}

#[test]
fn share_words_change_page_clamps() {
    let mut sw = ShareWords::new(words(&["one", "two", "three"]));
    sw.change_page(10);
    assert_eq!(sw.pager().current, 2);
    assert!(sw.pager().is_last());
    sw.change_page(1);
    assert_eq!(sw.pager().current, 1);
    assert_eq!(sw.pager().prev(), 0);
    assert_eq!(sw.pager().next(), 2);
}

#[test]
fn share_words_no_repeats() {
    let sw = ShareWords::new(words(&["a", "b", "c", "d"]));
    assert!(sw.repeated_indices.is_empty());
    assert!(!sw.is_repeated());
}

#[test]
fn pager_bounds() {
    let mut p = Pager::new(4);
    assert!(p.is_first());
    assert_eq!(p.prev(), 0);
    p.set_current(7);
    assert_eq!(p.current(), 3);
    assert!(p.is_last());
    assert_eq!(p.next(), 3);
    let single = Pager::single_page();
    assert_eq!(single.total(), 1);
    assert!(single.is_first() && single.is_last());
}

fn share_screen(list: &[&'static str]) -> ShareWordsScreen<'static> {
    ShareWordsScreen::new(words(list))
        .with_header(Header::new(TString::Str("Backup")))
        .with_action_bar(ActionBar::new_single(Button::with_text("Next")))
}

#[test]
fn share_words_screen_hints() {
    let mut screen = share_screen(&["alpha", "beta", "alpha"]);
    let mut ctx = EventCtx::new();
    assert_eq!(screen.event(&mut ctx, Event::Attach, None, None), None);
    assert!(matches!(
        screen.hint,
        Some(Hint { content: HintContent::Instruction { text: TString::Tr(TR::ShareWordsFirstWord), icon: Some(Icon::Info) }, .. })
    ));
    assert_eq!(screen.event(&mut ctx, Event::Attach, None, Some(ActionBarMsg::Next)), None);
    assert_eq!(screen.content.pager().current, 1);
    assert!(matches!(screen.hint, Some(Hint { content: HintContent::PageCounter { pager: Pager { current: 1, total: 3 } }, .. })));
    assert_eq!(screen.action_bar.pager, Pager { current: 1, total: 3 });
    screen.event(&mut ctx, Event::Attach, None, Some(ActionBarMsg::Next));
    assert!(matches!(
        screen.hint,
        Some(Hint { content: HintContent::InstructionGreen { text: TString::Tr(TR::ShareWordsWordMultipleTimes), .. }, .. })
    ));
    // the last page stays the last
    screen.event(&mut ctx, Event::Attach, None, Some(ActionBarMsg::Next));
    assert_eq!(screen.content.pager().current, 2);
    screen.event(&mut ctx, Event::Attach, None, Some(ActionBarMsg::Prev));
    screen.event(&mut ctx, Event::Attach, None, Some(ActionBarMsg::Prev));
    screen.event(&mut ctx, Event::Attach, None, Some(ActionBarMsg::Prev));
    assert_eq!(screen.content.pager().current, 0);
}

#[test]
fn share_words_screen_messages() {
    let mut screen = share_screen(&["alpha", "beta"]);
    let mut ctx = EventCtx::new();
    assert_eq!(
        screen.event(&mut ctx, Event::Attach, Some(HeaderMsg::Cancelled), Some(ActionBarMsg::Confirmed)),
        Some(ShareWordsScreenMsg::Cancelled)
    );
    assert_eq!(screen.event(&mut ctx, Event::Attach, Some(HeaderMsg::Info), None), Some(ShareWordsScreenMsg::Menu));
    assert_eq!(
        screen.event(&mut ctx, Event::Attach, None, Some(ActionBarMsg::Confirmed)),
        Some(ShareWordsScreenMsg::Confirmed)
    );
    assert_eq!(
        screen.event(&mut ctx, Event::Attach, None, Some(ActionBarMsg::Cancelled)),
        Some(ShareWordsScreenMsg::Cancelled)
    );
}

#[test]
fn hint_update_only_moves_page_counter() {
    let mut counter = Hint::new_page_counter();
    counter.update(Pager { current: 2, total: 5 });
    assert!(matches!(counter.content, HintContent::PageCounter { pager: Pager { current: 2, total: 5 } }));
    let mut instruction = Hint::new_instruction(TString::Str("Write it down"), None);
    instruction.update(Pager { current: 2, total: 5 });
    assert!(matches!(instruction.content, HintContent::Instruction { text: TString::Str("Write it down"), icon: None }));
}

#[test]
fn header_builders() {
    let header = Header::new(TString::Str("Title"))
        .with_text_style(TextStyle::TextSmall)
        .with_right_button(Button::with_icon(Icon::Info), HeaderMsg::Info);
    assert_eq!(header.title_style, TextStyle::TextSmall);
    assert_eq!(header.title.style, TextStyle::TextSmall);
    assert!(header.title.vertically_centered);
    let right = header.right_button.expect("right button");
    assert_eq!(right.touch_expand, Some(Insets { top: 32, right: 32, bottom: 32, left: 32 }));
    assert_eq!(header.right_button_msg, HeaderMsg::Info);
    let header = header.with_icon(Icon::Checkmark, Color::White);
    let left = header.left_button.expect("left icon");
    assert!(!left.enabled);
    assert!(matches!(left.content, ButtonContent::Icon(Icon::Checkmark)));
    assert_eq!(left.styles, ButtonStyleSheet::Default);
}

#[test]
fn header_event_reports_clicks() {
    let mut header = Header::new(TString::Str("Title"))
        .with_right_button(Button::with_icon(Icon::Info), HeaderMsg::Info)
        .with_left_button(Button::with_icon(Icon::ChevronLeft), HeaderMsg::Cancelled);
    let mut ctx = EventCtx::new();
    let clicked = Some(ButtonMsg::Clicked);
    assert_eq!(header.event(&mut ctx, Event::Attach, clicked, clicked, 0, false), Some(HeaderMsg::Cancelled));
    assert_eq!(header.event(&mut ctx, Event::Attach, None, clicked, 0, false), Some(HeaderMsg::Info));
    assert_eq!(header.event(&mut ctx, Event::Attach, Some(ButtonMsg::Pressed), None, 0, false), None);
    // without buttons nothing is reported
    let mut plain = Header::new(TString::Str("Title"));
    assert_eq!(plain.event(&mut ctx, Event::Attach, clicked, clicked, 0, false), None);
}

#[test]
fn header_update_title_repaints() {
    let mut header = Header::new(TString::Str("Old"));
    let mut ctx = EventCtx::new();
    header.update_title(&mut ctx, TString::Str("New"));
    assert!(matches!(header.title.text, TString::Str("New")));
    assert!(ctx.paint_requested);
}

#[test]
fn header_animation_frames() {
    let mut header = Header::new(TString::Str("Title"));
    header.anim = Some(AttachAnimation::default());
    let mut ctx = EventCtx::new();
    header.event(&mut ctx, Event::Attach, None, None, 5000, false);
    assert!(ctx.paint_requested && ctx.anim_frame_requested);
    let frame = Event::Timer(TimerToken { id: 1 });
    let mut ctx = EventCtx::new();
    header.event(&mut ctx, frame, None, None, 5500, false);
    assert!(ctx.anim_frame_requested);
    let mut ctx = EventCtx::new();
    header.event(&mut ctx, frame, None, None, 6500, false);
    assert!(!ctx.anim_frame_requested);
    let mut ctx = EventCtx::new();
    header.event(&mut ctx, frame, None, None, 5500, true);
    assert!(!ctx.anim_frame_requested);
}

#[test]
fn attach_animation_activity() {
    let mut anim = AttachAnimation::default();
    assert!(!anim.is_active(0, false));
    anim.start(100);
    assert!(anim.is_active(100, false));
    assert!(anim.is_active(1099, false));
    assert!(!anim.is_active(1100, false));
    assert!(!anim.is_active(500, true));
    anim.reset();
    assert!(!anim.is_active(150, false));
}

#[test]
fn header_place_layout() {
    let mut header = Header::new(TString::Str("Title"))
        .with_right_button(Button::with_icon(Icon::Info), HeaderMsg::Info)
        .with_left_button(Button::with_icon(Icon::ChevronLeft), HeaderMsg::Cancelled);
    let bounds = Rect { x0: 0, y0: 0, x1: 380, y1: 96 };
    assert_eq!(header.place(bounds, 20), bounds);
    assert_eq!(header.area, bounds);
    assert_eq!(header.right_button.unwrap().area, Rect { x0: 300, y0: 0, x1: 380, y1: 96 });
    // 24 px margin, a 20 px icon, 16 px margin
    assert_eq!(header.left_button.unwrap().area, Rect { x0: 20, y0: 0, x1: 40, y1: 96 });
    assert_eq!(header.title.area, Rect { x0: 60, y0: 0, x1: 300, y1: 96 });
}

#[test]
fn header_place_without_buttons() {
    let mut header = Header::new(TString::Str("Title"));
    let bounds = Rect { x0: 0, y0: 10, x1: 380, y1: 106 };
    header.place(bounds, 0);
    assert_eq!(header.title.area, bounds);
}

#[test]
fn select_word_screen_buttons() {
    let screen = SelectWordScreen::new(["apple", "banana", "cherry"], TString::Str("Select word #3"));
    assert!(matches!(screen.buttons[1].content, ButtonContent::Text("banana")));
    assert!(screen.buttons.iter().all(|b| b.styles == ButtonStyleSheet::SelectWord));
    assert!(screen.description.vertically_centered);
    assert_eq!(screen.description.style, TextStyle::TextMedium);
}

#[test]
fn select_word_screen_event() {
    let header = Header::new(TString::Str("Quiz"))
        .with_left_button(Button::with_icon(Icon::ChevronLeft), HeaderMsg::Cancelled)
        .with_right_button(Button::with_icon(Icon::Cross), HeaderMsg::Cancelled);
    let screen = SelectWordScreen::new(["apple", "banana", "cherry"], TString::Str("Select word")).with_header(header);
    let c = Some(ButtonMsg::Clicked);
    assert_eq!(screen.event(None, None, [None, c, c]), Some(SelectWordMsg::Selected(1)));
    assert_eq!(screen.event(None, c, [c, None, None]), Some(SelectWordMsg::Cancelled));
    // the left button's report is not a cancellation of the quiz
    assert_eq!(screen.event(c, None, [None, None, c]), Some(SelectWordMsg::Selected(2)));
    assert_eq!(screen.event(c, c, [None, None, None]), None);
    assert_eq!(screen.event(None, None, [Some(ButtonMsg::Pressed), None, None]), None);
    // a right button with another message does not cancel
    let info = Header::new(TString::Str("Quiz")).with_right_button(Button::with_icon(Icon::Info), HeaderMsg::Info);
    let screen = SelectWordScreen::new(["apple", "banana", "cherry"], TString::Str("Select word")).with_header(info);
    assert_eq!(screen.event(None, c, [c, None, None]), Some(SelectWordMsg::Selected(0)));
}

#[test]
fn select_word_screen_place() {
    let mut screen = SelectWordScreen::new(["apple", "banana", "cherry"], TString::Str("Select word"));
    let bounds = Rect { x0: 0, y0: 0, x1: 380, y1: 520 };
    assert_eq!(screen.place(bounds, 0), bounds);
    assert_eq!(screen.header.area, Rect { x0: 0, y0: 0, x1: 380, y1: 96 });
    assert_eq!(screen.description.area, Rect { x0: 24, y0: 96, x1: 356, y1: 148 });
    // buttons share 172..496 in three rows of 108 px
    assert_eq!(screen.buttons[0].area, Rect { x0: 24, y0: 172, x1: 356, y1: 280 });
    assert_eq!(screen.buttons[1].area, Rect { x0: 24, y0: 280, x1: 356, y1: 388 });
    assert_eq!(screen.buttons[2].area, Rect { x0: 24, y0: 388, x1: 356, y1: 496 });
}

#[test]
fn header_render_order() {
    let header = Header::new(TString::Str("Title"))
        .with_right_button(Button::with_icon(Icon::Info), HeaderMsg::Info)
        .with_left_button(Button::with_icon(Icon::ChevronLeft), HeaderMsg::Cancelled);
    assert_eq!(header.render(), vec![HeaderPart::RightButton, HeaderPart::LeftButton, HeaderPart::Title]);
    assert_eq!(Header::new(TString::Str("Title")).render(), vec![HeaderPart::Title]);
}

#[test]
fn share_words_render_frame() {
    let mut sw = ShareWords::new(words(&["alpha", "beta", "gamma"]));
    sw.place(Rect { x0: 25, y0: 172, x1: 355, y1: 292 });
    sw.change_page(1);
    let frame = sw.render(20, 50);
    assert_eq!(frame.ordinal, 2);
    assert_eq!(frame.ordinal_text(), "2");
    assert_eq!(frame.ordinal_pos, Point { x: 25, y: 172 });
    assert_eq!(frame.top_line, Rect { x0: 61, y0: 171, x1: 355, y1: 172 });
    assert_eq!(frame.bottom_line, Rect { x0: 25, y0: 291, x1: 355, y1: 292 });
    assert_eq!(frame.word, "beta");
    assert_eq!(frame.word_baseline, Point { x: 190, y: 257 });
}

#[test]
fn share_words_screen_place_and_render() {
    let mut screen = share_screen(&["alpha", "beta"]);
    assert_eq!(
        screen.render(),
        vec![ShareWordsScreenPart::Header, ShareWordsScreenPart::Content, ShareWordsScreenPart::ActionBar]
    );
    let mut ctx = EventCtx::new();
    screen.event(&mut ctx, Event::Attach, None, None);
    let bounds = Rect { x0: 0, y0: 0, x1: 380, y1: 520 };
    assert_eq!(screen.place(bounds, 90, 40, 0), bounds);
    assert_eq!(screen.area, bounds);
    assert_eq!(screen.header.area, Rect { x0: 0, y0: 0, x1: 380, y1: 96 });
    assert_eq!(screen.hint.unwrap().area, Rect { x0: 0, y0: 390, x1: 380, y1: 430 });
    assert_eq!(screen.content.area, Rect { x0: 25, y0: 172, x1: 355, y1: 292 });
    assert_eq!(screen.action_bar.area, Rect { x0: 0, y0: 430, x1: 380, y1: 520 });
    assert_eq!(
        screen.render(),
        vec![
            ShareWordsScreenPart::Header,
            ShareWordsScreenPart::Content,
            ShareWordsScreenPart::Hint,
            ShareWordsScreenPart::ActionBar
        ]
    );
}

#[test]
fn share_words_screen_page_change_lays_out_again() {
    let mut screen = share_screen(&["alpha", "beta", "gamma"]);
    let bounds = Rect { x0: 0, y0: 0, x1: 380, y1: 520 };
    // placed before any hint is shown: the hint area is given only later
    screen.place(bounds, 90, 40, 0);
    assert!(screen.hint.is_none());
    let mut ctx = EventCtx::new();
    assert_eq!(screen.event(&mut ctx, Event::Timer(TimerToken { id: 7 }), None, Some(ActionBarMsg::Next)), None);
    assert_eq!(screen.content.pager().current, 1);
    let hint = screen.hint.unwrap();
    assert!(matches!(hint.content, HintContent::PageCounter { pager: Pager { current: 1, total: 3 } }));
    assert_eq!(hint.area, Rect { x0: 0, y0: 390, x1: 380, y1: 430 });
    assert_eq!(screen.content.area, Rect { x0: 25, y0: 172, x1: 355, y1: 292 });
    assert_eq!(screen.action_bar.area, Rect { x0: 0, y0: 430, x1: 380, y1: 520 });
    assert_eq!(screen.header.area, Rect { x0: 0, y0: 0, x1: 380, y1: 96 });
    assert_eq!(screen.area, bounds);
}

#[test]
fn share_words_screen_unplaced_hint_has_no_area() {
    let mut screen = share_screen(&["alpha", "beta"]);
    let mut ctx = EventCtx::new();
    screen.event(&mut ctx, Event::Attach, None, None);
    assert_eq!(screen.hint.unwrap().area, Rect { x0: 0, y0: 0, x1: 0, y1: 0 });
    assert!(screen.measures.is_none());
}

#[test]
fn select_word_screen_render() {
    let mut screen = SelectWordScreen::new(["apple", "banana", "cherry"], TString::Str("Select word"));
    screen.place(Rect { x0: 0, y0: 0, x1: 380, y1: 520 }, 0);
    assert_eq!(
        screen.render(),
        vec![
            SelectWordPart::Header,
            SelectWordPart::Description,
            SelectWordPart::Button(0),
            SelectWordPart::Separator(Rect { x0: 24, y0: 279, x1: 356, y1: 280 }),
            SelectWordPart::Button(1),
            SelectWordPart::Separator(Rect { x0: 24, y0: 387, x1: 356, y1: 388 }),
            SelectWordPart::Button(2),
        ]
    );
}

#[test]
fn pager_steps_return() {
    let p = Pager { current: 2, total: 5 };
    let forward = Pager { current: p.next(), ..p };
    assert_eq!(forward.current, 3);
    assert_eq!(forward.prev(), 2);
    let back = Pager { current: p.prev(), ..p };
    assert_eq!(back.next(), 2);
    let last = Pager { current: 4, total: 5 };
    assert_eq!(last.next(), 4);
}

#[test]
fn share_words_ordinal_text() {
    let mut sw = ShareWords::new(words(&["alpha", "beta", "gamma"]));
    sw.place(Rect { x0: 25, y0: 172, x1: 355, y1: 292 });
    let mut frame = sw.render(20, 50);
    for (n, text) in [(1u8, "1"), (9, "9"), (10, "10"), (33, "33"), (100, "100"), (255, "255")] {
        frame.ordinal = n;
        assert_eq!(frame.ordinal_text(), text);
    }
}
