use eckhart_ui::button::{ButtonMsg, ButtonStyleSheet, TString};
use eckhart_ui::component::{Event, EventCtx};
use eckhart_ui::geometry::{Insets, Rect};
use eckhart_ui::keypad::{KeyboardMetrics, KeypadButtonMsgs};
use eckhart_ui::overlap_grid::OverlapGrid;
use eckhart_ui::mnemonic::{InputStatus, MnemonicInput, MnemonicInputMsg, MnemonicKeyboard, MnemonicKeyboardMsg, MnemonicPart};

const WORDS: [&str; 4] = ["abandon", "ability", "zoo", "zebra"];
const KEYS: [&str; 9] = ["ab", "cd", "ef", "ghij", "klm", "nopq", "rs", "tuv", "wxyz"];

/// A small word input: each key press adds the key's letter group, and a word
/// matches when its letters fall into the pressed groups in order.
struct WordInput {
    presses: Vec<usize>,
    timed_out: bool,
    area: Rect,
}

fn key_of(ch: char) -> usize {
    KEYS.iter().position(|k| k.contains(ch)).unwrap()
}

impl WordInput {
    fn new() -> Self {
        WordInput { presses: Vec::new(), timed_out: false, area: Rect { x0: 0, y0: 0, x1: 0, y1: 0 } }
    }

    fn matches(&self) -> Vec<&'static str> {
        WORDS
            .iter()
            .copied()
            .filter(|w| {
                w.len() >= self.presses.len() && w.chars().zip(self.presses.iter()).all(|(c, k)| key_of(c) == *k)
            })
            .collect()
    }
}

impl MnemonicInput for WordInput {
    fn spec_keys() -> [&'static str; 9] {
        KEYS
    }

    fn spec_can_key_press(&self, key: usize) -> bool {
        self.can_key_press_lead_to_a_valid_word(key)
    }

    fn spec_can_be_confirmed(&self) -> bool {
        self.can_be_confirmed()
    }

    fn spec_is_empty(&self) -> bool {
        self.is_empty()
    }

    fn spec_mnemonic(&self) -> Option<&'static str> {
        self.mnemonic()
    }

    fn spec_key_clicked(&self, key: usize, new: Self) -> bool {
        let mut presses = self.presses.clone();
        presses.push(key);
        new.presses == presses
    }

    fn spec_backspace_clicked(&self, new: Self) -> bool {
        let mut presses = self.presses.clone();
        presses.pop();
        new.presses == presses
    }

    fn spec_backspace_long_pressed(&self, new: Self) -> bool {
        new.presses.is_empty()
    }

    fn spec_confirm_clicked(&self, new: Self) -> bool {
        new.presses == self.presses
    }

    fn spec_confirm_report(&self) -> Option<MnemonicInputMsg> {
        if self.mnemonic().is_some() {
            Some(MnemonicInputMsg::Confirmed)
        } else {
            None
        }
    }

    fn spec_handles_event(&self, event: Event, new: Self) -> bool {
        new.presses == self.presses && new.timed_out == (self.timed_out && event != Event::Attach)
    }

    fn spec_event_report(&self, event: Event) -> Option<MnemonicInputMsg> {
        if self.timed_out && event == Event::Attach {
            Some(MnemonicInputMsg::TimedOut)
        } else {
            None
        }
    }

    fn keys() -> [&'static str; 9] {
        KEYS
    }

    fn can_key_press_lead_to_a_valid_word(&self, key: usize) -> bool {
        WORDS.iter().any(|w| {
            w.len() > self.presses.len()
                && w.chars().zip(self.presses.iter()).all(|(c, k)| key_of(c) == *k)
                && key_of(w.chars().nth(self.presses.len()).unwrap()) == key
        })
    }

    fn can_be_confirmed(&self) -> bool {
        self.mnemonic().is_some()
    }

    fn on_key_click(&mut self, _ctx: &mut EventCtx, key: usize) {
        self.presses.push(key);
    }

    fn on_backspace_click(&mut self, _ctx: &mut EventCtx) {
        self.presses.pop();
    }

    fn on_confirm_click(&mut self, _ctx: &mut EventCtx) -> Option<MnemonicInputMsg> {
        if self.mnemonic().is_some() {
            Some(MnemonicInputMsg::Confirmed)
        } else {
            None
        }
    }

    fn on_backspace_long_press(&mut self, _ctx: &mut EventCtx) {
        self.presses.clear();
    }

    fn is_empty(&self) -> bool {
        self.presses.is_empty()
    }

    fn mnemonic(&self) -> Option<&'static str> {
        let m = self.matches();
        if !self.presses.is_empty() && m.len() == 1 {
            Some(m[0])
        } else {
            None
        }
    }

    fn place(&mut self, bounds: Rect) -> Rect {
        self.area = bounds;
        bounds
    }

    fn event(&mut self, _ctx: &mut EventCtx, event: Event) -> Option<MnemonicInputMsg> {
        if self.timed_out && event == Event::Attach {
            self.timed_out = false;
            return Some(MnemonicInputMsg::TimedOut);
        }
        None
    }
}

fn click(kb: &mut MnemonicKeyboard<WordInput>, ctx: &mut EventCtx, key: usize) -> Option<MnemonicKeyboardMsg> {
    let mut msgs = KeypadButtonMsgs::none(9);
    msgs.keys[key] = Some(ButtonMsg::Clicked);
    kb.event(ctx, Event::Attach, &msgs)
}

fn enabled_keys(kb: &MnemonicKeyboard<WordInput>) -> Vec<usize> {
    (0..9).filter(|i| kb.keypad.keys[*i].button.inner.enabled).collect()
}

#[test]
fn mnemonic_keyboard_new() {
    let kb = MnemonicKeyboard::new(WordInput::new(), TString::Str("Type word 1"), true);
    assert!(kb.prompt.visible);
    assert!(!kb.input.visible);
    // words start with 'a' (key 0) or 'z' (key 8)
    assert_eq!(enabled_keys(&kb), vec![0, 8]);
    assert!(kb.keypad.back_btn.button.visible);
    assert!(!kb.keypad.erase_btn.button.visible);
    assert!(!kb.keypad.confirm_btn.button.visible);
    assert!(kb.mnemonic().is_none());
    let kb = MnemonicKeyboard::new(WordInput::new(), TString::Str("Type word 1"), false);
    assert!(!kb.keypad.back_btn.button.visible);
}

#[test]
fn mnemonic_keyboard_typing_follows_input() {
    let mut kb = MnemonicKeyboard::new(WordInput::new(), TString::Str("Type word"), true);
    let mut ctx = EventCtx::new();
    assert_eq!(click(&mut kb, &mut ctx, 8), None);
    assert!(!kb.prompt.visible);
    assert!(kb.input.visible);
    assert!(kb.keypad.erase_btn.button.visible);
    assert!(!kb.keypad.back_btn.button.visible);
    // "zebra" continues with 'e' (key 2), "zoo" with 'o' (key 5)
    assert_eq!(enabled_keys(&kb), vec![2, 5]);
    assert!(!kb.keypad.confirm_btn.button.visible);
    click(&mut kb, &mut ctx, 5);
    click(&mut kb, &mut ctx, 5);
    // only "zoo" is left; it is complete, so confirm is highlighted
    assert_eq!(kb.mnemonic(), Some("zoo"));
    assert!(kb.keypad.confirm_btn.button.visible);
    assert_eq!(kb.keypad.confirm_btn.button.inner.styles, ButtonStyleSheet::KeyboardConfirm);
    assert!(enabled_keys(&kb).is_empty());
}

#[test]
fn mnemonic_keyboard_confirm_style_while_word_continues() {
    let mut kb = MnemonicKeyboard::new(WordInput::new(), TString::Str("Type word"), false);
    let mut ctx = EventCtx::new();
    click(&mut kb, &mut ctx, 0);
    click(&mut kb, &mut ctx, 0);
    // "abandon" and "ability" share "ab"
    assert_eq!(kb.mnemonic(), None);
    assert!(!kb.keypad.confirm_btn.button.visible);
    assert_eq!(enabled_keys(&kb), vec![0, 3]);
    click(&mut kb, &mut ctx, 0);
    assert_eq!(kb.mnemonic(), Some("abandon"));
    assert!(kb.keypad.confirm_btn.button.visible);
    assert_eq!(kb.keypad.confirm_btn.button.inner.styles, ButtonStyleSheet::Keyboard);
}

#[test]
fn mnemonic_keyboard_erase_and_back() {
    let mut kb = MnemonicKeyboard::new(WordInput::new(), TString::Str("Type word"), true);
    let mut ctx = EventCtx::new();
    click(&mut kb, &mut ctx, 8);
    let mut msgs = KeypadButtonMsgs::none(9);
    msgs.erase = Some(ButtonMsg::Clicked);
    assert_eq!(kb.event(&mut ctx, Event::Attach, &msgs), None);
    assert!(kb.prompt.visible);
    assert!(kb.keypad.back_btn.button.visible);
    let mut msgs = KeypadButtonMsgs::none(9);
    msgs.back = Some(ButtonMsg::Clicked);
    assert_eq!(kb.event(&mut ctx, Event::Attach, &msgs), Some(MnemonicKeyboardMsg::Previous));
    click(&mut kb, &mut ctx, 0);
    click(&mut kb, &mut ctx, 0);
    let mut msgs = KeypadButtonMsgs::none(9);
    msgs.erase = Some(ButtonMsg::LongPressed);
    assert_eq!(kb.event(&mut ctx, Event::Attach, &msgs), None);
    assert!(kb.input.inner.presses.is_empty());
    assert!(kb.prompt.visible);
}

#[test]
fn mnemonic_keyboard_back_not_allowed() {
    let mut kb = MnemonicKeyboard::new(WordInput::new(), TString::Str("Type word"), false);
    let mut ctx = EventCtx::new();
    let mut msgs = KeypadButtonMsgs::none(9);
    msgs.back = Some(ButtonMsg::Clicked);
    assert_eq!(kb.event(&mut ctx, Event::Attach, &msgs), None);
}

#[test]
fn mnemonic_keyboard_confirm() {
    let mut kb = MnemonicKeyboard::new(WordInput::new(), TString::Str("Type word"), false);
    let mut ctx = EventCtx::new();
    for key in [8, 5, 5] {
        click(&mut kb, &mut ctx, key);
    }
    let mut msgs = KeypadButtonMsgs::none(9);
    msgs.confirm = Some(ButtonMsg::Clicked);
    assert_eq!(kb.event(&mut ctx, Event::Attach, &msgs), Some(MnemonicKeyboardMsg::Confirmed));
}

#[test]
fn mnemonic_keyboard_input_report_first() {
    let mut kb = MnemonicKeyboard::new(WordInput::new(), TString::Str("Type word"), false);
    let mut ctx = EventCtx::new();
    click(&mut kb, &mut ctx, 8);
    kb.input.inner.timed_out = true;
    // the input's report takes the event; the key click is not handled
    let mut msgs = KeypadButtonMsgs::none(9);
    msgs.keys[5] = Some(ButtonMsg::Clicked);
    assert_eq!(kb.event(&mut ctx, Event::Attach, &msgs), None);
    assert_eq!(kb.input.inner.presses, vec![8]);
}

#[test]
fn mnemonic_handle_input_report() {
    let mut kb = MnemonicKeyboard::new(WordInput::new(), TString::Str("Type word"), false);
    let mut ctx = EventCtx::new();
    assert_eq!(
        kb.handle_input_report(&mut ctx, Some(MnemonicInputMsg::Confirmed)),
        (true, Some(MnemonicKeyboardMsg::Confirmed))
    );
    assert_eq!(kb.handle_input_report(&mut ctx, Some(MnemonicInputMsg::Completed)), (true, None));
    assert_eq!(kb.handle_input_report(&mut ctx, None), (false, None));
}

#[test]
fn mnemonic_keyboard_follows_status() {
    let status = InputStatus { can_press: [false; 9], empty: true, has_mnemonic: false, can_be_confirmed: false };
    let mut kb = MnemonicKeyboard::from_status(WordInput::new(), TString::Str("Type"), true, status, KEYS);
    assert!(kb.prompt.visible);
    assert!(enabled_keys(&kb).is_empty());
    assert!(kb.keypad.back_btn.button.visible);
    let mut can_press = [false; 9];
    can_press[4] = true;
    let status = InputStatus { can_press, empty: false, has_mnemonic: true, can_be_confirmed: true };
    let mut ctx = EventCtx::new();
    kb.follow_input(&mut ctx, &status);
    assert!(!kb.prompt.visible && kb.input.visible);
    assert_eq!(enabled_keys(&kb), vec![4]);
    assert!(!kb.keypad.back_btn.button.visible);
    assert!(kb.keypad.erase_btn.button.visible);
    assert!(kb.keypad.confirm_btn.button.visible);
    assert_eq!(kb.keypad.confirm_btn.button.inner.styles, ButtonStyleSheet::Keyboard);
    assert!(ctx.paint_requested);
    let status = InputStatus { can_press: [false; 9], empty: false, has_mnemonic: true, can_be_confirmed: true };
    kb.follow_input(&mut ctx, &status);
    assert_eq!(kb.keypad.confirm_btn.button.inner.styles, ButtonStyleSheet::KeyboardConfirm);
}

#[test]
fn mnemonic_keyboard_render_order() {
    let mut kb = MnemonicKeyboard::new(WordInput::new(), TString::Str("Type word"), false);
    assert_eq!(kb.render(), vec![MnemonicPart::Prompt, MnemonicPart::Keypad]);
    let mut ctx = EventCtx::new();
    click(&mut kb, &mut ctx, 0);
    assert_eq!(kb.render(), vec![MnemonicPart::Input, MnemonicPart::Keypad]);
}

#[test]
fn mnemonic_keyboard_place() {
    let mut kb = MnemonicKeyboard::new(WordInput::new(), TString::Str("Type word"), false);
    let metrics = KeyboardMetrics {
        input_height: 120,
        keypad_height: 400,
        input_touch_height: 120,
        prompt_insets: Insets { top: 10, right: 20, bottom: 10, left: 20 },
        input_insets: Insets { top: 5, right: 8, bottom: 5, left: 8 },
    };
    let bounds = Rect { x0: 0, y0: 0, x1: 380, y1: 520 };
    assert_eq!(kb.place(bounds, &metrics), bounds);
    assert_eq!(kb.prompt.inner.area, Rect { x0: 20, y0: 10, x1: 360, y1: 110 });
    assert_eq!(kb.input.inner.area, Rect { x0: 8, y0: 5, x1: 372, y1: 115 });
    let grid = OverlapGrid::<4, 3>::new(Rect { x0: 0, y0: 120, x1: 380, y1: 520 });
    assert_eq!(kb.keypad.keys[0].button.inner.area, grid.border_of_cell(0));
    assert_eq!(kb.keypad.confirm_btn.button.inner.area, grid.border_of_cell(11));
}
