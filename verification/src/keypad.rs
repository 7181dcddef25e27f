use vstd::prelude::*;
use crate::button::{Alignment, Button, ButtonContent, ButtonMsg, ButtonStyleSheet, Color, Icon, Maybe};
use crate::component::{ctx_paint_only, EventCtx};
use crate::geometry::{Insets, Rect};
use crate::overlap_grid::{cell_border, cell_insets, grid_fits, spec_lr_half_overlap, spec_ud_half_spacing, OverlapGrid};

verus! {

/// Corner radius of the keypad buttons.
pub const KEYBOARD_BUTTON_RADIUS: u8 = 11;

/// How long the erase button must be held for a long press, in milliseconds.
pub const ERASE_HOLD_DURATION_MS: u32 = 1500;

/// Which button of the keypad.
#[derive(Clone, Copy, PartialEq, Eq, Structural, Debug)]
pub enum ButtonType {
    Key(usize),
    /// Represents an erase button.
    Erase,
    /// Represents a cancel button.
    Cancel,
    /// Represents a confirm button.
    Confirm,
    /// Represents a back (previous) button.
    Back,
}

/// How a keypad button is shown.
#[derive(Clone, Copy, PartialEq, Eq, Structural, Debug)]
pub enum ButtonState {
    Enabled,
    Disabled,
    Hidden,
}

/// What the keypad reports.
#[derive(Clone, Copy, PartialEq, Eq, Structural, Debug)]
pub enum KeypadMsg {
    BackClicked,
    ConfirmClicked,
    EraseClicked,
    EraseLongPressed,
    CancelClicked,
    KeyClicked(usize),
}

/// A keypad button that can be hidden.
pub struct KeypadButton {
    pub button: Maybe<Button>,
}

impl KeypadButton {
    /// How the button is currently shown.
    pub open spec fn spec_state(self) -> ButtonState {
        if !self.button.visible {
            ButtonState::Hidden
        } else if self.button.inner.enabled {
            ButtonState::Enabled
        } else {
            ButtonState::Disabled
        }
    }

    /// The button after `set_state(state)`: hiding keeps whether it reacts.
    pub open spec fn with_state(self, state: ButtonState) -> KeypadButton {
        KeypadButton {
            button: Maybe {
                inner: Button {
                    enabled: match state {
                        ButtonState::Enabled => true,
                        ButtonState::Disabled => false,
                        ButtonState::Hidden => self.button.inner.enabled,
                    },
                    ..self.button.inner
                },
                visible: state != ButtonState::Hidden,
                bg_color: self.button.bg_color,
            },
        }
    }

    pub fn new(bg_color: Color, inner: Button, visible: bool) -> (r: Self)
        ensures
            r.button == (Maybe { inner, visible, bg_color }),
    {
        KeypadButton { button: Maybe::new(bg_color, inner, visible) }
    }

    pub fn hidden(bg_color: Color, inner: Button) -> (r: Self)
        ensures
            r.button == (Maybe { inner, visible: false, bg_color }),
    {
        KeypadButton { button: Maybe::hidden(bg_color, inner) }
    }

    pub fn shown(bg_color: Color, inner: Button) -> (r: Self)
        ensures
            r.button == (Maybe { inner, visible: true, bg_color }),
    {
        Self::new(bg_color, inner, true)
    }

    pub fn inner_mut(&mut self) -> (r: &mut Button)
        ensures
            *r == old(self).button.inner,
            final(self).button == (Maybe { inner: *final(r), ..old(self).button }),
    {
        self.button.inner_mut()
    }

    pub fn set_stylesheet(&mut self, styles: ButtonStyleSheet)
        ensures
            final(self).button == (Maybe {
                inner: Button { styles, ..old(self).button.inner },
                ..old(self).button
            }),
    {
        self.button.inner_mut().set_stylesheet(styles);
    }

    /// Shows and enables, shows and disables, or hides the button.
    pub fn set_state(&mut self, ctx: &mut EventCtx, state: &ButtonState)
        ensures
            *final(self) == old(self).with_state(*state),
            final(self).spec_state() == *state,
            final(ctx).paint_requested == (old(ctx).paint_requested || old(self).spec_state() != *state),
            ctx_paint_only(*old(ctx), *final(ctx)),
    {
        match state {
            ButtonState::Enabled => {
                self.button.show(ctx);
                self.button.inner_mut().enable(ctx);
            },
            ButtonState::Disabled => {
                self.button.show(ctx);
                self.button.inner_mut().disable(ctx);
            },
            ButtonState::Hidden => {
                self.button.conceal(ctx);
            },
        }
    }

    pub fn content(&self) -> (r: &ButtonContent)
        ensures
            *r == self.button.inner.content,
    {
        self.button.inner().content()
    }

    pub fn set_expanded_touch_area(&mut self, insets: Insets)
        ensures
            final(self).button == (Maybe {
                inner: Button { touch_expand: Some(insets), ..old(self).button.inner },
                ..old(self).button
            }),
    {
        self.button.inner_mut().set_expanded_touch_area(insets);
    }

    pub fn set_content(&mut self, content: ButtonContent)
        ensures
            final(self).button == (Maybe {
                inner: Button { content, ..old(self).button.inner },
                ..old(self).button
            }),
    {
        self.button.inner_mut().set_content(content);
    }

    pub fn place(&mut self, bounds: Rect) -> (r: Rect)
        ensures
            final(self).button == (Maybe {
                inner: Button { area: bounds, ..old(self).button.inner },
                ..old(self).button
            }),
            r == bounds,
    {
        self.button.inner_mut().place(bounds)
    }
}

/// The layout measures the keyboards share: the heights of the input area,
/// of the keypad and of the input's touch area, and the insets of the prompt
/// and of the input within the input area.
#[derive(Clone, Copy, PartialEq, Eq, Structural, Debug)]
pub struct KeyboardMetrics {
    pub input_height: i16,
    pub keypad_height: i16,
    pub input_touch_height: i16,
    pub prompt_insets: Insets,
    pub input_insets: Insets,
}

/// What each keypad button reported for one event; `keys[i]` is the report of
/// key `i`.
pub struct KeypadButtonMsgs {
    pub confirm: Option<ButtonMsg>,
    pub erase: Option<ButtonMsg>,
    pub cancel: Option<ButtonMsg>,
    pub back: Option<ButtonMsg>,
    pub keys: Vec<Option<ButtonMsg>>,
}

impl KeypadButtonMsgs {
    /// No button reports anything.
    pub fn none(key_count: usize) -> (r: Self)
        ensures
            r.confirm is None,
            r.erase is None,
            r.cancel is None,
            r.back is None,
            r.keys@ == Seq::new(key_count as nat, |i: int| None::<ButtonMsg>),
    {
        let mut keys: Vec<Option<ButtonMsg>> = Vec::new();
        let mut i: usize = 0;
        while i < key_count
            invariant
                i <= key_count,
                keys@ == Seq::new(i as nat, |j: int| None::<ButtonMsg>),
            decreases key_count - i,
        {
            keys.push(None);
            i = i + 1;
        }
        KeypadButtonMsgs { confirm: None, erase: None, cancel: None, back: None, keys }
    }

    /// The buttons in the order in which the keypad hands them the event, with
    /// their reports: confirm, erase, cancel, back, then the keys.
    pub open spec fn dispatch_order(self) -> Seq<(ButtonType, Option<ButtonMsg>)> {
        seq![
            (ButtonType::Confirm, self.confirm),
            (ButtonType::Erase, self.erase),
            (ButtonType::Cancel, self.cancel),
            (ButtonType::Back, self.back),
        ] + Seq::new(self.keys@.len(), |i: int| (ButtonType::Key(i as usize), self.keys@[i]))
    }
}

/// The message a click on `button` produces.
pub open spec fn clicked_msg(button: ButtonType) -> KeypadMsg {
    match button {
        ButtonType::Key(i) => KeypadMsg::KeyClicked(i),
        ButtonType::Erase => KeypadMsg::EraseClicked,
        ButtonType::Cancel => KeypadMsg::CancelClicked,
        ButtonType::Confirm => KeypadMsg::ConfirmClicked,
        ButtonType::Back => KeypadMsg::BackClicked,
    }
}

/// One button's report handled: a click (or a long press of erase) ends the
/// event with a message and clears the pressed button; a press marks the button
/// as pressed.
pub open spec fn keypad_step(button: ButtonType, msg: Option<ButtonMsg>, pressed: Option<ButtonType>) -> (
    Option<ButtonType>,
    Option<KeypadMsg>,
) {
    match msg {
        Some(ButtonMsg::Clicked) => (None, Some(clicked_msg(button))),
        Some(ButtonMsg::LongPressed) => if button == ButtonType::Erase {
            (None, Some(KeypadMsg::EraseLongPressed))
        } else {
            (pressed, None)
        },
        Some(ButtonMsg::Pressed) => (Some(button), None),
        _ => (pressed, None),
    }
}

/// The reports handled in order until one ends the event: the pressed button
/// afterwards and the keypad's message.
pub open spec fn keypad_outcome(reports: Seq<(ButtonType, Option<ButtonMsg>)>, pressed: Option<ButtonType>) -> (
    Option<ButtonType>,
    Option<KeypadMsg>,
)
    decreases reports.len(),
{
    if reports.len() == 0 {
        (pressed, None)
    } else {
        let (p, out) = keypad_step(reports[0].0, reports[0].1, pressed);
        if out is Some {
            (p, out)
        } else {
            keypad_outcome(reports.drop_first(), p)
        }
    }
}

/// The buttons that end an event: a click anywhere, or a long press of erase.
pub open spec fn is_final_report(button: ButtonType, msg: Option<ButtonMsg>) -> bool {
    msg == Some(ButtonMsg::Clicked) || (msg == Some(ButtonMsg::LongPressed) && button == ButtonType::Erase)
}

/// Law: the keypad reports a message exactly when some button reported a click
/// (or erase a long press), and then it is the message of the first such button
/// in dispatch order; the buttons after it are not consulted.
pub proof fn lemma_keypad_reports_first_click(
    reports: Seq<(ButtonType, Option<ButtonMsg>)>,
    pressed: Option<ButtonType>,
)
    ensures
        keypad_outcome(reports, pressed).1 is Some <==> exists|i: int|
            0 <= i < reports.len() && #[trigger] is_final_report(reports[i].0, reports[i].1),
        forall|i: int|
            0 <= i < reports.len() && #[trigger] is_final_report(reports[i].0, reports[i].1) && (forall|j: int|
                0 <= j < i ==> !is_final_report(reports[j].0, reports[j].1)) ==> keypad_outcome(reports, pressed)
                == (None::<ButtonType>, Some(keypad_step(reports[i].0, reports[i].1, None).1->0)),
    decreases reports.len(),
{
    if reports.len() > 0 {
        let (p, out) = keypad_step(reports[0].0, reports[0].1, pressed);
        let rest = reports.drop_first();
        lemma_keypad_reports_first_click(rest, p);
        if out is Some {
            assert(is_final_report(reports[0].0, reports[0].1));
            assert forall|i: int|
                0 <= i < reports.len() && #[trigger] is_final_report(reports[i].0, reports[i].1) && (forall|j: int|
                    0 <= j < i ==> !is_final_report(reports[j].0, reports[j].1)) implies keypad_outcome(reports, pressed)
                    == (None::<ButtonType>, Some(keypad_step(reports[i].0, reports[i].1, None).1->0)) by {
                if i > 0 {
                    assert(!is_final_report(reports[0].0, reports[0].1));
                }
            }
        } else {
            assert(!is_final_report(reports[0].0, reports[0].1));
            if exists|i: int| 0 <= i < reports.len() && #[trigger] is_final_report(reports[i].0, reports[i].1) {
                let i = choose|i: int| 0 <= i < reports.len() && #[trigger] is_final_report(reports[i].0, reports[i].1);
                assert(rest[i - 1] == reports[i]);
                assert(is_final_report(rest[i - 1].0, rest[i - 1].1));
            }
            if exists|i: int| 0 <= i < rest.len() && #[trigger] is_final_report(rest[i].0, rest[i].1) {
                let i = choose|i: int| 0 <= i < rest.len() && #[trigger] is_final_report(rest[i].0, rest[i].1);
                assert(rest[i] == reports[i + 1]);
                assert(is_final_report(reports[i + 1].0, reports[i + 1].1));
            }
            assert forall|i: int|
                0 <= i < reports.len() && #[trigger] is_final_report(reports[i].0, reports[i].1) && (forall|j: int|
                    0 <= j < i ==> !is_final_report(reports[j].0, reports[j].1)) implies keypad_outcome(reports, pressed)
                    == (None::<ButtonType>, Some(keypad_step(reports[i].0, reports[i].1, None).1->0)) by {
                assert(rest[i - 1] == reports[i]);
                assert forall|j: int| 0 <= j < i - 1 implies !is_final_report(rest[j].0, rest[j].1) by {
                    assert(rest[j] == reports[j + 1]);
                }
            }
        }
    }
}

/// A key button as the keypad is built: empty, numeric style, centered text.
pub open spec fn initial_key_button(enabled: bool) -> Maybe<Button> {
    Maybe {
        inner: Button {
            styles: ButtonStyleSheet::KeyboardNumeric,
            radius: Some(KEYBOARD_BUTTON_RADIUS),
            text_align: Alignment::Center,
            enabled,
            ..Button::new_spec(ButtonContent::Empty)
        },
        visible: true,
        bg_color: Color::Bg,
    }
}

/// A keypad button given new content and style.
pub open spec fn restyled(b: Maybe<Button>, content: ButtonContent, styles: ButtonStyleSheet) -> Maybe<Button> {
    Maybe { inner: Button { content, styles, ..b.inner }, ..b }
}

/// A keypad button placed at `area`, its touch area grown by `touch`.
pub open spec fn placed(b: Maybe<Button>, area: Rect, touch: Insets) -> Maybe<Button> {
    Maybe { inner: Button { area, touch_expand: Some(touch), ..b.inner }, ..b }
}

/// The grid cell of key `i`: the keys fill the cells row by row, skipping the
/// first cell of the last row, where erase, cancel and back sit.
pub open spec fn key_cell(i: int) -> int {
    if i < 9 {
        i
    } else {
        i + 1
    }
}

/// Whether `button` names a button of a keypad with `n` keys.
pub open spec fn button_in_range(button: ButtonType, n: int) -> bool {
    match button {
        ButtonType::Key(i) => i < n,
        _ => true,
    }
}

/// Handling reports of existing buttons only names existing buttons.
pub proof fn lemma_keypad_outcome_in_range(
    reports: Seq<(ButtonType, Option<ButtonMsg>)>,
    pressed: Option<ButtonType>,
    n: int,
)
    requires
        forall|j: int| 0 <= j < reports.len() ==> button_in_range(#[trigger] reports[j].0, n),
    ensures
        (pressed matches Some(b) ==> button_in_range(b, n)) ==> (keypad_outcome(reports, pressed).0 matches Some(b)
            ==> button_in_range(b, n)),
        keypad_outcome(reports, pressed).1 matches Some(KeypadMsg::KeyClicked(i)) ==> i < n,
    decreases reports.len(),
{
    if reports.len() > 0 {
        assert(button_in_range(reports[0].0, n));
        let (p, out) = keypad_step(reports[0].0, reports[0].1, pressed);
        let rest = reports.drop_first();
        assert forall|j: int| 0 <= j < rest.len() implies button_in_range(#[trigger] rest[j].0, n) by {
            assert(rest[j] == reports[j + 1]);
        }
        lemma_keypad_outcome_in_range(rest, p, n);
    }
}

/// The reports of a keypad with `n` keys name only its buttons, and a key
/// click among them names one of its keys.
pub proof fn lemma_dispatch_in_range(msgs: KeypadButtonMsgs, pressed: Option<ButtonType>, n: int)
    requires
        msgs.keys@.len() == n,
    ensures
        forall|j: int|
            0 <= j < msgs.dispatch_order().len() ==> button_in_range(#[trigger] msgs.dispatch_order()[j].0, n),
        keypad_outcome(msgs.dispatch_order(), pressed).1 matches Some(KeypadMsg::KeyClicked(i)) ==> i < n,
{
    let reports = msgs.dispatch_order();
    assert forall|j: int| 0 <= j < reports.len() implies button_in_range(#[trigger] reports[j].0, n) by {
        if j >= 4 {
            assert(reports[j].0 == ButtonType::Key((j - 4) as usize));
        }
    }
    lemma_keypad_outcome_in_range(reports, pressed, n);
}

/// A numeric-style keypad: `KEY_COUNT` keys and the back, erase, cancel and
/// confirm buttons (erase, cancel and back share one place).
pub struct Keypad<const KEY_COUNT: usize> {
    pub back_btn: KeypadButton,
    pub erase_btn: KeypadButton,
    pub cancel_btn: KeypadButton,
    pub confirm_btn: KeypadButton,
    pub keys: Vec<KeypadButton>,
    pub pressed: Option<ButtonType>,
}

impl<const KEY_COUNT: usize> Keypad<KEY_COUNT> {
    /// There is a button for every key, and the pressed button is one of them.
    pub open spec fn wf(self) -> bool {
        &&& self.keys@.len() == KEY_COUNT
        &&& KEY_COUNT <= 10
        &&& self.pressed matches Some(b) ==> self.has_button(b)
    }

    /// Whether `button` names a button of this keypad.
    pub open spec fn has_button(self, button: ButtonType) -> bool {
        match button {
            ButtonType::Key(i) => i < KEY_COUNT,
            _ => true,
        }
    }

    /// The button named by `button`.
    pub open spec fn button(self, button: ButtonType) -> KeypadButton {
        match button {
            ButtonType::Key(i) => self.keys@[i as int],
            ButtonType::Erase => self.erase_btn,
            ButtonType::Cancel => self.cancel_btn,
            ButtonType::Confirm => self.confirm_btn,
            ButtonType::Back => self.back_btn,
        }
    }

    /// `new` equals `old` but for the button `changed`, which is `b`.
    pub open spec fn replaced(old: Self, new: Self, changed: ButtonType, b: KeypadButton) -> bool {
        &&& new.keys@.len() == old.keys@.len()
        &&& new.pressed == old.pressed
        &&& new.button(changed) == b
        &&& (changed != ButtonType::Erase ==> new.erase_btn == old.erase_btn)
        &&& (changed != ButtonType::Cancel ==> new.cancel_btn == old.cancel_btn)
        &&& (changed != ButtonType::Confirm ==> new.confirm_btn == old.confirm_btn)
        &&& (changed != ButtonType::Back ==> new.back_btn == old.back_btn)
        &&& forall|i: int|
            0 <= i < old.keys@.len() && changed != ButtonType::Key(i as usize) ==> #[trigger] new.keys@[i]
                == old.keys@[i]
    }

    /// The state of key `i`.
    pub open spec fn key_state(self, i: int) -> ButtonState {
        self.keys@[i].spec_state()
    }

    /// The keypad `new` builds.
    pub open spec fn spec_new(
        allow_cancel: bool,
        allow_back: bool,
        allow_erase: bool,
        allow_confirm: bool,
        allow_keys: Seq<bool>,
        r: Self,
    ) -> bool {
        &&& r.wf()
        &&& r.pressed is None
        &&& r.back_btn.button == (Maybe {
            inner: Button {
                styles: ButtonStyleSheet::KeyboardNumeric,
                radius: Some(KEYBOARD_BUTTON_RADIUS),
                enabled: allow_back,
                ..Button::new_spec(ButtonContent::Icon(Icon::ChevronLeft))
            },
            visible: allow_back,
            bg_color: Color::Bg,
        })
        &&& r.cancel_btn.button == (Maybe {
            inner: Button {
                styles: ButtonStyleSheet::KeyboardCancel,
                radius: Some(KEYBOARD_BUTTON_RADIUS),
                enabled: allow_cancel,
                ..Button::new_spec(ButtonContent::Icon(Icon::Cross))
            },
            visible: allow_cancel,
            bg_color: Color::Bg,
        })
        &&& r.confirm_btn.button == (Maybe {
            inner: Button {
                styles: ButtonStyleSheet::KeyboardConfirm,
                radius: Some(KEYBOARD_BUTTON_RADIUS),
                enabled: allow_confirm,
                ..Button::new_spec(ButtonContent::Icon(Icon::Checkmark))
            },
            visible: allow_confirm,
            bg_color: Color::Bg,
        })
        &&& r.erase_btn.button == (Maybe {
            inner: Button {
                styles: ButtonStyleSheet::Keyboard,
                radius: Some(KEYBOARD_BUTTON_RADIUS),
                long_press_ms: Some(ERASE_HOLD_DURATION_MS),
                enabled: allow_erase,
                ..Button::new_spec(ButtonContent::Icon(Icon::Delete))
            },
            visible: allow_erase,
            bg_color: Color::Bg,
        })
        &&& forall|i: int|
            0 <= i < KEY_COUNT ==> (#[trigger] r.keys@[i]).button == initial_key_button(allow_keys[i])
    }

    /// A keypad whose control buttons are shown (and enabled) as allowed and
    /// whose keys are all shown, enabled as `allow_keys` says.
    pub fn new(
        allow_cancel: bool,
        allow_back: bool,
        allow_erase: bool,
        allow_confirm: bool,
        allow_keys: [bool; KEY_COUNT],
    ) -> (r: Self)
        requires
            KEY_COUNT <= 10,
        ensures
            Self::spec_new(allow_cancel, allow_back, allow_erase, allow_confirm, allow_keys@, r),
    {
        let back_btn = Button::with_icon(Icon::ChevronLeft).styled(ButtonStyleSheet::KeyboardNumeric).with_radius(
            KEYBOARD_BUTTON_RADIUS,
        ).initially_enabled(allow_back);

        let cancel_btn = Button::with_icon(Icon::Cross).styled(ButtonStyleSheet::KeyboardCancel).with_radius(
            KEYBOARD_BUTTON_RADIUS,
        ).initially_enabled(allow_cancel);

        let confirm_btn = Button::with_icon(Icon::Checkmark).styled(
            ButtonStyleSheet::KeyboardConfirm,
        ).initially_enabled(allow_confirm).with_radius(KEYBOARD_BUTTON_RADIUS).initially_enabled(allow_confirm);

        let erase_btn = Button::with_icon(Icon::Delete).styled(ButtonStyleSheet::Keyboard).with_long_press(
            ERASE_HOLD_DURATION_MS,
        ).initially_enabled(allow_erase).with_radius(KEYBOARD_BUTTON_RADIUS).initially_enabled(allow_erase);

        let mut keys: Vec<KeypadButton> = Vec::new();
        let mut idx: usize = 0;
        while idx < KEY_COUNT
            invariant
                idx <= KEY_COUNT,
                keys@.len() == idx,
                forall|i: int|
                    0 <= i < idx ==> (#[trigger] keys@[i]).button == initial_key_button(allow_keys@[i]),
            decreases KEY_COUNT - idx,
        {
            let btn = Button::empty().with_radius(KEYBOARD_BUTTON_RADIUS).styled(
                ButtonStyleSheet::KeyboardNumeric,
            ).with_text_align(Alignment::Center).initially_enabled(allow_keys[idx]);
            keys.push(KeypadButton::shown(Color::Bg, btn));
            idx = idx + 1;
        }

        Keypad {
            back_btn: KeypadButton::new(Color::Bg, back_btn, allow_back),
            cancel_btn: KeypadButton::new(Color::Bg, cancel_btn, allow_cancel),
            confirm_btn: KeypadButton::new(Color::Bg, confirm_btn, allow_confirm),
            erase_btn: KeypadButton::new(Color::Bg, erase_btn, allow_erase),
            keys,
            pressed: None,
        }
    }

    /// A keypad with all keys enabled, the cancel button as allowed and the other
    /// control buttons hidden.
    pub fn new_empty(allow_cancel: bool) -> (r: Self)
        requires
            KEY_COUNT <= 10,
        ensures
            Self::spec_new(allow_cancel, false, false, false, Seq::new(KEY_COUNT as nat, |i: int| true), r),
    {
        let r = Self::new(allow_cancel, false, false, false, [true; KEY_COUNT]);
        proof {
            assert([true; KEY_COUNT]@ =~= Seq::new(KEY_COUNT as nat, |i: int| true));
        }
        r
    }

    /// Gives the first keys the given contents and all of them `key_style`.
    pub fn with_keypad_content(self, keypad_content: Vec<ButtonContent>, key_style: ButtonStyleSheet) -> (r: Self)
        requires
            self.wf(),
            keypad_content@.len() <= KEY_COUNT,
        ensures
            r.wf(),
            r.pressed == self.pressed,
            r.back_btn == self.back_btn,
            r.erase_btn == self.erase_btn,
            r.cancel_btn == self.cancel_btn,
            r.confirm_btn == self.confirm_btn,
            forall|i: int|
                0 <= i < KEY_COUNT ==> (#[trigger] r.keys@[i]).button == if i < keypad_content@.len() {
                    restyled(self.keys@[i].button, keypad_content@[i], key_style)
                } else {
                    self.keys@[i].button
                },
    {
        let mut this = self;
        let mut i: usize = 0;
        while i < keypad_content.len()
            invariant
                i <= keypad_content@.len(),
                keypad_content@.len() <= KEY_COUNT,
                this.wf(),
                this.pressed == self.pressed,
                this.back_btn == self.back_btn,
                this.erase_btn == self.erase_btn,
                this.cancel_btn == self.cancel_btn,
                this.confirm_btn == self.confirm_btn,
                forall|j: int|
                    0 <= j < KEY_COUNT ==> (#[trigger] this.keys@[j]).button == if j < i {
                        restyled(self.keys@[j].button, keypad_content@[j], key_style)
                    } else {
                        self.keys@[j].button
                    },
            decreases keypad_content@.len() - i,
        {
            let mut key = this.keys.remove(i);
            key.set_content(keypad_content[i]);
            key.set_stylesheet(key_style);
            this.keys.insert(i, key);
            i = i + 1;
        }
        this
    }

    /// The content of key `idx`.
    pub fn get_key_content(&self, idx: usize) -> (r: &ButtonContent)
        requires
            self.wf(),
            idx < KEY_COUNT,
        ensures
            *r == self.keys@[idx as int].button.inner.content,
    {
        self.keys[idx].content()
    }

    /// Replaces the content of key `idx`.
    pub fn set_key_content(&mut self, idx: usize, content: ButtonContent)
        requires
            old(self).wf(),
            idx < KEY_COUNT,
        ensures
            final(self).wf(),
            Self::replaced(
                *old(self),
                *final(self),
                ButtonType::Key(idx),
                KeypadButton {
                    button: Maybe {
                        inner: Button { content, ..old(self).keys@[idx as int].button.inner },
                        ..old(self).keys@[idx as int].button
                    },
                },
            ),
    {
        let mut key = self.keys.remove(idx);
        key.set_content(content);
        self.keys.insert(idx, key);
    }

    /// Puts every key into `state`.
    pub fn set_keys_state(&mut self, ctx: &mut EventCtx, state: &ButtonState)
        requires
            old(self).wf(),
        ensures
            final(self).wf(),
            final(self).pressed == old(self).pressed,
            final(self).back_btn == old(self).back_btn,
            final(self).erase_btn == old(self).erase_btn,
            final(self).cancel_btn == old(self).cancel_btn,
            final(self).confirm_btn == old(self).confirm_btn,
            forall|i: int| 0 <= i < KEY_COUNT ==> #[trigger] final(self).keys@[i] == old(self).keys@[i].with_state(*state),
            ctx_paint_only(*old(ctx), *final(ctx)),
    {
        let mut i: usize = 0;
        while i < KEY_COUNT
            invariant
                i <= KEY_COUNT,
                self.wf(),
                self.pressed == old(self).pressed,
                self.back_btn == old(self).back_btn,
                self.erase_btn == old(self).erase_btn,
                self.cancel_btn == old(self).cancel_btn,
                self.confirm_btn == old(self).confirm_btn,
                forall|j: int|
                    0 <= j < KEY_COUNT ==> #[trigger] self.keys@[j] == if j < i {
                        old(self).keys@[j].with_state(*state)
                    } else {
                        old(self).keys@[j]
                    },
                ctx_paint_only(*old(ctx), *ctx),
            decreases KEY_COUNT - i,
        {
            let mut key = self.keys.remove(i);
            key.set_state(ctx, state);
            self.keys.insert(i, key);
            i = i + 1;
        }
    }

    /// Gives `button` the style sheet `styles`.
    pub fn set_button_stylesheet(&mut self, button: ButtonType, styles: ButtonStyleSheet)
        requires
            old(self).wf(),
            old(self).has_button(button),
        ensures
            final(self).wf(),
            Self::replaced(
                *old(self),
                *final(self),
                button,
                KeypadButton {
                    button: Maybe {
                        inner: Button { styles, ..old(self).button(button).button.inner },
                        ..old(self).button(button).button
                    },
                },
            ),
    {
        match button {
            ButtonType::Key(idx) => {
                let mut key = self.keys.remove(idx);
                key.set_stylesheet(styles);
                self.keys.insert(idx, key);
            },
            ButtonType::Erase => self.erase_btn.set_stylesheet(styles),
            ButtonType::Cancel => self.cancel_btn.set_stylesheet(styles),
            ButtonType::Confirm => self.confirm_btn.set_stylesheet(styles),
            ButtonType::Back => self.back_btn.set_stylesheet(styles),
        }
    }

    /// Puts `button` into `state`.
    pub fn set_button_state(&mut self, ctx: &mut EventCtx, button: ButtonType, state: ButtonState)
        requires
            old(self).wf(),
            old(self).has_button(button),
        ensures
            final(self).wf(),
            Self::replaced(*old(self), *final(self), button, old(self).button(button).with_state(state)),
            final(ctx).paint_requested == (old(ctx).paint_requested || old(self).button(button).spec_state()
                != state),
            ctx_paint_only(*old(ctx), *final(ctx)),
    {
        match button {
            ButtonType::Key(idx) => {
                let mut key = self.keys.remove(idx);
                key.set_state(ctx, &state);
                self.keys.insert(idx, key);
            },
            ButtonType::Erase => self.erase_btn.set_state(ctx, &state),
            ButtonType::Cancel => self.cancel_btn.set_state(ctx, &state),
            ButtonType::Confirm => self.confirm_btn.set_state(ctx, &state),
            ButtonType::Back => self.back_btn.set_state(ctx, &state),
        }
    }

    /// Handles one button's report.
    fn apply_report(&mut self, button: ButtonType, msg: Option<ButtonMsg>) -> (r: Option<KeypadMsg>)
        ensures
            (final(self).pressed, r) == keypad_step(button, msg, old(self).pressed),
            final(self).keys == old(self).keys,
            final(self).back_btn == old(self).back_btn,
            final(self).erase_btn == old(self).erase_btn,
            final(self).cancel_btn == old(self).cancel_btn,
            final(self).confirm_btn == old(self).confirm_btn,
    {
        match msg {
            Some(ButtonMsg::Clicked) => {
                self.pressed = None;
                Some(
                    match button {
                        ButtonType::Key(i) => KeypadMsg::KeyClicked(i),
                        ButtonType::Erase => KeypadMsg::EraseClicked,
                        ButtonType::Cancel => KeypadMsg::CancelClicked,
                        ButtonType::Confirm => KeypadMsg::ConfirmClicked,
                        ButtonType::Back => KeypadMsg::BackClicked,
                    },
                )
            },
            Some(ButtonMsg::LongPressed) => {
                if button == ButtonType::Erase {
                    self.pressed = None;
                    Some(KeypadMsg::EraseLongPressed)
                } else {
                    None
                }
            },
            Some(ButtonMsg::Pressed) => {
                self.pressed = Some(button);
                None
            },
            _ => None,
        }
    }

    /// Hands the event's button reports to the keypad: the first click (or long
    /// press of erase) in dispatch order becomes the keypad's message, and the
    /// pressed button follows the presses before it.
    pub fn event(&mut self, msgs: &KeypadButtonMsgs) -> (r: Option<KeypadMsg>)
        requires
            old(self).wf(),
            msgs.keys@.len() == KEY_COUNT,
        ensures
            final(self).wf(),
            (final(self).pressed, r) == keypad_outcome(msgs.dispatch_order(), old(self).pressed),
            r matches Some(KeypadMsg::KeyClicked(i)) ==> i < KEY_COUNT,
            final(self).keys == old(self).keys,
            final(self).back_btn == old(self).back_btn,
            final(self).erase_btn == old(self).erase_btn,
            final(self).cancel_btn == old(self).cancel_btn,
            final(self).confirm_btn == old(self).confirm_btn,
    {
        let ghost reports = msgs.dispatch_order();
        let ghost goal = keypad_outcome(reports, old(self).pressed);
        proof {
            lemma_dispatch_in_range(*msgs, old(self).pressed, KEY_COUNT as int);
            lemma_keypad_outcome_in_range(reports, old(self).pressed, KEY_COUNT as int);
            assert(reports.skip(0) == reports);
            assert(reports[0] == (ButtonType::Confirm, msgs.confirm));
            assert(reports[1] == (ButtonType::Erase, msgs.erase));
            assert(reports[2] == (ButtonType::Cancel, msgs.cancel));
            assert(reports[3] == (ButtonType::Back, msgs.back));
        }
        let mut k: usize = 0;
        while k < 4
            invariant
                k <= 4,
                msgs.keys@.len() == KEY_COUNT,
                reports == msgs.dispatch_order(),
                goal == keypad_outcome(msgs.dispatch_order(), old(self).pressed),
                reports.len() == 4 + KEY_COUNT,
                reports[0] == (ButtonType::Confirm, msgs.confirm),
                reports[1] == (ButtonType::Erase, msgs.erase),
                reports[2] == (ButtonType::Cancel, msgs.cancel),
                reports[3] == (ButtonType::Back, msgs.back),
                keypad_outcome(reports.skip(k as int), self.pressed) == goal,
                self.wf(),
                self.keys == old(self).keys,
                self.back_btn == old(self).back_btn,
                self.erase_btn == old(self).erase_btn,
                self.cancel_btn == old(self).cancel_btn,
                self.confirm_btn == old(self).confirm_btn,
            decreases 4 - k,
        {
            let ghost p0 = self.pressed;
            proof {
                assert(reports.skip(k as int)[0] == reports[k as int]);
                assert(reports.skip(k as int).drop_first() == reports.skip(k + 1));
            }
            let (button, msg) = if k == 0 {
                (ButtonType::Confirm, msgs.confirm)
            } else if k == 1 {
                (ButtonType::Erase, msgs.erase)
            } else if k == 2 {
                (ButtonType::Cancel, msgs.cancel)
            } else {
                (ButtonType::Back, msgs.back)
            };
            let m = self.apply_report(button, msg);
            proof {
                assert(reports.skip(k as int).len() > 0);
                assert((button, msg) == reports.skip(k as int)[0]);
            }
            if m.is_some() {
                proof {
                    assert(keypad_outcome(reports.skip(k as int), p0) == (self.pressed, m));
                }
                return m;
            }
            k = k + 1;
        }
        let mut idx: usize = 0;
        while idx < KEY_COUNT
            invariant
                idx <= KEY_COUNT,
                msgs.keys@.len() == KEY_COUNT,
                reports == msgs.dispatch_order(),
                goal == keypad_outcome(msgs.dispatch_order(), old(self).pressed),
                reports.len() == 4 + KEY_COUNT,
                keypad_outcome(reports.skip(4 + idx), self.pressed) == goal,
                self.wf(),
                self.keys == old(self).keys,
                self.back_btn == old(self).back_btn,
                self.erase_btn == old(self).erase_btn,
                self.cancel_btn == old(self).cancel_btn,
                self.confirm_btn == old(self).confirm_btn,
            decreases KEY_COUNT - idx,
        {
            proof {
                assert(reports.skip(4 + idx)[0] == (ButtonType::Key(idx), msgs.keys@[idx as int]));
                assert(reports.skip(4 + idx).drop_first() == reports.skip(4 + idx + 1));
            }
            let ghost p0 = self.pressed;
            let m = self.apply_report(ButtonType::Key(idx), msgs.keys[idx]);
            if m.is_some() {
                proof {
                    assert(keypad_outcome(reports.skip(4 + idx), p0) == (self.pressed, m));
                }
                return m;
            }
            idx = idx + 1;
        }
        proof {
            assert(reports.skip(4 + idx).len() == 0);
        }
        None
    }

    /// The keys painted first, in order: those that are shown among the first `n`.
    pub open spec fn shown_keys(self, n: int) -> Seq<ButtonType>
        decreases n,
    {
        if n <= 0 {
            Seq::empty()
        } else {
            self.shown_keys(n - 1) + if self.keys@[n - 1].button.visible {
                seq![ButtonType::Key((n - 1) as usize)]
            } else {
                Seq::empty()
            }
        }
    }

    /// `button` if it is shown, else nothing.
    pub open spec fn if_shown(self, button: ButtonType) -> Seq<ButtonType> {
        if self.button(button).button.visible {
            seq![button]
        } else {
            Seq::empty()
        }
    }

    /// The order in which the buttons are painted: the shown keys, cancel, erase,
    /// back and confirm when shown, and the pressed button once more on top.
    pub open spec fn spec_render(self) -> Seq<ButtonType> {
        self.shown_keys(KEY_COUNT as int) + self.if_shown(ButtonType::Cancel) + self.if_shown(ButtonType::Erase)
            + self.if_shown(ButtonType::Back) + self.if_shown(ButtonType::Confirm) + match self.pressed {
            Some(b) => self.if_shown(b),
            None => Seq::empty(),
        }
    }

    /// Paints `button` if it is shown.
    fn render_button(&self, button: ButtonType, out: &mut Vec<ButtonType>)
        requires
            self.wf(),
            self.has_button(button),
        ensures
            final(out)@ == old(out)@ + self.if_shown(button),
    {
        let shown = match button {
            ButtonType::Key(i) => self.keys[i].button.is_visible(),
            ButtonType::Erase => self.erase_btn.button.is_visible(),
            ButtonType::Cancel => self.cancel_btn.button.is_visible(),
            ButtonType::Confirm => self.confirm_btn.button.is_visible(),
            ButtonType::Back => self.back_btn.button.is_visible(),
        };
        if shown {
            out.push(button);
        }
    }

    /// Paints the pressed button again, on top of the others.
    fn render_pressed_button(&self, out: &mut Vec<ButtonType>)
        requires
            self.wf(),
        ensures
            final(out)@ == old(out)@ + match self.pressed {
                Some(b) => self.if_shown(b),
                None => Seq::empty(),
            },
    {
        match self.pressed {
            Some(b) => self.render_button(b, out),
            None => {
                assert(out@ == out@ + Seq::<ButtonType>::empty());
            },
        }
    }

    /// The buttons painted, in order.
    pub fn render(&self) -> (r: Vec<ButtonType>)
        requires
            self.wf(),
        ensures
            r@ == self.spec_render(),
    {
        let mut out: Vec<ButtonType> = Vec::new();
        let mut i: usize = 0;
        while i < KEY_COUNT
            invariant
                i <= KEY_COUNT,
                self.wf(),
                out@ == self.shown_keys(i as int),
            decreases KEY_COUNT - i,
        {
            self.render_button(ButtonType::Key(i), &mut out);
            i = i + 1;
        }
        self.render_button(ButtonType::Cancel, &mut out);
        self.render_button(ButtonType::Erase, &mut out);
        self.render_button(ButtonType::Back, &mut out);
        self.render_button(ButtonType::Confirm, &mut out);
        self.render_pressed_button(&mut out);
        out
    }

    /// `new` is `old` laid out on a 4 x 3 grid over `bounds`: erase, cancel
    /// and back share the first cell of the last row, confirm takes its last
    /// cell, and the keys fill the other cells in order.
    pub open spec fn spec_placed(old: Self, new: Self, bounds: Rect) -> bool {
        let ud = spec_ud_half_spacing(bounds.spec_height(), 4);
        let lr = spec_lr_half_overlap(bounds.spec_width(), 3);
        let erase_area = cell_border(bounds, ud, lr, 3, 0);
        let erase_touch = cell_insets(ud, lr, 4, 3, 3, 0);
        &&& new.wf()
        &&& new.pressed == old.pressed
        &&& new.erase_btn.button == placed(old.erase_btn.button, erase_area, erase_touch)
        &&& new.cancel_btn.button == placed(old.cancel_btn.button, erase_area, erase_touch)
        &&& new.back_btn.button == placed(old.back_btn.button, erase_area, erase_touch)
        &&& new.confirm_btn.button == (Maybe {
            inner: Button { area: cell_border(bounds, ud, lr, 3, 2), ..old.confirm_btn.button.inner },
            ..old.confirm_btn.button
        })
        &&& forall|i: int|
            0 <= i < KEY_COUNT ==> (#[trigger] new.keys@[i]).button == placed(
                old.keys@[i].button,
                cell_border(bounds, ud, lr, key_cell(i) / 3, key_cell(i) % 3),
                cell_insets(ud, lr, 4, 3, key_cell(i) / 3, key_cell(i) % 3),
            )
    }

    /// Lays the keypad out on a 4 x 3 grid over `bounds`: erase, cancel and back
    /// share the first cell of the last row, confirm takes its last cell, and the
    /// keys fill the other cells in order.
    pub fn place(&mut self, bounds: Rect) -> (r: Rect)
        requires
            old(self).wf(),
            grid_fits(bounds, 4, 3),
        ensures
            final(self).wf(),
            r == bounds,
            Self::spec_placed(*old(self), *final(self), bounds),
    {
        let keypad_grid = OverlapGrid::<4, 3>::new(bounds);

        // Erase/cancel/back buttons.
        let erase_area = keypad_grid.border_of_cell(9);
        let erase_touch_inset = keypad_grid.insets_of_cell(9);

        self.erase_btn.place(erase_area);
        self.cancel_btn.place(erase_area);
        self.back_btn.place(erase_area);
        self.erase_btn.inner_mut().set_expanded_touch_area(erase_touch_inset);
        self.cancel_btn.inner_mut().set_expanded_touch_area(erase_touch_inset);
        self.back_btn.inner_mut().set_expanded_touch_area(erase_touch_inset);

        // Confirm button.
        self.confirm_btn.place(keypad_grid.border_of_cell(11));

        // Keys
        let ghost ud = keypad_grid.ud_half_spacing as int;
        let ghost lr = keypad_grid.lr_half_overlap as int;
        let ghost controls = (self.erase_btn, self.cancel_btn, self.back_btn, self.confirm_btn);
        let mut i: usize = 0;
        while i < KEY_COUNT
            invariant
                i <= KEY_COUNT,
                self.wf(),
                keypad_grid.wf(),
                keypad_grid.visible_area == bounds,
                ud == keypad_grid.ud_half_spacing,
                lr == keypad_grid.lr_half_overlap,
                self.pressed == old(self).pressed,
                controls == (self.erase_btn, self.cancel_btn, self.back_btn, self.confirm_btn),
                forall|j: int|
                    0 <= j < KEY_COUNT ==> (#[trigger] self.keys@[j]).button == if j < i {
                        placed(
                            old(self).keys@[j].button,
                            cell_border(bounds, ud, lr, key_cell(j) / 3, key_cell(j) % 3),
                            cell_insets(ud, lr, 4, 3, key_cell(j) / 3, key_cell(j) % 3),
                        )
                    } else {
                        old(self).keys@[j].button
                    },
            decreases KEY_COUNT - i,
        {
            // Adjust for "0" key position.
            let idx = if i < 9 {
                i
            } else {
                i + 1
            };
            let area = keypad_grid.border_of_cell(idx);
            let touch_inset = keypad_grid.insets_of_cell(idx);
            let mut btn = self.keys.remove(i);
            btn.place(area);
            btn.set_expanded_touch_area(touch_inset);
            self.keys.insert(i, btn);
            i = i + 1;
        }
        bounds
    }
}

} // verus!
