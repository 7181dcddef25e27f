use vstd::prelude::*;
use crate::button::{ButtonContent, ButtonStyleSheet, Color, Label, Maybe, TString, TextStyle};
use crate::component::{ctx_paint_only, Event, EventCtx};
use crate::geometry::{inset_fits, spec_inset, Rect};
use crate::keypad::{keypad_outcome, ButtonState, ButtonType, Keypad, KeyboardMetrics, KeypadButton, KeypadButtonMsgs, KeypadMsg};
use crate::overlap_grid::grid_fits;

verus! {

/// Number of keys of the mnemonic keyboard.
pub const MNEMONIC_KEY_COUNT: usize = 9;

/// What the mnemonic keyboard reports.
#[derive(Clone, Copy, PartialEq, Eq, Structural, Debug)]
pub enum MnemonicKeyboardMsg {
    Confirmed,
    Previous,
}

/// How far a typed word has come.
#[derive(Clone, Copy, PartialEq, Eq, Structural, Debug)]
pub enum InputState {
    ValidWord,
    InvalidWord,
    PartialWord,
}

/// What a mnemonic input reports.
#[derive(Clone, Copy, PartialEq, Eq, Structural, Debug)]
pub enum MnemonicInputMsg {
    Confirmed,
    Completed,
    TimedOut,
}

/// The input area of a mnemonic keyboard: a word being typed and completed
/// against a word list. Implemented by the users of the keyboard: the spec
/// functions say what the input holds and how its methods change it, and each
/// implementation defines them as its own behavior.
pub trait MnemonicInput: Sized {
    /// The labels of the keys.
    spec fn spec_keys() -> [&'static str; MNEMONIC_KEY_COUNT];

    /// Whether pressing key `key` can still lead to a valid word.
    spec fn spec_can_key_press(&self, key: usize) -> bool;

    /// Whether the input can be confirmed.
    spec fn spec_can_be_confirmed(&self) -> bool;

    /// Whether nothing is typed.
    spec fn spec_is_empty(&self) -> bool;

    /// The word the typed letters determine, if any.
    spec fn spec_mnemonic(&self) -> Option<&'static str>;

    /// Whether `new` is what a click on key `key` makes of this input.
    spec fn spec_key_clicked(&self, key: usize, new: Self) -> bool;

    /// Whether `new` is what a click on backspace makes of this input.
    spec fn spec_backspace_clicked(&self, new: Self) -> bool;

    /// Whether `new` is what a long press of backspace makes of this input.
    spec fn spec_backspace_long_pressed(&self, new: Self) -> bool;

    /// Whether `new` is what a click on confirm makes of this input.
    spec fn spec_confirm_clicked(&self, new: Self) -> bool;

    /// What this input reports when confirm is clicked.
    spec fn spec_confirm_report(&self) -> Option<MnemonicInputMsg>;

    /// Whether `new` is what handling `event` makes of this input.
    spec fn spec_handles_event(&self, event: Event, new: Self) -> bool;

    /// What this input reports for `event`.
    spec fn spec_event_report(&self, event: Event) -> Option<MnemonicInputMsg>;

    /// The labels of the keys.
    fn keys() -> (r: [&'static str; MNEMONIC_KEY_COUNT])
        ensures
            r == Self::spec_keys(),
    ;

    fn can_key_press_lead_to_a_valid_word(&self, key: usize) -> (r: bool)
        ensures
            r == self.spec_can_key_press(key),
    ;

    fn can_be_confirmed(&self) -> (r: bool)
        ensures
            r == self.spec_can_be_confirmed(),
    ;

    fn on_key_click(&mut self, ctx: &mut EventCtx, key: usize)
        ensures
            old(self).spec_key_clicked(key, *final(self)),
    ;

    fn on_backspace_click(&mut self, ctx: &mut EventCtx)
        ensures
            old(self).spec_backspace_clicked(*final(self)),
    ;

    fn on_confirm_click(&mut self, ctx: &mut EventCtx) -> (r: Option<MnemonicInputMsg>)
        ensures
            old(self).spec_confirm_clicked(*final(self)),
            r == old(self).spec_confirm_report(),
    ;

    fn on_backspace_long_press(&mut self, ctx: &mut EventCtx)
        ensures
            old(self).spec_backspace_long_pressed(*final(self)),
    ;

    fn is_empty(&self) -> (r: bool)
        ensures
            r == self.spec_is_empty(),
    ;

    fn mnemonic(&self) -> (r: Option<&'static str>)
        ensures
            r == self.spec_mnemonic(),
    ;

    /// Places the input area in `bounds`.
    fn place(&mut self, bounds: Rect) -> Rect;

    /// Handles an event delivered to the input area.
    fn event(&mut self, ctx: &mut EventCtx, event: Event) -> (r: Option<MnemonicInputMsg>)
        ensures
            old(self).spec_handles_event(event, *final(self)),
            r == old(self).spec_event_report(event),
    ;
}

/// What the keyboard reads of its input: for each key whether pressing it
/// can still lead to a valid word, whether nothing is typed, whether the typed
/// letters determine a word, and whether the input can be confirmed.
#[derive(Clone, Copy, Debug)]
pub struct InputStatus {
    pub can_press: [bool; 9],
    pub empty: bool,
    pub has_mnemonic: bool,
    pub can_be_confirmed: bool,
}

/// `status` is what `input` answers: for each key whether it can be pressed,
/// whether it is empty, whether it determines a word, and whether it can be
/// confirmed.
pub open spec fn status_of<T: MnemonicInput>(input: T, status: InputStatus) -> bool {
    &&& forall|k: int| 0 <= k < MNEMONIC_KEY_COUNT ==> #[trigger] status.can_press@[k] == input.spec_can_key_press(k as usize)
    &&& status.empty == input.spec_is_empty()
    &&& status.has_mnemonic == input.spec_mnemonic() is Some
    &&& status.can_be_confirmed == input.spec_can_be_confirmed()
}

/// Whether some key press can still lead to a valid word.
pub open spec fn any_key_can_press(status: InputStatus) -> bool {
    exists|k: int| 0 <= k < MNEMONIC_KEY_COUNT && #[trigger] status.can_press@[k]
}

/// The states of erase, back and confirm, and the style of confirm, for an
/// input: erase is shown only for typed letters, back only without them (and
/// only where going back is allowed), confirm only once a word is determined;
/// confirm is highlighted when no key press can lead further.
pub open spec fn control_states(status: InputStatus, can_go_back: bool) -> (
    ButtonState,
    ButtonState,
    ButtonState,
    ButtonStyleSheet,
) {
    let empty = status.empty;
    (
        if empty {
            ButtonState::Hidden
        } else {
            ButtonState::Enabled
        },
        if empty && can_go_back {
            ButtonState::Enabled
        } else {
            ButtonState::Hidden
        },
        if empty || !status.has_mnemonic {
            ButtonState::Hidden
        } else {
            ButtonState::Enabled
        },
        if status.has_mnemonic && !any_key_can_press(status) {
            ButtonStyleSheet::KeyboardConfirm
        } else {
            ButtonStyleSheet::Keyboard
        },
    )
}

/// The state of a key that can (or cannot) lead to a valid word.
pub open spec fn key_state(can_press: bool) -> ButtonState {
    if can_press {
        ButtonState::Enabled
    } else {
        ButtonState::Disabled
    }
}

/// `new` is `old` with the buttons put into the states `status` calls for.
pub open spec fn buttons_follow_input(old: Keypad<9>, new: Keypad<9>, status: InputStatus, can_go_back: bool) -> bool {
    let (erase, back, confirm, confirm_style) = control_states(status, can_go_back);
    &&& new.wf()
    &&& new.pressed == old.pressed
    &&& new.cancel_btn == old.cancel_btn
    &&& new.erase_btn == old.erase_btn.with_state(erase)
    &&& new.back_btn == old.back_btn.with_state(back)
    &&& new.confirm_btn == KeypadButton {
        button: Maybe {
            inner: crate::button::Button {
                styles: confirm_style,
                ..old.confirm_btn.with_state(confirm).button.inner
            },
            ..old.confirm_btn.with_state(confirm).button
        },
    }
    &&& forall|i: int|
        0 <= i < MNEMONIC_KEY_COUNT ==> #[trigger] new.keys@[i] == old.keys@[i].with_state(
            key_state(status.can_press@[i]),
        )
}

/// Law: after the keyboard followed its input, erase is shown and enabled
/// exactly when letters are typed; back is shown and enabled exactly when none
/// are and going back is allowed; confirm is shown and enabled exactly when
/// letters are typed and they determine a word; each key is shown, and
/// enabled exactly when pressing it can still lead to a valid word.
pub proof fn lemma_buttons_follow_input(old: Keypad<9>, new: Keypad<9>, status: InputStatus, can_go_back: bool)
    requires
        buttons_follow_input(old, new, status, can_go_back),
    ensures
        new.erase_btn.button.visible <==> !status.empty,
        new.erase_btn.button.visible ==> new.erase_btn.button.inner.enabled,
        new.back_btn.button.visible <==> status.empty && can_go_back,
        new.back_btn.button.visible ==> new.back_btn.button.inner.enabled,
        new.confirm_btn.button.visible <==> !status.empty && status.has_mnemonic,
        new.confirm_btn.button.visible ==> new.confirm_btn.button.inner.enabled,
        forall|i: int|
            0 <= i < MNEMONIC_KEY_COUNT ==> (#[trigger] new.keys@[i]).button.visible && (
            new.keys@[i].button.inner.enabled <==> status.can_press@[i]),
{
}

/// The parts of the mnemonic keyboard, as painted.
#[derive(Clone, Copy, PartialEq, Eq, Structural, Debug)]
pub enum MnemonicPart {
    Prompt,
    Input,
    Keypad,
}

/// Keyboard for entering a mnemonic word by word, with a prompt shown while
/// no letter is typed.
pub struct MnemonicKeyboard<T> {
    pub prompt: Maybe<Label<'static>>,
    pub input: Maybe<T>,
    pub keypad: Keypad<9>,
    pub can_go_back: bool,
}

impl<T: MnemonicInput> MnemonicKeyboard<T> {
    pub open spec fn wf(self) -> bool {
        &&& self.keypad.wf()
    }

    /// The keyboard `from_status` builds.
    pub open spec fn spec_built(
        input: T,
        prompt: TString<'static>,
        can_go_back: bool,
        status: InputStatus,
        labels: Seq<&'static str>,
        r: Self,
    ) -> bool {
        &&& r.wf()
        &&& r.input == Maybe { inner: input, visible: !status.empty, bg_color: Color::Bg }
        &&& r.prompt == Maybe {
            inner: Label {
                vertically_centered: true,
                ..Label::new_spec(prompt, crate::button::Alignment::Center, TextStyle::TextSmall)
            },
            visible: status.empty,
            bg_color: Color::Bg,
        }
        &&& r.can_go_back == can_go_back
        &&& r.keypad.pressed is None
        &&& r.keypad.cancel_btn.spec_state() == ButtonState::Hidden
        &&& r.keypad.back_btn.spec_state() == if can_go_back && status.empty {
            ButtonState::Enabled
        } else {
            ButtonState::Hidden
        }
        &&& r.keypad.erase_btn.spec_state() == if status.empty {
            ButtonState::Hidden
        } else {
            ButtonState::Enabled
        }
        &&& r.keypad.confirm_btn.spec_state() == if status.can_be_confirmed {
            ButtonState::Enabled
        } else {
            ButtonState::Hidden
        }
        &&& forall|i: int|
            0 <= i < MNEMONIC_KEY_COUNT ==> {
                &&& (#[trigger] r.keypad.keys@[i]).spec_state() == key_state(status.can_press@[i])
                &&& r.keypad.keys@[i].button.inner.content == ButtonContent::Text(labels[i])
                &&& r.keypad.keys@[i].button.inner.styles == ButtonStyleSheet::Keyboard
            }
    }

    /// What the keyboard reads of `input`.
    fn read_status(input: &T) -> (r: InputStatus)
        ensures
            status_of(*input, r),
    {
        let mut can_press: [bool; MNEMONIC_KEY_COUNT] = [false; MNEMONIC_KEY_COUNT];
        let mut idx: usize = 0;
        while idx < MNEMONIC_KEY_COUNT
            invariant
                idx <= MNEMONIC_KEY_COUNT,
                forall|k: int| 0 <= k < idx ==> #[trigger] can_press@[k] == input.spec_can_key_press(k as usize),
            decreases MNEMONIC_KEY_COUNT - idx,
        {
            can_press[idx] = input.can_key_press_lead_to_a_valid_word(idx);
            idx = idx + 1;
        }
        let empty = input.is_empty();
        let has_mnemonic = input.mnemonic().is_some();
        let can_be_confirmed = input.can_be_confirmed();
        InputStatus { can_press, empty, has_mnemonic, can_be_confirmed }
    }

    /// The keyboard for `input`, given what was read of it and the key labels.
    pub fn from_status(
        input: T,
        prompt: TString<'static>,
        can_go_back: bool,
        status: InputStatus,
        labels: [&'static str; MNEMONIC_KEY_COUNT],
    ) -> (r: Self)
        ensures
            Self::spec_built(input, prompt, can_go_back, status, labels@, r),
    {
        let mut keypad_content: Vec<ButtonContent> = Vec::new();
        let mut k: usize = 0;
        while k < MNEMONIC_KEY_COUNT
            invariant
                k <= MNEMONIC_KEY_COUNT,
                keypad_content@.len() == k,
                forall|i: int| 0 <= i < k ==> #[trigger] keypad_content@[i] == ButtonContent::Text(labels@[i]),
            decreases MNEMONIC_KEY_COUNT - k,
        {
            keypad_content.push(ButtonContent::Text(labels[k]));
            k = k + 1;
        }
        let keypad = Keypad::<MNEMONIC_KEY_COUNT>::new(
            false,
            can_go_back && status.empty,
            !status.empty,
            status.can_be_confirmed,
            status.can_press,
        ).with_keypad_content(keypad_content, ButtonStyleSheet::Keyboard);
        MnemonicKeyboard {
            prompt: Maybe::new(
                Color::Bg,
                Label::centered(prompt, TextStyle::TextSmall).vertically_centered(),
                status.empty,
            ),
            keypad,
            can_go_back,
            input: Maybe::new(Color::Bg, input, !status.empty),
        }
    }

    /// The keyboard for `input`, with the prompt shown while nothing is typed.
    pub fn new(input: T, prompt: TString<'static>, can_go_back: bool) -> (r: Self)
        ensures
            exists|status: InputStatus|
                status_of(input, status) && #[trigger] Self::spec_built(
                    input,
                    prompt,
                    can_go_back,
                    status,
                    T::spec_keys()@,
                    r,
                ),
    {
        // Input might be already pre-filled
        let status = Self::read_status(&input);
        let labels = T::keys();
        let r = Self::from_status(input, prompt, can_go_back, status, labels);
        proof {
            assert(Self::spec_built(input, prompt, can_go_back, status, labels@, r));
        }
        r
    }

    /// Either enable or disable the key buttons, depending on the dictionary
    /// completion mask and the pending key.
    fn toggle_buttons(&mut self, ctx: &mut EventCtx, status: &InputStatus)
        requires
            old(self).wf(),
        ensures
            final(self).wf(),
            buttons_follow_input(old(self).keypad, final(self).keypad, *status, old(self).can_go_back),
            final(self).input == old(self).input,
            final(self).prompt == old(self).prompt,
            final(self).can_go_back == old(self).can_go_back,
            ctx_paint_only(*old(ctx), *final(ctx)),
    {
        // Enable or disable the key buttons based on their ability to form a valid
        // word.
        let mut idx: usize = 0;
        while idx < MNEMONIC_KEY_COUNT
            invariant
                idx <= MNEMONIC_KEY_COUNT,
                self.wf(),
                self.input == old(self).input,
                self.prompt == old(self).prompt,
                self.can_go_back == old(self).can_go_back,
                self.keypad.pressed == old(self).keypad.pressed,
                self.keypad.back_btn == old(self).keypad.back_btn,
                self.keypad.erase_btn == old(self).keypad.erase_btn,
                self.keypad.cancel_btn == old(self).keypad.cancel_btn,
                self.keypad.confirm_btn == old(self).keypad.confirm_btn,
                forall|i: int|
                    0 <= i < MNEMONIC_KEY_COUNT ==> #[trigger] self.keypad.keys@[i] == if i < idx {
                        old(self).keypad.keys@[i].with_state(key_state(status.can_press@[i]))
                    } else {
                        old(self).keypad.keys@[i]
                    },
                ctx_paint_only(*old(ctx), *ctx),
            decreases MNEMONIC_KEY_COUNT - idx,
        {
            let state = if status.can_press[idx] {
                ButtonState::Enabled
            } else {
                ButtonState::Disabled
            };
            self.keypad.set_button_state(ctx, ButtonType::Key(idx), state);
            idx = idx + 1;
        }

        // Determine states for erase and back buttons
        let (erase_state, back_state) = if status.empty {
            (
                ButtonState::Hidden,
                if self.can_go_back {
                    ButtonState::Enabled
                } else {
                    ButtonState::Hidden
                },
            )
        } else {
            (ButtonState::Enabled, ButtonState::Hidden)
        };

        // Determine state and style for the confirm button based on input state
        let confirm_state = if status.empty || !status.has_mnemonic {
            ButtonState::Hidden
        } else {
            ButtonState::Enabled
        };

        let confirm_style = if status.has_mnemonic {
            if any_press_can_lead_to_valid_word(status) {
                ButtonStyleSheet::Keyboard
            } else {
                ButtonStyleSheet::KeyboardConfirm
            }
        } else {
            ButtonStyleSheet::Keyboard
        };

        // Apply all button states
        self.keypad.set_button_state(ctx, ButtonType::Erase, erase_state);
        self.keypad.set_button_state(ctx, ButtonType::Back, back_state);
        self.keypad.set_button_state(ctx, ButtonType::Confirm, confirm_state);

        // Apply the stylesheet for the confirm button
        self.keypad.set_button_stylesheet(ButtonType::Confirm, confirm_style);
    }

    /// Shows the prompt while the input is empty and the input otherwise; the
    /// erase and back buttons follow the input in `toggle_buttons`.
    fn toggle_prompt_or_input(&mut self, ctx: &mut EventCtx, input_empty: bool)
        ensures
            final(self).prompt == (Maybe { visible: input_empty, ..old(self).prompt }),
            final(self).input == (Maybe { visible: !input_empty, ..old(self).input }),
            final(self).keypad == old(self).keypad,
            final(self).can_go_back == old(self).can_go_back,
            ctx_paint_only(*old(ctx), *final(ctx)),
    {
        // Prompt is shown if the input is empty.
        self.prompt.show_if(ctx, input_empty);
        self.input.show_if(ctx, !input_empty);
    }

    /// The keyboard after it followed an input that read as `status`: the
    /// buttons are in the states the input calls for, and the prompt is shown
    /// exactly when nothing is typed, the input otherwise.
    pub open spec fn spec_followed(old: Self, new: Self, status: InputStatus) -> bool {
        &&& buttons_follow_input(old.keypad, new.keypad, status, old.can_go_back)
        &&& new.prompt == Maybe { visible: status.empty, ..old.prompt }
        &&& new.input == Maybe { visible: !status.empty, ..old.input }
        &&& new.can_go_back == old.can_go_back
    }

    /// The keyboard after it followed its input: the buttons, the prompt and
    /// the input are shown as what the input answers calls for.
    pub open spec fn spec_input_changed(old: Self, new: Self) -> bool {
        exists|status: InputStatus| status_of(old.input.inner, status) && #[trigger] Self::spec_followed(old, new, status)
    }

    /// Makes the keyboard follow an input that read as `status`: after an
    /// edit the prompt is shown only while the input is empty, the input
    /// otherwise; erase is shown only for typed letters, back only without
    /// them (where going back is allowed); confirm only for a determined word;
    /// the keys that can lead to a valid word are enabled.
    pub fn follow_input(&mut self, ctx: &mut EventCtx, status: &InputStatus)
        requires
            old(self).wf(),
        ensures
            final(self).wf(),
            Self::spec_followed(*old(self), *final(self), *status),
            ctx_paint_only(*old(ctx), *final(ctx)),
    {
        self.toggle_buttons(ctx, status);
        self.toggle_prompt_or_input(ctx, status.empty);
    }

    fn on_input_change(&mut self, ctx: &mut EventCtx)
        requires
            old(self).wf(),
        ensures
            final(self).wf(),
            Self::spec_input_changed(*old(self), *final(self)),
            ctx_paint_only(*old(ctx), *final(ctx)),
    {
        let status = Self::read_status(self.input.inner());
        self.follow_input(ctx, &status);
    }

    /// Lays the keyboard out in `bounds`: the prompt and the input (each
    /// inset) over the input area on top, the keypad below it.
    pub fn place(&mut self, bounds: Rect, m: &KeyboardMetrics) -> (r: Rect)
        requires
            old(self).wf(),
            bounds.wf(),
            grid_fits(bounds.spec_split_top(m.input_height as int).1, 4, 3),
            inset_fits(bounds.spec_split_top(m.input_height as int).0, m.prompt_insets),
            inset_fits(bounds.spec_split_top(m.input_height as int).0, m.input_insets),
        ensures
            r == bounds,
            final(self).wf(),
            ({
                let (input_area, keypad_area) = bounds.spec_split_top(m.input_height as int);
                &&& Keypad::<9>::spec_placed(old(self).keypad, final(self).keypad, keypad_area)
                &&& final(self).prompt == (Maybe {
                    inner: Label { area: spec_inset(input_area, m.prompt_insets), ..old(self).prompt.inner },
                    ..old(self).prompt
                })
            }),
            final(self).input.visible == old(self).input.visible,
            final(self).input.bg_color == old(self).input.bg_color,
            final(self).can_go_back == old(self).can_go_back,
    {
        let (input_area, keypad_area) = bounds.split_top(m.input_height);
        let prompt_area = input_area.inset(m.prompt_insets);
        let input_area = input_area.inset(m.input_insets);

        // Prompt/input placement
        self.prompt.inner_mut().place(prompt_area);
        self.input.inner_mut().place(input_area);

        // Keypad placement
        self.keypad.place(keypad_area);
        bounds
    }

    /// The parts painted, in order: the prompt while the input is empty, the
    /// input otherwise, then the keypad.
    pub fn render(&self) -> (r: Vec<MnemonicPart>)
        ensures
            r@ == if self.input.inner.spec_is_empty() {
                seq![MnemonicPart::Prompt, MnemonicPart::Keypad]
            } else {
                seq![MnemonicPart::Input, MnemonicPart::Keypad]
            },
    {
        let mut parts: Vec<MnemonicPart> = Vec::new();
        if self.input.inner().is_empty() {
            parts.push(MnemonicPart::Prompt);
        } else {
            parts.push(MnemonicPart::Input);
        }
        parts.push(MnemonicPart::Keypad);
        proof {
            if self.input.inner.spec_is_empty() {
                assert(parts@ =~= seq![MnemonicPart::Prompt, MnemonicPart::Keypad]);
            } else {
                assert(parts@ =~= seq![MnemonicPart::Input, MnemonicPart::Keypad]);
            }
        }
        parts
    }

    /// The word the typed letters determine.
    pub fn mnemonic(&self) -> (r: Option<&'static str>)
        ensures
            r == self.input.inner.spec_mnemonic(),
    {
        self.input.inner().mnemonic()
    }

    /// Handles what the input area reported for an event: a confirmation is
    /// passed on; a completion or a timeout makes the keyboard follow the
    /// input. Returns whether the event is handled, and the keyboard's message.
    pub fn handle_input_report(&mut self, ctx: &mut EventCtx, report: Option<MnemonicInputMsg>) -> (r: (
        bool,
        Option<MnemonicKeyboardMsg>,
    ))
        requires
            old(self).wf(),
        ensures
            final(self).wf(),
            r == match report {
                Some(MnemonicInputMsg::Confirmed) => (true, Some(MnemonicKeyboardMsg::Confirmed)),
                Some(_) => (true, None),
                None => (false, None::<MnemonicKeyboardMsg>),
            },
            report is Some && report != Some(MnemonicInputMsg::Confirmed) ==> Self::spec_input_changed(
                *old(self),
                *final(self),
            ),
            !(report is Some && report != Some(MnemonicInputMsg::Confirmed)) ==> *final(self) == *old(self),
            ctx_paint_only(*old(ctx), *final(ctx)),
    {
        match report {
            Some(MnemonicInputMsg::Confirmed) => {
                // Confirmed, bubble up.
                (true, Some(MnemonicKeyboardMsg::Confirmed))
            },
            Some(_) => {
                // Either a timeout or a completion.
                self.on_input_change(ctx);
                (true, None)
            },
            None => (false, None),
        }
    }

    /// The input area's handling of an event; a hidden input takes no events.
    fn input_event(&mut self, ctx: &mut EventCtx, event: Event) -> (r: Option<MnemonicInputMsg>)
        requires
            old(self).wf(),
        ensures
            final(self).wf(),
            !old(self).input.visible ==> r is None && *final(self) == *old(self),
            old(self).input.visible ==> old(self).input.inner.spec_handles_event(event, final(self).input.inner)
                && r == old(self).input.inner.spec_event_report(event),
            final(self).keypad == old(self).keypad,
            final(self).prompt == old(self).prompt,
            final(self).can_go_back == old(self).can_go_back,
            final(self).input.visible == old(self).input.visible,
            final(self).input.bg_color == old(self).input.bg_color,
    {
        if self.input.is_visible() {
            self.input.inner_mut().event(ctx, event)
        } else {
            None
        }
    }

    /// What the keyboard does with a report of its input area: a confirmation
    /// is passed on and leaves the keyboard as it is; another report makes the
    /// keyboard follow the input; no report changes nothing.
    pub open spec fn spec_input_report(before: Self, new: Self, report: Option<MnemonicInputMsg>, r: Option<
        MnemonicKeyboardMsg,
    >) -> bool {
        match report {
            Some(MnemonicInputMsg::Confirmed) => r == Some(MnemonicKeyboardMsg::Confirmed) && new == before,
            Some(_) => r is None && Self::spec_input_changed(before, new),
            None => r is None && new == before,
        }
    }

    /// `kb` with the input `edited` in place of its own.
    pub open spec fn with_input(kb: Self, edited: T) -> Self {
        MnemonicKeyboard { input: Maybe { inner: edited, ..kb.input }, ..kb }
    }

    /// The keypad's part of an event, from the keyboard `mid` the input area
    /// left: a key click, erase or its long press edits the input, after which
    /// the keyboard follows the edited input; back reports going to the
    /// previous word where that is allowed; confirm asks the input, whose
    /// report is handled as `spec_input_report` says; otherwise nothing is
    /// reported. Only the pressed button of the keypad changes on its own.
    pub open spec fn spec_keypad_part(
        mid: Self,
        new: Self,
        reports: Seq<(ButtonType, Option<crate::button::ButtonMsg>)>,
        r: Option<MnemonicKeyboardMsg>,
    ) -> bool {
        let (pressed, km) = keypad_outcome(reports, mid.keypad.pressed);
        let pk = MnemonicKeyboard { keypad: Keypad { pressed, ..mid.keypad }, ..mid };
        let edited = Self::with_input(pk, new.input.inner);
        match km {
            Some(KeypadMsg::KeyClicked(idx)) => {
                &&& r is None
                &&& pk.input.inner.spec_key_clicked(idx, new.input.inner)
                &&& Self::spec_input_changed(edited, new)
            },
            Some(KeypadMsg::EraseClicked) => {
                &&& r is None
                &&& pk.input.inner.spec_backspace_clicked(new.input.inner)
                &&& Self::spec_input_changed(edited, new)
            },
            Some(KeypadMsg::EraseLongPressed) => {
                &&& r is None
                &&& pk.input.inner.spec_backspace_long_pressed(new.input.inner)
                &&& Self::spec_input_changed(edited, new)
            },
            Some(KeypadMsg::BackClicked) => {
                &&& r == if mid.can_go_back {
                    Some(MnemonicKeyboardMsg::Previous)
                } else {
                    None
                }
                &&& new == pk
            },
            Some(KeypadMsg::ConfirmClicked) => {
                &&& pk.input.inner.spec_confirm_clicked(new.input.inner)
                &&& Self::spec_input_report(edited, new, pk.input.inner.spec_confirm_report(), r)
            },
            _ => r is None && new == pk,
        }
    }

    /// What the input area reports for `event`: nothing while it is hidden.
    pub open spec fn spec_input_area_report(kb: Self, event: Event) -> Option<MnemonicInputMsg> {
        if kb.input.visible {
            kb.input.inner.spec_event_report(event)
        } else {
            None
        }
    }

    /// `spec_event` with `mid` the keyboard after the input area saw the event.
    pub open spec fn spec_event_via(
        old: Self,
        mid: Self,
        new: Self,
        event: Event,
        reports: Seq<(ButtonType, Option<crate::button::ButtonMsg>)>,
        r: Option<MnemonicKeyboardMsg>,
    ) -> bool {
        let report = Self::spec_input_area_report(old, event);
        &&& mid.wf()
        &&& mid == Self::with_input(old, mid.input.inner)
        &&& (!old.input.visible ==> mid == old)
        &&& (old.input.visible ==> old.input.inner.spec_handles_event(event, mid.input.inner))
        &&& if report is Some {
            Self::spec_input_report(mid, new, report, r)
        } else {
            Self::spec_keypad_part(mid, new, reports, r)
        }
    }

    /// The keyboard's handling of `event`: the input area sees it first
    /// (when shown), and what it reports is handled as `spec_input_report`
    /// says; without a report, the keypad's part.
    pub open spec fn spec_event(
        old: Self,
        new: Self,
        event: Event,
        reports: Seq<(ButtonType, Option<crate::button::ButtonMsg>)>,
        r: Option<MnemonicKeyboardMsg>,
    ) -> bool {
        exists|mid: Self| #[trigger] Self::spec_event_via(old, mid, new, event, reports, r)
    }

    /// Where the keyboard's message comes from, `mid` being the keyboard after
    /// its input area saw the event: it confirms exactly when the input area
    /// reports a confirmation, or, without such a report, when the keypad
    /// reports confirm and the input then answers with a confirmation; it goes
    /// to the previous word exactly when, without a report of the input area,
    /// the keypad reports back and going back is allowed.
    pub proof fn lemma_event_messages(
        old: Self,
        mid: Self,
        new: Self,
        event: Event,
        reports: Seq<(ButtonType, Option<crate::button::ButtonMsg>)>,
        r: Option<MnemonicKeyboardMsg>,
    )
        requires
            Self::spec_event_via(old, mid, new, event, reports, r),
        ensures
            ({
                let report = Self::spec_input_area_report(old, event);
                let km = keypad_outcome(reports, old.keypad.pressed).1;
                &&& (r == Some(MnemonicKeyboardMsg::Confirmed)) <==> (report == Some(MnemonicInputMsg::Confirmed) || (
                report is None && km == Some(KeypadMsg::ConfirmClicked) && mid.input.inner.spec_confirm_report()
                    == Some(MnemonicInputMsg::Confirmed)))
                &&& (r == Some(MnemonicKeyboardMsg::Previous)) <==> (report is None && km == Some(
                    KeypadMsg::BackClicked,
                ) && old.can_go_back)
            }),
    {
    }

    /// Handles one event, given what the keypad's buttons report for it. The
    /// input area sees the event first: its confirmation is passed on and its
    /// other reports make the keyboard follow it. Otherwise the keypad's
    /// message is handled: a key click, erase or its long press edits the
    /// input, after which the keyboard follows it; back goes to the previous
    /// word where that is allowed; confirm asks the input, whose report is
    /// handled as above.
    pub fn event(&mut self, ctx: &mut EventCtx, event: Event, msgs: &KeypadButtonMsgs) -> (r: Option<
        MnemonicKeyboardMsg,
    >)
        requires
            old(self).wf(),
            msgs.keys@.len() == MNEMONIC_KEY_COUNT,
        ensures
            final(self).wf(),
            Self::spec_event(*old(self), *final(self), event, msgs.dispatch_order(), r),
    {
        let ghost s0 = *self;
        let report = self.input_event(ctx, event);
        let ghost mid = *self;
        let (handled, msg) = self.handle_input_report(ctx, report);
        if handled {
            proof {
                assert(Self::spec_event_via(s0, mid, *self, event, msgs.dispatch_order(), msg));
            }
            return msg;
        }
        let km = self.keypad.event(msgs);
        match km {
            Some(KeypadMsg::KeyClicked(idx)) => {
                self.input.inner_mut().on_key_click(ctx, idx);
                self.on_input_change(ctx);
                proof {
                    assert(Self::spec_event_via(s0, mid, *self, event, msgs.dispatch_order(), None));
                }
                return None;
            },
            Some(KeypadMsg::BackClicked) => {
                // Back button will cause going back to the previous word when allowed.
                if self.can_go_back {
                    proof {
                        assert(Self::spec_event_via(s0, mid, *self, event, msgs.dispatch_order(), Some(MnemonicKeyboardMsg::Previous)));
                    }
                    return Some(MnemonicKeyboardMsg::Previous);
                }
            },
            Some(KeypadMsg::EraseClicked) => {
                self.input.inner_mut().on_backspace_click(ctx);
                self.on_input_change(ctx);
                proof {
                    assert(Self::spec_event_via(s0, mid, *self, event, msgs.dispatch_order(), None));
                }
                return None;
            },
            Some(KeypadMsg::EraseLongPressed) => {
                self.input.inner_mut().on_backspace_long_press(ctx);
                self.on_input_change(ctx);
                proof {
                    assert(Self::spec_event_via(s0, mid, *self, event, msgs.dispatch_order(), None));
                }
                return None;
            },
            Some(KeypadMsg::ConfirmClicked) => {
                let confirm_report = self.input.inner_mut().on_confirm_click(ctx);
                let ghost edited = *self;
                let (handled, msg) = self.handle_input_report(ctx, confirm_report);
                if handled {
                    proof {
                        assert(Self::spec_input_report(edited, *self, confirm_report, msg));
                        assert(Self::spec_event_via(s0, mid, *self, event, msgs.dispatch_order(), msg));
                    }
                    return msg;
                }
                proof {
                    assert(Self::spec_input_report(edited, *self, confirm_report, None));
                    assert(Self::spec_event_via(s0, mid, *self, event, msgs.dispatch_order(), None));
                }
                return None;
            },
            _ => {},
        }
        proof {
            assert(Self::spec_event_via(s0, mid, *self, event, msgs.dispatch_order(), None));
        }
        None
    }
}

/// Whether some key press can still lead to a valid word.
fn any_press_can_lead_to_valid_word(status: &InputStatus) -> (r: bool)
    ensures
        r == any_key_can_press(*status),
{
    let mut idx: usize = 0;
    while idx < MNEMONIC_KEY_COUNT
        invariant
            idx <= MNEMONIC_KEY_COUNT,
            forall|k: int| 0 <= k < idx ==> !status.can_press@[k],
        decreases MNEMONIC_KEY_COUNT - idx,
    {
        if status.can_press[idx] {
            return true;
        }
        idx = idx + 1;
    }
    false
}

} // verus!
