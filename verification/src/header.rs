use vstd::prelude::*;
use crate::button::{Alignment, Button, ButtonContent, ButtonMsg, ButtonStyleSheet, Color, Icon, Label, TString, TextStyle};
use crate::component::{anim_frame_timer, ctx_paint_only, Event, EventCtx, TimerToken};
use crate::geometry::{Insets, Rect};

verus! {

/// Duration of the title animation, in milliseconds.
pub const ANIMATION_TIME_MS: u64 = 1000;

/// Height of the header, in pixels.
pub const HEADER_HEIGHT: i16 = 96;

/// Width of the header's right button, in pixels.
pub const HEADER_BUTTON_WIDTH: i16 = 80;

/// Space left of the header's left button, in pixels.
pub const HEADER_MARGIN_LEFT: i16 = 24;

/// Space between the header's left button and the title, in pixels.
pub const HEADER_MARGIN_RIGHT: i16 = 16;

/// By how much the touch area of a header button exceeds the button.
pub const BUTTON_EXPAND_BORDER: i16 = 32;

/// Measures time since it was started; times are milliseconds on a monotonic
/// clock.
#[derive(Clone, Copy, PartialEq, Eq, Structural, Debug)]
pub struct Stopwatch {
    pub started_at: Option<u64>,
}

impl Stopwatch {
    pub fn new_stopped() -> (r: Self)
        ensures
            r.started_at is None,
    {
        Stopwatch { started_at: None }
    }

    pub fn start(&mut self, now_ms: u64)
        ensures
            final(self).started_at == Some(now_ms),
    {
        self.started_at = Some(now_ms);
    }

    /// Whether it runs and was started less than `duration_ms` before `now_ms`.
    pub open spec fn spec_is_running_within(self, duration_ms: u64, now_ms: u64) -> bool {
        match self.started_at {
            Some(t) => (if now_ms >= t { now_ms - t } else { 0 }) < duration_ms,
            None => false,
        }
    }

    pub fn is_running_within(&self, duration_ms: u64, now_ms: u64) -> (r: bool)
        ensures
            r == self.spec_is_running_within(duration_ms, now_ms),
    {
        match self.started_at {
            Some(t) => now_ms.saturating_sub(t) < duration_ms,
            None => false,
        }
    }
}

/// The animation of the title when the header is attached.
#[derive(Clone, Copy, PartialEq, Eq, Structural, Debug)]
pub struct AttachAnimation {
    pub timer: Stopwatch,
}

impl Default for AttachAnimation {
    /// An animation that has not started.
    fn default() -> (r: Self)
        ensures
            r.timer.started_at is None,
    {
        AttachAnimation { timer: Stopwatch::new_stopped() }
    }
}

impl AttachAnimation {
    /// Whether the animation is running at `now_ms`; never while animations
    /// are disabled.
    pub fn is_active(&self, now_ms: u64, animation_disabled: bool) -> (r: bool)
        ensures
            r == (!animation_disabled && self.timer.spec_is_running_within(ANIMATION_TIME_MS, now_ms)),
    {
        if animation_disabled {
            return false;
        }
        self.timer.is_running_within(ANIMATION_TIME_MS, now_ms)
    }

    pub fn start(&mut self, now_ms: u64)
        ensures
            final(self).timer.started_at == Some(now_ms),
    {
        self.timer.start(now_ms);
    }

    pub fn reset(&mut self)
        ensures
            final(self).timer.started_at is None,
    {
        self.timer = Stopwatch::new_stopped();
    }
}

/// What placing `before` in `bounds` makes of it, given the width of the
/// left button's icon: only the areas change.
pub open spec fn header_placed(before: Header, after: Header, bounds: Rect, left_icon_width: int) -> bool {
    let (right_area, left_area, title_area) = before.spec_layout(bounds, left_icon_width);
    &&& after.area == bounds
    &&& after.title == (Label { area: title_area, ..before.title })
    &&& after.right_button == match before.right_button {
        Some(b) => Some(Button { area: right_area, ..b }),
        None => None,
    }
    &&& after.left_button == match before.left_button {
        Some(b) => Some(Button { area: left_area, ..b }),
        None => None,
    }
    &&& after.title_style == before.title_style
    &&& after.right_button_msg == before.right_button_msg
    &&& after.left_button_msg == before.left_button_msg
    &&& after.anim == before.anim
}

/// The parts of the header, as painted.
#[derive(Clone, Copy, PartialEq, Eq, Structural, Debug)]
pub enum HeaderPart {
    RightButton,
    LeftButton,
    Title,
}

/// What the header reports.
#[derive(Clone, Copy, PartialEq, Eq, Structural, Debug)]
pub enum HeaderMsg {
    Cancelled,
    Info,
}

/// The header of a screen: the title, an optional icon button on the left and
/// an optional icon button (typically for a menu) on the right.
pub struct Header {
    pub area: Rect,
    pub title: Label<'static>,
    pub title_style: TextStyle,
    /// button in the top-right corner
    pub right_button: Option<Button>,
    /// button in the top-left corner, can be just an icon
    pub left_button: Option<Button>,
    pub right_button_msg: HeaderMsg,
    pub left_button_msg: HeaderMsg,
    pub anim: Option<AttachAnimation>,
}

impl Header {
    /// The header `new` makes.
    pub open spec fn new_spec(title: TString<'static>) -> Header {
        Header {
            area: Rect { x0: 0, y0: 0, x1: 0, y1: 0 },
            title: Label {
                vertically_centered: true,
                ..Label::new_spec(title, Alignment::Start, TextStyle::LabelTitleMain)
            },
            title_style: TextStyle::LabelTitleMain,
            right_button: None,
            left_button: None,
            right_button_msg: HeaderMsg::Cancelled,
            left_button_msg: HeaderMsg::Cancelled,
            anim: None,
        }
    }

    /// A header showing `title`, without buttons.
    pub fn new(title: TString<'static>) -> (r: Self)
        ensures
            r == Header::new_spec(title),
    {
        Header {
            area: Rect::zero(),
            title: Label::new(title, Alignment::Start, TextStyle::LabelTitleMain).vertically_centered(),
            title_style: TextStyle::LabelTitleMain,
            right_button: None,
            left_button: None,
            right_button_msg: HeaderMsg::Cancelled,
            left_button_msg: HeaderMsg::Cancelled,
            anim: None,
        }
    }

    pub fn with_text_style(self, style: TextStyle) -> (r: Self)
        ensures
            r == (Header { title_style: style, title: Label { style, ..self.title }, ..self }),
    {
        let mut this = self;
        this.title_style = style;
        this.title = this.title.styled(style);
        this
    }

    /// Adds an icon button on the right; its touch area reaches beyond it.
    pub fn with_right_button(self, button: Button, msg: HeaderMsg) -> (r: Self)
        requires
            button.content is Icon,
        ensures
            r == (Header {
                right_button: Some(Button { touch_expand: Some(Insets { top: 32, right: 32, bottom: 32, left: 32 }), ..button }),
                right_button_msg: msg,
                ..self
            }),
    {
        let mut this = self;
        let touch_area = Insets::uniform(BUTTON_EXPAND_BORDER);
        this.right_button = Some(button.with_expanded_touch_area(touch_area));
        this.right_button_msg = msg;
        this
    }

    /// Adds an icon button on the left; its touch area reaches beyond it.
    pub fn with_left_button(self, button: Button, msg: HeaderMsg) -> (r: Self)
        requires
            button.content is Icon,
        ensures
            r == (Header {
                left_button: Some(Button { touch_expand: Some(Insets { top: 32, right: 32, bottom: 32, left: 32 }), ..button }),
                left_button_msg: msg,
                ..self
            }),
    {
        let mut this = self;
        let touch_area = Insets::uniform(BUTTON_EXPAND_BORDER);
        this.left_button = Some(button.with_expanded_touch_area(touch_area));
        this.left_button_msg = msg;
        this
    }

    /// Shows `icon` on the left, as a button that does not react.
    pub fn with_icon(self, icon: Icon, color: Color) -> (r: Self)
        ensures
            r == (Header {
                left_button: Some(Button {
                    enabled: false,
                    touch_expand: Some(Insets { top: 32, right: 32, bottom: 32, left: 32 }),
                    ..Button::new_spec(ButtonContent::Icon(icon))
                }),
                left_button_msg: HeaderMsg::Cancelled,
                ..self
            }),
    {
        let left_button = Button::with_icon(icon).initially_enabled(false).styled(ButtonStyleSheet::Default);
        self.with_left_button(left_button, HeaderMsg::Cancelled)
    }

    /// Where `place` puts the right button, the left button and the title in
    /// `bounds`, given the width of the left button's icon.
    pub open spec fn spec_layout(self, bounds: Rect, left_icon_width: int) -> (Rect, Rect, Rect) {
        let (rest, right_area) = if self.right_button is Some {
            bounds.spec_split_right(HEADER_BUTTON_WIDTH as int)
        } else {
            (bounds, bounds)
        };
        let w = match self.left_button {
            Some(b) => if b.content is Icon { left_icon_width } else { 0 },
            None => 0,
        };
        let (left_rest, title_area) = if self.left_button is Some {
            rest.spec_split_left(HEADER_MARGIN_LEFT + w + HEADER_MARGIN_RIGHT)
        } else {
            (rest, rest)
        };
        (right_area, left_rest.spec_split_center(w).1, title_area)
    }

    /// Lays the header out in `bounds`: the right button takes the right
    /// end, the left button's icon sits between margins at the left end, and
    /// the title takes the rest; `left_icon_width` is the width of the icon
    /// that the left button shows.
    pub fn place(&mut self, bounds: Rect, left_icon_width: i16) -> (r: Rect)
        requires
            bounds.wf(),
            bounds.spec_height() == HEADER_HEIGHT,
            0 <= left_icon_width <= i16::MAX - HEADER_MARGIN_LEFT - HEADER_MARGIN_RIGHT,
        ensures
            r == bounds,
            header_placed(*old(self), *final(self), bounds, left_icon_width as int),
    {
        let rest = match &mut self.right_button {
            Some(b) => {
                let (rest, button_area) = bounds.split_right(HEADER_BUTTON_WIDTH);
                b.place(button_area);
                rest
            },
            None => bounds,
        };
        let title_area = match &mut self.left_button {
            Some(b) => {
                let left_button_width: i16 = match b.content() {
                    ButtonContent::Icon(_) => left_icon_width,
                    _ => 0,
                };
                let (rest, title_area) = rest.split_left(
                    HEADER_MARGIN_LEFT + left_button_width + HEADER_MARGIN_RIGHT,
                );
                b.place(rest.split_center(left_button_width).1);
                title_area
            },
            None => rest,
        };
        self.title.place(title_area);
        self.area = bounds;
        bounds
    }

    /// The parts painted, in order: the buttons that are present, right
    /// first, then the title; all of them shifted by the title animation.
    pub fn render(&self) -> (r: Vec<HeaderPart>)
        ensures
            r@ == (if self.right_button is Some { seq![HeaderPart::RightButton] } else { Seq::empty() }) + (
            if self.left_button is Some { seq![HeaderPart::LeftButton] } else { Seq::empty() }) + seq![
                HeaderPart::Title,
            ],
    {
        let mut parts: Vec<HeaderPart> = Vec::new();
        if self.right_button.is_some() {
            parts.push(HeaderPart::RightButton);
        }
        if self.left_button.is_some() {
            parts.push(HeaderPart::LeftButton);
        }
        parts.push(HeaderPart::Title);
        proof {
            let expected = (if self.right_button is Some { seq![HeaderPart::RightButton] } else { Seq::empty() }) + (
            if self.left_button is Some { seq![HeaderPart::LeftButton] } else { Seq::empty() }) + seq![HeaderPart::Title];
            assert(parts@ =~= expected);
        }
        parts
    }

    pub fn update_title(&mut self, ctx: &mut EventCtx, title: TString<'static>)
        ensures
            *final(self) == (Header { title: Label { text: title, ..old(self).title }, ..*old(self) }),
            final(ctx).paint_requested,
            ctx_paint_only(*old(ctx), *final(ctx)),
    {
        self.title.set_text(title);
        ctx.request_paint();
    }

    /// Whether the header's report for an event with these button reports
    /// comes from its right button: the right button is present and clicked,
    /// and no present left button is clicked (that one would be reported).
    pub open spec fn spec_reports_from_right(self, left_msg: Option<ButtonMsg>, right_msg: Option<ButtonMsg>) -> bool {
        &&& self.right_button is Some
        &&& right_msg == Some(ButtonMsg::Clicked)
        &&& !(self.left_button is Some && left_msg == Some(ButtonMsg::Clicked))
    }

    pub fn reports_from_right(&self, left_msg: Option<ButtonMsg>, right_msg: Option<ButtonMsg>) -> (r: bool)
        ensures
            r == self.spec_reports_from_right(left_msg, right_msg),
    {
        self.right_button.is_some() && right_msg == Some(ButtonMsg::Clicked) && !(self.left_button.is_some()
            && left_msg == Some(ButtonMsg::Clicked))
    }

    /// Handles one event, given what the left and right buttons report for
    /// it: attaching starts the title animation, which asks for frames while
    /// it runs; a click on a present button reports that button's message,
    /// the left one first.
    pub fn event(
        &mut self,
        ctx: &mut EventCtx,
        event: Event,
        left_msg: Option<ButtonMsg>,
        right_msg: Option<ButtonMsg>,
        now_ms: u64,
        animation_disabled: bool,
    ) -> (r: Option<HeaderMsg>)
        ensures
            r == if old(self).left_button is Some && left_msg == Some(ButtonMsg::Clicked) {
                Some(old(self).left_button_msg)
            } else if old(self).right_button is Some && right_msg == Some(ButtonMsg::Clicked) {
                Some(old(self).right_button_msg)
            } else {
                None
            },
            match old(self).anim {
                Some(a) => if event == Event::Attach {
                    &&& *final(self) == (Header { anim: Some(AttachAnimation { timer: Stopwatch { started_at: Some(now_ms) } }), ..*old(self) })
                    &&& final(ctx).paint_requested && final(ctx).anim_frame_requested
                    &&& final(ctx).next_token == old(ctx).next_token
                    &&& final(ctx).timers@ == old(ctx).timers@
                } else {
                    &&& *final(self) == *old(self)
                    &&& if event == Event::Timer(TimerToken { id: 1 }) && !animation_disabled
                        && a.timer.spec_is_running_within(ANIMATION_TIME_MS, now_ms) {
                        &&& final(ctx).paint_requested && final(ctx).anim_frame_requested
                        &&& final(ctx).next_token == old(ctx).next_token
                        &&& final(ctx).timers@ == old(ctx).timers@
                    } else {
                        *final(ctx) == *old(ctx)
                    }
                },
                None => *final(self) == *old(self) && *final(ctx) == *old(ctx),
            },
    {
        match &mut self.anim {
            Some(anim) => {
                if event == Event::Attach {
                    anim.start(now_ms);
                    ctx.request_paint();
                    ctx.request_anim_frame();
                }
                if event == Event::Timer(anim_frame_timer()) {
                    if anim.is_active(now_ms, animation_disabled) {
                        ctx.request_anim_frame();
                        ctx.request_paint();
                    }
                }
            },
            None => {},
        }

        if self.left_button.is_some() && left_msg == Some(ButtonMsg::Clicked) {
            return Some(self.left_button_msg);
        }
        if self.right_button.is_some() && right_msg == Some(ButtonMsg::Clicked) {
            return Some(self.right_button_msg);
        }
        None
    }
}

} // verus!
