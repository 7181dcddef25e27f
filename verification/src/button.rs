use vstd::prelude::*;
use crate::component::{ctx_paint_only, EventCtx};
use crate::geometry::{Insets, Rect};

verus! {

/// The icons the components use.
#[derive(Clone, Copy, PartialEq, Eq, Structural, Debug)]
pub enum Icon {
    ChevronLeft,
    Cross,
    Checkmark,
    Delete,
    Asterisk,
    SpecialChars,
    Info,
    DashVertical,
}

/// Theme colors.
#[derive(Clone, Copy, PartialEq, Eq, Structural, Debug)]
pub enum Color {
    Bg,
    GreySuperDark,
    GreyExtraDark,
    GreyDark,
    Grey,
    GreyLight,
    White,
}

/// Horizontal alignment of text.
#[derive(Clone, Copy, PartialEq, Eq, Structural, Debug)]
pub enum Alignment {
    Start,
    Center,
    End,
}

/// The button style sheets of the theme.
#[derive(Clone, Copy, PartialEq, Eq, Structural, Debug)]
pub enum ButtonStyleSheet {
    Default,
    Keyboard,
    KeyboardNumeric,
    KeyboardCancel,
    KeyboardConfirm,
    KeyboardNext,
    SelectWord,
}

/// The text styles of the theme.
#[derive(Clone, Copy, PartialEq, Eq, Structural, Debug)]
pub enum TextStyle {
    LabelTitleMain,
    TextSmall,
    TextMedium,
    TextNormal,
    TextMonoLight,
}

/// Translated texts the components show.
#[derive(Clone, Copy, PartialEq, Eq, Structural, Debug)]
pub enum TR {
    PassphraseTitleEnter,
    ShareWordsFirstWord,
    ShareWordsWordMultipleTimes,
}

/// A text: either a string or a translation key.
#[derive(Clone, Copy, Debug)]
pub enum TString<'a> {
    Str(&'a str),
    Tr(TR),
}

impl<'a> TString<'a> {
    pub fn empty() -> (r: Self)
        ensures
            r matches TString::Str(s) && s@.len() == 0,
    {
        let s: &'a str = "";
        proof {
            reveal_strlit("");
        }
        TString::Str(s)
    }

    pub fn from_translation(tr: TR) -> (r: Self)
        ensures
            r matches TString::Tr(t) && t == tr,
    {
        TString::Tr(tr)
    }
}

/// What a button shows.
#[derive(Clone, Copy, Debug)]
pub enum ButtonContent {
    Empty,
    Text(&'static str),
    Icon(Icon),
    IconAndText(&'static str, Icon),
}

/// What a button reports for an event.
#[derive(Clone, Copy, PartialEq, Eq, Structural, Debug)]
pub enum ButtonMsg {
    Pressed,
    Released,
    Clicked,
    LongPressed,
}

/// A push button: what it shows, how it looks and whether it reacts.
#[derive(Clone, Copy, Debug)]
pub struct Button {
    pub content: ButtonContent,
    pub styles: ButtonStyleSheet,
    pub enabled: bool,
    pub radius: Option<u8>,
    pub long_press_ms: Option<u32>,
    pub text_align: Alignment,
    pub touch_expand: Option<Insets>,
    pub area: Rect,
}

impl Button {
    pub fn new(content: ButtonContent) -> (r: Self)
        ensures
            r.content == content,
            r.styles == ButtonStyleSheet::Default,
            r.enabled,
            r.radius is None,
            r.long_press_ms is None,
            r.text_align == Alignment::Start,
            r.touch_expand is None,
            r.area == (Rect { x0: 0, y0: 0, x1: 0, y1: 0 }),
    {
        Button {
            content,
            styles: ButtonStyleSheet::Default,
            enabled: true,
            radius: None,
            long_press_ms: None,
            text_align: Alignment::Start,
            touch_expand: None,
            area: Rect::zero(),
        }
    }

    pub fn with_text(text: &'static str) -> (r: Self)
        ensures
            r == Button::new_spec(ButtonContent::Text(text)),
    {
        Self::new(ButtonContent::Text(text))
    }

    pub fn with_icon(icon: Icon) -> (r: Self)
        ensures
            r == Button::new_spec(ButtonContent::Icon(icon)),
    {
        Self::new(ButtonContent::Icon(icon))
    }

    pub fn empty() -> (r: Self)
        ensures
            r == Button::new_spec(ButtonContent::Empty),
    {
        Self::new(ButtonContent::Empty)
    }

    /// The button `new` makes.
    pub open spec fn new_spec(content: ButtonContent) -> Button {
        Button {
            content,
            styles: ButtonStyleSheet::Default,
            enabled: true,
            radius: None,
            long_press_ms: None,
            text_align: Alignment::Start,
            touch_expand: None,
            area: Rect { x0: 0, y0: 0, x1: 0, y1: 0 },
        }
    }

    pub fn styled(self, styles: ButtonStyleSheet) -> (r: Self)
        ensures
            r == (Button { styles, ..self }),
    {
        Button { styles, ..self }
    }

    pub fn with_radius(self, radius: u8) -> (r: Self)
        ensures
            r == (Button { radius: Some(radius), ..self }),
    {
        Button { radius: Some(radius), ..self }
    }

    pub fn initially_enabled(self, enabled: bool) -> (r: Self)
        ensures
            r == (Button { enabled, ..self }),
    {
        Button { enabled, ..self }
    }

    pub fn with_long_press(self, duration_ms: u32) -> (r: Self)
        ensures
            r == (Button { long_press_ms: Some(duration_ms), ..self }),
    {
        Button { long_press_ms: Some(duration_ms), ..self }
    }

    pub fn with_text_align(self, align: Alignment) -> (r: Self)
        ensures
            r == (Button { text_align: align, ..self }),
    {
        Button { text_align: align, ..self }
    }

    pub fn with_expanded_touch_area(self, insets: Insets) -> (r: Self)
        ensures
            r == (Button { touch_expand: Some(insets), ..self }),
    {
        Button { touch_expand: Some(insets), ..self }
    }

    pub fn set_expanded_touch_area(&mut self, insets: Insets)
        ensures
            *final(self) == (Button { touch_expand: Some(insets), ..*old(self) }),
    {
        self.touch_expand = Some(insets);
    }

    pub fn set_content(&mut self, content: ButtonContent)
        ensures
            *final(self) == (Button { content, ..*old(self) }),
    {
        self.content = content;
    }

    pub fn set_stylesheet(&mut self, styles: ButtonStyleSheet)
        ensures
            *final(self) == (Button { styles, ..*old(self) }),
    {
        self.styles = styles;
    }

    pub fn content(&self) -> (r: &ButtonContent)
        ensures
            *r == self.content,
    {
        &self.content
    }

    pub fn is_enabled(&self) -> (r: bool)
        ensures
            r == self.enabled,
    {
        self.enabled
    }

    /// Makes the button react; a repaint is requested when that changes it.
    pub fn enable(&mut self, ctx: &mut EventCtx)
        ensures
            *final(self) == (Button { enabled: true, ..*old(self) }),
            final(ctx).paint_requested == (old(ctx).paint_requested || !old(self).enabled),
            ctx_paint_only(*old(ctx), *final(ctx)),
    {
        if !self.enabled {
            self.enabled = true;
            ctx.request_paint();
        }
    }

    /// Makes the button ignore touches; a repaint is requested when that changes it.
    pub fn disable(&mut self, ctx: &mut EventCtx)
        ensures
            *final(self) == (Button { enabled: false, ..*old(self) }),
            final(ctx).paint_requested == (old(ctx).paint_requested || old(self).enabled),
            ctx_paint_only(*old(ctx), *final(ctx)),
    {
        if self.enabled {
            self.enabled = false;
            ctx.request_paint();
        }
    }

    pub fn place(&mut self, bounds: Rect) -> (r: Rect)
        ensures
            *final(self) == (Button { area: bounds, ..*old(self) }),
            r == bounds,
    {
        self.area = bounds;
        bounds
    }
}

/// A component that can be hidden; hidden, it is painted over with `bg_color`.
pub struct Maybe<T> {
    pub inner: T,
    pub visible: bool,
    pub bg_color: Color,
}

impl<T> Maybe<T> {
    pub fn new(bg_color: Color, inner: T, visible: bool) -> (r: Self)
        ensures
            r == (Maybe { inner, visible, bg_color }),
    {
        Maybe { inner, visible, bg_color }
    }

    pub fn hidden(bg_color: Color, inner: T) -> (r: Self)
        ensures
            r == (Maybe { inner, visible: false, bg_color }),
    {
        Maybe { inner, visible: false, bg_color }
    }

    pub fn is_visible(&self) -> (r: bool)
        ensures
            r == self.visible,
    {
        self.visible
    }

    pub fn inner(&self) -> (r: &T)
        ensures
            *r == self.inner,
    {
        &self.inner
    }

    pub fn inner_mut(&mut self) -> (r: &mut T)
        ensures
            *r == old(self).inner,
            *final(self) == (Maybe { inner: *final(r), ..*old(self) }),
    {
        &mut self.inner
    }

    /// Shows or hides the component; a repaint is requested when that changes it.
    pub fn show_if(&mut self, ctx: &mut EventCtx, show: bool)
        ensures
            final(self).visible == show,
            final(self).inner == old(self).inner,
            final(self).bg_color == old(self).bg_color,
            final(ctx).paint_requested == (old(ctx).paint_requested || old(self).visible != show),
            ctx_paint_only(*old(ctx), *final(ctx)),
    {
        if self.visible != show {
            self.visible = show;
            ctx.request_paint();
        }
    }

    pub fn show(&mut self, ctx: &mut EventCtx)
        ensures
            final(self).visible,
            final(self).inner == old(self).inner,
            final(self).bg_color == old(self).bg_color,
            final(ctx).paint_requested == (old(ctx).paint_requested || !old(self).visible),
            ctx_paint_only(*old(ctx), *final(ctx)),
    {
        self.show_if(ctx, true)
    }

    pub fn conceal(&mut self, ctx: &mut EventCtx)
        ensures
            !final(self).visible,
            final(self).inner == old(self).inner,
            final(self).bg_color == old(self).bg_color,
            final(ctx).paint_requested == (old(ctx).paint_requested || old(self).visible),
            ctx_paint_only(*old(ctx), *final(ctx)),
    {
        self.show_if(ctx, false)
    }
}

/// A text label.
#[derive(Clone, Copy, Debug)]
pub struct Label<'a> {
    pub text: TString<'a>,
    pub align: Alignment,
    pub style: TextStyle,
    pub vertically_centered: bool,
    pub area: Rect,
}

impl<'a> Label<'a> {
    /// The label `new` makes.
    pub open spec fn new_spec(text: TString<'a>, align: Alignment, style: TextStyle) -> Label<'a> {
        Label { text, align, style, vertically_centered: false, area: Rect { x0: 0, y0: 0, x1: 0, y1: 0 } }
    }

    pub fn new(text: TString<'a>, align: Alignment, style: TextStyle) -> (r: Self)
        ensures
            r == Label::new_spec(text, align, style),
    {
        Label { text, align, style, vertically_centered: false, area: Rect::zero() }
    }

    pub fn left_aligned(text: TString<'a>, style: TextStyle) -> (r: Self)
        ensures
            r == Label::new_spec(text, Alignment::Start, style),
    {
        Self::new(text, Alignment::Start, style)
    }

    pub fn right_aligned(text: TString<'a>, style: TextStyle) -> (r: Self)
        ensures
            r == Label::new_spec(text, Alignment::End, style),
    {
        Self::new(text, Alignment::End, style)
    }

    pub fn centered(text: TString<'a>, style: TextStyle) -> (r: Self)
        ensures
            r == Label::new_spec(text, Alignment::Center, style),
    {
        Self::new(text, Alignment::Center, style)
    }

    pub fn vertically_centered(self) -> (r: Self)
        ensures
            r == (Label { vertically_centered: true, ..self }),
    {
        Label { vertically_centered: true, ..self }
    }

    pub fn styled(self, style: TextStyle) -> (r: Self)
        ensures
            r == (Label { style, ..self }),
    {
        Label { style, ..self }
    }

    pub fn set_text(&mut self, text: TString<'a>)
        ensures
            *final(self) == (Label { text, ..*old(self) }),
    {
        self.text = text;
    }

    pub fn place(&mut self, bounds: Rect) -> (r: Rect)
        ensures
            *final(self) == (Label { area: bounds, ..*old(self) }),
            r == bounds,
    {
        self.area = bounds;
        bounds
    }
}

} // verus!
