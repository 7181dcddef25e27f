use vstd::prelude::*;
use crate::button::{Button, Icon, TString, TR};
use crate::component::{Event, EventCtx};
use crate::geometry::{div_trunc, fits_i16, i32_div_trunc, Offset, Rect};
use crate::header::{header_placed, Header, HeaderMsg, HEADER_HEIGHT, HEADER_MARGIN_LEFT, HEADER_MARGIN_RIGHT};
use crate::pager::{last_page, Pager};
use crate::share_words::{occurs_before, word_vec_items, ShareWords};

verus! {

/// What a hint shows: an instruction, possibly highlighted in green, or a
/// page counter.
#[derive(Clone, Copy, Debug)]
pub enum HintContent {
    Instruction { text: TString<'static>, icon: Option<Icon> },
    InstructionGreen { text: TString<'static>, icon: Option<Icon> },
    PageCounter { pager: Pager },
}

/// A hint shown below the content, and where it is placed.
#[derive(Clone, Copy, Debug)]
pub struct Hint {
    pub content: HintContent,
    pub area: Rect,
}

impl Hint {
    pub fn new_instruction(text: TString<'static>, icon: Option<Icon>) -> (r: Self)
        ensures
            r.content matches HintContent::Instruction { text: t, icon: i } && t == text && i == icon,
            r.area == (Rect { x0: 0, y0: 0, x1: 0, y1: 0 }),
    {
        Hint { content: HintContent::Instruction { text, icon }, area: Rect::zero() }
    }

    pub fn new_instruction_green(text: TString<'static>, icon: Option<Icon>) -> (r: Self)
        ensures
            r.content matches HintContent::InstructionGreen { text: t, icon: i } && t == text && i == icon,
            r.area == (Rect { x0: 0, y0: 0, x1: 0, y1: 0 }),
    {
        Hint { content: HintContent::InstructionGreen { text, icon }, area: Rect::zero() }
    }

    pub fn new_page_counter() -> (r: Self)
        ensures
            r.content matches HintContent::PageCounter { pager } && pager == (Pager { current: 0, total: 1 }),
            r.area == (Rect { x0: 0, y0: 0, x1: 0, y1: 0 }),
    {
        Hint { content: HintContent::PageCounter { pager: Pager::single_page() }, area: Rect::zero() }
    }

    /// A page counter follows `pager`; other hints stay.
    pub fn update(&mut self, pager: Pager)
        ensures
            old(self).content is PageCounter ==> final(self).content == (HintContent::PageCounter { pager }),
            !(old(self).content is PageCounter) ==> final(self).content == old(self).content,
            final(self).area == old(self).area,
    {
        if let HintContent::PageCounter { .. } = self.content {
            self.content = HintContent::PageCounter { pager };
        }
    }

    pub fn place(&mut self, bounds: Rect) -> (r: Rect)
        ensures
            *final(self) == (Hint { area: bounds, ..*old(self) }),
            r == bounds,
    {
        self.area = bounds;
        bounds
    }
}

/// What the action bar reports.
#[derive(Clone, Copy, PartialEq, Eq, Structural, Debug)]
pub enum ActionBarMsg {
    Cancelled,
    Confirmed,
    Prev,
    Next,
}

/// The bar of buttons at the bottom of a screen, following the screen's pages.
#[derive(Clone, Copy, Debug)]
pub struct ActionBar {
    pub right_button: Button,
    pub pager: Pager,
    pub area: Rect,
}

impl ActionBar {
    /// A bar with a single button.
    pub fn new_single(button: Button) -> (r: Self)
        ensures
            r.right_button == button,
            r.pager == (Pager { current: 0, total: 1 }),
            r.area == (Rect { x0: 0, y0: 0, x1: 0, y1: 0 }),
    {
        ActionBar { right_button: button, pager: Pager::single_page(), area: Rect::zero() }
    }

    /// Follows `pager`.
    pub fn update(&mut self, pager: Pager)
        ensures
            *final(self) == (ActionBar { pager, ..*old(self) }),
    {
        self.pager = pager;
    }

    pub fn place(&mut self, bounds: Rect) -> (r: Rect)
        ensures
            *final(self) == (ActionBar { area: bounds, ..*old(self) }),
            r == bounds,
    {
        self.area = bounds;
        bounds
    }
}

/// What the share words screen reports.
#[derive(Clone, Copy, PartialEq, Eq, Structural, Debug)]
pub enum ShareWordsScreenMsg {
    Cancelled,
    Confirmed,
    Menu,
}

/// The parts of the share words screen, as painted.
#[derive(Clone, Copy, PartialEq, Eq, Structural, Debug)]
pub enum ShareWordsScreenPart {
    Header,
    Content,
    Hint,
    ActionBar,
}

/// The measures the screen was laid out with: the height of the action bar,
/// the height of the hint and the width of the header's left icon.
#[derive(Clone, Copy, PartialEq, Eq, Structural, Debug)]
pub struct ScreenMeasures {
    pub action_bar_height: i16,
    pub hint_height: i16,
    pub left_icon_width: i16,
}

/// Full-screen component showing the words of a share.
pub struct ShareWordsScreen<'a> {
    pub header: Header,
    pub content: ShareWords<'a>,
    pub hint: Option<Hint>,
    pub action_bar: ActionBar,
    /// Common area for the content and hint
    pub area: Rect,
    /// The measures of the last layout, once the screen has been placed
    pub measures: Option<ScreenMeasures>,
}

/// Height of the area in which the word is shown.
pub const WORD_AREA_HEIGHT: i16 = 120;

/// Width of the area in which the word is shown.
pub const WORD_AREA_WIDTH: i16 = 330;

/// Distance of the word area from the top of the content area.
pub const WORD_Y_OFFSET: i16 = 76;

/// The areas of the share words screen in `bounds`: the header on top, the
/// action bar at the bottom (`action_bar_height` high), the hint above it when
/// there is one (`hint_height` high), and the word area centered horizontally
/// at a fixed distance below the header; in that order.
pub open spec fn spec_screen_layout(bounds: Rect, action_bar_height: int, hint_height: Option<int>) -> (
    Rect,
    Rect,
    Rect,
    Rect,
) {
    let (header_area, rest) = bounds.spec_split_top(HEADER_HEIGHT as int);
    let (rest, action_bar_area) = rest.spec_split_bottom(action_bar_height);
    let (content_area, hint_area) = match hint_height {
        Some(h) => rest.spec_split_bottom(h),
        None => (rest, rest),
    };
    let x0 = content_area.x0 + div_trunc(content_area.spec_width() - WORD_AREA_WIDTH, 2);
    let y0 = content_area.y0 + WORD_Y_OFFSET;
    let word_area = Rect {
        x0: x0 as i16,
        y0: y0 as i16,
        x1: (x0 + WORD_AREA_WIDTH) as i16,
        y1: (y0 + WORD_AREA_HEIGHT) as i16,
    };
    (header_area, hint_area, word_area, action_bar_area)
}

/// `bounds` can hold the screen: the header fits, and the word area, centered
/// below it, lies within the coordinates the screen can use.
pub open spec fn placeable(bounds: Rect, left_icon_width: int) -> bool {
    &&& bounds.wf()
    &&& bounds.spec_height() >= HEADER_HEIGHT
    &&& 0 <= left_icon_width <= i16::MAX - HEADER_MARGIN_LEFT - HEADER_MARGIN_RIGHT
    &&& fits_i16(bounds.x0 + div_trunc(bounds.x1 - bounds.x0 - WORD_AREA_WIDTH, 2))
    &&& fits_i16(bounds.x0 + div_trunc(bounds.x1 - bounds.x0 - WORD_AREA_WIDTH, 2) + WORD_AREA_WIDTH)
    &&& fits_i16(bounds.y0 + HEADER_HEIGHT + WORD_Y_OFFSET + WORD_AREA_HEIGHT)
}

/// The hint shown on the current page of `content`, before it is placed.
pub open spec fn page_hint(content: ShareWords) -> Hint {
    let pager = content.pager;
    Hint {
        content: if pager.current == 0 {
            HintContent::Instruction { text: TString::Tr(TR::ShareWordsFirstWord), icon: Some(Icon::Info) }
        } else if pager.current < word_vec_items(content.share_words).len() && occurs_before(
            word_vec_items(content.share_words),
            pager.current as int,
        ) {
            HintContent::InstructionGreen { text: TString::Tr(TR::ShareWordsWordMultipleTimes), icon: Some(Icon::Info) }
        } else {
            HintContent::PageCounter { pager }
        },
        area: Rect { x0: 0, y0: 0, x1: 0, y1: 0 },
    }
}

impl<'a> ShareWordsScreen<'a> {
    pub open spec fn wf(self) -> bool {
        &&& self.content.wf()
        &&& self.measures matches Some(m) ==> placeable(self.area, m.left_icon_width as int)
    }

    /// What laying `self` out again in its own area, with the measures it was
    /// last placed with, makes of it; a screen never placed stays as it is.
    pub open spec fn placed_again(self, after: Self) -> bool {
        &&& after.area == self.area
        &&& after.measures == self.measures
        &&& match self.measures {
            Some(m) => {
                let (header_area, hint_area, word_area, action_bar_area) = spec_screen_layout(
                    self.area,
                    m.action_bar_height as int,
                    if self.hint is Some { Some(m.hint_height as int) } else { None },
                );
                &&& header_placed(self.header, after.header, header_area, m.left_icon_width as int)
                &&& after.hint == match self.hint {
                    Some(h) => Some(Hint { area: hint_area, ..h }),
                    None => None,
                }
                &&& after.content == (ShareWords { area: word_area, ..self.content })
                &&& after.action_bar == (ActionBar { area: action_bar_area, ..self.action_bar })
            },
            None => {
                &&& after.header == self.header
                &&& after.hint == self.hint
                &&& after.content == self.content
                &&& after.action_bar == self.action_bar
            },
        }
    }

    /// After a page change: the header, hint, word and action bar lie where
    /// laying `self` out again puts them (the hint being shown), or, for a
    /// screen never placed, the header stays, the new hint has no area yet,
    /// and the word and the action bar keep theirs.
    pub open spec fn relaid_for_page(self, after: Self) -> bool {
        &&& after.area == self.area
        &&& after.measures == self.measures
        &&& after.action_bar.right_button == self.action_bar.right_button
        &&& match self.measures {
            Some(m) => {
                let (header_area, hint_area, word_area, action_bar_area) = spec_screen_layout(
                    self.area,
                    m.action_bar_height as int,
                    Some(m.hint_height as int),
                );
                &&& header_placed(self.header, after.header, header_area, m.left_icon_width as int)
                &&& after.hint matches Some(h) && h.area == hint_area
                &&& after.content.area == word_area
                &&& after.action_bar.area == action_bar_area
            },
            None => {
                &&& after.header == self.header
                &&& after.hint matches Some(h) && h.area == (Rect { x0: 0, y0: 0, x1: 0, y1: 0 })
                &&& after.content.area == self.content.area
                &&& after.action_bar.area == self.action_bar.area
            },
        }
    }

    pub fn new(share_words_vec: heapless::Vec<&'a str, 33>) -> (r: Self)
        ensures
            r.wf(),
            word_vec_items(r.content.share_words) == word_vec_items(share_words_vec),
            r.content.pager == (Pager { current: 0, total: word_vec_items(share_words_vec).len() as u16 }),
            r.hint is None,
            r.header == Header::new_spec(r.header.title.text),
            r.header.title.text matches TString::Str(s) && s@.len() == 0,
            r.action_bar.pager == (Pager { current: 0, total: 1 }),
            r.measures is None,
    {
        ShareWordsScreen {
            header: Header::new(TString::empty()),
            content: ShareWords::new(share_words_vec),
            hint: None,
            action_bar: ActionBar::new_single(Button::empty()),
            area: Rect::zero(),
            measures: None,
        }
    }

    pub fn with_header(self, header: Header) -> (r: Self)
        ensures
            r == (ShareWordsScreen { header, ..self }),
    {
        let mut this = self;
        this.header = header;
        this
    }

    pub fn with_hint(self, hint: Hint) -> (r: Self)
        ensures
            r == (ShareWordsScreen { hint: Some(hint), ..self }),
    {
        let mut this = self;
        this.hint = Some(hint);
        this
    }

    pub fn with_action_bar(self, action_bar: ActionBar) -> (r: Self)
        ensures
            r == (ShareWordsScreen { action_bar, ..self }),
    {
        let mut this = self;
        this.action_bar = action_bar;
        this
    }

    /// The parts painted, in order: the header, the word, the hint if there
    /// is one, and the action bar.
    pub fn render(&self) -> (r: Vec<ShareWordsScreenPart>)
        ensures
            r@ == seq![ShareWordsScreenPart::Header, ShareWordsScreenPart::Content] + (if self.hint is Some {
                seq![ShareWordsScreenPart::Hint]
            } else {
                Seq::empty()
            }) + seq![ShareWordsScreenPart::ActionBar],
    {
        let mut parts: Vec<ShareWordsScreenPart> = Vec::new();
        parts.push(ShareWordsScreenPart::Header);
        parts.push(ShareWordsScreenPart::Content);
        if self.hint.is_some() {
            parts.push(ShareWordsScreenPart::Hint);
        }
        parts.push(ShareWordsScreenPart::ActionBar);
        proof {
            let expected = seq![ShareWordsScreenPart::Header, ShareWordsScreenPart::Content] + (if self.hint is Some {
                seq![ShareWordsScreenPart::Hint]
            } else {
                Seq::empty()
            }) + seq![ShareWordsScreenPart::ActionBar];
            assert(parts@ =~= expected);
        }
        parts
    }

    /// Lays the screen out in `bounds` as `spec_screen_layout` says, given the
    /// height of the action bar, the height of the hint and the width of the
    /// header's left icon.
    pub fn place(&mut self, bounds: Rect, action_bar_height: i16, hint_height: i16, left_icon_width: i16) -> (r: Rect)
        requires
            placeable(bounds, left_icon_width as int),
        ensures
            r == bounds,
            final(self).measures == Some(ScreenMeasures { action_bar_height, hint_height, left_icon_width }),
            ({
                let (header_area, hint_area, word_area, action_bar_area) = spec_screen_layout(
                    bounds,
                    action_bar_height as int,
                    if old(self).hint is Some { Some(hint_height as int) } else { None },
                );
                &&& final(self).area == bounds
                &&& header_placed(old(self).header, final(self).header, header_area, left_icon_width as int)
                &&& final(self).hint == match old(self).hint {
                    Some(h) => Some(Hint { area: hint_area, ..h }),
                    None => None,
                }
                &&& final(self).content == (ShareWords { area: word_area, ..old(self).content })
                &&& final(self).action_bar == (ActionBar { area: action_bar_area, ..old(self).action_bar })
            }),
    {
        self.area = bounds;
        let (header_area, rest) = bounds.split_top(HEADER_HEIGHT);
        let (rest, action_bar_area) = rest.split_bottom(action_bar_height);
        let content_area = match &mut self.hint {
            Some(hint) => {
                let (rest, hint_area) = rest.split_bottom(hint_height);
                hint.place(hint_area);
                rest
            },
            None => rest,
        };

        // Use constant y offset for the word area because the height is floating
        let dx: i32 = i32_div_trunc(content_area.width() as i32 - WORD_AREA_WIDTH as i32, 2);
        let top_left = content_area.top_left().ofs(Offset::new(dx as i16, WORD_Y_OFFSET));
        let content_area = Rect::from_top_left_and_size(top_left, Offset::new(WORD_AREA_WIDTH, WORD_AREA_HEIGHT));

        self.header.place(header_area, left_icon_width);
        self.content.place(content_area);
        self.action_bar.place(action_bar_area);
        self.measures = Some(ScreenMeasures { action_bar_height, hint_height, left_icon_width });
        bounds
    }

    /// Shows the hint for the current page, moves the action bar to it, and
    /// lays the screen out again in its area.
    fn on_page_change(&mut self)
        requires
            old(self).wf(),
        ensures
            final(self).wf(),
            (ShareWordsScreen {
                hint: Some(page_hint(old(self).content)),
                action_bar: ActionBar { pager: old(self).content.pager, ..old(self).action_bar },
                ..*old(self)
            }).placed_again(*final(self)),
    {
        // Update the hint based on the current page
        if self.content.pager().is_first() {
            self.hint = Some(
                Hint::new_instruction(TString::from_translation(TR::ShareWordsFirstWord), Some(Icon::Info)),
            );
        } else if self.content.is_repeated() {
            self.hint = Some(
                Hint::new_instruction_green(
                    TString::from_translation(TR::ShareWordsWordMultipleTimes),
                    Some(Icon::Info),
                ),
            );
        } else {
            let mut hint = Hint::new_page_counter();
            hint.update(self.content.pager());
            self.hint = Some(hint);
        }
        self.action_bar.update(self.content.pager());
        if let Some(m) = self.measures {
            let area = self.area;
            self.place(area, m.action_bar_height, m.hint_height, m.left_icon_width);
        }
    }

    /// Handles one event, given what the header and the action bar report for
    /// it: attaching shows the hint for the current page and lays the screen
    /// out again; the header's cancel and info report cancelling and the
    /// menu; the action bar's cancel and confirm are reported, and its
    /// previous and next change the page, with the same follow-up.
    pub fn event(
        &mut self,
        ctx: &mut EventCtx,
        event: Event,
        header_msg: Option<HeaderMsg>,
        action_bar_msg: Option<ActionBarMsg>,
    ) -> (r: Option<ShareWordsScreenMsg>)
        requires
            old(self).wf(),
            old(self).content.pager.total > 0,
        ensures
            final(self).wf(),
            final(self).content.share_words == old(self).content.share_words,
            r == match header_msg {
                Some(HeaderMsg::Cancelled) => Some(ShareWordsScreenMsg::Cancelled),
                Some(HeaderMsg::Info) => Some(ShareWordsScreenMsg::Menu),
                None => match action_bar_msg {
                    Some(ActionBarMsg::Cancelled) => Some(ShareWordsScreenMsg::Cancelled),
                    Some(ActionBarMsg::Confirmed) => Some(ShareWordsScreenMsg::Confirmed),
                    _ => None,
                },
            },
            final(self).content.pager.current == if header_msg is None && action_bar_msg == Some(ActionBarMsg::Prev) {
                if old(self).content.pager.current > 0 { (old(self).content.pager.current - 1) as u16 } else { 0 }
            } else if header_msg is None && action_bar_msg == Some(ActionBarMsg::Next) {
                if old(self).content.pager.current < last_page(old(self).content.pager.total) {
                    (old(self).content.pager.current + 1) as u16
                } else {
                    last_page(old(self).content.pager.total)
                }
            } else {
                old(self).content.pager.current
            },
            final(self).content.pager.total == old(self).content.pager.total,
            (event == Event::Attach || (header_msg is None && (action_bar_msg == Some(ActionBarMsg::Prev)
                || action_bar_msg == Some(ActionBarMsg::Next)))) ==> (final(self).hint matches Some(h)
                && h.content == page_hint(final(self).content).content && final(self).action_bar.pager == final(self).content.pager
                && old(self).relaid_for_page(*final(self))),
            !(event == Event::Attach || (header_msg is None && (action_bar_msg == Some(ActionBarMsg::Prev)
                || action_bar_msg == Some(ActionBarMsg::Next)))) ==> *final(self) == *old(self),
            *final(ctx) == *old(ctx),
    {
        if event == Event::Attach {
            self.on_page_change();
        }

        if let Some(msg) = header_msg {
            match msg {
                HeaderMsg::Cancelled => return Some(ShareWordsScreenMsg::Cancelled),
                HeaderMsg::Info => return Some(ShareWordsScreenMsg::Menu),
            }
        }

        if let Some(msg) = action_bar_msg {
            match msg {
                ActionBarMsg::Cancelled => {
                    return Some(ShareWordsScreenMsg::Cancelled);
                },
                ActionBarMsg::Confirmed => {
                    return Some(ShareWordsScreenMsg::Confirmed);
                },
                ActionBarMsg::Prev => {
                    let to = self.content.pager().prev();
                    self.content.change_page(to);
                    self.on_page_change();
                    return None;
                },
                ActionBarMsg::Next => {
                    let to = self.content.pager().next();
                    self.content.change_page(to);
                    self.on_page_change();
                    return None;
                },
            }
        }
        None
    }
}

} // verus!
