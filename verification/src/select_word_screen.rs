use vstd::prelude::*;
use crate::button::{Alignment, Button, ButtonContent, ButtonMsg, ButtonStyleSheet, Label, TString, TextStyle};
use crate::geometry::{fits_i16, Insets, Offset, Rect};
use crate::header::{header_placed, Header, HeaderMsg, HEADER_HEIGHT, HEADER_MARGIN_LEFT, HEADER_MARGIN_RIGHT};

verus! {

/// How many words a word quiz offers.
pub const MAX_WORD_QUIZ_ITEMS: usize = 3;

/// Space around the description and the buttons.
pub const SELECT_WORD_INSET: i16 = 24;

/// Height of the description below the header.
pub const DESCRIPTION_HEIGHT: i16 = 52;

/// What the word selection screen reports.
#[derive(Clone, Copy, PartialEq, Eq, Structural, Debug)]
pub enum SelectWordMsg {
    Selected(usize),
    /// Right header button clicked
    Cancelled,
}

/// What the word selection screen paints, in order.
#[derive(Clone, Copy, PartialEq, Eq, Structural, Debug)]
pub enum SelectWordPart {
    Header,
    Description,
    Button(usize),
    /// The line below a button, separating it from the next one.
    Separator(Rect),
}

/// The one pixel high line along the bottom of `area`.
pub open spec fn separator_below(area: Rect) -> Rect {
    Rect { x0: area.x0, y0: (area.y1 - 1) as i16, x1: area.x1, y1: area.y1 }
}

/// A screen offering a few words, one button each, below a description.
pub struct SelectWordScreen {
    pub header: Header,
    pub description: Label<'static>,
    pub buttons: [Button; 3],
}

/// The button offering `word`.
pub open spec fn word_button(word: &'static str) -> Button {
    Button { styles: ButtonStyleSheet::SelectWord, ..Button::new_spec(ButtonContent::Text(word)) }
}

/// The first of the reports in `msgs` that is a click, if any.
pub open spec fn first_click(msgs: Seq<Option<ButtonMsg>>) -> Option<usize> {
    if exists|i: int| 0 <= i < msgs.len() && msgs[i] == Some(ButtonMsg::Clicked) {
        let i = choose|i: int|
            0 <= i < msgs.len() && msgs[i] == Some(ButtonMsg::Clicked) && forall|j: int|
                0 <= j < i ==> msgs[j] != Some(ButtonMsg::Clicked);
        Some(i as usize)
    } else {
        None
    }
}

/// Row `row` of `rows` equal rows of `area`, the last one reaching its bottom.
pub open spec fn row_cell(area: Rect, rows: int, row: int) -> Rect {
    let h = (area.y1 - area.y0) / rows;
    Rect {
        x0: area.x0,
        y0: (area.y0 + row * h) as i16,
        x1: area.x1,
        y1: if row == rows - 1 { area.y1 } else { (area.y0 + (row + 1) * h) as i16 },
    }
}

proof fn lemma_first_click_is_first(msgs: Seq<Option<ButtonMsg>>, i: int)
    requires
        0 <= i < msgs.len(),
        msgs[i] == Some(ButtonMsg::Clicked),
        forall|j: int| 0 <= j < i ==> msgs[j] != Some(ButtonMsg::Clicked),
    ensures
        first_click(msgs) == Some(i as usize),
{
    let k = choose|k: int|
        0 <= k < msgs.len() && msgs[k] == Some(ButtonMsg::Clicked) && forall|j: int|
            0 <= j < k ==> msgs[j] != Some(ButtonMsg::Clicked);
    assert(0 <= k < msgs.len() && msgs[k] == Some(ButtonMsg::Clicked) && forall|j: int|
        0 <= j < k ==> msgs[j] != Some(ButtonMsg::Clicked));
    if k < i {
    } else if k > i {
    }
}

impl SelectWordScreen {
    pub fn new(share_words_vec: [&'static str; 3], description: TString<'static>) -> (r: Self)
        ensures
            r.header == Header::new_spec(r.header.title.text),
            r.header.title.text matches TString::Str(s) && s@.len() == 0,
            r.description == (Label {
                vertically_centered: true,
                ..Label::new_spec(description, Alignment::Start, TextStyle::TextMedium)
            }),
            forall|i: int| 0 <= i < 3 ==> r.buttons[i] == word_button(#[trigger] share_words_vec[i]),
    {
        let buttons: [Button; 3] = [
            Button::with_text(share_words_vec[0]).styled(ButtonStyleSheet::SelectWord),
            Button::with_text(share_words_vec[1]).styled(ButtonStyleSheet::SelectWord),
            Button::with_text(share_words_vec[2]).styled(ButtonStyleSheet::SelectWord),
        ];
        let r = SelectWordScreen {
            header: Header::new(TString::empty()),
            description: Label::new(description, Alignment::Start, TextStyle::TextMedium).vertically_centered(),
            buttons,
        };
        assert forall|i: int| 0 <= i < 3 implies r.buttons[i] == word_button(#[trigger] share_words_vec[i]) by {
            if i == 0 {
            } else if i == 1 {
            } else {
            }
        }
        r
    }

    pub fn with_header(self, header: Header) -> (r: Self)
        ensures
            r == (SelectWordScreen { header, ..self }),
    {
        let mut this = self;
        this.header = header;
        this
    }

    /// Lays the screen out in `bounds`: the header on top, the description
    /// below it, and the buttons in equal rows below that.
    pub fn place(&mut self, bounds: Rect, left_icon_width: i16) -> (r: Rect)
        requires
            bounds.wf(),
            0 <= left_icon_width <= i16::MAX - HEADER_MARGIN_LEFT - HEADER_MARGIN_RIGHT,
            bounds.spec_height() >= HEADER_HEIGHT + DESCRIPTION_HEIGHT + 2 * SELECT_WORD_INSET,
            bounds.spec_width() >= 2 * SELECT_WORD_INSET,
        ensures
            r == bounds,
            header_placed(
                old(self).header,
                final(self).header,
                Rect { y1: (bounds.y0 + HEADER_HEIGHT) as i16, ..bounds },
                left_icon_width as int,
            ),
            final(self).description == (Label {
                area: Rect {
                    x0: (bounds.x0 + SELECT_WORD_INSET) as i16,
                    y0: (bounds.y0 + HEADER_HEIGHT) as i16,
                    x1: (bounds.x1 - SELECT_WORD_INSET) as i16,
                    y1: (bounds.y0 + HEADER_HEIGHT + DESCRIPTION_HEIGHT) as i16,
                },
                ..old(self).description
            }),
            forall|i: int| 0 <= i < 3 ==> #[trigger] final(self).buttons[i] == (Button {
                area: row_cell(
                    Rect {
                        x0: (bounds.x0 + SELECT_WORD_INSET) as i16,
                        y0: (bounds.y0 + HEADER_HEIGHT + DESCRIPTION_HEIGHT + SELECT_WORD_INSET) as i16,
                        x1: (bounds.x1 - SELECT_WORD_INSET) as i16,
                        y1: (bounds.y1 - SELECT_WORD_INSET) as i16,
                    },
                    3,
                    i,
                ),
                ..old(self).buttons[i]
            }),
    {
        let (header_area, rest) = bounds.split_top(HEADER_HEIGHT);
        let (description_area, button_area) = rest.split_top(DESCRIPTION_HEIGHT);
        let description_area = description_area.inset(Insets::sides(SELECT_WORD_INSET));
        let button_area = button_area.inset(Insets::uniform(SELECT_WORD_INSET));
        let h: i16 = (button_area.y1 - button_area.y0) / 3;
        let ghost old_buttons = self.buttons;
        let ghost area = button_area;
        let mut index: usize = 0;
        while index < 3
            invariant
                0 <= index <= 3,
                area == button_area,
                button_area.wf(),
                self.header == old(self).header,
                self.description == old(self).description,
                h == (button_area.y1 - button_area.y0) / 3,
                forall|i: int| 0 <= i < index ==> #[trigger] self.buttons[i] == (Button {
                    area: row_cell(area, 3, i),
                    ..old_buttons[i]
                }),
                forall|i: int| index <= i < 3 ==> #[trigger] self.buttons[i] == old_buttons[i],
            decreases 3 - index,
        {
            let i16_index: i16 = if index == 0 { 0 } else if index == 1 { 1 } else { 2 };
            assert(0 <= i16_index * h <= 2 * h) by (nonlinear_arith)
                requires 0 <= i16_index <= 2, h >= 0;
            assert(0 <= (i16_index + 1) * h <= 3 * h) by (nonlinear_arith)
                requires 0 <= i16_index <= 2, h >= 0;
            assert(3 * h <= button_area.y1 - button_area.y0) by (nonlinear_arith)
                requires h == (button_area.y1 - button_area.y0) / 3, button_area.y1 - button_area.y0 >= 0;
            let y0: i16 = button_area.y0 + i16_index * h;
            let y1: i16 = if index == 2 { button_area.y1 } else { button_area.y0 + (i16_index + 1) * h };
            let cell = Rect { x0: button_area.x0, y0, x1: button_area.x1, y1 };
            assert(cell == row_cell(area, 3, index as int));
            let mut b = self.buttons[index];
            b.place(cell);
            self.buttons[index] = b;
            index = index + 1;
        }
        self.description.place(description_area);
        self.header.place(header_area, left_icon_width);
        bounds
    }

    /// The parts painted, in order: the header, the description, then each
    /// button, with a separator line below each one but the last.
    pub fn render(&self) -> (r: Vec<SelectWordPart>)
        requires
            forall|i: int| 0 <= i < 3 ==> fits_i16(#[trigger] self.buttons[i].area.x1 - self.buttons[i].area.x0),
            forall|i: int| 0 <= i < 3 ==> fits_i16(#[trigger] self.buttons[i].area.y1 - 1),
        ensures
            r@ == seq![
                SelectWordPart::Header,
                SelectWordPart::Description,
                SelectWordPart::Button(0),
                SelectWordPart::Separator(separator_below(self.buttons[0].area)),
                SelectWordPart::Button(1),
                SelectWordPart::Separator(separator_below(self.buttons[1].area)),
                SelectWordPart::Button(2),
            ],
    {
        let mut parts: Vec<SelectWordPart> = Vec::new();
        parts.push(SelectWordPart::Header);
        parts.push(SelectWordPart::Description);
        let n_seps: usize = MAX_WORD_QUIZ_ITEMS - 1;
        let mut i: usize = 0;
        while i < MAX_WORD_QUIZ_ITEMS
            invariant
                i <= 3,
                n_seps == 2,
                forall|j: int| 0 <= j < 3 ==> fits_i16(#[trigger] self.buttons[j].area.x1 - self.buttons[j].area.x0),
                forall|j: int| 0 <= j < 3 ==> fits_i16(#[trigger] self.buttons[j].area.y1 - 1),
                parts@ == seq![
                    SelectWordPart::Header,
                    SelectWordPart::Description,
                    SelectWordPart::Button(0),
                    SelectWordPart::Separator(separator_below(self.buttons[0].area)),
                    SelectWordPart::Button(1),
                    SelectWordPart::Separator(separator_below(self.buttons[1].area)),
                    SelectWordPart::Button(2),
                ].subrange(0, if i < 3 { 2 + 2 * i } else { 7 } as int),
            decreases 3 - i,
        {
            let area = self.buttons[i].area;
            // Render button
            parts.push(SelectWordPart::Button(i));
            if i < n_seps {
                // Render button separator line below the button
                let separator = Rect::from_bottom_left_and_size(area.bottom_left(), Offset::new(area.width(), 1));
                parts.push(SelectWordPart::Separator(separator));
            }
            proof {
                let all = seq![
                    SelectWordPart::Header,
                    SelectWordPart::Description,
                    SelectWordPart::Button(0),
                    SelectWordPart::Separator(separator_below(self.buttons[0].area)),
                    SelectWordPart::Button(1),
                    SelectWordPart::Separator(separator_below(self.buttons[1].area)),
                    SelectWordPart::Button(2),
                ];
                assert(parts@ =~= all.subrange(0, if i + 1 < 3 { 2 + 2 * (i + 1) } else { 7 } as int));
            }
            i = i + 1;
        }
        parts
    }

    /// Handles one event, given what the header's left and right buttons and
    /// each word button report for it: a click on the header's right button
    /// whose message is cancelling reports cancelling; otherwise the first
    /// clicked word button is selected.
    pub fn event(
        &self,
        header_left: Option<ButtonMsg>,
        header_right: Option<ButtonMsg>,
        button_msgs: [Option<ButtonMsg>; 3],
    ) -> (r: Option<SelectWordMsg>)
        ensures
            r == if self.header.spec_reports_from_right(header_left, header_right) && self.header.right_button_msg
                == HeaderMsg::Cancelled {
                Some(SelectWordMsg::Cancelled)
            } else {
                match first_click(button_msgs@) {
                    Some(i) => Some(SelectWordMsg::Selected(i)),
                    None => None,
                }
            },
    {
        // Only the right header button cancels.
        if self.header.reports_from_right(header_left, header_right) && self.header.right_button_msg
            == HeaderMsg::Cancelled {
            return Some(SelectWordMsg::Cancelled);
        }
        let mut i: usize = 0;
        while i < 3
            invariant
                0 <= i <= 3,
                !(self.header.spec_reports_from_right(header_left, header_right) && self.header.right_button_msg
                    == HeaderMsg::Cancelled),
                forall|j: int| 0 <= j < i ==> button_msgs@[j] != Some(ButtonMsg::Clicked),
            decreases 3 - i,
        {
            if button_msgs[i] == Some(ButtonMsg::Clicked) {
                proof {
                    lemma_first_click_is_first(button_msgs@, i as int);
                }
                return Some(SelectWordMsg::Selected(i));
            }
            i = i + 1;
        }
        None
    }
}

} // verus!
