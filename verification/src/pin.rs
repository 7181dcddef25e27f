use vstd::prelude::*;
use crate::button::{ButtonContent, ButtonStyleSheet, Label, TString, TextStyle};
use crate::overlap_grid::grid_fits;
use crate::component::{ctx_paint_only, Event, EventCtx, Timer, TouchEvent};
use crate::geometry::{div_trunc, fits_i16, inset_fits, spec_inset, Insets, Offset, Point, Rect};
use crate::keypad::{keypad_outcome, lemma_dispatch_in_range, ButtonState, ButtonType, Keypad, KeyboardMetrics, KeypadButtonMsgs, KeypadMsg};
use crate::short_string::{ascii_text, short_as_str, short_chars, short_new, short_pop, short_push_str};
use crate::text::{
    char_len, dot_count, hidden_glyphs, line_count, line_vec_items, lines_from, shown_fits, spec_hidden_glyphs,
    split_text_into_lines, splits_into, texts_at, DisplayStyle, HiddenGlyph, InputPaint,
    ShownText, DOT_X_STEP, FADING_ICON_COUNT, LINE_Y_STEP, TWITCH,
};

verus! {

/// Maximum number of digits of a PIN.
pub const MAX_LENGTH: usize = 50;

/// Maximum number of dots shown in one line.
pub const MAX_SHOWN_LEN: usize = 19;

/// How long the last entered digit stays visible, in milliseconds.
pub const LAST_DIGIT_TIMEOUT_MS: u32 = 1000;

/// How long the warning replaces the prompt, in milliseconds.
pub const WARNING_TIMEOUT_MS: u32 = 2000;

/// Number of digit keys.
pub const DIGITS: usize = 10;

/// What the PIN keyboard reports.
#[derive(Clone, Copy, PartialEq, Eq, Structural, Debug)]
pub enum PinKeyboardMsg {
    Confirmed,
    Cancelled,
}

/// What the PIN input area reports.
#[derive(Clone, Copy, PartialEq, Eq, Structural, Debug)]
pub enum PinInputMsg {
    TouchStart,
    TouchEnd,
    LasDigitTimeout,
}

/// The digit on the key at position `k` of the unshuffled keypad:
/// 1 to 9, then 0.
pub open spec fn digit_char(k: int) -> char {
    if k == 0 {
        '1'
    } else if k == 1 {
        '2'
    } else if k == 2 {
        '3'
    } else if k == 3 {
        '4'
    } else if k == 4 {
        '5'
    } else if k == 5 {
        '6'
    } else if k == 6 {
        '7'
    } else if k == 7 {
        '8'
    } else if k == 8 {
        '9'
    } else {
        '0'
    }
}

/// Whether `ch` is a decimal digit.
pub open spec fn is_digit(ch: char) -> bool {
    '0' <= ch <= '9'
}

/// The label of digit key `k`.
fn digit_label(k: usize) -> (r: &'static str)
    requires
        k < DIGITS,
    ensures
        r@ == seq![digit_char(k as int)],
{
    if k == 0 {
        proof { reveal_strlit("1"); }
        "1"
    } else if k == 1 {
        proof { reveal_strlit("2"); }
        "2"
    } else if k == 2 {
        proof { reveal_strlit("3"); }
        "3"
    } else if k == 3 {
        proof { reveal_strlit("4"); }
        "4"
    } else if k == 4 {
        proof { reveal_strlit("5"); }
        "5"
    } else if k == 5 {
        proof { reveal_strlit("6"); }
        "6"
    } else if k == 6 {
        proof { reveal_strlit("7"); }
        "7"
    } else if k == 7 {
        proof { reveal_strlit("8"); }
        "8"
    } else if k == 8 {
        proof { reveal_strlit("9"); }
        "9"
    } else {
        proof { reveal_strlit("0"); }
        "0"
    }
}

/// The characters a key content enters: a text key enters its text.
pub open spec fn content_text(c: ButtonContent) -> Seq<char> {
    match c {
        ButtonContent::Text(t) => t@,
        _ => Seq::empty(),
    }
}

/// `order` places each of the ten digits once: every entry is a digit
/// position, and no two entries are the same.
pub open spec fn is_digit_order(order: Seq<usize>) -> bool {
    &&& order.len() == DIGITS
    &&& forall|i: int| 0 <= i < DIGITS ==> #[trigger] order[i] < DIGITS
    &&& forall|i: int, j: int| 0 <= i < j < DIGITS ==> order[i] != order[j]
}

/// A digit order is a permutation: every digit position occurs in it.
pub proof fn lemma_digit_order_covers(order: Seq<usize>, d: int)
    requires
        is_digit_order(order),
        0 <= d < DIGITS,
    ensures
        exists|i: int| 0 <= i < DIGITS && order[i] == d,
{
    let s = order.map_values(|x: usize| x as int);
    assert(s.no_duplicates()) by {
        assert forall|i: int, j: int| 0 <= i < s.len() && 0 <= j < s.len() && i != j implies s[i] != s[j] by {
            if i < j {
                assert(order[i] != order[j]);
            } else {
                assert(order[j] != order[i]);
            }
        }
    }
    s.unique_seq_to_set();
    let range = vstd::set_lib::set_int_range(0, DIGITS as int);
    vstd::set_lib::lemma_int_range(0, DIGITS as int);
    assert(s.to_set().subset_of(range)) by {
        assert forall|x: int| s.to_set().contains(x) implies range.contains(x) by {
            let i = choose|i: int| 0 <= i < s.len() && s[i] == x;
            assert(order[i] < DIGITS);
        }
    }
    vstd::set_lib::lemma_subset_equality(s.to_set(), range);
    assert(range.contains(d));
    assert(s.to_set().contains(d));
    let i = choose|i: int| 0 <= i < s.len() && s[i] == d;
    assert(order[i] == d);
}

/// `order` after the steps `k` down to 1 of the Fisher-Yates shuffle: step
/// `k` swaps position `k` with position `draws[k - 1] % (k + 1)`.
pub open spec fn shuffle_steps(order: Seq<usize>, draws: Seq<u64>, k: int) -> Seq<usize>
    decreases k,
{
    if k <= 0 {
        order
    } else {
        let j = (draws[k - 1] as int) % (k + 1);
        shuffle_steps(order.update(k, order[j]).update(j, order[k]), draws, k - 1)
    }
}

/// The digit positions in their natural order.
pub open spec fn natural_digit_order() -> Seq<usize> {
    Seq::new(DIGITS as nat, |i: int| i as usize)
}

/// The digit positions shuffled with `draws`, one random number for each
/// step of the Fisher-Yates shuffle: every digit is placed once.
pub fn shuffle_digit_order(draws: &[u64]) -> (r: Vec<usize>)
    requires
        draws@.len() == DIGITS - 1,
    ensures
        r@ == shuffle_steps(natural_digit_order(), draws@, DIGITS - 1),
        is_digit_order(r@),
{
    let mut order: Vec<usize> = Vec::new();
    let mut i: usize = 0;
    while i < DIGITS
        invariant
            i <= DIGITS,
            order@ == Seq::new(i as nat, |k: int| k as usize),
        decreases DIGITS - i,
    {
        order.push(i);
        i = i + 1;
        assert(order@ =~= Seq::new(i as nat, |k: int| k as usize));
    }
    assert(order@ =~= natural_digit_order());
    let mut k: usize = DIGITS - 1;
    while k > 0
        invariant
            k <= DIGITS - 1,
            draws@.len() == DIGITS - 1,
            is_digit_order(order@),
            shuffle_steps(order@, draws@, k as int) == shuffle_steps(natural_digit_order(), draws@, DIGITS - 1),
        decreases k,
    {
        let j: usize = (draws[k - 1] % (k as u64 + 1)) as usize;
        let a = order[k];
        let b = order[j];
        let ghost before = order@;
        order.set(k, b);
        order.set(j, a);
        proof {
            assert(order@ == before.update(k as int, before[j as int]).update(j as int, before[k as int]));
            assert forall|x: int, y: int| 0 <= x < y < DIGITS implies order@[x] != order@[y] by {
                let sx = if x == j { k as int } else if x == k { j as int } else { x };
                let sy = if y == j { k as int } else if y == k { j as int } else { y };
                assert(order@[x] == before[sx]);
                assert(order@[y] == before[sy]);
                if sx < sy {
                    assert(before[sx] != before[sy]);
                } else {
                    assert(before[sy] != before[sx]);
                }
            }
        }
        k = k - 1;
    }
    order
}

/// Some digit key of `keypad` shows digit `d` (counting 1, 2, ..., 9, 0).
pub open spec fn digit_on_a_key(keypad: Keypad<10>, d: int) -> bool {
    exists|i: int| 0 <= i < DIGITS && content_text(keypad.keys@[i].button.inner.content) == seq![digit_char(d)]
}

/// The keys of a PIN keypad each show one digit.
pub open spec fn digit_keys(keypad: Keypad<10>) -> bool {
    forall|i: int|
        0 <= i < DIGITS ==> {
            &&& (#[trigger] keypad.keys@[i]).button.inner.content is Text
            &&& content_text(keypad.keys@[i].button.inner.content).len() == 1
            &&& is_digit(content_text(keypad.keys@[i].button.inner.content)[0])
        }
}

/// The entered PIN together with how it is displayed.
pub struct PinInput {
    pub area: Rect,
    pub style: TextStyle,
    pub digits: heapless::String<50>,
    pub display_style: DisplayStyle,
    pub last_digit_timer: Timer,
}

/// What the input area reports for `event`: nothing while the PIN is empty;
/// touches starting or ending inside the area; the last-digit timer firing.
pub open spec fn spec_input_event(input: PinInput, event: Event) -> Option<PinInputMsg> {
    if short_chars(input.digits).len() == 0 {
        None
    } else {
        match event {
            Event::Touch(TouchEvent::TouchStart(pos)) => if input.area.spec_contains(pos) {
                Some(PinInputMsg::TouchStart)
            } else {
                None
            },
            Event::Touch(TouchEvent::TouchEnd(pos)) => if input.area.spec_contains(pos) {
                Some(PinInputMsg::TouchEnd)
            } else {
                None
            },
            Event::Timer(_) => if input.last_digit_timer.spec_fires(event) {
                Some(PinInputMsg::LasDigitTimeout)
            } else {
                None
            },
            _ => None,
        }
    }
}

/// Whether the input area's event handling touches the last-digit timer.
pub open spec fn input_event_checks_timer(input: PinInput, event: Event) -> bool {
    short_chars(input.digits).len() != 0 && event is Timer
}

impl PinInput {
    pub fn new(style: TextStyle) -> (r: Self)
        ensures
            r.area == (Rect { x0: 0, y0: 0, x1: 0, y1: 0 }),
            r.style == style,
            short_chars(r.digits) == Seq::<char>::empty(),
            r.display_style == DisplayStyle::Hidden,
            r.last_digit_timer.spec_token() is None,
            !r.last_digit_timer.spec_running(),
    {
        PinInput {
            area: Rect::zero(),
            style,
            digits: short_new(),
            display_style: DisplayStyle::Hidden,
            last_digit_timer: Timer::new(),
        }
    }

    /// Size of the row of dots: 10 pixels per dot and 3 between dots, for at
    /// most `MAX_SHOWN_LEN` dots; 6 pixels high.
    pub fn size(&self) -> (r: Offset)
        ensures
            ({
                let n = if short_chars(self.digits).len() < MAX_SHOWN_LEN { short_chars(self.digits).len() as int } else { MAX_SHOWN_LEN as int };
                &&& r.x == 10 * n + 3 * (if n > 0 { n - 1 } else { 0 })
                &&& r.y == 6
            }),
    {
        let count = char_len(short_as_str(&self.digits));
        let ndots: usize = if count < MAX_SHOWN_LEN { count } else { MAX_SHOWN_LEN };
        let mut width: i16 = 10 * (ndots as i16);
        width = width + 3 * (ndots.saturating_sub(1) as i16);
        Offset::new(width, 6)
    }

    pub fn is_empty(&self) -> (r: bool)
        ensures
            r == (short_chars(self.digits).len() == 0),
    {
        char_len(short_as_str(&self.digits)) == 0
    }

    pub fn is_full(&self) -> (r: bool)
        ensures
            r == (short_chars(self.digits).len() >= MAX_LENGTH),
    {
        char_len(short_as_str(&self.digits)) >= MAX_LENGTH
    }

    pub fn clear(&mut self)
        ensures
            *final(self) == (PinInput { digits: final(self).digits, ..*old(self) }),
            short_chars(final(self).digits) == Seq::<char>::empty(),
    {
        self.digits = short_new();
    }

    /// Appends `text`; the PIN must have room for it. The PIN and `text` are
    /// ASCII, so that their characters are also their bytes.
    pub fn push(&mut self, text: &str)
        requires
            short_chars(old(self).digits).len() + text@.len() <= MAX_LENGTH,
            ascii_text(short_chars(old(self).digits)),
            ascii_text(text@),
        ensures
            *final(self) == (PinInput { digits: final(self).digits, ..*old(self) }),
            short_chars(final(self).digits) == short_chars(old(self).digits) + text@,
    {
        let pushed = short_push_str(&mut self.digits, text);
        assert(pushed);
    }

    /// Removes the last digit, if any.
    pub fn pop(&mut self)
        ensures
            *final(self) == (PinInput { digits: final(self).digits, ..*old(self) }),
            short_chars(final(self).digits) == if short_chars(old(self).digits).len() > 0 {
                short_chars(old(self).digits).drop_last()
            } else {
                short_chars(old(self).digits)
            },
    {
        short_pop(&mut self.digits);
    }

    pub fn pin(&self) -> (r: &str)
        ensures
            r@ == short_chars(self.digits),
    {
        short_as_str(&self.digits)
    }

    /// What `render_shown` paints in `area`, for some split of the PIN into
    /// lines.
    pub open spec fn spec_shown(self, area: Rect, text_height: int, r: ShownText) -> bool {
        exists|lines: Seq<Seq<char>>|
            #![trigger splits_into(short_chars(self.digits), lines)]
            {
                &&& splits_into(short_chars(self.digits), lines)
                &&& r.bar == (Rect { y1: (area.y1 + LINE_Y_STEP * (lines.len() - 1)) as i16, ..area })
                &&& if lines.len() == 1 {
                    &&& r.centered
                    &&& r.texts@.len() == 1
                    &&& r.texts@[0].0 == (Point {
                        x: (area.x0 + area.spec_width() / 2) as i16,
                        y: (area.y0 + area.spec_height() / 2 + div_trunc(text_height, 2)) as i16,
                    })
                    &&& r.texts@[0].1@ == short_chars(self.digits)
                } else {
                    &&& !r.centered
                    &&& texts_at(r.texts@, lines, Point { x: area.x0, y: (area.y0 + 20 + text_height) as i16 })
                }
            }
    }

    /// What is painted in `area` while the PIN is shown in full, given the
    /// height of the text font and `fit`, which tells how many characters of
    /// a text fit into a width: the PIN split into lines as wide as the area,
    /// and a bar behind them that grows by a line step for each line past the
    /// first; a single line is the whole PIN centered in the area, more lines
    /// are drawn from 20 pixels and a text height below the area's top.
    pub fn render_shown<F: Fn(i16, &str) -> usize>(&self, area: Rect, text_height: i16, fit: &F) -> (r:
        ShownText)
        requires
            self.display_style == DisplayStyle::Shown,
            forall|w: i16, s: &str| #[trigger] fit.requires((w, s)),
            forall|w: i16, s: &str, n: usize| fit.ensures((w, s), n) ==> n <= s@.len(),
            shown_fits(area, text_height as int),
        ensures
            self.spec_shown(area, text_height as int, r),
    {
        let lines = split_text_into_lines(self.pin(), fit, area.width());
        let ghost items = line_vec_items(lines);
        let line_num = line_count(&lines);
        let bar = area.outset(Insets::bottom((line_num as i16 - 1) * LINE_Y_STEP));
        if line_num == 1 {
            let center = area.center();
            let at = Point { x: center.x, y: center.y + text_height / 2 };
            let mut texts: Vec<(Point, &str)> = Vec::new();
            texts.push((at, self.pin()));
            proof {
                assert(splits_into(short_chars(self.digits), items));
            }
            ShownText { bar, centered: true, texts }
        } else {
            let baseline = Point { x: area.x0, y: area.y0 + (20 + text_height) };
            let texts = lines_from(&lines, baseline);
            proof {
                assert(splits_into(short_chars(self.digits), items));
            }
            ShownText { bar, centered: false, texts }
        }
    }

    /// Width of the row of dots `size` reports.
    pub open spec fn spec_dots_width(self) -> int {
        let n = if short_chars(self.digits).len() < MAX_SHOWN_LEN { short_chars(self.digits).len() as int } else { MAX_SHOWN_LEN as int };
        10 * n + 3 * (if n > 0 { n - 1 } else { 0 })
    }

    /// Where the dots start in `area`: the row of dots is centered in it.
    pub open spec fn spec_hidden_cursor(self, area: Rect) -> Point {
        let center_x = area.x0 + area.spec_width() / 2;
        let center_y = area.y0 + area.spec_height() / 2;
        Point { x: (center_x - self.spec_dots_width() / 2) as i16, y: (center_y - 3) as i16 }
    }

    /// The hidden PIN can be laid out in `area` within `i16` coordinates, and
    /// a last digit shown in clear fits.
    pub open spec fn hidden_fits(self, area: Rect, shown_len: int, text_height: int) -> bool {
        &&& area.wf()
        &&& short_chars(self.digits).len() > 0 && self.display_style == DisplayStyle::LastOnly ==> shown_len >= 1
        &&& fits_i16(self.spec_hidden_cursor(area).x + TWITCH + DOT_X_STEP * dot_count(
            short_chars(self.digits).len() as int,
            shown_len,
            self.display_style,
        ))
        &&& fits_i16(area.x0 + area.spec_width() / 2 - self.spec_dots_width() / 2)
        &&& fits_i16(area.y0 + area.spec_height() / 2 - 3)
        &&& fits_i16(area.y0 + 26)
        &&& fits_i16(area.y0 + 26 + text_height)
    }

    /// The glyphs `render_hidden` paints.
    pub open spec fn spec_hidden(self, area: Rect, shown_len: int, text_height: int) -> Seq<HiddenGlyph> {
        spec_hidden_glyphs(
            self.spec_hidden_cursor(area),
            short_chars(self.digits),
            shown_len,
            self.display_style,
            area.y0 + 26 + text_height,
            false,
        )
    }

    /// What is painted in `area` while the PIN is hidden, given how many of
    /// its characters fit (`shown_len`) and the height of the text font:
    /// dots centered in the area, and the last digit in clear below them
    /// while only it is shown.
    pub fn render_hidden(&self, area: Rect, shown_len: usize, text_height: i16) -> (r: Vec<HiddenGlyph>)
        requires
            self.display_style != DisplayStyle::Shown,
            self.hidden_fits(area, shown_len as int, text_height as int),
        ensures
            r@ == self.spec_hidden(area, shown_len as int, text_height as int),
    {
        let cursor = self.size().snap_center(area.center());
        let last_y: i16 = area.y0 + 26 + text_height;
        hidden_glyphs(cursor, short_as_str(&self.digits), shown_len, self.display_style, last_y, false)
    }

    /// What is painted for the input: nothing while the PIN is empty;
    /// otherwise, in the area inset by `input_insets`, the PIN in full or
    /// hidden as its display style says. `shown_len` is how many characters
    /// fit into that area's width less one pixel, and `fit` tells how many
    /// characters of a text fit into a width.
    pub fn render<F: Fn(i16, &str) -> usize>(
        &self,
        input_insets: Insets,
        text_height: i16,
        shown_len: usize,
        fit: &F,
    ) -> (r: InputPaint)
        requires
            inset_fits(self.area, input_insets),
            short_chars(self.digits).len() > 0 && self.display_style == DisplayStyle::Shown ==> {
                &&& forall|w: i16, s: &str| #[trigger] fit.requires((w, s))
                &&& forall|w: i16, s: &str, n: usize| fit.ensures((w, s), n) ==> n <= s@.len()
                &&& shown_fits(spec_inset(self.area, input_insets), text_height as int)
            },
            short_chars(self.digits).len() > 0 && self.display_style != DisplayStyle::Shown ==> self.hidden_fits(
                spec_inset(self.area, input_insets),
                shown_len as int,
                text_height as int,
            ),
        ensures
            short_chars(self.digits).len() == 0 ==> r is Nothing,
            short_chars(self.digits).len() > 0 && self.display_style == DisplayStyle::Shown ==> (r matches InputPaint::Shown(t)
                && self.spec_shown(spec_inset(self.area, input_insets), text_height as int, t)),
            short_chars(self.digits).len() > 0 && self.display_style != DisplayStyle::Shown ==> (r matches InputPaint::Hidden(g)
                && g@ == self.spec_hidden(spec_inset(self.area, input_insets), shown_len as int, text_height as int)),
    {
        let render_area = self.area.inset(input_insets);
        if !self.is_empty() {
            if self.display_style == DisplayStyle::Shown {
                InputPaint::Shown(self.render_shown(render_area, text_height, fit))
            } else {
                InputPaint::Hidden(self.render_hidden(render_area, shown_len, text_height))
            }
        } else {
            InputPaint::Nothing
        }
    }

    /// Whether the hidden PIN can be laid out in `area`, as `hidden_fits`
    /// says.
    pub fn check_hidden_fits(&self, area: Rect, shown_len: usize, text_height: i16) -> (r: bool)
        ensures
            r == self.hidden_fits(area, shown_len as int, text_height as int),
    {
        let x0 = area.x0 as i128;
        let y0 = area.y0 as i128;
        let x1 = area.x1 as i128;
        let y1 = area.y1 as i128;
        let width = x1 - x0;
        let height = y1 - y0;
        if !(x0 <= x1 && y0 <= y1 && width <= 32767 && height <= 32767) {
            return false;
        }
        let len = char_len(short_as_str(&self.digits)) as i128;
        let shown = shown_len as i128;
        let last_only = self.display_style == DisplayStyle::LastOnly;
        if len > 0 && last_only && shown < 1 {
            return false;
        }
        let n: i128 = if len < MAX_SHOWN_LEN as i128 { len } else { MAX_SHOWN_LEN as i128 };
        let dots_width: i128 = 10 * n + 3 * (if n > 0 { n - 1 } else { 0 });
        let start_x = x0 + width / 2 - dots_width / 2;
        if !(-32768 <= start_x && start_x <= 32767) {
            return false;
        }
        let visible: i128 = shown - (if last_only { 1 } else { 0 });
        let over = len - shown;
        let fading: i128 = if over <= 0 {
            0
        } else if over >= FADING_ICON_COUNT as i128 {
            FADING_ICON_COUNT as i128
        } else {
            over
        };
        let dots: i128 = if visible > fading { visible } else { fading };
        let end_x = start_x + TWITCH as i128 + DOT_X_STEP as i128 * dots;
        let last_y = y0 + 26 + text_height as i128;
        proof {
            assert(self.spec_hidden_cursor(area).x == start_x);
            assert(dots == dot_count(short_chars(self.digits).len() as int, shown_len as int, self.display_style));
        }
        -32768 <= end_x && end_x <= 32767 && -32768 <= y0 + height / 2 - 3 && y0 + height / 2 - 3 <= 32767
            && y0 + 26 <= 32767 && -32768 <= last_y && last_y <= 32767
    }

    /// `render`, where the layout of a hidden PIN is checked first: `None`
    /// exactly when the PIN is hidden, not empty, and cannot be laid out in
    /// the inset area within `i16` coordinates.
    pub fn render_checked<F: Fn(i16, &str) -> usize>(
        &self,
        input_insets: Insets,
        text_height: i16,
        shown_len: usize,
        fit: &F,
    ) -> (r: Option<InputPaint>)
        requires
            inset_fits(self.area, input_insets),
            self.display_style == DisplayStyle::Shown ==> {
                &&& forall|w: i16, s: &str| #[trigger] fit.requires((w, s))
                &&& forall|w: i16, s: &str, n: usize| fit.ensures((w, s), n) ==> n <= s@.len()
                &&& shown_fits(spec_inset(self.area, input_insets), text_height as int)
            },
        ensures
            r is None <==> short_chars(self.digits).len() > 0 && self.display_style != DisplayStyle::Shown
                && !self.hidden_fits(spec_inset(self.area, input_insets), shown_len as int, text_height as int),
            r matches Some(p) ==> {
                &&& short_chars(self.digits).len() == 0 ==> p is Nothing
                &&& short_chars(self.digits).len() > 0 && self.display_style == DisplayStyle::Shown ==> (p matches InputPaint::Shown(t)
                    && self.spec_shown(spec_inset(self.area, input_insets), text_height as int, t))
                &&& short_chars(self.digits).len() > 0 && self.display_style != DisplayStyle::Shown ==> (p matches InputPaint::Hidden(g)
                    && g@ == self.spec_hidden(spec_inset(self.area, input_insets), shown_len as int, text_height as int))
            },
    {
        if !self.is_empty() && self.display_style != DisplayStyle::Shown {
            let render_area = self.area.inset(input_insets);
            if !self.check_hidden_fits(render_area, shown_len, text_height) {
                return None;
            }
        }
        Some(self.render(input_insets, text_height, shown_len, fit))
    }

    pub fn place(&mut self, bounds: Rect) -> (r: Rect)
        ensures
            *final(self) == (PinInput { area: bounds, ..*old(self) }),
            r == bounds,
    {
        self.area = bounds;
        self.area
    }

    /// Reports touches of the area and the end of showing the last digit.
    pub fn event(&mut self, event: Event) -> (r: Option<PinInputMsg>)
        ensures
            r == spec_input_event(*old(self), event),
            final(self).area == old(self).area,
            final(self).style == old(self).style,
            final(self).digits == old(self).digits,
            final(self).display_style == old(self).display_style,
            final(self).last_digit_timer.spec_token() == old(self).last_digit_timer.spec_token(),
            final(self).last_digit_timer.spec_running() == (old(self).last_digit_timer.spec_running()
                && !(input_event_checks_timer(*old(self), event) && old(self).last_digit_timer.spec_fires(event))),
    {
        // No touch events are handled when the textbox is empty
        if self.is_empty() {
            return None;
        }
        match event {
            Event::Touch(TouchEvent::TouchStart(pos)) => {
                if self.area.contains(pos) {
                    Some(PinInputMsg::TouchStart)
                } else {
                    None
                }
            },
            Event::Touch(TouchEvent::TouchEnd(pos)) => {
                if self.area.contains(pos) {
                    Some(PinInputMsg::TouchEnd)
                } else {
                    None
                }
            },
            // Timeout for showing the last digit.
            Event::Timer(_) => {
                if self.last_digit_timer.expire(event) {
                    Some(PinInputMsg::LasDigitTimeout)
                } else {
                    None
                }
            },
            _ => None,
        }
    }
}

/// The states of the keys, erase, confirm and cancel after a PIN edit: a full
/// PIN disables the keys; an empty one hides erase, disables confirm and shows
/// cancel only if cancelling is allowed; otherwise all but cancel are enabled.
pub open spec fn pin_button_states(full: bool, empty: bool, allow_cancel: bool) -> (
    ButtonState,
    ButtonState,
    ButtonState,
    ButtonState,
) {
    if full {
        (ButtonState::Disabled, ButtonState::Enabled, ButtonState::Enabled, ButtonState::Hidden)
    } else if empty {
        (
            ButtonState::Enabled,
            ButtonState::Hidden,
            ButtonState::Disabled,
            if allow_cancel {
                ButtonState::Enabled
            } else {
                ButtonState::Hidden
            },
        )
    } else {
        (ButtonState::Enabled, ButtonState::Enabled, ButtonState::Enabled, ButtonState::Hidden)
    }
}

/// `new` is `old` with the keys put into `keys`, and erase, confirm and cancel
/// put into the given states.
pub open spec fn keypad_states_applied(
    old: Keypad<10>,
    new: Keypad<10>,
    keys: ButtonState,
    erase: ButtonState,
    confirm: ButtonState,
    cancel: ButtonState,
) -> bool {
    &&& new.wf()
    &&& new.pressed == old.pressed
    &&& new.back_btn == old.back_btn
    &&& new.erase_btn == old.erase_btn.with_state(erase)
    &&& new.confirm_btn == old.confirm_btn.with_state(confirm)
    &&& new.cancel_btn == old.cancel_btn.with_state(cancel)
    &&& forall|i: int| 0 <= i < 10 ==> #[trigger] new.keys@[i] == old.keys@[i].with_state(keys)
}

/// `new` is `old` with the given buttons put into the given states; `None`
/// leaves a button alone.
pub open spec fn keypad_some_states_applied(
    old: Keypad<10>,
    new: Keypad<10>,
    keys: Option<ButtonState>,
    erase: ButtonState,
    confirm: ButtonState,
) -> bool {
    &&& new.wf()
    &&& new.pressed == old.pressed
    &&& new.back_btn == old.back_btn
    &&& new.cancel_btn == old.cancel_btn
    &&& new.erase_btn == old.erase_btn.with_state(erase)
    &&& new.confirm_btn == old.confirm_btn.with_state(confirm)
    &&& forall|i: int|
        0 <= i < 10 ==> #[trigger] new.keys@[i] == match keys {
            Some(s) => old.keys@[i].with_state(s),
            None => old.keys@[i],
        }
}

/// The parts of the PIN keyboard, as painted.
#[derive(Clone, Copy, PartialEq, Eq, Structural, Debug)]
pub enum PinPart {
    MajorWarning,
    MajorPrompt,
    MinorPrompt,
    Keypad,
    Input,
}

/// Keyboard for entering a PIN, with the digits on shuffled keys.
pub struct PinKeyboard<'a> {
    pub allow_cancel: bool,
    pub major_prompt: Label<'a>,
    pub minor_prompt: Label<'a>,
    pub major_warning: Option<Label<'a>>,
    pub keypad: Keypad<10>,
    pub textbox: PinInput,
    pub warning_timer: Timer,
    pub close_confirm: bool,
}

impl<'a> PinKeyboard<'a> {
    /// The keypad has ten digit keys, the PIN holds only digits and fits.
    pub open spec fn wf(self) -> bool {
        &&& self.keypad.wf()
        &&& digit_keys(self.keypad)
        &&& short_chars(self.textbox.digits).len() <= MAX_LENGTH
        &&& forall|i: int| 0 <= i < short_chars(self.textbox.digits).len() ==> is_digit(#[trigger] short_chars(self.textbox.digits)[i])
    }

    /// The digit keys in the order `order` gives: key `i` shows digit
    /// `order[i]` of 1, 2, ..., 9, 0, so that each digit is on one key.
    pub fn keypad_content(order: &[usize]) -> (r: Vec<ButtonContent>)
        requires
            is_digit_order(order@),
        ensures
            r@.len() == DIGITS,
            forall|i: int|
                0 <= i < DIGITS ==> (#[trigger] r@[i]) is Text && content_text(r@[i]) == seq![
                    digit_char(order@[i] as int),
                ],
    {
        let mut digits: Vec<ButtonContent> = Vec::new();
        let mut i: usize = 0;
        while i < DIGITS
            invariant
                i <= DIGITS,
                order@.len() == DIGITS,
                forall|j: int| 0 <= j < DIGITS ==> #[trigger] order@[j] < DIGITS,
                digits@.len() == i,
                forall|j: int|
                    0 <= j < i ==> (#[trigger] digits@[j]) is Text && content_text(digits@[j]) == seq![
                        digit_char(order@[j] as int),
                    ],
            decreases DIGITS - i,
        {
            digits.push(ButtonContent::Text(digit_label(order[i])));
            i = i + 1;
        }
        digits
    }

    /// A PIN keyboard with the digit keys in the order `order` (a shuffle of
    /// the ten digits, see `keypad_content`): every digit is on exactly one
    /// key.
    pub fn new(
        major_prompt: TString<'a>,
        minor_prompt: TString<'a>,
        major_warning: Option<TString<'a>>,
        allow_cancel: bool,
        order: &[usize],
    ) -> (r: Self)
        requires
            is_digit_order(order@),
        ensures
            r.wf(),
            r.allow_cancel == allow_cancel,
            r.major_prompt == Label::new_spec(major_prompt, crate::button::Alignment::Start, TextStyle::TextSmall),
            r.minor_prompt == Label::new_spec(minor_prompt, crate::button::Alignment::End, TextStyle::TextSmall),
            r.major_warning == match major_warning {
                Some(t) => Some(Label::new_spec(t, crate::button::Alignment::Start, TextStyle::TextSmall)),
                None => None,
            },
            short_chars(r.textbox.digits) == Seq::<char>::empty(),
            r.textbox.display_style == DisplayStyle::Hidden,
            r.textbox.style == TextStyle::TextMonoLight,
            !r.close_confirm,
            !r.warning_timer.spec_running(),
            r.keypad.pressed is None,
            r.keypad.back_btn.spec_state() == ButtonState::Hidden,
            r.keypad.erase_btn.spec_state() == ButtonState::Hidden,
            r.keypad.confirm_btn.spec_state() == ButtonState::Hidden,
            r.keypad.cancel_btn.spec_state() == if allow_cancel {
                ButtonState::Enabled
            } else {
                ButtonState::Hidden
            },
            forall|i: int|
                0 <= i < DIGITS ==> {
                    &&& (#[trigger] r.keypad.keys@[i]).spec_state() == ButtonState::Enabled
                    &&& r.keypad.keys@[i].button.inner.styles == ButtonStyleSheet::KeyboardNumeric
                    &&& content_text(r.keypad.keys@[i].button.inner.content) == seq![digit_char(order@[i] as int)]
                },
            forall|i: int, j: int|
                0 <= i < j < DIGITS ==> content_text(r.keypad.keys@[i].button.inner.content) != content_text(
                    r.keypad.keys@[j].button.inner.content,
                ),
            forall|d: int| 0 <= d < DIGITS ==> #[trigger] digit_on_a_key(r.keypad, d),
    {
        let content = Self::keypad_content(order);
        let keypad = Keypad::<10>::new_empty(allow_cancel).with_keypad_content(
            content,
            ButtonStyleSheet::KeyboardNumeric,
        );
        let major_warning = match major_warning {
            Some(text) => Some(Label::left_aligned(text, TextStyle::TextSmall)),
            None => None,
        };
        let r = PinKeyboard {
            allow_cancel,
            major_prompt: Label::left_aligned(major_prompt, TextStyle::TextSmall),
            minor_prompt: Label::right_aligned(minor_prompt, TextStyle::TextSmall),
            major_warning,
            textbox: PinInput::new(TextStyle::TextMonoLight),
            keypad,
            warning_timer: Timer::new(),
            close_confirm: false,
        };
        proof {
            assert forall|i: int| 0 <= i < DIGITS implies {
                &&& (#[trigger] r.keypad.keys@[i]).button.inner.content is Text
                &&& content_text(r.keypad.keys@[i].button.inner.content).len() == 1
                &&& is_digit(content_text(r.keypad.keys@[i].button.inner.content)[0])
            } by {
                let k = order@[i] as int;
                assert(is_digit(digit_char(k)));
            }
            assert forall|i: int, j: int|
                0 <= i < j < DIGITS implies content_text(r.keypad.keys@[i].button.inner.content) != content_text(
                r.keypad.keys@[j].button.inner.content,
            ) by {
                assert(order@[i] != order@[j]);
                assert(content_text(r.keypad.keys@[i].button.inner.content)[0] == digit_char(order@[i] as int));
                assert(content_text(r.keypad.keys@[j].button.inner.content)[0] == digit_char(order@[j] as int));
            }
            assert forall|d: int| 0 <= d < DIGITS implies #[trigger] digit_on_a_key(r.keypad, d) by {
                lemma_digit_order_covers(order@, d);
                let i = choose|i: int| 0 <= i < DIGITS && order@[i] == d;
                assert(content_text(r.keypad.keys@[i].button.inner.content) == seq![digit_char(d)]);
            }
        }
        r
    }

    /// Lays the keyboard out in `bounds`: the keypad at the bottom, and the
    /// input with the prompts (inset) and the warning over the top.
    pub fn place(&mut self, bounds: Rect, m: &KeyboardMetrics) -> (r: Rect)
        requires
            old(self).wf(),
            bounds.wf(),
            grid_fits(bounds.spec_split_bottom(m.keypad_height as int).1, 4, 3),
            inset_fits(bounds.spec_split_top(m.input_touch_height as int).0, m.prompt_insets),
        ensures
            r == bounds,
            final(self).wf(),
            ({
                let keypad_area = bounds.spec_split_bottom(m.keypad_height as int).1;
                let touch_area = bounds.spec_split_top(m.input_touch_height as int).0;
                let prompt_area = spec_inset(touch_area, m.prompt_insets);
                &&& Keypad::<10>::spec_placed(old(self).keypad, final(self).keypad, keypad_area)
                &&& final(self).textbox == (PinInput { area: touch_area, ..old(self).textbox })
                &&& final(self).major_prompt == (Label { area: prompt_area, ..old(self).major_prompt })
                &&& final(self).minor_prompt == (Label { area: prompt_area, ..old(self).minor_prompt })
                &&& final(self).major_warning == match old(self).major_warning {
                    Some(w) => Some(Label { area: touch_area, ..w }),
                    None => None,
                }
            }),
            final(self).allow_cancel == old(self).allow_cancel,
            final(self).warning_timer == old(self).warning_timer,
            final(self).close_confirm == old(self).close_confirm,
    {
        let ghost s0 = *self;
        let (_, keypad_area) = bounds.split_bottom(m.keypad_height);
        let (input_touch_area, _) = bounds.split_top(m.input_touch_height);

        // Prompts and PIN dots display.
        self.textbox.place(input_touch_area);
        self.major_prompt.place(input_touch_area.inset(m.prompt_insets));
        self.minor_prompt.place(input_touch_area.inset(m.prompt_insets));
        match &mut self.major_warning {
            Some(w) => {
                w.place(input_touch_area);
            },
            None => {},
        }

        // Keypad placement
        self.keypad.place(keypad_area);
        proof {
            assert forall|i: int| 0 <= i < DIGITS implies {
                &&& (#[trigger] self.keypad.keys@[i]).button.inner.content is Text
                &&& content_text(self.keypad.keys@[i].button.inner.content).len() == 1
                &&& is_digit(content_text(self.keypad.keys@[i].button.inner.content)[0])
            } by {
                assert(self.keypad.keys@[i].button.inner.content == s0.keypad.keys@[i].button.inner.content);
            }
        }
        bounds
    }

    /// Puts the buttons into the states the PIN's fill calls for.
    pub fn pin_modified(&mut self, ctx: &mut EventCtx)
        requires
            old(self).keypad.wf(),
        ensures
            ({
                let (k, e, c, x) = pin_button_states(
                    short_chars(old(self).textbox.digits).len() >= MAX_LENGTH,
                    short_chars(old(self).textbox.digits).len() == 0,
                    old(self).allow_cancel,
                );
                keypad_states_applied(old(self).keypad, final(self).keypad, k, e, c, x)
            }),
            *final(self) == (PinKeyboard { keypad: final(self).keypad, ..*old(self) }),
            ctx_paint_only(*old(ctx), *final(ctx)),
    {
        let full = self.textbox.is_full();
        let empty = self.textbox.is_empty();
        let (keys_state, erase_state, confirm_state, cancel_state) = if full {
            // Full textbox
            (ButtonState::Disabled, ButtonState::Enabled, ButtonState::Enabled, ButtonState::Hidden)
        } else if empty {
            // Empty textbox
            (
                ButtonState::Enabled,
                ButtonState::Hidden,
                ButtonState::Disabled,
                if self.allow_cancel {
                    ButtonState::Enabled
                } else {
                    ButtonState::Hidden
                },
            )
        } else {
            // Partially filled textbox
            (ButtonState::Enabled, ButtonState::Enabled, ButtonState::Enabled, ButtonState::Hidden)
        };

        // Apply all button states in one place
        self.keypad.set_keys_state(ctx, &keys_state);
        self.keypad.set_button_state(ctx, ButtonType::Erase, erase_state);
        self.keypad.set_button_state(ctx, ButtonType::Confirm, confirm_state);
        self.keypad.set_button_state(ctx, ButtonType::Cancel, cancel_state);
    }

    pub fn pin(&self) -> (r: &str)
        ensures
            r@ == short_chars(self.textbox.digits),
    {
        self.textbox.pin()
    }

    /// The parts painted, in order: while the PIN is empty the warning (or the
    /// major prompt) and the minor prompt; then the keypad and the input, the
    /// input last when the PIN is shown in full.
    pub open spec fn spec_render(self) -> Seq<PinPart> {
        let empty = short_chars(self.textbox.digits).len() == 0;
        let prompts = if empty {
            seq![
                if self.major_warning is Some {
                    PinPart::MajorWarning
                } else {
                    PinPart::MajorPrompt
                },
                PinPart::MinorPrompt,
            ]
        } else {
            Seq::empty()
        };
        prompts + if !empty && self.textbox.display_style == DisplayStyle::Shown {
            seq![PinPart::Keypad, PinPart::Input]
        } else if !empty {
            seq![PinPart::Input, PinPart::Keypad]
        } else {
            seq![PinPart::Keypad]
        }
    }

    pub fn render(&self) -> (r: Vec<PinPart>)
        ensures
            r@ == self.spec_render(),
    {
        let empty = self.textbox.is_empty();
        let mut parts: Vec<PinPart> = Vec::new();

        // Render prompt when the pin is empty
        if empty {
            if self.major_warning.is_some() {
                parts.push(PinPart::MajorWarning);
            } else {
                parts.push(PinPart::MajorPrompt);
            }
            parts.push(PinPart::MinorPrompt);
        }

        // When the entire pin is shown, the input area might overlap the keypad so it
        // has to be render later
        if !empty && self.textbox.display_style == DisplayStyle::Shown {
            parts.push(PinPart::Keypad);
            parts.push(PinPart::Input);
        } else if !empty {
            parts.push(PinPart::Input);
            parts.push(PinPart::Keypad);
        } else {
            parts.push(PinPart::Keypad);
        }
        proof {
            assert(parts@ =~= self.spec_render());
        }
        parts
    }

    /// The warning's part of an event: attaching starts its timer, the timer
    /// firing removes the warning.
    fn handle_warning(&mut self, ctx: &mut EventCtx, event: Event)
        ensures
            final(self).keypad == old(self).keypad,
            final(self).textbox == old(self).textbox,
            final(self).allow_cancel == old(self).allow_cancel,
            final(self).major_prompt == old(self).major_prompt,
            final(self).minor_prompt == old(self).minor_prompt,
            final(self).close_confirm == old(self).close_confirm,
            spec_warning_step(*old(self), *final(self), *old(ctx), *final(ctx), event),
    {
        if event == Event::Attach && self.major_warning.is_some() {
            // Set up timer to switch off warning prompt.
            self.warning_timer.start(ctx, WARNING_TIMEOUT_MS);
        } else if let Event::Timer(_) = event {
            // Hide warning, show major prompt.
            if self.warning_timer.expire(event) {
                self.major_warning = None;
            }
        }
    }

    /// The input's part of an event: touching the input shows the PIN in full
    /// and disables the buttons, lifting the finger hides it again and enables
    /// them, and the last-digit timer hides the last digit.
    fn handle_input(&mut self, ctx: &mut EventCtx, event: Event) -> (r: Option<PinKeyboardMsg>)
        requires
            old(self).wf(),
        ensures
            r is None,
            final(self).wf(),
            spec_input_step(*old(self), *final(self), event),
            ctx_paint_only(*old(ctx), *final(ctx)),
    {
        match self.textbox.event(event) {
            Some(PinInputMsg::TouchStart) => {
                self.textbox.display_style = DisplayStyle::Shown;
                self.keypad.set_button_state(ctx, ButtonType::Confirm, ButtonState::Disabled);
                self.keypad.set_button_state(ctx, ButtonType::Erase, ButtonState::Disabled);
                self.keypad.set_keys_state(ctx, &ButtonState::Disabled);
                None
            },
            Some(PinInputMsg::TouchEnd) => {
                self.textbox.display_style = DisplayStyle::Hidden;
                // Enable back the buttons.
                self.keypad.set_button_state(ctx, ButtonType::Confirm, ButtonState::Enabled);
                self.keypad.set_button_state(ctx, ButtonType::Erase, ButtonState::Enabled);
                if !self.textbox.is_full() {
                    self.keypad.set_keys_state(ctx, &ButtonState::Enabled);
                }
                None
            },
            Some(PinInputMsg::LasDigitTimeout) => {
                self.textbox.display_style = DisplayStyle::Hidden;
                ctx.request_paint();
                None
            },
            None => None,
        }
    }

    /// Handles one event, given what the keypad's buttons report for it.
    pub fn event(&mut self, ctx: &mut EventCtx, event: Event, msgs: &KeypadButtonMsgs) -> (r: Option<
        PinKeyboardMsg,
    >)
        requires
            old(self).wf(),
            msgs.keys@.len() == DIGITS,
            keypad_outcome(msgs.dispatch_order(), old(self).keypad.pressed).1 matches Some(KeypadMsg::KeyClicked(_))
                ==> short_chars(old(self).textbox.digits).len() < MAX_LENGTH,
        ensures
            final(self).wf(),
            spec_pin_event(*old(self), *final(self), *old(ctx), *final(ctx), event, msgs.dispatch_order(), r),
    {
        let ghost s0 = *self;
        let ghost c0 = *ctx;
        self.handle_warning(ctx, event);
        let ghost s1 = *self;
        let ghost c1 = *ctx;
        let km = self.keypad.event(msgs);
        let ghost s2 = *self;
        match km {
            Some(KeypadMsg::KeyClicked(idx)) => {
                let content = *self.keypad.get_key_content(idx);
                match content {
                    ButtonContent::Text(text) => {
                        self.textbox.push(text);
                        self.textbox.last_digit_timer.start(ctx, LAST_DIGIT_TIMEOUT_MS);
                        self.textbox.display_style = DisplayStyle::LastOnly;
                        self.pin_modified(ctx);
                        proof {
                            assert forall|i: int| 0 <= i < short_chars(self.textbox.digits).len() implies is_digit(
                                #[trigger] short_chars(self.textbox.digits)[i],
                            ) by {
                                if i >= short_chars(s0.textbox.digits).len() {
                                    assert(self.keypad.keys@[idx as int] == s0.keypad.keys@[idx as int].with_state(
                                        pin_button_states(
                                            short_chars(self.textbox.digits).len() >= MAX_LENGTH,
                                            short_chars(self.textbox.digits).len() == 0,
                                            self.allow_cancel,
                                        ).0,
                                    ));
                                }
                            }
                            assert forall|i: int| 0 <= i < DIGITS implies {
                                &&& (#[trigger] self.keypad.keys@[i]).button.inner.content is Text
                                &&& content_text(self.keypad.keys@[i].button.inner.content).len() == 1
                                &&& is_digit(content_text(self.keypad.keys@[i].button.inner.content)[0])
                            } by {
                                assert(self.keypad.keys@[i].button.inner.content == s0.keypad.keys@[i].button.inner.content);
                            }
                        }
                        proof {
                            assert(spec_pin_event_via(s0, s1, *self, c0, c1, *ctx, event, msgs.dispatch_order(), None));
                        }
                        return None;
                    },
                    _ => {
                        proof {
                            assert(false);
                        }
                    },
                }
            },
            Some(KeypadMsg::EraseClicked) => {
                self.textbox.pop();
                self.pin_modified(ctx);
                proof {
                    assert forall|i: int| 0 <= i < DIGITS implies {
                        &&& (#[trigger] self.keypad.keys@[i]).button.inner.content is Text
                        &&& content_text(self.keypad.keys@[i].button.inner.content).len() == 1
                        &&& is_digit(content_text(self.keypad.keys@[i].button.inner.content)[0])
                    } by {
                        assert(self.keypad.keys@[i].button.inner.content == s0.keypad.keys@[i].button.inner.content);
                    }
                    assert forall|i: int| 0 <= i < short_chars(self.textbox.digits).len() implies is_digit(
                        #[trigger] short_chars(self.textbox.digits)[i],
                    ) by {
                        assert(short_chars(self.textbox.digits)[i] == short_chars(s0.textbox.digits)[i]);
                    }
                    assert(spec_pin_event_via(s0, s1, *self, c0, c1, *ctx, event, msgs.dispatch_order(), None));
                }
                return None;
            },
            Some(KeypadMsg::EraseLongPressed) => {
                self.textbox.clear();
                self.pin_modified(ctx);
                proof {
                    assert forall|i: int| 0 <= i < DIGITS implies {
                        &&& (#[trigger] self.keypad.keys@[i]).button.inner.content is Text
                        &&& content_text(self.keypad.keys@[i].button.inner.content).len() == 1
                        &&& is_digit(content_text(self.keypad.keys@[i].button.inner.content)[0])
                    } by {
                        assert(self.keypad.keys@[i].button.inner.content == s0.keypad.keys@[i].button.inner.content);
                    }
                    assert(spec_pin_event_via(s0, s1, *self, c0, c1, *ctx, event, msgs.dispatch_order(), None));
                }
                return None;
            },
            Some(KeypadMsg::CancelClicked) => {
                proof {
                    assert(spec_pin_event_via(s0, s1, *self, c0, c1, *ctx, event, msgs.dispatch_order(), Some(PinKeyboardMsg::Cancelled)));
                }
                return Some(PinKeyboardMsg::Cancelled);
            },
            Some(KeypadMsg::ConfirmClicked) => {
                proof {
                    assert(spec_pin_event_via(s0, s1, *self, c0, c1, *ctx, event, msgs.dispatch_order(), Some(PinKeyboardMsg::Confirmed)));
                }
                return Some(PinKeyboardMsg::Confirmed);
            },
            _ => {},
        }
        let r = self.handle_input(ctx, event);
        proof {
            assert forall|i: int| 0 <= i < DIGITS implies {
                &&& (#[trigger] self.keypad.keys@[i]).button.inner.content is Text
                &&& content_text(self.keypad.keys@[i].button.inner.content).len() == 1
                &&& is_digit(content_text(self.keypad.keys@[i].button.inner.content)[0])
            } by {
                assert(self.keypad.keys@[i].button.inner.content == s2.keypad.keys@[i].button.inner.content);
            }
            assert(spec_pin_event_via(s0, s1, *self, c0, c1, *ctx, event, msgs.dispatch_order(), r));
        }
        r
    }
}

/// The warning's part of an event: on attaching with a warning shown, the
/// warning timer starts; when that timer fires, the warning goes away.
pub open spec fn spec_warning_step(old: PinKeyboard, new: PinKeyboard, old_ctx: EventCtx, new_ctx: EventCtx, event: Event) -> bool {
    if event == Event::Attach && old.major_warning is Some {
        &&& new.major_warning == old.major_warning
        &&& new.warning_timer.spec_running()
        &&& new.warning_timer.spec_token() is Some
        &&& new_ctx.timers@ == old_ctx.timers@.push((new.warning_timer.spec_token()->0, WARNING_TIMEOUT_MS))
        &&& new_ctx.paint_requested == old_ctx.paint_requested
        &&& new_ctx.anim_frame_requested == old_ctx.anim_frame_requested
    } else {
        &&& new_ctx == old_ctx
        &&& new.warning_timer.spec_token() == old.warning_timer.spec_token()
        &&& if event is Timer && old.warning_timer.spec_fires(event) {
            &&& new.major_warning is None
            &&& !new.warning_timer.spec_running()
        } else {
            &&& new.major_warning == old.major_warning
            &&& new.warning_timer.spec_running() == old.warning_timer.spec_running()
        }
    }
}

/// The input's part of an event, by what the input area reports.
pub open spec fn spec_input_step(old: PinKeyboard, new: PinKeyboard, event: Event) -> bool {
    let full = short_chars(old.textbox.digits).len() >= MAX_LENGTH;
    &&& new.allow_cancel == old.allow_cancel
    &&& new.major_prompt == old.major_prompt
    &&& new.minor_prompt == old.minor_prompt
    &&& new.major_warning == old.major_warning
    &&& new.warning_timer == old.warning_timer
    &&& new.close_confirm == old.close_confirm
    &&& new.textbox.area == old.textbox.area
    &&& new.textbox.style == old.textbox.style
    &&& new.textbox.digits == old.textbox.digits
    &&& new.textbox.last_digit_timer.spec_token() == old.textbox.last_digit_timer.spec_token()
    &&& new.textbox.last_digit_timer.spec_running() == (old.textbox.last_digit_timer.spec_running()
        && !(input_event_checks_timer(old.textbox, event) && old.textbox.last_digit_timer.spec_fires(event)))
    &&& match spec_input_event(old.textbox, event) {
        Some(PinInputMsg::TouchStart) => {
            &&& new.textbox.display_style == DisplayStyle::Shown
            &&& keypad_some_states_applied(
                old.keypad,
                new.keypad,
                Some(ButtonState::Disabled),
                ButtonState::Disabled,
                ButtonState::Disabled,
            )
        },
        Some(PinInputMsg::TouchEnd) => {
            &&& new.textbox.display_style == DisplayStyle::Hidden
            &&& keypad_some_states_applied(
                old.keypad,
                new.keypad,
                if full {
                    None
                } else {
                    Some(ButtonState::Enabled)
                },
                ButtonState::Enabled,
                ButtonState::Enabled,
            )
        },
        Some(PinInputMsg::LasDigitTimeout) => {
            &&& new.textbox.display_style == DisplayStyle::Hidden
            &&& new.keypad == old.keypad
        },
        None => {
            &&& new.textbox.display_style == old.textbox.display_style
            &&& new.keypad == old.keypad
        },
    }
}

/// The PIN keyboard's handling of one event: first the warning's part; then
/// the keypad's message: a digit key appends its digit, shows it briefly and
/// restarts the last-digit timer, erase removes the last digit, a long press
/// of erase clears the PIN (each time the buttons follow the new fill), cancel
/// and confirm are reported; with no such message, the input's part.
pub open spec fn spec_pin_event(
    old: PinKeyboard,
    new: PinKeyboard,
    old_ctx: EventCtx,
    new_ctx: EventCtx,
    event: Event,
    reports: Seq<(ButtonType, Option<crate::button::ButtonMsg>)>,
    r: Option<PinKeyboardMsg>,
) -> bool {
    exists|mid: PinKeyboard, mid_ctx: EventCtx|
        #[trigger] spec_pin_event_via(old, mid, new, old_ctx, mid_ctx, new_ctx, event, reports, r)
}

/// `spec_pin_event` with `mid` and `mid_ctx` the keyboard and the context
/// after the warning's part.
pub open spec fn spec_pin_event_via(
    old: PinKeyboard,
    mid: PinKeyboard,
    new: PinKeyboard,
    old_ctx: EventCtx,
    mid_ctx: EventCtx,
    new_ctx: EventCtx,
    event: Event,
    reports: Seq<(ButtonType, Option<crate::button::ButtonMsg>)>,
    r: Option<PinKeyboardMsg>,
) -> bool {
    let (pressed, km) = keypad_outcome(reports, old.keypad.pressed);
    let pressed_kp = Keypad::<10> { pressed, ..old.keypad };
    {
        &&& spec_warning_step(old, mid, old_ctx, mid_ctx, event)
        &&& mid.keypad == old.keypad
        &&& mid.textbox == old.textbox
        &&& mid.allow_cancel == old.allow_cancel
        &&& mid.major_prompt == old.major_prompt
        &&& mid.minor_prompt == old.minor_prompt
        &&& mid.close_confirm == old.close_confirm
        &&& r == match km {
            Some(KeypadMsg::CancelClicked) => Some(PinKeyboardMsg::Cancelled),
            Some(KeypadMsg::ConfirmClicked) => Some(PinKeyboardMsg::Confirmed),
            _ => None,
        }
        &&& match km {
            Some(KeypadMsg::KeyClicked(idx)) => {
                let digits = short_chars(old.textbox.digits) + content_text(old.keypad.keys@[idx as int].button.inner.content);
                let states = pin_button_states(digits.len() >= MAX_LENGTH, digits.len() == 0, old.allow_cancel);
                &&& short_chars(new.textbox.digits) == digits
                &&& new.textbox == (PinInput {
                    digits: new.textbox.digits,
                    display_style: DisplayStyle::LastOnly,
                    last_digit_timer: new.textbox.last_digit_timer,
                    ..old.textbox
                })
                &&& new.textbox.last_digit_timer.spec_running()
                &&& new.textbox.last_digit_timer.spec_token() is Some
                &&& (old.textbox.last_digit_timer.spec_token() is Some ==> new.textbox.last_digit_timer.spec_token()
                    == old.textbox.last_digit_timer.spec_token())
                &&& new_ctx.timers@ == mid_ctx.timers@.push(
                    (new.textbox.last_digit_timer.spec_token()->0, LAST_DIGIT_TIMEOUT_MS),
                )
                &&& (mid_ctx.paint_requested ==> new_ctx.paint_requested)
                &&& new_ctx.anim_frame_requested == mid_ctx.anim_frame_requested
                &&& keypad_states_applied(pressed_kp, new.keypad, states.0, states.1, states.2, states.3)
                &&& new == (PinKeyboard { keypad: new.keypad, textbox: new.textbox, ..mid })
            },
            Some(KeypadMsg::EraseClicked) => {
                let digits = if short_chars(old.textbox.digits).len() > 0 {
                    short_chars(old.textbox.digits).drop_last()
                } else {
                    short_chars(old.textbox.digits)
                };
                let states = pin_button_states(digits.len() >= MAX_LENGTH, digits.len() == 0, old.allow_cancel);
                &&& new.textbox == (PinInput { digits: new.textbox.digits, ..old.textbox })
                &&& short_chars(new.textbox.digits) == digits
                &&& keypad_states_applied(pressed_kp, new.keypad, states.0, states.1, states.2, states.3)
                &&& new == (PinKeyboard { keypad: new.keypad, textbox: new.textbox, ..mid })
                &&& ctx_paint_only(mid_ctx, new_ctx)
            },
            Some(KeypadMsg::EraseLongPressed) => {
                let states = pin_button_states(false, true, old.allow_cancel);
                &&& new.textbox == (PinInput { digits: new.textbox.digits, ..old.textbox })
                &&& short_chars(new.textbox.digits) == Seq::<char>::empty()
                &&& keypad_states_applied(pressed_kp, new.keypad, states.0, states.1, states.2, states.3)
                &&& new == (PinKeyboard { keypad: new.keypad, textbox: new.textbox, ..mid })
                &&& ctx_paint_only(mid_ctx, new_ctx)
            },
            Some(KeypadMsg::CancelClicked) | Some(KeypadMsg::ConfirmClicked) => {
                &&& new == PinKeyboard { keypad: pressed_kp, ..mid }
                &&& new_ctx == mid_ctx
            },
            _ => {
                &&& spec_input_step(PinKeyboard { keypad: pressed_kp, ..mid }, new, event)
                &&& ctx_paint_only(mid_ctx, new_ctx)
            },
        }
    }
}

/// Law: erasing right after a digit key was clicked returns the PIN to what
/// it was before the click; neither event reports anything.
pub proof fn lemma_erase_undoes_digit(
    k0: PinKeyboard,
    k1: PinKeyboard,
    k2: PinKeyboard,
    c0: EventCtx,
    c1: EventCtx,
    c2: EventCtx,
    e1: Event,
    e2: Event,
    msgs1: KeypadButtonMsgs,
    msgs2: KeypadButtonMsgs,
    m1: Option<PinKeyboardMsg>,
    m2: Option<PinKeyboardMsg>,
)
    requires
        k0.wf(),
        msgs1.keys@.len() == DIGITS,
        keypad_outcome(msgs1.dispatch_order(), k0.keypad.pressed).1 matches Some(KeypadMsg::KeyClicked(_)),
        spec_pin_event(k0, k1, c0, c1, e1, msgs1.dispatch_order(), m1),
        keypad_outcome(msgs2.dispatch_order(), k1.keypad.pressed).1 == Some(KeypadMsg::EraseClicked),
        spec_pin_event(k1, k2, c1, c2, e2, msgs2.dispatch_order(), m2),
    ensures
        short_chars(k2.textbox.digits) == short_chars(k0.textbox.digits),
        m1 is None,
        m2 is None,
{
    lemma_dispatch_in_range(msgs1, k0.keypad.pressed, DIGITS as int);
    let (mid1, mc1) = choose|mid: PinKeyboard, mid_ctx: EventCtx|
        #[trigger] spec_pin_event_via(k0, mid, k1, c0, mid_ctx, c1, e1, msgs1.dispatch_order(), m1);
    let (mid2, mc2) = choose|mid: PinKeyboard, mid_ctx: EventCtx|
        #[trigger] spec_pin_event_via(k1, mid, k2, c1, mid_ctx, c2, e2, msgs2.dispatch_order(), m2);
    let idx = match keypad_outcome(msgs1.dispatch_order(), k0.keypad.pressed).1 {
        Some(KeypadMsg::KeyClicked(i)) => i,
        _ => 0,
    };
    assert(idx < DIGITS);
    let key = k0.keypad.keys@[idx as int];
    assert(content_text(key.button.inner.content).len() == 1);
    let digits = short_chars(k0.textbox.digits) + content_text(key.button.inner.content);
    assert(short_chars(k1.textbox.digits) == digits);
    assert(digits.drop_last() =~= short_chars(k0.textbox.digits));
}

/// Law: after an edit of the PIN (a digit key, erase, or a long press of
/// erase), the buttons follow the PIN's new length: every digit key is enabled
/// exactly while another digit fits, erase is shown (and enabled) exactly
/// while there is a digit to erase, confirm is enabled for a non-empty PIN and
/// disabled for an empty one, and cancel is offered only for an empty PIN
/// where cancelling is allowed.
pub proof fn lemma_edit_sets_buttons(
    old: PinKeyboard,
    new: PinKeyboard,
    old_ctx: EventCtx,
    new_ctx: EventCtx,
    event: Event,
    msgs: KeypadButtonMsgs,
    r: Option<PinKeyboardMsg>,
)
    requires
        old.wf(),
        msgs.keys@.len() == DIGITS,
        ({
            let km = keypad_outcome(msgs.dispatch_order(), old.keypad.pressed).1;
            km matches Some(KeypadMsg::KeyClicked(_)) || km == Some(KeypadMsg::EraseClicked) || km == Some(
                KeypadMsg::EraseLongPressed,
            )
        }),
        spec_pin_event(old, new, old_ctx, new_ctx, event, msgs.dispatch_order(), r),
    ensures
        ({
            let n = short_chars(new.textbox.digits).len();
            &&& forall|i: int|
                0 <= i < DIGITS ==> (#[trigger] new.keypad.keys@[i]).spec_state() == if n < MAX_LENGTH {
                    ButtonState::Enabled
                } else {
                    ButtonState::Disabled
                }
            &&& new.keypad.erase_btn.spec_state() == if n == 0 {
                ButtonState::Hidden
            } else {
                ButtonState::Enabled
            }
            &&& new.keypad.confirm_btn.spec_state() == if n == 0 {
                ButtonState::Disabled
            } else {
                ButtonState::Enabled
            }
            &&& new.keypad.cancel_btn.spec_state() == if n == 0 && old.allow_cancel {
                ButtonState::Enabled
            } else {
                ButtonState::Hidden
            }
        }),
        r is None,
{
    lemma_dispatch_in_range(msgs, old.keypad.pressed, DIGITS as int);
    let (mid, mc) = choose|mid: PinKeyboard, mid_ctx: EventCtx|
        #[trigger] spec_pin_event_via(old, mid, new, old_ctx, mid_ctx, new_ctx, event, msgs.dispatch_order(), r);
    let n = short_chars(new.textbox.digits).len();
    assert forall|i: int| 0 <= i < DIGITS implies (#[trigger] new.keypad.keys@[i]).spec_state() == if n
        < MAX_LENGTH {
        ButtonState::Enabled
    } else {
        ButtonState::Disabled
    } by {
        assert(new.keypad.keys@[i].spec_state() == new.keypad.keys@[i].spec_state());
    }
}

/// Law: when a touch on the input area ends, the PIN is hidden again and the
/// buttons are usable again: confirm and erase are shown and enabled, and the
/// digit keys are enabled while another digit fits (a full PIN leaves them as
/// they were).
pub proof fn lemma_touch_end_enables(
    old: PinKeyboard,
    new: PinKeyboard,
    old_ctx: EventCtx,
    new_ctx: EventCtx,
    event: Event,
    msgs: KeypadButtonMsgs,
    r: Option<PinKeyboardMsg>,
)
    requires
        msgs.keys@.len() == DIGITS,
        keypad_outcome(msgs.dispatch_order(), old.keypad.pressed).1 is None,
        spec_input_event(old.textbox, event) == Some(PinInputMsg::TouchEnd),
        spec_pin_event(old, new, old_ctx, new_ctx, event, msgs.dispatch_order(), r),
    ensures
        new.textbox.display_style == DisplayStyle::Hidden,
        new.keypad.confirm_btn.spec_state() == ButtonState::Enabled,
        new.keypad.erase_btn.spec_state() == ButtonState::Enabled,
        forall|i: int|
            0 <= i < DIGITS ==> (#[trigger] new.keypad.keys@[i]).spec_state() == if short_chars(
                old.textbox.digits,
            ).len() < MAX_LENGTH {
                ButtonState::Enabled
            } else {
                old.keypad.keys@[i].spec_state()
            },
        new.keypad.cancel_btn == old.keypad.cancel_btn,
        short_chars(new.textbox.digits) == short_chars(old.textbox.digits),
        r is None,
{
    let (mid, mc) = choose|mid: PinKeyboard, mid_ctx: EventCtx|
        #[trigger] spec_pin_event_via(old, mid, new, old_ctx, mid_ctx, new_ctx, event, msgs.dispatch_order(), r);
}

/// Law: peeking at the PIN (a touch on the input area that starts and then
/// ends) gives the buttons back the states they had before the touch, for a
/// keyboard whose buttons follow its PIN: digit keys enabled while another
/// digit fits and disabled otherwise, confirm and erase enabled.
pub proof fn lemma_peek_restores_buttons(
    k0: PinKeyboard,
    k1: PinKeyboard,
    k2: PinKeyboard,
    c0: EventCtx,
    c1: EventCtx,
    c2: EventCtx,
    e1: Event,
    e2: Event,
    msgs1: KeypadButtonMsgs,
    msgs2: KeypadButtonMsgs,
    m1: Option<PinKeyboardMsg>,
    m2: Option<PinKeyboardMsg>,
)
    requires
        forall|i: int|
            0 <= i < DIGITS ==> (#[trigger] k0.keypad.keys@[i]).spec_state() == if short_chars(
                k0.textbox.digits,
            ).len() < MAX_LENGTH {
                ButtonState::Enabled
            } else {
                ButtonState::Disabled
            },
        k0.keypad.confirm_btn.spec_state() == ButtonState::Enabled,
        k0.keypad.erase_btn.spec_state() == ButtonState::Enabled,
        msgs1.keys@.len() == DIGITS,
        msgs2.keys@.len() == DIGITS,
        keypad_outcome(msgs1.dispatch_order(), k0.keypad.pressed).1 is None,
        spec_input_event(k0.textbox, e1) == Some(PinInputMsg::TouchStart),
        spec_pin_event(k0, k1, c0, c1, e1, msgs1.dispatch_order(), m1),
        keypad_outcome(msgs2.dispatch_order(), k1.keypad.pressed).1 is None,
        spec_input_event(k1.textbox, e2) == Some(PinInputMsg::TouchEnd),
        spec_pin_event(k1, k2, c1, c2, e2, msgs2.dispatch_order(), m2),
    ensures
        forall|i: int| 0 <= i < DIGITS ==> (#[trigger] k2.keypad.keys@[i]).spec_state() == k0.keypad.keys@[i].spec_state(),
        k2.keypad.confirm_btn.spec_state() == k0.keypad.confirm_btn.spec_state(),
        k2.keypad.erase_btn.spec_state() == k0.keypad.erase_btn.spec_state(),
        k2.keypad.cancel_btn == k0.keypad.cancel_btn,
        k2.textbox.display_style == DisplayStyle::Hidden,
        short_chars(k2.textbox.digits) == short_chars(k0.textbox.digits),
{
    let (mid1, mc1) = choose|mid: PinKeyboard, mid_ctx: EventCtx|
        #[trigger] spec_pin_event_via(k0, mid, k1, c0, mid_ctx, c1, e1, msgs1.dispatch_order(), m1);
    let (mid2, mc2) = choose|mid: PinKeyboard, mid_ctx: EventCtx|
        #[trigger] spec_pin_event_via(k1, mid, k2, c1, mid_ctx, c2, e2, msgs2.dispatch_order(), m2);
    assert forall|i: int| 0 <= i < DIGITS implies (#[trigger] k2.keypad.keys@[i]).spec_state()
        == k0.keypad.keys@[i].spec_state() by {
        assert(k1.keypad.keys@[i] == k0.keypad.keys@[i].with_state(ButtonState::Disabled));
    }
}

} // verus!
