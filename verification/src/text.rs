use vstd::prelude::*;
use vstd::string::StrSliceExecFns;
use crate::button::Color;
use crate::component::{ctx_paint_only, Event, EventCtx, TimerToken};
use crate::geometry::{div_trunc, fits_i16, Point, Rect};

verus! {

/// Capacity of a text box, in characters.
pub const MAX_TEXT_LEN: usize = 50;

/// Calls `String::push`: the character is appended.
#[verifier::external_body]
pub(crate) fn string_push(s: &mut String, ch: char)
    ensures
        final(s)@ == old(s)@.push(ch),
{
    s.push(ch)
}

/// Calls `String::pop`: the last character is removed and returned, or `None`
/// for an empty string.
#[verifier::external_body]
pub(crate) fn string_pop(s: &mut String) -> (r: Option<char>)
    ensures
        old(s)@.len() == 0 ==> r is None && final(s)@ == old(s)@,
        old(s)@.len() > 0 ==> r == Some(old(s)@.last()) && final(s)@ == old(s)@.drop_last(),
{
    s.pop()
}

/// Whether two strings hold the same characters.
pub fn str_eq(a: &str, b: &str) -> (r: bool)
    ensures
        r == (a@ == b@),
{
    let n = a.unicode_len();
    if n != b.unicode_len() {
        return false;
    }
    let mut i: usize = 0;
    while i < n
        invariant
            i <= n,
            n == a@.len(),
            n == b@.len(),
            forall|k: int| 0 <= k < i ==> a@[k] == b@[k],
        decreases n - i,
    {
        if a.get_char(i) != b.get_char(i) {
            return false;
        }
        i = i + 1;
    }
    assert(a@ =~= b@);
    true
}

/// The number of characters of a string; the texts here are ASCII, where it is
/// also the number of bytes.
pub fn char_len(s: &str) -> (r: usize)
    ensures
        r == s@.len(),
{
    s.unicode_len()
}

/// How an entered secret is displayed.
#[derive(Clone, Copy, PartialEq, Eq, Structural, Debug)]
pub enum DisplayStyle {
    Hidden,
    Shown,
    LastOnly,
}

/// An edit of a text box.
#[derive(Clone, Copy, PartialEq, Eq, Structural, Debug)]
pub enum TextEdit {
    ReplaceLast(char),
    Append(char),
}

/// A text entered character by character, at most `max_len` characters long
/// when appended to.
pub struct TextBox {
    pub text: String,
    pub max_len: usize,
}

/// The text after `edit`: a replacement removes the last character and adds
/// the new one (the capacity permitting), an append adds it below `max_len`.
pub open spec fn spec_apply(text: Seq<char>, max_len: nat, edit: TextEdit) -> Seq<char> {
    match edit {
        TextEdit::ReplaceLast(ch) => {
            let popped = if text.len() > 0 { text.drop_last() } else { text };
            if popped.len() < MAX_TEXT_LEN {
                popped.push(ch)
            } else {
                popped
            }
        },
        TextEdit::Append(ch) => if text.len() < max_len && text.len() < MAX_TEXT_LEN {
            text.push(ch)
        } else {
            text
        },
    }
}

impl TextBox {
    /// The text is within the capacity.
    pub open spec fn wf(self) -> bool {
        &&& self.text@.len() <= MAX_TEXT_LEN
        &&& self.max_len <= MAX_TEXT_LEN
    }

    pub fn empty(max_len: usize) -> (r: Self)
        requires
            max_len <= MAX_TEXT_LEN,
        ensures
            r.wf(),
            r.text@ == Seq::<char>::empty(),
            r.max_len == max_len,
    {
        TextBox { text: String::new(), max_len }
    }

    pub fn content(&self) -> (r: &str)
        ensures
            r@ == self.text@,
    {
        self.text.as_str()
    }

    pub fn len(&self) -> (r: usize)
        requires
            self.wf(),
        ensures
            r == self.text@.len(),
    {
        char_len(self.text.as_str())
    }

    pub fn is_empty(&self) -> (r: bool)
        requires
            self.wf(),
        ensures
            r == (self.text@.len() == 0),
    {
        self.len() == 0
    }

    pub fn replace_last(&mut self, ch: char)
        requires
            old(self).wf(),
        ensures
            final(self).wf(),
            final(self).max_len == old(self).max_len,
            final(self).text@ == spec_apply(old(self).text@, old(self).max_len as nat, TextEdit::ReplaceLast(ch)),
    {
        string_pop(&mut self.text);
        if self.len() < MAX_TEXT_LEN {
            string_push(&mut self.text, ch);
        }
    }

    pub fn append(&mut self, ch: char)
        requires
            old(self).wf(),
        ensures
            final(self).wf(),
            final(self).max_len == old(self).max_len,
            final(self).text@ == spec_apply(old(self).text@, old(self).max_len as nat, TextEdit::Append(ch)),
    {
        if self.len() < self.max_len {
            string_push(&mut self.text, ch);
        }
    }

    /// Removes the last character, if any, and asks for a repaint.
    pub fn delete_last(&mut self, ctx: &mut EventCtx)
        requires
            old(self).wf(),
        ensures
            final(self).wf(),
            final(self).max_len == old(self).max_len,
            final(self).text@ == if old(self).text@.len() > 0 {
                old(self).text@.drop_last()
            } else {
                old(self).text@
            },
            final(ctx).paint_requested,
            ctx_paint_only(*old(ctx), *final(ctx)),
    {
        string_pop(&mut self.text);
        ctx.request_paint();
    }

    pub fn clear(&mut self, ctx: &mut EventCtx)
        requires
            old(self).wf(),
        ensures
            final(self).wf(),
            final(self).max_len == old(self).max_len,
            final(self).text@ == Seq::<char>::empty(),
            final(ctx).paint_requested,
            ctx_paint_only(*old(ctx), *final(ctx)),
    {
        self.text = String::new();
        ctx.request_paint();
    }

    /// Applies `edit` and asks for a repaint.
    pub fn apply(&mut self, ctx: &mut EventCtx, edit: TextEdit)
        requires
            old(self).wf(),
        ensures
            final(self).wf(),
            final(self).max_len == old(self).max_len,
            final(self).text@ == spec_apply(old(self).text@, old(self).max_len as nat, edit),
            final(ctx).paint_requested,
            ctx_paint_only(*old(ctx), *final(ctx)),
    {
        match edit {
            TextEdit::ReplaceLast(ch) => self.replace_last(ch),
            TextEdit::Append(ch) => self.append(ch),
        }
        ctx.request_paint();
    }
}

/// A key being cycled through: which key, how many times it was pressed since
/// it became pending (counting from zero), and the timer that ends it.
#[derive(Clone, Copy, PartialEq, Eq, Structural, Debug)]
pub struct Pending {
    pub key: usize,
    pub press: usize,
    pub timer: TimerToken,
}

/// Multi-tap text entry: repeated clicks on one key within the timeout cycle
/// through the characters of that key.
pub struct MultiTapKeyboard {
    pub timeout_ms: u32,
    pub pending: Option<Pending>,
}

/// Timeout of a pending key, in milliseconds.
pub const MULTI_TAP_TIMEOUT_MS: u32 = 1000;

impl MultiTapKeyboard {
    pub fn new() -> (r: Self)
        ensures
            r.timeout_ms == MULTI_TAP_TIMEOUT_MS,
            r.pending is None,
    {
        MultiTapKeyboard { timeout_ms: MULTI_TAP_TIMEOUT_MS, pending: None }
    }

    /// The key being cycled through, if any.
    pub fn pending_key(&self) -> (r: Option<usize>)
        ensures
            r == match self.pending {
                Some(p) => Some(p.key),
                None => None::<usize>,
            },
    {
        match self.pending {
            Some(p) => Some(p.key),
            None => None,
        }
    }

    /// The press count of the pending key, if any.
    pub fn pending_press(&self) -> (r: Option<usize>)
        ensures
            r == match self.pending {
                Some(p) => Some(p.press),
                None => None::<usize>,
            },
    {
        match self.pending {
            Some(p) => Some(p.press),
            None => None,
        }
    }

    /// Whether `event` is the timeout of the pending key.
    pub open spec fn spec_timeout_event(self, event: Event) -> bool {
        match (event, self.pending) {
            (Event::Timer(t), Some(p)) => p.timer == t,
            _ => false,
        }
    }

    pub fn timeout_event(&self, event: Event) -> (r: bool)
        ensures
            r == self.spec_timeout_event(event),
    {
        match (event, self.pending) {
            (Event::Timer(t), Some(p)) => p.timer == t,
            _ => false,
        }
    }

    /// Ends the pending state; a repaint removes the pending marker.
    pub fn clear_pending_state(&mut self, ctx: &mut EventCtx)
        ensures
            final(self).pending is None,
            final(self).timeout_ms == old(self).timeout_ms,
            final(ctx).paint_requested == (old(ctx).paint_requested || old(self).pending is Some),
            ctx_paint_only(*old(ctx), *final(ctx)),
    {
        if self.pending.is_some() {
            self.pending = None;
            ctx.request_paint();
        }
    }

    /// The press count a click on `key` makes: one more when the key is
    /// pending, else zero.
    pub open spec fn spec_press(self, key: usize) -> usize {
        match self.pending {
            Some(p) => if p.key == key {
                p.press.wrapping_add(1)
            } else {
                0
            },
            None => 0,
        }
    }

    /// Whether a click on `key` continues cycling through it.
    pub open spec fn spec_is_pending(self, key: usize) -> bool {
        self.pending matches Some(p) && p.key == key
    }

    /// The edit a click on `key` with characters `key_text` makes: while the
    /// key is pending, its last character is replaced by the next one of the
    /// key; otherwise the key's first character is appended.
    pub open spec fn spec_click(self, key: usize, key_text: Seq<char>) -> TextEdit {
        let ch = key_text[(self.spec_press(key) % (key_text.len() as usize)) as int];
        if self.spec_is_pending(key) {
            TextEdit::ReplaceLast(ch)
        } else {
            TextEdit::Append(ch)
        }
    }

    /// Handles a click on `key`; a key with more than one character becomes
    /// pending, with a new timeout timer.
    pub fn click_key(&mut self, ctx: &mut EventCtx, key: usize, key_text: &str) -> (r: TextEdit)
        requires
            key_text@.len() > 0,
        ensures
            r == old(self).spec_click(key, key_text@),
            final(self).timeout_ms == old(self).timeout_ms,
            key_text@.len() > 1 ==> final(self).pending == Some(
                Pending {
                    key,
                    press: old(self).spec_press(key),
                    timer: TimerToken { id: old(ctx).next_token },
                },
            ) && final(ctx).next_token == old(ctx).next_token.wrapping_add(1) && final(ctx).timers@
                == old(ctx).timers@.push((TimerToken { id: old(ctx).next_token }, old(self).timeout_ms)),
            key_text@.len() <= 1 ==> final(self).pending is None && final(ctx).next_token == old(ctx).next_token
                && final(ctx).timers@ == old(ctx).timers@,
            final(ctx).paint_requested == old(ctx).paint_requested,
            final(ctx).anim_frame_requested == old(ctx).anim_frame_requested,
    {
        let (is_pending, press) = match self.pending {
            Some(p) => {
                if p.key == key {
                    (true, p.press.wrapping_add(1))
                } else {
                    (false, 0)
                }
            },
            None => (false, 0),
        };
        let len = char_len(key_text);
        if len > 1 {
            let timer = ctx.request_timer(self.timeout_ms);
            self.pending = Some(Pending { key, press, timer });
        } else {
            self.pending = None;
        }
        let ch = key_text.get_char(press % len);
        if is_pending {
            TextEdit::ReplaceLast(ch)
        } else {
            TextEdit::Append(ch)
        }
    }
}

/// Law: deleting the last character undoes appending one to a text box that
/// was not full.
pub proof fn lemma_append_then_delete(text: Seq<char>, max_len: nat, ch: char)
    requires
        text.len() < max_len,
        max_len <= MAX_TEXT_LEN,
    ensures
        spec_apply(text, max_len, TextEdit::Append(ch)).len() > 0,
        spec_apply(text, max_len, TextEdit::Append(ch)).drop_last() == text,
{
    assert(text.push(ch).drop_last() =~= text);
}

/// Law: clicking a key with several characters cycles through them. A first
/// click appends the key's first character; each further click on the same
/// key while it is pending replaces the last character by the next one, back
/// to the first after the last.
pub proof fn lemma_multi_tap_cycles(mt: MultiTapKeyboard, key: usize, key_text: Seq<char>)
    requires
        0 < key_text.len() <= usize::MAX,
    ensures
        !mt.spec_is_pending(key) ==> mt.spec_click(key, key_text) == TextEdit::Append(key_text[0]),
        match mt.pending {
            Some(p) => p.key == key && p.press < usize::MAX ==> mt.spec_click(key, key_text)
                == TextEdit::ReplaceLast(key_text[((p.press + 1) % (key_text.len() as int))]),
            None => true,
        },
{
    let n = key_text.len() as usize;
    assert(n == key_text.len());
    if !mt.spec_is_pending(key) {
        assert(mt.spec_press(key) == 0);
        assert(0usize % n == 0);
    }
    if let Some(p) = mt.pending {
        if p.key == key && p.press < usize::MAX {
            assert(p.press.wrapping_add(1) == p.press + 1);
        }
    }
}

/// How many dots fade out for characters that do not fit.
pub const FADING_ICON_COUNT: usize = 4;

/// Horizontal distance between two dots.
pub const DOT_X_STEP: i16 = 12;

/// How far the dots jiggle to the right when they overflow.
pub const TWITCH: i16 = 4;

/// The color of fading dot `i`, darkest first.
pub open spec fn fading_color(i: int) -> Color {
    if i == 0 {
        Color::GreySuperDark
    } else if i == 1 {
        Color::GreyExtraDark
    } else if i == 2 {
        Color::GreyDark
    } else {
        Color::Grey
    }
}

fn fading_color_of(i: usize) -> (r: Color)
    ensures
        r == fading_color(i as int),
{
    if i == 0 {
        Color::GreySuperDark
    } else if i == 1 {
        Color::GreyExtraDark
    } else if i == 2 {
        Color::GreyDark
    } else {
        Color::Grey
    }
}

/// What is painted for a hidden secret, left to right.
#[derive(Clone, Copy, PartialEq, Eq, Structural, Debug)]
pub enum HiddenGlyph {
    /// A dot standing for characters that do not fit, faded to `color`.
    FadedDot { x: i16, y: i16, color: Color },
    /// A dot in the text color.
    Dot { x: i16, y: i16 },
    /// The last character, shown in clear.
    LastChar { x: i16, y: i16, ch: char },
    /// The marker of a character still being chosen, under the last one.
    PendingMarker { x: i16, y: i16 },
}

/// How many fading dots there are: one per character that does not fit, at
/// most `FADING_ICON_COUNT`.
pub open spec fn fading_count(len: int, shown_len: int) -> int {
    if len - shown_len <= 0 {
        0
    } else if len - shown_len >= FADING_ICON_COUNT {
        FADING_ICON_COUNT as int
    } else {
        len - shown_len
    }
}

/// How many dots there are: the fading ones, and dots in the text color up to
/// the characters that fit, less the last one when it is shown in clear.
pub open spec fn dot_count(len: int, shown_len: int, style: DisplayStyle) -> int {
    let visible = shown_len - (if style == DisplayStyle::LastOnly { 1int } else { 0int });
    let f = fading_count(len, shown_len);
    if visible > f {
        visible
    } else {
        f
    }
}

/// How far the dots move right: they jiggle when the text overflows and has an
/// even length, unless it is shown in full.
pub open spec fn twitch(len: int, shown_len: int, style: DisplayStyle) -> int {
    if len > shown_len && len % 2 == 0 && (style == DisplayStyle::Hidden || style == DisplayStyle::LastOnly) {
        TWITCH as int
    } else {
        0
    }
}

/// Dot `k` of a row starting at `x0` whose first `f` dots fade.
pub open spec fn dot_glyph(x0: int, y: i16, f: int, k: int) -> HiddenGlyph {
    if k < f {
        HiddenGlyph::FadedDot {
            x: (x0 + DOT_X_STEP * k) as i16,
            y,
            color: fading_color(FADING_ICON_COUNT - f + k),
        }
    } else {
        HiddenGlyph::Dot { x: (x0 + DOT_X_STEP * k) as i16, y }
    }
}

/// The glyphs painted for the hidden `text`, of which `shown_len` characters
/// fit: starting at `cursor`, one dot per step of `DOT_X_STEP`, the fading
/// ones first with the darkest colors left out as fewer characters overflow,
/// then the last character at height `last_y` when only it is shown, with the
/// pending marker if `marker`.
pub open spec fn spec_hidden_glyphs(
    cursor: Point,
    text: Seq<char>,
    shown_len: int,
    style: DisplayStyle,
    last_y: int,
    marker: bool,
) -> Seq<HiddenGlyph> {
    let len = text.len() as int;
    if len == 0 {
        Seq::empty()
    } else {
        let x0 = cursor.x + twitch(len, shown_len, style);
        let f = fading_count(len, shown_len);
        let n = dot_count(len, shown_len, style);
        let dots = Seq::new(n as nat, |k: int| dot_glyph(x0, cursor.y, f, k));
        let x_last = (x0 + DOT_X_STEP * n) as i16;
        dots + if style == DisplayStyle::LastOnly {
            seq![HiddenGlyph::LastChar { x: x_last, y: last_y as i16, ch: text.last() }] + if marker {
                seq![HiddenGlyph::PendingMarker { x: x_last, y: last_y as i16 }]
            } else {
                Seq::empty()
            }
        } else {
            Seq::empty()
        }
    }
}

/// Lays out the hidden `text`, of which `shown_len` characters fit, from
/// `cursor`; see `spec_hidden_glyphs`.
pub fn hidden_glyphs(
    cursor: Point,
    text: &str,
    shown_len: usize,
    style: DisplayStyle,
    last_y: i16,
    marker: bool,
) -> (r: Vec<HiddenGlyph>)
    requires
        text@.len() > 0 && style == DisplayStyle::LastOnly ==> shown_len >= 1,
        text@.len() > 0 ==> fits_i16(
            cursor.x + TWITCH + DOT_X_STEP * dot_count(text@.len() as int, shown_len as int, style),
        ),
    ensures
        r@ == spec_hidden_glyphs(cursor, text@, shown_len as int, style, last_y as int, marker),
{
    let mut out: Vec<HiddenGlyph> = Vec::new();
    let len = char_len(text);
    if len == 0 {
        return out;
    }
    let last_only = style == DisplayStyle::LastOnly;
    let ghost tw = twitch(len as int, shown_len as int, style);
    let ghost f = fading_count(len as int, shown_len as int);
    let ghost n = dot_count(len as int, shown_len as int, style);
    let visible: usize = if last_only {
        shown_len - 1
    } else {
        shown_len
    };
    let mut x: i16 = cursor.x;
    // Jiggle when overflowed.
    if len > shown_len && len % 2 == 0 && (style == DisplayStyle::Hidden || style == DisplayStyle::LastOnly) {
        x = x + TWITCH;
    }
    let ghost x0 = x as int;
    assert(x0 == cursor.x + tw);
    let ghost dots = Seq::new(n as nat, |k: int| dot_glyph(x0, cursor.y, f, k));
    // Greyed out overflowing icons
    let mut char_idx: usize = 0;
    let mut i: usize = 0;
    while i < FADING_ICON_COUNT
        invariant
            i <= FADING_ICON_COUNT,
            len == text@.len(),
            len > 0,
            f == fading_count(len as int, shown_len as int),
            n == dot_count(len as int, shown_len as int, style),
            char_idx == (if i as int + f - FADING_ICON_COUNT > 0 { i as int + f - FADING_ICON_COUNT } else { 0 }),
            x == x0 + DOT_X_STEP * char_idx,
            fits_i16(x0 + DOT_X_STEP * n),
            n >= f,
            0 <= f <= FADING_ICON_COUNT,
            f == (if len - shown_len <= 0 { 0 } else if len - shown_len >= 4 { 4 } else { len - shown_len }),
            dots == Seq::new(n as nat, |k: int| dot_glyph(x0, cursor.y, f, k)),
            out@ == dots.subrange(0, char_idx as int),
        decreases FADING_ICON_COUNT - i,
    {
        if len > shown_len + (FADING_ICON_COUNT - 1 - i) {
            assert(char_idx < f);
            assert(dots[char_idx as int] == HiddenGlyph::FadedDot {
                x: x,
                y: cursor.y,
                color: fading_color(i as int),
            });
            out.push(HiddenGlyph::FadedDot { x, y: cursor.y, color: fading_color_of(i) });
            assert(out@ =~= dots.subrange(0, char_idx + 1));
            x = x + DOT_X_STEP;
            char_idx = char_idx + 1;
        }
        i = i + 1;
    }
    assert(char_idx == f);
    // Classical dots
    let mut k: usize = char_idx;
    while k < visible
        invariant
            f <= k <= n,
            n == dot_count(len as int, shown_len as int, style),
            n == (if visible > f { visible as int } else { f }),
            x == x0 + DOT_X_STEP * k,
            fits_i16(x0 + DOT_X_STEP * n),
            dots == Seq::new(n as nat, |k: int| dot_glyph(x0, cursor.y, f, k)),
            out@ == dots.subrange(0, k as int),
        decreases visible - k,
    {
        assert(dots[k as int] == HiddenGlyph::Dot { x: x, y: cursor.y });
        out.push(HiddenGlyph::Dot { x, y: cursor.y });
        assert(out@ =~= dots.subrange(0, k + 1));
        x = x + DOT_X_STEP;
        k = k + 1;
    }
    assert(k as int == n);
    assert(out@ =~= dots);
    if last_only {
        let last = text.get_char(len - 1);
        out.push(HiddenGlyph::LastChar { x, y: last_y, ch: last });
        if marker {
            out.push(HiddenGlyph::PendingMarker { x, y: last_y });
        }
    }
    proof {
        let expected = spec_hidden_glyphs(cursor, text@, shown_len as int, style, last_y as int, marker);
        assert(out@ =~= expected);
    }
    out
}

/// Most lines a secret shown in full takes.
pub const MAX_LINES: usize = 10;

/// The lines held by a line vector, in order, by their characters.
pub uninterp spec fn line_vec_items(v: heapless::Vec<&str, 10>) -> Seq<Seq<char>>;

/// Calls `heapless::Vec::new`: the new vector is empty.
#[verifier::external_body]
fn line_vec_new<'a>() -> (v: heapless::Vec<&'a str, 10>)
    ensures
        line_vec_items(v) == Seq::<Seq<char>>::empty(),
{
    heapless::Vec::new()
}

/// Calls `heapless::Vec::push`: below the capacity of 10 the line is appended
/// and `true` returned; at capacity the vector is unchanged and `false`
/// returned.
#[verifier::external_body]
fn line_vec_push<'a>(v: &mut heapless::Vec<&'a str, 10>, line: &'a str) -> (pushed: bool)
    ensures
        pushed <==> line_vec_items(*old(v)).len() < 10,
        line_vec_items(*final(v)) == (if line_vec_items(*old(v)).len() < 10 {
            line_vec_items(*old(v)).push(line@)
        } else {
            line_vec_items(*old(v))
        }),
{
    v.push(line).is_ok()
}

/// Calls `heapless::Vec::as_slice`: the slice shows the lines in order; a
/// vector of capacity 10 holds at most 10 of them.
#[verifier::external_body]
fn line_vec_as_slice<'a, 'b>(v: &'b heapless::Vec<&'a str, 10>) -> (s: &'b [&'a str])
    ensures
        s@.len() == line_vec_items(*v).len(),
        s@.len() <= 10,
        forall|i: int| 0 <= i < s@.len() ==> #[trigger] s@[i]@ == line_vec_items(*v)[i],
{
    v.as_slice()
}

/// The lines written one after the other.
pub open spec fn concat_lines(lines: Seq<Seq<char>>) -> Seq<char>
    decreases lines.len(),
{
    if lines.len() == 0 {
        Seq::empty()
    } else {
        concat_lines(lines.drop_last()) + lines.last()
    }
}

/// Splits `text` into lines of at most `line_width` pixels: `fit` tells how
/// many characters of a text fit into a width (the text is ASCII, so that is
/// also a number of bytes). At most `MAX_LINES` lines are made; together they
/// are the beginning of the text, all of it when fewer lines were needed.
pub fn split_text_into_lines<'a, F: Fn(i16, &str) -> usize>(text: &'a str, fit: &F, line_width: i16) -> (r:
    heapless::Vec<&'a str, 10>)
    requires
        forall|w: i16, s: &str| #[trigger] fit.requires((w, s)),
        forall|w: i16, s: &str, n: usize| fit.ensures((w, s), n) ==> n <= s@.len(),
    ensures
        line_vec_items(r).len() <= MAX_LINES,
        text@.subrange(0, concat_lines(line_vec_items(r)).len() as int) == concat_lines(line_vec_items(r)),
        concat_lines(line_vec_items(r)).len() <= text@.len(),
        line_vec_items(r).len() < MAX_LINES ==> concat_lines(line_vec_items(r)) == text@,
{
    let mut lines = line_vec_new();
    let mut remaining: &'a str = text;
    let mut remaining_len = char_len(remaining);
    let mut count: usize = 0;
    while remaining_len > 0 && count < MAX_LINES
        invariant
            forall|w: i16, s: &str| #[trigger] fit.requires((w, s)),
            forall|w: i16, s: &str, n: usize| fit.ensures((w, s), n) ==> n <= s@.len(),
            count <= MAX_LINES,
            line_vec_items(lines).len() == count,
            remaining_len == remaining@.len(),
            concat_lines(line_vec_items(lines)) + remaining@ == text@,
        decreases MAX_LINES - count,
    {
        let chars_fit = fit(line_width, remaining);
        let line = remaining.substring_char(0, chars_fit);
        let ghost before = line_vec_items(lines);
        line_vec_push(&mut lines, line);
        proof {
            let after = line_vec_items(lines);
            assert(after.drop_last() =~= before);
            assert(concat_lines(after) == concat_lines(before) + line@);
        }
        let rest = remaining.substring_char(chars_fit, remaining_len);
        proof {
            assert(line@ + rest@ =~= remaining@);
            assert(concat_lines(line_vec_items(lines)) + rest@ =~= text@);
        }
        remaining = rest;
        remaining_len = remaining_len - chars_fit;
        count = count + 1;
    }
    proof {
        let c = concat_lines(line_vec_items(lines));
        assert(text@.subrange(0, c.len() as int) =~= c);
        if count < MAX_LINES {
            assert(remaining@.len() == 0);
            assert(c =~= text@);
        }
    }
    lines
}

/// Vertical distance between the baselines of two lines of a shown secret.
pub const LINE_Y_STEP: i16 = 32;

/// What is painted for a secret shown in full: a background bar and the
/// texts, each with the point it is drawn at: its center when `centered`,
/// else the start of its baseline.
pub struct ShownText<'a> {
    pub bar: Rect,
    pub centered: bool,
    pub texts: Vec<(Point, &'a str)>,
}

/// Each line at `start`, moved down by `LINE_Y_STEP` per line.
pub fn lines_from<'a>(lines: &heapless::Vec<&'a str, 10>, start: Point) -> (r: Vec<(Point, &'a str)>)
    requires
        fits_i16(start.y + LINE_Y_STEP * MAX_LINES),
    ensures
        r@.len() == line_vec_items(*lines).len(),
        forall|i: int|
            0 <= i < r@.len() ==> (#[trigger] r@[i]).0 == (Point { x: start.x, y: (start.y + LINE_Y_STEP * i) as i16 })
                && r@[i].1@ == line_vec_items(*lines)[i],
{
    let items = line_vec_as_slice(lines);
    let mut out: Vec<(Point, &'a str)> = Vec::new();
    let mut baseline = start;
    let mut i: usize = 0;
    while i < items.len()
        invariant
            i <= items@.len(),
            items@.len() == line_vec_items(*lines).len(),
            items@.len() <= MAX_LINES,
            forall|j: int| 0 <= j < items@.len() ==> #[trigger] items@[j]@ == line_vec_items(*lines)[j],
            fits_i16(start.y + LINE_Y_STEP * MAX_LINES),
            baseline == (Point { x: start.x, y: (start.y + LINE_Y_STEP * i) as i16 }),
            out@.len() == i,
            forall|j: int|
                0 <= j < i ==> (#[trigger] out@[j]).0 == (Point { x: start.x, y: (start.y + LINE_Y_STEP * j) as i16 })
                    && out@[j].1@ == line_vec_items(*lines)[j],
        decreases items@.len() - i,
    {
        out.push((baseline, items[i]));
        baseline = Point { x: baseline.x, y: baseline.y + LINE_Y_STEP };
        i = i + 1;
    }
    out
}

/// `lines` are how a text splits into lines: at most `MAX_LINES` of them,
/// together the beginning of the text, all of it when fewer lines were needed.
pub open spec fn splits_into(text: Seq<char>, lines: Seq<Seq<char>>) -> bool {
    let c = concat_lines(lines);
    &&& lines.len() <= MAX_LINES
    &&& c.len() <= text.len()
    &&& text.subrange(0, c.len() as int) == c
    &&& lines.len() < MAX_LINES ==> c == text
}

/// `texts` are `lines` drawn from `start` down, `LINE_Y_STEP` apart.
pub open spec fn texts_at(texts: Seq<(Point, &str)>, lines: Seq<Seq<char>>, start: Point) -> bool {
    &&& texts.len() == lines.len()
    &&& forall|i: int|
        0 <= i < texts.len() ==> (#[trigger] texts[i]).0 == (Point { x: start.x, y: (start.y + LINE_Y_STEP * i) as i16 })
            && texts[i].1@ == lines[i]
}

/// How many lines a line vector holds.
pub fn line_count(lines: &heapless::Vec<&str, 10>) -> (n: usize)
    ensures
        n == line_vec_items(*lines).len(),
{
    line_vec_as_slice(lines).len()
}

/// The lines of a secret shown in full in `area` stay within `i16`
/// coordinates, however many lines there are.
pub open spec fn shown_fits(area: Rect, text_height: int) -> bool {
    &&& area.wf()
    &&& fits_i16(area.y1 - LINE_Y_STEP)
    &&& fits_i16(area.y1 + LINE_Y_STEP * (MAX_LINES - 1))
    &&& fits_i16(20 + text_height)
    &&& fits_i16(area.y0 + 20 + text_height)
    &&& fits_i16(area.y0 + 20 + text_height + LINE_Y_STEP * MAX_LINES)
    &&& fits_i16(area.y0 + area.spec_height() / 2 + div_trunc(text_height, 2))
}

/// What an input area paints: nothing, its secret in full, or its secret
/// hidden.
pub enum InputPaint<'a> {
    Nothing,
    Shown(ShownText<'a>),
    Hidden(Vec<HiddenGlyph>),
}

} // verus!
