use vstd::prelude::*;
use crate::geometry::{div_trunc, fits_i16, Offset, Point, Rect};
use crate::pager::{last_page, Pager};
use crate::text::{str_eq, string_push};

verus! {

/// Most words a share has (a super-shamir share has 33).
pub const MAX_WORDS: usize = 33;

#[verifier::external_type_specification]
#[verifier::external_body]
#[verifier::reject_recursive_types(T)]
pub struct ExHeaplessVec<T, const N: usize>(heapless::Vec<T, N>);

/// The indices held by an index vector, in order.
pub uninterp spec fn index_vec_items(v: heapless::Vec<u8, 33>) -> Seq<u8>;

/// The words held by a word vector, in order, by their characters.
pub uninterp spec fn word_vec_items(v: heapless::Vec<&str, 33>) -> Seq<Seq<char>>;

/// Calls `heapless::Vec::new`: the new vector is empty.
#[verifier::external_body]
fn index_vec_new() -> (v: heapless::Vec<u8, 33>)
    ensures
        index_vec_items(v) == Seq::<u8>::empty(),
{
    heapless::Vec::new()
}

/// Calls `heapless::Vec::push`: below the capacity of 33 the item is appended
/// and `true` returned; at capacity the vector is unchanged and `false`
/// returned.
#[verifier::external_body]
fn index_vec_push(v: &mut heapless::Vec<u8, 33>, item: u8) -> (pushed: bool)
    ensures
        pushed <==> index_vec_items(*old(v)).len() < 33,
        index_vec_items(*final(v)) == (if index_vec_items(*old(v)).len() < 33 {
            index_vec_items(*old(v)).push(item)
        } else {
            index_vec_items(*old(v))
        }),
{
    v.push(item).is_ok()
}

/// Calls `heapless::Vec::as_slice`: the slice shows the items in order.
#[verifier::external_body]
fn index_vec_as_slice(v: &heapless::Vec<u8, 33>) -> (s: &[u8])
    ensures
        s@ == index_vec_items(*v),
{
    v.as_slice()
}

/// Calls `heapless::Vec::as_slice`: the slice shows the words in order; a
/// vector of capacity 33 holds at most 33 of them.
#[verifier::external_body]
fn word_vec_as_slice<'a, 'b>(v: &'b heapless::Vec<&'a str, 33>) -> (s: &'b [&'a str])
    ensures
        s@.len() == word_vec_items(*v).len(),
        s@.len() <= 33,
        forall|i: int| 0 <= i < s@.len() ==> #[trigger] s@[i]@ == word_vec_items(*v)[i],
{
    v.as_slice()
}

/// Whether word `i` already occurs before position `i`.
pub open spec fn occurs_before(words: Seq<Seq<char>>, i: int) -> bool {
    exists|j: int| 0 <= j < i && #[trigger] words[j] == words[i]
}

/// The positions among the first `n` whose word occurs earlier, in order.
pub open spec fn repeated_upto(words: Seq<Seq<char>>, n: int) -> Seq<u8>
    decreases n,
{
    if n <= 0 {
        Seq::empty()
    } else {
        repeated_upto(words, n - 1) + if occurs_before(words, n - 1) {
            seq![(n - 1) as u8]
        } else {
            Seq::empty()
        }
    }
}

/// The characters of the words of a slice.
pub open spec fn words_of(words: Seq<&str>) -> Seq<Seq<char>> {
    Seq::new(words.len(), |i: int| words[i]@)
}

/// Law: a position is listed as repeated exactly when its word occurs
/// earlier; the list is ascending and no longer than the words.
pub proof fn lemma_repeated_upto(words: Seq<Seq<char>>, n: int)
    requires
        0 <= n <= words.len(),
        n <= 256,
    ensures
        repeated_upto(words, n).len() <= n,
        forall|k: int| 0 <= k < repeated_upto(words, n).len() ==> #[trigger] repeated_upto(words, n)[k] < n,
        forall|i: int| 0 <= i < n ==> (repeated_upto(words, n).contains(i as u8) <==> occurs_before(words, i)),
        forall|a: int, b: int|
            0 <= a < b < repeated_upto(words, n).len() ==> repeated_upto(words, n)[a] < repeated_upto(words, n)[b],
    decreases n,
{
    if n > 0 {
        lemma_repeated_upto(words, n - 1);
        let prev = repeated_upto(words, n - 1);
        let cur = repeated_upto(words, n);
        assert forall|i: int| 0 <= i < n implies (cur.contains(i as u8) <==> occurs_before(words, i)) by {
            if occurs_before(words, n - 1) {
                assert(cur == prev.push((n - 1) as u8));
                if cur.contains(i as u8) {
                    let k = choose|k: int| 0 <= k < cur.len() && cur[k] == i as u8;
                    if k < prev.len() {
                        assert(prev[k] == cur[k]);
                        assert(prev.contains(i as u8));
                    }
                }
                if i < n - 1 && prev.contains(i as u8) {
                    let k = choose|k: int| 0 <= k < prev.len() && prev[k] == i as u8;
                    assert(cur[k] == i as u8);
                }
                if i == n - 1 {
                    assert(cur[prev.len() as int] == (n - 1) as u8);
                }
            } else {
                assert(cur =~= prev);
            }
        }
    }
}

/// Left padding of the line next to the ordinal number.
pub const ORDINAL_PADDING: i16 = 16;

/// What the share words component paints for the current page: the ordinal
/// number of the word at the top left, a line from the ordinal to the right
/// edge along the top, a line along the bottom, and the word centered.
pub struct ShareWordsFrame<'a> {
    pub ordinal: u8,
    pub ordinal_pos: Point,
    pub top_line: Rect,
    pub bottom_line: Rect,
    pub word: &'a str,
    pub word_baseline: Point,
}

/// The character of decimal digit `d`.
pub open spec fn decimal_digit(d: int) -> char {
    (48 + d) as char
}

/// The decimal digits of `n`, most significant first.
pub open spec fn decimal(n: nat) -> Seq<char>
    decreases n,
{
    if n < 10 {
        seq![decimal_digit(n as int)]
    } else {
        decimal(n / 10).push(decimal_digit((n % 10) as int))
    }
}

/// The character of decimal digit `d`.
fn digit_char_of(d: u8) -> (r: char)
    requires
        d < 10,
    ensures
        r == decimal_digit(d as int),
{
    (48u8 + d) as char
}

impl<'a> ShareWordsFrame<'a> {
    /// The text of the ordinal number: its decimal digits.
    pub fn ordinal_text(&self) -> (r: String)
        ensures
            r@ == decimal(self.ordinal as nat),
    {
        let n = self.ordinal;
        let mut text = String::new();
        if n >= 100 {
            string_push(&mut text, digit_char_of(n / 100));
        }
        if n >= 10 {
            string_push(&mut text, digit_char_of((n / 10) % 10));
        }
        string_push(&mut text, digit_char_of(n % 10));
        proof {
            reveal_with_fuel(decimal, 3);
            if n >= 100 {
                assert((n / 10) as nat / 10 == n / 100);
                assert(text@ =~= seq![decimal_digit((n / 100) as int), decimal_digit(((n / 10) % 10) as int), decimal_digit((n % 10) as int)]);
            } else if n >= 10 {
                assert(text@ =~= seq![decimal_digit((n / 10) as int), decimal_digit((n % 10) as int)]);
            }
        }
        text
    }
}

/// Component showing the words of a share during backup, one word per page.
pub struct ShareWords<'a> {
    pub share_words: heapless::Vec<&'a str, 33>,
    pub area: Rect,
    pub repeated_indices: heapless::Vec<u8, 33>,
    pub pager: Pager,
}

impl<'a> ShareWords<'a> {
    /// The repeated positions are those of the words, and there is a page per
    /// word.
    pub open spec fn wf(self) -> bool {
        let words = word_vec_items(self.share_words);
        &&& index_vec_items(self.repeated_indices) == repeated_upto(words, words.len() as int)
        &&& self.pager.total == words.len()
        &&& self.pager.wf()
        &&& words.len() <= MAX_WORDS
    }

    /// The positions of the words that occur earlier among the words, in
    /// ascending order.
    fn find_repeated(share_words: &[&str]) -> (r: heapless::Vec<u8, 33>)
        requires
            share_words@.len() <= MAX_WORDS,
        ensures
            index_vec_items(r) == repeated_upto(words_of(share_words@), share_words@.len() as int),
    {
        let ghost words = words_of(share_words@);
        let mut repeated_indices = index_vec_new();
        let mut i: usize = 0;
        while i < share_words.len()
            invariant
                i <= share_words@.len() <= MAX_WORDS,
                words == words_of(share_words@),
                index_vec_items(repeated_indices) == repeated_upto(words, i as int),
            decreases share_words@.len() - i,
        {
            proof {
                lemma_repeated_upto(words, i as int);
            }
            let word = share_words[i];
            let mut found = false;
            let mut j: usize = 0;
            while j < i
                invariant
                    j <= i < share_words@.len(),
                    words == words_of(share_words@),
                    word == share_words@[i as int],
                    found <==> exists|k: int| 0 <= k < j && #[trigger] words[k] == words[i as int],
                decreases i - j,
            {
                proof {
                    assert(words[j as int] == share_words@[j as int]@);
                    assert(words[i as int] == word@);
                }
                if str_eq(share_words[j], word) {
                    found = true;
                }
                j = j + 1;
            }
            if found {
                index_vec_push(&mut repeated_indices, i as u8);
            }
            proof {
                assert(found == occurs_before(words, i as int));
            }
            i = i + 1;
        }
        repeated_indices
    }

    /// Shows `share_words`, starting with the first one.
    pub fn new(share_words: heapless::Vec<&'a str, 33>) -> (r: Self)
        ensures
            r.wf(),
            word_vec_items(r.share_words) == word_vec_items(share_words),
            r.pager == (Pager { current: 0, total: word_vec_items(share_words).len() as u16 }),
    {
        let words = word_vec_as_slice(&share_words);
        proof {
            assert(words_of(words@) =~= word_vec_items(share_words));
        }
        let repeated_indices = Self::find_repeated(words);
        let pager = Pager::new(words.len() as u16);
        ShareWords { share_words, area: Rect::zero(), repeated_indices, pager }
    }

    /// Whether the word on the current page occurs on an earlier page.
    pub fn is_repeated(&self) -> (r: bool)
        requires
            self.wf(),
        ensures
            r == (self.pager.current < word_vec_items(self.share_words).len() && occurs_before(
                word_vec_items(self.share_words),
                self.pager.current as int,
            )),
    {
        let ghost words = word_vec_items(self.share_words);
        proof {
            lemma_repeated_upto(words, words.len() as int);
        }
        let items = index_vec_as_slice(&self.repeated_indices);
        let current = self.pager.current();
        let mut i: usize = 0;
        while i < items.len()
            invariant
                i <= items@.len(),
                items@ == repeated_upto(words, words.len() as int),
                forall|k: int| 0 <= k < i ==> items@[k] != current,
                forall|k: int| 0 <= k < items@.len() ==> #[trigger] items@[k] < words.len(),
                forall|x: int| 0 <= x < words.len() ==> (items@.contains(x as u8) <==> occurs_before(words, x)),
                words.len() <= 33,
                current == self.pager.current,
                words == word_vec_items(self.share_words),
            decreases items@.len() - i,
        {
            if items[i] as u16 == current {
                proof {
                    assert(items@[i as int] < words.len());
                    assert(current < words.len());
                    assert(current as u8 == items@[i as int]);
                    assert(items@.contains(current as u8));
                }
                return true;
            }
            i = i + 1;
        }
        proof {
            if current < words.len() && occurs_before(words, current as int) {
                assert(items@.contains(current as u8));
                let k = choose|k: int| 0 <= k < items@.len() && items@[k] == current as u8;
                assert(items@[k] < words.len());
            }
        }
        false
    }

    pub fn pager(&self) -> (r: Pager)
        ensures
            r == self.pager,
    {
        self.pager
    }

    /// Goes to page `to_page`, clamped to the last page.
    pub fn change_page(&mut self, to_page: u16)
        requires
            old(self).pager.total > 0,
        ensures
            final(self).pager == (Pager {
                current: if to_page < last_page(old(self).pager.total) { to_page } else { last_page(old(self).pager.total) },
                ..old(self).pager
            }),
            final(self).share_words == old(self).share_words,
            final(self).repeated_indices == old(self).repeated_indices,
            final(self).area == old(self).area,
    {
        let last = self.pager.total() - 1;
        let to_page = if to_page < last {
            to_page
        } else {
            last
        };

        // Update the pager
        self.pager.set_current(to_page);
    }

    /// What is painted for the current page, given the width of the ordinal
    /// number's text and the visible height of a capital letter in the word's
    /// font.
    pub fn render(&self, ordinal_width: i16, word_height: i16) -> (r: ShareWordsFrame<'a>)
        requires
            self.wf(),
            self.pager.total > 0,
            self.area.wf(),
            fits_i16(self.area.spec_width() - ordinal_width - ORDINAL_PADDING),
            fits_i16(self.area.spec_width() - ordinal_width),
            fits_i16(self.area.x1 - (self.area.spec_width() - ordinal_width - ORDINAL_PADDING)),
            fits_i16(self.area.y0 - 1),
            fits_i16(self.area.y1 - 1),
            fits_i16(self.area.y0 + self.area.spec_height() / 2 + div_trunc(word_height as int, 2)),
        ensures
            r.ordinal == self.pager.current + 1,
            r.ordinal_pos == (Point { x: self.area.x0, y: self.area.y0 }),
            r.top_line == (Rect {
                x0: (self.area.x1 - (self.area.spec_width() - ordinal_width - ORDINAL_PADDING)) as i16,
                y0: (self.area.y0 - 1) as i16,
                x1: self.area.x1,
                y1: self.area.y0,
            }),
            r.bottom_line == (Rect { x0: self.area.x0, y0: (self.area.y1 - 1) as i16, x1: self.area.x1, y1: self.area.y1 }),
            r.word@ == word_vec_items(self.share_words)[self.pager.current as int],
            r.word_baseline == (Point {
                x: (self.area.x0 + self.area.spec_width() / 2) as i16,
                y: (self.area.y0 + self.area.spec_height() / 2 + div_trunc(word_height as int, 2)) as i16,
            }),
    {
        // the ordinal number of the current word
        let current = self.pager().current();
        let ordinal_val: u8 = current as u8 + 1;
        let ordinal_pos = self.area.top_left();
        let top_line = Rect::from_bottom_right_and_size(
            self.area.top_right(),
            Offset::new(self.area.width() - ordinal_width - ORDINAL_PADDING, 1),
        );
        let bottom_line = Rect::from_bottom_right_and_size(self.area.bottom_right(), Offset::new(self.area.width(), 1));
        let words = word_vec_as_slice(&self.share_words);
        let word = words[current as usize];
        let center = self.area.center();
        let word_baseline = Point { x: center.x, y: center.y + word_height / 2 };
        ShareWordsFrame { ordinal: ordinal_val, ordinal_pos, top_line, bottom_line, word, word_baseline }
    }

    pub fn place(&mut self, bounds: Rect) -> (r: Rect)
        ensures
            *final(self) == (ShareWords { area: bounds, ..*old(self) }),
            r == bounds,
    {
        self.area = bounds;
        bounds
    }
}

} // verus!
