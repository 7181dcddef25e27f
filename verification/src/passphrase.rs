use vstd::prelude::*;
use crate::button::{Alignment, Button, ButtonContent, ButtonMsg, ButtonStyleSheet, Icon, Label, TString, TextStyle, TR};
use crate::component::{ctx_grows, ctx_paint_only, lemma_ctx_grows_by, lemma_ctx_grows_trans, Direction, Event, EventCtx, Timer, TimerToken, TouchEvent};
use crate::geometry::{fits_i16, inset_fits, spec_inset, Insets, Point, Rect};
use crate::overlap_grid::grid_fits;
use crate::keypad::{keypad_outcome, ButtonState, ButtonType, Keypad, KeyboardMetrics, KeypadButton, KeypadButtonMsgs, KeypadMsg};
use vstd::string::StringExecFns;
use crate::short_string::{ascii_text, short_chars, short_try_from};
use crate::text::{
    char_len, dot_count, hidden_glyphs, line_count, line_vec_items, lines_from, spec_apply, spec_hidden_glyphs,
    split_text_into_lines, splits_into, str_eq, texts_at, DisplayStyle, HiddenGlyph, InputPaint, MultiTapKeyboard,
    ShownText, TextBox, DOT_X_STEP, LINE_Y_STEP, TWITCH,
};

verus! {

/// Number of keyboard pages.
pub const PAGE_COUNT: usize = 4;

/// Number of keys on a page.
pub const KEY_COUNT: usize = 10;

/// Maximum length of a passphrase.
pub const MAX_LENGTH: usize = 50;

/// How long the last entered character stays visible, in milliseconds.
pub const LAST_DIGIT_TIMEOUT_MS: u32 = 1000;

/// Width of the button that switches to the next page.
pub const NEXT_BTN_WIDTH: i16 = 103;

/// Touch margin of the button that switches to the next page.
pub const NEXT_BTN_INSET: i16 = 14;

/// Maximum number of lines of a fully shown passphrase.
pub const MAX_LINES: usize = 10;

/// Which keyboard page is shown; the pages follow each other in a cycle.
#[derive(Clone, Copy, PartialEq, Eq, Structural, Debug)]
pub enum KeyboardLayout {
    LettersLower,
    LettersUpper,
    Numeric,
    Special,
}

/// The position of a page in the cycle.
pub open spec fn layout_index(l: KeyboardLayout) -> int {
    match l {
        KeyboardLayout::LettersLower => 0,
        KeyboardLayout::LettersUpper => 1,
        KeyboardLayout::Numeric => 2,
        KeyboardLayout::Special => 3,
    }
}

impl KeyboardLayout {
    pub open spec fn spec_next(self) -> Self {
        match self {
            KeyboardLayout::LettersLower => KeyboardLayout::LettersUpper,
            KeyboardLayout::LettersUpper => KeyboardLayout::Numeric,
            KeyboardLayout::Numeric => KeyboardLayout::Special,
            KeyboardLayout::Special => KeyboardLayout::LettersLower,
        }
    }

    pub open spec fn spec_prev(self) -> Self {
        match self {
            KeyboardLayout::LettersLower => KeyboardLayout::Special,
            KeyboardLayout::LettersUpper => KeyboardLayout::LettersLower,
            KeyboardLayout::Numeric => KeyboardLayout::LettersUpper,
            KeyboardLayout::Special => KeyboardLayout::Numeric,
        }
    }

    /// The page after this one.
    pub fn next(self) -> (r: Self)
        ensures
            r == self.spec_next(),
            layout_index(r) == (layout_index(self) + 1) % 4,
    {
        match self {
            Self::LettersLower => Self::LettersUpper,
            Self::LettersUpper => Self::Numeric,
            Self::Numeric => Self::Special,
            Self::Special => Self::LettersLower,
        }
    }

    /// The page before this one.
    pub fn prev(self) -> (r: Self)
        ensures
            r == self.spec_prev(),
            layout_index(r) == (layout_index(self) + 3) % 4,
    {
        match self {
            Self::LettersLower => Self::Special,
            Self::LettersUpper => Self::LettersLower,
            Self::Numeric => Self::LettersUpper,
            Self::Special => Self::Numeric,
        }
    }

    /// The position of the page in the cycle.
    pub fn to_usize(self) -> (r: usize)
        ensures
            r == layout_index(self),
            r < PAGE_COUNT,
    {
        match self {
            Self::LettersLower => 0,
            Self::LettersUpper => 1,
            Self::Numeric => 2,
            Self::Special => 3,
        }
    }
}

/// Law: going to the next page and back, or back and to the next, returns to
/// the same page; four steps forward make a full cycle.
pub proof fn lemma_layout_cycle(l: KeyboardLayout)
    ensures
        l.spec_next().spec_prev() == l,
        l.spec_prev().spec_next() == l,
        l.spec_next().spec_next().spec_next().spec_next() == l,
{
}

/// What the button that switches to a page shows: the page's first letters or
/// digits, or an asterisk for the special characters.
impl From<KeyboardLayout> for ButtonContent {
    fn from(kl: KeyboardLayout) -> (r: Self) {
        match kl {
            KeyboardLayout::LettersLower => ButtonContent::Text("abc"),
            KeyboardLayout::LettersUpper => ButtonContent::Text("ABC"),
            KeyboardLayout::Numeric => ButtonContent::Text("123"),
            KeyboardLayout::Special => ButtonContent::Icon(Icon::Asterisk),
        }
    }
}

impl vstd::std_specs::convert::FromSpecImpl<KeyboardLayout> for ButtonContent {
    open spec fn obeys_from_spec() -> bool {
        true
    }

    open spec fn from_spec(kl: KeyboardLayout) -> ButtonContent {
        spec_layout_content(kl)
    }
}

/// What the button that switches to page `kl` shows.
pub open spec fn spec_layout_content(kl: KeyboardLayout) -> ButtonContent {
    match kl {
        KeyboardLayout::LettersLower => ButtonContent::Text("abc"),
        KeyboardLayout::LettersUpper => ButtonContent::Text("ABC"),
        KeyboardLayout::Numeric => ButtonContent::Text("123"),
        KeyboardLayout::Special => ButtonContent::Icon(Icon::Asterisk),
    }
}


/// The characters of key `key` on keyboard page `layout`.
pub open spec fn spec_label(layout: int, key: int) -> Seq<char> {
    if layout == 0 && key == 0 {
        seq!['a', 'b', 'c']
    } else if layout == 0 && key == 1 {
        seq!['d', 'e', 'f']
    } else if layout == 0 && key == 2 {
        seq!['g', 'h', 'i']
    } else if layout == 0 && key == 3 {
        seq!['j', 'k', 'l']
    } else if layout == 0 && key == 4 {
        seq!['m', 'n', 'o']
    } else if layout == 0 && key == 5 {
        seq!['p', 'q']
    } else if layout == 0 && key == 6 {
        seq!['r', 's', 't']
    } else if layout == 0 && key == 7 {
        seq!['u', 'v', 'w']
    } else if layout == 0 && key == 8 {
        seq!['x', 'y', 'z']
    } else if layout == 0 && key == 9 {
        seq![' ', '*', '#']
    } else if layout == 1 && key == 0 {
        seq!['A', 'B', 'C']
    } else if layout == 1 && key == 1 {
        seq!['D', 'E', 'F']
    } else if layout == 1 && key == 2 {
        seq!['G', 'H', 'I']
    } else if layout == 1 && key == 3 {
        seq!['J', 'K', 'L']
    } else if layout == 1 && key == 4 {
        seq!['M', 'N', 'O']
    } else if layout == 1 && key == 5 {
        seq!['P', 'Q']
    } else if layout == 1 && key == 6 {
        seq!['R', 'S', 'T']
    } else if layout == 1 && key == 7 {
        seq!['U', 'V', 'W']
    } else if layout == 1 && key == 8 {
        seq!['X', 'Y', 'Z']
    } else if layout == 1 && key == 9 {
        seq![' ', '*', '#']
    } else if layout == 2 && key == 0 {
        seq!['1']
    } else if layout == 2 && key == 1 {
        seq!['2']
    } else if layout == 2 && key == 2 {
        seq!['3']
    } else if layout == 2 && key == 3 {
        seq!['4']
    } else if layout == 2 && key == 4 {
        seq!['5']
    } else if layout == 2 && key == 5 {
        seq!['6']
    } else if layout == 2 && key == 6 {
        seq!['7']
    } else if layout == 2 && key == 7 {
        seq!['8']
    } else if layout == 2 && key == 8 {
        seq!['9']
    } else if layout == 2 && key == 9 {
        seq!['0']
    } else if layout == 3 && key == 0 {
        seq!['_', '<', '>']
    } else if layout == 3 && key == 1 {
        seq!['.', ':', '@']
    } else if layout == 3 && key == 2 {
        seq!['/', '|', '\\']
    } else if layout == 3 && key == 3 {
        seq!['!', '(', ')']
    } else if layout == 3 && key == 4 {
        seq!['+', '%', '&']
    } else if layout == 3 && key == 5 {
        seq!['-', '[', ']']
    } else if layout == 3 && key == 6 {
        seq!['?', '{', '}']
    } else if layout == 3 && key == 7 {
        seq![',', '\'', '`']
    } else if layout == 3 && key == 8 {
        seq![';', '"', '~']
    } else if layout == 3 && key == 9 {
        seq!['$', '^', '=']
    } else {
        Seq::empty()
    }
}

/// Some key of some page enters `c`: tapping that key often enough.
pub open spec fn typeable(c: char) -> bool {
    exists|layout: int, key: int, i: int|
        0 <= layout < PAGE_COUNT && 0 <= key < KEY_COUNT && 0 <= i < spec_label(layout, key).len()
            && #[trigger] spec_label(layout, key)[i] == c
}

/// Law: every printable ASCII character (from the space to the tilde) can be
/// typed: it is among the characters of some key of some page.
pub proof fn lemma_printable_ascii_typeable()
    ensures
        forall|c: char| 32 <= (c as int) < 127 ==> #[trigger] typeable(c),
{
    assert forall|c: char| 32 <= (c as int) < 127 implies #[trigger] typeable(c) by {
        let v = c as int;
        if v == 32 {
            assert(spec_label(0, 9)[0] == c);
        } else if v == 33 {
            assert(spec_label(3, 3)[0] == c);
        } else if v == 34 {
            assert(spec_label(3, 8)[1] == c);
        } else if v == 35 {
            assert(spec_label(0, 9)[2] == c);
        } else if v == 36 {
            assert(spec_label(3, 9)[0] == c);
        } else if v == 37 {
            assert(spec_label(3, 4)[1] == c);
        } else if v == 38 {
            assert(spec_label(3, 4)[2] == c);
        } else if v == 39 {
            assert(spec_label(3, 7)[1] == c);
        } else if v == 40 {
            assert(spec_label(3, 3)[1] == c);
        } else if v == 41 {
            assert(spec_label(3, 3)[2] == c);
        } else if v == 42 {
            assert(spec_label(0, 9)[1] == c);
        } else if v == 43 {
            assert(spec_label(3, 4)[0] == c);
        } else if v == 44 {
            assert(spec_label(3, 7)[0] == c);
        } else if v == 45 {
            assert(spec_label(3, 5)[0] == c);
        } else if v == 46 {
            assert(spec_label(3, 1)[0] == c);
        } else if v == 47 {
            assert(spec_label(3, 2)[0] == c);
        } else if v == 48 {
            assert(spec_label(2, 9)[0] == c);
        } else if v == 49 {
            assert(spec_label(2, 0)[0] == c);
        } else if v == 50 {
            assert(spec_label(2, 1)[0] == c);
        } else if v == 51 {
            assert(spec_label(2, 2)[0] == c);
        } else if v == 52 {
            assert(spec_label(2, 3)[0] == c);
        } else if v == 53 {
            assert(spec_label(2, 4)[0] == c);
        } else if v == 54 {
            assert(spec_label(2, 5)[0] == c);
        } else if v == 55 {
            assert(spec_label(2, 6)[0] == c);
        } else if v == 56 {
            assert(spec_label(2, 7)[0] == c);
        } else if v == 57 {
            assert(spec_label(2, 8)[0] == c);
        } else if v == 58 {
            assert(spec_label(3, 1)[1] == c);
        } else if v == 59 {
            assert(spec_label(3, 8)[0] == c);
        } else if v == 60 {
            assert(spec_label(3, 0)[1] == c);
        } else if v == 61 {
            assert(spec_label(3, 9)[2] == c);
        } else if v == 62 {
            assert(spec_label(3, 0)[2] == c);
        } else if v == 63 {
            assert(spec_label(3, 6)[0] == c);
        } else if v == 64 {
            assert(spec_label(3, 1)[2] == c);
        } else if v == 65 {
            assert(spec_label(1, 0)[0] == c);
        } else if v == 66 {
            assert(spec_label(1, 0)[1] == c);
        } else if v == 67 {
            assert(spec_label(1, 0)[2] == c);
        } else if v == 68 {
            assert(spec_label(1, 1)[0] == c);
        } else if v == 69 {
            assert(spec_label(1, 1)[1] == c);
        } else if v == 70 {
            assert(spec_label(1, 1)[2] == c);
        } else if v == 71 {
            assert(spec_label(1, 2)[0] == c);
        } else if v == 72 {
            assert(spec_label(1, 2)[1] == c);
        } else if v == 73 {
            assert(spec_label(1, 2)[2] == c);
        } else if v == 74 {
            assert(spec_label(1, 3)[0] == c);
        } else if v == 75 {
            assert(spec_label(1, 3)[1] == c);
        } else if v == 76 {
            assert(spec_label(1, 3)[2] == c);
        } else if v == 77 {
            assert(spec_label(1, 4)[0] == c);
        } else if v == 78 {
            assert(spec_label(1, 4)[1] == c);
        } else if v == 79 {
            assert(spec_label(1, 4)[2] == c);
        } else if v == 80 {
            assert(spec_label(1, 5)[0] == c);
        } else if v == 81 {
            assert(spec_label(1, 5)[1] == c);
        } else if v == 82 {
            assert(spec_label(1, 6)[0] == c);
        } else if v == 83 {
            assert(spec_label(1, 6)[1] == c);
        } else if v == 84 {
            assert(spec_label(1, 6)[2] == c);
        } else if v == 85 {
            assert(spec_label(1, 7)[0] == c);
        } else if v == 86 {
            assert(spec_label(1, 7)[1] == c);
        } else if v == 87 {
            assert(spec_label(1, 7)[2] == c);
        } else if v == 88 {
            assert(spec_label(1, 8)[0] == c);
        } else if v == 89 {
            assert(spec_label(1, 8)[1] == c);
        } else if v == 90 {
            assert(spec_label(1, 8)[2] == c);
        } else if v == 91 {
            assert(spec_label(3, 5)[1] == c);
        } else if v == 92 {
            assert(spec_label(3, 2)[2] == c);
        } else if v == 93 {
            assert(spec_label(3, 5)[2] == c);
        } else if v == 94 {
            assert(spec_label(3, 9)[1] == c);
        } else if v == 95 {
            assert(spec_label(3, 0)[0] == c);
        } else if v == 96 {
            assert(spec_label(3, 7)[2] == c);
        } else if v == 97 {
            assert(spec_label(0, 0)[0] == c);
        } else if v == 98 {
            assert(spec_label(0, 0)[1] == c);
        } else if v == 99 {
            assert(spec_label(0, 0)[2] == c);
        } else if v == 100 {
            assert(spec_label(0, 1)[0] == c);
        } else if v == 101 {
            assert(spec_label(0, 1)[1] == c);
        } else if v == 102 {
            assert(spec_label(0, 1)[2] == c);
        } else if v == 103 {
            assert(spec_label(0, 2)[0] == c);
        } else if v == 104 {
            assert(spec_label(0, 2)[1] == c);
        } else if v == 105 {
            assert(spec_label(0, 2)[2] == c);
        } else if v == 106 {
            assert(spec_label(0, 3)[0] == c);
        } else if v == 107 {
            assert(spec_label(0, 3)[1] == c);
        } else if v == 108 {
            assert(spec_label(0, 3)[2] == c);
        } else if v == 109 {
            assert(spec_label(0, 4)[0] == c);
        } else if v == 110 {
            assert(spec_label(0, 4)[1] == c);
        } else if v == 111 {
            assert(spec_label(0, 4)[2] == c);
        } else if v == 112 {
            assert(spec_label(0, 5)[0] == c);
        } else if v == 113 {
            assert(spec_label(0, 5)[1] == c);
        } else if v == 114 {
            assert(spec_label(0, 6)[0] == c);
        } else if v == 115 {
            assert(spec_label(0, 6)[1] == c);
        } else if v == 116 {
            assert(spec_label(0, 6)[2] == c);
        } else if v == 117 {
            assert(spec_label(0, 7)[0] == c);
        } else if v == 118 {
            assert(spec_label(0, 7)[1] == c);
        } else if v == 119 {
            assert(spec_label(0, 7)[2] == c);
        } else if v == 120 {
            assert(spec_label(0, 8)[0] == c);
        } else if v == 121 {
            assert(spec_label(0, 8)[1] == c);
        } else if v == 122 {
            assert(spec_label(0, 8)[2] == c);
        } else if v == 123 {
            assert(spec_label(3, 6)[1] == c);
        } else if v == 124 {
            assert(spec_label(3, 2)[1] == c);
        } else if v == 125 {
            assert(spec_label(3, 6)[2] == c);
        } else if v == 126 {
            assert(spec_label(3, 8)[2] == c);
        }
    }
}

/// Law: every key of every page cycles through one to three printable ASCII
/// characters.
pub proof fn lemma_labels_printable(layout: int, key: int)
    requires
        0 <= layout < PAGE_COUNT,
        0 <= key < KEY_COUNT,
    ensures
        1 <= spec_label(layout, key).len() <= 3,
        forall|i: int| 0 <= i < spec_label(layout, key).len() ==> 32 <= (#[trigger] spec_label(layout, key)[i] as int) < 127,
{
}

/// The label of key `key` on keyboard page `layout`.
pub fn keyboard_label(layout: usize, key: usize) -> (r: &'static str)
    requires
        layout < PAGE_COUNT,
        key < KEY_COUNT,
    ensures
        r@ == spec_label(layout as int, key as int),
{
    if layout == 0 && key == 0 {
        proof {
            reveal_strlit("abc");
        }
        "abc"
    } else if layout == 0 && key == 1 {
        proof {
            reveal_strlit("def");
        }
        "def"
    } else if layout == 0 && key == 2 {
        proof {
            reveal_strlit("ghi");
        }
        "ghi"
    } else if layout == 0 && key == 3 {
        proof {
            reveal_strlit("jkl");
        }
        "jkl"
    } else if layout == 0 && key == 4 {
        proof {
            reveal_strlit("mno");
        }
        "mno"
    } else if layout == 0 && key == 5 {
        proof {
            reveal_strlit("pq");
        }
        "pq"
    } else if layout == 0 && key == 6 {
        proof {
            reveal_strlit("rst");
        }
        "rst"
    } else if layout == 0 && key == 7 {
        proof {
            reveal_strlit("uvw");
        }
        "uvw"
    } else if layout == 0 && key == 8 {
        proof {
            reveal_strlit("xyz");
        }
        "xyz"
    } else if layout == 0 && key == 9 {
        proof {
            reveal_strlit(" *#");
        }
        " *#"
    } else if layout == 1 && key == 0 {
        proof {
            reveal_strlit("ABC");
        }
        "ABC"
    } else if layout == 1 && key == 1 {
        proof {
            reveal_strlit("DEF");
        }
        "DEF"
    } else if layout == 1 && key == 2 {
        proof {
            reveal_strlit("GHI");
        }
        "GHI"
    } else if layout == 1 && key == 3 {
        proof {
            reveal_strlit("JKL");
        }
        "JKL"
    } else if layout == 1 && key == 4 {
        proof {
            reveal_strlit("MNO");
        }
        "MNO"
    } else if layout == 1 && key == 5 {
        proof {
            reveal_strlit("PQ");
        }
        "PQ"
    } else if layout == 1 && key == 6 {
        proof {
            reveal_strlit("RST");
        }
        "RST"
    } else if layout == 1 && key == 7 {
        proof {
            reveal_strlit("UVW");
        }
        "UVW"
    } else if layout == 1 && key == 8 {
        proof {
            reveal_strlit("XYZ");
        }
        "XYZ"
    } else if layout == 1 && key == 9 {
        proof {
            reveal_strlit(" *#");
        }
        " *#"
    } else if layout == 2 && key == 0 {
        proof {
            reveal_strlit("1");
        }
        "1"
    } else if layout == 2 && key == 1 {
        proof {
            reveal_strlit("2");
        }
        "2"
    } else if layout == 2 && key == 2 {
        proof {
            reveal_strlit("3");
        }
        "3"
    } else if layout == 2 && key == 3 {
        proof {
            reveal_strlit("4");
        }
        "4"
    } else if layout == 2 && key == 4 {
        proof {
            reveal_strlit("5");
        }
        "5"
    } else if layout == 2 && key == 5 {
        proof {
            reveal_strlit("6");
        }
        "6"
    } else if layout == 2 && key == 6 {
        proof {
            reveal_strlit("7");
        }
        "7"
    } else if layout == 2 && key == 7 {
        proof {
            reveal_strlit("8");
        }
        "8"
    } else if layout == 2 && key == 8 {
        proof {
            reveal_strlit("9");
        }
        "9"
    } else if layout == 2 && key == 9 {
        proof {
            reveal_strlit("0");
        }
        "0"
    } else if layout == 3 && key == 0 {
        proof {
            reveal_strlit("_<>");
        }
        "_<>"
    } else if layout == 3 && key == 1 {
        proof {
            reveal_strlit(".:@");
        }
        ".:@"
    } else if layout == 3 && key == 2 {
        proof {
            reveal_strlit("/|\\");
        }
        "/|\\"
    } else if layout == 3 && key == 3 {
        proof {
            reveal_strlit("!()");
        }
        "!()"
    } else if layout == 3 && key == 4 {
        proof {
            reveal_strlit("+%&");
        }
        "+%&"
    } else if layout == 3 && key == 5 {
        proof {
            reveal_strlit("-[]");
        }
        "-[]"
    } else if layout == 3 && key == 6 {
        proof {
            reveal_strlit("?{}");
        }
        "?{}"
    } else if layout == 3 && key == 7 {
        proof {
            reveal_strlit(",'`");
        }
        ",'`"
    } else if layout == 3 && key == 8 {
        proof {
            reveal_strlit(";\"~");
        }
        ";\"~"
    } else {
        proof {
            reveal_strlit("$^=");
        }
        "$^="
    }
}

/// The label of the key that opens the special characters.
pub open spec fn special_label() -> Seq<char> {
    seq![' ', '*', '#']
}

/// What a key with label `text` shows: the special characters key shows an
/// icon, the others their label.
pub open spec fn spec_key_content(text: &'static str) -> ButtonContent {
    if text@ == special_label() {
        ButtonContent::Icon(Icon::SpecialChars)
    } else {
        ButtonContent::Text(text)
    }
}

/// The characters a key showing `content` enters.
pub open spec fn spec_key_text(content: ButtonContent) -> Seq<char> {
    match content {
        ButtonContent::Text(t) => t@,
        ButtonContent::Icon(Icon::SpecialChars) => special_label(),
        ButtonContent::Icon(_) => seq![' '],
        ButtonContent::IconAndText(_, _) => seq![' '],
        ButtonContent::Empty => Seq::empty(),
    }
}

/// Law: a key made from a label enters exactly that label's characters.
pub proof fn lemma_key_text_of_content(text: &'static str)
    ensures
        spec_key_text(spec_key_content(text)) == text@,
{
}

/// Every label of every page has at least one character.
pub proof fn lemma_labels_nonempty(layout: int, key: int)
    requires
        0 <= layout < PAGE_COUNT,
        0 <= key < KEY_COUNT,
    ensures
        spec_label(layout, key).len() > 0,
{
}

/// The content of a key with label `text`.
pub fn key_content(text: &'static str) -> (r: ButtonContent)
    ensures
        r == spec_key_content(text),
{
    proof {
        reveal_strlit(" *#");
        assert(" *#"@ =~= special_label());
    }
    if str_eq(text, " *#") {
        ButtonContent::Icon(Icon::SpecialChars)
    } else {
        ButtonContent::Text(text)
    }
}

/// The characters a key showing `content` enters.
pub fn key_text(content: &ButtonContent) -> (r: &'static str)
    ensures
        r@ == spec_key_text(*content),
{
    match content {
        ButtonContent::Text(text) => *text,
        ButtonContent::Icon(Icon::SpecialChars) => {
            proof {
                reveal_strlit(" *#");
            }
            " *#"
        },
        ButtonContent::Icon(_) => {
            proof {
                reveal_strlit(" ");
            }
            " "
        },
        ButtonContent::IconAndText(_, _) => {
            proof {
                reveal_strlit(" ");
            }
            " "
        },
        ButtonContent::Empty => {
            proof {
                reveal_strlit("");
            }
            ""
        },
    }
}

/// The style of the keys on page `layout`: numeric on the numeric page.
pub open spec fn spec_key_style(layout: KeyboardLayout) -> ButtonStyleSheet {
    if layout == KeyboardLayout::Numeric {
        ButtonStyleSheet::KeyboardNumeric
    } else {
        ButtonStyleSheet::Keyboard
    }
}

pub fn key_style(layout: KeyboardLayout) -> (r: ButtonStyleSheet)
    ensures
        r == spec_key_style(layout),
{
    let layout = layout.to_usize();
    if layout == KeyboardLayout::Numeric.to_usize() {
        ButtonStyleSheet::KeyboardNumeric
    } else {
        ButtonStyleSheet::Keyboard
    }
}



/// Whether `c` is what a key with label `label` shows.
pub open spec fn content_shows(c: ButtonContent, label: Seq<char>) -> bool {
    if label == special_label() {
        c == ButtonContent::Icon(Icon::SpecialChars)
    } else {
        c matches ButtonContent::Text(t) && t@ == label
    }
}

/// What the keyboard reports.
#[derive(Debug)]
pub enum PassphraseKeyboardMsg {
    Confirmed(heapless::String<50>),
    Cancelled,
}

/// What the passphrase input area reports.
#[derive(Clone, Copy, PartialEq, Eq, Structural, Debug)]
pub enum PassphraseInputMsg {
    TouchStart,
    TouchEnd,
    LasCharTimeout,
}

/// The entered passphrase together with how it is displayed.
pub struct PassphraseInput {
    pub touch_area: Rect,
    pub total_area: Rect,
    pub textbox: TextBox,
    pub display_style: DisplayStyle,
    pub marker: bool,
    pub last_char_timer: Timer,
}

/// What the input area reports for `event`: nothing while the passphrase is
/// empty; touches starting or ending inside the area; the last-character timer
/// firing.
pub open spec fn spec_passphrase_input_event(input: PassphraseInput, event: Event) -> Option<PassphraseInputMsg> {
    if input.textbox.text@.len() == 0 {
        None
    } else {
        match event {
            Event::Touch(TouchEvent::TouchStart(pos)) => if input.touch_area.spec_contains(pos) {
                Some(PassphraseInputMsg::TouchStart)
            } else {
                None
            },
            Event::Touch(TouchEvent::TouchEnd(pos)) => if input.touch_area.spec_contains(pos) {
                Some(PassphraseInputMsg::TouchEnd)
            } else {
                None
            },
            Event::Timer(_) => if input.last_char_timer.spec_fires(event) {
                Some(PassphraseInputMsg::LasCharTimeout)
            } else {
                None
            },
            _ => None,
        }
    }
}

impl PassphraseInput {
    pub fn new() -> (r: Self)
        ensures
            r.textbox.wf(),
            r.textbox.text@ == Seq::<char>::empty(),
            r.textbox.max_len == MAX_LENGTH,
            r.display_style == DisplayStyle::LastOnly,
            !r.marker,
            !r.last_char_timer.spec_running(),
            r.last_char_timer.spec_token() is None,
            r.touch_area == (Rect { x0: 0, y0: 0, x1: 0, y1: 0 }),
            r.total_area == (Rect { x0: 0, y0: 0, x1: 0, y1: 0 }),
    {
        PassphraseInput {
            touch_area: Rect::zero(),
            total_area: Rect::zero(),
            textbox: TextBox::empty(MAX_LENGTH),
            display_style: DisplayStyle::LastOnly,
            marker: false,
            last_char_timer: Timer::new(),
        }
    }

    pub fn place(&mut self, bounds: Rect) -> (r: Rect)
        ensures
            *final(self) == (PassphraseInput { touch_area: bounds, ..*old(self) }),
            r == bounds,
    {
        self.touch_area = bounds;
        self.touch_area
    }

    /// The passphrase shown in full stays within `i16` coordinates.
    pub open spec fn shown_fits(self, input_insets: Insets, text_height: int) -> bool {
        let area = spec_inset(self.touch_area, input_insets);
        &&& inset_fits(self.touch_area, input_insets)
        &&& fits_i16(area.x0 - 1)
        &&& fits_i16(area.x1 + 80)
        &&& fits_i16(area.x1 + 80 - (area.x0 - 1))
        &&& fits_i16(area.y1 - LINE_Y_STEP)
        &&& fits_i16(area.y1 + LINE_Y_STEP * (MAX_LINES - 1))
        &&& fits_i16(20 + text_height)
        &&& fits_i16(area.y0 + 20 + text_height)
        &&& fits_i16(area.y0 + 20 + text_height + LINE_Y_STEP * MAX_LINES)
    }

    /// What `render_shown` paints, for some split of the passphrase into
    /// lines.
    pub open spec fn spec_shown(self, input_insets: Insets, text_height: int, r: ShownText) -> bool {
        let area = spec_inset(self.touch_area, input_insets);
        exists|lines: Seq<Seq<char>>|
            #![trigger splits_into(self.textbox.text@, lines)]
            {
                &&& splits_into(self.textbox.text@, lines)
                &&& r.bar == (Rect {
                    x0: (area.x0 - 1) as i16,
                    x1: (area.x1 + 80) as i16,
                    y1: (area.y1 + LINE_Y_STEP * (lines.len() - 1)) as i16,
                    ..area
                })
                &&& !r.centered
                &&& texts_at(r.texts@, lines, Point { x: area.x0, y: (area.y0 + 20 + text_height) as i16 })
            }
    }

    /// The hidden passphrase stays within `i16` coordinates, and a last
    /// character shown in clear fits.
    pub open spec fn hidden_fits(self, shown_len: int, text_height: int) -> bool {
        &&& self.touch_area.wf()
        &&& self.textbox.text@.len() > 0 && self.display_style == DisplayStyle::LastOnly ==> shown_len >= 1
        &&& fits_i16(self.touch_area.x0 + TWITCH + DOT_X_STEP * dot_count(
            self.textbox.text@.len() as int,
            shown_len,
            self.display_style,
        ))
        &&& fits_i16(self.touch_area.y0 + text_height)
        &&& fits_i16(self.touch_area.y0 + text_height + 30)
    }

    /// The glyphs `render_hidden` paints.
    pub open spec fn spec_hidden(self, shown_len: int, text_height: int) -> Seq<HiddenGlyph> {
        spec_hidden_glyphs(
            Point { x: self.touch_area.x0, y: (self.touch_area.y0 + self.touch_area.spec_height() / 2) as i16 },
            self.textbox.text@,
            shown_len,
            self.display_style,
            self.touch_area.y0 + text_height + 30,
            self.marker,
        )
    }

    /// What is painted for the input: nothing while the passphrase is empty,
    /// else the passphrase in full or hidden as its display style says; the
    /// arguments are those of `render_shown` and `render_hidden`.
    pub fn render<F: Fn(i16, &str) -> usize>(
        &self,
        input_insets: Insets,
        text_height: i16,
        shown_len: usize,
        fit: &F,
    ) -> (r: InputPaint)
        requires
            self.textbox.wf(),
            self.textbox.text@.len() > 0 && self.display_style == DisplayStyle::Shown ==> {
                &&& forall|w: i16, s: &str| #[trigger] fit.requires((w, s))
                &&& forall|w: i16, s: &str, n: usize| fit.ensures((w, s), n) ==> n <= s@.len()
                &&& self.shown_fits(input_insets, text_height as int)
            },
            self.textbox.text@.len() > 0 && self.display_style != DisplayStyle::Shown ==> self.hidden_fits(
                shown_len as int,
                text_height as int,
            ),
        ensures
            self.textbox.text@.len() == 0 ==> r is Nothing,
            self.textbox.text@.len() > 0 && self.display_style == DisplayStyle::Shown ==> (r matches InputPaint::Shown(
                t,
            ) && self.spec_shown(input_insets, text_height as int, t)),
            self.textbox.text@.len() > 0 && self.display_style != DisplayStyle::Shown ==> (r matches InputPaint::Hidden(
                g,
            ) && g@ == self.spec_hidden(shown_len as int, text_height as int)),
    {
        if !self.textbox.is_empty() {
            if self.display_style == DisplayStyle::Shown {
                InputPaint::Shown(self.render_shown(input_insets, text_height, fit))
            } else {
                InputPaint::Hidden(self.render_hidden(shown_len, text_height))
            }
        } else {
            InputPaint::Nothing
        }
    }

    /// What is painted while the passphrase is shown in full, given the
    /// insets of the input within its touch area, the height of the text font
    /// and `fit`, which tells how many characters of a text fit into a width:
    /// the passphrase split into lines as wide as the input widened by 80
    /// pixels to the right and 1 to the left, drawn from 20 pixels and a text
    /// height below the input's top, and a bar behind them that grows by a
    /// line step for each line past the first.
    pub fn render_shown<F: Fn(i16, &str) -> usize>(&self, input_insets: Insets, text_height: i16, fit: &F) -> (r:
        ShownText)
        requires
            self.textbox.text@.len() > 0,
            forall|w: i16, s: &str| #[trigger] fit.requires((w, s)),
            forall|w: i16, s: &str, n: usize| fit.ensures((w, s), n) ==> n <= s@.len(),
            self.shown_fits(input_insets, text_height as int),
        ensures
            self.spec_shown(input_insets, text_height as int, r),
    {
        let area = self.touch_area.inset(input_insets);
        let baseline = Point { x: area.x0, y: area.y0 + (20 + text_height) };
        let area = area.outset(Insets::new(0, 80, 0, 1));
        let lines = split_text_into_lines(self.textbox.content(), fit, area.width());
        let ghost items = line_vec_items(lines);
        let line_num = line_count(&lines);
        let bar = area.outset(Insets::bottom((line_num as i16 - 1) * LINE_Y_STEP));
        let texts = lines_from(&lines, baseline);
        proof {
            assert(splits_into(self.textbox.text@, items));
        }
        ShownText { bar, centered: false, texts }
    }

    /// What is painted while the passphrase is hidden, given how many of its
    /// characters fit (`shown_len`) and the height of the text font: dots from
    /// the middle of the left edge of the touch area, and the last character
    /// in clear below them while only it is shown, with the pending marker
    /// while it is being chosen. The passphrase's characters are ASCII, so its
    /// length in characters is its length in bytes.
    pub fn render_hidden(&self, shown_len: usize, text_height: i16) -> (r: Vec<HiddenGlyph>)
        requires
            self.hidden_fits(shown_len as int, text_height as int),
        ensures
            r@ == self.spec_hidden(shown_len as int, text_height as int),
    {
        let area = self.touch_area;
        let cursor = area.left_center();
        let last_y: i16 = area.y0 + text_height + 30;
        hidden_glyphs(cursor, self.textbox.content(), shown_len, self.display_style, last_y, self.marker)
    }

    /// Reports touches of the area and the end of showing the last character.
    pub fn event(&mut self, event: Event) -> (r: Option<PassphraseInputMsg>)
        requires
            old(self).textbox.wf(),
        ensures
            r == spec_passphrase_input_event(*old(self), event),
            *final(self) == (PassphraseInput { last_char_timer: final(self).last_char_timer, ..*old(self) }),
            final(self).last_char_timer.spec_token() == old(self).last_char_timer.spec_token(),
            final(self).last_char_timer.spec_running() == (old(self).last_char_timer.spec_running() && !(
            old(self).textbox.text@.len() != 0 && event is Timer && old(self).last_char_timer.spec_fires(event))),
    {
        // No touch events are handled when the textbox is empty
        if self.textbox.is_empty() {
            return None;
        }
        match event {
            Event::Touch(TouchEvent::TouchStart(pos)) => {
                if self.touch_area.contains(pos) {
                    Some(PassphraseInputMsg::TouchStart)
                } else {
                    None
                }
            },
            Event::Touch(TouchEvent::TouchEnd(pos)) => {
                if self.touch_area.contains(pos) {
                    Some(PassphraseInputMsg::TouchEnd)
                } else {
                    None
                }
            },
            // Timeout for showing the last digit.
            Event::Timer(_) => {
                if self.last_char_timer.expire(event) {
                    Some(PassphraseInputMsg::LasCharTimeout)
                } else {
                    None
                }
            },
            _ => None,
        }
    }
}

/// The parts of the passphrase keyboard, as painted.
#[derive(Clone, Copy, PartialEq, Eq, Structural, Debug)]
pub enum PassphrasePart {
    Input,
    NextButton,
    Keypad,
}

/// Keyboard for entering a passphrase: four pages of multi-tap keys, switched
/// by swiping or by the next-page button.
pub struct PassphraseKeyboard {
    pub input: PassphraseInput,
    pub input_prompt: Label<'static>,
    pub keypad: Keypad<10>,
    pub next_btn: Button,
    pub active_layout: KeyboardLayout,
    pub fade: bool,
    pub internal_page_cnt: usize,
    pub multi_tap: MultiTapKeyboard,
}

/// The state a key is put into: enabled when active, else disabled.
pub open spec fn active_state(active: bool) -> ButtonState {
    if active {
        ButtonState::Enabled
    } else {
        ButtonState::Disabled
    }
}

impl PassphraseKeyboard {
    /// The keys show the labels of the active page, and the passphrase fits
    /// and is ASCII, as the labels are.
    pub open spec fn wf(self) -> bool {
        &&& self.keypad.wf()
        &&& self.input.textbox.wf()
        &&& self.input.textbox.max_len == MAX_LENGTH
        &&& ascii_text(self.input.textbox.text@)
        &&& forall|i: int|
            0 <= i < KEY_COUNT ==> content_shows(
                (#[trigger] self.keypad.keys@[i]).button.inner.content,
                spec_label(layout_index(self.active_layout), i),
            )
    }

    /// Whether key `key` accepts input: while the passphrase is below its
    /// maximum length, or when the key is being cycled through.
    pub open spec fn spec_is_button_active(self, key: int) -> bool {
        self.input.textbox.text@.len() < MAX_LENGTH || (self.multi_tap.pending matches Some(p) && p.key == key)
    }

    /// `new` is `old` with each key put into the state its activity in `kb`
    /// calls for.
    pub open spec fn keys_follow_activity(old: Keypad<10>, new: Keypad<10>, kb: PassphraseKeyboard) -> bool {
        &&& new.wf()
        &&& new.pressed == old.pressed
        &&& new.back_btn == old.back_btn
        &&& new.erase_btn == old.erase_btn
        &&& new.cancel_btn == old.cancel_btn
        &&& new.confirm_btn == old.confirm_btn
        &&& forall|i: int|
            0 <= i < KEY_COUNT ==> #[trigger] new.keys@[i] == old.keys@[i].with_state(
                active_state(kb.spec_is_button_active(i)),
            )
    }

    pub fn new() -> (r: Self)
        ensures
            r.wf(),
            r.active_layout == KeyboardLayout::LettersLower,
            r.input.textbox.text@ == Seq::<char>::empty(),
            r.input.display_style == DisplayStyle::LastOnly,
            r.multi_tap.pending is None,
            !r.fade,
            r.internal_page_cnt == 1,
            r.next_btn.content == spec_layout_content(KeyboardLayout::LettersUpper),
            r.next_btn.styles == ButtonStyleSheet::KeyboardNext,
            r.keypad.pressed is None,
            r.keypad.cancel_btn.spec_state() == ButtonState::Hidden,
            r.keypad.erase_btn.spec_state() == ButtonState::Hidden,
            r.keypad.confirm_btn.spec_state() == ButtonState::Hidden,
            r.keypad.back_btn.spec_state() == ButtonState::Hidden,
            forall|i: int|
                0 <= i < KEY_COUNT ==> (#[trigger] r.keypad.keys@[i]).spec_state() == ButtonState::Enabled
                    && r.keypad.keys@[i].button.inner.styles == ButtonStyleSheet::Keyboard,
    {
        let active_layout = KeyboardLayout::LettersLower;
        let layout = active_layout.to_usize();

        let mut keypad_content: Vec<ButtonContent> = Vec::new();
        let mut idx: usize = 0;
        while idx < KEY_COUNT
            invariant
                idx <= KEY_COUNT,
                layout == 0,
                keypad_content@.len() == idx,
                forall|i: int| 0 <= i < idx ==> content_shows(#[trigger] keypad_content@[i], spec_label(0, i)),
            decreases KEY_COUNT - idx,
        {
            keypad_content.push(key_content(keyboard_label(layout, idx)));
            idx = idx + 1;
        }

        let next_btn = Button::new(active_layout.next().into()).styled(ButtonStyleSheet::KeyboardNext).with_radius(
            12,
        ).with_text_align(Alignment::Center).with_expanded_touch_area(
            Insets::new(NEXT_BTN_INSET, NEXT_BTN_INSET, 0, NEXT_BTN_INSET),
        );

        PassphraseKeyboard {
            input: PassphraseInput::new(),
            input_prompt: Label::left_aligned(
                TString::from_translation(TR::PassphraseTitleEnter),
                TextStyle::TextNormal,
            ),
            next_btn,
            keypad: Keypad::new_empty(false).with_keypad_content(keypad_content, ButtonStyleSheet::Keyboard),
            active_layout,
            fade: false,
            internal_page_cnt: 1,
            multi_tap: MultiTapKeyboard::new(),
        }
    }

    /// The insets of the next-page button within its touch area.
    pub open spec fn next_btn_insets() -> Insets {
        Insets { top: NEXT_BTN_INSET, right: NEXT_BTN_INSET, bottom: 0, left: NEXT_BTN_INSET }
    }

    /// Lays the keyboard out in `bounds`: the input area on top, with the
    /// next-page button at its right end, and the keypad at the bottom.
    pub fn place(&mut self, bounds: Rect, m: &KeyboardMetrics) -> (r: Rect)
        requires
            old(self).wf(),
            bounds.wf(),
            grid_fits(bounds.spec_split_bottom(m.keypad_height as int).1, 4, 3),
            inset_fits(
                bounds.spec_split_top(m.input_height as int).0.spec_split_right(NEXT_BTN_WIDTH + 2 * NEXT_BTN_INSET).1,
                Self::next_btn_insets(),
            ),
        ensures
            r == bounds,
            final(self).wf(),
            ({
                let top_area = bounds.spec_split_top(m.input_height as int).0;
                let keypad_area = bounds.spec_split_bottom(m.keypad_height as int).1;
                let (touch_area, next_touch_area) = top_area.spec_split_right(NEXT_BTN_WIDTH + 2 * NEXT_BTN_INSET);
                &&& Keypad::<10>::spec_placed(old(self).keypad, final(self).keypad, keypad_area)
                &&& final(self).input == (PassphraseInput {
                    total_area: top_area,
                    touch_area,
                    ..old(self).input
                })
                &&& final(self).input_prompt == (Label { area: touch_area, ..old(self).input_prompt })
                &&& final(self).next_btn == (Button {
                    area: spec_inset(next_touch_area, Self::next_btn_insets()),
                    ..old(self).next_btn
                })
            }),
            final(self).active_layout == old(self).active_layout,
            final(self).multi_tap == old(self).multi_tap,
            final(self).fade == old(self).fade,
            final(self).internal_page_cnt == old(self).internal_page_cnt,
    {
        let ghost s0 = *self;
        // Area for the input and the next button.
        let (top_area, _) = bounds.split_top(m.input_height);
        let (_, keypad_area) = bounds.split_bottom(m.keypad_height);
        let (input_touch_area, next_btn_touch_area) = top_area.split_right(NEXT_BTN_WIDTH + 2 * NEXT_BTN_INSET);
        let next_btn_area = next_btn_touch_area.inset(Insets::new(NEXT_BTN_INSET, NEXT_BTN_INSET, 0, NEXT_BTN_INSET));

        self.input.total_area = top_area;
        self.input.place(input_touch_area);
        self.input_prompt.place(input_touch_area);
        self.keypad.place(keypad_area);
        self.next_btn.place(next_btn_area);
        proof {
            assert forall|i: int| 0 <= i < KEY_COUNT implies content_shows(
                (#[trigger] self.keypad.keys@[i]).button.inner.content,
                spec_label(layout_index(self.active_layout), i),
            ) by {
                assert(self.keypad.keys@[i].button.inner.content == s0.keypad.keys@[i].button.inner.content);
            }
        }
        bounds
    }

    /// The parts painted, in order, and whether the backlight fades back to
    /// normal after a page change (which happens once): with the passphrase
    /// shown in full the keypad and then the input over it; otherwise the
    /// input, the next-page button and the keypad.
    pub fn render(&mut self) -> (r: (Vec<PassphrasePart>, bool))
        ensures
            r.0@ == if old(self).input.display_style == DisplayStyle::Shown {
                seq![PassphrasePart::Keypad, PassphrasePart::Input]
            } else {
                seq![PassphrasePart::Input, PassphrasePart::NextButton, PassphrasePart::Keypad]
            },
            r.1 == old(self).fade,
            *final(self) == (PassphraseKeyboard { fade: false, ..*old(self) }),
    {
        let mut parts: Vec<PassphrasePart> = Vec::new();
        if self.input.display_style == DisplayStyle::Shown {
            parts.push(PassphrasePart::Keypad);
            parts.push(PassphrasePart::Input);
        } else {
            parts.push(PassphrasePart::Input);
            parts.push(PassphrasePart::NextButton);
            parts.push(PassphrasePart::Keypad);
        }
        let fade = self.fade;
        self.fade = false;
        proof {
            if old(self).input.display_style == DisplayStyle::Shown {
                assert(parts@ =~= seq![PassphrasePart::Keypad, PassphrasePart::Input]);
            } else {
                assert(parts@ =~= seq![PassphrasePart::Input, PassphrasePart::NextButton, PassphrasePart::Keypad]);
            }
        }
        (parts, fade)
    }

    /// Whether key `key` accepts input.
    fn is_button_active(&self, key: usize) -> (r: bool)
        requires
            self.input.textbox.wf(),
        ensures
            r == self.spec_is_button_active(key as int),
    {
        let textbox_not_full = self.input.textbox.len() < MAX_LENGTH;
        let key_is_pending = match self.multi_tap.pending_key() {
            Some(pending) => pending == key,
            None => false,
        };
        textbox_not_full || key_is_pending
    }

    /// The activity of every key, computed before the keys are changed.
    fn get_buttons_active_states(&self) -> (r: [bool; KEY_COUNT])
        requires
            self.input.textbox.wf(),
        ensures
            forall|i: int| 0 <= i < KEY_COUNT ==> r@[i] == self.spec_is_button_active(i),
    {
        let mut active_states: [bool; KEY_COUNT] = [false; KEY_COUNT];
        let mut key: usize = 0;
        while key < KEY_COUNT
            invariant
                key <= KEY_COUNT,
                self.input.textbox.wf(),
                forall|i: int| 0 <= i < key ==> active_states@[i] == self.spec_is_button_active(i),
            decreases KEY_COUNT - key,
        {
            active_states[key] = self.is_button_active(key);
            key = key + 1;
        }
        active_states
    }

    /// Enables the active keys and disables the others, so that a full
    /// passphrase takes no more input.
    fn update_input_btns_state(&mut self, ctx: &mut EventCtx)
        requires
            old(self).keypad.wf(),
            old(self).input.textbox.wf(),
        ensures
            Self::keys_follow_activity(old(self).keypad, final(self).keypad, *old(self)),
            *final(self) == (PassphraseKeyboard { keypad: final(self).keypad, ..*old(self) }),
            ctx_paint_only(*old(ctx), *final(ctx)),
    {
        let active_states = self.get_buttons_active_states();
        let ghost kb = *self;
        let mut idx: usize = 0;
        while idx < KEY_COUNT
            invariant
                idx <= KEY_COUNT,
                self.keypad.wf(),
                *self == (PassphraseKeyboard { keypad: self.keypad, ..kb }),
                kb == *old(self),
                forall|i: int| 0 <= i < KEY_COUNT ==> active_states@[i] == kb.spec_is_button_active(i),
                self.keypad.pressed == old(self).keypad.pressed,
                self.keypad.back_btn == old(self).keypad.back_btn,
                self.keypad.erase_btn == old(self).keypad.erase_btn,
                self.keypad.cancel_btn == old(self).keypad.cancel_btn,
                self.keypad.confirm_btn == old(self).keypad.confirm_btn,
                forall|i: int|
                    0 <= i < KEY_COUNT ==> #[trigger] self.keypad.keys@[i] == if i < idx {
                        old(self).keypad.keys@[i].with_state(active_state(kb.spec_is_button_active(i)))
                    } else {
                        old(self).keypad.keys@[i]
                    },
                ctx_paint_only(*old(ctx), *ctx),
            decreases KEY_COUNT - idx,
        {
            let state = if active_states[idx] {
                ButtonState::Enabled
            } else {
                ButtonState::Disabled
            };
            self.keypad.set_button_state(ctx, ButtonType::Key(idx), state);
            idx = idx + 1;
        }
    }

    /// After an edit: confirm and erase are shown only for a non-empty
    /// passphrase, cancel only for an empty one; the keys follow their activity.
    fn after_edit(&mut self, ctx: &mut EventCtx)
        requires
            old(self).keypad.wf(),
            old(self).input.textbox.wf(),
        ensures
            Self::spec_after_edit(*old(self), *final(self)),
            ctx_paint_only(*old(ctx), *final(ctx)),
    {
        let empty = self.input.textbox.is_empty();
        let (confirm_state, erase_state, cancel_state) = if empty {
            (ButtonState::Hidden, ButtonState::Hidden, ButtonState::Enabled)
        } else {
            (ButtonState::Enabled, ButtonState::Enabled, ButtonState::Hidden)
        };

        // Apply the button states
        self.keypad.set_button_state(ctx, ButtonType::Confirm, confirm_state);
        self.keypad.set_button_state(ctx, ButtonType::Erase, erase_state);
        self.keypad.set_button_state(ctx, ButtonType::Cancel, cancel_state);

        self.update_input_btns_state(ctx);
    }

    /// The keyboard after `after_edit`.
    pub open spec fn spec_after_edit(old: PassphraseKeyboard, new: PassphraseKeyboard) -> bool {
        &&& new == PassphraseKeyboard { keypad: new.keypad, ..old }
        &&& Self::spec_buttons_follow(old.keypad, new.keypad, old)
    }

    /// `new` is `old` with the buttons put into the states that the passphrase
    /// and pending key of `kb` call for: confirm and erase shown only for a
    /// non-empty passphrase, cancel only for an empty one, and each key enabled
    /// exactly when active.
    pub open spec fn spec_buttons_follow(old: Keypad<10>, new: Keypad<10>, kb: PassphraseKeyboard) -> bool {
        let empty = kb.input.textbox.text@.len() == 0;
        &&& new.wf()
        &&& new.pressed == old.pressed
        &&& new.back_btn == old.back_btn
        &&& new.confirm_btn == old.confirm_btn.with_state(
            if empty {
                ButtonState::Hidden
            } else {
                ButtonState::Enabled
            },
        )
        &&& new.erase_btn == old.erase_btn.with_state(
            if empty {
                ButtonState::Hidden
            } else {
                ButtonState::Enabled
            },
        )
        &&& new.cancel_btn == old.cancel_btn.with_state(
            if empty {
                ButtonState::Enabled
            } else {
                ButtonState::Hidden
            },
        )
        &&& forall|i: int|
            0 <= i < KEY_COUNT ==> #[trigger] new.keys@[i] == old.keys@[i].with_state(
                active_state(kb.spec_is_button_active(i)),
            )
    }

    pub fn passphrase(&self) -> (r: &str)
        ensures
            r@ == self.input.textbox.text@,
    {
        self.input.textbox.content()
    }

    /// Shows the labels of the active page on the keys and the next page on
    /// the next-page button.
    fn replace_keys_contents(&mut self)
        requires
            old(self).keypad.wf(),
        ensures
            final(self).keypad.wf(),
            Self::spec_keys_replaced(*old(self), *final(self)),
    {
        self.next_btn.set_content(self.active_layout.next().into());
        let layout = self.active_layout.to_usize();
        let styles = key_style(self.active_layout);
        let ghost kb = *self;

        let mut idx: usize = 0;
        while idx < KEY_COUNT
            invariant
                idx <= KEY_COUNT,
                layout == layout_index(kb.active_layout),
                styles == spec_key_style(kb.active_layout),
                self.keypad.wf(),
                *self == (PassphraseKeyboard { keypad: self.keypad, ..kb }),
                self.keypad.pressed == kb.keypad.pressed,
                self.keypad.back_btn == kb.keypad.back_btn,
                self.keypad.erase_btn == kb.keypad.erase_btn,
                self.keypad.cancel_btn == kb.keypad.cancel_btn,
                self.keypad.confirm_btn == kb.keypad.confirm_btn,
                kb.keypad == old(self).keypad,
                forall|i: int|
                    0 <= i < KEY_COUNT ==> #[trigger] self.keypad.keys@[i] == if i < idx {
                        KeypadButton {
                            button: crate::keypad::restyled(
                                old(self).keypad.keys@[i].button,
                                self.keypad.keys@[i].button.inner.content,
                                styles,
                            ),
                        }
                    } else {
                        old(self).keypad.keys@[i]
                    },
                forall|i: int|
                    0 <= i < idx ==> content_shows(
                        (#[trigger] self.keypad.keys@[i]).button.inner.content,
                        spec_label(layout as int, i),
                    ),
            decreases KEY_COUNT - idx,
        {
            let text = keyboard_label(layout, idx);
            let content = key_content(text);
            self.keypad.set_key_content(idx, content);
            self.keypad.set_button_stylesheet(ButtonType::Key(idx), styles);
            idx = idx + 1;
        }
    }

    /// The keyboard after the keys and the next-page button were made to show
    /// the active page.
    pub open spec fn spec_keys_replaced(old: PassphraseKeyboard, new: PassphraseKeyboard) -> bool {
        &&& new == PassphraseKeyboard {
            keypad: new.keypad,
            next_btn: Button { content: spec_layout_content(old.active_layout.spec_next()), ..old.next_btn },
            ..old
        }
        &&& new.keypad.pressed == old.keypad.pressed
        &&& new.keypad.back_btn == old.keypad.back_btn
        &&& new.keypad.erase_btn == old.keypad.erase_btn
        &&& new.keypad.cancel_btn == old.keypad.cancel_btn
        &&& new.keypad.confirm_btn == old.keypad.confirm_btn
        &&& forall|i: int|
            0 <= i < KEY_COUNT ==> {
                &&& #[trigger] new.keypad.keys@[i] == KeypadButton {
                    button: crate::keypad::restyled(
                        old.keypad.keys@[i].button,
                        new.keypad.keys@[i].button.inner.content,
                        spec_key_style(old.active_layout),
                    ),
                }
                &&& content_shows(
                    new.keypad.keys@[i].button.inner.content,
                    spec_label(layout_index(old.active_layout), i),
                )
            }
    }

    /// The page a swipe leads to: left to the next page, right to the
    /// previous one.
    pub open spec fn spec_swiped_layout(l: KeyboardLayout, swipe: Direction) -> KeyboardLayout {
        match swipe {
            Direction::Left => l.spec_next(),
            Direction::Right => l.spec_prev(),
            _ => l,
        }
    }

    /// Changes the page: a pending key is committed (its character stays and
    /// is shown briefly), the keys show the new page, the backlight is reset on
    /// the next paint, and the keys follow their activity.
    fn on_page_change(&mut self, ctx: &mut EventCtx, swipe: Direction)
        requires
            old(self).wf(),
        ensures
            final(self).wf(),
            Self::spec_page_changed(*old(self), *final(self), *old(ctx), *final(ctx), swipe),
    {
        // Change the keyboard layout.
        self.active_layout = match swipe {
            Direction::Left => self.active_layout.next(),
            Direction::Right => self.active_layout.prev(),
            _ => self.active_layout,
        };
        if self.multi_tap.pending_key().is_some() {
            // Clear the pending state.
            self.multi_tap.clear_pending_state(ctx);
            // the character has been added, show it for a bit and then hide it
            self.input.last_char_timer.start(ctx, LAST_DIGIT_TIMEOUT_MS);
        }
        // Update keys.
        self.replace_keys_contents();
        let ghost s2 = *self;
        // Reset backlight to normal level on next paint.
        self.fade = true;
        // So that swipe does not visually enable the input buttons when max length
        // reached
        self.update_input_btns_state(ctx);
        proof {
            assert forall|i: int| 0 <= i < KEY_COUNT implies content_shows(
                (#[trigger] self.keypad.keys@[i]).button.inner.content,
                spec_label(layout_index(self.active_layout), i),
            ) by {
                assert(self.keypad.keys@[i].button.inner.content == s2.keypad.keys@[i].button.inner.content);
            }
            assert forall|i: int| 0 <= i < KEY_COUNT implies #[trigger] self.keypad.keys@[i] == KeypadButton {
                    button: crate::keypad::restyled(
                        old(self).keypad.keys@[i].button,
                        self.keypad.keys@[i].button.inner.content,
                        spec_key_style(self.active_layout),
                    ),
                }.with_state(active_state(self.spec_is_button_active(i))) by {
                assert(s2.spec_is_button_active(i) == self.spec_is_button_active(i));
            }
        }
    }

    /// The keyboard after a page change by `swipe`.
    pub open spec fn spec_page_changed(
        old: PassphraseKeyboard,
        new: PassphraseKeyboard,
        old_ctx: EventCtx,
        new_ctx: EventCtx,
        swipe: Direction,
    ) -> bool {
        let layout = Self::spec_swiped_layout(old.active_layout, swipe);
        &&& new.active_layout == layout
        &&& new.fade
        &&& new.multi_tap.pending is None
        &&& new.multi_tap.timeout_ms == old.multi_tap.timeout_ms
        &&& new.next_btn == Button { content: spec_layout_content(layout.spec_next()), ..old.next_btn }
        &&& new.input_prompt == old.input_prompt
        &&& new.internal_page_cnt == old.internal_page_cnt
        &&& new.input.textbox == old.input.textbox
        &&& new.input.touch_area == old.input.touch_area
        &&& new.input.total_area == old.input.total_area
        &&& new.input.display_style == old.input.display_style
        &&& new.input.marker == old.input.marker
        &&& if old.multi_tap.pending is Some {
            &&& new.input.last_char_timer.spec_running()
            &&& new.input.last_char_timer.spec_token() is Some
            &&& new_ctx.timers@ == old_ctx.timers@.push(
                (new.input.last_char_timer.spec_token()->0, LAST_DIGIT_TIMEOUT_MS),
            )
            &&& new_ctx.paint_requested
            &&& new_ctx.anim_frame_requested == old_ctx.anim_frame_requested
        } else {
            &&& new.input.last_char_timer == old.input.last_char_timer
            &&& ctx_paint_only(old_ctx, new_ctx)
        }
        &&& new.keypad.wf()
        &&& new.keypad.pressed == old.keypad.pressed
        &&& new.keypad.back_btn == old.keypad.back_btn
        &&& new.keypad.erase_btn == old.keypad.erase_btn
        &&& new.keypad.cancel_btn == old.keypad.cancel_btn
        &&& new.keypad.confirm_btn == old.keypad.confirm_btn
        &&& forall|i: int|
            0 <= i < KEY_COUNT ==> {
                &&& #[trigger] new.keypad.keys@[i] == KeypadButton {
                    button: crate::keypad::restyled(
                        old.keypad.keys@[i].button,
                        new.keypad.keys@[i].button.inner.content,
                        spec_key_style(layout),
                    ),
                }.with_state(active_state(new.spec_is_button_active(i)))
                &&& content_shows(new.keypad.keys@[i].button.inner.content, spec_label(layout_index(layout), i))
            }
    }

    /// Keeps the keys showing the active page across a change of only the
    /// keys' states.
    proof fn lemma_keys_still_show(old: PassphraseKeyboard, new: PassphraseKeyboard)
        requires
            old.wf(),
            new.active_layout == old.active_layout,
            new.keypad.keys@.len() == old.keypad.keys@.len(),
            forall|i: int|
                0 <= i < KEY_COUNT ==> (#[trigger] new.keypad.keys@[i]).button.inner.content
                    == old.keypad.keys@[i].button.inner.content,
        ensures
            forall|i: int|
                0 <= i < KEY_COUNT ==> content_shows(
                    (#[trigger] new.keypad.keys@[i]).button.inner.content,
                    spec_label(layout_index(new.active_layout), i),
                ),
    {
        assert forall|i: int| 0 <= i < KEY_COUNT implies content_shows(
            (#[trigger] new.keypad.keys@[i]).button.inner.content,
            spec_label(layout_index(new.active_layout), i),
        ) by {
            assert(old.keypad.keys@[i].button.inner.content == new.keypad.keys@[i].button.inner.content);
        }
    }

    /// A click on key `idx`: the multi-tap edit it makes is applied, the
    /// buttons follow the new passphrase, and the last character is shown; a
    /// one-character key shows it until the last-character timer fires, a
    /// multi-character key shows the pending marker instead.
    fn handle_key_click(&mut self, ctx: &mut EventCtx, idx: usize)
        requires
            old(self).wf(),
            idx < KEY_COUNT,
        ensures
            final(self).wf(),
            Self::spec_key_clicked(*old(self), *final(self), idx as int),
            Self::spec_key_click_timers(*old(self), *final(self), *old(ctx), *final(ctx), idx as int),
            ctx_grows(*old(ctx), *final(ctx)),
            final(ctx).paint_requested,
    {
        let ghost s0 = *self;
        let text = key_text(self.keypad.get_key_content(idx));
        proof {
            lemma_labels_nonempty(layout_index(self.active_layout), idx as int);
            assert(text@ == spec_label(layout_index(self.active_layout), idx as int));
        }
        let ghost c0 = *ctx;
        let edit = self.multi_tap.click_key(ctx, idx, text);
        let ghost c1 = *ctx;
        self.input.textbox.apply(ctx, edit);
        let ghost c2 = *ctx;
        self.after_edit(ctx);
        let ghost c3 = *ctx;
        let ghost s1 = *self;
        proof {
            if text@.len() > 1 {
                assert(c1.timers@ == c0.timers@.push((TimerToken { id: c0.next_token }, s0.multi_tap.timeout_ms)));
            }
            lemma_ctx_grows_by(c0, c1);
            lemma_ctx_grows_by(c1, c2);
            lemma_ctx_grows_by(c2, c3);
            lemma_ctx_grows_trans(c0, c1, c2);
            lemma_ctx_grows_trans(c0, c2, c3);
        }
        if char_len(text) == 1 {
            // If the key has just one character, it is immediately applied and the last
            // digit timer should be started
            self.input.last_char_timer.start(ctx, LAST_DIGIT_TIMEOUT_MS);
        } else {
            // multi tap timer is runnig, the last digit timer should be stopped
            self.input.last_char_timer.stop();
            self.input.marker = true;
        }
        self.input.display_style = DisplayStyle::LastOnly;
        proof {
            lemma_ctx_grows_by(c3, *ctx);
            lemma_ctx_grows_trans(c0, c3, *ctx);
            Self::lemma_keys_still_show(s0, *self);
            assert forall|i: int| 0 <= i < KEY_COUNT implies #[trigger] self.keypad.keys@[i] == s0.keypad.keys@[i].with_state(
                active_state(self.spec_is_button_active(i))) by {
                assert(s1.spec_is_button_active(i) == self.spec_is_button_active(i));
            }
        }
    }

    /// The timer a click on key `idx` asks for: a key with several
    /// characters becomes pending with a new multi-tap timer; a key with one
    /// character starts the last-character timer for `LAST_DIGIT_TIMEOUT_MS`.
    pub open spec fn spec_key_click_timers(
        old: PassphraseKeyboard,
        new: PassphraseKeyboard,
        old_ctx: EventCtx,
        new_ctx: EventCtx,
        idx: int,
    ) -> bool {
        let text = spec_key_text(old.keypad.keys@[idx].button.inner.content);
        if text.len() > 1 {
            &&& new_ctx.timers@ == old_ctx.timers@.push(
                (TimerToken { id: old_ctx.next_token }, old.multi_tap.timeout_ms),
            )
            &&& new.multi_tap.pending matches Some(p) && p.timer == TimerToken { id: old_ctx.next_token }
        } else {
            &&& new.input.last_char_timer.spec_token() is Some
            &&& new_ctx.timers@ == old_ctx.timers@.push(
                (new.input.last_char_timer.spec_token()->0, LAST_DIGIT_TIMEOUT_MS),
            )
        }
    }

    /// The keyboard after a click on key `idx`.
    pub open spec fn spec_key_clicked(old: PassphraseKeyboard, new: PassphraseKeyboard, idx: int) -> bool {
        let text = spec_key_text(old.keypad.keys@[idx].button.inner.content);
        let edit = old.multi_tap.spec_click(idx as usize, text);
        &&& new.input.textbox.text@ == spec_apply(old.input.textbox.text@, MAX_LENGTH as nat, edit)
        &&& new.input.textbox.max_len == old.input.textbox.max_len
        &&& new.multi_tap.timeout_ms == old.multi_tap.timeout_ms
        &&& if text.len() > 1 {
            new.multi_tap.pending matches Some(p) && p.key == idx && p.press == old.multi_tap.spec_press(idx as usize)
        } else {
            new.multi_tap.pending is None
        }
        &&& new.input.display_style == DisplayStyle::LastOnly
        &&& if text.len() == 1 {
            new.input.last_char_timer.spec_running() && new.input.marker == old.input.marker
        } else {
            !new.input.last_char_timer.spec_running() && new.input.marker
        }
        &&& Self::spec_buttons_follow(old.keypad, new.keypad, new)
        &&& new.active_layout == old.active_layout
        &&& new.fade == old.fade
        &&& new.next_btn == old.next_btn
        &&& new.input_prompt == old.input_prompt
        &&& new.internal_page_cnt == old.internal_page_cnt
        &&& new.input.touch_area == old.input.touch_area
        &&& new.input.total_area == old.input.total_area
    }

    /// Law: after an edit the buttons offer what the passphrase allows:
    /// confirm and erase are shown and enabled exactly when the passphrase is
    /// non-empty, and cancel is shown exactly when it is empty; every key is
    /// shown, and enabled exactly while another character fits or while it is
    /// the key being cycled through.
    pub proof fn lemma_after_edit_buttons(old: PassphraseKeyboard, new: PassphraseKeyboard)
        requires
            Self::spec_after_edit(old, new),
        ensures
            (new.keypad.confirm_btn.button.visible && new.keypad.confirm_btn.button.inner.enabled) <==> new.input.textbox.text@.len() > 0,
            new.keypad.confirm_btn.button.visible <==> new.input.textbox.text@.len() > 0,
            (new.keypad.erase_btn.button.visible && new.keypad.erase_btn.button.inner.enabled) <==> new.input.textbox.text@.len() > 0,
            new.keypad.erase_btn.button.visible <==> new.input.textbox.text@.len() > 0,
            new.keypad.cancel_btn.button.visible <==> new.input.textbox.text@.len() == 0,
            forall|i: int|
                0 <= i < KEY_COUNT ==> (#[trigger] new.keypad.keys@[i]).button.visible && (
                new.keypad.keys@[i].button.inner.enabled <==> (new.input.textbox.text@.len() < MAX_LENGTH || (
                new.multi_tap.pending matches Some(p) && p.key == i))),
    {
    }

    /// Law: a click on any key leaves a non-empty passphrase that can be
    /// confirmed: confirm and erase are shown and enabled, cancel is hidden.
    pub proof fn lemma_key_click_allows_confirm(old: PassphraseKeyboard, new: PassphraseKeyboard, idx: int)
        requires
            old.wf(),
            0 <= idx < KEY_COUNT,
            Self::spec_key_clicked(old, new, idx),
        ensures
            new.input.textbox.text@.len() > 0,
            new.keypad.confirm_btn.button.visible && new.keypad.confirm_btn.button.inner.enabled,
            new.keypad.erase_btn.button.visible && new.keypad.erase_btn.button.inner.enabled,
            !new.keypad.cancel_btn.button.visible,
    {
    }

    /// Erase: the pending key is committed and the last character removed.
    fn handle_erase(&mut self, ctx: &mut EventCtx)
        requires
            old(self).wf(),
        ensures
            final(self).wf(),
            Self::spec_erased(*old(self), *final(self)),
            ctx_paint_only(*old(ctx), *final(ctx)),
            final(ctx).paint_requested,
    {
        let ghost s0 = *self;
        self.input.display_style = DisplayStyle::Hidden;
        self.multi_tap.clear_pending_state(ctx);
        self.input.textbox.delete_last(ctx);
        self.after_edit(ctx);
        proof {
            Self::lemma_keys_still_show(s0, *self);
        }
    }

    /// The keyboard after erase was clicked.
    pub open spec fn spec_erased(old: PassphraseKeyboard, new: PassphraseKeyboard) -> bool {
        &&& new.input.textbox.text@ == if old.input.textbox.text@.len() > 0 {
            old.input.textbox.text@.drop_last()
        } else {
            old.input.textbox.text@
        }
        &&& new.input.textbox.max_len == old.input.textbox.max_len
        &&& new.multi_tap == MultiTapKeyboard { pending: None, ..old.multi_tap }
        &&& new.input == PassphraseInput { textbox: new.input.textbox, display_style: DisplayStyle::Hidden, ..old.input }
        &&& Self::spec_buttons_follow(old.keypad, new.keypad, new)
        &&& new == PassphraseKeyboard { keypad: new.keypad, input: new.input, multi_tap: new.multi_tap, ..old }
    }

    /// Long press of erase: the pending key is dropped and the passphrase
    /// cleared.
    fn handle_clear(&mut self, ctx: &mut EventCtx)
        requires
            old(self).wf(),
        ensures
            final(self).wf(),
            Self::spec_cleared(*old(self), *final(self)),
            ctx_paint_only(*old(ctx), *final(ctx)),
            final(ctx).paint_requested,
    {
        let ghost s0 = *self;
        self.multi_tap.clear_pending_state(ctx);
        self.input.textbox.clear(ctx);
        self.after_edit(ctx);
        self.input.display_style = DisplayStyle::Hidden;
        proof {
            Self::lemma_keys_still_show(s0, *self);
        }
    }

    /// The keyboard after erase was long pressed.
    pub open spec fn spec_cleared(old: PassphraseKeyboard, new: PassphraseKeyboard) -> bool {
        &&& new.input.textbox.text@ == Seq::<char>::empty()
        &&& new.input.textbox.max_len == old.input.textbox.max_len
        &&& new.multi_tap == MultiTapKeyboard { pending: None, ..old.multi_tap }
        &&& new.input == PassphraseInput { textbox: new.input.textbox, display_style: DisplayStyle::Hidden, ..old.input }
        &&& Self::spec_buttons_follow(old.keypad, new.keypad, new)
        &&& new == PassphraseKeyboard { keypad: new.keypad, input: new.input, multi_tap: new.multi_tap, ..old }
    }

    /// The input's part of an event: touching the input commits a pending key
    /// and shows the passphrase in full; lifting the finger or the
    /// last-character timer hides it again.
    fn handle_input(&mut self, ctx: &mut EventCtx, event: Event)
        requires
            old(self).wf(),
        ensures
            final(self).wf(),
            Self::spec_input_step(*old(self), *final(self), event),
            ctx_paint_only(*old(ctx), *final(ctx)),
    {
        match self.input.event(event) {
            Some(PassphraseInputMsg::TouchStart) => {
                if self.multi_tap.pending_key().is_some() {
                    // Clear the pending state.
                    self.multi_tap.clear_pending_state(ctx);
                }
                self.input.display_style = DisplayStyle::Shown;
                ctx.request_paint();
            },
            Some(PassphraseInputMsg::TouchEnd) => {
                self.input.display_style = DisplayStyle::Hidden;
                ctx.request_paint();
            },
            Some(PassphraseInputMsg::LasCharTimeout) => {
                self.input.display_style = DisplayStyle::Hidden;
                ctx.request_paint();
            },
            None => {},
        }
    }

    /// The keyboard after the input's part of `event`.
    pub open spec fn spec_input_step(old: PassphraseKeyboard, new: PassphraseKeyboard, event: Event) -> bool {
        let msg = spec_passphrase_input_event(old.input, event);
        &&& new == PassphraseKeyboard { input: new.input, multi_tap: new.multi_tap, ..old }
        &&& new.input == PassphraseInput {
            display_style: new.input.display_style,
            last_char_timer: new.input.last_char_timer,
            ..old.input
        }
        &&& new.input.last_char_timer.spec_token() == old.input.last_char_timer.spec_token()
        &&& new.input.last_char_timer.spec_running() == (old.input.last_char_timer.spec_running() && !(
        old.input.textbox.text@.len() != 0 && event is Timer && old.input.last_char_timer.spec_fires(event)))
        &&& new.multi_tap == if msg == Some(PassphraseInputMsg::TouchStart) {
            MultiTapKeyboard { pending: None, ..old.multi_tap }
        } else {
            old.multi_tap
        }
        &&& new.input.display_style == match msg {
            Some(PassphraseInputMsg::TouchStart) => DisplayStyle::Shown,
            Some(_) => DisplayStyle::Hidden,
            None => old.input.display_style,
        }
    }

    /// Handles one event, given what the page swipe detector, the next-page
    /// button and the keypad's buttons report for it.
    pub fn event(
        &mut self,
        ctx: &mut EventCtx,
        event: Event,
        swipe: Option<Direction>,
        next_btn_msg: Option<ButtonMsg>,
        msgs: &KeypadButtonMsgs,
    ) -> (r: Option<PassphraseKeyboardMsg>)
        requires
            old(self).wf(),
            msgs.keys@.len() == KEY_COUNT,
        ensures
            final(self).wf(),
            Self::spec_event(*old(self), *final(self), *old(ctx), *final(ctx), event, swipe, next_btn_msg, msgs.dispatch_order(), r),
    {
        let ghost s0 = *self;
        let ghost c0 = *ctx;
        if let Event::Timer(_) = event {
            if self.multi_tap.timeout_event(event) {
                self.multi_tap.clear_pending_state(ctx);
                self.input.last_char_timer.start(ctx, LAST_DIGIT_TIMEOUT_MS);
                self.input.marker = false;
                proof {
                    assert(Self::spec_event_via(s0, s0, *self, c0, c0, *ctx, event, swipe, next_btn_msg, msgs.dispatch_order(), None));
                }
                return None;
            }
        }

        if let Some(swipe) = swipe {
            // We have detected a horizontal swipe. Change the keyboard page.
            self.on_page_change(ctx, swipe);
            proof {
                assert(Self::spec_event_via(s0, s0, *self, c0, c0, *ctx, event, Some(swipe), next_btn_msg, msgs.dispatch_order(), None));
            }
            return None;
        }

        if next_btn_msg == Some(ButtonMsg::Clicked) {
            self.on_page_change(ctx, Direction::Left);
        }
        let ghost s1 = *self;
        let ghost c1 = *ctx;

        let km = self.keypad.event(msgs);
        let ghost s2 = *self;
        proof {
            Self::lemma_keys_still_show(s1, s2);
        }
        match km {
            Some(KeypadMsg::KeyClicked(idx)) => {
                self.handle_key_click(ctx, idx);
                proof {
                    assert(Self::spec_event_via(s0, s1, *self, c0, c1, *ctx, event, swipe, next_btn_msg, msgs.dispatch_order(), None));
                }
                return None;
            },
            Some(KeypadMsg::EraseClicked) => {
                self.handle_erase(ctx);
                proof {
                    assert(Self::spec_event_via(s0, s1, *self, c0, c1, *ctx, event, swipe, next_btn_msg, msgs.dispatch_order(), None));
                }
                return None;
            },
            Some(KeypadMsg::EraseLongPressed) => {
                self.handle_clear(ctx);
                proof {
                    assert(Self::spec_event_via(s0, s1, *self, c0, c1, *ctx, event, swipe, next_btn_msg, msgs.dispatch_order(), None));
                }
                return None;
            },
            Some(KeypadMsg::CancelClicked) => {
                proof {
                    assert(Self::spec_event_via(s0, s1, *self, c0, c1, *ctx, event, swipe, next_btn_msg, msgs.dispatch_order(), Some(PassphraseKeyboardMsg::Cancelled)));
                }
                return Some(PassphraseKeyboardMsg::Cancelled);
            },
            Some(KeypadMsg::ConfirmClicked) => {
                let confirmed = short_try_from(self.passphrase());
                let r = match confirmed {
                    Some(p) => Some(PassphraseKeyboardMsg::Confirmed(p)),
                    None => None,
                };
                proof {
                    assert(Self::spec_event_via(s0, s1, *self, c0, c1, *ctx, event, swipe, next_btn_msg, msgs.dispatch_order(), r));
                }
                return r;
            },
            _ => {},
        }
        self.handle_input(ctx, event);
        proof {
            assert(Self::spec_event_via(s0, s1, *self, c0, c1, *ctx, event, swipe, next_btn_msg, msgs.dispatch_order(), None));
        }
        None
    }

    /// The keyboard's handling of one event. A timeout of the pending key
    /// commits it and shows it briefly; otherwise a swipe changes the page and
    /// ends the event; otherwise a click on the next-page button changes the
    /// page, and then the keypad's message is handled (key click, erase, long
    /// press of erase, cancel, or confirm with the passphrase); with no such
    /// message, the input's part.
    pub open spec fn spec_event(
        old: PassphraseKeyboard,
        new: PassphraseKeyboard,
        old_ctx: EventCtx,
        new_ctx: EventCtx,
        event: Event,
        swipe: Option<Direction>,
        next_btn_msg: Option<ButtonMsg>,
        reports: Seq<(ButtonType, Option<ButtonMsg>)>,
        r: Option<PassphraseKeyboardMsg>,
    ) -> bool {
        exists|mid: PassphraseKeyboard, mid_ctx: EventCtx|
            #[trigger] Self::spec_event_via(old, mid, new, old_ctx, mid_ctx, new_ctx, event, swipe, next_btn_msg, reports, r)
    }

    /// `spec_event` with `mid` and `mid_ctx` the keyboard and the context after
    /// the next-page button's part.
    pub open spec fn spec_event_via(
        old: PassphraseKeyboard,
        mid: PassphraseKeyboard,
        new: PassphraseKeyboard,
        old_ctx: EventCtx,
        mid_ctx: EventCtx,
        new_ctx: EventCtx,
        event: Event,
        swipe: Option<Direction>,
        next_btn_msg: Option<ButtonMsg>,
        reports: Seq<(ButtonType, Option<ButtonMsg>)>,
        r: Option<PassphraseKeyboardMsg>,
    ) -> bool {
        if event is Timer && old.multi_tap.spec_timeout_event(event) {
            &&& r is None
            &&& new == PassphraseKeyboard {
                multi_tap: MultiTapKeyboard { pending: None, ..old.multi_tap },
                input: PassphraseInput { last_char_timer: new.input.last_char_timer, marker: false, ..old.input },
                ..old
            }
            &&& new.input.last_char_timer.spec_running()
            &&& new.input.last_char_timer.spec_token() is Some
            &&& new_ctx.timers@ == old_ctx.timers@.push(
                (new.input.last_char_timer.spec_token()->0, LAST_DIGIT_TIMEOUT_MS),
            )
            &&& new_ctx.paint_requested
            &&& new_ctx.anim_frame_requested == old_ctx.anim_frame_requested
        } else if swipe is Some {
            &&& r is None
            &&& Self::spec_page_changed(old, new, old_ctx, new_ctx, swipe->0)
        } else {
            let (pressed, km) = keypad_outcome(reports, mid.keypad.pressed);
            let pressed_kb = PassphraseKeyboard { keypad: Keypad { pressed, ..mid.keypad }, ..mid };
            &&& if next_btn_msg == Some(ButtonMsg::Clicked) {
                Self::spec_page_changed(old, mid, old_ctx, mid_ctx, Direction::Left)
            } else {
                mid == old && mid_ctx == old_ctx
            }
            &&& match km {
                Some(KeypadMsg::KeyClicked(idx)) => {
                    &&& r is None
                    &&& Self::spec_key_clicked(pressed_kb, new, idx as int)
                    &&& Self::spec_key_click_timers(pressed_kb, new, mid_ctx, new_ctx, idx as int)
                    &&& ctx_grows(mid_ctx, new_ctx)
                    &&& new_ctx.paint_requested
                },
                Some(KeypadMsg::EraseClicked) => {
                    &&& r is None
                    &&& Self::spec_erased(pressed_kb, new)
                    &&& ctx_paint_only(mid_ctx, new_ctx)
                    &&& new_ctx.paint_requested
                },
                Some(KeypadMsg::EraseLongPressed) => {
                    &&& r is None
                    &&& Self::spec_cleared(pressed_kb, new)
                    &&& ctx_paint_only(mid_ctx, new_ctx)
                    &&& new_ctx.paint_requested
                },
                Some(KeypadMsg::CancelClicked) => {
                    &&& r matches Some(PassphraseKeyboardMsg::Cancelled)
                    &&& new == pressed_kb
                    &&& new_ctx == mid_ctx
                },
                Some(KeypadMsg::ConfirmClicked) => {
                    &&& r matches Some(PassphraseKeyboardMsg::Confirmed(p)) && short_chars(p) == mid.input.textbox.text@
                    &&& new == pressed_kb
                    &&& new_ctx == mid_ctx
                },
                _ => {
                    &&& r is None
                    &&& Self::spec_input_step(pressed_kb, new, event)
                    &&& ctx_paint_only(mid_ctx, new_ctx)
                },
            }
        }
    }
}

/// Law: a swipe to the next page and a swipe back show the same page again,
/// with every key entering the same characters as before, and leave the
/// passphrase as it was; no key is left pending.
pub proof fn lemma_swipe_there_and_back(
    a: PassphraseKeyboard,
    b: PassphraseKeyboard,
    c: PassphraseKeyboard,
    ca: EventCtx,
    cb: EventCtx,
    cc: EventCtx,
)
    requires
        a.wf(),
        c.wf(),
        PassphraseKeyboard::spec_page_changed(a, b, ca, cb, Direction::Left),
        PassphraseKeyboard::spec_page_changed(b, c, cb, cc, Direction::Right),
    ensures
        c.active_layout == a.active_layout,
        c.input.textbox == a.input.textbox,
        c.multi_tap.pending is None,
        forall|i: int|
            0 <= i < KEY_COUNT ==> spec_key_text((#[trigger] c.keypad.keys@[i]).button.inner.content) == spec_key_text(
                a.keypad.keys@[i].button.inner.content,
            ),
{
    lemma_layout_cycle(a.active_layout);
    assert forall|i: int|
        0 <= i < KEY_COUNT implies spec_key_text((#[trigger] c.keypad.keys@[i]).button.inner.content) == spec_key_text(
            a.keypad.keys@[i].button.inner.content,
        ) by {
        assert(content_shows(a.keypad.keys@[i].button.inner.content, spec_label(layout_index(a.active_layout), i)));
        assert(content_shows(c.keypad.keys@[i].button.inner.content, spec_label(layout_index(c.active_layout), i)));
    }
}

} // verus!
