pub mod geometry;
pub mod component;
pub mod button;
pub mod text;
pub mod short_string;
pub mod overlap_grid;
pub mod keypad;
pub mod pin;
pub mod passphrase;
pub mod mnemonic;
pub mod header;
pub mod pager;
pub mod share_words;
pub mod share_words_screen;
pub mod select_word_screen;
