# eckhart_ui

Verified UI components of the Eckhart layout of a hardware wallet: the keypad
and the PIN, passphrase and mnemonic keyboards built on it, the screen header,
and the screens that show and quiz the words of a recovery share.

The components are written against a small model of the UI toolkit they live
in (geometry, buttons, labels, timers, the event context), so that their
decisions can be proved: which message a keypad reports, how a keyboard's
buttons follow what was entered, where each part is laid out and painted.
Events that come from child widgets (button clicks, swipes) are handed to the
components as arguments; measurements that need fonts are handed in as
numbers or as a function.

Layout:

- `src/` — the library, verified with Verus: `geometry`, `component`,
  `button`, `text` (the model), `short_string` (the fixed-capacity strings
  of `heapless`), `overlap_grid`, `keypad`, `pin`,
  `passphrase`, `mnemonic`, `header`, `pager`, `share_words`,
  `share_words_screen`, `select_word_screen`.
- `tests/` — tests of the library on concrete values.
- `app/` — glue that cannot be verified: the floating-point easing of the
  header's title animation, and the random numbers from which the library
  shuffles the PIN digits.
