# plumeimpactor

The verified core of the Impactor desktop app (a GUI that signs and installs
iOS app packages), written in Verus.

- `src/accent.rs` — accent colours, their `#RRGGBB` text and the parser that
  reads such text back (with the proof that the two round-trip), and the theme
  that carries an accent.
- `src/text.rs` — Unicode whitespace trimming, upper-casing and character
  appending, as the standard library does them.
- `src/settings.rs` — the settings screen: teams per account and the accent
  editor's state machine, with its invariant and laws.
- `src/accounts.rs` — the order in which accounts are listed and where the
  selected one stands.
- `src/package.rs` — the package screen: the signing options and their state
  machine, with the file requests it hands to the user interface.
- `app/` — the iced user interface around the library: rendering, file
  dialogs, the floating-point colour picker and icon mask, and `main`.
