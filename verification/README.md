# svg_react_preview

Previews inline JSX/TSX `<svg>` fragments in the Zed editor: the fragment (or
the innermost `<svg>` around the cursor in a `.tsx`/`.jsx` file) is lowered to a
stand-alone SVG document, saved under `$TMPDIR/svg-react-preview/<xxhash>.svg`,
and opened in Zed, on macOS with its SVG preview shortcut pressed.

## Layout

- `src/` — the library, written in Verus; every function carries a contract
  and is proved, but for the calls into swc, `twox-hash` and `String::push`,
  whose contracts are stated beside them.
  - `jsx.rs` — the expression tree the transform reads.
  - `parse.rs` — swc's parses: a TSX fragment carried over into that tree, and
    a TSX file's JSX elements with their spans.
  - `static_eval.rs` — narrowing of `(e)`, `c ? a : b`, `c && e`, and static
    attribute values with their per-attribute defaults (`defaults.rs`).
  - `attr_map.rs` — JSX attribute names to SVG attribute names;
    `attr_spelling.rs` proves the table follows the kebab-case rule.
  - `transform.rs` — JSX to SVG element tree, with the namespace laws.
  - `serialize.rs` — SVG element tree to XML text, with the escaping laws.
  - `pipeline.rs` — expression to document, and the preview file name.
  - `source.rs`, `expand_selection.rs` — input modes and the cursor lookup.
  - `config.rs`, `preview_effects.rs` — environment settings, hotkey parsing
    and the decision how a preview is delivered (editor or AppleScript).
  - `text.rs` — string helpers (trim, split, replace, number formatting).
- `app/` — the command-line program: environment, files, spawning the editor
  or `osascript`.
- `tests/` — tests of the library.
