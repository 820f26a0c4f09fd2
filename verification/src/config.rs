//! The knobs the binary reads from `SVG_REACT_PREVIEW_*` environment variables,
//! decided from the variables' values.

use vstd::prelude::*;

use crate::source::Source;
use crate::text::{ascii_lowercase, chars_of, parse_usize, parse_usize_spec, to_ascii_lower};

verus! {

/// How the freshly-rendered SVG file should be opened, and by extension whether
/// the auto-preview keystroke should be synthesised.
///
/// Any user override of the opener implies "I'm routing this somewhere other
/// than Zed": synthesising `Cmd+Shift+V` against an unrelated frontmost app would
/// be user-hostile.
pub enum Opener {
    Default,
    Custom(String),
}

impl Opener {
    /// The program that opens the preview.
    pub fn command(&self) -> (res: &str)
        ensures
            match *self {
                Opener::Default => res@ == "zed"@,
                Opener::Custom(c) => res@ == c@,
            },
    {
        match self {
            Opener::Default => "zed",
            Opener::Custom(c) => c.as_str(),
        }
    }

    /// Whether the preview keystroke is synthesised: only for the default opener.
    pub fn synthesise_keystroke(&self) -> (res: bool)
        ensures
            res == (*self is Default),
    {
        match self {
            Opener::Default => true,
            Opener::Custom(_) => false,
        }
    }
}

/// Which preview shortcut to synthesise.
pub enum HotkeySpec {
    Default,
    Disabled,
    Custom(String),
}

/// Everything the binary takes from its environment.
pub struct Config {
    pub source: Source,
    pub opener: Opener,
    pub hotkey: HotkeySpec,
}

/// An environment value that is set and not empty.
pub open spec fn non_empty(value: Option<String>) -> Option<Seq<char>> {
    match value {
        Some(s) => if s@.len() > 0 {
            Some(s@)
        } else {
            None
        },
        None => None,
    }
}

/// The opener for the value of `SVG_REACT_PREVIEW_OPENER` (`None` when unset):
/// the default unless the value is set and not empty.
pub fn opener_from_env(value: Option<String>) -> (res: Opener)
    ensures
        match non_empty(value) {
            Some(c) => res matches Opener::Custom(s) && s@ == c,
            None => res is Default,
        },
{
    match value {
        Some(s) => if s.unicode_len() > 0 {
            Opener::Custom(s)
        } else {
            Opener::Default
        },
        None => Opener::Default,
    }
}

/// The hotkey for the value of `SVG_REACT_PREVIEW_HOTKEY` (`None` when unset):
/// unset or empty gives the default, `none` in any ASCII case disables, and any
/// other value is a custom hotkey on macOS and the default elsewhere.
pub fn hotkey_from_env(value: Option<String>, macos: bool) -> (res: HotkeySpec)
    ensures
        match non_empty(value) {
            None => res is Default,
            Some(s) => if ascii_lowercase(s) == "none"@ {
                res is Disabled
            } else if macos {
                res matches HotkeySpec::Custom(c) && c@ == s
            } else {
                res is Default
            },
        },
{
    match value {
        None => HotkeySpec::Default,
        Some(s) => {
            if s.unicode_len() == 0 {
                HotkeySpec::Default
            } else if is_none_word(s.as_str()) {
                HotkeySpec::Disabled
            } else if macos {
                HotkeySpec::Custom(s)
            } else {
                HotkeySpec::Default
            }
        },
    }
}

fn is_none_word(s: &str) -> (res: bool)
    ensures
        res == (ascii_lowercase(s@) == "none"@),
{
    proof {
        reveal_strlit("none");
    }
    let v = chars_of(s);
    if v.len() != 4 {
        assert(ascii_lowercase(s@).len() != "none"@.len());
        return false;
    }
    let a = to_ascii_lower(v[0]);
    let b = to_ascii_lower(v[1]);
    let c = to_ascii_lower(v[2]);
    let d = to_ascii_lower(v[3]);
    let res = a == 'n' && b == 'o' && c == 'n' && d == 'e';
    proof {
        let l = ascii_lowercase(s@);
        assert(l[0] == a && l[1] == b && l[2] == c && l[3] == d);
        if res {
            assert(l =~= "none"@);
        } else {
            if l == "none"@ {
                assert(l[0] == 'n' && l[1] == 'o' && l[2] == 'n' && l[3] == 'e');
            }
        }
    }
    res
}

/// Where the input comes from.
pub enum InputChoice {
    /// Read the file at `path`; the cursor is at (`row`, `col`).
    ReadFile { path: String, row: usize, col: usize },
    /// The value of `SVG_REACT_PREVIEW_INPUT`.
    Inline(String),
    /// Read standard input.
    Stdin,
}

/// The input mode for the values of `SVG_REACT_PREVIEW_FILE`, `_ROW`, `_COLUMN`
/// and `_INPUT` (`None` when unset), by the precedence the README documents:
/// file with a row and a column that parse as numbers, then the inline input,
/// then standard input. Empty values count as unset.
pub fn source_from_env(
    file: Option<String>,
    row: Option<String>,
    col: Option<String>,
    input: Option<String>,
) -> (res: InputChoice)
    ensures
        ({
            let r = match non_empty(row) {
                Some(s) => parse_usize_spec(s),
                None => None,
            };
            let c = match non_empty(col) {
                Some(s) => parse_usize_spec(s),
                None => None,
            };
            if non_empty(file) is Some && r is Some && c is Some {
                res matches InputChoice::ReadFile { path, row, col } && path@ == non_empty(
                    file,
                )->0 && row == r->0 && col == c->0
            } else if non_empty(input) is Some {
                res matches InputChoice::Inline(s) && s@ == non_empty(input)->0
            } else {
                res is Stdin
            }
        }),
{
    let r = match &row {
        Some(s) => if s.unicode_len() > 0 {
            parse_usize(s.as_str())
        } else {
            None
        },
        None => None,
    };
    let c = match &col {
        Some(s) => if s.unicode_len() > 0 {
            parse_usize(s.as_str())
        } else {
            None
        },
        None => None,
    };
    match (file, r, c) {
        (Some(path), Some(row), Some(col)) => {
            if path.unicode_len() > 0 {
                return InputChoice::ReadFile { path, row, col };
            }
        },
        _ => {},
    }
    match input {
        Some(s) => if s.unicode_len() > 0 {
            InputChoice::Inline(s)
        } else {
            InputChoice::Stdin
        },
        None => InputChoice::Stdin,
    }
}

} // verus!
