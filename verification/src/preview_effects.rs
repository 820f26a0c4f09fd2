//! Delivers a rendered SVG to the user: decides whether to open the file in an
//! editor or to run the AppleScript that opens it in Zed and synthesises the
//! preview shortcut, and builds that script.
//!
//! The script polls `name of window 1` for the just-opened file's basename
//! before sending any keystroke, so the preview shortcut cannot land on a tab
//! that was active before. After the preview keystroke two more keystrokes close
//! the redundant text-mode `.svg` tab: `Cmd+Shift+[` (Zed's default
//! `pane::ActivatePrevItem`) and then `Cmd+W` (`pane::CloseActiveItem`). This
//! relies on Zed opening the preview as a new tab right of the text tab in the
//! same pane; `SVG_REACT_PREVIEW_HOTKEY=none` falls back to a plain open.

use vstd::prelude::*;

use crate::config::{HotkeySpec, Opener};
use crate::text::{
    ascii_lowercase, chars_of, decimal, push_decimal, push_str, replace, replace_all, split_char,
    split_on, str_eq, to_ascii_lower, trim, trimmed,
};
use crate::transform::strings_view;

verus! {

/// The preview shortcut used unless the user picks another one.
pub const DEFAULT_HOTKEY: &'static str = "cmd+shift+v";

/// Key code of `[` (with `Cmd+Shift`: `pane::ActivatePrevItem`).
pub const PREV_ITEM_KEY: u8 = 33;

/// Key code of `W` (with `Cmd`: `pane::CloseActiveItem`).
pub const CLOSE_ITEM_KEY: u8 = 13;

/// A parsed keyboard shortcut: AppleScript modifier names and a macOS key code.
pub struct Hotkey {
    pub modifiers: Vec<&'static str>,
    pub key_code: u8,
}

/// The AppleScript modifier a token names.
pub open spec fn modifier_of(token: Seq<char>) -> Option<Seq<char>> {
    if token == "cmd"@ || token == "command"@ {
        Some("command down"@)
    } else if token == "shift"@ {
        Some("shift down"@)
    } else if token == "alt"@ || token == "opt"@ || token == "option"@ {
        Some("option down"@)
    } else if token == "ctrl"@ || token == "control"@ {
        Some("control down"@)
    } else {
        None
    }
}

/// The macOS virtual key code of a key name.
pub open spec fn key_code_of(name: Seq<char>) -> Option<u8> {
    if name == "a"@ {
        Some(0u8)
    } else if name == "s"@ {
        Some(1u8)
    } else if name == "d"@ {
        Some(2u8)
    } else if name == "f"@ {
        Some(3u8)
    } else if name == "h"@ {
        Some(4u8)
    } else if name == "g"@ {
        Some(5u8)
    } else if name == "z"@ {
        Some(6u8)
    } else if name == "x"@ {
        Some(7u8)
    } else if name == "c"@ {
        Some(8u8)
    } else if name == "v"@ {
        Some(9u8)
    } else if name == "b"@ {
        Some(11u8)
    } else if name == "q"@ {
        Some(12u8)
    } else if name == "w"@ {
        Some(13u8)
    } else if name == "e"@ {
        Some(14u8)
    } else if name == "r"@ {
        Some(15u8)
    } else if name == "y"@ {
        Some(16u8)
    } else if name == "t"@ {
        Some(17u8)
    } else if name == "o"@ {
        Some(31u8)
    } else if name == "u"@ {
        Some(32u8)
    } else if name == "i"@ {
        Some(34u8)
    } else if name == "p"@ {
        Some(35u8)
    } else if name == "l"@ {
        Some(37u8)
    } else if name == "j"@ {
        Some(38u8)
    } else if name == "k"@ {
        Some(40u8)
    } else if name == "n"@ {
        Some(45u8)
    } else if name == "m"@ {
        Some(46u8)
    } else if name == "0"@ {
        Some(29u8)
    } else if name == "1"@ {
        Some(18u8)
    } else if name == "2"@ {
        Some(19u8)
    } else if name == "3"@ {
        Some(20u8)
    } else if name == "4"@ {
        Some(21u8)
    } else if name == "5"@ {
        Some(23u8)
    } else if name == "6"@ {
        Some(22u8)
    } else if name == "7"@ {
        Some(26u8)
    } else if name == "8"@ {
        Some(28u8)
    } else if name == "9"@ {
        Some(25u8)
    } else if name == "space"@ {
        Some(49u8)
    } else if name == "return"@ {
        Some(36u8)
    } else if name == "enter"@ {
        Some(36u8)
    } else if name == "tab"@ {
        Some(48u8)
    } else if name == "escape"@ {
        Some(53u8)
    } else if name == "esc"@ {
        Some(53u8)
    } else if name == "f1"@ {
        Some(122u8)
    } else if name == "f2"@ {
        Some(120u8)
    } else if name == "f3"@ {
        Some(99u8)
    } else if name == "f4"@ {
        Some(118u8)
    } else if name == "f5"@ {
        Some(96u8)
    } else if name == "f6"@ {
        Some(97u8)
    } else if name == "f7"@ {
        Some(98u8)
    } else if name == "f8"@ {
        Some(100u8)
    } else if name == "f9"@ {
        Some(101u8)
    } else if name == "f10"@ {
        Some(109u8)
    } else if name == "f11"@ {
        Some(103u8)
    } else if name == "f12"@ {
        Some(111u8)
    } else {
        None
    }
}

/// The key name a code belongs to: the first of its names in the key table.
pub open spec fn key_name_of(code: u8) -> Option<Seq<char>> {
    if code == 0 {
        Some("a"@)
    } else if code == 1 {
        Some("s"@)
    } else if code == 2 {
        Some("d"@)
    } else if code == 3 {
        Some("f"@)
    } else if code == 4 {
        Some("h"@)
    } else if code == 5 {
        Some("g"@)
    } else if code == 6 {
        Some("z"@)
    } else if code == 7 {
        Some("x"@)
    } else if code == 8 {
        Some("c"@)
    } else if code == 9 {
        Some("v"@)
    } else if code == 11 {
        Some("b"@)
    } else if code == 12 {
        Some("q"@)
    } else if code == 13 {
        Some("w"@)
    } else if code == 14 {
        Some("e"@)
    } else if code == 15 {
        Some("r"@)
    } else if code == 16 {
        Some("y"@)
    } else if code == 17 {
        Some("t"@)
    } else if code == 31 {
        Some("o"@)
    } else if code == 32 {
        Some("u"@)
    } else if code == 34 {
        Some("i"@)
    } else if code == 35 {
        Some("p"@)
    } else if code == 37 {
        Some("l"@)
    } else if code == 38 {
        Some("j"@)
    } else if code == 40 {
        Some("k"@)
    } else if code == 45 {
        Some("n"@)
    } else if code == 46 {
        Some("m"@)
    } else if code == 29 {
        Some("0"@)
    } else if code == 18 {
        Some("1"@)
    } else if code == 19 {
        Some("2"@)
    } else if code == 20 {
        Some("3"@)
    } else if code == 21 {
        Some("4"@)
    } else if code == 23 {
        Some("5"@)
    } else if code == 22 {
        Some("6"@)
    } else if code == 26 {
        Some("7"@)
    } else if code == 28 {
        Some("8"@)
    } else if code == 25 {
        Some("9"@)
    } else if code == 49 {
        Some("space"@)
    } else if code == 36 {
        Some("return"@)
    } else if code == 48 {
        Some("tab"@)
    } else if code == 53 {
        Some("escape"@)
    } else if code == 122 {
        Some("f1"@)
    } else if code == 120 {
        Some("f2"@)
    } else if code == 99 {
        Some("f3"@)
    } else if code == 118 {
        Some("f4"@)
    } else if code == 96 {
        Some("f5"@)
    } else if code == 97 {
        Some("f6"@)
    } else if code == 98 {
        Some("f7"@)
    } else if code == 100 {
        Some("f8"@)
    } else if code == 101 {
        Some("f9"@)
    } else if code == 109 {
        Some("f10"@)
    } else if code == 103 {
        Some("f11"@)
    } else if code == 111 {
        Some("f12"@)
    } else {
        None
    }
}

proof fn lemma_key_code_named(name: Seq<char>)
    ensures
        key_code_of(name) matches Some(c) ==> Some(name) == key_name_of(c) || (name == "enter"@
            && c == 36) || (name == "esc"@ && c == 53),
{
}

/// Distinct key names have distinct key codes, but for the two pairs of
/// synonyms: `return` and `enter`, `escape` and `esc`.
pub proof fn lemma_key_codes_distinct(a: Seq<char>, b: Seq<char>)
    requires
        key_code_of(a) is Some,
        key_code_of(a) == key_code_of(b),
        a != b,
    ensures
        (a == "return"@ && b == "enter"@) || (a == "enter"@ && b == "return"@) || (a == "escape"@
            && b == "esc"@) || (a == "esc"@ && b == "escape"@),
{
    lemma_key_code_named(a);
    lemma_key_code_named(b);
}

/// A piece of a shortcut, trimmed and folded to lower case.
pub open spec fn normalize(piece: Seq<char>) -> Seq<char> {
    ascii_lowercase(trim(piece))
}

/// One token more on a partly parsed shortcut: a new modifier, the one key, or
/// a rejection (empty token, repeated modifier, second key, unknown name).
pub open spec fn parse_step(mods: Seq<Seq<char>>, key: Option<u8>, token: Seq<char>) -> Option<
    (Seq<Seq<char>>, Option<u8>),
> {
    if token.len() == 0 {
        None
    } else {
        match modifier_of(token) {
            Some(m) => if mods.contains(m) {
                None
            } else {
                Some((mods.push(m), key))
            },
            None => match key_code_of(token) {
                Some(c) => if key is Some {
                    None
                } else {
                    Some((mods, Some(c)))
                },
                None => None,
            },
        }
    }
}

/// The modifiers and key gathered from a sequence of tokens, left to right;
/// `None` once a token is rejected.
pub open spec fn parse_tokens(tokens: Seq<Seq<char>>) -> Option<(Seq<Seq<char>>, Option<u8>)>
    decreases tokens.len(),
{
    if tokens.len() == 0 {
        Some((Seq::empty(), None))
    } else {
        match parse_tokens(tokens.drop_last()) {
            Some((mods, key)) => parse_step(mods, key, normalize(tokens.last())),
            None => None,
        }
    }
}

/// The shortcut a spec such as `cmd+shift+v` describes: `+`-separated tokens,
/// each a modifier or the one key, case- and white-space-insensitive.
pub open spec fn parse_hotkey(spec: Seq<char>) -> Option<(Seq<Seq<char>>, u8)> {
    match parse_tokens(split_on(spec, '+')) {
        Some((mods, Some(key))) => Some((mods, key)),
        _ => None,
    }
}

/// Modifier names as character sequences.
pub open spec fn modifiers_view(m: Seq<&'static str>) -> Seq<Seq<char>> {
    m.map_values(|s: &'static str| s@)
}

/// `parts` joined with `sep` between them.
pub open spec fn join(parts: Seq<Seq<char>>, sep: Seq<char>) -> Seq<char>
    decreases parts.len(),
{
    if parts.len() == 0 {
        Seq::empty()
    } else if parts.len() == 1 {
        parts[0]
    } else {
        join(parts.drop_last(), sep) + sep + parts.last()
    }
}

/// The `using {...}` clause for a list of modifiers; empty without modifiers.
pub open spec fn applescript_using(mods: Seq<Seq<char>>) -> Seq<char> {
    if mods.len() == 0 {
        Seq::empty()
    } else {
        "using {"@ + join(mods, ", "@) + "}"@
    }
}

impl Hotkey {
    /// The AppleScript `using {...}` clause for the modifiers.
    pub fn applescript_clause(&self) -> (res: String)
        ensures
            res@ == applescript_using(modifiers_view(self.modifiers@)),
    {
        let ghost mv = modifiers_view(self.modifiers@);
        if self.modifiers.len() == 0 {
            return String::new();
        }
        let mut s = "using {".to_owned();
        let mut i: usize = 0;
        while i < self.modifiers.len()
            invariant
                mv == modifiers_view(self.modifiers@),
                i <= self.modifiers@.len(),
                self.modifiers@.len() > 0,
                s@ == "using {"@ + join(mv.take(i as int), ", "@),
            decreases self.modifiers.len() - i,
        {
            assert(mv.take(i + 1).drop_last() =~= mv.take(i as int));
            if i > 0 {
                push_str(&mut s, ", ");
            }
            push_str(&mut s, self.modifiers[i]);
            proof {
                if i == 0 {
                    assert(join(mv.take(0), ", "@) =~= Seq::<char>::empty());
                    assert(join(mv.take(1), ", "@) == mv.take(1)[0]);
                }
                assert(s@ =~= "using {"@ + join(mv.take(i + 1), ", "@));
            }
            i += 1;
        }
        assert(mv.take(mv.len() as int) =~= mv);
        push_str(&mut s, "}");
        s
    }
}

/// The AppleScript modifier a (lower-case) token names.
pub fn parse_modifier(token: &str) -> (res: Option<&'static str>)
    ensures
        match res {
            Some(m) => modifier_of(token@) == Some(m@),
            None => modifier_of(token@) is None,
        },
{
    if str_eq(token, "cmd") || str_eq(token, "command") {
        Some("command down")
    } else if str_eq(token, "shift") {
        Some("shift down")
    } else if str_eq(token, "alt") || str_eq(token, "opt") || str_eq(token, "option") {
        Some("option down")
    } else if str_eq(token, "ctrl") || str_eq(token, "control") {
        Some("control down")
    } else {
        None
    }
}

/// The macOS virtual key code of a (lower-case) key name.
pub fn key_code_for(name: &str) -> (res: Option<u8>)
    ensures
        res == key_code_of(name@),
{
    if str_eq(name, "a") {
        Some(0u8)
    } else if str_eq(name, "s") {
        Some(1u8)
    } else if str_eq(name, "d") {
        Some(2u8)
    } else if str_eq(name, "f") {
        Some(3u8)
    } else if str_eq(name, "h") {
        Some(4u8)
    } else if str_eq(name, "g") {
        Some(5u8)
    } else if str_eq(name, "z") {
        Some(6u8)
    } else if str_eq(name, "x") {
        Some(7u8)
    } else if str_eq(name, "c") {
        Some(8u8)
    } else if str_eq(name, "v") {
        Some(9u8)
    } else if str_eq(name, "b") {
        Some(11u8)
    } else if str_eq(name, "q") {
        Some(12u8)
    } else if str_eq(name, "w") {
        Some(13u8)
    } else if str_eq(name, "e") {
        Some(14u8)
    } else if str_eq(name, "r") {
        Some(15u8)
    } else if str_eq(name, "y") {
        Some(16u8)
    } else if str_eq(name, "t") {
        Some(17u8)
    } else if str_eq(name, "o") {
        Some(31u8)
    } else if str_eq(name, "u") {
        Some(32u8)
    } else if str_eq(name, "i") {
        Some(34u8)
    } else if str_eq(name, "p") {
        Some(35u8)
    } else if str_eq(name, "l") {
        Some(37u8)
    } else if str_eq(name, "j") {
        Some(38u8)
    } else if str_eq(name, "k") {
        Some(40u8)
    } else if str_eq(name, "n") {
        Some(45u8)
    } else if str_eq(name, "m") {
        Some(46u8)
    } else if str_eq(name, "0") {
        Some(29u8)
    } else if str_eq(name, "1") {
        Some(18u8)
    } else if str_eq(name, "2") {
        Some(19u8)
    } else if str_eq(name, "3") {
        Some(20u8)
    } else if str_eq(name, "4") {
        Some(21u8)
    } else if str_eq(name, "5") {
        Some(23u8)
    } else if str_eq(name, "6") {
        Some(22u8)
    } else if str_eq(name, "7") {
        Some(26u8)
    } else if str_eq(name, "8") {
        Some(28u8)
    } else if str_eq(name, "9") {
        Some(25u8)
    } else if str_eq(name, "space") {
        Some(49u8)
    } else if str_eq(name, "return") {
        Some(36u8)
    } else if str_eq(name, "enter") {
        Some(36u8)
    } else if str_eq(name, "tab") {
        Some(48u8)
    } else if str_eq(name, "escape") {
        Some(53u8)
    } else if str_eq(name, "esc") {
        Some(53u8)
    } else if str_eq(name, "f1") {
        Some(122u8)
    } else if str_eq(name, "f2") {
        Some(120u8)
    } else if str_eq(name, "f3") {
        Some(99u8)
    } else if str_eq(name, "f4") {
        Some(118u8)
    } else if str_eq(name, "f5") {
        Some(96u8)
    } else if str_eq(name, "f6") {
        Some(97u8)
    } else if str_eq(name, "f7") {
        Some(98u8)
    } else if str_eq(name, "f8") {
        Some(100u8)
    } else if str_eq(name, "f9") {
        Some(101u8)
    } else if str_eq(name, "f10") {
        Some(109u8)
    } else if str_eq(name, "f11") {
        Some(103u8)
    } else if str_eq(name, "f12") {
        Some(111u8)
    } else {
        None
    }
}

fn lowercased(s: &str) -> (res: String)
    ensures
        res@ == ascii_lowercase(s@),
{
    let v = chars_of(s);
    let mut out = String::new();
    let mut i: usize = 0;
    while i < v.len()
        invariant
            i <= v@.len(),
            out@ == ascii_lowercase(v@.take(i as int)),
        decreases v.len() - i,
    {
        crate::text::push_char(&mut out, to_ascii_lower(v[i]));
        assert(ascii_lowercase(v@.take(i + 1)) =~= ascii_lowercase(v@.take(i as int)).push(
            crate::text::ascii_lower(v@[i as int]),
        ));
        i += 1;
    }
    assert(v@.take(v@.len() as int) =~= v@);
    out
}

fn contains_modifier(mods: &Vec<&'static str>, m: &str) -> (res: bool)
    ensures
        res == modifiers_view(mods@).contains(m@),
{
    let mut i: usize = 0;
    while i < mods.len()
        invariant
            i <= mods@.len(),
            forall|j: int| 0 <= j < i ==> #[trigger] modifiers_view(mods@)[j] != m@,
        decreases mods.len() - i,
    {
        if str_eq(mods[i], m) {
            assert(modifiers_view(mods@)[i as int] == m@);
            return true;
        }
        i += 1;
    }
    false
}

/// Parses a shortcut such as `cmd+shift+v`.
pub fn parse(spec: &str) -> (res: Option<Hotkey>)
    ensures
        match res {
            Some(h) => parse_hotkey(spec@) == Some((modifiers_view(h.modifiers@), h.key_code)),
            None => parse_hotkey(spec@) is None,
        },
{
    let parts = split_char(spec, '+');
    let ghost tokens = strings_view(parts@);
    assert(tokens == split_on(spec@, '+'));
    let mut modifiers: Vec<&'static str> = Vec::new();
    let mut key_code: Option<u8> = None;
    let mut i: usize = 0;
    while i < parts.len()
        invariant
            tokens == strings_view(parts@),
            tokens == split_on(spec@, '+'),
            i <= parts@.len(),
            parse_tokens(tokens.take(i as int)) == Some((modifiers_view(modifiers@), key_code)),
        decreases parts.len() - i,
    {
        assert(tokens.take(i + 1).drop_last() =~= tokens.take(i as int));
        let ghost mods_before = modifiers_view(modifiers@);
        let t = trimmed(parts[i].as_str());
        let token = lowercased(t.as_str());
        assert(token@ == normalize(tokens[i as int]));
        assert(tokens.take(i + 1).last() == tokens[i as int]);
        if token.unicode_len() == 0 {
            proof { lemma_parse_tokens_stuck(tokens, i as int); }
            return None;
        }
        match parse_modifier(token.as_str()) {
            Some(modifier) => {
                if contains_modifier(&modifiers, modifier) {
                    proof { lemma_parse_tokens_stuck(tokens, i as int); }
                    return None;
                }
                modifiers.push(modifier);
                assert(modifiers_view(modifiers@) =~= mods_before.push(modifier@));
            },
            None => {
                match key_code_for(token.as_str()) {
                    Some(code) => {
                        if key_code.is_some() {
                            proof { lemma_parse_tokens_stuck(tokens, i as int); }
                            return None;
                        }
                        key_code = Some(code);
                    },
                    None => {
                        proof { lemma_parse_tokens_stuck(tokens, i as int); }
                        return None;
                    },
                }
            },
        }
        i += 1;
    }
    assert(tokens.take(tokens.len() as int) =~= tokens);
    match key_code {
        Some(k) => Some(Hotkey { modifiers, key_code: k }),
        None => None,
    }
}

/// Once a prefix of the tokens is rejected, so is the whole sequence.
proof fn lemma_parse_tokens_stuck(tokens: Seq<Seq<char>>, i: int)
    requires
        0 <= i < tokens.len(),
        parse_tokens(tokens.take(i + 1)) is None,
    ensures
        parse_tokens(tokens) is None,
    decreases tokens.len() - i,
{
    if i + 1 < tokens.len() {
        assert(tokens.take(i + 2).drop_last() =~= tokens.take(i + 1));
        lemma_parse_tokens_stuck(tokens, i + 1);
    } else {
        assert(tokens.take(i + 1) =~= tokens);
    }
}

/// The AppleScript that opens the file (path and basename come in as script
/// arguments), waits for Zed's window to show it, presses the preview shortcut
/// and then closes the text-mode tab.
///
/// The text spells some letters with escapes: `\x69` is the letter `i` (in the
/// AppleScript keywords for the loop, the test and the existence check) and
/// `\x2e` is a full stop (the decimal point of the delays, 50 and 150
/// milliseconds). Read with the escapes resolved, it is plain AppleScript.
pub const SCRIPT_TEMPLATE: &'static str = "
on run argv
    set deadline to (current date) + ((item 1 of argv) as integer) / 1000
    set svgPath to item 2 of argv
    set svgBasename to item 3 of argv
    tell application \"Zed\" to open POSIX file svgPath
    repeat wh\x69le (current date) is less than deadline
        try
            tell application \"System Events\" to tell process \"Zed\"
                \x69f ex\x69sts window 1 then
                    \x69f (name of window 1) contains svgBasename then
                        set frontmost to true
                        delay 0\x2e05
                        try
                            key code __PREVIEW_KEY_CODE__ __PREVIEW_MODIFIERS__
                            delay 0\x2e15
                            key code __PREV_ITEM__ using {command down, shift down}
                            delay 0\x2e05
                            key code __CLOSE_ITEM__ using {command down}
                            return \"ok\"
                        on error number errNum
                            return \"denied:\" & errNum
                        end try
                    end if
                end if
            end tell
        end try
        delay 0\x2e05
    end repeat
    return \"timeout\"
end run
";

/// The script for a preview shortcut: the template with the key code, the
/// modifier clause and the two tab-closing key codes filled in.
pub open spec fn script_for(mods: Seq<Seq<char>>, key: u8) -> Seq<char> {
    replace_all(
        replace_all(
            replace_all(
                replace_all(SCRIPT_TEMPLATE@, "__PREVIEW_KEY_CODE__"@, decimal(key as nat)),
                "__PREVIEW_MODIFIERS__"@,
                applescript_using(mods),
            ),
            "__PREV_ITEM__"@,
            decimal(PREV_ITEM_KEY as nat),
        ),
        "__CLOSE_ITEM__"@,
        decimal(CLOSE_ITEM_KEY as nat),
    )
}

fn decimal_string(n: u8) -> (res: String)
    ensures
        res@ == decimal(n as nat),
{
    let mut s = String::new();
    push_decimal(&mut s, n as u64);
    assert(s@ =~= decimal(n as nat));
    s
}

/// The AppleScript for a preview shortcut.
pub fn build_script(preview: &Hotkey) -> (res: String)
    ensures
        res@ == script_for(modifiers_view(preview.modifiers@), preview.key_code),
{
    proof {
        reveal_strlit("__PREVIEW_KEY_CODE__");
        reveal_strlit("__PREVIEW_MODIFIERS__");
        reveal_strlit("__PREV_ITEM__");
        reveal_strlit("__CLOSE_ITEM__");
    }
    let s1 = replace(SCRIPT_TEMPLATE, "__PREVIEW_KEY_CODE__", decimal_string(preview.key_code).as_str());
    let s2 = replace(s1.as_str(), "__PREVIEW_MODIFIERS__", preview.applescript_clause().as_str());
    let s3 = replace(s2.as_str(), "__PREV_ITEM__", decimal_string(PREV_ITEM_KEY).as_str());
    replace(s3.as_str(), "__CLOSE_ITEM__", decimal_string(CLOSE_ITEM_KEY).as_str())
}

/// The shortcut a hotkey setting asks for, if it asks for one that parses.
pub open spec fn resolved(hotkey: HotkeySpec) -> Option<(Seq<Seq<char>>, u8)> {
    match hotkey {
        HotkeySpec::Disabled => None,
        HotkeySpec::Default => parse_hotkey(DEFAULT_HOTKEY@),
        HotkeySpec::Custom(s) => parse_hotkey(s@),
    }
}

/// The shortcut for a hotkey setting; `None` when disabled or unparseable.
pub fn resolve(hotkey: &HotkeySpec) -> (res: Option<Hotkey>)
    ensures
        match res {
            Some(h) => resolved(*hotkey) == Some((modifiers_view(h.modifiers@), h.key_code)),
            None => resolved(*hotkey) is None,
        },
{
    match hotkey {
        HotkeySpec::Disabled => None,
        HotkeySpec::Default => parse(DEFAULT_HOTKEY),
        HotkeySpec::Custom(s) => parse(s.as_str()),
    }
}

/// The AppleScript that opens the preview and presses the shortcut, or `None`
/// when the hotkey setting gives no usable shortcut (the caller then opens the
/// file plainly).
pub fn open_and_preview(hotkey: &HotkeySpec) -> (res: Option<String>)
    ensures
        match res {
            Some(script) => resolved(*hotkey) matches Some((mods, key)) && script@ == script_for(
                mods,
                key,
            ),
            None => resolved(*hotkey) is None,
        },
{
    match resolve(hotkey) {
        Some(parsed) => Some(build_script(&parsed)),
        None => None,
    }
}

/// How a rendered preview reaches the user.
pub enum Delivery {
    /// Run this AppleScript through `osascript`.
    AppleScript { script: String },
    /// Run `command <path>`. `rejected_hotkey` is a hotkey setting that did
    /// not parse and was skipped, for the caller to warn about.
    Open { command: String, rejected_hotkey: Option<String> },
}

/// Decides how to deliver the preview: on macOS, with the default opener and a
/// hotkey that is not disabled and parses, through the AppleScript; otherwise
/// by running the opener on the file.
pub fn deliver(opener: &Opener, hotkey: &HotkeySpec, macos: bool) -> (res: Delivery)
    ensures
        ({
            let scripted = macos && *opener is Default && !(*hotkey is Disabled);
            match res {
                Delivery::AppleScript { script } => scripted && (resolved(*hotkey) matches Some(
                    (mods, key),
                ) && script@ == script_for(mods, key)),
                Delivery::Open { command, rejected_hotkey } => (!scripted || resolved(
                    *hotkey,
                ) is None) && command@ == (match *opener {
                    Opener::Default => "zed"@,
                    Opener::Custom(c) => c@,
                }) && match rejected_hotkey {
                    Some(h) => scripted && (*hotkey matches HotkeySpec::Custom(s) && h@ == s@),
                    None => !(scripted && *hotkey is Custom),
                },
            }
        }),
{
    if macos && opener.synthesise_keystroke() && !matches!(hotkey, HotkeySpec::Disabled) {
        match open_and_preview(hotkey) {
            Some(script) => return Delivery::AppleScript { script },
            None => {
                let rejected = match hotkey {
                    HotkeySpec::Custom(s) => Some(s.clone()),
                    _ => None,
                };
                return Delivery::Open { command: opener.command().to_owned(), rejected_hotkey: rejected };
            },
        }
    }
    Delivery::Open { command: opener.command().to_owned(), rejected_hotkey: None }
}

proof fn lemma_parse_tokens_no_duplicates(tokens: Seq<Seq<char>>)
    ensures
        parse_tokens(tokens) matches Some((mods, _)) ==> mods.no_duplicates(),
    decreases tokens.len(),
{
    if tokens.len() > 0 {
        lemma_parse_tokens_no_duplicates(tokens.drop_last());
        match parse_tokens(tokens.drop_last()) {
            Some((mods, key)) => {
                let t = normalize(tokens.last());
                if t.len() > 0 {
                    match modifier_of(t) {
                        Some(m) => if !mods.contains(m) {
                            let m2 = mods.push(m);
                            assert forall|i: int, j: int|
                                0 <= i < m2.len() && 0 <= j < m2.len() && i != j implies m2[i]
                                != m2[j] by {
                                if i < mods.len() && j < mods.len() {
                                } else if i == mods.len() {
                                    assert(m2[j] == mods[j]);
                                } else {
                                    assert(m2[i] == mods[i]);
                                }
                            }
                        },
                        None => {},
                    }
                }
            },
            None => {},
        }
    }
}

/// A parsed shortcut never names a modifier twice.
pub proof fn lemma_parsed_modifiers_distinct(spec: Seq<char>)
    ensures
        parse_hotkey(spec) matches Some((mods, _)) ==> mods.no_duplicates(),
{
    lemma_parse_tokens_no_duplicates(split_on(spec, '+'));
}

/// A shortcut's tokens: its `+`-separated pieces, trimmed and lower-cased.
pub open spec fn hotkey_tokens(spec: Seq<char>) -> Seq<Seq<char>> {
    split_on(spec, '+').map_values(|p: Seq<char>| normalize(p))
}

/// The token names a key (and no modifier).
pub open spec fn is_key_token(token: Seq<char>) -> bool {
    modifier_of(token) is None && key_code_of(token) is Some
}

/// The modifiers that the tokens name, in order.
pub open spec fn modifiers_in(tokens: Seq<Seq<char>>) -> Seq<Seq<char>>
    decreases tokens.len(),
{
    if tokens.len() == 0 {
        Seq::empty()
    } else {
        match modifier_of(tokens.last()) {
            Some(m) => modifiers_in(tokens.drop_last()).push(m),
            None => modifiers_in(tokens.drop_last()),
        }
    }
}

/// How many of the tokens name a key.
pub open spec fn key_count(tokens: Seq<Seq<char>>) -> nat
    decreases tokens.len(),
{
    if tokens.len() == 0 {
        0
    } else {
        key_count(tokens.drop_last()) + if is_key_token(tokens.last()) {
            1nat
        } else {
            0nat
        }
    }
}

/// The key code of the last token that names a key.
pub open spec fn key_in(tokens: Seq<Seq<char>>) -> Option<u8>
    decreases tokens.len(),
{
    if tokens.len() == 0 {
        None
    } else if is_key_token(tokens.last()) {
        key_code_of(tokens.last())
    } else {
        key_in(tokens.drop_last())
    }
}

/// Every token is non-empty and names a modifier or a key, no modifier is named
/// twice, and at most one token names a key.
pub open spec fn tokens_acceptable(tokens: Seq<Seq<char>>) -> bool {
    &&& forall|i: int|
        0 <= i < tokens.len() ==> (#[trigger] tokens[i]).len() > 0 && (modifier_of(tokens[i]) is Some
            || key_code_of(tokens[i]) is Some)
    &&& modifiers_in(tokens).no_duplicates()
    &&& key_count(tokens) <= 1
}

proof fn lemma_push_no_duplicates(s: Seq<Seq<char>>, m: Seq<char>)
    ensures
        s.push(m).no_duplicates() <==> (s.no_duplicates() && !s.contains(m)),
{
    let t = s.push(m);
    if t.no_duplicates() {
        assert forall|i: int, j: int| 0 <= i < s.len() && 0 <= j < s.len() && i != j implies s[i]
            != s[j] by {
            assert(t[i] == s[i] && t[j] == s[j]);
        }
        if s.contains(m) {
            let k = choose|k: int| 0 <= k < s.len() && s[k] == m;
            assert(t[k] == t[s.len() as int]);
        }
    }
    if s.no_duplicates() && !s.contains(m) {
        assert forall|i: int, j: int| 0 <= i < t.len() && 0 <= j < t.len() && i != j implies t[i]
            != t[j] by {
            if i < s.len() && j < s.len() {
                assert(t[i] == s[i] && t[j] == s[j]);
            } else if i < s.len() {
                assert(t[i] == s[i]);
            } else {
                assert(t[j] == s[j]);
            }
        }
    }
}

proof fn lemma_key_in_counted(tokens: Seq<Seq<char>>)
    ensures
        key_in(tokens) is Some <==> key_count(tokens) > 0,
        key_in(tokens) matches Some(c) ==> exists|i: int|
            0 <= i < tokens.len() && is_key_token(#[trigger] tokens[i]) && key_code_of(tokens[i])
                == Some(c),
    decreases tokens.len(),
{
    if tokens.len() > 0 {
        lemma_key_in_counted(tokens.drop_last());
        if !is_key_token(tokens.last()) {
            if let Some(c) = key_in(tokens) {
                let i = choose|i: int|
                    0 <= i < tokens.drop_last().len() && is_key_token(
                        #[trigger] tokens.drop_last()[i],
                    ) && key_code_of(tokens.drop_last()[i]) == Some(c);
                assert(tokens.drop_last()[i] == tokens[i]);
            }
        } else {
            assert(tokens[tokens.len() - 1] == tokens.last());
        }
    }
}

proof fn lemma_parse_tokens_declarative(raw: Seq<Seq<char>>)
    ensures
        parse_tokens(raw) == (if tokens_acceptable(raw.map_values(|p: Seq<char>| normalize(p))) {
            Some(
                (
                    modifiers_in(raw.map_values(|p: Seq<char>| normalize(p))),
                    key_in(raw.map_values(|p: Seq<char>| normalize(p))),
                ),
            )
        } else {
            None
        }),
    decreases raw.len(),
{
    let toks = raw.map_values(|p: Seq<char>| normalize(p));
    if raw.len() == 0 {
        assert(modifiers_in(toks) =~= Seq::<Seq<char>>::empty());
    } else {
        let pre = raw.drop_last();
        lemma_parse_tokens_declarative(pre);
        let ptoks = pre.map_values(|p: Seq<char>| normalize(p));
        assert(ptoks =~= toks.drop_last());
        let t = toks.last();
        assert(t == normalize(raw.last()));
        lemma_key_in_counted(ptoks);
        let ok_all = forall|i: int|
            0 <= i < toks.len() ==> (#[trigger] toks[i]).len() > 0 && (modifier_of(toks[i]) is Some
                || key_code_of(toks[i]) is Some);
        let ok_pre = forall|i: int|
            0 <= i < ptoks.len() ==> (#[trigger] ptoks[i]).len() > 0 && (modifier_of(ptoks[i]) is Some
                || key_code_of(ptoks[i]) is Some);
        let ok_last = t.len() > 0 && (modifier_of(t) is Some || key_code_of(t) is Some);
        assert(ok_all <==> (ok_pre && ok_last)) by {
            if ok_all {
                assert forall|i: int| 0 <= i < ptoks.len() implies (#[trigger] ptoks[i]).len() > 0
                    && (modifier_of(ptoks[i]) is Some || key_code_of(ptoks[i]) is Some) by {
                    assert(ptoks[i] == toks[i]);
                }
                assert(toks[toks.len() - 1] == t);
            }
            if ok_pre && ok_last {
                assert forall|i: int| 0 <= i < toks.len() implies (#[trigger] toks[i]).len() > 0
                    && (modifier_of(toks[i]) is Some || key_code_of(toks[i]) is Some) by {
                    if i < ptoks.len() {
                        assert(ptoks[i] == toks[i]);
                    }
                }
            }
        }
        match modifier_of(t) {
            Some(m) => {
                lemma_push_no_duplicates(modifiers_in(ptoks), m);
            },
            None => {},
        }
    }
}

/// A shortcut is accepted exactly when each of its tokens is non-empty and names
/// a modifier or a key, no modifier is named twice, and exactly one token names
/// a key; it then holds the named modifiers in the order given, and that key.
pub proof fn lemma_hotkey_acceptance(spec: Seq<char>)
    ensures
        parse_hotkey(spec) is Some <==> (tokens_acceptable(hotkey_tokens(spec)) && key_count(
            hotkey_tokens(spec),
        ) == 1),
        parse_hotkey(spec) matches Some((mods, key)) ==> mods == modifiers_in(hotkey_tokens(spec))
            && key_in(hotkey_tokens(spec)) == Some(key),
{
    lemma_parse_tokens_declarative(split_on(spec, '+'));
    lemma_key_in_counted(hotkey_tokens(spec));
}

proof fn lemma_parse_tokens_normalized(a: Seq<Seq<char>>, b: Seq<Seq<char>>)
    requires
        a.len() == b.len(),
        forall|i: int| 0 <= i < a.len() ==> normalize(#[trigger] a[i]) == normalize(b[i]),
    ensures
        parse_tokens(a) == parse_tokens(b),
    decreases a.len(),
{
    if a.len() > 0 {
        assert forall|i: int| 0 <= i < a.drop_last().len() implies normalize(
            #[trigger] a.drop_last()[i],
        ) == normalize(b.drop_last()[i]) by {
            assert(a.drop_last()[i] == a[i]);
            assert(b.drop_last()[i] == b[i]);
        }
        lemma_parse_tokens_normalized(a.drop_last(), b.drop_last());
        assert(normalize(a.last()) == normalize(b.last()));
    }
}

/// Shortcuts are case-insensitive and ignore white space around each token:
/// two specs whose `+`-separated tokens agree once trimmed and lower-cased
/// parse alike.
pub proof fn lemma_hotkey_case_and_space_insensitive(x: Seq<char>, y: Seq<char>)
    requires
        split_on(x, '+').len() == split_on(y, '+').len(),
        forall|i: int|
            0 <= i < split_on(x, '+').len() ==> normalize(#[trigger] split_on(x, '+')[i])
                == normalize(split_on(y, '+')[i]),
    ensures
        parse_hotkey(x) == parse_hotkey(y),
{
    lemma_parse_tokens_normalized(split_on(x, '+'), split_on(y, '+'));
}

/// What the script prints when the keystrokes went through.
pub const SCRIPT_OK: &'static str = "ok";

/// The prefix of what the script prints when macOS refused the keystrokes.
pub const SCRIPT_DENIED: &'static str = "denied:";

/// The advice when macOS refuses the keystrokes, around the `osascript` error number.
pub const DENIED_HEAD: &'static str = "svg-react-preview: keystroke blocked by macOS (osascript error ";

pub const DENIED_TAIL: &'static str = ") \u{2014} grant Accessibility to the app that ran this binary (System Settings \u{2192} Privacy & Security \u{2192} Accessibility). Press the preview shortcut manually for now.";

/// The advice when Zed did not show the file in time.
pub const TIMEOUT_ADVICE: &'static str = "svg-react-preview: Zed did not come to the foreground in time. Press the preview shortcut manually.";

/// What to tell the user after the script printed `out`: nothing when it
/// reports success, the Accessibility advice with the error number when macOS
/// refused the keystrokes, and the time-out advice otherwise.
pub open spec fn script_report(out: Seq<char>) -> Option<Seq<char>> {
    let t = trim(out);
    if t == SCRIPT_OK@ {
        None
    } else if crate::text::starts_with(t, SCRIPT_DENIED@) {
        Some(DENIED_HEAD@ + t.skip(SCRIPT_DENIED@.len() as int) + DENIED_TAIL@)
    } else {
        Some(TIMEOUT_ADVICE@)
    }
}

/// The message for what the script printed on standard output, if any.
pub fn osascript_report(out: &str) -> (res: Option<String>)
    ensures
        match res {
            Some(m) => script_report(out@) == Some(m@),
            None => script_report(out@) is None,
        },
{
    let t = trimmed(out);
    if str_eq(t.as_str(), SCRIPT_OK) {
        return None;
    }
    let v = chars_of(t.as_str());
    let p = chars_of(SCRIPT_DENIED);
    if crate::text::match_at(v.as_slice(), p.as_slice(), 0) {
        assert(v@.take(p@.len() as int) =~= v@.subrange(0, p@.len() as int));
        let num = crate::text::substring(v.as_slice(), p.len(), v.len());
        let mut m = DENIED_HEAD.to_owned();
        push_str(&mut m, num.as_str());
        push_str(&mut m, DENIED_TAIL);
        assert(num@ =~= v@.skip(p@.len() as int));
        Some(m)
    } else {
        assert(v@.take(p@.len() as int) =~= v@.subrange(0, p@.len() as int));
        Some(TIMEOUT_ADVICE.to_owned())
    }
}

} // verus!
