//! Parsing of hotkey binding strings.
//!
//! A binding string is a whitespace-separated list of tokens: zero or more
//! modifier names — `ctrl`, `alt`, `shift`, and `meta`/`cmd`/`super` — and
//! exactly one key name, all case-insensitive. The key name must come from
//! a fixed whitelist (letters, the function keys F1 through F7,
//! `esc`/`escape`, and `space`); a string with no key token, more than one
//! non-modifier token, or an unrecognized key yields no binding.

use vstd::prelude::*;

verus! {

/// Modifier flags of a hotkey binding.
#[derive(Clone, Copy, Debug, PartialEq, Eq)]
pub struct Modifiers {
    /// The control key.
    pub control: bool,
    /// The alt key.
    pub alt: bool,
    /// The shift key.
    pub shift: bool,
    /// The meta (command, super) key.
    pub meta: bool,
}

/// The key codes the parser recognizes.
#[derive(Clone, Copy, Debug, PartialEq, Eq)]
pub enum KeyCode {
    KeyA,
    KeyB,
    KeyC,
    KeyD,
    KeyE,
    KeyF,
    KeyG,
    KeyH,
    KeyI,
    KeyJ,
    KeyK,
    KeyL,
    KeyM,
    KeyN,
    KeyO,
    KeyP,
    KeyQ,
    KeyR,
    KeyS,
    KeyT,
    KeyU,
    KeyV,
    KeyW,
    KeyX,
    KeyY,
    KeyZ,
    F1,
    F2,
    F3,
    F4,
    F5,
    F6,
    F7,
    Escape,
    Space,
}

/// A parsed hotkey: modifier flags plus exactly one key code.
#[derive(Clone, Copy, Debug, PartialEq, Eq)]
pub struct HotkeyBinding {
    /// The modifier keys that must be held.
    pub modifiers: Modifiers,
    /// The key the binding fires on.
    pub key: KeyCode,
}

/// A modifier name recognized in a binding string.
#[derive(Clone, Copy, Debug, PartialEq, Eq)]
pub enum ModKind {
    Control,
    Alt,
    Shift,
    Meta,
}

/// Whether a byte separates tokens: ASCII space, tab, line feed or
/// carriage return.
pub open spec fn is_space(b: u8) -> bool {
    b == 32 || b == 9 || b == 10 || b == 13
}

/// An ASCII lowercase letter mapped to its uppercase form; any other byte
/// unchanged.
pub open spec fn to_upper(b: u8) -> u8 {
    if 97 <= b && b <= 122 {
        (b - 32) as u8
    } else {
        b
    }
}

/// An ASCII uppercase letter mapped to its lowercase form; any other byte
/// unchanged.
pub open spec fn to_lower(b: u8) -> u8 {
    if 65 <= b && b <= 90 {
        (b + 32) as u8
    } else {
        b
    }
}

/// A byte sequence folded to ASCII uppercase.
pub open spec fn upper(s: Seq<u8>) -> Seq<u8> {
    s.map_values(|b: u8| to_upper(b))
}

/// A byte sequence folded to ASCII lowercase.
pub open spec fn lower(s: Seq<u8>) -> Seq<u8> {
    s.map_values(|b: u8| to_lower(b))
}

/// The splitting state after reading a byte sequence: the tokens already
/// ended by whitespace, and the (possibly empty) token still being read.
pub open spec fn scan(s: Seq<u8>) -> (Seq<Seq<u8>>, Seq<u8>)
    decreases s.len(),
{
    if s.len() == 0 {
        (Seq::empty(), Seq::empty())
    } else {
        let done = scan(s.drop_last()).0;
        let cur = scan(s.drop_last()).1;
        let b = s.last();
        if is_space(b) {
            if cur.len() == 0 {
                (done, cur)
            } else {
                (done.push(cur), Seq::empty())
            }
        } else {
            (done, cur.push(b))
        }
    }
}

/// The whitespace-separated tokens of a binding string.
pub open spec fn tokens(s: Seq<u8>) -> Seq<Seq<u8>> {
    let done = scan(s).0;
    let cur = scan(s).1;
    if cur.len() == 0 {
        done
    } else {
        done.push(cur)
    }
}

/// The modifier a token names, if any, case-insensitively: `ctrl`, `alt`,
/// `shift`, or any of `meta`, `cmd` and `super`.
pub open spec fn mod_kind(t: Seq<u8>) -> Option<ModKind> {
    let l = lower(t);
    if l.len() == 4 && l[0] == 99 && l[1] == 116 && l[2] == 114 && l[3] == 108 {
        Some(ModKind::Control)
    } else if l.len() == 3 && l[0] == 97 && l[1] == 108 && l[2] == 116 {
        Some(ModKind::Alt)
    } else if l.len() == 5 && l[0] == 115 && l[1] == 104 && l[2] == 105 && l[3] == 102
        && l[4] == 116 {
        Some(ModKind::Shift)
    } else if l.len() == 4 && l[0] == 109 && l[1] == 101 && l[2] == 116 && l[3] == 97 {
        Some(ModKind::Meta)
    } else if l.len() == 3 && l[0] == 99 && l[1] == 109 && l[2] == 100 {
        Some(ModKind::Meta)
    } else if l.len() == 5 && l[0] == 115 && l[1] == 117 && l[2] == 112 && l[3] == 101
        && l[4] == 114 {
        Some(ModKind::Meta)
    } else {
        None
    }
}

/// The key code a single uppercase letter byte names, if any.
pub open spec fn letter_code(b: u8) -> Option<KeyCode> {
    if b == 65 {
        Some(KeyCode::KeyA)
    } else if b == 66 {
        Some(KeyCode::KeyB)
    } else if b == 67 {
        Some(KeyCode::KeyC)
    } else if b == 68 {
        Some(KeyCode::KeyD)
    } else if b == 69 {
        Some(KeyCode::KeyE)
    } else if b == 70 {
        Some(KeyCode::KeyF)
    } else if b == 71 {
        Some(KeyCode::KeyG)
    } else if b == 72 {
        Some(KeyCode::KeyH)
    } else if b == 73 {
        Some(KeyCode::KeyI)
    } else if b == 74 {
        Some(KeyCode::KeyJ)
    } else if b == 75 {
        Some(KeyCode::KeyK)
    } else if b == 76 {
        Some(KeyCode::KeyL)
    } else if b == 77 {
        Some(KeyCode::KeyM)
    } else if b == 78 {
        Some(KeyCode::KeyN)
    } else if b == 79 {
        Some(KeyCode::KeyO)
    } else if b == 80 {
        Some(KeyCode::KeyP)
    } else if b == 81 {
        Some(KeyCode::KeyQ)
    } else if b == 82 {
        Some(KeyCode::KeyR)
    } else if b == 83 {
        Some(KeyCode::KeyS)
    } else if b == 84 {
        Some(KeyCode::KeyT)
    } else if b == 85 {
        Some(KeyCode::KeyU)
    } else if b == 86 {
        Some(KeyCode::KeyV)
    } else if b == 87 {
        Some(KeyCode::KeyW)
    } else if b == 88 {
        Some(KeyCode::KeyX)
    } else if b == 89 {
        Some(KeyCode::KeyY)
    } else if b == 90 {
        Some(KeyCode::KeyZ)
    } else {
        None
    }
}

/// The function key a digit byte names after an `F`, if any: `F1` through
/// `F7`.
pub open spec fn fkey_code(d: u8) -> Option<KeyCode> {
    if d == 49 {
        Some(KeyCode::F1)
    } else if d == 50 {
        Some(KeyCode::F2)
    } else if d == 51 {
        Some(KeyCode::F3)
    } else if d == 52 {
        Some(KeyCode::F4)
    } else if d == 53 {
        Some(KeyCode::F5)
    } else if d == 54 {
        Some(KeyCode::F6)
    } else if d == 55 {
        Some(KeyCode::F7)
    } else {
        None
    }
}

/// The key code an uppercased token names, if any: a single letter, `F1`
/// through `F7`, `ESC` or `ESCAPE`, or `SPACE`.
pub open spec fn code_of_upper(u: Seq<u8>) -> Option<KeyCode> {
    if u.len() == 1 {
        letter_code(u[0])
    } else if u.len() == 2 && u[0] == 70 {
        fkey_code(u[1])
    } else if u.len() == 3 && u[0] == 69 && u[1] == 83 && u[2] == 67 {
        Some(KeyCode::Escape)
    } else if u.len() == 6 && u[0] == 69 && u[1] == 83 && u[2] == 67 && u[3] == 65
        && u[4] == 80 && u[5] == 69 {
        Some(KeyCode::Escape)
    } else if u.len() == 5 && u[0] == 83 && u[1] == 80 && u[2] == 65 && u[3] == 67
        && u[4] == 69 {
        Some(KeyCode::Space)
    } else {
        None
    }
}

/// The key code a token names, case-insensitively.
pub open spec fn code_of(t: Seq<u8>) -> Option<KeyCode> {
    code_of_upper(upper(t))
}

/// The modifier flags set by applying one token's classification.
pub open spec fn apply_mod(m: Modifiers, k: Option<ModKind>) -> Modifiers {
    match k {
        Some(ModKind::Control) => Modifiers { control: true, ..m },
        Some(ModKind::Alt) => Modifiers { alt: true, ..m },
        Some(ModKind::Shift) => Modifiers { shift: true, ..m },
        Some(ModKind::Meta) => Modifiers { meta: true, ..m },
        None => m,
    }
}

/// The modifier flags accumulated over a token list.
pub open spec fn mods_of(toks: Seq<Seq<u8>>) -> Modifiers
    decreases toks.len(),
{
    if toks.len() == 0 {
        Modifiers { control: false, alt: false, shift: false, meta: false }
    } else {
        apply_mod(mods_of(toks.drop_last()), mod_kind(toks.last()))
    }
}

/// The tokens of a list that name no modifier, in order.
pub open spec fn nonmods(toks: Seq<Seq<u8>>) -> Seq<Seq<u8>>
    decreases toks.len(),
{
    if toks.len() == 0 {
        Seq::empty()
    } else {
        let rest = nonmods(toks.drop_last());
        if mod_kind(toks.last()) is None {
            rest.push(toks.last())
        } else {
            rest
        }
    }
}

/// The binding a token list resolves to: the accumulated modifiers and
/// the key named by the single non-modifier token. A list with no
/// non-modifier token, several of them, or one naming no known key
/// resolves to nothing.
pub open spec fn binding_of_tokens(toks: Seq<Seq<u8>>) -> Option<HotkeyBinding> {
    let nm = nonmods(toks);
    if nm.len() == 1 {
        match code_of(nm.first()) {
            Some(k) => Some(HotkeyBinding { modifiers: mods_of(toks), key: k }),
            None => None,
        }
    } else {
        None
    }
}

/// The binding a whole string resolves to, if any.
pub open spec fn binding_of(s: Seq<u8>) -> Option<HotkeyBinding> {
    binding_of_tokens(tokens(s))
}

/// Whether a byte separates tokens.
fn is_space_byte(b: u8) -> (r: bool)
    ensures
        r == is_space(b),
{
    b == 32 || b == 9 || b == 10 || b == 13
}

/// Fold a token to ASCII uppercase.
fn upper_bytes(token: &[u8]) -> (up: Vec<u8>)
    ensures
        up@ == upper(token@),
{
    let mut up: Vec<u8> = Vec::new();
    let mut i: usize = 0;
    while i < token.len()
        invariant
            i <= token@.len(),
            up@.len() == i,
            forall|j: int| 0 <= j < i ==> up@[j] == to_upper(token@[j]),
        decreases token@.len() - i,
    {
        let b = token[i];
        if b >= 97 && b <= 122 {
            up.push(b - 32);
        } else {
            up.push(b);
        }
        i = i + 1;
    }
    proof {
        assert(up@ =~= upper(token@));
    }
    up
}

/// Fold a token to ASCII lowercase.
fn lower_bytes(token: &[u8]) -> (low: Vec<u8>)
    ensures
        low@ == lower(token@),
{
    let mut low: Vec<u8> = Vec::new();
    let mut i: usize = 0;
    while i < token.len()
        invariant
            i <= token@.len(),
            low@.len() == i,
            forall|j: int| 0 <= j < i ==> low@[j] == to_lower(token@[j]),
        decreases token@.len() - i,
    {
        let b = token[i];
        if b >= 65 && b <= 90 {
            low.push(b + 32);
        } else {
            low.push(b);
        }
        i = i + 1;
    }
    proof {
        assert(low@ =~= lower(token@));
    }
    low
}

/// The modifier a token names, if any.
fn modifier_kind(token: &[u8]) -> (r: Option<ModKind>)
    ensures
        r == mod_kind(token@),
{
    let l = lower_bytes(token);
    if l.len() == 4 && l[0] == 99 && l[1] == 116 && l[2] == 114 && l[3] == 108 {
        Some(ModKind::Control)
    } else if l.len() == 3 && l[0] == 97 && l[1] == 108 && l[2] == 116 {
        Some(ModKind::Alt)
    } else if l.len() == 5 && l[0] == 115 && l[1] == 104 && l[2] == 105 && l[3] == 102
        && l[4] == 116 {
        Some(ModKind::Shift)
    } else if l.len() == 4 && l[0] == 109 && l[1] == 101 && l[2] == 116 && l[3] == 97 {
        Some(ModKind::Meta)
    } else if l.len() == 3 && l[0] == 99 && l[1] == 109 && l[2] == 100 {
        Some(ModKind::Meta)
    } else if l.len() == 5 && l[0] == 115 && l[1] == 117 && l[2] == 112 && l[3] == 101
        && l[4] == 114 {
        Some(ModKind::Meta)
    } else {
        None
    }
}

/// The key code a single uppercase letter byte names, if any.
fn letter_key(b: u8) -> (r: Option<KeyCode>)
    ensures
        r == letter_code(b),
{
    match b {
        65 => Some(KeyCode::KeyA),
        66 => Some(KeyCode::KeyB),
        67 => Some(KeyCode::KeyC),
        68 => Some(KeyCode::KeyD),
        69 => Some(KeyCode::KeyE),
        70 => Some(KeyCode::KeyF),
        71 => Some(KeyCode::KeyG),
        72 => Some(KeyCode::KeyH),
        73 => Some(KeyCode::KeyI),
        74 => Some(KeyCode::KeyJ),
        75 => Some(KeyCode::KeyK),
        76 => Some(KeyCode::KeyL),
        77 => Some(KeyCode::KeyM),
        78 => Some(KeyCode::KeyN),
        79 => Some(KeyCode::KeyO),
        80 => Some(KeyCode::KeyP),
        81 => Some(KeyCode::KeyQ),
        82 => Some(KeyCode::KeyR),
        83 => Some(KeyCode::KeyS),
        84 => Some(KeyCode::KeyT),
        85 => Some(KeyCode::KeyU),
        86 => Some(KeyCode::KeyV),
        87 => Some(KeyCode::KeyW),
        88 => Some(KeyCode::KeyX),
        89 => Some(KeyCode::KeyY),
        90 => Some(KeyCode::KeyZ),
        _ => None,
    }
}

/// The function key a digit byte names after an `F`, if any.
fn fkey_key(d: u8) -> (r: Option<KeyCode>)
    ensures
        r == fkey_code(d),
{
    match d {
        49 => Some(KeyCode::F1),
        50 => Some(KeyCode::F2),
        51 => Some(KeyCode::F3),
        52 => Some(KeyCode::F4),
        53 => Some(KeyCode::F5),
        54 => Some(KeyCode::F6),
        55 => Some(KeyCode::F7),
        _ => None,
    }
}

/// Resolve one key-name token against the whitelist, case-insensitively.
pub fn parse_code(token: &[u8]) -> (r: Option<KeyCode>)
    ensures
        r == code_of(token@),
{
    let u = upper_bytes(token);
    if u.len() == 1 {
        letter_key(u[0])
    } else if u.len() == 2 && u[0] == 70 {
        fkey_key(u[1])
    } else if u.len() == 3 && u[0] == 69 && u[1] == 83 && u[2] == 67 {
        Some(KeyCode::Escape)
    } else if u.len() == 6 && u[0] == 69 && u[1] == 83 && u[2] == 67 && u[3] == 65
        && u[4] == 80 && u[5] == 69 {
        Some(KeyCode::Escape)
    } else if u.len() == 5 && u[0] == 83 && u[1] == 80 && u[2] == 65 && u[3] == 67
        && u[4] == 69 {
        Some(KeyCode::Space)
    } else {
        None
    }
}

/// Account one finished token: a modifier name sets its flag; any other
/// token counts as a key token, and the first such token (only) resolves
/// the key.
fn note_token(token: &[u8], mods: &mut Modifiers, count: &mut usize, key: &mut Option<KeyCode>)
    requires
        *old(count) < usize::MAX,
    ensures
        *final(mods) == apply_mod(*old(mods), mod_kind(token@)),
        *final(count) == (if mod_kind(token@) is None {
            *old(count) + 1
        } else {
            *old(count) as int
        }),
        *final(key) == (if mod_kind(token@) is None && *old(count) == 0 {
            code_of(token@)
        } else {
            *old(key)
        }),
{
    match modifier_kind(token) {
        Some(ModKind::Control) => {
            mods.control = true;
        },
        Some(ModKind::Alt) => {
            mods.alt = true;
        },
        Some(ModKind::Shift) => {
            mods.shift = true;
        },
        Some(ModKind::Meta) => {
            mods.meta = true;
        },
        None => {
            if *count == 0 {
                *key = parse_code(token);
            }
            *count = *count + 1;
        },
    }
}

/// Parse a binding string into modifier flags and one key code, or into
/// nothing if it holds no key token, several non-modifier tokens, or a
/// key outside the whitelist.
pub fn parse_hotkey(input: &[u8]) -> (r: Option<HotkeyBinding>)
    ensures
        r == binding_of(input@),
{
    let mut cur: Vec<u8> = Vec::new();
    let mut mods = Modifiers { control: false, alt: false, shift: false, meta: false };
    let mut count: usize = 0;
    let mut key: Option<KeyCode> = None;
    let mut i: usize = 0;
    while i < input.len()
        invariant
            i <= input@.len(),
            count + cur@.len() <= i,
            cur@ == scan(input@.take(i as int)).1,
            mods == mods_of(scan(input@.take(i as int)).0),
            count as nat == nonmods(scan(input@.take(i as int)).0).len(),
            count >= 1 ==> key == code_of(nonmods(scan(input@.take(i as int)).0).first()),
        decreases input@.len() - i,
    {
        let ghost done0 = scan(input@.take(i as int)).0;
        let ghost cur0 = cur@;
        proof {
            assert(input@.take(i as int + 1).drop_last() =~= input@.take(i as int));
            assert(input@.take(i as int + 1).last() == input@[i as int]);
        }
        let b = input[i];
        if is_space_byte(b) {
            if cur.len() > 0 {
                proof {
                    assert(scan(input@.take(i as int + 1)).0 == done0.push(cur0));
                    assert(done0.push(cur0).drop_last() =~= done0);
                    assert(done0.push(cur0).last() == cur0);
                    if mod_kind(cur0) is None && nonmods(done0).len() >= 1 {
                        assert(nonmods(done0.push(cur0)).first() == nonmods(done0).first());
                    }
                }
                note_token(cur.as_slice(), &mut mods, &mut count, &mut key);
                cur = Vec::new();
            }
        } else {
            cur.push(b);
        }
        i = i + 1;
    }
    proof {
        assert(input@.take(input@.len() as int) =~= input@);
    }
    let ghost done_end = scan(input@).0;
    let ghost cur_end = cur@;
    if cur.len() > 0 {
        proof {
            assert(tokens(input@) == done_end.push(cur_end));
            assert(done_end.push(cur_end).drop_last() =~= done_end);
            assert(done_end.push(cur_end).last() == cur_end);
            if mod_kind(cur_end) is None && nonmods(done_end).len() >= 1 {
                assert(nonmods(done_end.push(cur_end)).first() == nonmods(done_end).first());
            }
        }
        note_token(cur.as_slice(), &mut mods, &mut count, &mut key);
    }
    if count == 1 {
        match key {
            Some(k) => Some(HotkeyBinding { modifiers: mods, key: k }),
            None => None,
        }
    } else {
        None
    }
}

} // verus!
