//! Keys, platforms and the paste chord.

use vstd::prelude::*;
use vstd::string::*;

verus! {

/// A key that the host is asked to press, click or release.
#[derive(PartialEq, Eq, Structural, Clone, Copy, Debug)]
pub enum Key {
    Meta,
    Control,
    /// The key that produces this character on the current keyboard layout.
    Layout(char),
}

/// The platform family, as far as keyboard conventions go.
#[derive(PartialEq, Eq, Structural, Clone, Copy, Debug)]
pub enum Platform {
    MacOs,
    Other,
}

/// A modifier held around one click of a key.
#[derive(PartialEq, Eq, Structural, Clone, Copy, Debug)]
pub struct Chord {
    pub modifier: Key,
    pub key: Key,
}

/// True when `a` and `b` hold the same characters.
pub fn same_text(a: &str, b: &str) -> (r: bool)
    ensures
        r == (a@ == b@),
{
    let n = a.unicode_len();
    if n != b.unicode_len() {
        return false;
    }
    let mut i: usize = 0;
    while i < n
        invariant
            n == a@.len(),
            n == b@.len(),
            i <= n,
            a@.subrange(0, i as int) == b@.subrange(0, i as int),
        decreases n - i,
    {
        if a.get_char(i) != b.get_char(i) {
            assert(a@[i as int] != b@[i as int]);
            return false;
        }
        assert(a@.subrange(0, i + 1) == a@.subrange(0, i as int).push(a@[i as int]));
        assert(b@.subrange(0, i + 1) == b@.subrange(0, i as int).push(b@[i as int]));
        i = i + 1;
    }
    assert(a@ == a@.subrange(0, n as int));
    assert(b@ == b@.subrange(0, n as int));
    true
}

impl Platform {
    /// Platform family for an operating-system name such as `"macos"`,
    /// `"linux"` or `"windows"`.
    pub fn from_os_name(name: &str) -> (r: Platform)
        ensures
            r == (if name@ == "macos"@ { Platform::MacOs } else { Platform::Other }),
    {
        if same_text(name, "macos") {
            Platform::MacOs
        } else {
            Platform::Other
        }
    }
}

/// The modifier of the paste chord on a platform.
pub open spec fn paste_modifier(p: Platform) -> Key {
    match p {
        Platform::MacOs => Key::Meta,
        Platform::Other => Key::Control,
    }
}

/// The paste chord: Meta+V on macOS, Control+V elsewhere.
pub fn paste_chord(p: Platform) -> (r: Chord)
    ensures
        r.modifier == paste_modifier(p),
        r.key == Key::Layout('v'),
{
    match p {
        Platform::MacOs => Chord { modifier: Key::Meta, key: Key::Layout('v') },
        Platform::Other => Chord { modifier: Key::Control, key: Key::Layout('v') },
    }
}

} // verus!
