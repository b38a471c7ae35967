//! The commands of the helper, each planned as a script of host steps.

use crate::keys::{paste_chord, paste_modifier, Key, Platform};
use vstd::prelude::*;
use vstd::string::*;

verus! {

/// Milliseconds that `simulate_paste` waits before the chord, so that a
/// clipboard write made just before has settled.
pub const PASTE_SETTLE_MS: u64 = 50;

/// Milliseconds that `copy_and_paste` waits between the copy and the chord.
pub const COPY_SETTLE_MS: u64 = 100;

/// Milliseconds between two typed characters when the caller gives none.
pub const DEFAULT_TYPE_DELAY_MS: u64 = 10;

/// One unit of work for the host: a clipboard access, a pause or a keystroke.
#[derive(PartialEq, Eq, Debug)]
pub enum Step {
    /// Replace the clipboard's text with this text.
    SetClipboard(String),
    /// Read the clipboard's text.
    ReadClipboard,
    /// Sleep for this many milliseconds.
    Pause(u64),
    /// Hold a key down.
    Press(Key),
    /// Press and release a key.
    Click(Key),
    /// Release a held key.
    Release(Key),
    /// Type one character as a keystroke sequence.
    TypeChar(char),
}

impl Step {
    /// True of the steps that synthesize keyboard input.
    pub open spec fn is_keystroke(self) -> bool {
        ||| self is Press
        ||| self is Click
        ||| self is Release
        ||| self is TypeChar
    }
}

/// The paste chord on a platform, as steps: hold the modifier, click V, let go.
pub open spec fn chord_steps(p: Platform) -> Seq<Step> {
    seq![
        Step::Press(paste_modifier(p)),
        Step::Click(Key::Layout('v')),
        Step::Release(paste_modifier(p)),
    ]
}

/// Script of `copy_to_clipboard`.
pub open spec fn copy_steps(text: String) -> Seq<Step> {
    seq![Step::SetClipboard(text)]
}

/// Script of `get_clipboard_text`.
pub open spec fn read_steps() -> Seq<Step> {
    seq![Step::ReadClipboard]
}

/// Script of `simulate_paste`.
pub open spec fn paste_steps(p: Platform) -> Seq<Step> {
    seq![Step::Pause(PASTE_SETTLE_MS)] + chord_steps(p)
}

/// Script of `copy_and_paste`.
pub open spec fn copy_and_paste_steps(text: String, p: Platform) -> Seq<Step> {
    seq![Step::SetClipboard(text), Step::Pause(COPY_SETTLE_MS)] + chord_steps(p)
}

/// The script that types `text`: each character in order, each followed by
/// a pause of `delay` milliseconds when `delay` is positive.
pub open spec fn typing_steps(text: Seq<char>, delay: u64) -> Seq<Step>
    decreases text.len(),
{
    if text.len() == 0 {
        Seq::empty()
    } else {
        let head = if delay > 0 {
            seq![Step::TypeChar(text[0]), Step::Pause(delay)]
        } else {
            seq![Step::TypeChar(text[0])]
        };
        head + typing_steps(text.drop_first(), delay)
    }
}

/// The delay that `type_text` uses for an optional caller-given delay.
pub open spec fn type_delay(delay_ms: Option<u64>) -> u64 {
    match delay_ms {
        Some(d) => d,
        None => DEFAULT_TYPE_DELAY_MS,
    }
}

fn push_chord(steps: &mut Vec<Step>, p: Platform)
    ensures
        final(steps)@ == old(steps)@ + chord_steps(p),
{
    let chord = paste_chord(p);
    steps.push(Step::Press(chord.modifier));
    steps.push(Step::Click(chord.key));
    steps.push(Step::Release(chord.modifier));
    assert(steps@ == old(steps)@ + chord_steps(p));
}

/// Script of the command that writes `text` to the clipboard.
pub fn copy_to_clipboard(text: String) -> (r: Vec<Step>)
    ensures
        r@ == copy_steps(text),
{
    let mut r: Vec<Step> = Vec::new();
    r.push(Step::SetClipboard(text));
    assert(r@ == seq![Step::SetClipboard(text)]);
    r
}

/// Script of the command that reads the clipboard's text.
pub fn get_clipboard_text() -> (r: Vec<Step>)
    ensures
        r@ == read_steps(),
{
    let mut r: Vec<Step> = Vec::new();
    r.push(Step::ReadClipboard);
    assert(r@ == seq![Step::ReadClipboard]);
    r
}

/// Script of the command that pastes: a settle pause, then the paste chord.
pub fn simulate_paste(p: Platform) -> (r: Vec<Step>)
    ensures
        r@ == paste_steps(p),
{
    let mut r: Vec<Step> = Vec::new();
    r.push(Step::Pause(PASTE_SETTLE_MS));
    push_chord(&mut r, p);
    r
}

/// Script of the command that copies `text` and pastes it: the clipboard
/// write, a settle pause, then the paste chord.
pub fn copy_and_paste(text: String, p: Platform) -> (r: Vec<Step>)
    ensures
        r@ == copy_and_paste_steps(text, p),
{
    let mut r: Vec<Step> = Vec::new();
    r.push(Step::SetClipboard(text));
    r.push(Step::Pause(COPY_SETTLE_MS));
    push_chord(&mut r, p);
    r
}

/// Script of the command that types `text` character by character, pausing
/// `delay_ms` milliseconds (ten when not given) after each one.
pub fn type_text(text: String, delay_ms: Option<u64>) -> (r: Vec<Step>)
    ensures
        r@ == typing_steps(text@, type_delay(delay_ms)),
{
    let delay = match delay_ms {
        Some(d) => d,
        None => DEFAULT_TYPE_DELAY_MS,
    };
    let text = text.as_str();
    let n = text.unicode_len();
    let mut r: Vec<Step> = Vec::new();
    let mut i: usize = 0;
    assert(text@.subrange(0, n as int) == text@);
    assert(r@ + typing_steps(text@, delay) == typing_steps(text@, delay));
    while i < n
        invariant
            n == text@.len(),
            i <= n,
            delay == type_delay(delay_ms),
            r@ + typing_steps(text@.subrange(i as int, n as int), delay) == typing_steps(text@, delay),
        decreases n - i,
    {
        let c = text.get_char(i);
        let ghost rest = text@.subrange(i as int, n as int);
        let ghost r0 = r@;
        assert(rest.drop_first() == text@.subrange(i + 1, n as int));
        assert(rest[0] == c);
        r.push(Step::TypeChar(c));
        if delay > 0 {
            r.push(Step::Pause(delay));
            assert(r@ == r0 + seq![Step::TypeChar(c), Step::Pause(delay)]);
        } else {
            assert(r@ == r0 + seq![Step::TypeChar(c)]);
        }
        assert(r@ + typing_steps(rest.drop_first(), delay) == r0 + typing_steps(rest, delay));
        i = i + 1;
    }
    assert(text@.subrange(n as int, n as int) == Seq::<char>::empty());
    assert(r@ + Seq::<Step>::empty() == r@);
    r
}

} // verus!
