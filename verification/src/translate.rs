//! The keycode-to-text state machine's decisions. The compiled layout
//! model and the modifier state it tracks live in the surrounding program,
//! which updates them once per raw event, strictly in arrival order, and
//! performs a text lookup only when the decision here asks for one: the
//! symbolic table is checked first, so a special key never reaches the
//! text path, and a looked-up fragment is logged only once it passes the
//! printability filter.
use crate::special::key_to_special;
use crate::special::special_token;
use crate::text::control_char;
use crate::text::is_control_char;
use vstd::prelude::*;

verus! {

/// Whether one raw event is a key going down or coming up.
#[derive(Clone, Copy, PartialEq, Eq, Structural, Debug)]
pub enum KeyAction {
    Pressed,
    Released,
}

/// One raw hardware key event: the device's stable key identifier and the
/// direction.
#[derive(Clone, Copy, PartialEq, Eq, Structural, Debug)]
pub struct RawKeyEvent {
    pub code: u16,
    pub action: KeyAction,
}

/// What one event translates to: a printable text fragment, a fixed
/// bracketed token for a non-printable key, or nothing to log.
#[derive(Debug, Clone, PartialEq, Eq)]
pub enum TranslatedOutput {
    Text(String),
    Symbol(String),
    NoOutput,
}

/// What the state machine decides for one raw event, before any text
/// lookup: emit a fixed token, look the key up in the layout model, or
/// ignore the event.
#[derive(Debug, Clone, PartialEq, Eq)]
pub enum KeyStep {
    EmitSymbol(String),
    LookupText,
    Ignore,
}

/// Decides one raw key event. A press of a key in the symbolic table
/// yields its token whatever the modifier state, and no text lookup is to
/// be performed; any other press asks for a lookup in the layout model; a
/// release never yields anything, matched by an earlier press or not. The
/// modifier state update itself is unconditional and precedes translation.
pub fn classify_event(event: RawKeyEvent) -> (r: KeyStep)
    ensures
        event.action is Released ==> r is Ignore,
        event.action is Pressed && special_token(event.code) is Some ==> (r matches
            KeyStep::EmitSymbol(t) && special_token(event.code) == Some(t@)),
        event.action is Pressed && special_token(event.code) is None ==> r is LookupText,
{
    match event.action {
        KeyAction::Pressed => match key_to_special(event.code) {
            Some(token) => KeyStep::EmitSymbol(String::from_str(token)),
            None => KeyStep::LookupText,
        },
        KeyAction::Released => KeyStep::Ignore,
    }
}

/// A text character is kept only when printable; newline and tab are
/// always accepted.
pub open spec fn acceptable_char(c: char) -> bool {
    !is_control_char(c) || c == '\n' || c == '\t'
}

/// Text worth logging: non-empty, every character acceptable.
pub open spec fn loggable_text(s: Seq<char>) -> bool {
    s.len() > 0 && forall|i: int| 0 <= i < s.len() ==> acceptable_char(s[i])
}

/// Filters one looked-up translation: it is logged whole when it is
/// non-empty and every character is printable, and dropped otherwise.
#[verifier::loop_isolation(false)]
pub fn filter_translation(text: String) -> (r: TranslatedOutput)
    ensures
        loggable_text(text@) ==> r == TranslatedOutput::Text(text),
        !loggable_text(text@) ==> r is NoOutput,
{
    let n = text.as_str().unicode_len();
    if n == 0 {
        return TranslatedOutput::NoOutput;
    }
    let mut i: usize = 0;
    while i < n
        invariant
            i <= n,
            forall|k: int| 0 <= k < i ==> acceptable_char(text@[k]),
        decreases n - i,
    {
        let c = text.as_str().get_char(i);
        if control_char(c) && c != '\n' && c != '\t' {
            return TranslatedOutput::NoOutput;
        }
        i = i + 1;
    }
    TranslatedOutput::Text(text)
}

/// Raw key identifiers from the input device and keycodes in the compiled
/// layout model use numbering conventions offset by a fixed constant.
pub fn evdev_to_xkb_keycode(code: u16) -> (r: u32)
    ensures
        r == code + 8,
{
    code as u32 + 8
}

/// Law: a translation holding a control character that is neither newline
/// nor tab is never logged.
pub proof fn lemma_control_never_logged(s: Seq<char>, i: int)
    requires
        0 <= i < s.len(),
        is_control_char(s[i]),
        s[i] != '\n',
        s[i] != '\t',
    ensures
        !loggable_text(s),
{
}

/// Law: newline and tab are always accepted into the output.
pub proof fn lemma_newline_tab_accepted()
    ensures
        acceptable_char('\n'),
        acceptable_char('\t'),
{
}

} // verus!
