//! Keyboard input: scancodes from the PS/2 data port are decoded by
//! `pc_keyboard` (US 104-key layout, scancode set 1), which keeps the
//! modifier state across calls; each decoded key becomes a piece of console
//! output.

use vstd::prelude::*;

use pc_keyboard::layouts::Us104Key;
use pc_keyboard::{DecodedKey, HandleControl, KeyCode, KeyEvent, KeyState, Keyboard, ScancodeSet1};

verus! {

/// A key going down or up, as `pc_keyboard` reports it.
#[verifier::external_type_specification]
pub struct ExKeyEvent(KeyEvent);

/// Whether a key event is a press or a release.
#[verifier::external_type_specification]
pub struct ExKeyState(KeyState);

/// A scancode that `pc_keyboard` could not decode.
#[verifier::external_type_specification]
#[verifier::external_body]
pub struct ExKeyboardError(pc_keyboard::Error);

/// A key with no character, such as an arrow or a function key.
#[verifier::external_type_specification]
#[verifier::external_body]
pub struct ExKeyCode(KeyCode);

/// What a key press decodes to: a character, or a key without one.
#[verifier::external_type_specification]
pub struct ExDecodedKey(DecodedKey);

/// Whether Ctrl turns letters into control characters.
#[verifier::external_type_specification]
pub struct ExHandleControl(HandleControl);

/// What the decoder hands back holds no key press: an error, nothing, or a
/// release.
pub open spec fn no_key_press(r: Result<Option<KeyEvent>, pc_keyboard::Error>) -> bool {
    match r {
        Ok(Some(ev)) => ev.state == KeyState::Up,
        _ => true,
    }
}

/// What the decoder remembers between scancodes.
pub struct DecoderState {
    /// An extended-key prefix (`0xE0`) is waiting for its second byte.
    pub extended: bool,
    pub lshift: bool,
    pub rshift: bool,
    pub lctrl: bool,
    pub rctrl: bool,
    pub numlock: bool,
    pub capslock: bool,
    pub alt_gr: bool,
    /// Ctrl turns the letters into control characters.
    pub map_ctrl_letters: bool,
}

/// The state of a fresh decoder: no prefix pending, no modifier held, Num
/// Lock on.
pub open spec fn start_state(map_ctrl_letters: bool) -> DecoderState {
    DecoderState {
        extended: false,
        lshift: false,
        rshift: false,
        lctrl: false,
        rctrl: false,
        numlock: true,
        capslock: false,
        alt_gr: false,
        map_ctrl_letters,
    }
}

/// What a decoder remembers.
pub uninterp spec fn decoder_state(d: KeyboardDecoder) -> DecoderState;

/// Scancode set 1 on one byte: the next state and the key event, if the
/// byte completes one.
pub uninterp spec fn set1_step(state: DecoderState, byte: u8) -> (
    DecoderState,
    Result<Option<KeyEvent>, pc_keyboard::Error>,
);

/// The US 104-key layout on one key event: the next state (the modifiers
/// the event presses or releases) and the key it gives, if any.
pub uninterp spec fn us104_step(state: DecoderState, ev: KeyEvent) -> (
    DecoderState,
    Option<DecodedKey>,
);

/// The scancode decoder of `pc_keyboard` for the US 104-key layout and
/// scancode set 1. It keeps state across scancodes: an extended-key prefix
/// waiting for its second byte, and which modifier keys are held.
///
/// `Keyboard<T, S>` is bounded by `pc_keyboard`'s layout and scancode-set
/// traits, which Verus cannot take as bounds of a declared type, so the
/// decoder is held in a field that Verus does not look into.
#[verifier::external_body]
pub struct KeyboardDecoder {
    keyboard: Keyboard<Us104Key, ScancodeSet1>,
}

impl KeyboardDecoder {
    /// Relies on `pc_keyboard::Keyboard::new`: a decoder in its start state:
    /// no prefix pending, no modifier held, Num Lock on.
    #[verifier::external_body]
    fn with_control(handle_ctrl: HandleControl) -> (r: KeyboardDecoder)
        ensures
            decoder_state(r) == start_state(handle_ctrl == HandleControl::MapLettersToUnicode),
    {
        KeyboardDecoder { keyboard: Keyboard::new(Us104Key, ScancodeSet1, handle_ctrl) }
    }

    /// Relies on `pc_keyboard::Keyboard::add_byte`: feeds one scancode byte
    /// to the decoder, which may hand back a key event. The outcome depends
    /// on the byte and on whether a prefix is pending; in scancode set 1 a
    /// byte of `0x80` or more is a release, an extended-key prefix or an
    /// unknown code, never a key press.
    #[verifier::external_body]
    fn add_byte(&mut self, byte: u8) -> (r: Result<Option<KeyEvent>, pc_keyboard::Error>)
        ensures
            (decoder_state(*final(self)), r) == set1_step(decoder_state(*old(self)), byte),
            byte >= 0x80 ==> no_key_press(r),
    {
        self.keyboard.add_byte(byte)
    }

    /// Relies on `pc_keyboard::Keyboard::process_keyevent`: updates the
    /// modifier state and, for a key press, maps the key through the layout.
    /// The outcome depends on the event, the modifiers held and the Ctrl
    /// handling; a release never gives a key.
    #[verifier::external_body]
    fn process_keyevent(&mut self, ev: KeyEvent) -> (r: Option<DecodedKey>)
        ensures
            (decoder_state(*final(self)), r) == us104_step(decoder_state(*old(self)), ev),
            ev.state == KeyState::Up ==> r is None,
    {
        self.keyboard.process_keyevent(ev)
    }
}

/// A piece of console output produced by an interrupt.
#[derive(Clone, Copy, Debug)]
pub enum Output {
    /// A printable ASCII character, shown as itself.
    Char(char),
    /// Any other character, shown escaped (`'\u{8}'`).
    Escaped(char),
    /// A key without a character, shown by its name.
    Key(KeyCode),
}

/// The output for a decoded key. A character is shown as itself when it is
/// printable ASCII (`0x20` to `0x7e`), else escaped; a key without a
/// character is shown by its name.
pub open spec fn spec_key_output(key: DecodedKey) -> Output {
    match key {
        DecodedKey::Unicode(c) => if 0x20 <= (c as u32) <= 0x7e {
            Output::Char(c)
        } else {
            Output::Escaped(c)
        },
        DecodedKey::RawKey(code) => Output::Key(code),
    }
}

/// The output for a decoded key.
pub fn key_output(key: DecodedKey) -> (r: Output)
    ensures
        r == spec_key_output(key),
{
    match key {
        DecodedKey::Unicode(character) => {
            let code = character as u32;
            if 0x20 <= code && code <= 0x7e {
                Output::Char(character)
            } else {
                Output::Escaped(character)
            }
        },
        DecodedKey::RawKey(code) => Output::Key(code),
    }
}

impl KeyboardDecoder {
    /// A decoder in its start state; Ctrl is passed through as a key of its
    /// own rather than turning letters into control characters.
    pub fn new() -> (r: KeyboardDecoder)
        ensures
            decoder_state(r) == start_state(false),
    {
        KeyboardDecoder::with_control(HandleControl::Ignore)
    }

    /// Feeds one scancode to the decoder. A key press that decodes to a key
    /// gives that key's output; a release, a modifier, a prefix byte or an
    /// unknown scancode gives none. A scancode of `0x80` or more (a release
    /// or a prefix) never gives output.
    pub fn decode(&mut self, scancode: u8) -> (r: Option<Output>)
        ensures
            (decoder_state(*final(self)), r) == spec_decode(decoder_state(*old(self)), scancode),
            scancode >= 0x80 ==> r is None,
    {
        match self.add_byte(scancode) {
            Ok(Some(event)) => match self.process_keyevent(event) {
                Some(key) => Some(key_output(key)),
                None => None,
            },
            _ => None,
        }
    }
}

/// One scancode through the decoder: scancode set 1, then, for a completed
/// key event, the layout, then the output of the key it gives.
pub open spec fn spec_decode(state: DecoderState, scancode: u8) -> (DecoderState, Option<Output>) {
    let (after_set, event) = set1_step(state, scancode);
    match event {
        Ok(Some(ev)) => {
            let (after_layout, key) = us104_step(after_set, ev);
            match key {
                Some(k) => (after_layout, Some(spec_key_output(k))),
                None => (after_layout, None),
            }
        },
        _ => (after_set, None),
    }
}

} // verus!
