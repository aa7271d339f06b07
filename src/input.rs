use vstd::prelude::*;

verus! {

/// The keys the session tells apart. Every key that has no byte sequence of
/// its own is `Unmapped`.
#[derive(Clone, Copy, Debug, PartialEq, Eq, Structural)]
pub enum Key {
    Return,
    Back,
    Escape,
    Space,
    Unmapped,
}

/// Whether a key event is a press or a release.
#[derive(Clone, Copy, Debug, PartialEq, Eq, Structural)]
pub enum KeyState {
    Pressed,
    Released,
}

/// The bytes the shell expects for a key, if the key has any.
pub open spec fn key_bytes(key: Key) -> Option<Seq<u8>> {
    match key {
        Key::Return => Some(seq![0x0Au8]),
        Key::Back => Some(seq![0x08u8]),
        Key::Escape => Some(seq![0x1Bu8]),
        Key::Space => Some(seq![0x20u8]),
        Key::Unmapped => None,
    }
}

/// The bytes to write to the terminal for one key event: the key's bytes on a
/// press of a mapped key, nothing otherwise.
pub open spec fn event_bytes(key: Key, state: KeyState) -> Seq<u8> {
    match (state, key_bytes(key)) {
        (KeyState::Pressed, Some(b)) => b,
        _ => Seq::empty(),
    }
}

/// The byte sequence of a key, or `None` for a key without one.
pub fn key_sequence(key: Key) -> (r: Option<Vec<u8>>)
    ensures
        match (r, key_bytes(key)) {
            (Some(v), Some(b)) => v@ == b,
            (None, None) => true,
            _ => false,
        },
{
    match key {
        Key::Return => Some(vec![0x0Au8]),
        Key::Back => Some(vec![0x08u8]),
        Key::Escape => Some(vec![0x1Bu8]),
        Key::Space => Some(vec![0x20u8]),
        Key::Unmapped => None,
    }
}

/// What one key event forwards to the shell. An empty result means that
/// nothing is written: a release, or a key without a byte sequence.
pub fn forward_bytes(key: Key, state: KeyState) -> (r: Vec<u8>)
    ensures
        r@ == event_bytes(key, state),
{
    match state {
        KeyState::Released => Vec::new(),
        KeyState::Pressed => match key_sequence(key) {
            Some(v) => v,
            None => Vec::new(),
        },
    }
}

} // verus!
