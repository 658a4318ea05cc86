//! From keyboard keys to game keys, and the per-tick input snapshot.

use vstd::prelude::*;
use crate::data::{GameKey, InputSnapshot, KeySet};
use crate::menu::MenuInput;

verus! {

/// The keyboard keys the game and its menus listen to; every other key is
/// `Other`.
#[derive(Debug, Clone, Copy, PartialEq, Eq, Structural)]
pub enum Key {
    ArrowLeft,
    ArrowRight,
    ArrowDown,
    ArrowUp,
    KeyH,
    KeyJ,
    KeyK,
    KeyL,
    KeyX,
    KeyZ,
    KeyD,
    Space,
    Enter,
    Backspace,
    Digit1,
    Digit2,
    Digit3,
    Digit4,
    Other,
}

/// The game key of a keyboard key: arrows or h/j/l move and soft-drop,
/// space sonic-drops, x and z rotate clockwise and counterclockwise.
pub open spec fn spec_game_key(key: Key) -> Option<GameKey> {
    match key {
        Key::ArrowLeft | Key::KeyH => Some(GameKey::Left),
        Key::ArrowRight | Key::KeyL => Some(GameKey::Right),
        Key::ArrowDown | Key::KeyJ => Some(GameKey::SoftDrop),
        Key::Space => Some(GameKey::SonicDrop),
        Key::KeyX => Some(GameKey::RotateCw),
        Key::KeyZ => Some(GameKey::RotateCcw),
        _ => None,
    }
}

/// The game key of `key`, if it has one.
pub fn map_game_key(key: Key) -> (g: Option<GameKey>)
    ensures
        g == spec_game_key(key),
{
    match key {
        Key::ArrowLeft | Key::KeyH => Some(GameKey::Left),
        Key::ArrowRight | Key::KeyL => Some(GameKey::Right),
        Key::ArrowDown | Key::KeyJ => Some(GameKey::SoftDrop),
        Key::Space => Some(GameKey::SonicDrop),
        Key::KeyX => Some(GameKey::RotateCw),
        Key::KeyZ => Some(GameKey::RotateCcw),
        _ => None,
    }
}

/// Whether one of `keys` maps to `g`.
pub open spec fn maps_to(keys: Seq<Key>, g: GameKey) -> bool {
    exists|i: int| 0 <= i < keys.len() && spec_game_key(#[trigger] keys[i]) == Some(g)
}

/// The game keys of the keyboard keys `keys`.
pub fn game_keys_of(keys: &[Key]) -> (s: KeySet)
    ensures
        forall|g: GameKey| s.has(g) <==> maps_to(keys@, g),
{
    let mut s = KeySet::new();
    let mut i: usize = 0;
    while i < keys.len()
        invariant
            i <= keys@.len(),
            forall|g: GameKey| s.has(g) <==> maps_to(keys@.take(i as int), g),
        decreases keys@.len() - i,
    {
        let k = keys[i];
        let ghost before = s;
        if let Some(g) = map_game_key(k) {
            s.insert(g);
        }
        assert forall|g: GameKey| s.has(g) <==> maps_to(keys@.take(i + 1), g) by {
            let t = keys@.take(i + 1);
            assert(t[i as int] == k);
            if maps_to(t, g) {
                let j = choose|j: int| 0 <= j < t.len() && spec_game_key(#[trigger] t[j]) == Some(g);
                if j < i {
                    assert(keys@.take(i as int)[j] == t[j]);
                }
            }
            if maps_to(keys@.take(i as int), g) {
                let j = choose|j: int|
                    0 <= j < keys@.take(i as int).len() && spec_game_key(
                        #[trigger] keys@.take(i as int)[j],
                    ) == Some(g);
                assert(t[j] == keys@.take(i as int)[j]);
            }
        }
        i = i + 1;
    }
    assert(keys@.take(i as int) =~= keys@);
    s
}

/// Samples the keyboard for a frame: the held keys are replaced by those
/// down now; keys that went down are added to those already pressed since
/// the last tick, so that a press between ticks is not lost.
pub fn sample_input(input: &mut InputSnapshot, down: &[Key], went_down: &[Key])
    ensures
        forall|g: GameKey| final(input).held.has(g) <==> maps_to(down@, g),
        forall|g: GameKey|
            final(input).just_pressed.has(g) <==> (old(input).just_pressed.has(g) || maps_to(
                went_down@,
                g,
            )),
{
    input.held = game_keys_of(down);
    let pressed = game_keys_of(went_down);
    let mut j = input.just_pressed;
    if pressed.left {
        j.left = true;
    }
    if pressed.right {
        j.right = true;
    }
    if pressed.rotate_cw {
        j.rotate_cw = true;
    }
    if pressed.rotate_ccw {
        j.rotate_ccw = true;
    }
    if pressed.soft_drop {
        j.soft_drop = true;
    }
    if pressed.sonic_drop {
        j.sonic_drop = true;
    }
    input.just_pressed = j;
    proof {
        assert forall|g: GameKey|
            input.just_pressed.has(g) <==> (old(input).just_pressed.has(g) || maps_to(went_down@, g)) by {
            assert(pressed.has(g) <==> maps_to(went_down@, g));
        }
    }
}

/// Forgets the keys pressed since the last tick, once the tick has seen
/// them; held keys stay.
pub fn clear_just_pressed(input: &mut InputSnapshot)
    ensures
        final(input).held == old(input).held,
        forall|g: GameKey| !final(input).just_pressed.has(g),
{
    input.just_pressed.clear();
}

/// Whether `key` is among `keys`.
pub fn has_key(keys: &[Key], key: Key) -> (r: bool)
    ensures
        r == keys@.contains(key),
{
    let mut i: usize = 0;
    while i < keys.len()
        invariant
            i <= keys@.len(),
            forall|j: int| 0 <= j < i ==> keys@[j] != key,
        decreases keys@.len() - i,
    {
        if keys[i] == key {
            assert(keys@[i as int] == key);
            return true;
        }
        i = i + 1;
    }
    false
}

/// The menu keys among the keys that went down this frame: up is the up
/// arrow or k, down the down arrow or j, left the left arrow or h, right
/// the right arrow or l, confirm space or enter, back backspace, and d
/// unlocks the debug entry.
pub fn menu_input_of(went_down: &[Key]) -> (m: MenuInput)
    ensures
        m.up == (went_down@.contains(Key::ArrowUp) || went_down@.contains(Key::KeyK)),
        m.down == (went_down@.contains(Key::ArrowDown) || went_down@.contains(Key::KeyJ)),
        m.left == (went_down@.contains(Key::ArrowLeft) || went_down@.contains(Key::KeyH)),
        m.right == (went_down@.contains(Key::ArrowRight) || went_down@.contains(Key::KeyL)),
        m.confirm == (went_down@.contains(Key::Space) || went_down@.contains(Key::Enter)),
        m.back == went_down@.contains(Key::Backspace),
        m.unlock_debug == went_down@.contains(Key::KeyD),
{
    MenuInput {
        up: has_key(went_down, Key::ArrowUp) || has_key(went_down, Key::KeyK),
        down: has_key(went_down, Key::ArrowDown) || has_key(went_down, Key::KeyJ),
        left: has_key(went_down, Key::ArrowLeft) || has_key(went_down, Key::KeyH),
        right: has_key(went_down, Key::ArrowRight) || has_key(went_down, Key::KeyL),
        confirm: has_key(went_down, Key::Space) || has_key(went_down, Key::Enter),
        back: has_key(went_down, Key::Backspace),
        unlock_debug: has_key(went_down, Key::KeyD),
    }
}

/// The debug scene's line-clear count chosen by the digit keys that went
/// down this frame: the lowest of 1 to 4 pressed, if any.
pub open spec fn spec_debug_digit(went_down: Seq<Key>) -> Option<u32> {
    if went_down.contains(Key::Digit1) {
        Some(1)
    } else if went_down.contains(Key::Digit2) {
        Some(2)
    } else if went_down.contains(Key::Digit3) {
        Some(3)
    } else if went_down.contains(Key::Digit4) {
        Some(4)
    } else {
        None
    }
}

/// The debug scene's line-clear count chosen by the digit keys that went
/// down this frame.
pub fn debug_digit(went_down: &[Key]) -> (d: Option<u32>)
    ensures
        d == spec_debug_digit(went_down@),
{
    if has_key(went_down, Key::Digit1) {
        Some(1)
    } else if has_key(went_down, Key::Digit2) {
        Some(2)
    } else if has_key(went_down, Key::Digit3) {
        Some(3)
    } else if has_key(went_down, Key::Digit4) {
        Some(4)
    } else {
        None
    }
}

} // verus!
