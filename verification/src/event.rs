//! Reading of the engine's event records as typed events.

use crate::key::{decode, Key};
use crate::wire::{low_u32, u32_of_i32};
use vstd::prelude::*;

verus! {

/// Kind tag of a record that reports nothing: the engine's wait ran out.
pub const EVENT_NONE: u8 = 0;

/// Kind tag of a record that reports a keypress.
pub const EVENT_KEY: u8 = 1;

/// Kind tag of a record that reports a new size of the terminal.
pub const EVENT_RESIZE: u8 = 2;

/// One record of the engine's event source, field by field. Which fields
/// mean anything depends on the kind.
#[derive(PartialEq, Eq, Structural, Clone, Copy, Debug)]
pub struct RawEvent {
    pub kind: u8,
    /// Of a keypress: the key's code, or zero where `codepoint` says what
    /// was typed.
    pub key_code: u16,
    /// Of a keypress without a key code: the character typed.
    pub codepoint: u32,
    /// Of a resize: the new number of columns.
    pub width: i32,
    /// Of a resize: the new number of rows.
    pub height: i32,
}

/// Something that happened at the terminal.
#[derive(PartialEq, Eq, Structural, Clone, Copy, Debug)]
pub enum Event {
    /// A key was pressed.
    Key(Key),
    /// The terminal now has this many columns and rows.
    Resize(u32, u32),
}

/// Whether `codepoint` is a Unicode scalar value: a code point that is no
/// surrogate.
pub open spec fn is_scalar(codepoint: u32) -> bool {
    codepoint <= 0xD7FF || 0xE000 <= codepoint <= 0x10FFFF
}

/// What a record means.
///
/// A record of no kind means nothing, whatever its other fields hold. A
/// keypress without a key code is the character in `codepoint`, which has
/// to be a scalar value; one with a key code is the key that the code
/// stands for, and nothing where it stands for none. A resize gives the
/// new size as the engine reports it. A record of any other kind is an
/// error.
pub open spec fn event_of(ev: RawEvent) -> Result<Option<Event>, ()> {
    if ev.kind == EVENT_NONE {
        Ok(None)
    } else if ev.kind == EVENT_KEY {
        if ev.key_code == 0 {
            if is_scalar(ev.codepoint) {
                Ok(Some(Event::Key(Key::Char(ev.codepoint as char))))
            } else {
                Err(())
            }
        } else {
            match decode(ev.key_code) {
                Some(key) => Ok(Some(Event::Key(key))),
                None => Ok(None),
            }
        }
    } else if ev.kind == EVENT_RESIZE {
        Ok(Some(Event::Resize(low_u32(ev.width as int), low_u32(ev.height as int))))
    } else {
        Err(())
    }
}

/// `char::from_u32` of the standard library gives the character with the
/// code point `i` where `i` is a Unicode scalar value, and `None` for every
/// other number.
pub assume_specification[ char::from_u32 ](i: u32) -> (r: Option<char>)
    ensures
        is_scalar(i) ==> r == Some(i as char),
        !is_scalar(i) ==> r is None,
;

/// Translates one record of the engine into an event. `Ok(None)` means
/// that nothing happened that a caller needs to hear of.
pub fn translate(ev: RawEvent) -> (r: Result<Option<Event>, ()>)
    ensures
        r == event_of(ev),
        ev.kind == EVENT_NONE ==> r == Ok::<Option<Event>, ()>(None),
        ev.kind == EVENT_RESIZE && ev.width >= 0 && ev.height >= 0 ==> r == Ok::<
            Option<Event>,
            (),
        >(Some(Event::Resize(ev.width as u32, ev.height as u32))),
        r is Err <==> (ev.kind == EVENT_KEY && ev.key_code == 0 && !is_scalar(ev.codepoint)) || (
        ev.kind != EVENT_NONE && ev.kind != EVENT_KEY && ev.kind != EVENT_RESIZE),
{
    match ev.kind {
        EVENT_NONE => Ok(None),
        EVENT_KEY => {
            if ev.key_code == 0 {
                match char::from_u32(ev.codepoint) {
                    Some(c) => Ok(Some(Event::Key(Key::Char(c)))),
                    None => Err(()),
                }
            } else {
                match Key::from_code(ev.key_code) {
                    Some(key) => Ok(Some(Event::Key(key))),
                    None => Ok(None),
                }
            }
        },
        EVENT_RESIZE => Ok(Some(Event::Resize(u32_of_i32(ev.width), u32_of_i32(ev.height)))),
        _ => Err(()),
    }
}

} // verus!
