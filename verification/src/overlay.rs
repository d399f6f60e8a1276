use vstd::prelude::*;

verus! {

/// What the user asked for when leaving the overlay.
#[derive(Clone, Copy, Debug, PartialEq, Eq, Structural)]
pub enum Action {
    /// Put the selected area on the clipboard.
    Copy,
    /// Write the selected area to a PNG file.
    Save,
}

/// Why the overlay closed.
#[derive(Clone, Copy, Debug, PartialEq, Eq, Structural)]
pub enum ExitFlag {
    Cancelled,
    Copy,
    Save,
}

/// A key press, as far as the overlay tells keys apart.
#[derive(Clone, Copy, Debug, PartialEq, Eq, Structural)]
pub enum Key {
    Escape,
    Return,
    Space,
    /// A key that produces this character.
    Char(char),
    Other,
}

/// The exit a key press asks for: Escape cancels; Enter, Space and Ctrl+C
/// copy the selection; Ctrl+S saves it. Other keys do nothing.
pub fn key_exit(key: Key, ctrl_held: bool) -> (r: Option<ExitFlag>)
    ensures
        r == match key {
            Key::Escape => Some(ExitFlag::Cancelled),
            Key::Return | Key::Space => Some(ExitFlag::Copy),
            Key::Char(c) => if ctrl_held && (c == 'c' || c == 'C') {
                Some(ExitFlag::Copy)
            } else if ctrl_held && (c == 's' || c == 'S') {
                Some(ExitFlag::Save)
            } else {
                None
            },
            Key::Other => None,
        },
{
    match key {
        Key::Escape => Some(ExitFlag::Cancelled),
        Key::Return | Key::Space => Some(ExitFlag::Copy),
        Key::Char(c) => {
            if ctrl_held && (c == 'c' || c == 'C') {
                Some(ExitFlag::Copy)
            } else if ctrl_held && (c == 's' || c == 'S') {
                Some(ExitFlag::Save)
            } else {
                None
            }
        },
        Key::Other => None,
    }
}

/// The action that the overlay reports for the way it closed: copying and
/// saving are reported, a cancellation (or no exit at all) is not.
pub fn exit_action(flag: Option<ExitFlag>) -> (r: Option<Action>)
    ensures
        r == match flag {
            Some(ExitFlag::Copy) => Some(Action::Copy),
            Some(ExitFlag::Save) => Some(Action::Save),
            _ => None,
        },
{
    match flag {
        Some(ExitFlag::Copy) => Some(Action::Copy),
        Some(ExitFlag::Save) => Some(Action::Save),
        Some(ExitFlag::Cancelled) | None => None,
    }
}

/// The overlay's size after the compositor configured it: a dimension the
/// compositor leaves to the client (zero) becomes 1920 x 1080.
pub fn configured_size(width: u32, height: u32) -> (r: (u32, u32))
    ensures
        r.0 == if width == 0 { 1920 } else { width },
        r.1 == if height == 0 { 1080 } else { height },
{
    let w = if width == 0 {
        1920
    } else {
        width
    };
    let h = if height == 0 {
        1080
    } else {
        height
    };
    (w, h)
}

/// The bytes of one ARGB8888 frame of the overlay.
pub fn frame_bytes(width: u32, height: u32) -> (r: usize)
    requires
        width * height * 4 <= usize::MAX,
    ensures
        r == width * height * 4,
{
    proof {
        vstd::arithmetic::mul::lemma_mul_nonnegative(width as int, height as int);
    }
    (width as usize) * (height as usize) * 4
}

/// The damaged region of a redraw: the given bounds, except on the first
/// drawing or without bounds, when the whole surface is damaged.
pub open spec fn damage_of(first_draw: bool, bounds: Option<(i32, i32, i32, i32)>, width: u32, height: u32) -> (i32, i32, i32, i32) {
    match bounds {
        Some(b) if !first_draw => b,
        _ => (0i32, 0i32, width as i32, height as i32),
    }
}

/// Decides a frame of the overlay: nothing is drawn again when it has been
/// drawn before and the selection did not change (only the next frame is
/// requested); otherwise it is redrawn and the returned region is damaged.
pub fn plan_frame(
    first_draw: bool,
    selection_changed: bool,
    bounds: Option<(i32, i32, i32, i32)>,
    width: u32,
    height: u32,
) -> (r: Option<(i32, i32, i32, i32)>)
    ensures
        r == if !first_draw && !selection_changed {
            None
        } else {
            Some(damage_of(first_draw, bounds, width, height))
        },
        first_draw ==> r == Some((0i32, 0i32, width as i32, height as i32)),
        !first_draw && selection_changed && bounds is Some ==> r == bounds,
        !first_draw && selection_changed && bounds is None ==> r == Some((0i32, 0i32, width as i32, height as i32)),
{
    if !first_draw && !selection_changed {
        return None;
    }
    match bounds {
        Some(b) if !first_draw => Some(b),
        _ => Some((0, 0, width as i32, height as i32)),
    }
}

} // verus!
