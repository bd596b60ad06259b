use vstd::prelude::*;

verus! {

/// Mouse buttons, numbered for use as an index into the input helper's
/// button state.
#[derive(Clone, Copy, Debug, PartialEq, Eq, Structural)]
pub enum MouseButton {
    Left,
    Right,
    Middle,
    Other,
}

/// The position of a button in the order `Left, Right, Middle, Other`.
pub open spec fn button_index(b: MouseButton) -> usize {
    match b {
        MouseButton::Left => 0,
        MouseButton::Right => 1,
        MouseButton::Middle => 2,
        MouseButton::Other => 3,
    }
}

impl From<MouseButton> for usize {
    fn from(b: MouseButton) -> (r: usize)
        ensures
            r == button_index(b),
    {
        match b {
            MouseButton::Left => 0,
            MouseButton::Right => 1,
            MouseButton::Middle => 2,
            MouseButton::Other => 3,
        }
    }
}

impl vstd::std_specs::convert::FromSpecImpl<MouseButton> for usize {
    open spec fn obeys_from_spec() -> bool {
        true
    }

    open spec fn from_spec(b: MouseButton) -> usize {
        button_index(b)
    }
}

} // verus!
