//! Level-editor stub: an on/off switch and the brush in hand.

use vstd::prelude::*;

verus! {

/// Brush of the level editor.
#[derive(Clone, Copy, Debug, PartialEq, Eq, Structural)]
pub enum EditorBrush {
    Empty,
    Wall,
    Screw,
    Robbo,
}

/// Level editor switch and brush.
#[derive(Clone, Copy, Debug, PartialEq, Eq, Structural)]
pub struct EditorState {
    pub active: bool,
    pub brush: EditorBrush,
}

impl EditorState {
    /// Off, with the empty brush.
    pub fn new() -> (e: Self)
        ensures
            e == (EditorState { active: false, brush: EditorBrush::Empty }),
    {
        EditorState { active: false, brush: EditorBrush::Empty }
    }

    /// F9 switches the editor on or off.
    pub fn toggle(&mut self, f9_pressed: bool)
        ensures
            final(self).active == (old(self).active != f9_pressed),
            final(self).brush == old(self).brush,
    {
        if f9_pressed {
            self.active = !self.active;
        }
    }

    /// Whether the editor overlay applies: on, while playing.
    pub fn shown(&self, playing: bool) -> (b: bool)
        ensures
            b == (playing && self.active),
    {
        playing && self.active
    }
}

} // verus!
