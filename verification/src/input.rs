//! Window input: which events end the session, and what a frame does with the
//! events that arrived since the last one.

use vstd::prelude::*;

verus! {

/// The window system's key code of the Q key.
pub const KEY_Q: i32 = 113;

/// A window event, reduced to what the render loop reads of it.
#[derive(PartialEq, Eq, Structural, Clone, Copy, Debug)]
pub enum Input {
    /// The window system asks the program to quit.
    Quit,
    /// A key went down; its key code, where the window system has one for it.
    KeyDown(Option<i32>),
    /// Any other event.
    Other,
}

/// What the render loop does in one frame.
#[derive(PartialEq, Eq, Structural, Clone, Copy, Debug)]
pub enum FrameAction {
    /// Advance the animation, draw and present.
    Draw,
    /// Leave the loop and release the GPU objects.
    Exit,
}

/// `input` ends the session: a quit request, or the Q key going down.
pub open spec fn ends_session(input: Input) -> bool {
    input == Input::Quit || input == Input::KeyDown(Some(KEY_Q))
}

/// Some input among `inputs` ends the session.
pub open spec fn any_ends_session(inputs: Seq<Input>) -> bool {
    exists|i: int| 0 <= i < inputs.len() && ends_session(#[trigger] inputs[i])
}

/// Whether `input` ends the session.
pub fn is_exit(input: Input) -> (exit: bool)
    ensures
        exit == ends_session(input),
{
    match input {
        Input::Quit => true,
        Input::KeyDown(Some(code)) => code == KEY_Q,
        _ => false,
    }
}

/// Decides a frame from the events that are pending at its start: the loop is
/// left as soon as one of them ends the session, and the frame is drawn
/// otherwise.
pub fn frame_action(inputs: &[Input]) -> (action: FrameAction)
    ensures
        action == if any_ends_session(inputs@) {
            FrameAction::Exit
        } else {
            FrameAction::Draw
        },
{
    let mut i: usize = 0;
    while i < inputs.len()
        invariant
            i <= inputs.len(),
            forall|k: int| 0 <= k < i ==> !ends_session(#[trigger] inputs@[k]),
        decreases inputs.len() - i,
    {
        if is_exit(inputs[i]) {
            return FrameAction::Exit;
        }
        i += 1;
    }
    FrameAction::Draw
}

} // verus!
