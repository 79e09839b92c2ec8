//! Keyboard and mouse controls: click to launch at a point, Space for a
//! finale salvo, A to toggle automatic launching, F for the FPS overlay,
//! F11 for fullscreen, Esc to quit.
use vstd::prelude::*;

verus! {

/// Shells in a finale salvo.
pub const SALVO_SHELLS: u32 = 8;

/// Whether the window is windowed or covers the screen.
#[derive(Clone, Copy, PartialEq, Eq, Structural, Debug)]
pub enum DisplayMode {
    Windowed,
    Fullscreen,
}

/// The toggles that the keyboard flips.
#[derive(Clone, Copy, PartialEq, Eq, Structural, Debug)]
pub struct Controls {
    /// Shells launch on their own at random intervals.
    pub auto_launch: bool,
    /// The frames-per-second readout is shown.
    pub fps_overlay: bool,
}

/// Which keys and buttons were pressed this frame.
#[derive(Clone, Copy, PartialEq, Eq, Structural, Debug)]
pub struct InputFrame {
    pub escape: bool,
    pub key_a: bool,
    pub key_f: bool,
    pub key_f11: bool,
    pub space: bool,
    pub left_click: bool,
}

/// What the frame's input asks the application to do.
#[derive(Clone, Copy, PartialEq, Eq, Structural, Debug)]
pub struct InputResponse {
    pub exit: bool,
    pub toggle_fullscreen: bool,
    /// Shells to launch at random points this frame.
    pub salvo_shells: u32,
    /// Launch one shell toward the cursor, if it is over the sky.
    pub launch_at_cursor: bool,
}

impl Controls {
    /// The controls after a frame's input, and the response to it.
    pub open spec fn handled(self, input: InputFrame) -> (Controls, InputResponse) {
        (
            Controls {
                auto_launch: self.auto_launch != input.key_a,
                fps_overlay: self.fps_overlay != input.key_f,
            },
            InputResponse {
                exit: input.escape,
                toggle_fullscreen: input.key_f11,
                salvo_shells: if input.space {
                    SALVO_SHELLS
                } else {
                    0
                },
                launch_at_cursor: input.left_click,
            },
        )
    }

    /// Automatic launching on, overlay hidden.
    pub fn new() -> (c: Self)
        ensures
            c == (Controls { auto_launch: true, fps_overlay: false }),
    {
        Controls { auto_launch: true, fps_overlay: false }
    }

    /// Applies one frame of input.
    pub fn handle(&mut self, input: InputFrame) -> (response: InputResponse)
        ensures
            (*final(self), response) == old(self).handled(input),
    {
        if input.key_a {
            self.auto_launch = !self.auto_launch;
        }
        if input.key_f {
            self.fps_overlay = !self.fps_overlay;
        }
        InputResponse {
            exit: input.escape,
            toggle_fullscreen: input.key_f11,
            salvo_shells: if input.space {
                SALVO_SHELLS
            } else {
                0
            },
            launch_at_cursor: input.left_click,
        }
    }
}

pub open spec fn toggled(mode: DisplayMode) -> DisplayMode {
    match mode {
        DisplayMode::Windowed => DisplayMode::Fullscreen,
        DisplayMode::Fullscreen => DisplayMode::Windowed,
    }
}

/// F11 switches a windowed window to fullscreen and any other mode back to
/// a window.
pub fn toggled_display(mode: DisplayMode) -> (r: DisplayMode)
    ensures
        r == toggled(mode),
{
    match mode {
        DisplayMode::Windowed => DisplayMode::Fullscreen,
        DisplayMode::Fullscreen => DisplayMode::Windowed,
    }
}

/// F11 pressed twice returns the window to the mode it started in.
pub proof fn law_display_toggle_undoes(mode: DisplayMode)
    ensures
        toggled(toggled(mode)) == mode,
        toggled(mode) != mode,
{
}

/// A toggle key pressed on two frames restores what it toggled, and the
/// other toggle is untouched by it; Esc always asks to quit; Space always
/// launches a salvo of eight.
pub proof fn law_toggles_undo(c: Controls, input: InputFrame)
    ensures
        c.handled(input).0.handled(input).0 == c,
        !input.key_a ==> c.handled(input).0.auto_launch == c.auto_launch,
        !input.key_f ==> c.handled(input).0.fps_overlay == c.fps_overlay,
        c.handled(input).1.exit == input.escape,
        c.handled(input).1.salvo_shells == if input.space {
            8u32
        } else {
            0u32
        },
{
}

/// Every control does what its key says: A flips automatic launching, F
/// flips the overlay, F11 asks for a fullscreen toggle, Esc for exit, Space
/// for a salvo of eight, and a left click for a launch at the cursor.
pub proof fn law_each_key_its_action(c: Controls, input: InputFrame)
    ensures
        c.handled(input).0.auto_launch == (c.auto_launch != input.key_a),
        c.handled(input).0.fps_overlay == (c.fps_overlay != input.key_f),
        c.handled(input).1.toggle_fullscreen == input.key_f11,
        c.handled(input).1.exit == input.escape,
        c.handled(input).1.launch_at_cursor == input.left_click,
        input.space ==> c.handled(input).1.salvo_shells == 8,
        !input.space ==> c.handled(input).1.salvo_shells == 0,
{
}

} // verus!
