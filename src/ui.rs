use vstd::prelude::*;
use crate::event::WindowEvent;

verus! {

/// A composition call made against an open UI frame.
#[derive(Clone, Copy, Debug, PartialEq, Eq, Structural)]
pub enum UiCommand {
    /// Show the UI library's demonstration window.
    DemoWindow,
}

/// Why `open_frame` gave no frame.
#[derive(Clone, Copy, Debug, PartialEq, Eq, Structural)]
pub enum FrameError {
    /// The render surface is not ready (for instance, the window is
    /// minimized): skip the UI for this tick.
    Unavailable,
    /// A frame is open already; frames do not nest.
    AlreadyOpen,
    /// A frame was opened already during this tick.
    AlreadyUsed,
}

/// What a closed frame hands to the render pipeline's UI pass.
pub struct DrawList {
    /// The raw input that the frame saw, in arrival order.
    pub input: Vec<WindowEvent>,
    /// The composition calls of the frame, in order.
    pub commands: Vec<UiCommand>,
}

/// The immediate-mode UI context: at most one frame is open at a time, and at
/// most one is opened per tick.
pub struct UiContext {
    /// Whether the render surface can take a UI frame this tick.
    pub ready: bool,
    /// Whether a frame is open.
    pub open: bool,
    /// Whether a frame was opened during this tick.
    pub opened: bool,
    /// Raw input gathered since the last frame was closed.
    pub input: Vec<WindowEvent>,
    /// Composition calls of the open frame.
    pub commands: Vec<UiCommand>,
    /// The draw list of the frame closed during this tick, if any.
    pub submitted: Option<DrawList>,
}

impl UiContext {
    pub fn new() -> (r: UiContext)
        ensures
            !r.ready,
            !r.open,
            !r.opened,
            r.input@.len() == 0,
            r.commands@.len() == 0,
            r.submitted is None,
    {
        UiContext {
            ready: false,
            open: false,
            opened: false,
            input: Vec::new(),
            commands: Vec::new(),
            submitted: None,
        }
    }

    /// Starts a tick: records whether the surface is ready, drops any frame
    /// left open and forgets the previous tick's frame. Gathered input is kept.
    pub fn begin_tick(&mut self, ready: bool)
        ensures
            final(self).ready == ready,
            !final(self).open,
            !final(self).opened,
            final(self).submitted is None,
            final(self).input@ == old(self).input@,
            final(self).commands@.len() == 0,
    {
        self.ready = ready;
        self.open = false;
        self.opened = false;
        self.commands = Vec::new();
        self.submitted = None;
    }

    /// Hands a raw input event to the UI, whether or not a frame is open.
    pub fn inject(&mut self, event: WindowEvent)
        ensures
            final(self).input@ == old(self).input@.push(event),
            final(self).ready == old(self).ready,
            final(self).open == old(self).open,
            final(self).opened == old(self).opened,
            final(self).commands@ == old(self).commands@,
            final(self).submitted == old(self).submitted,
    {
        self.input.push(event);
    }

    /// Opens the frame of this tick. On failure nothing changes.
    pub fn open_frame(&mut self) -> (r: Result<(), FrameError>)
        ensures
            old(self).open ==> r == Err::<(), FrameError>(FrameError::AlreadyOpen),
            !old(self).open && old(self).opened ==> r == Err::<(), FrameError>(
                FrameError::AlreadyUsed,
            ),
            !old(self).open && !old(self).opened && !old(self).ready ==> r == Err::<
                (),
                FrameError,
            >(FrameError::Unavailable),
            !old(self).open && !old(self).opened && old(self).ready ==> r is Ok,
            r is Err ==> *final(self) == *old(self),
            r is Ok ==> final(self).open && final(self).opened && final(self).commands@.len()
                == 0,
            final(self).ready == old(self).ready,
            final(self).input@ == old(self).input@,
            final(self).submitted == old(self).submitted,
    {
        if self.open {
            Err(FrameError::AlreadyOpen)
        } else if self.opened {
            Err(FrameError::AlreadyUsed)
        } else if !self.ready {
            Err(FrameError::Unavailable)
        } else {
            self.open = true;
            self.opened = true;
            self.commands = Vec::new();
            Ok(())
        }
    }

    /// Records a composition call in the open frame.
    pub fn compose(&mut self, command: UiCommand)
        requires
            old(self).open,
        ensures
            final(self).commands@ == old(self).commands@.push(command),
            final(self).ready == old(self).ready,
            final(self).open == old(self).open,
            final(self).opened == old(self).opened,
            final(self).input@ == old(self).input@,
            final(self).submitted == old(self).submitted,
    {
        self.commands.push(command);
    }

    /// Closes the open frame and submits its draw list: the input it saw and
    /// its composition calls. Without an open frame nothing changes.
    pub fn close_frame(&mut self)
        ensures
            !final(self).open,
            final(self).ready == old(self).ready,
            final(self).opened == old(self).opened,
            old(self).open ==> ({
                &&& final(self).submitted matches Some(d)
                &&& d.input@ == old(self).input@
                &&& d.commands@ == old(self).commands@
                &&& final(self).input@.len() == 0
                &&& final(self).commands@.len() == 0
            }),
            !old(self).open ==> *final(self) == *old(self),
    {
        if self.open {
            let mut input: Vec<WindowEvent> = Vec::new();
            let mut commands: Vec<UiCommand> = Vec::new();
            std::mem::swap(&mut input, &mut self.input);
            std::mem::swap(&mut commands, &mut self.commands);
            self.submitted = Some(DrawList { input, commands });
            self.open = false;
        }
    }
}

} // verus!
