use vstd::prelude::*;
use crate::application::State;
use crate::event::{is_close_requested, StateEvent, WindowEvent};
use crate::transition::{Trans, TransKind};
use crate::ui::{UiCommand, UiContext};

verus! {

/// The editor screen: it shows the UI library's demonstration window each
/// tick that a UI frame can open, and quits when the window is asked to close.
pub struct Editor {}

impl Editor {
    pub fn new() -> (r: Editor) {
        Editor {  }
    }

    /// The transition that the editor asks for on an event: `Quit` on a
    /// request to close the window, else `Stay`.
    pub fn on_event(&self, event: &StateEvent) -> (r: Trans<Editor>)
        ensures
            r.kind_spec() == if *event == StateEvent::Window(
                WindowEvent::CloseRequested,
            ) {
                TransKind::Quit
            } else {
                TransKind::Stay
            },
    {
        match event {
            StateEvent::Window(w) => {
                if is_close_requested(w) {
                    Trans::Quit
                } else {
                    Trans::Stay
                }
            },
            _ => Trans::Stay,
        }
    }

    /// Composes the editor's UI: when a frame opens, it shows the demonstration
    /// window in it and closes it, which submits the frame's draw list. When no
    /// frame can open, the UI is left as it was.
    pub fn compose(&self, ui: &mut UiContext)
        ensures
            old(ui).open || old(ui).opened || !old(ui).ready ==> *final(ui) == *old(ui),
            !old(ui).open && !old(ui).opened && old(ui).ready ==> {
                &&& !final(ui).open
                &&& final(ui).opened
                &&& final(ui).ready
                &&& final(ui).submitted matches Some(d)
                &&& d.commands@ == seq![UiCommand::DemoWindow]
                &&& d.input@ == old(ui).input@
                &&& final(ui).input@.len() == 0
            },
    {
        match ui.open_frame() {
            Ok(()) => {
                ui.compose(UiCommand::DemoWindow);
                ui.close_frame();
                assert(ui.submitted->0.commands@ =~= seq![UiCommand::DemoWindow]);
            },
            Err(_) => {},
        }
    }
}

impl State for Editor {
    open spec fn started(&self, after: Editor) -> bool {
        true
    }

    /// `Quit` on a request to close the window, `Stay` on anything else.
    open spec fn reply(&self, event: StateEvent) -> TransKind {
        if event == StateEvent::Window(WindowEvent::CloseRequested) {
            TransKind::Quit
        } else {
            TransKind::Stay
        }
    }

    /// `Stay`, with the UI as `compose` leaves it: unchanged when no frame can
    /// open, else the demonstration window submitted and no frame left open.
    open spec fn updated(&self, before: UiContext, after: UiContext, reply: TransKind) -> bool {
        &&& reply == TransKind::Stay
        &&& before.open || before.opened || !before.ready ==> after == before
        &&& !before.open && !before.opened && before.ready ==> {
            &&& !after.open
            &&& after.opened
            &&& after.ready
            &&& after.submitted matches Some(d)
            &&& d.commands@ == seq![UiCommand::DemoWindow]
            &&& d.input@ == before.input@
            &&& after.input@.len() == 0
        }
    }

    fn on_start(&mut self) {
    }

    fn on_stop(&mut self) {
    }

    fn handle_event(&mut self, event: &StateEvent) -> (r: Trans<Editor>)
        ensures
            r.kind_spec() == if *event == StateEvent::Window(WindowEvent::CloseRequested) {
                TransKind::Quit
            } else {
                TransKind::Stay
            },
    {
        self.on_event(event)
    }

    fn update(&mut self, ui: &mut UiContext) -> (r: Trans<Editor>)
        ensures
            r.kind_spec() == TransKind::Stay,
            old(ui).open || old(ui).opened || !old(ui).ready ==> *final(ui) == *old(ui),
            !old(ui).open && !old(ui).opened && old(ui).ready ==> {
                &&& !final(ui).open
                &&& final(ui).opened
                &&& final(ui).ready
                &&& final(ui).submitted matches Some(d)
                &&& d.commands@ == seq![UiCommand::DemoWindow]
                &&& d.input@ == old(ui).input@
                &&& final(ui).input@.len() == 0
            },
    {
        self.compose(ui);
        Trans::Stay
    }
}

} // verus!
