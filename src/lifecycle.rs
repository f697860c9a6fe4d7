use vstd::prelude::*;

verus! {

/// Activity events of the platform that matter to the VR session.
#[derive(Clone, Copy, PartialEq, Eq, Structural, Debug)]
pub enum AndroidEvent {
    Resume,
    Pause,
    WindowCreated,
    WindowDestroyed,
    Destroy,
    Other,
}

/// What the event loop does on this pass.
#[derive(Clone, Copy, PartialEq, Eq, Structural, Debug)]
pub enum AppAction {
    ExitVr,
    EnterVr,
    Render,
    Destroy,
    Idle,
}

/// The session state that decides whether VR mode is entered or left and
/// whether a tick is rendered.
#[derive(Clone, Copy, PartialEq, Eq, Structural, Debug)]
pub struct App {
    pub destroy_requested: bool,
    pub resumed: bool,
    pub window_created: bool,
    pub in_vr_mode: bool,
}

impl App {
    /// A session that has seen no event yet.
    pub fn new() -> (r: Self)
        ensures
            r == (App {
                destroy_requested: false,
                resumed: false,
                window_created: false,
                in_vr_mode: false,
            }),
    {
        App { destroy_requested: false, resumed: false, window_created: false, in_vr_mode: false }
    }

    /// Records an activity event.
    pub fn handle_android_event(&mut self, event: AndroidEvent)
        ensures
            final(self).in_vr_mode == old(self).in_vr_mode,
            final(self).resumed == match event {
                AndroidEvent::Resume => true,
                AndroidEvent::Pause => false,
                _ => old(self).resumed,
            },
            final(self).window_created == match event {
                AndroidEvent::WindowCreated => true,
                AndroidEvent::WindowDestroyed => false,
                _ => old(self).window_created,
            },
            final(self).destroy_requested == (old(self).destroy_requested || event
                == AndroidEvent::Destroy),
    {
        match event {
            AndroidEvent::Resume => self.resumed = true,
            AndroidEvent::Pause => self.resumed = false,
            AndroidEvent::WindowCreated => self.window_created = true,
            AndroidEvent::WindowDestroyed => self.window_created = false,
            AndroidEvent::Destroy => self.destroy_requested = true,
            AndroidEvent::Other => {},
        }
    }

    /// VR mode is on, but the activity is paused or has no window.
    pub fn need_to_exit_vr(&self) -> (r: bool)
        ensures
            r == (self.in_vr_mode && (!self.resumed || !self.window_created)),
    {
        if !self.in_vr_mode {
            return false;
        }
        !self.resumed || !self.window_created
    }

    /// VR mode is off, and the activity is resumed with a window.
    pub fn need_to_enter_vr(&self) -> (r: bool)
        ensures
            r == (!self.in_vr_mode && self.resumed && self.window_created),
    {
        if self.in_vr_mode {
            return false;
        }
        self.resumed && self.window_created
    }

    /// A tick may be rendered.
    pub fn should_render(&self) -> (r: bool)
        ensures
            r == (!self.destroy_requested && self.resumed && self.window_created
                && self.in_vr_mode),
    {
        !self.destroy_requested && self.resumed && self.window_created && self.in_vr_mode
    }

    /// What this pass of the event loop does, in order of precedence:
    /// leave VR mode, enter it, render, or tear down.
    pub fn next_state(&self) -> (r: AppAction)
        ensures
            r == if self.in_vr_mode && (!self.resumed || !self.window_created) {
                AppAction::ExitVr
            } else if !self.in_vr_mode && self.resumed && self.window_created {
                AppAction::EnterVr
            } else if !self.destroy_requested && self.resumed && self.window_created
                && self.in_vr_mode {
                AppAction::Render
            } else if self.destroy_requested {
                AppAction::Destroy
            } else {
                AppAction::Idle
            },
    {
        if self.need_to_exit_vr() {
            return AppAction::ExitVr;
        }
        if self.need_to_enter_vr() {
            return AppAction::EnterVr;
        }
        if self.should_render() {
            return AppAction::Render;
        }
        if self.destroy_requested {
            return AppAction::Destroy;
        }
        AppAction::Idle
    }

    /// Records whether VR mode is now on, once it was entered or left.
    pub fn set_vr_mode(&mut self, on: bool)
        ensures
            *final(self) == (App { in_vr_mode: on, ..*old(self) }),
    {
        self.in_vr_mode = on;
    }
}

} // verus!
